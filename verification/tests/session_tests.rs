use easycurses::CursorVisibility;
use easycurses::RunEnding;
use easycurses::Session;
use easycurses::SimTerminal;
use easycurses::run_capturing_failure;
use easycurses::run_session_capturing;

fn assert_fully_registered(t: &SimTerminal) {
    assert_eq!(t.pair_table.len(), 64);
    for fg in 0..8i16 {
        for bg in 0..8i16 {
            let slot = (8 * fg + bg) as usize;
            assert_eq!(t.pair_table[slot], Some((fg, bg)));
        }
    }
}

#[test]
fn test_capture_normal_return() {
    let term = SimTerminal::new(true, true, true, true, true);
    let (after, report) = run_capturing_failure(term, RunEnding::Normal(17u32));
    assert_eq!(report, Ok(17));
    assert_eq!(after.init_calls, 1);
    assert_eq!(after.end_calls, 1);
    assert!(!after.active);
    assert_fully_registered(&after);
}

#[test]
fn test_capture_string_panic_payload() {
    let term = SimTerminal::new(true, true, true, true, true);
    let ending: RunEnding<u32> = RunEnding::PanicText("boom".to_string());
    let (after, report) = run_capturing_failure(term, ending);
    assert_eq!(report, Err(Some("boom".to_string())));
    assert_eq!(after.init_calls, 1);
    assert_eq!(after.end_calls, 1);
    assert!(!after.active);
}

#[test]
fn test_capture_opaque_panic_payload() {
    let term = SimTerminal::new(true, true, true, true, true);
    let ending: RunEnding<u32> = RunEnding::PanicOpaque;
    let (after, report) = run_capturing_failure(term, ending);
    assert_eq!(report, Err(None));
    assert_eq!(after.init_calls, 1);
    assert_eq!(after.end_calls, 1);
    assert!(!after.active);
}

#[test]
fn test_unsupported_visibility_leaves_mode_unchanged() {
    // This terminal cannot hide its cursor, but can show it plainly or
    // highly visibly.
    let term = SimTerminal::new(false, false, false, true, true);
    let mut session = Session::initialize_system(term);
    let denied = session.set_cursor_visibility(CursorVisibility::Invisible);
    assert_eq!(denied, None);
    // The previously active mode (the default, Visible) is still in force:
    // a supported change reports it as the old setting.
    let granted = session.set_cursor_visibility(CursorVisibility::HighlyVisible);
    assert_eq!(granted, Some(CursorVisibility::Visible));
    let after = session.teardown();
    assert_eq!(after.visibility, CursorVisibility::HighlyVisible);
    assert_eq!(after.end_calls, 1);
}

#[test]
fn test_supported_visibility_returns_previous_mode() {
    let term = SimTerminal::new(false, false, true, true, true);
    let mut session = Session::initialize_system(term);
    assert_eq!(
        session.set_cursor_visibility(CursorVisibility::Invisible),
        Some(CursorVisibility::Visible)
    );
    assert_eq!(
        session.set_cursor_visibility(CursorVisibility::Visible),
        Some(CursorVisibility::Invisible)
    );
    let after = session.teardown();
    assert_eq!(after.visibility, CursorVisibility::Visible);
}

#[test]
fn test_run_session_capturing_runs_work_against_live_session() {
    let term = SimTerminal::new(true, true, true, true, true);
    let work = |mut s: Session| {
        let previous = s.set_cursor_visibility(CursorVisibility::Invisible);
        assert_eq!(previous, Some(CursorVisibility::Visible));
        (s, RunEnding::Normal(99u8))
    };
    let (after, report) = run_session_capturing(term, work);
    assert_eq!(report, Ok(99));
    assert_eq!(after.init_calls, 1);
    assert_eq!(after.end_calls, 1);
    assert!(!after.active);
    assert_eq!(after.visibility, CursorVisibility::Invisible);
    assert_fully_registered(&after);
}

#[test]
fn test_run_session_capturing_finalizes_on_abnormal_ending() {
    let term = SimTerminal::new(false, false, true, true, true);
    let work = |s: Session| {
        let ending: RunEnding<u8> = RunEnding::PanicText("lost".to_string());
        (s, ending)
    };
    let (after, report) = run_session_capturing(term, work);
    assert_eq!(report, Err(Some("lost".to_string())));
    assert_eq!(after.init_calls, 1);
    assert_eq!(after.end_calls, 1);
}

#[test]
fn test_sequential_sessions_each_balance_and_re_register() {
    let term = SimTerminal::new(true, true, true, true, true);
    let (mut between, first) = run_capturing_failure(term, RunEnding::Normal(1u8));
    assert_eq!(first, Ok(1));
    assert_eq!(between.init_calls, 1);
    assert_eq!(between.end_calls, 1);
    assert_fully_registered(&between);
    // Damage the table between the sessions: the second session must not
    // depend on anything the first one left behind.
    between.pair_table[13] = None;
    between.pair_table[40] = Some((0, 0));
    let (after, second) = run_capturing_failure(between, RunEnding::Normal(2u8));
    assert_eq!(second, Ok(2));
    assert_eq!(after.init_calls, 2);
    assert_eq!(after.end_calls, 2);
    assert!(!after.active);
    assert_fully_registered(&after);
}

#[test]
fn test_session_without_color_registers_nothing() {
    let term = SimTerminal::new(false, false, true, true, true);
    let mut session = Session::initialize_system(term);
    assert!(!session.is_color_terminal());
    let after = session.teardown();
    assert_eq!(after.init_calls, 1);
    assert_eq!(after.end_calls, 1);
    for slot in after.pair_table.iter() {
        assert_eq!(*slot, None);
    }
}

#[test]
fn test_color_start_failure_means_no_color_support() {
    // The terminal claims color, but starting color mode fails.
    let term = SimTerminal::new(true, false, true, true, true);
    let mut session = Session::initialize_system(term);
    assert!(!session.is_color_terminal());
    let after = session.teardown();
    for slot in after.pair_table.iter() {
        assert_eq!(*slot, None);
    }
}
