use tameta::render::Renderer;
use tameta::session::{is_continue, should_continue, Focus, Phase, Screen, FOCUS_DONE, REST_DONE};
use tameta::timer::Timer;

#[test]
fn countdown_of_three_seconds_draws_twice() {
    let focus = Focus::new(Screen::new(), Renderer::new());
    let mut timer = Timer::from_secs(3);
    let mut ticks = 0;
    let mut drawn = Vec::new();
    loop {
        ticks += 1;
        match focus.start_timer_step(&mut timer) {
            Some(lines) => {
                assert_eq!(lines.len(), 5);
                drawn.push(timer.remaining_secs());
            }
            None => break,
        }
    }
    assert_eq!(ticks, 3);
    assert_eq!(drawn, vec![2, 1]);
    assert_eq!(timer.remaining_secs(), 0);
}

#[test]
fn sessions_start_from_their_presets() {
    let focus = Focus::new(Screen::new(), Renderer::new());
    assert_eq!(focus.start_session().remaining_secs(), 1500);
    assert_eq!(focus.start_rest().remaining_secs(), 300);
    assert_eq!(focus.timer_for(Phase::FocusSession).unwrap().remaining_secs(), 1500);
    assert_eq!(focus.timer_for(Phase::RestSession).unwrap().remaining_secs(), 300);
    assert!(focus.timer_for(Phase::Prompt).is_none());
    assert!(focus.timer_for(Phase::Stopped).is_none());
}

#[test]
fn continue_only_on_y() {
    assert!(should_continue("Y"));
    assert!(should_continue("y"));
    assert!(should_continue("y\n"));
    assert!(should_continue("  Y \r\n"));
    assert!(!should_continue(""));
    assert!(!should_continue("\n"));
    assert!(!should_continue("n"));
    assert!(!should_continue("N"));
    assert!(!should_continue("yes"));
    assert!(!should_continue("YY"));
}

#[test]
fn is_continue_compares_exactly() {
    assert!(is_continue("Y"));
    assert!(!is_continue("y"));
    assert!(!is_continue(" Y"));
    assert!(!is_continue(""));
    assert!(!is_continue("YES"));
}

#[test]
fn phases_follow_in_order() {
    assert_eq!(Phase::FocusSession.next(false), Phase::RestSession);
    assert_eq!(Phase::RestSession.next(true), Phase::Prompt);
    assert_eq!(Phase::Prompt.next(true), Phase::FocusSession);
    assert_eq!(Phase::Prompt.next(false), Phase::Stopped);
    assert_eq!(Phase::Stopped.next(true), Phase::Stopped);
}

#[test]
fn phase_messages() {
    assert_eq!(Phase::FocusSession.message(), Some(FOCUS_DONE));
    assert_eq!(Phase::RestSession.message(), Some(REST_DONE));
    assert_eq!(Phase::Prompt.message(), None);
    assert_eq!(Phase::Stopped.message(), None);
}
