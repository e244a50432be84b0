use increment_ui::event_loop::exit_requested;
use increment_ui::event_loop::EventLoop;
use increment_ui::event_loop::WindowEvent;
use increment_ui::event_loop::FRAME_INTERVAL_MS;
use increment_ui::main_loop::AppLoop;
use increment_ui::widgets::TextBoxEvent;

#[test]
fn escape_requests_exit() {
    let events = vec![WindowEvent::Other, WindowEvent::EscapePressed];
    assert!(exit_requested(&events));
}

#[test]
fn close_requests_exit() {
    let events = vec![WindowEvent::CloseRequested];
    assert!(exit_requested(&events));
}

#[test]
fn other_events_do_not_exit() {
    assert!(!exit_requested(&vec![]));
    assert!(!exit_requested(&vec![WindowEvent::Other, WindowEvent::Other]));
}

#[test]
fn pacer_starts_owing_an_update() {
    let pacer = EventLoop::new();
    assert!(pacer.ui_needs_update);
    assert_eq!(pacer.last_update_ms, 0);
}

#[test]
fn pace_delay_fills_the_interval() {
    let mut pacer = EventLoop::new();
    pacer.finish_cycle(100);
    assert_eq!(pacer.pace_delay_ms(100), FRAME_INTERVAL_MS);
    assert_eq!(pacer.pace_delay_ms(110), 6);
    assert_eq!(pacer.pace_delay_ms(116), 0);
    assert_eq!(pacer.pace_delay_ms(500), 0);
}

#[test]
fn idle_wait_only_when_nothing_pends() {
    let mut pacer = EventLoop::new();
    assert!(!pacer.should_wait_for_event(0));
    assert!(!pacer.should_wait_for_event(3));
    pacer.finish_cycle(0);
    assert!(pacer.should_wait_for_event(0));
    assert!(!pacer.should_wait_for_event(1));
    pacer.needs_update();
    assert!(!pacer.should_wait_for_event(0));
}

#[test]
fn exit_event_stops_the_loop_without_widget_work() {
    let mut app = AppLoop::new();
    let window_events = vec![WindowEvent::EscapePressed];
    let text_events = vec![TextBoxEvent::Update(String::from("41"))];
    app.frame(&window_events, &text_events, true);
    assert!(!app.running);
    assert_eq!(app.state.input, "0");
    assert_eq!(app.state.result, "1");
}

#[test]
fn stopped_loop_processes_no_further_frame() {
    let mut app = AppLoop::new();
    app.frame(&vec![WindowEvent::CloseRequested], &vec![], false);
    assert!(!app.running);
    let text_events = vec![TextBoxEvent::Update(String::from("41"))];
    app.frame(&vec![], &text_events, true);
    assert!(!app.running);
    assert_eq!(app.state.input, "0");
    assert_eq!(app.state.result, "1");
}

#[test]
fn running_loop_processes_the_frame() {
    let mut app = AppLoop::new();
    let text_events = vec![TextBoxEvent::Update(String::from("41"))];
    app.frame(&vec![WindowEvent::Other], &text_events, true);
    assert!(app.running);
    assert_eq!(app.state.input, "41");
    assert_eq!(app.state.result, "42");
}

#[test]
fn frame_reports_a_rejected_click() {
    let mut app = AppLoop::new();
    let text_events = vec![TextBoxEvent::Update(String::from("abc"))];
    assert!(app.frame(&vec![], &text_events, true));
    assert_eq!(app.state.result, "1");
    assert!(!app.frame(&vec![], &vec![], false));
}
