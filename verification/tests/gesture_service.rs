use pointer_gestures::config::GestureConfig;
use pointer_gestures::dispatch::{Directive, Phase, Request};
use pointer_gestures::event::MouseEvent;
use pointer_gestures::mouse_service::MouseService;
use pointer_gestures::sample::PointerSample;

const POLL: Request = Request::Poll { delay_ms: 10 };

fn up(x: i32, y: i32) -> Option<PointerSample> {
    Some(PointerSample::new(x, y, vec![false, false, false, false, false, false]))
}

fn down(x: i32, y: i32) -> Option<PointerSample> {
    Some(PointerSample::new(x, y, vec![false, true, false, false, false, false]))
}

fn started_at(x: i32, y: i32) -> MouseService {
    let mut service = MouseService::new();
    let first = service.start(PointerSample::new(x, y, vec![false; 6]));
    assert!(first.events.is_empty());
    assert_eq!(first.next, Request::Poll { delay_ms: 0 });
    service
}

fn expect(directive: Directive, events: Vec<MouseEvent>, next: Request) {
    assert_eq!(directive.events, events);
    assert_eq!(directive.next, next);
}

/// Runs a whole selection check the way a driver would and returns the
/// events it delivered.
fn run_check(
    service: &mut MouseService,
    enabled: bool,
    asked_at: u64,
    settled_at: u64,
    text: Option<&str>,
) -> Vec<MouseEvent> {
    let mut delivered = Vec::new();
    let mut directive = service.on_extraction_enabled(Ok(enabled), asked_at);
    loop {
        delivered.extend(directive.events);
        directive = match directive.next {
            Request::Settle { delay_ms } => {
                assert_eq!(delay_ms, 50);
                service.on_settled(settled_at)
            }
            Request::ReadSelectedText => {
                service.on_selected_text(text.map(|t| t.to_string()).ok_or("no text".to_string()))
            }
            Request::QueryExtractionEnabled => panic!("asked twice"),
            Request::Poll { .. } | Request::Halt => return delivered,
        };
    }
}

#[test]
fn new_service_is_stopped_and_halts() {
    let mut service = MouseService::new();
    assert!(!service.is_running());
    assert_eq!(service.phase(), Phase::Stopped);
    assert_eq!(service.awaited(), Request::Halt);
    assert_eq!(service.config(), GestureConfig::standard());
    assert!(!service.is_dragging());
    assert!(!service.is_click_inside_icon(0, 0));
    expect(service.on_sample(down(1, 1), 5), vec![], Request::Halt);
    assert_eq!(service.click_timing().last_click_at, None);
}

#[test]
fn standard_config_values() {
    let config = GestureConfig::default();
    assert_eq!(config.double_click_window_ms, 500);
    assert_eq!(config.debounce_interval_ms, 300);
    assert_eq!(config.settle_delay_ms, 50);
    assert_eq!(config.tick_interval_ms, 10);
    assert_eq!(config.primary_button, 1);
}

#[test]
fn click_without_movement_gives_only_press_and_release() {
    let mut service = started_at(100, 100);
    expect(
        service.on_sample(down(100, 100), 1_000),
        vec![MouseEvent::ButtonPressed(())],
        POLL,
    );
    assert!(service.is_dragging());
    expect(service.on_sample(down(100, 100), 1_010), vec![], POLL);
    expect(
        service.on_sample(up(100, 100), 1_020),
        vec![MouseEvent::ButtonReleased(())],
        POLL,
    );
    assert!(!service.is_dragging());
    assert_eq!(service.phase(), Phase::Polling);
}

#[test]
fn drag_release_announces_text_once_then_debounces() {
    let mut service = started_at(100, 100);
    expect(
        service.on_sample(down(100, 100), 600),
        vec![MouseEvent::ButtonPressed(())],
        POLL,
    );
    expect(
        service.on_sample(down(180, 140), 1_010),
        vec![MouseEvent::Move(())],
        POLL,
    );
    expect(
        service.on_sample(up(250, 180), 1_020),
        vec![MouseEvent::ButtonReleased(())],
        Request::QueryExtractionEnabled,
    );
    assert_eq!(
        service.phase(),
        Phase::AwaitingEnabled(pointer_gestures::gesture::SelectionTrigger::Drag)
    );
    expect(
        service.on_extraction_enabled(Ok(true), 1_025),
        vec![],
        Request::Settle { delay_ms: 50 },
    );
    expect(service.on_settled(1_075), vec![], Request::ReadSelectedText);
    expect(
        service.on_selected_text(Ok("hello world".to_string())),
        vec![MouseEvent::TextSelected("hello world".to_string())],
        POLL,
    );
    assert_eq!(service.last_text(), "hello world");
    assert_eq!(service.debounce().last_emitted_at, Some(1_075));

    // Another drag completes 200 ms later, over other text: vetoed.
    expect(
        service.on_sample(down(300, 300), 1_200),
        vec![MouseEvent::ButtonPressed(()), MouseEvent::Move(())],
        POLL,
    );
    expect(
        service.on_sample(up(400, 300), 1_270),
        vec![MouseEvent::ButtonReleased(())],
        Request::QueryExtractionEnabled,
    );
    assert_eq!(
        run_check(&mut service, true, 1_272, 1_322, Some("other text")),
        vec![]
    );
    assert_eq!(service.last_text(), "hello world");
    assert_eq!(service.debounce().last_emitted_at, Some(1_075));
    assert_eq!(service.phase(), Phase::Polling);

    // A drag that ends a full interval after the announcement goes through.
    expect(
        service.on_sample(down(300, 300), 1_800),
        vec![MouseEvent::ButtonPressed(()), MouseEvent::Move(())],
        POLL,
    );
    expect(
        service.on_sample(up(400, 300), 1_810),
        vec![MouseEvent::ButtonReleased(())],
        Request::QueryExtractionEnabled,
    );
    assert_eq!(
        run_check(&mut service, true, 1_811, 1_861, Some("other text")),
        vec![MouseEvent::TextSelected("other text".to_string())]
    );
    assert_eq!(service.debounce().last_emitted_at, Some(1_861));
}

#[test]
fn debounce_boundary_is_exactly_the_interval() {
    let config = GestureConfig { double_click_window_ms: 0, ..GestureConfig::standard() };
    let mut service = MouseService::with_config(config);
    service.start(PointerSample::new(0, 0, vec![false; 6]));
    service.on_sample(down(0, 0), 0);
    service.on_sample(up(9, 9), 10);
    assert_eq!(
        run_check(&mut service, true, 11, 100, Some("a")),
        vec![MouseEvent::TextSelected("a".to_string())]
    );
    service.on_sample(down(0, 0), 200);
    service.on_sample(up(9, 9), 210);
    assert_eq!(run_check(&mut service, true, 211, 399, Some("b")), vec![]);
    service.on_sample(down(0, 0), 380);
    service.on_sample(up(9, 9), 390);
    assert_eq!(
        run_check(&mut service, true, 391, 400, Some("b")),
        vec![MouseEvent::TextSelected("b".to_string())]
    );
}

#[test]
fn click_outside_visible_icon_is_reported() {
    let mut service = started_at(0, 0);
    service.set_selection_icon_bounds(50, 50, 24, 24);
    service.set_selection_icon_visible(true);
    expect(
        service.on_sample(down(10, 10), 1_000),
        vec![
            MouseEvent::ClickOutsideIcon(10, 10),
            MouseEvent::ButtonPressed(()),
            MouseEvent::Move(()),
        ],
        POLL,
    );
    service.on_sample(up(10, 10), 1_010);
    // Far enough from the first press not to be a double-click.
    expect(
        service.on_sample(down(60, 60), 2_000),
        vec![MouseEvent::ButtonPressed(()), MouseEvent::Move(())],
        POLL,
    );
}

#[test]
fn click_on_icon_edges_is_inside() {
    let mut service = MouseService::new();
    service.set_selection_icon_bounds(50, 50, 24, 24);
    service.set_selection_icon_visible(true);
    assert!(service.is_click_inside_icon(50, 50));
    assert!(service.is_click_inside_icon(74, 74));
    assert!(!service.is_click_inside_icon(75, 74));
    assert!(!service.is_click_inside_icon(49, 50));
    service.set_selection_icon_visible(false);
    assert!(!service.is_click_inside_icon(60, 60));
    assert_eq!(service.icon().visible, false);
}

#[test]
fn hidden_icon_reports_no_outside_click() {
    let mut service = started_at(10, 10);
    service.set_selection_icon_bounds(50, 50, 24, 24);
    expect(
        service.on_sample(down(10, 10), 1_000),
        vec![MouseEvent::ButtonPressed(())],
        POLL,
    );
}

#[test]
fn visible_icon_without_bounds_makes_every_press_an_outside_click() {
    let mut service = started_at(3, 4);
    service.set_selection_icon_visible(true);
    expect(
        service.on_sample(down(3, 4), 1_000),
        vec![MouseEvent::ClickOutsideIcon(3, 4), MouseEvent::ButtonPressed(())],
        POLL,
    );
}

#[test]
fn double_click_announces_once_for_the_pair() {
    let mut service = started_at(100, 100);
    expect(
        service.on_sample(down(100, 100), 1_000),
        vec![MouseEvent::ButtonPressed(())],
        POLL,
    );
    assert_eq!(service.click_timing().last_click_at, Some(1_000));
    expect(
        service.on_sample(up(100, 100), 1_080),
        vec![MouseEvent::ButtonReleased(())],
        POLL,
    );
    expect(
        service.on_sample(down(100, 100), 1_499),
        vec![MouseEvent::ButtonPressed(())],
        Request::QueryExtractionEnabled,
    );
    assert_eq!(service.click_timing().last_click_at, None);
    expect(
        service.on_extraction_enabled(Ok(true), 1_500),
        vec![],
        Request::ReadSelectedText,
    );
    expect(
        service.on_selected_text(Ok("word".to_string())),
        vec![MouseEvent::TextSelected("word".to_string())],
        POLL,
    );
    // The third press, 100 ms later, starts a new pair.
    service.on_sample(up(100, 100), 1_550);
    expect(
        service.on_sample(down(100, 100), 1_600),
        vec![MouseEvent::ButtonPressed(())],
        POLL,
    );
    assert_eq!(service.click_timing().last_click_at, Some(1_600));
}

#[test]
fn double_click_after_a_drag_release_still_announces_once() {
    let mut service = started_at(100, 100);
    expect(
        service.on_sample(down(100, 100), 1_000),
        vec![MouseEvent::ButtonPressed(())],
        POLL,
    );
    // The release is a drag, and its own check announces what was dragged over.
    expect(
        service.on_sample(up(150, 100), 1_050),
        vec![MouseEvent::ButtonReleased(())],
        Request::QueryExtractionEnabled,
    );
    assert_eq!(
        run_check(&mut service, true, 1_051, 1_101, Some("dragged")),
        vec![MouseEvent::TextSelected("dragged".to_string())]
    );
    assert_eq!(service.click_timing().last_click_at, Some(1_000));
    // The second press completes the pair; its check comes a full debounce
    // interval after the drag's.
    expect(
        service.on_sample(down(150, 100), 1_390),
        vec![MouseEvent::ButtonPressed(())],
        Request::QueryExtractionEnabled,
    );
    assert_eq!(
        run_check(&mut service, true, 1_401, 0, Some("word")),
        vec![MouseEvent::TextSelected("word".to_string())]
    );
    assert_eq!(service.click_timing().last_click_at, None);
    // The pair is used up, even when the next release is a drag again.
    expect(
        service.on_sample(up(160, 100), 1_420),
        vec![MouseEvent::ButtonReleased(())],
        Request::QueryExtractionEnabled,
    );
    assert_eq!(run_check(&mut service, true, 1_421, 1_471, Some("more")), vec![]);
    expect(
        service.on_sample(down(160, 100), 1_480),
        vec![MouseEvent::ButtonPressed(())],
        POLL,
    );
    assert_eq!(service.click_timing().last_click_at, Some(1_480));
}

#[test]
fn presses_a_full_window_apart_are_two_single_clicks() {
    let mut service = started_at(100, 100);
    service.on_sample(down(100, 100), 1_000);
    service.on_sample(up(100, 100), 1_100);
    expect(
        service.on_sample(down(100, 100), 1_500),
        vec![MouseEvent::ButtonPressed(())],
        POLL,
    );
    assert_eq!(service.click_timing().last_click_at, Some(1_500));
}

#[test]
fn double_click_within_debounce_of_a_drag_is_suppressed() {
    let mut service = started_at(0, 0);
    service.on_sample(down(0, 0), 1_000);
    service.on_sample(up(50, 0), 1_100);
    assert_eq!(
        run_check(&mut service, true, 1_101, 1_151, Some("dragged")),
        vec![MouseEvent::TextSelected("dragged".to_string())]
    );
    // Pressed 300 ms after the first press: a double-click, asked 249 ms
    // after the drag's check.
    expect(
        service.on_sample(down(50, 0), 1_300),
        vec![MouseEvent::ButtonPressed(())],
        Request::QueryExtractionEnabled,
    );
    expect(service.on_extraction_enabled(Ok(true), 1_400), vec![], POLL);
    assert_eq!(service.debounce().last_emitted_at, Some(1_151));
}

#[test]
fn disabled_extraction_skips_silently_and_leaves_debounce_open() {
    let mut service = started_at(0, 0);
    service.on_sample(down(0, 0), 1_000);
    expect(
        service.on_sample(up(5, 5), 1_010),
        vec![MouseEvent::ButtonReleased(())],
        Request::QueryExtractionEnabled,
    );
    expect(service.on_extraction_enabled(Ok(false), 1_011), vec![], POLL);
    assert_eq!(service.debounce().last_emitted_at, None);
    assert_eq!(service.phase(), Phase::Polling);
}

#[test]
fn unchanged_empty_or_unreadable_text_is_not_announced() {
    let mut service = started_at(0, 0);
    service.on_sample(down(0, 0), 0);
    service.on_sample(up(5, 5), 10);
    assert_eq!(
        run_check(&mut service, true, 11, 61, Some("same")),
        vec![MouseEvent::TextSelected("same".to_string())]
    );
    service.on_sample(down(0, 0), 1_000);
    service.on_sample(up(5, 5), 1_010);
    assert_eq!(run_check(&mut service, true, 1_011, 1_061, Some("same")), vec![]);
    service.on_sample(down(0, 0), 2_000);
    service.on_sample(up(5, 5), 2_010);
    assert_eq!(run_check(&mut service, true, 2_011, 2_061, Some("")), vec![]);
    service.on_sample(down(0, 0), 3_000);
    service.on_sample(up(5, 5), 3_010);
    assert_eq!(run_check(&mut service, true, 3_011, 3_061, None), vec![]);
    assert_eq!(service.last_text(), "same");
    // Each of the three silent checks still stamped the guard.
    assert_eq!(service.debounce().last_emitted_at, Some(3_061));
}

#[test]
fn start_forgets_the_text_seen_before() {
    let mut service = started_at(0, 0);
    service.on_sample(down(0, 0), 0);
    service.on_sample(up(5, 5), 10);
    run_check(&mut service, true, 11, 61, Some("same"));
    service.stop();
    expect(service.on_sample(up(5, 5), 20), vec![], Request::Halt);
    service.start(PointerSample::new(5, 5, vec![false; 6]));
    assert_eq!(service.last_text(), "");
    assert_eq!(service.debounce().last_emitted_at, Some(61));
    service.on_sample(down(5, 5), 1_000);
    service.on_sample(up(9, 9), 1_010);
    assert_eq!(
        run_check(&mut service, true, 1_011, 1_061, Some("same")),
        vec![MouseEvent::TextSelected("same".to_string())]
    );
}

#[test]
fn other_buttons_give_raw_events_only() {
    let mut service = started_at(0, 0);
    let right = PointerSample::new(0, 0, vec![false, false, false, true, false, false]);
    expect(
        service.on_sample(Some(right), 1_000),
        vec![MouseEvent::ButtonPressed(())],
        POLL,
    );
    assert!(!service.is_dragging());
    assert_eq!(service.click_timing().last_click_at, None);
    // Moving with another button held is not a drag.
    let moved = PointerSample::new(40, 40, vec![false, false, false, true, false, false]);
    expect(service.on_sample(Some(moved), 1_010), vec![], POLL);
    expect(
        service.on_sample(up(80, 80), 1_020),
        vec![MouseEvent::ButtonReleased(())],
        POLL,
    );
}

#[test]
fn several_buttons_in_one_tick_are_each_reported() {
    let mut service = started_at(0, 0);
    service.set_selection_icon_visible(true);
    let held = PointerSample::new(0, 0, vec![false, false, true, false, true, false]);
    expect(
        service.on_sample(Some(held), 1_000),
        vec![MouseEvent::ButtonPressed(()), MouseEvent::ButtonPressed(())],
        POLL,
    );
    // Button 1 and 3 go down, 2 and 4 come up, all in one tick.
    let swapped = PointerSample::new(0, 0, vec![false, true, false, true, false, false]);
    expect(
        service.on_sample(Some(swapped), 1_010),
        vec![
            MouseEvent::ClickOutsideIcon(0, 0),
            MouseEvent::ButtonPressed(()),
            MouseEvent::ButtonPressed(()),
            MouseEvent::ButtonReleased(()),
            MouseEvent::ButtonReleased(()),
        ],
        POLL,
    );
}

#[test]
fn failed_poll_reuses_previous_sample() {
    let mut service = started_at(0, 0);
    service.on_sample(down(7, 7), 1_000);
    expect(service.on_sample(None, 1_010), vec![], POLL);
    assert!(service.is_dragging());
    expect(
        service.on_sample(down(8, 7), 1_020),
        vec![MouseEvent::Move(())],
        POLL,
    );
}

#[test]
fn samples_of_different_length_treat_missing_buttons_as_released() {
    let mut service = started_at(0, 0);
    expect(
        service.on_sample(Some(PointerSample::new(0, 0, vec![false, true])), 1_000),
        vec![MouseEvent::ButtonPressed(())],
        POLL,
    );
    expect(
        service.on_sample(Some(PointerSample::new(0, 0, vec![])), 1_010),
        vec![MouseEvent::ButtonReleased(())],
        POLL,
    );
}

#[test]
fn stop_lets_a_check_in_flight_finish_then_halts() {
    let mut service = started_at(0, 0);
    service.on_sample(down(0, 0), 1_000);
    expect(
        service.on_sample(up(5, 5), 1_010),
        vec![MouseEvent::ButtonReleased(())],
        Request::QueryExtractionEnabled,
    );
    service.stop();
    assert!(!service.is_running());
    expect(
        service.on_extraction_enabled(Ok(true), 1_011),
        vec![],
        Request::Settle { delay_ms: 50 },
    );
    expect(service.on_settled(1_061), vec![], Request::ReadSelectedText);
    expect(
        service.on_selected_text(Ok("late".to_string())),
        vec![MouseEvent::TextSelected("late".to_string())],
        Request::Halt,
    );
    assert_eq!(service.phase(), Phase::Stopped);
    expect(service.on_sample(down(0, 0), 1_100), vec![], Request::Halt);
}

#[test]
fn stop_while_polling_halts_at_the_next_sample() {
    let mut service = started_at(0, 0);
    service.stop();
    assert_eq!(service.phase(), Phase::Polling);
    expect(service.on_sample(down(0, 0), 1_000), vec![], Request::Halt);
    assert_eq!(service.phase(), Phase::Stopped);
    assert!(!service.is_dragging());
}

#[test]
fn answers_out_of_turn_change_nothing_and_repeat_the_request() {
    let mut service = started_at(0, 0);
    expect(service.on_extraction_enabled(Ok(true), 5), vec![], POLL);
    expect(service.on_settled(5), vec![], POLL);
    expect(service.on_selected_text(Ok("x".to_string())), vec![], POLL);
    assert_eq!(service.last_text(), "");
    assert_eq!(service.debounce().last_emitted_at, None);
    service.on_sample(down(0, 0), 1_000);
    service.on_sample(up(5, 5), 1_010);
    expect(
        service.on_sample(down(5, 5), 1_020),
        vec![],
        Request::QueryExtractionEnabled,
    );
    expect(service.on_settled(1_020), vec![], Request::QueryExtractionEnabled);
    service.on_extraction_enabled(Ok(true), 1_021);
    expect(
        service.on_extraction_enabled(Ok(false), 1_022),
        vec![],
        Request::Settle { delay_ms: 50 },
    );
    service.on_settled(1_071);
    expect(service.on_settled(1_072), vec![], Request::ReadSelectedText);
    assert_eq!(service.debounce().last_emitted_at, Some(1_071));
}

#[test]
fn custom_config_is_honoured() {
    let config = GestureConfig {
        double_click_window_ms: 200,
        debounce_interval_ms: 0,
        settle_delay_ms: 7,
        tick_interval_ms: 3,
        primary_button: 0,
    };
    let mut service = MouseService::with_config(config);
    service.start(PointerSample::new(0, 0, vec![false]));
    let poll = Request::Poll { delay_ms: 3 };
    expect(
        service.on_sample(Some(PointerSample::new(0, 0, vec![true])), 100),
        vec![MouseEvent::ButtonPressed(())],
        poll,
    );
    expect(
        service.on_sample(Some(PointerSample::new(1, 0, vec![false])), 110),
        vec![MouseEvent::ButtonReleased(())],
        Request::QueryExtractionEnabled,
    );
    expect(
        service.on_extraction_enabled(Ok(true), 111),
        vec![],
        Request::Settle { delay_ms: 7 },
    );
    service.on_settled(118);
    service.on_selected_text(Ok("a".to_string()));
    // 200 ms after the first press: too late for a double-click here.
    expect(
        service.on_sample(Some(PointerSample::new(1, 0, vec![true])), 300),
        vec![MouseEvent::ButtonPressed(())],
        poll,
    );
}

#[test]
fn clock_running_backwards_never_rewinds_the_debounce_stamp() {
    let config = GestureConfig { debounce_interval_ms: 0, ..GestureConfig::standard() };
    let mut service = MouseService::with_config(config);
    service.start(PointerSample::new(0, 0, vec![false; 6]));
    service.on_sample(down(0, 0), 1_000);
    service.on_sample(up(5, 5), 1_010);
    run_check(&mut service, true, 1_011, 1_061, Some("a"));
    service.on_sample(down(0, 0), 2_000);
    service.on_sample(up(5, 5), 2_010);
    assert_eq!(run_check(&mut service, true, 900, 900, Some("b")), vec![]);
    assert_eq!(service.debounce().last_emitted_at, Some(1_061));
}
