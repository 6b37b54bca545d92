use wink_link::fatal::{fatal_screen, FatalEscalation, DETAIL_PREFIX, GRACE_SECONDS};
use wink_link::providers::{EventLoopProvider, NvsProvider, PeripheralsProvider};

#[test]
fn fatal_screen_shows_message_and_countdown() {
    let s = fatal_screen("disk gone");
    assert_eq!(s.detail, "For nerds: disk gone");
    assert_eq!(s.countdown, vec![3, 2, 1]);
    assert_eq!(GRACE_SECONDS, 3);
    assert_eq!(DETAIL_PREFIX, "For nerds: ");
}

#[test]
fn only_first_escalation_is_shown() {
    let mut gate = FatalEscalation::new();
    let first = gate.escalate("first");
    assert_eq!(first.unwrap().detail, "For nerds: first");
    assert!(gate.escalate("second").is_none());
    assert!(gate.escalate("third").is_none());
}

#[test]
fn nvs_provider_lends_its_handle() {
    let mut p: NvsProvider<Vec<u8>> = NvsProvider::new();
    assert_eq!(p.with_nvs(|v| v.len()), None);
    p.set_nvs(vec![1, 2]);
    assert_eq!(p.with_nvs(|v| { v.push(3); v.len() }), Some(3));
    assert_eq!(p.with_nvs(|v| v.clone()), Some(vec![1, 2, 3]));
    p.set_nvs(vec![9]);
    assert_eq!(p.with_nvs(|v| v[0]), Some(9));
}

#[test]
fn peripherals_provider_hands_out_once() {
    let mut p: PeripheralsProvider<String> = PeripheralsProvider::new();
    assert!(p.take_peripherals().is_none());
    p.set_peripherals("board".to_string());
    assert_eq!(p.with_peripherals(|b| b.len()), Some(5));
    assert_eq!(p.take_peripherals(), Some("board".to_string()));
    assert!(p.take_peripherals().is_none());
    assert_eq!(p.with_peripherals(|b| b.len()), None);
}

#[test]
fn event_loop_provider_lends_its_handle() {
    let mut p: EventLoopProvider<u32> = EventLoopProvider::new();
    assert_eq!(p.with_event_loop(|e| *e), None);
    p.set_event_loop(4);
    assert_eq!(p.with_event_loop(|e| { *e += 1; *e }), Some(5));
}
