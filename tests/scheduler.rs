use epc::input::{Key, KeyInput, KeyMods, Msg};
use epc::ticker::{Ticker, TICK_MS};

#[test]
fn ticks_once_per_interval_without_input() {
    let mut t = Ticker::new(TICK_MS, 1000);
    assert_eq!(t.poll_timeout(1000), 10);
    assert_eq!(t.poll_timeout(1004), 6);
    assert!(t.wake(1004, None).is_empty());
    assert_eq!(t.wake(1010, None), vec![Msg::Tick]);
    assert_eq!(t.last_tick_ms, 1010);
    assert_eq!(t.poll_timeout(1013), 7);
    assert_eq!(t.poll_timeout(1025), 0);
    assert_eq!(t.wake(1025, None), vec![Msg::Tick]);
}

#[test]
fn key_sent_before_tick() {
    let k = KeyInput { code: Key::Char('j'), mods: KeyMods { shift: false, control: false, others: false } };
    let mut t = Ticker::new(10, 0);
    assert_eq!(t.wake(3, Some(k)), vec![Msg::Key(k)]);
    assert_eq!(t.wake(12, Some(k)), vec![Msg::Key(k), Msg::Tick]);
    assert_eq!(t.last_tick_ms, 12);
}

#[test]
fn clock_going_back_waits_full_interval() {
    let mut t = Ticker::new(10, 500);
    assert_eq!(t.poll_timeout(400), 10);
    assert!(t.wake(400, None).is_empty());
    assert_eq!(t.last_tick_ms, 500);
}
