use epc::app::App;
use epc::store::Store;

#[test]
fn unrecorded_slot_reads_zero() {
    let mut s = Store::new();
    assert_eq!(s.position_of(0), 0);
    assert_eq!(s.position_of(9), 0);
    s.record_position(3, 17);
    assert_eq!(s.position_of(9), 0);
}

#[test]
fn recorded_position_reads_back() {
    let mut s = Store::default();
    s.record_position(2, 42);
    assert_eq!(s.position_of(2), 42);
    s.record_position(2, 7);
    assert_eq!(s.position_of(2), 7);
}

#[test]
fn history_keeps_duplicates() {
    let mut s = Store::new();
    s.append_history("a.epub".to_string());
    s.append_history("a.epub".to_string());
    assert_eq!(s.history(), &vec!["a.epub".to_string(), "a.epub".to_string()]);
}

#[test]
fn session_positions_only_for_open_slots() {
    let mut app = App::new();
    app.open_document("a.epub".to_string());
    app.record_position(0, 42);
    app.record_position(1, 99);
    assert_eq!(app.position_of(0), 42);
    assert_eq!(app.position_of(1), 0);
}

#[test]
fn session_history_in_order() {
    let mut app = App::new();
    app.append_history("a.epub".to_string());
    app.append_history("b.epub".to_string());
    app.append_history("a.epub".to_string());
    assert_eq!(app.history().len(), 3);
    assert_eq!(app.history()[2], "a.epub");
    assert_eq!(app.history()[1], "b.epub");
}
