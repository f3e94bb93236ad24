use epc::app::App;
use epc::view::CurrentView;

fn session_with(n: usize) -> App {
    let mut app = App::new();
    for i in 0..n {
        assert_eq!(app.open_document(format!("book{}.epub", i)), Some(i as u8));
    }
    app
}

#[test]
fn advance_cycles_back_to_library() {
    for n in [0usize, 1, 2, 3, 7] {
        let mut app = session_with(n);
        for _ in 0..n {
            assert_ne!(app.next_tab(), CurrentView::Library);
        }
        assert_eq!(app.next_tab(), CurrentView::Library);
        assert_eq!(app.current(), CurrentView::Library);
    }
}

#[test]
fn advance_three_documents_in_order() {
    let mut app = session_with(3);
    let seen: Vec<CurrentView> = (0..4).map(|_| app.next_tab()).collect();
    assert_eq!(
        seen,
        vec![
            CurrentView::File(0),
            CurrentView::File(1),
            CurrentView::File(2),
            CurrentView::Library
        ]
    );
}

#[test]
fn advance_table() {
    let mut app = session_with(3);
    assert_eq!(app.next_tab(), CurrentView::File(0));
    app.settings();
    assert_eq!(app.next_tab(), CurrentView::Library);
    app.prev_tab();
    assert_eq!(app.current(), CurrentView::Browse);
    assert_eq!(app.next_tab(), CurrentView::Library);
}

#[test]
fn retreat_table() {
    let mut app = session_with(3);
    assert_eq!(app.prev_tab(), CurrentView::Browse);
    assert_eq!(app.prev_tab(), CurrentView::File(2));
    assert_eq!(app.prev_tab(), CurrentView::File(1));
    assert_eq!(app.prev_tab(), CurrentView::File(0));
    assert_eq!(app.prev_tab(), CurrentView::Library);
    app.settings();
    assert_eq!(app.prev_tab(), CurrentView::Library);
}

#[test]
fn advance_then_retreat_from_library() {
    let mut app = session_with(2);
    assert_eq!(app.next_tab(), CurrentView::File(0));
    assert_eq!(app.prev_tab(), CurrentView::Library);

    let mut empty = session_with(0);
    assert_eq!(empty.next_tab(), CurrentView::Library);
    assert_eq!(empty.prev_tab(), CurrentView::Browse);
    assert_eq!(empty.prev_tab(), CurrentView::Library);
}

#[test]
fn direct_jumps_always_land() {
    let mut app = session_with(1);
    app.next_tab();
    app.settings();
    assert_eq!(app.current(), CurrentView::Settings);
    app.settings();
    assert_eq!(app.current(), CurrentView::Settings);
    app.library();
    assert_eq!(app.current(), CurrentView::Library);
}

#[test]
fn slots_stop_at_256() {
    let mut app = session_with(256);
    assert_eq!(app.open_document("extra.epub".to_string()), None);
    assert_eq!(app.open_documents().len(), 256);
    assert_eq!(app.prev_tab(), CurrentView::Browse);
    assert_eq!(app.prev_tab(), CurrentView::File(255));
    assert_eq!(app.next_tab(), CurrentView::Library);
}
