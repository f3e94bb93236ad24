use epc::app::App;
use epc::input::{command_for, Command, Key, KeyInput, KeyMods, Msg};
use epc::view::{CurrentView, Directions};

fn mods(shift: bool, control: bool, others: bool) -> KeyMods {
    KeyMods { shift, control, others }
}

fn key(code: Key, m: KeyMods) -> Msg {
    Msg::Key(KeyInput { code, mods: m })
}

fn plain(code: Key) -> Msg {
    key(code, mods(false, false, false))
}

fn ctrl(code: Key) -> Msg {
    key(code, mods(false, true, false))
}

fn shift(code: Key) -> Msg {
    key(code, mods(true, false, false))
}

#[test]
fn control_f_in_document_finds_on_page() {
    assert_eq!(command_for(CurrentView::File(1), &ctrl(Key::Char('f'))), Command::FindOnPage);
    assert_eq!(command_for(CurrentView::Library, &ctrl(Key::Char('f'))), Command::SearchLibrary);
    assert_eq!(command_for(CurrentView::Settings, &ctrl(Key::Char('f'))), Command::Nothing);
}

#[test]
fn plain_keys() {
    let v = CurrentView::Library;
    assert_eq!(command_for(v, &plain(Key::Char('q'))), Command::Quit);
    assert_eq!(command_for(v, &plain(Key::Char('j'))), Command::Move(Directions::Down));
    assert_eq!(command_for(v, &plain(Key::Down)), Command::Move(Directions::Down));
    assert_eq!(command_for(v, &plain(Key::Up)), Command::Move(Directions::Up));
    assert_eq!(command_for(v, &plain(Key::Char('h'))), Command::Move(Directions::Left));
    assert_eq!(command_for(v, &plain(Key::Right)), Command::Move(Directions::Right));
    assert_eq!(command_for(v, &plain(Key::Tab)), Command::NextTab);
    assert_eq!(command_for(v, &plain(Key::Home)), Command::Library);
    assert_eq!(command_for(v, &plain(Key::Char('s'))), Command::Settings);
    assert_eq!(command_for(v, &plain(Key::PageDown)), Command::NextTab);
    assert_eq!(command_for(v, &plain(Key::Char('p'))), Command::PrevTab);
    assert_eq!(command_for(v, &plain(Key::Char('x'))), Command::Char('x'));
    assert_eq!(command_for(v, &plain(Key::Other)), Command::Nothing);
}

#[test]
fn control_and_shift_tiers() {
    let v = CurrentView::File(0);
    assert_eq!(command_for(v, &ctrl(Key::Char('c'))), Command::Quit);
    assert_eq!(command_for(v, &ctrl(Key::Down)), Command::Quit);
    assert_eq!(command_for(v, &ctrl(Key::Char('j'))), Command::NextTab);
    assert_eq!(command_for(v, &ctrl(Key::Up)), Command::PrevTab);
    assert_eq!(command_for(v, &ctrl(Key::Char('q'))), Command::Nothing);
    assert_eq!(command_for(v, &shift(Key::Down)), Command::NextTab);
    assert_eq!(command_for(v, &shift(Key::Char('k'))), Command::PrevTab);
    assert_eq!(command_for(v, &shift(Key::Char('q'))), Command::Nothing);
    // Control wins over Shift; Alt alone gives nothing.
    assert_eq!(command_for(v, &key(Key::Char('c'), mods(true, true, false))), Command::Quit);
    assert_eq!(command_for(v, &key(Key::Char('q'), mods(false, false, true))), Command::Nothing);
    assert_eq!(command_for(v, &Msg::Tick), Command::Tick);
    assert_eq!(command_for(v, &Msg::Quit), Command::Quit);
}

#[test]
fn handle_applies_commands() {
    let mut app = App::new();
    app.open_document("a.epub".to_string());
    assert!(app.handle(&plain(Key::Tab)));
    assert_eq!(app.current(), CurrentView::File(0));
    assert!(app.handle(&plain(Key::Char('s'))));
    assert_eq!(app.current(), CurrentView::Settings);
    assert!(app.handle(&plain(Key::Home)));
    assert_eq!(app.current(), CurrentView::Library);
    assert!(app.handle(&Msg::Tick));
    assert!(!app.handle(&plain(Key::Char('q'))));
    assert_eq!(app.current(), CurrentView::Library);
}

#[test]
fn events_handled_in_arrival_order() {
    let mut app = App::new();
    app.open_document("a.epub".to_string());
    app.open_document("b.epub".to_string());
    let msgs = vec![
        Msg::Tick,
        plain(Key::Tab),
        Msg::Tick,
        plain(Key::Tab),
        Msg::Tick,
        plain(Key::Char('p')),
        Msg::Quit,
        plain(Key::Tab),
    ];
    assert_eq!(app.handle_all(&msgs), 7);
    assert_eq!(app.current(), CurrentView::File(0));

    let mut other = App::new();
    other.open_document("a.epub".to_string());
    let ticks = vec![Msg::Tick, Msg::Tick, plain(Key::Tab)];
    assert_eq!(other.handle_all(&ticks), 3);
    assert_eq!(other.current(), CurrentView::File(0));
}
