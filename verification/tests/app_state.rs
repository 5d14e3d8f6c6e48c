use house_query::app_state::{search_heading, update_status, MyApp, State, UiAction, UiEvent, Windows};
use house_query::query::Sort;

#[test]
fn closing_needs_confirmation() {
    let mut app = MyApp::new();
    assert!(matches!(app.handle(UiEvent::CloseRequested), UiAction::CancelClose));
    assert!(app.show_confirmation_dialog);
    assert!(matches!(app.handle(UiEvent::KeepOpen), UiAction::Nothing));
    assert!(!app.show_confirmation_dialog && !app.allowed_to_close);
    app.handle(UiEvent::CloseRequested);
    assert!(matches!(app.handle(UiEvent::ConfirmClose), UiAction::Close));
    assert!(app.allowed_to_close && !app.show_confirmation_dialog);
    assert!(matches!(app.handle(UiEvent::CloseRequested), UiAction::Nothing));
}

#[test]
fn confirm_without_dialog_does_nothing() {
    let mut app = MyApp::new();
    assert!(matches!(app.handle(UiEvent::ConfirmClose), UiAction::Nothing));
    assert!(!app.allowed_to_close);
}

#[test]
fn navigation_between_screens() {
    let mut app = MyApp::new();
    app.handle(UiEvent::Search);
    assert_eq!(app.selection, Windows::Search);
    app.handle(UiEvent::OpenData);
    assert_eq!(app.selection, Windows::Search);
    app.handle(UiEvent::CloseSearch);
    assert_eq!(app.selection, Windows::Main);
    for (open, screen) in [(UiEvent::OpenUpdate, Windows::Update), (UiEvent::OpenData, Windows::Data), (UiEvent::OpenThanks, Windows::Thanks)] {
        app.handle(open);
        assert_eq!(app.selection, screen);
        app.handle(UiEvent::Back);
        assert_eq!(app.selection, Windows::Main);
    }
}

#[test]
fn descending_order_is_kept() {
    let mut app = MyApp::new();
    app.handle(UiEvent::Search);
    app.handle(UiEvent::SortAscending(Sort::Tp));
    assert_eq!((app.sort, app.u_d), (Sort::Tp, 0));
    app.handle(UiEvent::SortDescending(Sort::Size));
    assert_eq!((app.sort, app.u_d), (Sort::Size, 1));
    app.handle(UiEvent::SortAscending(Sort::Ppm));
    assert_eq!((app.sort, app.u_d), (Sort::Ppm, 1));
    app.handle(UiEvent::SortDescending(Sort::Rb));
    app.handle(UiEvent::SortDefault);
    assert_eq!((app.sort, app.u_d), (Sort::Default, 1));
}

#[test]
fn update_runs_on_typed_name() {
    let mut app = MyApp::new();
    app.lbltext = "北京".to_string();
    assert!(matches!(app.handle(UiEvent::StartUpdate), UiAction::Nothing));
    app.handle(UiEvent::OpenUpdate);
    match app.handle(UiEvent::StartUpdate) {
        UiAction::RunUpdate(name) => assert_eq!(name, "北京"),
        other => panic!("unexpected {:?}", other),
    }
    assert_eq!(app.state, State::Stay);
    assert_eq!(update_status(app.state), "正在update");
    assert_eq!(update_status(State::No), "update未开始");
    assert_eq!(update_status(State::Yes), "update已完成");
}

#[test]
fn search_heading_text() {
    assert_eq!(search_heading("北京"), "您现在正在浏览北京的二手房：");
}
