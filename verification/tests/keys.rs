use remipn::app::{
    new_form, App, AppEvent, Command, ImportOutcome, InputMode, Key, Screen, SortColumn,
    SortDirection, REFRESH_SECONDS,
};
use remipn::browser::{FileBrowser};
use remipn::app::FileEntry;
use remipn::config::{Config, Settings, VpnProfile};
use remipn::text::{trim, without_last};
use remipn::vpn::{VpnConnection, VpnStatus};

fn profile(name: &str, category: &str, alias: Option<&str>) -> VpnProfile {
    VpnProfile {
        name: name.to_string(),
        gateway_address: format!("gw.{}", name),
        category: category.to_string(),
        cert_path: None,
        username: None,
        aliases: alias.map(|s| s.to_string()),
        protocol: "IKEv2".to_string(),
        auto_connect: false,
    }
}

fn app_with(names: &[&str]) -> App {
    let config = Config {
        profiles: names.iter().map(|n| profile(n, "dev", None)).collect(),
        settings: Settings::default(),
    };
    App::new(config, 1_000)
}

fn type_text(app: &mut App, text: &str) {
    for c in text.chars() {
        assert_eq!(app.handle_key(Key::Char(c), 0), Command::Nothing);
    }
}

fn names(app: &App) -> Vec<String> {
    app.config.profiles.iter().map(|p| p.name.clone()).collect()
}

#[test]
fn the_screen_starts_on_the_main_screen() {
    let app = app_with(&["a"]);
    assert_eq!(app.screen, Screen::Main);
    assert_eq!(app.input_mode, InputMode::Normal);
    assert_eq!(app.selected_profile, 0);
    assert_eq!(app.add_profile_data, vec![String::new(); 6]);
    assert_eq!(new_form(), vec![String::new(); 6]);
    assert_eq!(app.sort_column, SortColumn::Name);
    assert_eq!(app.sort_direction, SortDirection::Asc);
    assert_eq!(app.last_update, 1_000);
    assert_eq!(app.status_message, None);
    assert!(app.logs.is_empty());
    assert!(!app.show_logs);
    assert!(!app.auto_reconnect);
    assert!(app.file_browser.is_none());
}

#[test]
fn text_helpers() {
    assert_eq!(trim("  a b \t\n"), "a b");
    assert_eq!(trim(""), "");
    assert_eq!(trim(" \u{3000} "), "");
    assert_eq!(trim("x"), "x");
    for text in ["", " ", "a", " a", "a ", " a b ", "\u{00A0}x\u{2003}", "\n\ta\r\n"] {
        assert_eq!(trim(text), text.trim(), "{:?}", text);
    }
    assert_eq!(without_last("abc"), "ab");
    assert_eq!(without_last("é"), "");
    assert_eq!(without_last(""), "");
}

#[test]
fn keys_move_the_selection() {
    let mut app = app_with(&["a", "b", "c"]);
    assert_eq!(app.handle_key(Key::Down, 0), Command::Nothing);
    assert_eq!(app.selected_profile, 1);
    app.handle_key(Key::Char('j'), 0);
    assert_eq!(app.selected_profile, 2);
    app.handle_key(Key::Down, 0);
    assert_eq!(app.selected_profile, 0);
    app.handle_key(Key::Up, 0);
    assert_eq!(app.selected_profile, 2);
    app.handle_key(Key::Char('k'), 0);
    assert_eq!(app.selected_profile, 1);
    app.handle_key(Key::PageDown, 0);
    assert_eq!(app.selected_profile, 2);
    app.handle_key(Key::PageUp, 0);
    assert_eq!(app.selected_profile, 0);
}

#[test]
fn keys_on_an_empty_list() {
    let mut app = app_with(&[]);
    for key in [Key::Up, Key::Down, Key::PageUp, Key::PageDown, Key::Char('x'), Key::Char('a'), Key::Char('e')] {
        assert_eq!(app.handle_key(key, 0), Command::Nothing);
        assert_eq!(app.selected_profile, 0);
        assert_eq!(app.screen, Screen::Main);
    }
}

#[test]
fn keys_that_ask_for_work() {
    let mut app = app_with(&["a"]);
    assert_eq!(app.handle_key(Key::Char('q'), 0), Command::Quit);
    assert_eq!(app.handle_key(Key::Enter, 0), Command::ToggleConnection);
    assert_eq!(app.handle_key(Key::Char(' '), 0), Command::ToggleConnection);
    assert_eq!(app.handle_key(Key::Char('r'), 0), Command::RefreshStatus);
    assert_eq!(app.handle_key(Key::Other, 0), Command::Nothing);
    assert_eq!(app.handle_key(Key::Function(2), 0), Command::Nothing);
    assert_eq!(app.screen, Screen::Main);
}

#[test]
fn toggles_and_sorting() {
    let mut app = app_with(&["a"]);
    app.handle_key(Key::Char('l'), 0);
    assert!(app.show_logs);
    app.handle_key(Key::Char('l'), 0);
    assert!(!app.show_logs);
    app.handle_key(Key::Char('R'), 7);
    assert!(app.auto_reconnect);
    assert_eq!(app.status_message, Some(("Auto-reconnect: ON".to_string(), 7)));
    app.handle_key(Key::Char('R'), 8);
    assert_eq!(app.status_message, Some(("Auto-reconnect: OFF".to_string(), 8)));
    app.handle_key(Key::Char('s'), 9);
    assert_eq!((app.sort_column, app.sort_direction), (SortColumn::Name, SortDirection::Desc));
    assert_eq!(app.status_message, Some(("Sorting by Name (Desc)".to_string(), 9)));
    app.handle_key(Key::Char('s'), 10);
    assert_eq!(app.status_message, Some(("Sorting by Category (Asc)".to_string(), 10)));
}

#[test]
fn help_screen() {
    let mut app = app_with(&["a"]);
    app.handle_key(Key::Char('h'), 0);
    assert_eq!(app.screen, Screen::Help);
    app.handle_key(Key::Char('x'), 0);
    assert_eq!(app.screen, Screen::Help);
    app.handle_key(Key::Esc, 0);
    assert_eq!(app.screen, Screen::Main);
    app.handle_key(Key::Function(1), 0);
    assert_eq!(app.screen, Screen::Help);
    app.handle_key(Key::Char('h'), 0);
    assert_eq!(app.screen, Screen::Main);
}

#[test]
fn adding_a_profile() {
    let mut app = app_with(&["a"]);
    app.handle_key(Key::Char('n'), 0);
    assert_eq!(app.screen, Screen::AddProfile);
    assert_eq!(app.input_mode, InputMode::Editing);
    assert_eq!(app.handle_key(Key::Enter, 3), Command::Nothing);
    assert_eq!(app.status_message, Some(("Name cannot be empty".to_string(), 3)));
    assert_eq!(app.screen, Screen::AddProfile);
    type_text(&mut app, "officeX");
    app.handle_key(Key::Backspace, 0);
    app.handle_key(Key::Tab, 0);
    type_text(&mut app, "gw.office");
    app.handle_key(Key::Tab, 0);
    type_text(&mut app, "prod");
    app.handle_key(Key::BackTab, 0);
    app.handle_key(Key::BackTab, 0);
    app.handle_key(Key::BackTab, 0);
    assert_eq!(app.input_field, 5);
    type_text(&mut app, "work");
    assert_eq!(app.handle_key(Key::Enter, 4), Command::SaveConfig);
    assert_eq!(app.screen, Screen::Main);
    assert_eq!(app.input_mode, InputMode::Normal);
    assert_eq!(app.status_message, Some(("Profile added".to_string(), 4)));
    assert_eq!(names(&app), vec!["a", "office"]);
    let added = &app.config.profiles[1];
    assert_eq!(added.gateway_address, "gw.office");
    assert_eq!(added.category, "prod");
    assert_eq!(added.aliases, Some("work".to_string()));
    assert_eq!(added.username, None);
    assert_eq!(added.protocol, "IKEv2");
}

#[test]
fn editing_a_profile_keeps_its_name() {
    let mut app = app_with(&["b", "a"]);
    app.handle_key(Key::Down, 0);
    app.handle_key(Key::Char('e'), 0);
    assert_eq!(app.screen, Screen::EditProfile);
    assert_eq!(app.input_field, 1);
    assert_eq!(app.add_profile_data, vec!["b", "gw.b", "dev", "", "", ""]);
    type_text(&mut app, "!");
    for _ in 0..5 {
        app.handle_key(Key::Tab, 0);
    }
    assert_eq!(app.input_field, 1);
    app.handle_key(Key::BackTab, 0);
    assert_eq!(app.input_field, 5);
    app.input_field = 0;
    type_text(&mut app, "zzz");
    app.handle_key(Key::Backspace, 0);
    assert_eq!(app.add_profile_data[0], "b");
    assert_eq!(app.handle_key(Key::Enter, 5), Command::SaveConfig);
    assert_eq!(app.status_message, Some(("Profile updated".to_string(), 5)));
    assert_eq!(names(&app), vec!["b", "a"]);
    assert_eq!(app.config.profiles[0].gateway_address, "gw.b!");
}

#[test]
fn leaving_the_form() {
    let mut app = app_with(&["a"]);
    app.handle_key(Key::Char('n'), 0);
    type_text(&mut app, "x");
    assert_eq!(app.handle_key(Key::Esc, 0), Command::Nothing);
    assert_eq!(app.screen, Screen::Main);
    assert_eq!(names(&app), vec!["a"]);
    app.handle_key(Key::Char('n'), 0);
    assert_eq!(app.add_profile_data, vec![String::new(); 6]);
}

#[test]
fn form_with_missing_fields_is_harmless() {
    let mut app = app_with(&[]);
    app.handle_key(Key::Char('n'), 0);
    app.add_profile_data = vec!["only".to_string()];
    app.input_field = 3;
    type_text(&mut app, "x");
    app.handle_key(Key::Backspace, 0);
    assert_eq!(app.add_profile_data, vec!["only".to_string()]);
    assert_eq!(app.handle_key(Key::Enter, 0), Command::SaveConfig);
    assert_eq!(app.config.profiles[0].name, "only");
    assert_eq!(app.config.profiles[0].gateway_address, "");
}

#[test]
fn searching_filters_the_rows() {
    let mut app = app_with(&["alpha", "beta", "alps"]);
    app.handle_key(Key::Down, 0);
    app.handle_key(Key::Char('/'), 0);
    assert_eq!(app.screen, Screen::Search);
    type_text(&mut app, "ALx");
    assert_eq!(app.selected_profile, 0);
    app.handle_key(Key::Backspace, 0);
    assert_eq!(app.search_query, "AL");
    assert_eq!(app.get_filtered_profiles_indices(), vec![0, 2]);
    app.handle_key(Key::Enter, 0);
    assert_eq!(app.screen, Screen::Main);
    assert_eq!(app.search_query, "AL");
    app.handle_key(Key::Down, 0);
    assert_eq!(app.selected_index(), Some(2));
}

#[test]
fn alias_of_the_selected_profile() {
    let mut app = app_with(&["b", "a"]);
    app.handle_key(Key::Char('a'), 0);
    assert_eq!(app.screen, Screen::AliasModal);
    assert_eq!(app.alias_input, "");
    type_text(&mut app, "firstt");
    app.handle_key(Key::Backspace, 0);
    assert_eq!(app.handle_key(Key::Enter, 6), Command::SaveConfig);
    assert_eq!(app.screen, Screen::Main);
    assert_eq!(app.status_message, Some(("Alias updated".to_string(), 6)));
    assert_eq!(app.config.profiles[1].aliases, Some("first".to_string()));
    assert_eq!(app.config.profiles[0].aliases, None);

    app.handle_key(Key::Char('a'), 0);
    assert_eq!(app.alias_input, "first");
    for _ in 0..5 {
        app.handle_key(Key::Backspace, 0);
    }
    assert_eq!(app.handle_key(Key::Enter, 7), Command::SaveConfig);
    assert_eq!(app.config.profiles[1].aliases, None);

    app.handle_key(Key::Char('a'), 0);
    type_text(&mut app, "x");
    assert_eq!(app.handle_key(Key::Esc, 0), Command::Nothing);
    assert_eq!(app.config.profiles[1].aliases, None);
}

#[test]
fn deleting_the_selected_profile() {
    let mut app = app_with(&["c", "a", "b"]);
    app.handle_key(Key::Up, 0);
    assert_eq!(app.selected_profile, 2);
    app.handle_key(Key::Char('x'), 0);
    assert_eq!(app.screen, Screen::DeleteConfirmation);
    assert_eq!(app.handle_key(Key::Char('n'), 0), Command::Nothing);
    assert_eq!(app.screen, Screen::Main);
    assert_eq!(names(&app).len(), 3);
    app.handle_key(Key::Char('x'), 0);
    assert_eq!(app.handle_key(Key::Char('?'), 0), Command::Nothing);
    assert_eq!(app.screen, Screen::DeleteConfirmation);
    assert_eq!(app.handle_key(Key::Char('y'), 8), Command::SaveConfig);
    assert_eq!(app.screen, Screen::Main);
    assert_eq!(names(&app), vec!["a", "b"]);
    assert_eq!(app.selected_profile, 1);
    assert_eq!(app.status_message, Some(("Deleted profile: c".to_string(), 8)));
    app.handle_key(Key::Char('x'), 0);
    assert_eq!(app.handle_key(Key::Enter, 9), Command::SaveConfig);
    assert_eq!(names(&app), vec!["a"]);
    assert_eq!(app.selected_profile, 0);
    app.handle_key(Key::Char('x'), 0);
    assert_eq!(app.handle_key(Key::Char('Y'), 9), Command::SaveConfig);
    assert!(names(&app).is_empty());
    assert_eq!(app.selected_profile, 0);
}

#[test]
fn import_screen() {
    let mut app = app_with(&["a"]);
    app.input_buffer = "stale".to_string();
    app.handle_key(Key::Char('i'), 0);
    assert_eq!(app.screen, Screen::ImportXml);
    assert_eq!(app.input_buffer, "");
    assert_eq!(app.handle_key(Key::Enter, 0), Command::Nothing);
    assert_eq!(app.handle_key(Key::Char('f'), 0), Command::OpenFileBrowser);
    assert_eq!(app.input_buffer, "");
    type_text(&mut app, "  /tmp/f.xml ");
    assert_eq!(app.handle_key(Key::Char('f'), 0), Command::Nothing);
    app.handle_key(Key::Backspace, 0);
    assert_eq!(app.input_buffer, "  /tmp/f.xml ");
    assert_eq!(app.handle_key(Key::Enter, 0), Command::ImportFile("/tmp/f.xml".to_string()));
    assert_eq!(app.screen, Screen::ImportXml);
    assert_eq!(app.handle_key(Key::Esc, 0), Command::Nothing);
    assert_eq!(app.screen, Screen::Main);
    assert_eq!(app.input_buffer, "");
}

#[test]
fn import_results() {
    let mut app = app_with(&["a"]);
    app.handle_key(Key::Char('i'), 0);
    let found = vec![profile("a", "x", None), profile("b", "x", None)];
    assert_eq!(
        app.import_finished("/tmp/f.xml", ImportOutcome::Imported(found), 11, "12:00:00"),
        Command::SaveConfig
    );
    assert_eq!(names(&app), vec!["a", "b"]);
    assert_eq!(app.config.profiles[0].category, "dev");
    assert_eq!(app.screen, Screen::Main);
    assert_eq!(app.status_message, Some(("Imported 2 profiles".to_string(), 11)));
    assert_eq!(app.logs, vec!["[12:00:00] Successfully imported 2 profiles from /tmp/f.xml"]);

    assert_eq!(
        app.import_finished("/x", ImportOutcome::Rejected("bad".to_string()), 12, "12:00:01"),
        Command::Nothing
    );
    assert_eq!(app.status_message, Some(("Import error: bad".to_string(), 12)));
    assert_eq!(app.logs[1], "[12:00:01] Error parsing XML from /x: bad");
    assert_eq!(
        app.import_finished("/y", ImportOutcome::Unreadable("gone".to_string()), 13, "12:00:02"),
        Command::Nothing
    );
    assert_eq!(app.status_message, Some(("File error: gone".to_string(), 13)));
    assert_eq!(app.logs[2], "[12:00:02] Error reading file /y: gone");
}

#[test]
fn file_browser_keys() {
    let mut app = app_with(&[]);
    app.screen = Screen::FileBrowser;
    assert_eq!(app.handle_key(Key::Down, 0), Command::Nothing);
    assert_eq!(app.screen, Screen::ImportXml);

    let found = vec![
        FileEntry { name: "f.xml".to_string(), path: "/d/f.xml".to_string(), is_dir: false },
        FileEntry { name: "sub".to_string(), path: "/d/sub".to_string(), is_dir: true },
    ];
    app.show_browser(FileBrowser::new("/d", Some("/"), &found));
    assert_eq!(app.screen, Screen::FileBrowser);
    assert_eq!(app.handle_key(Key::Backspace, 0), Command::OpenParent);
    assert_eq!(app.handle_key(Key::Enter, 0), Command::OpenDirectory("/".to_string()));
    app.handle_key(Key::Char('j'), 0);
    assert_eq!(app.handle_key(Key::Enter, 0), Command::OpenDirectory("/d/sub".to_string()));
    app.handle_key(Key::Up, 0);
    app.handle_key(Key::Char('k'), 0);
    assert_eq!(app.file_browser.as_ref().map(|b| b.selected), Some(2));
    assert_eq!(app.handle_key(Key::Enter, 0), Command::Nothing);
    assert_eq!(app.screen, Screen::ImportXml);
    assert_eq!(app.input_buffer, "/d/f.xml");
    app.screen = Screen::FileBrowser;
    assert_eq!(app.handle_key(Key::Esc, 0), Command::Nothing);
    assert_eq!(app.screen, Screen::ImportXml);
    assert!(app.file_browser.is_some());
}

#[test]
fn events() {
    let mut app = app_with(&["a"]);
    assert_eq!(REFRESH_SECONDS, 5);
    assert_eq!(app.handle_event(AppEvent::Tick, 5_999, "00:00:05"), Command::Nothing);
    assert_eq!(app.last_update, 1_000);
    assert_eq!(app.handle_event(AppEvent::Tick, 6_000, "00:00:06"), Command::RefreshStatus);
    assert_eq!(app.last_update, 6_000);
    assert!(!app.update(10_999));
    assert!(app.update(11_000));
    assert_eq!(app.handle_event(AppEvent::VpnStatusUpdated, 0, ""), Command::RefreshStatus);
    assert_eq!(app.handle_event(AppEvent::Input(Key::Char('q')), 0, ""), Command::Quit);
    assert_eq!(
        app.handle_event(AppEvent::Notification("Connected to a".to_string()), 12_000, "00:00:12"),
        Command::Nothing
    );
    assert_eq!(app.status_message, Some(("Connected to a".to_string(), 12_000)));
    assert_eq!(app.logs, vec!["[00:00:12] Connected to a"]);
    app.add_log("again", "00:00:13");
    assert_eq!(app.logs.len(), 2);
}

#[test]
fn connections_are_shown_and_sorted_by() {
    let mut app = app_with(&["a", "b"]);
    let record = VpnConnection {
        profile_name: "b".to_string(),
        status: VpnStatus::Connected,
        connected_since: Some(1),
        ip_address: None,
        bytes_sent: 0,
        bytes_received: 0,
    };
    app.set_connections(vec![record.clone()]);
    assert_eq!(app.get_connections(), vec![record]);
    app.sort_column = SortColumn::Status;
    assert_eq!(app.get_filtered_profiles_indices(), vec![1, 0]);
}
