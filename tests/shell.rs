use crewhub::{
    backend_url, badge_icon, base_init, chat_init_script, init_script, menu_command, route,
    settings_init_script, tooltip, tray_click_action, window_spec, window_url, world_init_script,
    zen_init_script, BadgeError, BadgeIcon, CloseDecision, Command, ContentSource, MenuAction,
    OpenStep, TrayBadgeController, WindowName, WindowRegistry, WindowState,
};

const BACKEND: &str = "http://example.test:9000";

fn registry() -> WindowRegistry {
    WindowRegistry::new(ContentSource::Bundled, BACKEND.to_string())
}

#[test]
fn repeated_opens_build_once_and_end_visible() {
    let mut reg = registry();
    let mut builds = 0;
    for _ in 0..5 {
        match reg.open_or_focus(WindowName::Chat) {
            OpenStep::Construct(_) => {
                builds += 1;
                reg.construction_finished(WindowName::Chat, true);
            }
            OpenStep::ShowAndFocus => {}
        }
    }
    assert_eq!(builds, 1);
    assert_eq!(reg.state_of(WindowName::Chat), WindowState::Visible);
    assert_eq!(reg.state_of(WindowName::World), WindowState::Absent);
}

#[test]
fn failed_construction_is_retried_on_next_open() {
    let mut reg = registry();
    assert!(matches!(reg.open_or_focus(WindowName::World), OpenStep::Construct(_)));
    reg.construction_finished(WindowName::World, false);
    assert_eq!(reg.state_of(WindowName::World), WindowState::Absent);
    assert!(matches!(reg.open_or_focus(WindowName::World), OpenStep::Construct(_)));
    reg.construction_finished(WindowName::World, true);
    assert_eq!(reg.state_of(WindowName::World), WindowState::Visible);
}

#[test]
fn close_hides_and_reopen_reuses_window() {
    let mut reg = registry();
    assert!(matches!(reg.open_or_focus(WindowName::Zen), OpenStep::Construct(_)));
    reg.construction_finished(WindowName::Zen, true);
    assert_eq!(reg.close_requested("zen-mode"), CloseDecision::HideInstead);
    assert_eq!(reg.state_of(WindowName::Zen), WindowState::Hidden);
    assert!(matches!(reg.open_or_focus(WindowName::Zen), OpenStep::ShowAndFocus));
    assert_eq!(reg.state_of(WindowName::Zen), WindowState::Visible);
}

#[test]
fn close_of_unmanaged_window_is_allowed() {
    let mut reg = registry();
    assert_eq!(reg.close_requested("zen"), CloseDecision::Allow);
    assert_eq!(reg.close_requested("main"), CloseDecision::Allow);
    assert_eq!(reg.close_requested("settings"), CloseDecision::HideInstead);
    assert_eq!(reg.state_of(WindowName::Settings), WindowState::Absent);
}

#[test]
fn labels_round_trip() {
    for name in [WindowName::Chat, WindowName::World, WindowName::Settings, WindowName::Zen] {
        assert_eq!(WindowName::from_label(name.label()), Some(name));
    }
    assert_eq!(WindowName::Zen.label(), "zen-mode");
    assert_eq!(WindowName::from_label("Chat"), None);
}

#[test]
fn repeated_badge_count_is_debounced() {
    let mut tray = TrayBadgeController::new();
    let first = tray.set_badge(4).expect("first report changes the tray");
    assert_eq!(first.icon, BadgeIcon::Badge3Plus);
    assert!(tray.set_badge(4).is_none());
    assert_eq!(tray.last_reported(), 4);
}

#[test]
fn initial_zero_count_is_debounced() {
    let mut tray = TrayBadgeController::new();
    assert!(tray.set_badge(0).is_none());
}

#[test]
fn bucket_mapping_is_exact() {
    assert_eq!(badge_icon(0), BadgeIcon::Default);
    assert_eq!(badge_icon(1), BadgeIcon::Badge1);
    assert_eq!(badge_icon(2), BadgeIcon::Badge2);
    assert_eq!(badge_icon(3), BadgeIcon::Badge3Plus);
    assert_eq!(badge_icon(1000), BadgeIcon::Badge3Plus);
    assert_eq!(badge_icon(u32::MAX), BadgeIcon::Badge3Plus);
    assert_eq!(tooltip(0), "CrewHub");
    assert!(tooltip(1).contains('1'));
    assert!(tooltip(2).contains('2'));
    assert_eq!(tooltip(1), "CrewHub \u{2014} 1 unread");
    assert_eq!(tooltip(1000), "CrewHub \u{2014} 1000 unread");
    assert_eq!(tooltip(u32::MAX), "CrewHub \u{2014} 4294967295 unread");
}

#[test]
fn icon_files() {
    assert_eq!(BadgeIcon::Default.file_name(), None);
    assert_eq!(BadgeIcon::Badge1.file_name(), Some("tray-badge-1.png"));
    assert_eq!(BadgeIcon::Badge2.file_name(), Some("tray-badge-2.png"));
    assert_eq!(BadgeIcon::Badge3Plus.file_name(), Some("tray-badge-3plus.png"));
}

#[test]
fn two_then_two_then_zero_swaps_twice() {
    let mut tray = TrayBadgeController::new();
    let updates: Vec<_> = [2u32, 2, 0].iter().filter_map(|&c| tray.set_badge(c)).collect();
    assert_eq!(updates.len(), 2);
    assert_eq!(updates[0].icon, BadgeIcon::Badge2);
    assert_eq!(updates[0].tooltip, "CrewHub \u{2014} 2 unread");
    assert_eq!(updates[1].icon, BadgeIcon::Default);
    assert_eq!(updates[1].tooltip, "CrewHub");
}

#[test]
fn badge_error_messages() {
    assert_eq!(BadgeError::TrayNotFound.message(), "Tray icon not found");
    assert_eq!(BadgeError::NoDefaultIcon.message(), "No default icon");
    assert_eq!(BadgeError::ResourceDir { reason: "no dir".to_string() }.message(), "no dir");
    let e = BadgeError::IconLoad { file: "tray-badge-2.png".to_string(), reason: "missing".to_string() };
    assert_eq!(e.message(), "Failed to load badge icon 'tray-badge-2.png': missing");
    assert_eq!(BadgeError::Tray { reason: "refused".to_string() }.message(), "refused");
}

#[test]
fn unknown_menu_id_is_ignored() {
    assert_eq!(menu_command("about"), Command::Ignore);
    assert_eq!(menu_command(""), Command::Ignore);
    assert_eq!(menu_command("zen-mode"), Command::Ignore);
    match MenuAction::from_id("about") {
        MenuAction::Unknown(s) => assert_eq!(s, "about"),
        _ => panic!("expected an unknown action"),
    }
}

#[test]
fn only_quit_exits() {
    assert_eq!(menu_command("quit"), Command::Exit(0));
    assert_eq!(menu_command("chat"), Command::Open(WindowName::Chat));
    assert_eq!(menu_command("world"), Command::Open(WindowName::World));
    assert_eq!(menu_command("zen"), Command::Open(WindowName::Zen));
    assert_eq!(menu_command("settings"), Command::Open(WindowName::Settings));
    assert_eq!(route(&MenuAction::Quit), Command::Exit(0));
    assert_eq!(route(&MenuAction::Unknown("quit ".to_string())), Command::Ignore);
}

#[test]
fn tray_click_opens_chat_on_primary_release() {
    assert!(matches!(tray_click_action(true, true), Some(MenuAction::OpenChat)));
    assert!(tray_click_action(true, false).is_none());
    assert!(tray_click_action(false, true).is_none());
}

#[test]
fn init_scripts() {
    assert_eq!(
        base_init(BACKEND),
        "window.__CREWHUB_BACKEND_URL__ = 'http://example.test:9000'; localStorage.setItem('crewhub-onboarded', 'true');"
    );
    assert_eq!(chat_init_script(BACKEND), format!("window.__TAURI_VIEW__ = 'mobile'; {}", base_init(BACKEND)));
    assert_eq!(world_init_script(BACKEND), format!("window.__TAURI_VIEW__ = 'desktop'; {}", base_init(BACKEND)));
    assert_eq!(zen_init_script(BACKEND), format!("window.__TAURI_VIEW__ = 'zen'; {}", base_init(BACKEND)));
    assert_eq!(
        settings_init_script(BACKEND),
        "window.__TAURI_VIEW__ = 'settings'; window.__CREWHUB_BACKEND_URL__ = 'http://example.test:9000';"
    );
    assert_eq!(init_script(WindowName::Zen, BACKEND), zen_init_script(BACKEND));
}

#[test]
fn backend_url_fallback() {
    assert_eq!(backend_url(None), "http://localhost:8091");
    assert_eq!(backend_url(Some("http://h:1".to_string())), "http://h:1");
}

#[test]
fn urls_per_source() {
    assert_eq!(window_url(WindowName::Chat, ContentSource::DevServer), "http://localhost:5180/");
    assert_eq!(window_url(WindowName::World, ContentSource::Bundled), "index.html");
    assert_eq!(window_url(WindowName::Settings, ContentSource::DevServer), "http://localhost:5180/?view=settings");
    assert_eq!(window_url(WindowName::Settings, ContentSource::Bundled), "index.html?view=settings");
    assert_eq!(window_url(WindowName::Zen, ContentSource::DevServer), "http://localhost:5180/?mode=zen");
    assert_eq!(window_url(WindowName::Zen, ContentSource::Bundled), "index.html?mode=zen");
}

#[test]
fn window_geometry() {
    let chat = window_spec(WindowName::Chat, ContentSource::Bundled, BACKEND);
    assert_eq!((chat.width, chat.height, chat.min_size), (390, 700, Some((320, 500))));
    assert!(chat.skip_taskbar && chat.resizable && !chat.always_on_top && chat.decorations);
    assert_eq!(chat.title, "CrewHub Chat");
    assert_eq!(chat.init_script, chat_init_script(BACKEND));
    let world = window_spec(WindowName::World, ContentSource::Bundled, BACKEND);
    assert_eq!((world.width, world.height, world.min_size), (1280, 900, Some((900, 600))));
    assert!(!world.skip_taskbar && world.resizable && !world.always_on_top);
    assert_eq!(world.title, "CrewHub 3D World");
    let settings = window_spec(WindowName::Settings, ContentSource::DevServer, BACKEND);
    assert_eq!((settings.width, settings.height, settings.min_size), (420, 280, None));
    assert!(settings.skip_taskbar && !settings.resizable && settings.always_on_top);
    assert_eq!(settings.url, "http://localhost:5180/?view=settings");
    let zen = window_spec(WindowName::Zen, ContentSource::Bundled, BACKEND);
    assert_eq!((zen.width, zen.height, zen.min_size), (820, 920, Some((600, 500))));
    assert!(!zen.skip_taskbar && zen.resizable && !zen.always_on_top);
    assert_eq!(zen.title, "Zen Mode");
    assert_eq!(zen.url, "index.html?mode=zen");
}
