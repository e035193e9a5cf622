use rue::address::IpAddress;
use rue::app::{App, DiscoveryAction, Page, DISCOVERY_ATTEMPTS};
use rue::bridge::Bridge;
use rue::config::User;
use rue::errors::BridgeError;

fn user() -> User {
    User { username: "abc".to_string(), bridge_address: IpAddress::V4(1) }
}

#[test]
fn known_user_starts_on_rooms() {
    let app = App::new(Some(user()));
    assert_eq!(app.active_page, Page::Rooms);
    assert!(app.authorized());
    assert_eq!(app.discovery_loader, 0);
    assert!(!app.discovery_task_spawned);
    assert_eq!(app.tabstate.index, 0);
}

#[test]
fn unknown_user_starts_on_search() {
    let app = App::new(None);
    assert_eq!(app.active_page, Page::Search);
    assert!(!app.authorized());
}

#[test]
fn update_user_replaces_the_user() {
    let mut app = App::new(None);
    app.update_user(Some(user()));
    assert!(app.authorized());
    assert_eq!(app.active_page, Page::Search);
    app.update_user(None);
    assert!(!app.authorized());
}

#[test]
fn increment_loader_adds_four() {
    let mut app = App::new(None);
    app.increment_loader();
    app.increment_loader();
    assert_eq!(app.discovery_loader, 8);
}

#[test]
fn failed_attempts_fill_the_loader_to_one_hundred() {
    let mut app = App::new(None);
    for attempt in 0..DISCOVERY_ATTEMPTS {
        let action = app.after_discovery_attempt(attempt, Err(BridgeError::ButtonNotPressed));
        if attempt + 1 < DISCOVERY_ATTEMPTS {
            assert!(matches!(action, DiscoveryAction::PauseThenRetry));
        } else {
            assert!(matches!(action, DiscoveryAction::PauseThenStop));
        }
        assert!(app.discovery_task_spawned);
    }
    assert_eq!(app.discovery_loader, 100);
}

#[test]
fn successful_attempt_asks_to_save_and_changes_nothing() {
    let mut app = App::new(None);
    match app.after_discovery_attempt(3, Ok(user())) {
        DiscoveryAction::SaveUser(u) => assert_eq!(u.username, "abc"),
        _ => panic!("expected a user to save"),
    }
    assert_eq!(app.discovery_loader, 0);
    assert!(!app.discovery_task_spawned);
}

#[test]
fn found_bridges_are_shown() {
    let mut app = App::new(None);
    app.show_bridges(vec![Bridge::new(IpAddress::V4(3))]);
    assert_eq!(app.active_page, Page::Discovery(vec![Bridge::new(IpAddress::V4(3))]));
}

#[test]
fn tick_changes_nothing() {
    let app = App::new(None);
    app.update_on_tick();
    assert_eq!(app.discovery_loader, 0);
}

#[test]
fn library_app_keeps_user_and_tabs() {
    let app = rue::App::new(Some(user()));
    assert_eq!(app.user.unwrap().username, "abc");
    assert_eq!(app.tabstate.pages.len(), 3);
}

#[test]
fn registration_stops_at_the_first_success() {
    let mut app = App::new(None);
    app.tabstate.next();
    assert!(matches!(app.after_discovery_attempt(0, Err(BridgeError::NoBridgesFound)), DiscoveryAction::PauseThenRetry));
    assert!(matches!(app.after_discovery_attempt(1, Err(BridgeError::ButtonNotPressed)), DiscoveryAction::PauseThenRetry));
    assert!(matches!(app.after_discovery_attempt(2, Ok(user())), DiscoveryAction::SaveUser(_)));
    assert_eq!(app.discovery_loader, 8);
    assert!(app.discovery_task_spawned);
    assert_eq!(app.tabstate.index, 1);
    assert_eq!(app.active_page, Page::Search);
}
