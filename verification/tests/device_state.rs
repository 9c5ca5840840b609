use magneporc::events::{press_event, Commands, Events, I2CDevice, RtcAction};
use magneporc::lists::{GLOBAL_MAX_ITEMS, MAX_DEVICES};
use magneporc::mqtt::{AlertMessage, MqttMessage, PingMessage, PingType};
use magneporc::screen::{display_layout, messaging_layout, CurrentScreen, ScreenData};
use magneporc::settings::{BroadCastTo, MessagePriority};
use magneporc::state::AppState;
use magneporc::text::STRING_SIZE;

fn name(s: &str) -> heapless::String<STRING_SIZE> {
    heapless::String::try_from(s).unwrap()
}

fn pong(from: &str) -> MqttMessage {
    MqttMessage::PingMessage(PingMessage { ping_type: PingType::Pong, device_name: name(from) })
}

fn death(from: &str) -> MqttMessage {
    MqttMessage::PingMessage(PingMessage { ping_type: PingType::Death, device_name: name(from) })
}

fn device_list(s: &AppState) -> Vec<String> {
    match s.devices() {
        Some(d) => d.iter().map(|n| n.as_str().to_string()).collect(),
        None => Vec::new(),
    }
}

fn items(d: &ScreenData) -> Vec<String> {
    d.items.iter().map(|n| n.as_str().to_string()).collect()
}

fn pending_to(s: &AppState) -> String {
    match s.mqtt_msg() {
        Some(MqttMessage::AlertMessage(a)) => a.to_device().as_str().to_string(),
        _ => panic!("no alert ready"),
    }
}

#[test]
fn start_state() {
    let s = AppState::new();
    assert_eq!(s.screen(), Some(CurrentScreen::Messaging));
    assert!(s.mqtt_msg().is_none());
    assert!(s.devices().is_none());
    let m = s.mqtt_settings().unwrap();
    assert_eq!(m.number_of_devices(), 0);
    assert_eq!(m.broadcast_to(), BroadCastTo::SelectedRecipient(0));
    assert_eq!(s.selected_device_name().as_str(), "all");
    assert_eq!(CurrentScreen::default(), CurrentScreen::Messaging);
}

#[test]
fn pongs_add_devices_once() {
    let mut s = AppState::new();
    s.receive_msg(pong("mara"));
    s.receive_msg(pong("teresa"));
    s.receive_msg(pong("mara"));
    assert_eq!(device_list(&s), vec!["mara", "teresa"]);
}

#[test]
fn pings_and_alerts_change_nothing() {
    let mut s = AppState::new();
    s.receive_msg(MqttMessage::PingMessage(PingMessage {
        ping_type: PingType::Ping,
        device_name: name("mara"),
    }));
    s.receive_msg(MqttMessage::AlertMessage(AlertMessage::new_alert(
        name("jeremy"),
        MessagePriority::High,
        "mara",
    )));
    assert!(s.devices().is_none());
    assert!(s.mqtt_msg().is_none());
}

#[test]
fn death_removes_device() {
    let mut s = AppState::new();
    s.receive_msg(pong("mara"));
    s.receive_msg(pong("teresa"));
    s.receive_msg(pong("bob"));
    s.receive_msg(death("teresa"));
    assert_eq!(device_list(&s), vec!["mara", "bob"]);
    s.receive_msg(death("nobody"));
    assert_eq!(device_list(&s), vec!["mara", "bob"]);
}

#[test]
fn add_then_remove_restores_list() {
    let mut s = AppState::new();
    s.add_device(name("mara"));
    s.add_device(name("teresa"));
    s.add_device(name("bob"));
    s.remove_device(name("bob"));
    assert_eq!(device_list(&s), vec!["mara", "teresa"]);
}

#[test]
fn remove_from_no_list() {
    let mut s = AppState::new();
    s.remove_device(name("mara"));
    assert!(s.devices().is_none());
}

#[test]
fn full_device_list() {
    let mut s = AppState::new();
    for i in 0..(MAX_DEVICES + 3) {
        s.add_device(name(&format!("dev{}", i)));
    }
    let l = device_list(&s);
    assert_eq!(l.len(), MAX_DEVICES);
    assert_eq!(l[MAX_DEVICES - 1], "dev19");
}

#[test]
fn select_cycles_through_devices() {
    let mut s = AppState::new();
    s.receive_msg(pong("mara"));
    s.receive_msg(pong("teresa"));
    s.select_btn("jeremy");
    assert_eq!(pending_to(&s), "teresa");
    s.select_btn("jeremy");
    assert_eq!(pending_to(&s), "all");
    assert_eq!(s.mqtt_settings().unwrap().broadcast_to(), BroadCastTo::AllRecipients);
    s.select_btn("jeremy");
    assert_eq!(pending_to(&s), "mara");
    match s.mqtt_msg() {
        Some(MqttMessage::AlertMessage(a)) => {
            assert_eq!(a.from_device().as_str(), "jeremy");
            assert_eq!(a.priority(), MessagePriority::Medium);
        }
        _ => panic!("no alert ready"),
    }
}

#[test]
fn select_then_send() {
    let mut s = AppState::new();
    s.receive_msg(pong("mara"));
    s.select_btn("jeremy");
    let sent = s.send_btn().unwrap();
    assert_eq!(sent.payload("jeremy").as_str(), "to=all;from=jeremy;severity=medium");
}

#[test]
fn send_without_alert_or_off_screen() {
    let mut s = AppState::new();
    assert!(s.send_btn().is_none());
    s.receive_msg(pong("mara"));
    s.select_btn("jeremy");
    assert_eq!(s.change_screen(CurrentScreen::Error), I2CDevice::Ssd1306Display);
    assert!(s.send_btn().is_none());
    s.select_btn("jeremy");
    assert_eq!(s.screen(), Some(CurrentScreen::Error));
}

#[test]
fn select_needs_a_device_or_everyone() {
    let s = AppState::new();
    assert!(!s.can_handle(&Events::SelectButtonPressed, "jeremy"));
    let mut s = AppState::new();
    s.receive_msg(pong("mara"));
    assert!(s.can_handle(&Events::SelectButtonPressed, "jeremy"));
    let long = "0123456789012345678901234567890123456789X";
    assert!(!s.can_handle(&Events::SelectButtonPressed, long));
    assert!(!s.can_handle(&Events::Starting, long));
    assert!(s.can_handle(&Events::SendButtonPressed, long));
    s.change_screen(CurrentScreen::Alert);
    assert!(!s.can_handle(&Events::SelectButtonPressed, "jeremy"));
}

#[test]
fn screen_snapshot() {
    let mut s = AppState::new();
    s.receive_msg(pong("mara"));
    s.receive_msg(pong("teresa"));
    s.select_btn("jeremy");
    let d = s.screen_data();
    assert_eq!(items(&d), vec!["mara", "teresa", "Tout le monde"]);
    assert_eq!(d.selected_item, 1);
    assert!(!d.align);
    assert_eq!(d.current_screen, CurrentScreen::Messaging);
}

#[test]
fn screen_snapshot_of_many_devices() {
    let mut s = AppState::new();
    for i in 0..15 {
        s.add_device(name(&format!("d{}", i)));
    }
    let d = s.screen_data();
    assert_eq!(d.items.len(), GLOBAL_MAX_ITEMS);
    assert_eq!(d.items[11].as_str(), "d11");
    let mut t = AppState::new();
    for i in 0..11 {
        t.add_device(name(&format!("d{}", i)));
    }
    let d = t.screen_data();
    assert_eq!(d.items.len(), GLOBAL_MAX_ITEMS);
    assert_eq!(d.items[11].as_str(), "Tout le monde");
}

#[test]
fn orchestrator_events() {
    let mut s = AppState::new();
    let r = s.handle_event(Events::Starting, "jeremy");
    assert_eq!(r.send.unwrap().payload("jeremy").as_str(), "ping=jeremy");
    assert!(!r.start_scheduler);
    assert_eq!(items(&r.screen), vec!["Tout le monde"]);
    let r = s.handle_event(Events::MessageReceived(pong("mara")), "jeremy");
    assert!(r.send.is_none());
    assert_eq!(items(&r.screen), vec!["mara", "Tout le monde"]);
    let r = s.handle_event(Events::SelectButtonPressed, "jeremy");
    assert!(r.send.is_none());
    assert_eq!(r.screen.selected_item, 1);
    let r = s.handle_event(Events::SendButtonPressed, "jeremy");
    assert!(r.start_scheduler);
    assert_eq!(r.send.unwrap().payload("jeremy").as_str(), "to=all;from=jeremy;severity=medium");
    let p = s.send_mqtt_ping(PingType::Pong, "jeremy");
    assert_eq!(p.payload("jeremy").as_str(), "pong=jeremy");
}

#[test]
fn layout_of_messaging_screen() {
    let mut s = AppState::new();
    for i in 0..8 {
        s.add_device(name(&format!("d{}", i)));
    }
    let mut d = s.screen_data();
    d.selected_item = 5;
    let l = messaging_layout(&d);
    assert_eq!(l.position, 6);
    assert_eq!(l.count, 9);
    let idx: Vec<u8> = l.rows.iter().map(|r| r.index).collect();
    assert_eq!(idx, vec![2, 3, 4, 5, 6, 7, 8]);
    let tops: Vec<i32> = l.rows.iter().map(|r| r.top).collect();
    assert_eq!(tops, vec![1, 13, 25, 37, 49, 61, 73]);
    let lit: Vec<bool> = l.rows.iter().map(|r| r.highlighted).collect();
    assert_eq!(lit, vec![false, false, false, true, false, false, false]);
}

#[test]
fn layout_from_top_and_past_end() {
    let s = AppState::new();
    let mut d = s.screen_data();
    let l = messaging_layout(&d);
    assert_eq!(l.position, 1);
    assert_eq!(l.count, 1);
    assert_eq!(l.rows.len(), 1);
    assert!(l.rows[0].highlighted);
    d.selected_item = 9;
    let l = messaging_layout(&d);
    assert!(l.rows.is_empty());
    d.current_screen = CurrentScreen::Starting;
    assert!(display_layout(&d).is_none());
    d.current_screen = CurrentScreen::Messaging;
    assert_eq!(display_layout(&d).unwrap().position, 10);
}

#[test]
fn button_events() {
    assert!(press_event(&Events::SelectButtonPressed, false).is_none());
    assert!(matches!(press_event(&Events::SelectButtonPressed, true), Some(Events::SelectButtonPressed)));
    assert!(matches!(press_event(&Events::SendButtonPressed, true), Some(Events::SendButtonPressed)));
}

#[test]
fn plain_enums() {
    assert_ne!(I2CDevice::Ssd1306Display, I2CDevice::RtcDs3231(RtcAction::Read));
    assert_ne!(RtcAction::Read, RtcAction::Write);
    assert_ne!(Commands::MqttSend, Commands::MqttReceive);
    assert_eq!(BroadCastTo::default(), BroadCastTo::SelectedRecipient(0));
}

#[test]
fn default_and_clone_of_state() {
    let d = AppState::default();
    assert!(d.screen().is_none());
    assert!(d.mqtt_settings().is_none());
    assert!(!d.can_handle(&Events::SelectButtonPressed, "jeremy"));
    assert_eq!(d.selected_device_name().as_str(), "all");
    let mut s = AppState::new();
    s.receive_msg(pong("mara"));
    s.select_btn("jeremy");
    let c = s.clone();
    assert_eq!(device_list(&c), vec!["mara"]);
    assert_eq!(pending_to(&c), "all");
    s.receive_msg(death("mara"));
    assert_eq!(device_list(&c), vec!["mara"]);
    assert!(device_list(&s).is_empty());
}

#[test]
fn low_level_emits_nothing_for_any_event() {
    assert!(press_event(&Events::Starting, false).is_none());
}
