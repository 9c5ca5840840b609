use magneporc::mqtt::{
    alert_overflows, death_payload, message_overflows_at, mqtt_sub_topics, AlertMessage,
    MqttMessage, PingMessage, PingType, MQTT_SUB_TOPICS_SIZE,
};
use magneporc::settings::{BroadCastTo, MessagePriority, MqttSettings};
use magneporc::text::{str_eq, STRING_SIZE};

fn name(s: &str) -> heapless::String<STRING_SIZE> {
    heapless::String::try_from(s).unwrap()
}

#[test]
fn priority_words() {
    assert_eq!(MessagePriority::new_from_str("low"), MessagePriority::Low);
    assert_eq!(MessagePriority::new_from_str("medium"), MessagePriority::Medium);
    assert_eq!(MessagePriority::new_from_str("high"), MessagePriority::High);
    assert_eq!(MessagePriority::new_from_str("urgent"), MessagePriority::Medium);
    assert_eq!(MessagePriority::new_from_str("LOW"), MessagePriority::Medium);
    assert_eq!(MessagePriority::new_from_str(""), MessagePriority::Medium);
    assert_eq!(MessagePriority::default(), MessagePriority::Medium);
}

#[test]
fn priority_round_trip() {
    for p in [MessagePriority::Low, MessagePriority::Medium, MessagePriority::High] {
        assert_eq!(MessagePriority::new_from_str(p.as_str()), p);
    }
    assert_eq!(MessagePriority::High.as_str(), "high");
}

#[test]
fn recipient_cycle_with_three_devices() {
    let mut s = MqttSettings::default();
    assert_eq!(s.selected_recipient(), 0);
    assert_eq!(s.broadcast_to(), BroadCastTo::SelectedRecipient(0));
    s.set_number_of_devices(3);
    assert_eq!(s.number_of_devices(), 3);
    let mut seen = Vec::new();
    for _ in 0..4 {
        s.select_next_recipient();
        seen.push(s.selected_recipient());
    }
    assert_eq!(seen, vec![1, 2, 3, 0]);
    assert_eq!(s.broadcast_to(), BroadCastTo::SelectedRecipient(0));
    assert_eq!(s.priority(), MessagePriority::Medium);
}

#[test]
fn recipient_everyone_with_one_device() {
    let mut s = MqttSettings::default();
    s.set_number_of_devices(1);
    s.select_next_recipient();
    assert_eq!(s.broadcast_to(), BroadCastTo::AllRecipients);
    assert_eq!(s.selected_recipient(), 1);
    s.select_next_recipient();
    assert_eq!(s.broadcast_to(), BroadCastTo::SelectedRecipient(0));
}

#[test]
fn recipient_from_everyone_with_no_device() {
    let mut s = MqttSettings::default();
    s.set_number_of_devices(1);
    s.select_next_recipient();
    s.set_number_of_devices(0);
    assert_eq!(s.selected_recipient(), 0);
    s.select_next_recipient();
    assert_eq!(s.broadcast_to(), BroadCastTo::SelectedRecipient(0));
}

#[test]
fn recipient_past_a_shrunk_list_goes_to_everyone() {
    let mut s = MqttSettings::default();
    s.set_number_of_devices(5);
    for _ in 0..4 {
        s.select_next_recipient();
    }
    assert_eq!(s.selected_recipient(), 4);
    s.set_number_of_devices(2);
    s.select_next_recipient();
    assert_eq!(s.broadcast_to(), BroadCastTo::AllRecipients);
    assert_eq!(s.selected_recipient(), 2);
}

#[test]
fn alert_payload_text() {
    let a = AlertMessage::new_alert(name("mara"), MessagePriority::Medium, "jeremy");
    assert_eq!(a.to_device().as_str(), "mara");
    assert_eq!(a.from_device().as_str(), "jeremy");
    assert_eq!(a.priority(), MessagePriority::Medium);
    assert_eq!(a.payload().as_str(), "to=mara;from=jeremy;severity=medium");
}

#[test]
fn alert_round_trip() {
    let a = AlertMessage::new_alert(name("teresa"), MessagePriority::High, "jeremy");
    let p = a.payload();
    let b = AlertMessage::try_new(p.as_bytes()).unwrap();
    assert_eq!(b.to_device().as_str(), "teresa");
    assert_eq!(b.from_device().as_str(), "jeremy");
    assert_eq!(b.priority(), MessagePriority::High);
}

#[test]
fn alert_reads_example_payload() {
    let a = AlertMessage::try_new(b"to=jeremy;from=mara;severity=low").unwrap();
    assert_eq!(a.to_device().as_str(), "jeremy");
    assert_eq!(a.from_device().as_str(), "mara");
    assert_eq!(a.priority(), MessagePriority::Low);
}

#[test]
fn alert_keys_are_ignored() {
    let a = AlertMessage::try_new(b"a=x;b=y=z;c=unknown").unwrap();
    assert_eq!(a.to_device().as_str(), "x");
    assert_eq!(a.from_device().as_str(), "y=z");
    assert_eq!(a.priority(), MessagePriority::Medium);
}

#[test]
fn alert_rejects_bad_payloads() {
    assert!(AlertMessage::try_new(b"to=jeremy;frommara;severity=low").is_none());
    assert!(AlertMessage::try_new(&[0xff, 0xfe, 0x3d]).is_none());
    let long = "to=0123456789012345678901234567890123456789X;from=a;severity=low";
    assert!(AlertMessage::try_new(long.as_bytes()).is_none());
    assert!(AlertMessage::try_new(b"to;from").is_none());
    assert!(AlertMessage::try_new(b"").is_none());
}

#[test]
fn alert_overflow_detection() {
    assert!(alert_overflows(b"a=1;b=2;c=3;d=4"));
    assert!(alert_overflows(b"a=1;b;c;d"));
    assert!(alert_overflows(b"to=x;from=y"));
    assert!(alert_overflows(b"to=x"));
    assert!(!alert_overflows(b"to=x;fromy"));
    assert!(!alert_overflows(b"to=x;from=y;severity=low"));
    assert!(!alert_overflows(&[0xff, b';', b';', b';']));
    assert!(message_overflows_at("magneporc/devices/inbox", b"to=x"));
    assert!(!message_overflows_at("magneporc/devices/ping", b"to=x"));
}

#[test]
fn ping_payloads() {
    let p = PingMessage::new_ping(PingType::Ping, "jeremy");
    assert_eq!(p.device_name.as_str(), "jeremy");
    assert_eq!(p.payload("jeremy").as_str(), "ping=jeremy");
    assert_eq!(PingType::Pong.as_str(), "pong=");
    assert_eq!(PingType::Death.as_str(), "death=");
    assert_eq!(death_payload("jeremy").as_str(), "dead=jeremy");
}

#[test]
fn ping_read_by_other_device() {
    let m = MqttMessage::try_new("magneporc/devices/ping", b"pong=mara", "jeremy").unwrap();
    match m {
        MqttMessage::PingMessage(p) => {
            assert_eq!(p.ping_type, PingType::Pong);
            assert_eq!(p.device_name.as_str(), "mara");
        }
        _ => panic!("expected a ping"),
    }
    let m = MqttMessage::try_new("magneporc/devices/ping", b"ping=mara", "jeremy").unwrap();
    assert!(matches!(m, MqttMessage::PingMessage(PingMessage { ping_type: PingType::Ping, .. })));
}

#[test]
fn last_will_read_as_death() {
    let will = death_payload("mara");
    let m = MqttMessage::try_new("magneporc/devices/ping", will.as_bytes(), "jeremy").unwrap();
    match m {
        MqttMessage::PingMessage(p) => {
            assert_eq!(p.ping_type, PingType::Death);
            assert_eq!(p.device_name.as_str(), "mara");
        }
        _ => panic!("expected a ping"),
    }
}

#[test]
fn own_pings_are_ignored() {
    for t in [PingType::Ping, PingType::Pong, PingType::Death] {
        let p = PingMessage::new_ping(t, "jeremy").payload("jeremy");
        assert!(MqttMessage::try_new("magneporc/devices/ping", p.as_bytes(), "jeremy").is_none());
    }
    assert!(MqttMessage::try_new("magneporc/devices/ping", b"dead=jeremy", "jeremy").is_none());
}

#[test]
fn death_word_of_ping_type_is_not_read() {
    let p = PingMessage::new_ping(PingType::Death, "mara").payload("mara");
    assert_eq!(p.as_str(), "death=mara");
    assert!(MqttMessage::try_new("magneporc/devices/ping", p.as_bytes(), "jeremy").is_none());
}

#[test]
fn ping_rejects_bad_payloads() {
    let ping = "magneporc/devices/ping";
    assert!(MqttMessage::try_new(ping, b"hello=mara", "jeremy").is_none());
    assert!(MqttMessage::try_new(ping, b"pongmara", "jeremy").is_none());
    assert!(MqttMessage::try_new(ping, &[b'p', b'=', 0xc3], "jeremy").is_none());
    let long = "pong=0123456789012345678901234567890123456789X";
    assert!(MqttMessage::try_new(ping, long.as_bytes(), "jeremy").is_none());
    assert!(MqttMessage::try_new("other/topic", b"pong=mara", "jeremy").is_none());
}

#[test]
fn message_topics_and_payloads() {
    let a = MqttMessage::AlertMessage(AlertMessage::new_alert(
        name("all"),
        MessagePriority::Low,
        "jeremy",
    ));
    assert_eq!(a.topic(), "magneporc/devices/inbox");
    assert!(a.payload_fits("jeremy"));
    assert_eq!(a.payload("jeremy").as_str(), "to=all;from=jeremy;severity=low");
    let back = MqttMessage::try_new(a.topic(), a.payload("jeremy").as_bytes(), "mara").unwrap();
    match back {
        MqttMessage::AlertMessage(b) => {
            assert_eq!(b.to_device().as_str(), "all");
            assert_eq!(b.from_device().as_str(), "jeremy");
            assert_eq!(b.priority(), MessagePriority::Low);
        }
        _ => panic!("expected an alert"),
    }
    let p = MqttMessage::PingMessage(PingMessage::new_ping(PingType::Pong, "jeremy"));
    assert_eq!(p.topic(), "magneporc/devices/ping");
    assert_eq!(p.payload("jeremy").as_str(), "pong=jeremy");
}

#[test]
fn payload_fit_limits() {
    let a = MqttMessage::AlertMessage(AlertMessage::new_alert(
        name("abcdefghij"),
        MessagePriority::Medium,
        "abcdefghijklm",
    ));
    // 19 + 10 + 13 + 6 = 48 bytes
    assert!(!a.payload_fits("x"));
    let b = MqttMessage::AlertMessage(AlertMessage::new_alert(
        name("abcdefghij"),
        MessagePriority::Low,
        "abcdefgh",
    ));
    // 19 + 10 + 8 + 3 = 40 bytes
    assert!(b.payload_fits("x"));
    assert_eq!(b.payload("x").len(), 40);
    let p = MqttMessage::PingMessage(PingMessage::new_ping(PingType::Ping, "x"));
    assert!(p.payload_fits("0123456789012345678901234567890123456"[..35].as_ref()));
    assert!(!p.payload_fits("0123456789012345678901234567890123456"));
}

#[test]
fn subscription_topics() {
    let t = mqtt_sub_topics();
    assert_eq!(t.len(), MQTT_SUB_TOPICS_SIZE);
    assert_eq!(t, ["magneporc/devices/ping", "magneporc/devices/inbox"]);
}

#[test]
fn text_equality() {
    assert!(str_eq("mara", "mara"));
    assert!(!str_eq("mara", "marc"));
    assert!(!str_eq("mara", "mar"));
    assert!(str_eq("", ""));
    assert!(str_eq("é", "é"));
}
