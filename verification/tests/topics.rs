use compact_str::CompactString;
use fireboard2mqtt::config::Fb2MqttConfig;
use fireboard2mqtt::fireboard_watcher::FireboardWatcher;
use fireboard2mqtt::mqtt_action::{MQTTAction, Payload, QoS};
use fireboard2mqtt::text::{decimal_string, join, push_decimal, to_std_string};

fn config(drive: bool) -> Fb2MqttConfig {
    Fb2MqttConfig {
        fireboardaccount_email: CompactString::from("cook@example.org"),
        fireboardaccount_password: CompactString::from("secret"),
        fireboard_enable_drive: drive,
        mqtt_host: CompactString::from("localhost"),
        mqtt_port: 1883,
        mqtt_discovery_topic: CompactString::from("homeassistant"),
        mqtt_base_topic: CompactString::from("fireboard2mqtt"),
        mqtt_credentials: None,
        mqtt_clientid: CompactString::from("fireboard2mqtt"),
    }
}

#[test]
fn decimal_of_zero_is_one_digit() {
    assert_eq!(decimal_string(0).as_str(), "0");
}

#[test]
fn decimal_has_no_leading_zero() {
    assert_eq!(decimal_string(7).as_str(), "7");
    assert_eq!(decimal_string(10).as_str(), "10");
    assert_eq!(decimal_string(600).as_str(), "600");
    assert_eq!(decimal_string(1234567890).as_str(), "1234567890");
    assert_eq!(decimal_string(u64::MAX).as_str(), "18446744073709551615");
}

#[test]
fn decimal_agrees_with_the_standard_form() {
    let mut n: u64 = 0;
    while n < 5000 {
        assert_eq!(decimal_string(n).as_str(), format!("{}", n));
        n += 1;
    }
}

#[test]
fn push_decimal_appends() {
    let mut s = CompactString::from("channel_");
    push_decimal(&mut s, 12);
    assert_eq!(s.as_str(), "channel_12");
}

#[test]
fn join_keeps_the_head() {
    let head = CompactString::from("ABC123");
    assert_eq!(join(&head, "_battery").as_str(), "ABC123_battery");
    assert_eq!(head.as_str(), "ABC123");
}

#[test]
fn to_std_string_copies_the_characters() {
    assert_eq!(to_std_string(&CompactString::from("°F drive")), String::from("°F drive"));
}

#[test]
fn bridge_topic() {
    let w = FireboardWatcher::new(&config(false));
    assert_eq!(w.get_topic_bridge_availablility().as_str(), "fireboard2mqtt/bridge/availability");
}

#[test]
fn device_topics() {
    let w = FireboardWatcher::new(&config(false));
    let id = CompactString::from("ABC123");
    assert_eq!(w.get_device_base_topic(&id).as_str(), "fireboard2mqtt/ABC123");
    assert_eq!(w.get_topic_device_availablility(&id).as_str(), "fireboard2mqtt/ABC123/availability");
    assert_eq!(w.get_topic_device_battery(&id).as_str(), "fireboard2mqtt/ABC123/battery");
    assert_eq!(w.get_discovery_sensor_base_topic(&id).as_str(), "homeassistant/sensor/ABC123");
    assert_eq!(
        w.get_discovery_binary_sensor_base_topic(&id).as_str(),
        "homeassistant/binary_sensor/ABC123"
    );
    assert_eq!(
        w.get_topic_device_battery_discovery(&id).as_str(),
        "homeassistant/sensor/ABC123/battery/config"
    );
}

#[test]
fn channel_topics() {
    let w = FireboardWatcher::new(&config(false));
    let id = CompactString::from("ABC123");
    assert_eq!(w.get_topic_device_channel(&id, &1).as_str(), "fireboard2mqtt/ABC123/channel_1");
    assert_eq!(
        w.get_topic_device_channel_availability(&id, &6).as_str(),
        "fireboard2mqtt/ABC123/channel_6/availability"
    );
    assert_eq!(
        w.get_topic_device_channel_state(&id, &12).as_str(),
        "fireboard2mqtt/ABC123/channel_12/state"
    );
    assert_eq!(
        w.get_topic_device_channel_discovery(&id, &3).as_str(),
        "homeassistant/sensor/ABC123/channel_3/config"
    );
}

#[test]
fn drive_topics() {
    let w = FireboardWatcher::new(&config(true));
    let id = CompactString::from("ABC123");
    assert_eq!(w.get_topic_device_drive(&id).as_str(), "fireboard2mqtt/ABC123/drive");
    assert_eq!(
        w.get_topic_device_drive_availability(&id).as_str(),
        "fireboard2mqtt/ABC123/drive/availability"
    );
    assert_eq!(
        w.get_topic_device_drive_setpoint_availability(&id).as_str(),
        "fireboard2mqtt/ABC123/drive/setpoint_availability"
    );
    assert_eq!(w.get_topic_device_drive_state(&id).as_str(), "fireboard2mqtt/ABC123/drive/state");
    assert_eq!(w.get_topic_device_drive_mode(&id).as_str(), "fireboard2mqtt/ABC123/drive/mode");
    assert_eq!(
        w.get_topic_device_drive_setpoint(&id).as_str(),
        "fireboard2mqtt/ABC123/drive/setpoint"
    );
    assert_eq!(
        w.get_topic_device_drive_lidpaused(&id).as_str(),
        "fireboard2mqtt/ABC123/drive/lidpaused"
    );
    assert_eq!(
        w.get_topic_device_drive_attributes(&id).as_str(),
        "fireboard2mqtt/ABC123/drive/attributes"
    );
    assert_eq!(
        w.get_topic_device_drive_discovery(&id).as_str(),
        "homeassistant/sensor/ABC123/drive/config"
    );
    assert_eq!(
        w.get_topic_device_drivemode_discovery(&id).as_str(),
        "homeassistant/sensor/ABC123/drivemode/config"
    );
    assert_eq!(
        w.get_topic_device_drive_setpoint_discovery(&id).as_str(),
        "homeassistant/sensor/ABC123/drive_setpoint/config"
    );
    assert_eq!(
        w.get_topic_device_drive_lidpaused_discovery(&id).as_str(),
        "homeassistant/binary_sensor/ABC123/drive_lidpaused/config"
    );
}

#[test]
fn topics_are_stable_across_calls() {
    let w = FireboardWatcher::new(&config(true));
    let id = CompactString::from("ABC123");
    assert_eq!(w.get_topic_device_channel(&id, &4), w.get_topic_device_channel(&id, &4));
    assert_eq!(w.get_topic_device_drive_state(&id), w.get_topic_device_drive_state(&id));
}

#[test]
fn topics_tell_devices_and_channels_apart() {
    let w = FireboardWatcher::new(&config(true));
    let a = CompactString::from("A1");
    let b = CompactString::from("A11");
    assert_ne!(w.get_topic_device_battery(&a), w.get_topic_device_battery(&b));
    assert_ne!(w.get_topic_device_channel(&a, &1), w.get_topic_device_channel(&a, &11));
    assert_ne!(w.get_topic_device_channel(&a, &11), w.get_topic_device_channel(&b, &1));
    assert_ne!(w.get_topic_device_channel_state(&a, &2), w.get_topic_device_channel_state(&b, &2));
}

#[test]
fn last_will_announces_the_bridge_offline() {
    let w = FireboardWatcher::new(&config(false));
    let will = w.get_last_will();
    assert_eq!(will.topic, "fireboard2mqtt/bridge/availability");
    assert_eq!(will.message, "offline");
    assert_eq!(will.qos, QoS::AtLeastOnce);
    assert!(will.retain);
}

#[test]
fn init_announces_the_bridge_online() {
    let w = FireboardWatcher::new(&config(false));
    match w.init() {
        MQTTAction::Publish { topic, qos, retain, payload, props } => {
            assert_eq!(topic, "fireboard2mqtt/bridge/availability");
            assert_eq!(qos, QoS::AtLeastOnce);
            assert!(retain);
            assert!(props.is_none());
            match payload {
                Payload::Text(t) => assert_eq!(t, "online"),
                _ => panic!("the bridge availability is plain text"),
            }
        }
        _ => panic!("the bridge availability is published"),
    }
}

#[test]
fn new_watcher_counts_no_device() {
    let w = FireboardWatcher::new(&config(true));
    assert_eq!(w.online_device_count(), 0);
}

#[test]
fn qos_levels() {
    assert_eq!(QoS::AtMostOnce.level(), 0);
    assert_eq!(QoS::AtLeastOnce.level(), 1);
    assert_eq!(QoS::ExactlyOnce.level(), 2);
}
