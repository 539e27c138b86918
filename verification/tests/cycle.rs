use compact_str::CompactString;
use fireboard2mqtt::config::Fb2MqttConfig;
use fireboard2mqtt::cycle::{
    count_online, is_channel_online, is_device_online, next_sleep_seconds, NextAction, PollEvent,
    PollStep,
};
use fireboard2mqtt::fireboard_api::{
    DegreeType, DriveModeType, FireboardApiDevice, FireboardDeviceChannel, FireboardDeviceLog,
    FireboardRealtimeDrivelog, FireboardTemps,
};
use fireboard2mqtt::fireboard_watcher::FireboardWatcher;
use fireboard2mqtt::float32::Float32;
use fireboard2mqtt::mqtt_action::{MQTTAction, Payload, QoS};
use fireboard2mqtt::time::Timestamp;

fn settings(drive: bool) -> Fb2MqttConfig {
    Fb2MqttConfig {
        fireboardaccount_email: CompactString::from("cook@example.org"),
        fireboardaccount_password: CompactString::from("secret"),
        fireboard_enable_drive: drive,
        mqtt_host: CompactString::from("localhost"),
        mqtt_port: 1883,
        mqtt_discovery_topic: CompactString::from("ha"),
        mqtt_base_topic: CompactString::from("fb"),
        mqtt_credentials: None,
        mqtt_clientid: CompactString::from("fireboard2mqtt"),
    }
}

fn float(x: f32) -> Float32 {
    Float32 { bits: x.to_bits() }
}

fn at(secs: i64) -> Timestamp {
    Timestamp { secs, nanos: 0 }
}

fn grill(id: &str, temps: usize, log_at: i64) -> FireboardApiDevice {
    let mut latest_temps = Vec::new();
    for _ in 0..temps {
        latest_temps.push(FireboardTemps { temp: float(71.5) });
    }
    FireboardApiDevice {
        id: 42,
        uuid: format!("uuid-{}", id),
        title: format!("Grill {}", id),
        hardware_id: String::from(id),
        version: String::from("1.2.3"),
        channel_count: 2,
        degreetype: DegreeType::Fahrenheit,
        model: String::from("FBX2"),
        channels: vec![
            FireboardDeviceChannel {
                channel: 1,
                channel_label: String::from("Pit"),
                last_templog: Some(FireboardTemps { temp: float(225.5) }),
            },
            FireboardDeviceChannel {
                channel: 2,
                channel_label: String::from("Meat"),
                last_templog: None,
            },
        ],
        latest_temps,
        device_log: FireboardDeviceLog {
            date: at(log_at),
            mac_nic: String::from("aa:bb:cc:dd:ee:ff"),
            onboard_temp: float(30.0),
            v_batt_per: float(0.755),
        },
    }
}

fn topics_of(step: &PollStep) -> Vec<String> {
    let mut out = Vec::new();
    for a in &step.publish {
        match a {
            MQTTAction::Publish { topic, .. } => out.push(topic.clone()),
            _ => panic!("only publishes are asked for"),
        }
    }
    out
}

fn text_under<'a>(step: &'a PollStep, wanted: &str) -> Option<(&'a str, QoS, bool)> {
    for a in &step.publish {
        if let MQTTAction::Publish { topic, qos, retain, payload: Payload::Text(t), props } = a {
            if topic == wanted {
                assert!(props.is_none());
                return Some((t.as_str(), *qos, *retain));
            }
        }
    }
    None
}

fn sleep_of(step: &PollStep) -> u64 {
    match &step.after {
        NextAction::Sleep { seconds } => *seconds,
        other => panic!("expected a sleep, got {:?}", other),
    }
}

fn fetching(drive: bool) -> FireboardWatcher {
    let mut w = FireboardWatcher::new(&settings(drive));
    let step = w.update(PollEvent::Wake);
    assert!(step.publish.is_empty());
    assert!(matches!(step.after, NextAction::FetchDevices));
    w
}

#[test]
fn device_with_a_reading_is_online() {
    assert!(is_device_online(&grill("A", 1, 0), &at(1_000_000)));
}

#[test]
fn device_with_a_fresh_log_is_online() {
    assert!(is_device_online(&grill("A", 0, 1000), &at(1000 + 299)));
    assert!(is_device_online(&grill("A", 0, 1000), &at(1000)));
}

#[test]
fn device_with_a_log_from_after_now_is_online() {
    assert!(is_device_online(&grill("A", 0, 5000), &at(1000)));
}

#[test]
fn device_with_a_stale_log_is_offline() {
    assert!(!is_device_online(&grill("A", 0, 1000), &at(1000 + 300)));
    assert!(!is_device_online(&grill("A", 0, 1000), &at(1000 + 86400)));
}

#[test]
fn freshness_is_decided_to_the_nanosecond() {
    let device = grill("A", 0, 1000);
    assert!(is_device_online(&device, &Timestamp { secs: 1299, nanos: 999_999_999 }));
    let mut later = grill("A", 0, 1000);
    later.device_log.date = Timestamp { secs: 1000, nanos: 1 };
    assert!(is_device_online(&later, &at(1300)));
}

#[test]
fn channel_is_online_with_a_reading_only() {
    let device = grill("A", 1, 0);
    assert!(is_channel_online(&device.channels[0]));
    assert!(!is_channel_online(&device.channels[1]));
}

#[test]
fn sleep_is_a_minute_with_no_device_online() {
    assert_eq!(next_sleep_seconds(0, false), 60);
    assert_eq!(next_sleep_seconds(0, true), 60);
}

#[test]
fn sleep_is_twenty_seconds_with_devices_and_no_drive() {
    assert_eq!(next_sleep_seconds(2, false), 20);
    assert_eq!(next_sleep_seconds(1, false), 20);
    assert_eq!(next_sleep_seconds(255, false), 20);
}

#[test]
fn sleep_is_forty_seconds_with_devices_and_drive() {
    assert_eq!(next_sleep_seconds(2, true), 40);
    assert_eq!(next_sleep_seconds(255, true), 40);
}

#[test]
fn cycle_with_no_device_online_sleeps_a_minute() {
    for drive in [false, true] {
        let mut w = fetching(drive);
        let step = w.update(PollEvent::DevicesFetched { devices: Vec::new(), now: at(0) });
        assert!(step.publish.is_empty());
        assert_eq!(sleep_of(&step), 60);
        assert_eq!(w.online_device_count(), 0);
    }
    let mut w = fetching(false);
    let devices = vec![grill("A", 0, 0), grill("B", 0, 0)];
    let step = w.update(PollEvent::DevicesFetched { devices, now: at(100_000) });
    assert_eq!(sleep_of(&step), 60);
    assert_eq!(w.online_device_count(), 0);
}

#[test]
fn cycle_with_two_devices_online_and_no_drive_sleeps_twenty_seconds() {
    let mut w = fetching(false);
    let devices = vec![grill("A", 1, 0), grill("B", 0, 1000), grill("C", 0, 0)];
    let step = w.update(PollEvent::DevicesFetched { devices, now: at(1010) });
    assert_eq!(sleep_of(&step), 20);
    assert_eq!(w.online_device_count(), 2);
}

#[test]
fn cycle_with_two_devices_online_and_drive_sleeps_forty_seconds() {
    let mut w = fetching(true);
    let devices = vec![grill("A", 1, 0), grill("B", 1, 0)];
    let first = w.update(PollEvent::DevicesFetched { devices, now: at(0) });
    match &first.after {
        NextAction::FetchDriveLog { uuid } => assert_eq!(uuid, "uuid-A"),
        other => panic!("expected a drive fetch, got {:?}", other),
    }
    let second = w.update(PollEvent::DriveLogFetched { log: None });
    match &second.after {
        NextAction::FetchDriveLog { uuid } => assert_eq!(uuid, "uuid-B"),
        other => panic!("expected a drive fetch, got {:?}", other),
    }
    let last = w.update(PollEvent::DriveLogFetched { log: None });
    assert_eq!(sleep_of(&last), 40);
    assert_eq!(w.online_device_count(), 2);
}

#[test]
fn failed_fetch_publishes_nothing_and_keeps_the_count() {
    let mut w = fetching(false);
    let devices = vec![grill("A", 1, 0), grill("B", 1, 0)];
    let step = w.update(PollEvent::DevicesFetched { devices, now: at(0) });
    assert_eq!(sleep_of(&step), 20);
    let wake = w.update(PollEvent::Wake);
    assert!(matches!(wake.after, NextAction::FetchDevices));
    let failed = w.update(PollEvent::DevicesFailed);
    assert!(failed.publish.is_empty());
    assert_eq!(sleep_of(&failed), 20);
    assert_eq!(w.online_device_count(), 2);
    let again = w.update(PollEvent::Wake);
    assert!(again.publish.is_empty());
    assert!(matches!(again.after, NextAction::FetchDevices));
}

#[test]
fn failed_first_fetch_sleeps_a_minute() {
    let mut w = fetching(true);
    let failed = w.update(PollEvent::DevicesFailed);
    assert!(failed.publish.is_empty());
    assert_eq!(sleep_of(&failed), 60);
    assert_eq!(w.online_device_count(), 0);
}

#[test]
fn failed_drive_fetch_skips_the_drive_of_that_device_only() {
    let mut w = fetching(true);
    let devices = vec![grill("A", 1, 0), grill("B", 1, 0)];
    let first = w.update(PollEvent::DevicesFetched { devices, now: at(0) });
    assert_eq!(text_under(&first, "fb/A/battery"), Some(("76", QoS::AtMostOnce, true)));
    assert_eq!(
        text_under(&first, "fb/A/channel_1/availability"),
        Some(("online", QoS::AtLeastOnce, true))
    );
    assert!(topics_of(&first).contains(&String::from("fb/A/channel_1/state")));
    let second = w.update(PollEvent::DriveLogFailed);
    for topic in topics_of(&second) {
        assert!(!topic.starts_with("fb/A/"), "{}", topic);
    }
    assert_eq!(text_under(&second, "fb/B/battery"), Some(("76", QoS::AtMostOnce, true)));
    match &second.after {
        NextAction::FetchDriveLog { uuid } => assert_eq!(uuid, "uuid-B"),
        other => panic!("expected a drive fetch, got {:?}", other),
    }
    let log = FireboardRealtimeDrivelog {
        modetype: DriveModeType::Off,
        setpoint: float(50.0),
        lidpaused: false,
        tiedchannel: 1,
        driveper: float(0.0),
    };
    let last = w.update(PollEvent::DriveLogFetched { log: Some(log) });
    assert_eq!(
        text_under(&last, "fb/B/drive/availability"),
        Some(("online", QoS::AtMostOnce, false))
    );
    assert_eq!(sleep_of(&last), 40);
    assert_eq!(w.online_device_count(), 2);
}

#[test]
fn device_messages_of_an_online_device_without_drive() {
    let mut w = fetching(false);
    let step = w.update(PollEvent::DevicesFetched { devices: vec![grill("A", 1, 0)], now: at(0) });
    assert_eq!(
        topics_of(&step),
        vec![
            "fb/A/availability",
            "ha/sensor/A/battery/config",
            "ha/sensor/A/channel_1/config",
            "ha/sensor/A/channel_2/config",
            "fb/A/battery",
            "fb/A/channel_1/availability",
            "fb/A/channel_1/state",
            "fb/A/channel_2/availability",
            "fb/A/drive/availability",
        ]
    );
    assert_eq!(text_under(&step, "fb/A/availability"), Some(("online", QoS::AtLeastOnce, true)));
    assert_eq!(text_under(&step, "fb/A/battery"), Some(("76", QoS::AtMostOnce, true)));
    assert_eq!(
        text_under(&step, "fb/A/channel_2/availability"),
        Some(("offline", QoS::AtLeastOnce, true))
    );
    assert_eq!(
        text_under(&step, "fb/A/drive/availability"),
        Some(("offline", QoS::AtMostOnce, true))
    );
    match &step.publish[6] {
        MQTTAction::Publish { qos, retain, payload: Payload::Number(n), props, .. } => {
            assert_eq!(*qos, QoS::AtMostOnce);
            assert!(!*retain);
            assert!(props.is_none());
            assert_eq!(n.bits, 225.5f32.to_bits());
        }
        other => panic!("expected a reading, got {:?}", other),
    }
}

#[test]
fn device_messages_of_an_offline_device() {
    let mut w = fetching(false);
    let step = w.update(PollEvent::DevicesFetched {
        devices: vec![grill("A", 0, 0)],
        now: at(100_000),
    });
    assert_eq!(
        topics_of(&step),
        vec![
            "fb/A/availability",
            "ha/sensor/A/battery/config",
            "ha/sensor/A/channel_1/config",
            "ha/sensor/A/channel_2/config",
            "fb/A/drive/availability",
        ]
    );
    assert_eq!(text_under(&step, "fb/A/availability"), Some(("offline", QoS::AtLeastOnce, true)));
}

#[test]
fn device_messages_agree_with_the_step() {
    let w = FireboardWatcher::new(&settings(true));
    let (messages, online) = w.device_messages(&grill("A", 1, 0), &at(0));
    assert!(online);
    assert_eq!(messages.len(), 12);
    let (messages, online) = w.device_messages(&grill("A", 0, 0), &at(301));
    assert!(!online);
    assert_eq!(messages.len(), 8);
}

#[test]
fn drive_log_in_auto_mode() {
    let w = FireboardWatcher::new(&settings(true));
    let log = FireboardRealtimeDrivelog {
        modetype: DriveModeType::Off,
        setpoint: float(225.0),
        lidpaused: true,
        tiedchannel: 2,
        driveper: float(0.755),
    };
    let step = PollStep {
        publish: w.drive_messages(&grill("A", 1, 0), &Some(log)),
        after: NextAction::Wait,
    };
    assert_eq!(
        topics_of(&step),
        vec![
            "fb/A/drive/availability",
            "fb/A/drive/state",
            "fb/A/drive/attributes",
            "fb/A/drive/mode",
            "fb/A/drive/setpoint",
            "fb/A/drive/setpoint_availability",
            "fb/A/drive/lidpaused",
        ]
    );
    assert_eq!(text_under(&step, "fb/A/drive/availability"), Some(("online", QoS::AtMostOnce, false)));
    assert_eq!(text_under(&step, "fb/A/drive/state"), Some(("76", QoS::AtMostOnce, false)));
    assert_eq!(text_under(&step, "fb/A/drive/mode"), Some(("auto", QoS::AtMostOnce, false)));
    assert_eq!(
        text_under(&step, "fb/A/drive/setpoint_availability"),
        Some(("online", QoS::AtMostOnce, false))
    );
    assert_eq!(text_under(&step, "fb/A/drive/lidpaused"), Some(("on", QoS::AtMostOnce, false)));
    match &step.publish[2] {
        MQTTAction::Publish { payload: Payload::Attributes(a), qos, retain, .. } => {
            assert_eq!(a.modetype, "auto");
            assert_eq!(a.setpoint.bits, 225.0f32.to_bits());
            assert_eq!(a.tiedchannel, 2);
            assert!(a.lid_paused);
            assert_eq!(*qos, QoS::AtMostOnce);
            assert!(!*retain);
        }
        other => panic!("expected attributes, got {:?}", other),
    }
    match &step.publish[4] {
        MQTTAction::Publish { payload: Payload::Number(n), .. } => {
            assert_eq!(n.bits, 225.0f32.to_bits())
        }
        other => panic!("expected a setpoint, got {:?}", other),
    }
}

#[test]
fn drive_log_in_manual_mode_has_an_empty_setpoint() {
    let w = FireboardWatcher::new(&settings(true));
    let log = FireboardRealtimeDrivelog {
        modetype: DriveModeType::Auto,
        setpoint: float(50.0),
        lidpaused: false,
        tiedchannel: 1,
        driveper: float(0.5),
    };
    let step = PollStep {
        publish: w.drive_messages(&grill("A", 1, 0), &Some(log)),
        after: NextAction::Wait,
    };
    assert_eq!(text_under(&step, "fb/A/drive/state"), Some(("50", QoS::AtMostOnce, false)));
    assert_eq!(text_under(&step, "fb/A/drive/mode"), Some(("manual", QoS::AtMostOnce, false)));
    assert_eq!(text_under(&step, "fb/A/drive/setpoint"), Some(("", QoS::AtMostOnce, false)));
    assert_eq!(
        text_under(&step, "fb/A/drive/setpoint_availability"),
        Some(("offline", QoS::AtMostOnce, false))
    );
    assert_eq!(text_under(&step, "fb/A/drive/lidpaused"), Some(("off", QoS::AtMostOnce, false)));
}

#[test]
fn drive_without_a_log_is_offline_and_not_retained() {
    let w = FireboardWatcher::new(&settings(true));
    let step = PollStep {
        publish: w.drive_messages(&grill("A", 1, 0), &None),
        after: NextAction::Wait,
    };
    assert_eq!(topics_of(&step), vec!["fb/A/drive/availability"]);
    assert_eq!(
        text_under(&step, "fb/A/drive/availability"),
        Some(("offline", QoS::AtMostOnce, false))
    );
}

#[test]
fn events_out_of_turn_change_nothing() {
    let mut w = FireboardWatcher::new(&settings(true));
    let step = w.update(PollEvent::DevicesFailed);
    assert!(step.publish.is_empty());
    assert!(matches!(step.after, NextAction::Wait));
    let step = w.update(PollEvent::DriveLogFailed);
    assert!(matches!(step.after, NextAction::Wait));
    let step = w.update(PollEvent::Wake);
    assert!(matches!(step.after, NextAction::FetchDevices));
    let step = w.update(PollEvent::Wake);
    assert!(step.publish.is_empty());
    assert!(matches!(step.after, NextAction::Wait));
    let step = w.update(PollEvent::DevicesFetched { devices: vec![grill("A", 1, 0)], now: at(0) });
    assert!(matches!(step.after, NextAction::FetchDriveLog { .. }));
    let step = w.update(PollEvent::Wake);
    assert!(step.publish.is_empty());
    assert!(matches!(step.after, NextAction::Wait));
    let step = w.update(PollEvent::DriveLogFetched { log: None });
    assert_eq!(sleep_of(&step), 40);
    assert_eq!(w.online_device_count(), 1);
}

#[test]
fn count_starts_anew_with_every_fetch() {
    let mut w = fetching(false);
    let step = w.update(PollEvent::DevicesFetched {
        devices: vec![grill("A", 1, 0), grill("B", 1, 0), grill("C", 1, 0)],
        now: at(0),
    });
    assert_eq!(sleep_of(&step), 20);
    assert_eq!(w.online_device_count(), 3);
    w.update(PollEvent::Wake);
    let step = w.update(PollEvent::DevicesFetched { devices: vec![grill("A", 0, 0)], now: at(900) });
    assert_eq!(sleep_of(&step), 60);
    assert_eq!(w.online_device_count(), 0);
}

fn long_list() -> Vec<FireboardApiDevice> {
    let mut devices = Vec::new();
    for i in 0..300 {
        let online = i == 7 || i == 290;
        devices.push(grill(&format!("D{}", i), if online { 1 } else { 0 }, 0));
    }
    devices
}

#[test]
fn count_online_counts_the_online_devices_only() {
    assert_eq!(count_online(&Vec::new(), &at(0)), 0);
    assert_eq!(count_online(&long_list(), &at(100_000)), 2);
    assert_eq!(count_online(&long_list(), &at(10)), 300);
    let devices = vec![grill("A", 1, 0), grill("B", 0, 0), grill("C", 0, 1000)];
    assert_eq!(count_online(&devices, &at(1100)), 2);
}

#[test]
fn long_list_with_two_devices_online_and_no_drive() {
    let mut w = fetching(false);
    let step = w.update(PollEvent::DevicesFetched { devices: long_list(), now: at(100_000) });
    assert_eq!(sleep_of(&step), 20);
    assert_eq!(w.online_device_count(), 2);
    assert_eq!(text_under(&step, "fb/D7/availability"), Some(("online", QoS::AtLeastOnce, true)));
    assert_eq!(text_under(&step, "fb/D8/availability"), Some(("offline", QoS::AtLeastOnce, true)));
    assert_eq!(text_under(&step, "fb/D299/availability"), Some(("offline", QoS::AtLeastOnce, true)));
    assert_eq!(text_under(&step, "fb/D8/battery"), None);
    assert_eq!(text_under(&step, "fb/D290/battery"), Some(("76", QoS::AtMostOnce, true)));
}

#[test]
fn long_list_with_two_devices_online_and_drive() {
    let mut w = fetching(true);
    let mut step = w.update(PollEvent::DevicesFetched { devices: long_list(), now: at(100_000) });
    let mut asked = 0;
    while let NextAction::FetchDriveLog { .. } = &step.after {
        asked += 1;
        step = if asked % 2 == 0 {
            w.update(PollEvent::DriveLogFailed)
        } else {
            w.update(PollEvent::DriveLogFetched { log: None })
        };
    }
    assert_eq!(asked, 300);
    assert_eq!(sleep_of(&step), 40);
    assert_eq!(w.online_device_count(), 2);
}

#[test]
fn long_list_with_no_device_online() {
    let mut w = fetching(false);
    let mut devices = long_list();
    for d in devices.iter_mut() {
        d.latest_temps.clear();
    }
    let step = w.update(PollEvent::DevicesFetched { devices, now: at(100_000) });
    assert_eq!(sleep_of(&step), 60);
    assert_eq!(w.online_device_count(), 0);
}
