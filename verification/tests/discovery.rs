use compact_str::CompactString;
use fireboard2mqtt::config::{ConfigDefaults, Fb2MqttConfig, FireboardConfigEnv};
use fireboard2mqtt::device::{
    MQTTDiscoveryAvailabilityEntry, MQTTDiscoveryBinarySensor, MQTTDiscoveryDevice,
    MQTTDiscoverySensor, UnitOfTemperatureMeasurement,
};
use fireboard2mqtt::fireboard_api::{
    DegreeType, FireboardApiDevice, FireboardDeviceChannel, FireboardDeviceLog, FireboardTemps,
};
use fireboard2mqtt::fireboard_watcher::FireboardWatcher;
use fireboard2mqtt::float32::Float32;
use fireboard2mqtt::mqtt_action::{MQTTAction, Payload, QoS};
use fireboard2mqtt::time::Timestamp;

fn setup(drive: bool) -> Fb2MqttConfig {
    Fb2MqttConfig {
        fireboardaccount_email: CompactString::from("cook@example.org"),
        fireboardaccount_password: CompactString::from("secret"),
        fireboard_enable_drive: drive,
        mqtt_host: CompactString::from("localhost"),
        mqtt_port: 1883,
        mqtt_discovery_topic: CompactString::from("ha"),
        mqtt_base_topic: CompactString::from("fb"),
        mqtt_credentials: None,
        mqtt_clientid: CompactString::from("fireboard2mqtt"),
    }
}

fn smoker(degreetype: DegreeType) -> FireboardApiDevice {
    FireboardApiDevice {
        id: 4711,
        uuid: String::from("0000-1111"),
        title: String::from("Smoker"),
        hardware_id: String::from("HW9"),
        version: String::from("2.0.1"),
        channel_count: 1,
        degreetype,
        model: String::from("FBX11"),
        channels: vec![FireboardDeviceChannel {
            channel: 3,
            channel_label: String::from("Brisket"),
            last_templog: Some(FireboardTemps { temp: Float32 { bits: 160.0f32.to_bits() } }),
        }],
        latest_temps: Vec::new(),
        device_log: FireboardDeviceLog {
            date: Timestamp { secs: 0, nanos: 0 },
            mac_nic: String::from("aa:bb:cc:dd:ee:ff"),
            onboard_temp: Float32 { bits: 0 },
            v_batt_per: Float32 { bits: 1.0f32.to_bits() },
        },
    }
}

fn text(s: &Option<CompactString>) -> Option<&str> {
    s.as_ref().map(|t| t.as_str())
}

fn chain(l: &Vec<MQTTDiscoveryAvailabilityEntry>) -> Vec<&str> {
    for e in l {
        assert_eq!(text(&e.payload_available), Some("online"));
        assert_eq!(text(&e.payload_not_available), Some("offline"));
    }
    l.iter().map(|e| e.topic.as_str()).collect()
}

fn check_parent(device: &Option<MQTTDiscoveryDevice>) {
    let d = device.as_ref().expect("every document names its device");
    assert_eq!(text(&d.configuration_url), Some("https://fireboard.io/devices/4711/edit/"));
    let connections = d.connections.as_ref().expect("the MAC address is a connection");
    assert_eq!(connections.len(), 1);
    assert_eq!(connections[0][0].as_str(), "mac");
    assert_eq!(connections[0][1].as_str(), "aa:bb:cc:dd:ee:ff");
    let ids: Vec<&str> = d.identifiers.as_ref().unwrap().iter().map(|s| s.as_str()).collect();
    assert_eq!(ids, vec!["4711", "HW9", "0000-1111"]);
    assert_eq!(text(&d.manufacturer), Some("Fireboard Labs"));
    assert_eq!(text(&d.model), Some("FBX11"));
    assert_eq!(text(&d.name), Some("Smoker"));
    assert_eq!(text(&d.serial_number), Some("HW9"));
    assert_eq!(text(&d.sw_version), Some("2.0.1"));
    assert_eq!(text(&d.hw_version), None);
}

fn sensor<'a>(actions: &'a Vec<MQTTAction>, i: usize, wanted: &str) -> &'a MQTTDiscoverySensor {
    match &actions[i] {
        MQTTAction::Publish { topic, qos, retain, payload: Payload::Sensor(s), props } => {
            assert_eq!(topic, wanted);
            assert_eq!(*qos, QoS::AtMostOnce);
            assert!(*retain);
            assert!(props.is_none());
            s
        }
        other => panic!("expected a sensor document, got {:?}", other),
    }
}

#[test]
fn discovery_without_drive_is_battery_and_channels() {
    let w = FireboardWatcher::new(&setup(false));
    let actions = w.update_discovery(&smoker(DegreeType::Celcius));
    assert_eq!(actions.len(), 2);
    let battery = sensor(&actions, 0, "ha/sensor/HW9/battery/config");
    assert_eq!(battery.unique_id.as_str(), "HW9_battery");
    assert_eq!(battery.object_id.as_str(), "HW9_battery");
    assert_eq!(text(&battery.name), Some("Battery"));
    assert_eq!(chain(&battery.availability), vec!["fb/bridge/availability", "fb/HW9/availability"]);
    assert_eq!(text(&battery.device_class), Some("battery"));
    assert_eq!(battery.qos, 0);
    assert_eq!(text(&battery.icon), None);
    assert_eq!(battery.state_topic.as_str(), "fb/HW9/battery");
    assert_eq!(text(&battery.unit_of_measurement), Some("%"));
    assert_eq!(text(&battery.state_class), Some("measurement"));
    assert_eq!(battery.encoding.as_str(), "utf-8");
    assert!(battery.enabled_by_default);
    assert_eq!(battery.expires_after, None);
    assert!(battery.options.is_none());
    check_parent(&battery.device);

    let channel = sensor(&actions, 1, "ha/sensor/HW9/channel_3/config");
    assert_eq!(channel.unique_id.as_str(), "HW9_channel_3");
    assert_eq!(channel.object_id.as_str(), "HW9_channel_3");
    assert_eq!(text(&channel.name), Some("Brisket"));
    assert_eq!(
        chain(&channel.availability),
        vec!["fb/bridge/availability", "fb/HW9/availability", "fb/HW9/channel_3/availability"]
    );
    assert_eq!(text(&channel.suggested_unit_of_measurement), Some("°F"));
    assert_eq!(text(&channel.unit_of_measurement), Some("°C"));
    assert_eq!(text(&channel.device_class), Some("temperature"));
    assert_eq!(channel.state_topic.as_str(), "fb/HW9/channel_3/state");
    assert_eq!(channel.expires_after, Some(600));
    assert_eq!(channel.qos, 0);
    check_parent(&channel.device);
}

#[test]
fn discovery_with_drive_adds_four_documents() {
    let w = FireboardWatcher::new(&setup(true));
    let actions = w.update_discovery(&smoker(DegreeType::Fahrenheit));
    assert_eq!(actions.len(), 6);
    let drive_chain =
        vec!["fb/bridge/availability", "fb/HW9/availability", "fb/HW9/drive/availability"];

    let drive = sensor(&actions, 2, "ha/sensor/HW9/drive/config");
    assert_eq!(drive.unique_id.as_str(), "HW9_drive");
    assert_eq!(text(&drive.name), Some("Drive"));
    assert_eq!(chain(&drive.availability), drive_chain);
    assert_eq!(text(&drive.device_class), None);
    assert_eq!(text(&drive.icon), Some("mdi:fan"));
    assert_eq!(drive.expires_after, Some(600));
    assert_eq!(drive.state_topic.as_str(), "fb/HW9/drive/state");
    assert_eq!(text(&drive.unit_of_measurement), Some("%"));
    assert_eq!(text(&drive.json_attributes_topic), Some("fb/HW9/drive/attributes"));
    check_parent(&drive.device);

    let mode = sensor(&actions, 3, "ha/sensor/HW9/drivemode/config");
    assert_eq!(mode.unique_id.as_str(), "HW9_drive_mode");
    assert_eq!(mode.object_id.as_str(), "HW9_drive_mode");
    assert_eq!(text(&mode.name), Some("Drive Mode"));
    assert_eq!(chain(&mode.availability), drive_chain);
    assert_eq!(text(&mode.device_class), Some("enum"));
    let options: Vec<&str> = mode.options.as_ref().unwrap().iter().map(|s| s.as_str()).collect();
    assert_eq!(options, vec!["off", "manual", "auto"]);
    assert_eq!(text(&mode.icon), Some("mdi:fan-alert"));
    assert_eq!(text(&mode.state_class), None);
    assert_eq!(mode.state_topic.as_str(), "fb/HW9/drive/mode");
    assert_eq!(text(&mode.unit_of_measurement), None);

    let setpoint = sensor(&actions, 4, "ha/sensor/HW9/drive_setpoint/config");
    assert_eq!(setpoint.unique_id.as_str(), "HW9_drive_setpoint");
    assert_eq!(text(&setpoint.name), Some("Drive Setpoint"));
    assert_eq!(
        chain(&setpoint.availability),
        vec![
            "fb/bridge/availability",
            "fb/HW9/availability",
            "fb/HW9/drive/availability",
            "fb/HW9/drive/setpoint_availability",
        ]
    );
    assert_eq!(text(&setpoint.icon), Some("mdi:thermometer-auto"));
    assert_eq!(text(&setpoint.suggested_unit_of_measurement), Some("°F"));
    assert_eq!(text(&setpoint.unit_of_measurement), Some("°F"));
    assert_eq!(text(&setpoint.device_class), Some("temperature"));
    assert_eq!(setpoint.state_topic.as_str(), "fb/HW9/drive/setpoint");
    assert_eq!(setpoint.expires_after, None);

    match &actions[5] {
        MQTTAction::Publish { topic, qos, retain, payload: Payload::BinarySensor(lid), props } => {
            assert_eq!(topic, "ha/binary_sensor/HW9/drive_lidpaused/config");
            assert_eq!(*qos, QoS::AtMostOnce);
            assert!(*retain);
            assert!(props.is_none());
            assert_eq!(lid.unique_id.as_str(), "HW9_drive_lidpaused");
            assert_eq!(lid.object_id.as_str(), "HW9_drive_lidpaused");
            assert_eq!(text(&lid.name), Some("Drive Lid Paused"));
            assert_eq!(chain(&lid.availability), drive_chain);
            assert_eq!(lid.state_topic.as_str(), "fb/HW9/drive/lidpaused");
            assert_eq!(text(&lid.payload_on), Some("on"));
            assert_eq!(text(&lid.payload_off), Some("off"));
            assert_eq!(lid.encoding.as_str(), "utf-8");
            assert!(lid.enabled_by_default);
            check_parent(&lid.device);
        }
        other => panic!("expected a binary sensor document, got {:?}", other),
    }
}

#[test]
fn discovery_is_the_same_every_time() {
    let w = FireboardWatcher::new(&setup(true));
    let first = format!("{:?}", w.update_discovery(&smoker(DegreeType::Celcius)));
    let second = format!("{:?}", w.update_discovery(&smoker(DegreeType::Celcius)));
    assert_eq!(first, second);
}

#[test]
fn discovery_of_a_device_without_channels() {
    let w = FireboardWatcher::new(&setup(false));
    let mut device = smoker(DegreeType::Celcius);
    device.channels.clear();
    let actions = w.update_discovery(&device);
    assert_eq!(actions.len(), 1);
    let _ = sensor(&actions, 0, "ha/sensor/HW9/battery/config");
}

#[test]
fn sensor_defaults() {
    let s = MQTTDiscoverySensor::default();
    assert_eq!(s.unique_id.as_str(), "");
    assert_eq!(s.object_id.as_str(), "");
    assert!(s.name.is_none());
    assert!(s.availability.is_empty());
    assert!(s.device_class.is_none());
    assert!(s.options.is_none());
    assert!(s.enabled_by_default);
    assert_eq!(s.encoding.as_str(), "utf-8");
    assert_eq!(s.suggested_display_precision, None);
    assert_eq!(s.qos, 0);
    assert_eq!(text(&s.state_class), Some("measurement"));
    assert!(s.json_attributes_topic.is_none());
    assert!(s.icon.is_none());
    assert_eq!(s.state_topic.as_str(), "");
    assert!(s.unit_of_measurement.is_none());
    assert!(s.suggested_unit_of_measurement.is_none());
    assert!(s.device.is_none());
    assert_eq!(s.expires_after, None);
}

#[test]
fn binary_sensor_defaults() {
    let s = MQTTDiscoveryBinarySensor::default();
    assert_eq!(s.unique_id.as_str(), "");
    assert!(s.availability.is_empty());
    assert!(s.enabled_by_default);
    assert_eq!(s.encoding.as_str(), "utf-8");
    assert_eq!(s.qos, 0);
    assert_eq!(s.state_topic.as_str(), "");
    assert!(s.payload_on.is_none());
    assert!(s.payload_off.is_none());
    assert!(s.device.is_none());
}

#[test]
fn device_envelope_defaults_to_nothing() {
    let d = MQTTDiscoveryDevice::default();
    assert!(d.configuration_url.is_none());
    assert!(d.connections.is_none());
    assert!(d.hw_version.is_none());
    assert!(d.identifiers.is_none());
    assert!(d.manufacturer.is_none());
    assert!(d.model.is_none());
    assert!(d.name.is_none());
    assert!(d.serial_number.is_none());
    assert!(d.sw_version.is_none());
}

#[test]
fn availability_entry_from_a_topic() {
    let e = MQTTDiscoveryAvailabilityEntry::from(CompactString::from("fb/bridge/availability"));
    assert_eq!(e.topic.as_str(), "fb/bridge/availability");
    assert_eq!(text(&e.payload_available), Some("online"));
    assert_eq!(text(&e.payload_not_available), Some("offline"));
    let e = MQTTDiscoveryAvailabilityEntry::from(String::from("fb/X/availability"));
    assert_eq!(e.topic.as_str(), "fb/X/availability");
    assert_eq!(text(&e.payload_available), Some("online"));
    assert_eq!(text(&e.payload_not_available), Some("offline"));
}

#[test]
fn unit_follows_the_degree_type() {
    assert_eq!(
        UnitOfTemperatureMeasurement::from(DegreeType::Celcius),
        UnitOfTemperatureMeasurement::Celcius
    );
    assert_eq!(
        UnitOfTemperatureMeasurement::from(DegreeType::Fahrenheit),
        UnitOfTemperatureMeasurement::Fahrenheit
    );
}

#[test]
fn config_defaults() {
    assert!(!ConfigDefaults::fireboard_enable_drive_default());
    assert_eq!(ConfigDefaults::mqtt_url_default(), "mqtt://localhost:1883");
    assert_eq!(ConfigDefaults::mqtt_discovery_topic_default(), "homeassistant");
    assert_eq!(ConfigDefaults::mqtt_base_topic_default(), "fireboard2mqtt");
    assert_eq!(ConfigDefaults::mqtt_clientid_default(), "fireboard2mqtt");
    assert_eq!(ConfigDefaults::none_default(), None);
}

#[test]
fn environment_defaults_to_nothing() {
    let env = FireboardConfigEnv::default();
    assert!(env.fireboardaccount_email.is_none());
    assert!(env.fireboardaccount_password.is_none());
    assert!(!env.fireboard_enable_drive);
    assert_eq!(env.mqtt_url, "");
    assert_eq!(env.mqtt_discovery_topic, "");
    assert_eq!(env.mqtt_base_topic, "");
    assert!(env.mqtt_username.is_none());
    assert!(env.mqtt_password.is_none());
    assert_eq!(env.mqtt_clientid, "");
}

#[test]
fn config_clone_keeps_every_field() {
    let c = setup(true).clone();
    assert_eq!(c.fireboardaccount_email.as_str(), "cook@example.org");
    assert_eq!(c.fireboardaccount_password.as_str(), "secret");
    assert!(c.fireboard_enable_drive);
    assert_eq!(c.mqtt_host.as_str(), "localhost");
    assert_eq!(c.mqtt_port, 1883);
    assert_eq!(c.mqtt_discovery_topic.as_str(), "ha");
    assert_eq!(c.mqtt_base_topic.as_str(), "fb");
    assert!(c.mqtt_credentials.is_none());
    assert_eq!(c.mqtt_clientid.as_str(), "fireboard2mqtt");
}
