//! The watcher: it names the topics, builds the discovery documents and the
//! state messages of each device, and steps through the poll cycle.
use crate::config::{ConfigView, Fb2MqttConfig};
use crate::constants::{OFF, OFFLINE, ON, ONLINE};
use crate::cycle;
use crate::cycle::{
    is_channel_online, is_device_online, next_sleep_seconds, NextAction, NextActionView,
    PollEvent, PollState, PollStateView, PollStep, StepView,
};
use crate::device::{
    availability_entry, entry_views, MQTTDiscoveryAvailabilityEntry, MQTTDiscoveryBinarySensor,
    MQTTDiscoveryDevice, MQTTDiscoverySensor,
};
use crate::discovery;
use crate::drive::DriveAttributes;
use crate::fireboard_api::{
    device_views, DriveModeType, FireboardApiDevice, FireboardDeviceChannel,
    FireboardRealtimeDrivelog,
};
use crate::mqtt_action::{
    action_views, publish_text, LastWill, LastWillView, MQTTAction, MQTTActionView, Payload, QoS,
};
use crate::text::{chars_of, decimal_string, join, list_chars, push_decimal, to_std_string};
use crate::time::Timestamp;
use crate::topics;
use crate::utils::f32_to_u8_pct;
use compact_str::CompactString;
use vstd::prelude::*;

verus! {

/// The state of the bridge between two steps.
pub struct FireboardWatcher {
    online_device_count: u8,
    cfg: Fb2MqttConfig,
    state: PollState,
}

impl FireboardWatcher {
    /// The settings that the watcher runs with.
    pub closed spec fn config(&self) -> ConfigView {
        self.cfg@
    }

    /// The prefix of the state topics.
    pub open spec fn base(&self) -> Seq<char> {
        self.config().mqtt_base_topic
    }

    /// The prefix of the discovery topics.
    pub open spec fn discovery(&self) -> Seq<char> {
        self.config().mqtt_discovery_topic
    }

    /// The number of devices that the last completed fetch found online.
    pub closed spec fn spec_online_device_count(&self) -> u8 {
        self.online_device_count
    }

    /// Where the watcher is in its cycle.
    pub closed spec fn state(&self) -> PollStateView {
        self.state@
    }

    /// What holds of a watcher between two steps: while it waits for a drive
    /// log, the device that the log is for is one of the list, and the
    /// devices counted as online so far, with those behind it that are
    /// online, fit the byte that counts them.
    pub open spec fn wf(&self) -> bool {
        self.state() matches PollStateView::Publishing { devices, next, now } ==> next
            < devices.len() && self.spec_online_device_count() + cycle::online_among(
            devices,
            next + 1,
            now,
        ) <= u8::MAX
    }

    /// A watcher with a copy of the settings `cfg`, before its first poll:
    /// idle, with no device counted as online.
    pub fn new(cfg: &Fb2MqttConfig) -> (r: FireboardWatcher)
        ensures
            r.wf(),
            r.config() == cfg@,
            r.state() == PollStateView::Idle,
            r.spec_online_device_count() == 0,
    {
        FireboardWatcher { online_device_count: 0, cfg: cfg.clone(), state: PollState::Idle }
    }

    /// The number of devices that the last completed fetch found online.
    #[verifier::when_used_as_spec(spec_online_device_count)]
    pub fn online_device_count(&self) -> (r: u8)
        ensures
            r == self.spec_online_device_count(),
    {
        self.online_device_count
    }

    /// `{base}/bridge/availability`
    pub fn get_topic_bridge_availablility(&self) -> (r: CompactString)
        ensures
            chars_of(r) == topics::bridge_availability(self.base()),
    {
        let mut t = self.cfg.mqtt_base_topic.clone();
        t.push_str("/bridge/availability");
        t
    }

    /// `{discovery}/sensor/{device}`
    pub fn get_discovery_sensor_base_topic(&self, device_identifier: &CompactString) -> (r:
        CompactString)
        ensures
            chars_of(r) == topics::discovery_sensor_base(
                self.discovery(),
                chars_of(*device_identifier),
            ),
    {
        let mut t = self.cfg.mqtt_discovery_topic.clone();
        t.push_str("/sensor/");
        t.push_str(device_identifier.as_str());
        t
    }

    /// `{discovery}/binary_sensor/{device}`
    pub fn get_discovery_binary_sensor_base_topic(&self, device_identifier: &CompactString) -> (r:
        CompactString)
        ensures
            chars_of(r) == topics::discovery_binary_sensor_base(
                self.discovery(),
                chars_of(*device_identifier),
            ),
    {
        let mut t = self.cfg.mqtt_discovery_topic.clone();
        t.push_str("/binary_sensor/");
        t.push_str(device_identifier.as_str());
        t
    }

    /// `{base}/{device}`
    pub fn get_device_base_topic(&self, device_identifier: &CompactString) -> (r: CompactString)
        ensures
            chars_of(r) == topics::device_base(self.base(), chars_of(*device_identifier)),
    {
        let mut t = self.cfg.mqtt_base_topic.clone();
        t.push_str("/");
        t.push_str(device_identifier.as_str());
        t
    }

    /// `{base}/{device}/availability`
    pub fn get_topic_device_availablility(&self, device_identifier: &CompactString) -> (r:
        CompactString)
        ensures
            chars_of(r) == topics::device_availability(self.base(), chars_of(*device_identifier)),
    {
        let mut t = self.get_device_base_topic(device_identifier);
        t.push_str("/availability");
        t
    }

    /// `{base}/{device}/battery`
    pub fn get_topic_device_battery(&self, device_identifier: &CompactString) -> (r: CompactString)
        ensures
            chars_of(r) == topics::device_battery(self.base(), chars_of(*device_identifier)),
    {
        let mut t = self.get_device_base_topic(device_identifier);
        t.push_str("/battery");
        t
    }

    /// `{discovery}/sensor/{device}/battery/config`
    pub fn get_topic_device_battery_discovery(&self, device_identifier: &CompactString) -> (r:
        CompactString)
        ensures
            chars_of(r) == topics::device_battery_discovery(
                self.discovery(),
                chars_of(*device_identifier),
            ),
    {
        let mut t = self.get_discovery_sensor_base_topic(device_identifier);
        t.push_str("/battery/config");
        t
    }

    /// `{base}/{device}/channel_{channel}`
    pub fn get_topic_device_channel(&self, device_identifier: &CompactString, channel: &usize) -> (r:
        CompactString)
        ensures
            chars_of(r) == topics::device_channel(
                self.base(),
                chars_of(*device_identifier),
                *channel as nat,
            ),
    {
        let mut t = self.get_device_base_topic(device_identifier);
        t.push_str("/channel_");
        push_decimal(&mut t, *channel as u64);
        t
    }

    /// `{base}/{device}/channel_{channel}/availability`
    pub fn get_topic_device_channel_availability(
        &self,
        device_identifier: &CompactString,
        channel: &usize,
    ) -> (r: CompactString)
        ensures
            chars_of(r) == topics::device_channel_availability(
                self.base(),
                chars_of(*device_identifier),
                *channel as nat,
            ),
    {
        let mut t = self.get_device_base_topic(device_identifier);
        t.push_str("/channel_");
        push_decimal(&mut t, *channel as u64);
        t.push_str("/availability");
        t
    }

    /// `{base}/{device}/channel_{channel}/state`
    pub fn get_topic_device_channel_state(
        &self,
        device_identifier: &CompactString,
        channel: &usize,
    ) -> (r: CompactString)
        ensures
            chars_of(r) == topics::device_channel_state(
                self.base(),
                chars_of(*device_identifier),
                *channel as nat,
            ),
    {
        let mut t = self.get_topic_device_channel(device_identifier, channel);
        t.push_str("/state");
        t
    }

    /// `{discovery}/sensor/{device}/channel_{channel}/config`
    pub fn get_topic_device_channel_discovery(
        &self,
        device_identifier: &CompactString,
        channel: &usize,
    ) -> (r: CompactString)
        ensures
            chars_of(r) == topics::device_channel_discovery(
                self.discovery(),
                chars_of(*device_identifier),
                *channel as nat,
            ),
    {
        let mut t = self.get_discovery_sensor_base_topic(device_identifier);
        t.push_str("/channel_");
        push_decimal(&mut t, *channel as u64);
        t.push_str("/config");
        t
    }

    /// `{discovery}/sensor/{device}/drive/config`
    pub fn get_topic_device_drive_discovery(&self, device_identifier: &CompactString) -> (r:
        CompactString)
        ensures
            chars_of(r) == topics::device_drive_discovery(
                self.discovery(),
                chars_of(*device_identifier),
            ),
    {
        let mut t = self.get_discovery_sensor_base_topic(device_identifier);
        t.push_str("/drive/config");
        t
    }

    /// `{discovery}/sensor/{device}/drivemode/config`
    pub fn get_topic_device_drivemode_discovery(&self, device_identifier: &CompactString) -> (r:
        CompactString)
        ensures
            chars_of(r) == topics::device_drivemode_discovery(
                self.discovery(),
                chars_of(*device_identifier),
            ),
    {
        let mut t = self.get_discovery_sensor_base_topic(device_identifier);
        t.push_str("/drivemode/config");
        t
    }

    /// `{discovery}/sensor/{device}/drive_setpoint/config`
    pub fn get_topic_device_drive_setpoint_discovery(
        &self,
        device_identifier: &CompactString,
    ) -> (r: CompactString)
        ensures
            chars_of(r) == topics::device_drive_setpoint_discovery(
                self.discovery(),
                chars_of(*device_identifier),
            ),
    {
        let mut t = self.get_discovery_sensor_base_topic(device_identifier);
        t.push_str("/drive_setpoint/config");
        t
    }

    /// `{discovery}/binary_sensor/{device}/drive_lidpaused/config`
    pub fn get_topic_device_drive_lidpaused_discovery(
        &self,
        device_identifier: &CompactString,
    ) -> (r: CompactString)
        ensures
            chars_of(r) == topics::device_drive_lidpaused_discovery(
                self.discovery(),
                chars_of(*device_identifier),
            ),
    {
        let mut t = self.get_discovery_binary_sensor_base_topic(device_identifier);
        t.push_str("/drive_lidpaused/config");
        t
    }

    /// `{base}/{device}/drive`
    pub fn get_topic_device_drive(&self, device_identifier: &CompactString) -> (r: CompactString)
        ensures
            chars_of(r) == topics::device_drive(self.base(), chars_of(*device_identifier)),
    {
        let mut t = self.get_device_base_topic(device_identifier);
        t.push_str("/drive");
        t
    }

    /// `{base}/{device}/drive/availability`
    pub fn get_topic_device_drive_availability(&self, device_identifier: &CompactString) -> (r:
        CompactString)
        ensures
            chars_of(r) == topics::device_drive_availability(
                self.base(),
                chars_of(*device_identifier),
            ),
    {
        let mut t = self.get_topic_device_drive(device_identifier);
        t.push_str("/availability");
        t
    }

    /// `{base}/{device}/drive/setpoint_availability`
    pub fn get_topic_device_drive_setpoint_availability(
        &self,
        device_identifier: &CompactString,
    ) -> (r: CompactString)
        ensures
            chars_of(r) == topics::device_drive_setpoint_availability(
                self.base(),
                chars_of(*device_identifier),
            ),
    {
        let mut t = self.get_topic_device_drive(device_identifier);
        t.push_str("/setpoint_availability");
        t
    }

    /// `{base}/{device}/drive/state`
    pub fn get_topic_device_drive_state(&self, device_identifier: &CompactString) -> (r:
        CompactString)
        ensures
            chars_of(r) == topics::device_drive_state(self.base(), chars_of(*device_identifier)),
    {
        let mut t = self.get_topic_device_drive(device_identifier);
        t.push_str("/state");
        t
    }

    /// `{base}/{device}/drive/mode`
    pub fn get_topic_device_drive_mode(&self, device_identifier: &CompactString) -> (r:
        CompactString)
        ensures
            chars_of(r) == topics::device_drive_mode(self.base(), chars_of(*device_identifier)),
    {
        let mut t = self.get_topic_device_drive(device_identifier);
        t.push_str("/mode");
        t
    }

    /// `{base}/{device}/drive/setpoint`
    pub fn get_topic_device_drive_setpoint(&self, device_identifier: &CompactString) -> (r:
        CompactString)
        ensures
            chars_of(r) == topics::device_drive_setpoint(
                self.base(),
                chars_of(*device_identifier),
            ),
    {
        let mut t = self.get_topic_device_drive(device_identifier);
        t.push_str("/setpoint");
        t
    }

    /// `{base}/{device}/drive/lidpaused`
    pub fn get_topic_device_drive_lidpaused(&self, device_identifier: &CompactString) -> (r:
        CompactString)
        ensures
            chars_of(r) == topics::device_drive_lidpaused(
                self.base(),
                chars_of(*device_identifier),
            ),
    {
        let mut t = self.get_topic_device_drive(device_identifier);
        t.push_str("/lidpaused");
        t
    }

    /// `{base}/{device}/drive/attributes`
    pub fn get_topic_device_drive_attributes(&self, device_identifier: &CompactString) -> (r:
        CompactString)
        ensures
            chars_of(r) == topics::device_drive_attributes(
                self.base(),
                chars_of(*device_identifier),
            ),
    {
        let mut t = self.get_topic_device_drive(device_identifier);
        t.push_str("/attributes");
        t
    }

    /// The last will of the bridge: `offline` on its availability topic, at
    /// least once and retained.
    pub fn get_last_will(&self) -> (r: LastWill)
        ensures
            r@ == (LastWillView {
                topic: topics::bridge_availability(self.base()),
                message: OFFLINE@,
                qos: QoS::AtLeastOnce,
                retain: true,
            }),
    {
        let topic = self.get_topic_bridge_availablility();
        LastWill {
            topic: to_std_string(&topic),
            message: String::from_str(OFFLINE),
            qos: QoS::AtLeastOnce,
            retain: true,
        }
    }

    /// What is published before the first poll: the bridge is `online`, at
    /// least once and retained.
    pub fn init(&self) -> (r: MQTTAction)
        ensures
            r@ == publish_text(
                topics::bridge_availability(self.base()),
                QoS::AtLeastOnce,
                true,
                ONLINE@,
            ),
    {
        let topic = self.get_topic_bridge_availablility();
        MQTTAction::publish(
            to_std_string(&topic),
            QoS::AtLeastOnce,
            true,
            Payload::Text(String::from_str(ONLINE)),
        )
    }

    /// The envelope that files every entity of `device` under one device.
    fn parent_device(device: &FireboardApiDevice) -> (r: MQTTDiscoveryDevice)
        ensures
            r@ == discovery::parent_device(device@),
    {
        let mut url = CompactString::from("https://fireboard.io/devices/");
        push_decimal(&mut url, device.id as u64);
        url.push_str("/edit/");
        let connection: [CompactString; 2] = [
            CompactString::from("mac"),
            CompactString::from(device.device_log.mac_nic.as_str()),
        ];
        let connections: Vec<[CompactString; 2]> = vec![connection];
        let identifiers: Vec<CompactString> = vec![
            decimal_string(device.id as u64),
            CompactString::from(device.hardware_id.as_str()),
            CompactString::from(device.uuid.as_str()),
        ];
        let r = MQTTDiscoveryDevice {
            configuration_url: Some(url),
            connections: Some(connections),
            hw_version: None,
            identifiers: Some(identifiers),
            manufacturer: Some(CompactString::from("Fireboard Labs")),
            model: Some(CompactString::from(device.model.as_str())),
            name: Some(CompactString::from(device.title.as_str())),
            serial_number: Some(CompactString::from(device.hardware_id.as_str())),
            sw_version: Some(CompactString::from(device.version.as_str())),
        };
        proof {
            let want = discovery::parent_device(device@);
            assert(list_chars(connection@) =~= seq!["mac"@, device@.device_log.mac_nic]);
            assert(r@.connections->0 =~= want.connections->0);
            assert(r@.identifiers->0 =~= want.identifiers->0);
        }
        r
    }

    /// The entries that chain an entity to the bridge and to its device.
    fn device_chain(&self, id: &CompactString) -> (r: Vec<MQTTDiscoveryAvailabilityEntry>)
        ensures
            entry_views(r@) == seq![
                availability_entry(topics::bridge_availability(self.base())),
                availability_entry(
                    topics::device_availability(self.base(), chars_of(*id)),
                ),
            ],
    {
        let r = vec![
            MQTTDiscoveryAvailabilityEntry::from(self.get_topic_bridge_availablility()),
            MQTTDiscoveryAvailabilityEntry::from(self.get_topic_device_availablility(id)),
        ];
        assert(entry_views(r@) =~= seq![r@[0]@, r@[1]@]);
        r
    }

    /// The battery sensor of `device`.
    fn battery_discovery(&self, device: &FireboardApiDevice) -> (r: MQTTDiscoverySensor)
        ensures
            r@ == discovery::battery_sensor(self.config(), device@),
    {
        let id = CompactString::from(device.hardware_id.as_str());
        MQTTDiscoverySensor {
            unique_id: join(&id, "_battery"),
            object_id: join(&id, "_battery"),
            name: Some(CompactString::from("Battery")),
            availability: self.device_chain(&id),
            device_class: Some(CompactString::from("battery")),
            state_topic: self.get_topic_device_battery(&id),
            unit_of_measurement: Some(CompactString::from("%")),
            device: Some(Self::parent_device(device)),
            ..MQTTDiscoverySensor::default()
        }
    }

    /// The entries that chain a drive entity to the bridge, to its device and
    /// to the drive.
    fn drive_chain(&self, id: &CompactString) -> (r: Vec<MQTTDiscoveryAvailabilityEntry>)
        ensures
            entry_views(r@) == seq![
                availability_entry(topics::bridge_availability(self.base())),
                availability_entry(
                    topics::device_availability(self.base(), chars_of(*id)),
                ),
                availability_entry(
                    topics::device_drive_availability(self.base(), chars_of(*id)),
                ),
            ],
    {
        let r = vec![
            MQTTDiscoveryAvailabilityEntry::from(self.get_topic_bridge_availablility()),
            MQTTDiscoveryAvailabilityEntry::from(self.get_topic_device_availablility(id)),
            MQTTDiscoveryAvailabilityEntry::from(self.get_topic_device_drive_availability(id)),
        ];
        assert(entry_views(r@) =~= seq![r@[0]@, r@[1]@, r@[2]@]);
        r
    }

    /// The sensor of one channel of `device`.
    fn channel_discovery(&self, device: &FireboardApiDevice, channel: &FireboardDeviceChannel) -> (r:
        MQTTDiscoverySensor)
        ensures
            r@ == discovery::channel_sensor(self.config(), device@, channel@),
    {
        let id = CompactString::from(device.hardware_id.as_str());
        let mut channel_id = join(&id, "_channel_");
        push_decimal(&mut channel_id, channel.channel as u64);
        let availability = vec![
            MQTTDiscoveryAvailabilityEntry::from(self.get_topic_bridge_availablility()),
            MQTTDiscoveryAvailabilityEntry::from(self.get_topic_device_availablility(&id)),
            MQTTDiscoveryAvailabilityEntry::from(
                self.get_topic_device_channel_availability(&id, &channel.channel),
            ),
        ];
        assert(entry_views(availability@) =~= seq![
            availability@[0]@,
            availability@[1]@,
            availability@[2]@,
        ]);
        let unit = device.degreetype.to_string();
        MQTTDiscoverySensor {
            unique_id: channel_id.clone(),
            object_id: channel_id,
            name: Some(CompactString::from(channel.channel_label.as_str())),
            availability,
            suggested_unit_of_measurement: Some(CompactString::from("°F")),
            device_class: Some(CompactString::from("temperature")),
            state_topic: self.get_topic_device_channel_state(&id, &channel.channel),
            unit_of_measurement: Some(CompactString::from(unit.as_str())),
            device: Some(Self::parent_device(device)),
            expires_after: Some(600),
            ..MQTTDiscoverySensor::default()
        }
    }

    /// The sensor of the drive power of `device`.
    fn drive_discovery(&self, device: &FireboardApiDevice) -> (r: MQTTDiscoverySensor)
        ensures
            r@ == discovery::drive_sensor(self.config(), device@),
    {
        let id = CompactString::from(device.hardware_id.as_str());
        MQTTDiscoverySensor {
            unique_id: join(&id, "_drive"),
            object_id: join(&id, "_drive"),
            name: Some(CompactString::from("Drive")),
            availability: self.drive_chain(&id),
            icon: Some(CompactString::from("mdi:fan")),
            expires_after: Some(600),
            state_topic: self.get_topic_device_drive_state(&id),
            unit_of_measurement: Some(CompactString::from("%")),
            device: Some(Self::parent_device(device)),
            json_attributes_topic: Some(self.get_topic_device_drive_attributes(&id)),
            ..MQTTDiscoverySensor::default()
        }
    }

    /// The sensor of the drive mode of `device`.
    fn drive_mode_discovery(&self, device: &FireboardApiDevice) -> (r: MQTTDiscoverySensor)
        ensures
            r@ == discovery::drive_mode_sensor(self.config(), device@),
    {
        let id = CompactString::from(device.hardware_id.as_str());
        let drive_id = join(&id, "_drive");
        let options: Vec<CompactString> = vec![
            CompactString::from("off"),
            CompactString::from("manual"),
            CompactString::from("auto"),
        ];
        assert(list_chars(options@) =~= seq!["off"@, "manual"@, "auto"@]);
        MQTTDiscoverySensor {
            unique_id: join(&drive_id, "_mode"),
            object_id: join(&drive_id, "_mode"),
            name: Some(CompactString::from("Drive Mode")),
            availability: self.drive_chain(&id),
            device_class: Some(CompactString::from("enum")),
            options: Some(options),
            icon: Some(CompactString::from("mdi:fan-alert")),
            state_class: None,
            state_topic: self.get_topic_device_drive_mode(&id),
            device: Some(Self::parent_device(device)),
            ..MQTTDiscoverySensor::default()
        }
    }

    /// The sensor of the drive setpoint of `device`.
    fn drive_setpoint_discovery(&self, device: &FireboardApiDevice) -> (r: MQTTDiscoverySensor)
        ensures
            r@ == discovery::drive_setpoint_sensor(self.config(), device@),
    {
        let id = CompactString::from(device.hardware_id.as_str());
        let drive_id = join(&id, "_drive");
        let mut availability = self.drive_chain(&id);
        let last = MQTTDiscoveryAvailabilityEntry::from(
            self.get_topic_device_drive_setpoint_availability(&id),
        );
        let ghost before = entry_views(availability@);
        let ghost added = last@;
        availability.push(last);
        assert(entry_views(availability@) =~= before.push(added));
        let unit = device.degreetype.to_string();
        MQTTDiscoverySensor {
            unique_id: join(&drive_id, "_setpoint"),
            object_id: join(&drive_id, "_setpoint"),
            name: Some(CompactString::from("Drive Setpoint")),
            availability,
            icon: Some(CompactString::from("mdi:thermometer-auto")),
            suggested_unit_of_measurement: Some(CompactString::from("°F")),
            device_class: Some(CompactString::from("temperature")),
            state_topic: self.get_topic_device_drive_setpoint(&id),
            unit_of_measurement: Some(CompactString::from(unit.as_str())),
            device: Some(Self::parent_device(device)),
            ..MQTTDiscoverySensor::default()
        }
    }

    /// The binary sensor of the lid pause of `device`.
    fn drive_lidpaused_discovery(&self, device: &FireboardApiDevice) -> (r:
        MQTTDiscoveryBinarySensor)
        ensures
            r@ == discovery::drive_lidpaused_sensor(self.config(), device@),
    {
        let id = CompactString::from(device.hardware_id.as_str());
        let drive_id = join(&id, "_drive");
        MQTTDiscoveryBinarySensor {
            unique_id: join(&drive_id, "_lidpaused"),
            object_id: join(&drive_id, "_lidpaused"),
            name: Some(CompactString::from("Drive Lid Paused")),
            availability: self.drive_chain(&id),
            state_topic: self.get_topic_device_drive_lidpaused(&id),
            device: Some(Self::parent_device(device)),
            payload_on: Some(CompactString::from(ON)),
            payload_off: Some(CompactString::from(OFF)),
            ..MQTTDiscoveryBinarySensor::default()
        }
    }

    /// A discovery document on its way: at most once, retained.
    fn discovery_action(topic: &CompactString, document: Payload) -> (r: MQTTAction)
        ensures
            r@ == discovery::discovery_message(chars_of(*topic), document@),
    {
        MQTTAction::publish(to_std_string(topic), QoS::AtMostOnce, true, document)
    }

    /// Everything that announces `device` to Home Assistant, in the order in
    /// which it is to be published: the battery sensor, one sensor for each
    /// channel and, where drive support is on, the four documents of the
    /// drive. Each goes out at most once and retained.
    pub fn update_discovery(&self, device: &FireboardApiDevice) -> (r: Vec<MQTTAction>)
        ensures
            action_views(r@) == discovery::discovery_messages(self.config(), device@),
    {
        let id = CompactString::from(device.hardware_id.as_str());
        let mut out: Vec<MQTTAction> = Vec::new();
        let battery = Self::discovery_action(
            &self.get_topic_device_battery_discovery(&id),
            Payload::Sensor(self.battery_discovery(device)),
        );
        let ghost first = battery@;
        out.push(battery);
        assert(action_views(out@) =~= seq![first] + discovery::channel_discovery_messages(
            self.config(),
            device@,
            0,
        ));
        let mut i: usize = 0;
        while i < device.channels.len()
            invariant
                i <= device.channels.len(),
                chars_of(id) == device@.hardware_id,
                first == discovery::battery_discovery_message(self.config(), device@),
                action_views(out@) == seq![first] + discovery::channel_discovery_messages(
                    self.config(),
                    device@,
                    i as nat,
                ),
            decreases device.channels.len() - i,
        {
            let channel = &device.channels[i];
            let action = Self::discovery_action(
                &self.get_topic_device_channel_discovery(&id, &channel.channel),
                Payload::Sensor(self.channel_discovery(device, channel)),
            );
            let ghost before = action_views(out@);
            let ghost added = action@;
            out.push(action);
            proof {
                assert(device@.channels[i as int] == channel@);
                assert(action_views(out@) =~= before.push(added));
                assert(before.push(added) =~= seq![first]
                    + discovery::channel_discovery_messages(
                    self.config(),
                    device@,
                    (i + 1) as nat,
                ));
            }
            i = i + 1;
        }
        assert(device@.channels.len() == device.channels.len());
        if self.cfg.fireboard_enable_drive {
            let ghost before = action_views(out@);
            let a = Self::discovery_action(
                &self.get_topic_device_drive_discovery(&id),
                Payload::Sensor(self.drive_discovery(device)),
            );
            let b = Self::discovery_action(
                &self.get_topic_device_drivemode_discovery(&id),
                Payload::Sensor(self.drive_mode_discovery(device)),
            );
            let c = Self::discovery_action(
                &self.get_topic_device_drive_setpoint_discovery(&id),
                Payload::Sensor(self.drive_setpoint_discovery(device)),
            );
            let d = Self::discovery_action(
                &self.get_topic_device_drive_lidpaused_discovery(&id),
                Payload::BinarySensor(self.drive_lidpaused_discovery(device)),
            );
            let ghost tail = seq![a@, b@, c@, d@];
            out.push(a);
            out.push(b);
            out.push(c);
            out.push(d);
            assert(action_views(out@) =~= before + tail);
        } else {
            assert(action_views(out@) =~= action_views(out@) + Seq::empty());
        }
        out
    }

    /// A message of plain text without properties.
    fn text_action(topic: &CompactString, qos: QoS, retain: bool, text: &str) -> (r: MQTTAction)
        ensures
            r@ == publish_text(chars_of(*topic), qos, retain, text@),
    {
        MQTTAction::publish(to_std_string(topic), qos, retain, Payload::Text(String::from_str(text)))
    }

    /// The token for an availability.
    fn availability(online: bool) -> (r: &'static str)
        ensures
            r@ == cycle::availability_text(online),
    {
        if online {
            ONLINE
        } else {
            OFFLINE
        }
    }

    /// What is published for `device` before its drive is looked at, in
    /// order, and whether the device is online at `now`: its availability
    /// (at least once, retained), its discovery documents and, if it is
    /// online, its battery charge as a whole percentage (at most once,
    /// retained) and for each channel the availability (at least once,
    /// retained) and the reading, if there is one (at most once, not retained).
    pub fn device_messages(&self, device: &FireboardApiDevice, now: &Timestamp) -> (r: (
        Vec<MQTTAction>,
        bool,
    ))
        ensures
            action_views(r.0@) == cycle::device_messages(self.config(), device@, *now),
            r.1 == cycle::device_online(device@, *now),
    {
        let id = CompactString::from(device.hardware_id.as_str());
        let online = is_device_online(device, now);
        let mut out: Vec<MQTTAction> = Vec::new();
        let first = Self::text_action(
            &self.get_topic_device_availablility(&id),
            QoS::AtLeastOnce,
            true,
            Self::availability(online),
        );
        let ghost head = seq![first@];
        out.push(first);
        let mut documents = self.update_discovery(device);
        let ghost docs = action_views(documents@);
        out.append(&mut documents);
        assert(action_views(out@) =~= head + docs);
        if online {
            let percent = decimal_string(f32_to_u8_pct(device.device_log.v_batt_per) as u64);
            let battery = Self::text_action(
                &self.get_topic_device_battery(&id),
                QoS::AtMostOnce,
                true,
                percent.as_str(),
            );
            let ghost fixed = head + docs + seq![battery@];
            out.push(battery);
            assert(action_views(out@) =~= fixed + cycle::channels_messages(
                self.config(),
                device@,
                0,
            ));
            let mut i: usize = 0;
            while i < device.channels.len()
                invariant
                    i <= device.channels.len(),
                    chars_of(id) == device@.hardware_id,
                    action_views(out@) == fixed + cycle::channels_messages(
                        self.config(),
                        device@,
                        i as nat,
                    ),
                decreases device.channels.len() - i,
            {
                let channel = &device.channels[i];
                let ghost before = action_views(out@);
                let up = Self::text_action(
                    &self.get_topic_device_channel_availability(&id, &channel.channel),
                    QoS::AtLeastOnce,
                    true,
                    Self::availability(is_channel_online(channel)),
                );
                let ghost up_view = up@;
                out.push(up);
                match &channel.last_templog {
                    Some(reading) => {
                        let state = MQTTAction::publish(
                            to_std_string(
                                &self.get_topic_device_channel_state(&id, &channel.channel),
                            ),
                            QoS::AtMostOnce,
                            false,
                            Payload::Number(reading.temp),
                        );
                        let ghost state_view = state@;
                        out.push(state);
                        assert(action_views(out@) =~= before + seq![up_view, state_view]);
                    },
                    None => {
                        assert(action_views(out@) =~= before + seq![up_view]);
                    },
                }
                proof {
                    assert(device@.channels[i as int] == channel@);
                    assert(action_views(out@) == before + cycle::channel_messages(
                        self.config(),
                        device@,
                        channel@,
                    ));
                    assert(before + cycle::channel_messages(self.config(), device@, channel@)
                        =~= fixed + cycle::channels_messages(
                        self.config(),
                        device@,
                        (i + 1) as nat,
                    ));
                }
                i = i + 1;
            }
            assert(device@.channels.len() == device.channels.len());
            assert(action_views(out@) =~= cycle::device_messages(self.config(), device@, *now));
        } else {
            assert(action_views(out@) =~= cycle::device_messages(self.config(), device@, *now));
        }
        (out, online)
    }

    /// That the drive of `device` is not available: at most once; `retain`
    /// tells whether the broker keeps it.
    fn drive_offline_action(&self, device: &FireboardApiDevice, retain: bool) -> (r: MQTTAction)
        ensures
            r@ == cycle::drive_offline_message(self.config(), device@, retain),
    {
        let id = CompactString::from(device.hardware_id.as_str());
        Self::text_action(
            &self.get_topic_device_drive_availability(&id),
            QoS::AtMostOnce,
            retain,
            OFFLINE,
        )
    }

    /// What is published for the answer of the cloud about the drive of
    /// `device`, each message at most once and not retained. Without a log:
    /// the drive is offline. With one: the drive is online; its power as a
    /// whole percentage; its attributes; its mode, which is worked out from
    /// the setpoint and the power of this log; its setpoint, which is given
    /// and available in mode `auto`, empty and unavailable otherwise; and
    /// `on` or `off` for the lid pause.
    pub fn drive_messages(
        &self,
        device: &FireboardApiDevice,
        log: &Option<FireboardRealtimeDrivelog>,
    ) -> (r: Vec<MQTTAction>)
        ensures
            action_views(r@) == cycle::drive_fetched_messages(self.config(), device@, *log),
    {
        let id = CompactString::from(device.hardware_id.as_str());
        match log {
            None => {
                let r = vec![self.drive_offline_action(device, false)];
                assert(action_views(r@) =~= seq![r@[0]@]);
                r
            },
            Some(drivelog) => {
                let mode = DriveModeType::derive(drivelog.setpoint, drivelog.driveper);
                let auto = mode == DriveModeType::Auto;
                let percent = decimal_string(f32_to_u8_pct(drivelog.driveper) as u64);
                let attributes = DriveAttributes {
                    modetype: mode.to_string(),
                    setpoint: drivelog.setpoint,
                    tiedchannel: drivelog.tiedchannel,
                    lid_paused: drivelog.lidpaused,
                };
                let setpoint = if auto {
                    Payload::Number(drivelog.setpoint)
                } else {
                    proof {
                        reveal_strlit("");
                        assert(""@ =~= Seq::<char>::empty());
                    }
                    Payload::Text(String::from_str(""))
                };
                let mode_text = mode.to_string();
                let r = vec![
                    Self::text_action(
                        &self.get_topic_device_drive_availability(&id),
                        QoS::AtMostOnce,
                        false,
                        ONLINE,
                    ),
                    Self::text_action(
                        &self.get_topic_device_drive_state(&id),
                        QoS::AtMostOnce,
                        false,
                        percent.as_str(),
                    ),
                    MQTTAction::publish(
                        to_std_string(&self.get_topic_device_drive_attributes(&id)),
                        QoS::AtMostOnce,
                        false,
                        Payload::Attributes(attributes),
                    ),
                    Self::text_action(
                        &self.get_topic_device_drive_mode(&id),
                        QoS::AtMostOnce,
                        false,
                        mode_text.as_str(),
                    ),
                    MQTTAction::publish(
                        to_std_string(&self.get_topic_device_drive_setpoint(&id)),
                        QoS::AtMostOnce,
                        false,
                        setpoint,
                    ),
                    Self::text_action(
                        &self.get_topic_device_drive_setpoint_availability(&id),
                        QoS::AtMostOnce,
                        false,
                        Self::availability(auto),
                    ),
                    Self::text_action(
                        &self.get_topic_device_drive_lidpaused(&id),
                        QoS::AtMostOnce,
                        false,
                        if drivelog.lidpaused {
                            ON
                        } else {
                            OFF
                        },
                    ),
                ];
                assert(action_views(r@) =~= seq![
                    r@[0]@,
                    r@[1]@,
                    r@[2]@,
                    r@[3]@,
                    r@[4]@,
                    r@[5]@,
                    r@[6]@,
                ]);
                r
            },
        }
    }

    /// Publishes the devices from `from` on, until a drive log has to be
    /// asked for or the list is through.
    fn run(&mut self, devices: Vec<FireboardApiDevice>, from: usize, now: Timestamp) -> (r:
        PollStep)
        requires
            from <= devices@.len(),
            old(self).spec_online_device_count() + cycle::online_among(
                device_views(devices@),
                from as nat,
                now,
            ) <= u8::MAX,
        ensures
            final(self).wf(),
            final(self).config() == old(self).config(),
            (StepView {
                state: final(self).state(),
                online: final(self).spec_online_device_count() as nat,
                publish: action_views(r.publish@),
                after: r.after@,
            }) == cycle::run_devices(
                old(self).config(),
                device_views(devices@),
                from as nat,
                now,
                old(self).spec_online_device_count() as nat,
            ),
    {
        let ghost cfg = self.config();
        let ghost views = device_views(devices@);
        let ghost target = cycle::run_devices(
            cfg,
            views,
            from as nat,
            now,
            self.online_device_count as nat,
        );
        let mut out: Vec<MQTTAction> = Vec::new();
        let mut i: usize = from;
        assert(action_views(out@) + target.publish =~= target.publish);
        while i < devices.len()
            invariant
                from <= i <= devices@.len(),
                self.config() == cfg,
                cfg == old(self).config(),
                views == device_views(devices@),
                target == cycle::run_devices(
                    cfg,
                    views,
                    from as nat,
                    now,
                    old(self).spec_online_device_count() as nat,
                ),
                self.online_device_count + cycle::online_among(views, i as nat, now) <= u8::MAX,
                ({
                    let rest = cycle::run_devices(
                        cfg,
                        views,
                        i as nat,
                        now,
                        self.online_device_count as nat,
                    );
                    target == (StepView {
                        publish: action_views(out@) + rest.publish,
                        ..rest
                    })
                }),
            decreases devices.len() - i,
        {
            let ghost before = action_views(out@);
            let ghost count = self.online_device_count as nat;
            let (mut messages, online) = self.device_messages(&devices[i], &now);
            assert(views[i as int] == devices@[i as int]@);
            if online {
                self.online_device_count = self.online_device_count + 1;
            }
            if self.cfg.fireboard_enable_drive {
                let uuid = devices[i].uuid.clone();
                let ghost added = action_views(messages@);
                out.append(&mut messages);
                assert(action_views(out@) =~= before + added);
                self.state = PollState::Publishing { devices, next: i, now };
                return PollStep { publish: out, after: NextAction::FetchDriveLog { uuid } };
            }
            let off = self.drive_offline_action(&devices[i], true);
            let ghost added = action_views(messages@).push(off@);
            messages.push(off);
            assert(action_views(messages@) =~= added);
            out.append(&mut messages);
            proof {
                assert(action_views(out@) =~= before + added);
                let rest = cycle::run_devices(
                    cfg,
                    views,
                    (i + 1) as nat,
                    now,
                    self.online_device_count as nat,
                );
                assert(before + (added + rest.publish) =~= (before + added) + rest.publish);
            }
            i = i + 1;
        }
        self.state = PollState::Sleeping;
        let seconds = next_sleep_seconds(self.online_device_count, self.cfg.fireboard_enable_drive);
        assert(action_views(out@) + Seq::empty() =~= action_views(out@));
        PollStep { publish: out, after: NextAction::Sleep { seconds } }
    }

    /// A step that publishes nothing and asks for nothing.
    fn idle_step() -> (r: PollStep)
        ensures
            action_views(r.publish@) == Seq::<MQTTActionView>::empty(),
            r.after@ == NextActionView::Wait,
    {
        let publish: Vec<MQTTAction> = Vec::new();
        assert(action_views(publish@) =~= Seq::empty());
        PollStep { publish, after: NextAction::Wait }
    }

    /// One step of the poll cycle: takes what has happened, and says what to
    /// publish, in order, and what to do then.
    ///
    /// Idle or sleeping, the watcher wakes and asks for the devices. Once it
    /// has them it counts the online devices anew and publishes each device:
    /// availability, discovery documents and, for an online device, battery
    /// and channels. Where drive support is on, it then asks for the drive
    /// log of that device, publishes the drive on the answer, or nothing if
    /// the answer failed, and goes on with the next device. Where it is off,
    /// it announces the drive as offline, retained. Behind the last device it
    /// asks for a sleep of a minute if no device is online, else of twenty
    /// seconds, or forty with drive support. A failed fetch of the devices
    /// publishes nothing, leaves the count as it was and leads to the same
    /// sleep as that count gives. An event that the state does not wait for
    /// changes nothing.
    ///
    /// The online devices are counted in a byte: a list of any length is
    /// taken, as long as no more than 255 of its devices are online at the
    /// time of the fetch, which [`cycle::count_online`] tells.
    pub fn update(&mut self, event: PollEvent) -> (r: PollStep)
        requires
            old(self).wf(),
            event matches PollEvent::DevicesFetched { devices, now } ==> (old(self).state()
                is Fetching ==> cycle::online_among(device_views(devices@), 0, now) <= u8::MAX),
        ensures
            final(self).wf(),
            final(self).config() == old(self).config(),
            (StepView {
                state: final(self).state(),
                online: final(self).spec_online_device_count() as nat,
                publish: action_views(r.publish@),
                after: r.after@,
            }) == cycle::step(
                old(self).config(),
                old(self).state(),
                old(self).spec_online_device_count() as nat,
                event@,
            ),
    {
        let mut state = PollState::Idle;
        core::mem::swap(&mut self.state, &mut state);
        match state {
            PollState::Idle => match event {
                PollEvent::Wake => {
                    self.state = PollState::Fetching;
                    let mut step = Self::idle_step();
                    step.after = NextAction::FetchDevices;
                    step
                },
                _ => {
                    self.state = PollState::Idle;
                    Self::idle_step()
                },
            },
            PollState::Sleeping => match event {
                PollEvent::Wake => {
                    self.state = PollState::Fetching;
                    let mut step = Self::idle_step();
                    step.after = NextAction::FetchDevices;
                    step
                },
                _ => {
                    self.state = PollState::Sleeping;
                    Self::idle_step()
                },
            },
            PollState::Fetching => match event {
                PollEvent::DevicesFetched { devices, now } => {
                    self.online_device_count = 0;
                    self.run(devices, 0, now)
                },
                PollEvent::DevicesFailed => {
                    self.state = PollState::Sleeping;
                    let mut step = Self::idle_step();
                    step.after = NextAction::Sleep {
                        seconds: next_sleep_seconds(
                            self.online_device_count,
                            self.cfg.fireboard_enable_drive,
                        ),
                    };
                    step
                },
                _ => {
                    self.state = PollState::Fetching;
                    Self::idle_step()
                },
            },
            PollState::Publishing { devices, next, now } => match event {
                PollEvent::DriveLogFetched { log } => {
                    assert(next < devices.len());
                    let mut publish = self.drive_messages(&devices[next], &log);
                    let ghost head = action_views(publish@);
                    assert(device_views(devices@)[next as int] == devices@[next as int]@);
                    let mut rest = self.run(devices, next + 1, now);
                    let ghost tail = action_views(rest.publish@);
                    publish.append(&mut rest.publish);
                    assert(action_views(publish@) =~= head + tail);
                    PollStep { publish, after: rest.after }
                },
                PollEvent::DriveLogFailed => {
                    assert(next < devices.len());
                    self.run(devices, next + 1, now)
                },
                _ => {
                    self.state = PollState::Publishing { devices, next, now };
                    Self::idle_step()
                },
            },
        }
    }
}

} // verus!
