//! The discovery documents of a device: one battery sensor, one sensor for
//! each channel and, where drive support is on, four documents for the drive.
use crate::config::ConfigView;
use crate::constants::{OFF, ON};
use crate::device::{
    availability_entry, AvailabilityEntryView, BinarySensorView, DiscoveryDeviceView, SensorView,
};
use crate::fireboard_api::{ChannelView, DeviceView};
use crate::mqtt_action::{publish, MQTTActionView, PayloadView, QoS};
use crate::text::{decimal, lemma_decimal_digits};
use crate::topics::lemma_numbered;
use crate::topics;
use vstd::prelude::*;

verus! {

/// The envelope that files every entity of `device` under one device.
pub open spec fn parent_device(device: DeviceView) -> DiscoveryDeviceView {
    DiscoveryDeviceView {
        configuration_url: Some("https://fireboard.io/devices/"@ + decimal(device.id) + "/edit/"@),
        connections: Some(seq![seq!["mac"@, device.device_log.mac_nic]]),
        hw_version: None,
        identifiers: Some(seq![decimal(device.id), device.hardware_id, device.uuid]),
        manufacturer: Some("Fireboard Labs"@),
        model: Some(device.model),
        name: Some(device.title),
        serial_number: Some(device.hardware_id),
        sw_version: Some(device.version),
    }
}

/// The battery sensor: a percentage, available while the bridge and the
/// device are.
pub open spec fn battery_sensor(cfg: ConfigView, device: DeviceView) -> SensorView {
    let id = device.hardware_id;
    SensorView {
        unique_id: id + "_battery"@,
        object_id: id + "_battery"@,
        name: Some("Battery"@),
        availability: seq![
            availability_entry(topics::bridge_availability(cfg.mqtt_base_topic)),
            availability_entry(topics::device_availability(cfg.mqtt_base_topic, id)),
        ],
        device_class: Some("battery"@),
        state_topic: topics::device_battery(cfg.mqtt_base_topic, id),
        unit_of_measurement: Some("%"@),
        device: Some(parent_device(device)),
        ..SensorView::initial()
    }
}

/// The sensor of one channel: a temperature in the unit of the device,
/// available while the bridge, the device and the channel are; a value
/// expires after ten minutes.
pub open spec fn channel_sensor(cfg: ConfigView, device: DeviceView, channel: ChannelView) -> SensorView {
    let id = device.hardware_id;
    let n = channel.channel;
    SensorView {
        unique_id: id + "_channel_"@ + decimal(n),
        object_id: id + "_channel_"@ + decimal(n),
        name: Some(channel.channel_label),
        availability: seq![
            availability_entry(topics::bridge_availability(cfg.mqtt_base_topic)),
            availability_entry(topics::device_availability(cfg.mqtt_base_topic, id)),
            availability_entry(topics::device_channel_availability(cfg.mqtt_base_topic, id, n)),
        ],
        suggested_unit_of_measurement: Some("°F"@),
        device_class: Some("temperature"@),
        state_topic: topics::device_channel_state(cfg.mqtt_base_topic, id, n),
        unit_of_measurement: Some(device.degreetype.spec_to_string()),
        device: Some(parent_device(device)),
        expires_after: Some(600u32),
        ..SensorView::initial()
    }
}

/// The availability chain of the drive documents: bridge, device, drive.
pub open spec fn drive_availability_chain(cfg: ConfigView, device: DeviceView) -> Seq<
    AvailabilityEntryView,
> {
    let id = device.hardware_id;
    seq![
        availability_entry(topics::bridge_availability(cfg.mqtt_base_topic)),
        availability_entry(topics::device_availability(cfg.mqtt_base_topic, id)),
        availability_entry(topics::device_drive_availability(cfg.mqtt_base_topic, id)),
    ]
}

/// The sensor of the drive power: a percentage, with the drive attributes
/// beside it; a value expires after ten minutes.
pub open spec fn drive_sensor(cfg: ConfigView, device: DeviceView) -> SensorView {
    let id = device.hardware_id;
    SensorView {
        unique_id: id + "_drive"@,
        object_id: id + "_drive"@,
        name: Some("Drive"@),
        availability: drive_availability_chain(cfg, device),
        icon: Some("mdi:fan"@),
        expires_after: Some(600u32),
        state_topic: topics::device_drive_state(cfg.mqtt_base_topic, id),
        unit_of_measurement: Some("%"@),
        device: Some(parent_device(device)),
        json_attributes_topic: Some(topics::device_drive_attributes(cfg.mqtt_base_topic, id)),
        ..SensorView::initial()
    }
}

/// The sensor of the drive mode: one of `off`, `manual` and `auto`.
pub open spec fn drive_mode_sensor(cfg: ConfigView, device: DeviceView) -> SensorView {
    let id = device.hardware_id;
    SensorView {
        unique_id: id + "_drive"@ + "_mode"@,
        object_id: id + "_drive"@ + "_mode"@,
        name: Some("Drive Mode"@),
        availability: drive_availability_chain(cfg, device),
        device_class: Some("enum"@),
        options: Some(seq!["off"@, "manual"@, "auto"@]),
        icon: Some("mdi:fan-alert"@),
        state_class: None,
        state_topic: topics::device_drive_mode(cfg.mqtt_base_topic, id),
        device: Some(parent_device(device)),
        ..SensorView::initial()
    }
}

/// The sensor of the drive setpoint: a temperature in the unit of the
/// device, available while the bridge, the device, the drive and the setpoint
/// are.
pub open spec fn drive_setpoint_sensor(cfg: ConfigView, device: DeviceView) -> SensorView {
    let id = device.hardware_id;
    SensorView {
        unique_id: id + "_drive"@ + "_setpoint"@,
        object_id: id + "_drive"@ + "_setpoint"@,
        name: Some("Drive Setpoint"@),
        availability: drive_availability_chain(cfg, device).push(
            availability_entry(
                topics::device_drive_setpoint_availability(cfg.mqtt_base_topic, id),
            ),
        ),
        icon: Some("mdi:thermometer-auto"@),
        suggested_unit_of_measurement: Some("°F"@),
        device_class: Some("temperature"@),
        state_topic: topics::device_drive_setpoint(cfg.mqtt_base_topic, id),
        unit_of_measurement: Some(device.degreetype.spec_to_string()),
        device: Some(parent_device(device)),
        ..SensorView::initial()
    }
}

/// The binary sensor that tells whether an open lid has paused the drive.
pub open spec fn drive_lidpaused_sensor(cfg: ConfigView, device: DeviceView) -> BinarySensorView {
    let id = device.hardware_id;
    BinarySensorView {
        unique_id: id + "_drive"@ + "_lidpaused"@,
        object_id: id + "_drive"@ + "_lidpaused"@,
        name: Some("Drive Lid Paused"@),
        availability: drive_availability_chain(cfg, device),
        state_topic: topics::device_drive_lidpaused(cfg.mqtt_base_topic, id),
        device: Some(parent_device(device)),
        payload_on: Some(ON@),
        payload_off: Some(OFF@),
        ..BinarySensorView::initial()
    }
}

/// A discovery document on its way: at most once, retained.
pub open spec fn discovery_message(topic: Seq<char>, document: PayloadView) -> MQTTActionView {
    publish(topic, QoS::AtMostOnce, true, document)
}

/// The message that carries the battery sensor of `device`.
pub open spec fn battery_discovery_message(cfg: ConfigView, device: DeviceView) -> MQTTActionView {
    discovery_message(
        topics::device_battery_discovery(cfg.mqtt_discovery_topic, device.hardware_id),
        PayloadView::Sensor(battery_sensor(cfg, device)),
    )
}

/// The message that carries the sensor of one channel of `device`.
pub open spec fn channel_discovery_message(
    cfg: ConfigView,
    device: DeviceView,
    channel: ChannelView,
) -> MQTTActionView {
    discovery_message(
        topics::device_channel_discovery(
            cfg.mqtt_discovery_topic,
            device.hardware_id,
            channel.channel,
        ),
        PayloadView::Sensor(channel_sensor(cfg, device, channel)),
    )
}

/// The messages that carry the sensors of the first `n` channels of `device`,
/// in the order of the channels.
pub open spec fn channel_discovery_messages(cfg: ConfigView, device: DeviceView, n: nat) -> Seq<
    MQTTActionView,
> {
    Seq::new(n, |i: int| channel_discovery_message(cfg, device, device.channels[i]))
}

/// The four messages that carry the documents of the drive of `device`: power,
/// mode, setpoint, lid.
pub open spec fn drive_discovery_messages(cfg: ConfigView, device: DeviceView) -> Seq<
    MQTTActionView,
> {
    let id = device.hardware_id;
    seq![
        discovery_message(
            topics::device_drive_discovery(cfg.mqtt_discovery_topic, id),
            PayloadView::Sensor(drive_sensor(cfg, device)),
        ),
        discovery_message(
            topics::device_drivemode_discovery(cfg.mqtt_discovery_topic, id),
            PayloadView::Sensor(drive_mode_sensor(cfg, device)),
        ),
        discovery_message(
            topics::device_drive_setpoint_discovery(cfg.mqtt_discovery_topic, id),
            PayloadView::Sensor(drive_setpoint_sensor(cfg, device)),
        ),
        discovery_message(
            topics::device_drive_lidpaused_discovery(cfg.mqtt_discovery_topic, id),
            PayloadView::BinarySensor(drive_lidpaused_sensor(cfg, device)),
        ),
    ]
}

/// Everything that announces `device` to Home Assistant, in the order in
/// which it is published: the battery, the channels, and the drive where
/// drive support is on. It is built anew in every cycle from the device alone.
pub open spec fn discovery_messages(cfg: ConfigView, device: DeviceView) -> Seq<MQTTActionView> {
    seq![battery_discovery_message(cfg, device)] + channel_discovery_messages(
        cfg,
        device,
        device.channels.len(),
    ) + if cfg.fireboard_enable_drive {
        drive_discovery_messages(cfg, device)
    } else {
        Seq::empty()
    }
}

/// An availability list that starts with the bridge and goes on with the
/// device: an entity under it is available only while both are.
pub open spec fn chained(list: Seq<AvailabilityEntryView>, cfg: ConfigView, device: DeviceView) -> bool {
    &&& list.len() >= 2
    &&& list[0] == availability_entry(topics::bridge_availability(cfg.mqtt_base_topic))
    &&& list[1] == availability_entry(
        topics::device_availability(cfg.mqtt_base_topic, device.hardware_id),
    )
}

/// A message that carries a discovery document of `device` as it has to: at
/// most once, retained, without properties; the document is a sensor or a
/// binary sensor of quality of service 0, chained to the bridge and to the
/// device, and filed under the device.
pub open spec fn is_document_of(message: MQTTActionView, cfg: ConfigView, device: DeviceView) -> bool {
    &&& message matches MQTTActionView::Publish { qos, retain, payload, props, .. }
    &&& qos == QoS::AtMostOnce
    &&& retain
    &&& props is None
    &&& match payload {
        PayloadView::Sensor(s) => s.qos == 0 && chained(s.availability, cfg, device) && s.device
            == Some(parent_device(device)),
        PayloadView::BinarySensor(s) => s.qos == 0 && chained(s.availability, cfg, device)
            && s.device == Some(parent_device(device)),
        _ => false,
    }
}

/// A device is announced by one document for its battery, one for each of its
/// channels and, with drive support, four for its drive; and each of them
/// goes out at most once and retained, chained to the bridge and to the
/// device.
pub proof fn lemma_discovery_documents(cfg: ConfigView, device: DeviceView)
    ensures
        discovery_messages(cfg, device).len() == 1 + device.channels.len() + if cfg.fireboard_enable_drive {
            4nat
        } else {
            0nat
        },
        forall|i: int|
            0 <= i < discovery_messages(cfg, device).len() ==> is_document_of(
                #[trigger] discovery_messages(cfg, device)[i],
                cfg,
                device,
            ),
{
    let all = discovery_messages(cfg, device);
    let n = device.channels.len();
    let channels = channel_discovery_messages(cfg, device, n);
    assert forall|i: int| 0 <= i < all.len() implies is_document_of(
        #[trigger] all[i],
        cfg,
        device,
    ) by {
        if i == 0 {
            assert(all[i] == battery_discovery_message(cfg, device));
        } else if i <= n {
            assert(all[i] == channels[i - 1]);
        } else {
            assert(all[i] == drive_discovery_messages(cfg, device)[i - 1 - n]);
        }
    }
}

/// The entities of one device have ids of their own: the ids of the battery,
/// of a channel, of the drive, of its mode, of its setpoint and of its lid
/// pause differ from one another, and two channels have one id only if they
/// have one number.
pub proof fn lemma_unique_ids(cfg: ConfigView, device: DeviceView, a: ChannelView, b: ChannelView)
    ensures
        ({
            let battery = battery_sensor(cfg, device).unique_id;
            let channel = channel_sensor(cfg, device, a).unique_id;
            let drive = drive_sensor(cfg, device).unique_id;
            let mode = drive_mode_sensor(cfg, device).unique_id;
            let setpoint = drive_setpoint_sensor(cfg, device).unique_id;
            let lid = drive_lidpaused_sensor(cfg, device).unique_id;
            &&& battery != channel && battery != drive && battery != mode && battery != setpoint
                && battery != lid
            &&& channel != drive && channel != mode && channel != setpoint && channel != lid
            &&& drive != mode && drive != setpoint && drive != lid
            &&& mode != setpoint && mode != lid
            &&& setpoint != lid
            &&& channel == channel_sensor(cfg, device, b).unique_id ==> a.channel == b.channel
        }),
{
    let id = device.hardware_id;
    let i = id.len() as int + 1;
    reveal_strlit("_battery");
    reveal_strlit("_channel_");
    reveal_strlit("_drive");
    reveal_strlit("_mode");
    reveal_strlit("_setpoint");
    reveal_strlit("_lidpaused");
    let battery = battery_sensor(cfg, device).unique_id;
    let channel = channel_sensor(cfg, device, a).unique_id;
    let drive = drive_sensor(cfg, device).unique_id;
    let mode = drive_mode_sensor(cfg, device).unique_id;
    let setpoint = drive_setpoint_sensor(cfg, device).unique_id;
    let lid = drive_lidpaused_sensor(cfg, device).unique_id;
    lemma_decimal_digits(a.channel);
    assert(battery[i] == 'b');
    assert(channel[i] == 'c');
    assert(drive[i] == 'd');
    assert(mode[i] == 'd');
    assert(setpoint[i] == 'd');
    assert(lid[i] == 'd');
    assert(drive.len() == id.len() + 6);
    assert(mode.len() == id.len() + 11);
    assert(setpoint.len() == id.len() + 15);
    assert(lid.len() == id.len() + 16);
    if channel == channel_sensor(cfg, device, b).unique_id {
        assert("_channel_"@.last() == '_');
        lemma_numbered(id, id, "_channel_"@, a.channel, b.channel);
    }
}

} // verus!
