//! The names of the topics, as functions of the two configured prefixes, the
//! hardware id of a device and the number of a channel.
use crate::text::{decimal, is_digit, lemma_decimal_digits, lemma_decimal_injective};
use vstd::prelude::*;

verus! {

/// `{base}/bridge/availability`: whether the bridge itself is up.
pub open spec fn bridge_availability(base: Seq<char>) -> Seq<char> {
    base + "/bridge/availability"@
}

/// `{discovery}/sensor/{device}`: where the sensor documents of a device lie.
pub open spec fn discovery_sensor_base(discovery: Seq<char>, device: Seq<char>) -> Seq<char> {
    discovery + "/sensor/"@ + device
}

/// `{discovery}/binary_sensor/{device}`: where the binary sensor documents of
/// a device lie.
pub open spec fn discovery_binary_sensor_base(discovery: Seq<char>, device: Seq<char>) -> Seq<
    char,
> {
    discovery + "/binary_sensor/"@ + device
}

/// `{base}/{device}`: where the state of a device lies.
pub open spec fn device_base(base: Seq<char>, device: Seq<char>) -> Seq<char> {
    base + "/"@ + device
}

/// `{base}/{device}/availability`
pub open spec fn device_availability(base: Seq<char>, device: Seq<char>) -> Seq<char> {
    device_base(base, device) + "/availability"@
}

/// `{base}/{device}/battery`
pub open spec fn device_battery(base: Seq<char>, device: Seq<char>) -> Seq<char> {
    device_base(base, device) + "/battery"@
}

/// `{discovery}/sensor/{device}/battery/config`
pub open spec fn device_battery_discovery(discovery: Seq<char>, device: Seq<char>) -> Seq<char> {
    discovery_sensor_base(discovery, device) + "/battery/config"@
}

/// `{base}/{device}/channel_{channel}`
pub open spec fn device_channel(base: Seq<char>, device: Seq<char>, channel: nat) -> Seq<char> {
    device_base(base, device) + "/channel_"@ + decimal(channel)
}

/// `{base}/{device}/channel_{channel}/availability`
pub open spec fn device_channel_availability(
    base: Seq<char>,
    device: Seq<char>,
    channel: nat,
) -> Seq<char> {
    device_base(base, device) + "/channel_"@ + decimal(channel) + "/availability"@
}

/// `{base}/{device}/channel_{channel}/state`
pub open spec fn device_channel_state(base: Seq<char>, device: Seq<char>, channel: nat) -> Seq<
    char,
> {
    device_channel(base, device, channel) + "/state"@
}

/// `{discovery}/sensor/{device}/channel_{channel}/config`
pub open spec fn device_channel_discovery(
    discovery: Seq<char>,
    device: Seq<char>,
    channel: nat,
) -> Seq<char> {
    discovery_sensor_base(discovery, device) + "/channel_"@ + decimal(channel) + "/config"@
}

/// `{discovery}/sensor/{device}/drive/config`
pub open spec fn device_drive_discovery(discovery: Seq<char>, device: Seq<char>) -> Seq<char> {
    discovery_sensor_base(discovery, device) + "/drive/config"@
}

/// `{discovery}/sensor/{device}/drivemode/config`
pub open spec fn device_drivemode_discovery(discovery: Seq<char>, device: Seq<char>) -> Seq<char> {
    discovery_sensor_base(discovery, device) + "/drivemode/config"@
}

/// `{discovery}/sensor/{device}/drive_setpoint/config`
pub open spec fn device_drive_setpoint_discovery(discovery: Seq<char>, device: Seq<char>) -> Seq<
    char,
> {
    discovery_sensor_base(discovery, device) + "/drive_setpoint/config"@
}

/// `{discovery}/binary_sensor/{device}/drive_lidpaused/config`
pub open spec fn device_drive_lidpaused_discovery(discovery: Seq<char>, device: Seq<char>) -> Seq<
    char,
> {
    discovery_binary_sensor_base(discovery, device) + "/drive_lidpaused/config"@
}

/// `{base}/{device}/drive`
pub open spec fn device_drive(base: Seq<char>, device: Seq<char>) -> Seq<char> {
    device_base(base, device) + "/drive"@
}

/// `{base}/{device}/drive/availability`
pub open spec fn device_drive_availability(base: Seq<char>, device: Seq<char>) -> Seq<char> {
    device_drive(base, device) + "/availability"@
}

/// `{base}/{device}/drive/setpoint_availability`
pub open spec fn device_drive_setpoint_availability(base: Seq<char>, device: Seq<char>) -> Seq<
    char,
> {
    device_drive(base, device) + "/setpoint_availability"@
}

/// `{base}/{device}/drive/state`
pub open spec fn device_drive_state(base: Seq<char>, device: Seq<char>) -> Seq<char> {
    device_drive(base, device) + "/state"@
}

/// `{base}/{device}/drive/mode`
pub open spec fn device_drive_mode(base: Seq<char>, device: Seq<char>) -> Seq<char> {
    device_drive(base, device) + "/mode"@
}

/// `{base}/{device}/drive/setpoint`
pub open spec fn device_drive_setpoint(base: Seq<char>, device: Seq<char>) -> Seq<char> {
    device_drive(base, device) + "/setpoint"@
}

/// `{base}/{device}/drive/lidpaused`
pub open spec fn device_drive_lidpaused(base: Seq<char>, device: Seq<char>) -> Seq<char> {
    device_drive(base, device) + "/lidpaused"@
}

/// `{base}/{device}/drive/attributes`
pub open spec fn device_drive_attributes(base: Seq<char>, device: Seq<char>) -> Seq<char> {
    device_drive(base, device) + "/attributes"@
}

/// The topics that are named after a device, or after a device and one of its
/// channels.
pub enum TopicKind {
    DiscoverySensorBase,
    DiscoveryBinarySensorBase,
    DeviceBase,
    DeviceAvailability,
    DeviceBattery,
    DeviceBatteryDiscovery,
    Channel,
    ChannelAvailability,
    ChannelState,
    ChannelDiscovery,
    DriveDiscovery,
    DrivemodeDiscovery,
    DriveSetpointDiscovery,
    DriveLidpausedDiscovery,
    Drive,
    DriveAvailability,
    DriveSetpointAvailability,
    DriveState,
    DriveMode,
    DriveSetpoint,
    DriveLidpaused,
    DriveAttributes,
}

impl TopicKind {
    /// Whether the topic is named after a channel too.
    pub open spec fn per_channel(self) -> bool {
        self is Channel || self is ChannelAvailability || self is ChannelState
            || self is ChannelDiscovery
    }
}

/// The topic of the given kind for a device and, where the kind has one, a
/// channel.
pub open spec fn topic(
    kind: TopicKind,
    base: Seq<char>,
    discovery: Seq<char>,
    device: Seq<char>,
    channel: nat,
) -> Seq<char> {
    match kind {
        TopicKind::DiscoverySensorBase => discovery_sensor_base(discovery, device),
        TopicKind::DiscoveryBinarySensorBase => discovery_binary_sensor_base(discovery, device),
        TopicKind::DeviceBase => device_base(base, device),
        TopicKind::DeviceAvailability => device_availability(base, device),
        TopicKind::DeviceBattery => device_battery(base, device),
        TopicKind::DeviceBatteryDiscovery => device_battery_discovery(discovery, device),
        TopicKind::Channel => device_channel(base, device, channel),
        TopicKind::ChannelAvailability => device_channel_availability(base, device, channel),
        TopicKind::ChannelState => device_channel_state(base, device, channel),
        TopicKind::ChannelDiscovery => device_channel_discovery(discovery, device, channel),
        TopicKind::DriveDiscovery => device_drive_discovery(discovery, device),
        TopicKind::DrivemodeDiscovery => device_drivemode_discovery(discovery, device),
        TopicKind::DriveSetpointDiscovery => device_drive_setpoint_discovery(discovery, device),
        TopicKind::DriveLidpausedDiscovery => device_drive_lidpaused_discovery(discovery, device),
        TopicKind::Drive => device_drive(base, device),
        TopicKind::DriveAvailability => device_drive_availability(base, device),
        TopicKind::DriveSetpointAvailability => device_drive_setpoint_availability(base, device),
        TopicKind::DriveState => device_drive_state(base, device),
        TopicKind::DriveMode => device_drive_mode(base, device),
        TopicKind::DriveSetpoint => device_drive_setpoint(base, device),
        TopicKind::DriveLidpaused => device_drive_lidpaused(base, device),
        TopicKind::DriveAttributes => device_drive_attributes(base, device),
    }
}

/// What stands before the device in a topic of the given kind.
pub open spec fn topic_head(kind: TopicKind, base: Seq<char>, discovery: Seq<char>) -> Seq<char> {
    match kind {
        TopicKind::DiscoverySensorBase
        | TopicKind::DeviceBatteryDiscovery
        | TopicKind::ChannelDiscovery
        | TopicKind::DriveDiscovery
        | TopicKind::DrivemodeDiscovery
        | TopicKind::DriveSetpointDiscovery => discovery + "/sensor/"@,
        TopicKind::DiscoveryBinarySensorBase
        | TopicKind::DriveLidpausedDiscovery => discovery + "/binary_sensor/"@,
        _ => base + "/"@,
    }
}

/// What stands behind the device, or behind the channel where there is one,
/// in a topic of the given kind.
pub open spec fn topic_tail(kind: TopicKind) -> Seq<char> {
    match kind {
        TopicKind::DiscoverySensorBase
        | TopicKind::DiscoveryBinarySensorBase
        | TopicKind::DeviceBase
        | TopicKind::Channel => Seq::empty(),
        TopicKind::DeviceAvailability | TopicKind::ChannelAvailability => "/availability"@,
        TopicKind::DeviceBattery => "/battery"@,
        TopicKind::DeviceBatteryDiscovery => "/battery/config"@,
        TopicKind::ChannelState => "/state"@,
        TopicKind::ChannelDiscovery => "/config"@,
        TopicKind::DriveDiscovery => "/drive/config"@,
        TopicKind::DrivemodeDiscovery => "/drivemode/config"@,
        TopicKind::DriveSetpointDiscovery => "/drive_setpoint/config"@,
        TopicKind::DriveLidpausedDiscovery => "/drive_lidpaused/config"@,
        TopicKind::Drive => "/drive"@,
        TopicKind::DriveAvailability => "/drive"@ + "/availability"@,
        TopicKind::DriveSetpointAvailability => "/drive"@ + "/setpoint_availability"@,
        TopicKind::DriveState => "/drive"@ + "/state"@,
        TopicKind::DriveMode => "/drive"@ + "/mode"@,
        TopicKind::DriveSetpoint => "/drive"@ + "/setpoint"@,
        TopicKind::DriveLidpaused => "/drive"@ + "/lidpaused"@,
        TopicKind::DriveAttributes => "/drive"@ + "/attributes"@,
    }
}

/// Every topic is its head, the device, for a channel topic `/channel_` and
/// the number, and its tail.
pub proof fn lemma_topic_shape(
    kind: TopicKind,
    base: Seq<char>,
    discovery: Seq<char>,
    device: Seq<char>,
    channel: nat,
)
    ensures
        kind.per_channel() ==> topic(kind, base, discovery, device, channel) == topic_head(
            kind,
            base,
            discovery,
        ) + (device + "/channel_"@ + decimal(channel)) + topic_tail(kind),
        !kind.per_channel() ==> topic(kind, base, discovery, device, channel) == topic_head(
            kind,
            base,
            discovery,
        ) + device + topic_tail(kind),
{
    let t = topic(kind, base, discovery, device, channel);
    let h = topic_head(kind, base, discovery);
    let e = topic_tail(kind);
    if kind.per_channel() {
        assert(t =~= h + (device + "/channel_"@ + decimal(channel)) + e);
    } else {
        assert(t =~= h + device + e);
    }
}

/// What stands between the same head and the same tail is the same.
pub proof fn lemma_same_frame(head: Seq<char>, a: Seq<char>, b: Seq<char>, tail: Seq<char>)
    requires
        head + a + tail == head + b + tail,
    ensures
        a == b,
{
    let x = head + a + tail;
    let y = head + b + tail;
    assert(x.len() == y.len());
    assert(a.len() == b.len());
    assert forall|i: int| 0 <= i < a.len() implies a[i] == b[i] by {
        assert(x[head.len() + i] == a[i]);
        assert(y[head.len() + i] == b[i]);
    }
    assert(a =~= b);
}

/// A text that ends in a separator and a decimal number gives both back: the
/// part before the separator and the number, provided that the separator does
/// not end in a digit.
pub proof fn lemma_numbered(a: Seq<char>, b: Seq<char>, sep: Seq<char>, m: nat, n: nat)
    requires
        sep.len() > 0,
        !is_digit(sep.last()),
        a + sep + decimal(m) == b + sep + decimal(n),
    ensures
        a == b,
        m == n,
{
    let x = a + sep + decimal(m);
    let y = b + sep + decimal(n);
    let dm = decimal(m);
    let dn = decimal(n);
    lemma_decimal_digits(m);
    lemma_decimal_digits(n);
    assert(x.len() == y.len());
    if dm.len() < dn.len() {
        let i = x.len() - dm.len() - 1;
        assert(x[i] == sep.last());
        assert(y[i] == dn[i - b.len() - sep.len()]);
        assert(false);
    }
    if dn.len() < dm.len() {
        let i = y.len() - dn.len() - 1;
        assert(y[i] == sep.last());
        assert(x[i] == dm[i - a.len() - sep.len()]);
        assert(false);
    }
    assert(a.len() == b.len());
    assert forall|i: int| 0 <= i < dm.len() implies dm[i] == dn[i] by {
        assert(x[a.len() + sep.len() + i] == dm[i]);
        assert(y[b.len() + sep.len() + i] == dn[i]);
    }
    assert(dm =~= dn);
    lemma_decimal_injective(m, n);
    assert forall|i: int| 0 <= i < a.len() implies a[i] == b[i] by {
        assert(x[i] == a[i]);
        assert(y[i] == b[i]);
    }
    assert(a =~= b);
}

/// The naming is injective: a topic of one kind belongs to one device only,
/// and to one channel only where the kind is named after a channel. This holds
/// of every hardware id, whatever characters it is made of.
pub proof fn lemma_topic_injective(
    kind: TopicKind,
    base: Seq<char>,
    discovery: Seq<char>,
    device1: Seq<char>,
    channel1: nat,
    device2: Seq<char>,
    channel2: nat,
)
    requires
        topic(kind, base, discovery, device1, channel1) == topic(
            kind,
            base,
            discovery,
            device2,
            channel2,
        ),
    ensures
        device1 == device2,
        kind.per_channel() ==> channel1 == channel2,
{
    lemma_topic_shape(kind, base, discovery, device1, channel1);
    lemma_topic_shape(kind, base, discovery, device2, channel2);
    let h = topic_head(kind, base, discovery);
    let e = topic_tail(kind);
    if kind.per_channel() {
        let sep = "/channel_"@;
        lemma_same_frame(
            h,
            device1 + sep + decimal(channel1),
            device2 + sep + decimal(channel2),
            e,
        );
        reveal_strlit("/channel_");
        assert(sep.len() == 9);
        assert(sep.last() == '_');
        lemma_numbered(device1, device2, sep, channel1, channel2);
    } else {
        lemma_same_frame(h, device1, device2, e);
    }
}

/// What stands behind the device in a topic of the given kind: for a channel
/// topic `/channel_`, the number and the tail, else the tail.
pub open spec fn topic_rest(kind: TopicKind, channel: nat) -> Seq<char> {
    if kind.per_channel() {
        "/channel_"@ + decimal(channel) + topic_tail(kind)
    } else {
        topic_tail(kind)
    }
}

/// Every topic is its head, the device and its rest, and the rest is empty or
/// starts with a slash.
pub proof fn lemma_topic_rest(
    kind: TopicKind,
    base: Seq<char>,
    discovery: Seq<char>,
    device: Seq<char>,
    channel: nat,
)
    ensures
        topic(kind, base, discovery, device, channel) == topic_head(kind, base, discovery) + device
            + topic_rest(kind, channel),
        topic_rest(kind, channel).len() == 0 || topic_rest(kind, channel)[0] == '/',
{
    lemma_topic_shape(kind, base, discovery, device, channel);
    let h = topic_head(kind, base, discovery);
    let r = topic_rest(kind, channel);
    assert(topic(kind, base, discovery, device, channel) =~= h + device + r);
    reveal_strlit("/channel_");
    reveal_strlit("/availability");
    reveal_strlit("/battery");
    reveal_strlit("/battery/config");
    reveal_strlit("/drive/config");
    reveal_strlit("/drivemode/config");
    reveal_strlit("/drive_setpoint/config");
    reveal_strlit("/drive_lidpaused/config");
    reveal_strlit("/drive");
    if kind.per_channel() {
        assert(r[0] == "/channel_"@[0]);
    } else if r.len() > 0 {
        match kind {
            TopicKind::DriveAvailability
            | TopicKind::DriveSetpointAvailability
            | TopicKind::DriveState
            | TopicKind::DriveMode
            | TopicKind::DriveSetpoint
            | TopicKind::DriveLidpaused
            | TopicKind::DriveAttributes => {
                assert(r[0] == "/drive"@[0]);
            },
            _ => {},
        }
    }
}

/// Whether a text holds no slash.
pub open spec fn slash_free(text: Seq<char>) -> bool {
    forall|i: int| 0 <= i < text.len() ==> text[i] != '/'
}

/// Two different texts without a slash stay different behind one head,
/// whatever follows them, provided that what follows each is empty or starts
/// with a slash.
pub proof fn lemma_devices_apart(
    head: Seq<char>,
    a: Seq<char>,
    after_a: Seq<char>,
    b: Seq<char>,
    after_b: Seq<char>,
)
    requires
        slash_free(a),
        slash_free(b),
        a != b,
        after_a.len() == 0 || after_a[0] == '/',
        after_b.len() == 0 || after_b[0] == '/',
    ensures
        head + a + after_a != head + b + after_b,
{
    let x = head + a + after_a;
    let y = head + b + after_b;
    let p = head.len() as int;
    if x == y {
        if a.len() == b.len() {
            assert forall|j: int| 0 <= j < a.len() implies a[j] == b[j] by {
                assert(x[p + j] == a[j]);
                assert(y[p + j] == b[j]);
            }
            assert(a =~= b);
        } else if a.len() < b.len() {
            assert(x.len() == y.len());
            assert(x[p + a.len()] == after_a[0]);
            assert(y[p + a.len()] == b[a.len() as int]);
        } else {
            assert(x.len() == y.len());
            assert(y[p + b.len()] == after_b[0]);
            assert(x[p + b.len()] == a[b.len() as int]);
        }
    }
}

/// Across kinds too, a topic belongs to one device only: two topics of
/// different devices differ, whatever their kinds and channels, provided that
/// neither hardware id holds a slash and that both kinds stand under one head
/// (both are state topics, or both sensor documents, or both binary sensor
/// documents). Without the first condition the availability topic of a device
/// `a/drive` is the drive availability topic of a device `a`. Without the
/// second the two prefixes decide: with the base `x/sensor/z/drive` and the
/// discovery prefix `x`, the state topic of a device `config` is the topic of
/// the drive document of a device `z`.
pub proof fn lemma_topics_of_devices_apart(
    kind1: TopicKind,
    kind2: TopicKind,
    base: Seq<char>,
    discovery: Seq<char>,
    device1: Seq<char>,
    channel1: nat,
    device2: Seq<char>,
    channel2: nat,
)
    requires
        slash_free(device1),
        slash_free(device2),
        device1 != device2,
        topic_head(kind1, base, discovery) == topic_head(kind2, base, discovery),
    ensures
        topic(kind1, base, discovery, device1, channel1) != topic(
            kind2,
            base,
            discovery,
            device2,
            channel2,
        ),
{
    lemma_topic_rest(kind1, base, discovery, device1, channel1);
    lemma_topic_rest(kind2, base, discovery, device2, channel2);
    lemma_devices_apart(
        topic_head(kind1, base, discovery),
        device1,
        topic_rest(kind1, channel1),
        device2,
        topic_rest(kind2, channel2),
    );
}

/// Whether `topic` is one of the seven topics that carry the state of the
/// drive of `device`.
pub open spec fn is_drive_state_topic(base: Seq<char>, device: Seq<char>, topic: Seq<char>) -> bool {
    ||| topic == device_drive_availability(base, device)
    ||| topic == device_drive_state(base, device)
    ||| topic == device_drive_attributes(base, device)
    ||| topic == device_drive_mode(base, device)
    ||| topic == device_drive_setpoint(base, device)
    ||| topic == device_drive_setpoint_availability(base, device)
    ||| topic == device_drive_lidpaused(base, device)
}

/// A drive state topic of a device has a `d` behind the slash that follows
/// the device, and does not end in `g`.
proof fn lemma_drive_state_topic_marks(base: Seq<char>, device: Seq<char>, topic: Seq<char>)
    requires
        is_drive_state_topic(base, device, topic),
    ensures
        topic.len() > device_base(base, device).len() + 1,
        topic[device_base(base, device).len() as int + 1] == 'd',
        topic.last() != 'g',
{
    reveal_strlit("/drive");
    reveal_strlit("/availability");
    reveal_strlit("/state");
    reveal_strlit("/attributes");
    reveal_strlit("/mode");
    reveal_strlit("/setpoint");
    reveal_strlit("/setpoint_availability");
    reveal_strlit("/lidpaused");
    let i: int = device_base(base, device).len() as int + 1;
    let d = device_drive(base, device);
    assert(d[i] == "/drive"@[1]);
    assert(topic[i] == d[i]);
}

/// A text that ends in `g` is no drive state topic.
proof fn lemma_ending_in_g(base: Seq<char>, device: Seq<char>, topic: Seq<char>)
    requires
        topic.len() > 0,
        topic.last() == 'g',
    ensures
        !is_drive_state_topic(base, device, topic),
{
    if is_drive_state_topic(base, device, topic) {
        lemma_drive_state_topic_marks(base, device, topic);
    }
}

/// No discovery topic of any device is a drive state topic of any device:
/// each ends in `config`.
proof fn lemma_discovery_topics_are_apart(
    base: Seq<char>,
    discovery: Seq<char>,
    device: Seq<char>,
    other: Seq<char>,
    channel: nat,
)
    ensures
        !is_drive_state_topic(base, device, device_battery_discovery(discovery, other)),
        !is_drive_state_topic(base, device, device_channel_discovery(discovery, other, channel)),
        !is_drive_state_topic(base, device, device_drive_discovery(discovery, other)),
        !is_drive_state_topic(base, device, device_drivemode_discovery(discovery, other)),
        !is_drive_state_topic(base, device, device_drive_setpoint_discovery(discovery, other)),
        !is_drive_state_topic(base, device, device_drive_lidpaused_discovery(discovery, other)),
{
    reveal_strlit("/config");
    reveal_strlit("/battery/config");
    reveal_strlit("/drive/config");
    reveal_strlit("/drivemode/config");
    reveal_strlit("/drive_setpoint/config");
    reveal_strlit("/drive_lidpaused/config");
    lemma_ending_in_g(base, device, device_battery_discovery(discovery, other));
    lemma_ending_in_g(base, device, device_channel_discovery(discovery, other, channel));
    lemma_ending_in_g(base, device, device_drive_discovery(discovery, other));
    lemma_ending_in_g(base, device, device_drivemode_discovery(discovery, other));
    lemma_ending_in_g(base, device, device_drive_setpoint_discovery(discovery, other));
    lemma_ending_in_g(base, device, device_drive_lidpaused_discovery(discovery, other));
}

/// A text with a letter before `d` behind the slash that follows the device
/// is no drive state topic of that device.
proof fn lemma_marked_otherwise(base: Seq<char>, device: Seq<char>, topic: Seq<char>)
    requires
        topic.len() > device_base(base, device).len() + 1,
        topic[device_base(base, device).len() as int + 1] != 'd',
    ensures
        !is_drive_state_topic(base, device, topic),
{
    if is_drive_state_topic(base, device, topic) {
        lemma_drive_state_topic_marks(base, device, topic);
    }
}

/// The availability, battery and channel topics of a device are none of the
/// drive state topics of that device.
proof fn lemma_own_state_topics_are_apart(base: Seq<char>, device: Seq<char>, channel: nat)
    ensures
        !is_drive_state_topic(base, device, device_availability(base, device)),
        !is_drive_state_topic(base, device, device_battery(base, device)),
        !is_drive_state_topic(base, device, device_channel_availability(base, device, channel)),
        !is_drive_state_topic(base, device, device_channel_state(base, device, channel)),
{
    let i: int = device_base(base, device).len() as int + 1;
    reveal_strlit("/availability");
    reveal_strlit("/battery");
    reveal_strlit("/channel_");
    let a = device_availability(base, device);
    let b = device_battery(base, device);
    let c = device_channel(base, device, channel);
    let ca = device_channel_availability(base, device, channel);
    let cs = device_channel_state(base, device, channel);
    assert(a[i] == "/availability"@[1]);
    assert(b[i] == "/battery"@[1]);
    assert(c[i] == "/channel_"@[1]);
    assert(ca[i] == c[i]);
    assert(cs[i] == c[i]);
    lemma_marked_otherwise(base, device, a);
    lemma_marked_otherwise(base, device, b);
    lemma_marked_otherwise(base, device, ca);
    lemma_marked_otherwise(base, device, cs);
}

/// A state topic of one device is no drive state topic of another, where
/// neither hardware id holds a slash.
proof fn lemma_state_topic_of_other_is_apart(
    kind: TopicKind,
    base: Seq<char>,
    discovery: Seq<char>,
    device: Seq<char>,
    other: Seq<char>,
    channel: nat,
)
    requires
        slash_free(device),
        slash_free(other),
        device != other,
        topic_head(kind, base, discovery) == base + "/"@,
    ensures
        !is_drive_state_topic(base, device, topic(kind, base, discovery, other, channel)),
{
    lemma_topics_of_devices_apart(
        kind,
        TopicKind::DriveAvailability,
        base,
        discovery,
        other,
        channel,
        device,
        0,
    );
    lemma_topics_of_devices_apart(
        kind,
        TopicKind::DriveState,
        base,
        discovery,
        other,
        channel,
        device,
        0,
    );
    lemma_topics_of_devices_apart(
        kind,
        TopicKind::DriveAttributes,
        base,
        discovery,
        other,
        channel,
        device,
        0,
    );
    lemma_topics_of_devices_apart(
        kind,
        TopicKind::DriveMode,
        base,
        discovery,
        other,
        channel,
        device,
        0,
    );
    lemma_topics_of_devices_apart(
        kind,
        TopicKind::DriveSetpoint,
        base,
        discovery,
        other,
        channel,
        device,
        0,
    );
    lemma_topics_of_devices_apart(
        kind,
        TopicKind::DriveSetpointAvailability,
        base,
        discovery,
        other,
        channel,
        device,
        0,
    );
    lemma_topics_of_devices_apart(
        kind,
        TopicKind::DriveLidpaused,
        base,
        discovery,
        other,
        channel,
        device,
        0,
    );
}

/// Whether the drive state topics of `device` can be told from what is
/// published about `other`: the two are one device, or neither hardware id
/// holds a slash.
pub open spec fn tellable(device: Seq<char>, other: Seq<char>) -> bool {
    device == other || (slash_free(device) && slash_free(other))
}

/// What is published about a device, its battery and its channels, and every
/// discovery document of it, goes under a topic that is none of the drive
/// state topics of any device: not of its own, and not of another, provided
/// that neither hardware id holds a slash.
pub proof fn lemma_drive_state_topics_of_all_are_apart(
    base: Seq<char>,
    discovery: Seq<char>,
    device: Seq<char>,
    other: Seq<char>,
    channel: nat,
)
    requires
        tellable(device, other),
    ensures
        !is_drive_state_topic(base, device, device_availability(base, other)),
        !is_drive_state_topic(base, device, device_battery(base, other)),
        !is_drive_state_topic(base, device, device_channel_availability(base, other, channel)),
        !is_drive_state_topic(base, device, device_channel_state(base, other, channel)),
        !is_drive_state_topic(base, device, device_battery_discovery(discovery, other)),
        !is_drive_state_topic(base, device, device_channel_discovery(discovery, other, channel)),
        !is_drive_state_topic(base, device, device_drive_discovery(discovery, other)),
        !is_drive_state_topic(base, device, device_drivemode_discovery(discovery, other)),
        !is_drive_state_topic(base, device, device_drive_setpoint_discovery(discovery, other)),
        !is_drive_state_topic(base, device, device_drive_lidpaused_discovery(discovery, other)),
{
    lemma_discovery_topics_are_apart(base, discovery, device, other, channel);
    if other == device {
        lemma_own_state_topics_are_apart(base, device, channel);
    } else {
        lemma_state_topic_of_other_is_apart(
            TopicKind::DeviceAvailability,
            base,
            discovery,
            device,
            other,
            channel,
        );
        lemma_state_topic_of_other_is_apart(
            TopicKind::DeviceBattery,
            base,
            discovery,
            device,
            other,
            channel,
        );
        lemma_state_topic_of_other_is_apart(
            TopicKind::ChannelAvailability,
            base,
            discovery,
            device,
            other,
            channel,
        );
        lemma_state_topic_of_other_is_apart(
            TopicKind::ChannelState,
            base,
            discovery,
            device,
            other,
            channel,
        );
    }
}

} // verus!
