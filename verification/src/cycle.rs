//! One poll cycle: what is online, what is published for a device and its
//! drive, how long the bridge sleeps, and the steps between these.
use crate::config::ConfigView;
use crate::constants::{
    BASE_INTERVAL_SECONDS, FIREBOARD_DEVICELOG_UPDATE_INTERVAL_MINUTES, IDLE_INTERVAL_SECONDS, OFF,
    OFFLINE, ON, ONLINE,
};
use crate::discovery::{
    channel_discovery_messages, discovery_messages, drive_discovery_messages, is_document_of,
    lemma_discovery_documents,
};
use crate::drive::DriveAttributesView;
use crate::fireboard_api::{
    device_views, ChannelView, DeviceView, DriveModeType, FireboardApiDevice,
    FireboardDeviceChannel, FireboardRealtimeDrivelog,
};
use crate::mqtt_action::{publish, publish_text, MQTTAction, MQTTActionView, PayloadView, QoS};
use crate::text::decimal;
use crate::time::Timestamp;
use crate::topics;
use vstd::prelude::*;

verus! {

/// A device is online when this fetch brought a temperature reading of it, or
/// when its telemetry log is less than five whole minutes older than `now`.
pub open spec fn device_online(device: DeviceView, now: Timestamp) -> bool {
    device.latest_temps.len() > 0 || now.spec_minutes_since(device.device_log.date)
        < FIREBOARD_DEVICELOG_UPDATE_INTERVAL_MINUTES
}

/// A channel is online when it has a last reading.
pub open spec fn channel_online(channel: ChannelView) -> bool {
    channel.last_templog is Some
}

/// The payload of an availability topic.
pub open spec fn availability_text(online: bool) -> Seq<char> {
    if online {
        ONLINE@
    } else {
        OFFLINE@
    }
}

/// The seconds to sleep after a cycle that left `online` devices online: a
/// minute when there is none, whatever the drive support; else twenty
/// seconds, and twice as long where the drive of each online device costs a
/// request of its own.
pub open spec fn sleep_seconds(online: nat, drive_enabled: bool) -> nat {
    if online == 0 {
        IDLE_INTERVAL_SECONDS as nat
    } else if drive_enabled {
        2 * BASE_INTERVAL_SECONDS as nat
    } else {
        BASE_INTERVAL_SECONDS as nat
    }
}

/// The availability of `device`: at least once, retained.
pub open spec fn device_availability_message(
    cfg: ConfigView,
    device: DeviceView,
    now: Timestamp,
) -> MQTTActionView {
    publish_text(
        topics::device_availability(cfg.mqtt_base_topic, device.hardware_id),
        QoS::AtLeastOnce,
        true,
        availability_text(device_online(device, now)),
    )
}

/// The battery charge of `device` as a whole percentage: at most once,
/// retained.
pub open spec fn battery_message(cfg: ConfigView, device: DeviceView) -> MQTTActionView {
    publish_text(
        topics::device_battery(cfg.mqtt_base_topic, device.hardware_id),
        QoS::AtMostOnce,
        true,
        decimal(device.device_log.v_batt_per.percent()),
    )
}

/// What is published for one channel of an online device: its availability,
/// at least once and retained, and then its reading, at most once and not
/// retained. A channel without a reading has no state message at all.
pub open spec fn channel_messages(cfg: ConfigView, device: DeviceView, channel: ChannelView) -> Seq<
    MQTTActionView,
> {
    let availability = publish_text(
        topics::device_channel_availability(
            cfg.mqtt_base_topic,
            device.hardware_id,
            channel.channel,
        ),
        QoS::AtLeastOnce,
        true,
        availability_text(channel_online(channel)),
    );
    match channel.last_templog {
        Some(reading) => seq![
            availability,
            publish(
                topics::device_channel_state(
                    cfg.mqtt_base_topic,
                    device.hardware_id,
                    channel.channel,
                ),
                QoS::AtMostOnce,
                false,
                PayloadView::Number(reading.temp),
            ),
        ],
        None => seq![availability],
    }
}

/// What is published for the first `n` channels of an online device, channel
/// after channel.
pub open spec fn channels_messages(cfg: ConfigView, device: DeviceView, n: nat) -> Seq<
    MQTTActionView,
>
    decreases n,
{
    if n == 0 {
        Seq::empty()
    } else {
        channels_messages(cfg, device, (n - 1) as nat) + channel_messages(
            cfg,
            device,
            device.channels[n - 1],
        )
    }
}

/// What is published for `device` before its drive is looked at: its
/// availability, its discovery documents and, if it is online, its battery
/// charge and its channels.
pub open spec fn device_messages(cfg: ConfigView, device: DeviceView, now: Timestamp) -> Seq<
    MQTTActionView,
> {
    seq![device_availability_message(cfg, device, now)] + discovery_messages(cfg, device) + if device_online(
        device,
        now,
    ) {
        seq![battery_message(cfg, device)] + channels_messages(
            cfg,
            device,
            device.channels.len(),
        )
    } else {
        Seq::empty()
    }
}

/// The drive of `device` is not available: at most once; retained where
/// drive support is off for good, not retained where the cloud had no log.
pub open spec fn drive_offline_message(cfg: ConfigView, device: DeviceView, retain: bool) -> MQTTActionView {
    publish_text(
        topics::device_drive_availability(cfg.mqtt_base_topic, device.hardware_id),
        QoS::AtMostOnce,
        retain,
        OFFLINE@,
    )
}

/// The attributes that go with a drive log.
pub open spec fn drive_attributes(log: FireboardRealtimeDrivelog) -> DriveAttributesView {
    DriveAttributesView {
        modetype: DriveModeType::spec_derive(log.setpoint, log.driveper).spec_to_string(),
        setpoint: log.setpoint,
        tiedchannel: log.tiedchannel as nat,
        lid_paused: log.lidpaused,
    }
}

/// What is published for a drive log of `device`, each message at most once
/// and not retained: the drive is online; its power as a whole percentage;
/// its attributes; its mode; its setpoint, which is given and available in
/// mode `auto` and empty and unavailable otherwise; and whether the lid has
/// paused it.
pub open spec fn drive_log_messages(
    cfg: ConfigView,
    device: DeviceView,
    log: FireboardRealtimeDrivelog,
) -> Seq<MQTTActionView> {
    let base = cfg.mqtt_base_topic;
    let id = device.hardware_id;
    let mode = DriveModeType::spec_derive(log.setpoint, log.driveper);
    let auto = mode == DriveModeType::Auto;
    seq![
        publish_text(topics::device_drive_availability(base, id), QoS::AtMostOnce, false, ONLINE@),
        publish_text(
            topics::device_drive_state(base, id),
            QoS::AtMostOnce,
            false,
            decimal(log.driveper.percent()),
        ),
        publish(
            topics::device_drive_attributes(base, id),
            QoS::AtMostOnce,
            false,
            PayloadView::Attributes(drive_attributes(log)),
        ),
        publish_text(
            topics::device_drive_mode(base, id),
            QoS::AtMostOnce,
            false,
            mode.spec_to_string(),
        ),
        publish(
            topics::device_drive_setpoint(base, id),
            QoS::AtMostOnce,
            false,
            if auto {
                PayloadView::Number(log.setpoint)
            } else {
                PayloadView::Text(Seq::empty())
            },
        ),
        publish_text(
            topics::device_drive_setpoint_availability(base, id),
            QoS::AtMostOnce,
            false,
            availability_text(auto),
        ),
        publish_text(
            topics::device_drive_lidpaused(base, id),
            QoS::AtMostOnce,
            false,
            if log.lidpaused {
                ON@
            } else {
                OFF@
            },
        ),
    ]
}

/// What is published once the cloud has answered for the drive of `device`:
/// the messages of the log, or that the drive is offline where there is none.
pub open spec fn drive_fetched_messages(
    cfg: ConfigView,
    device: DeviceView,
    log: Option<FireboardRealtimeDrivelog>,
) -> Seq<MQTTActionView> {
    match log {
        Some(l) => drive_log_messages(cfg, device, l),
        None => seq![drive_offline_message(cfg, device, false)],
    }
}

/// Where the bridge is in its cycle.
#[derive(Debug)]
pub enum PollState {
    /// Before the first poll.
    Idle,
    /// The list of devices has been asked for.
    Fetching,
    /// The devices up to `next` are published, and the drive log of the
    /// device at `next` has been asked for.
    Publishing { devices: Vec<FireboardApiDevice>, next: usize, now: Timestamp },
    /// The cycle is over; the bridge waits for the next one.
    Sleeping,
}

/// A state as contracts see it.
pub enum PollStateView {
    Idle,
    Fetching,
    Publishing { devices: Seq<DeviceView>, next: nat, now: Timestamp },
    Sleeping,
}

impl View for PollState {
    type V = PollStateView;

    open spec fn view(&self) -> PollStateView {
        match self {
            PollState::Idle => PollStateView::Idle,
            PollState::Fetching => PollStateView::Fetching,
            PollState::Publishing { devices, next, now } => PollStateView::Publishing {
                devices: device_views(devices@),
                next: *next as nat,
                now: *now,
            },
            PollState::Sleeping => PollStateView::Sleeping,
        }
    }
}

/// What has happened since the last step.
#[derive(Debug)]
pub enum PollEvent {
    /// The bridge starts, or its sleep is over.
    Wake,
    /// The cloud has listed the devices; `now` is the time of the answer.
    DevicesFetched { devices: Vec<FireboardApiDevice>, now: Timestamp },
    /// The list of devices could not be had.
    DevicesFailed,
    /// The cloud has answered for the drive that was asked for: with a log,
    /// or with none.
    DriveLogFetched { log: Option<FireboardRealtimeDrivelog> },
    /// The drive log that was asked for could not be had.
    DriveLogFailed,
}

/// An event as contracts see it.
pub enum PollEventView {
    Wake,
    DevicesFetched { devices: Seq<DeviceView>, now: Timestamp },
    DevicesFailed,
    DriveLogFetched { log: Option<FireboardRealtimeDrivelog> },
    DriveLogFailed,
}

impl View for PollEvent {
    type V = PollEventView;

    open spec fn view(&self) -> PollEventView {
        match self {
            PollEvent::Wake => PollEventView::Wake,
            PollEvent::DevicesFetched { devices, now } => PollEventView::DevicesFetched {
                devices: device_views(devices@),
                now: *now,
            },
            PollEvent::DevicesFailed => PollEventView::DevicesFailed,
            PollEvent::DriveLogFetched { log } => PollEventView::DriveLogFetched { log: *log },
            PollEvent::DriveLogFailed => PollEventView::DriveLogFailed,
        }
    }
}

/// What the driver does once it has published the messages of a step.
#[derive(Debug)]
pub enum NextAction {
    /// Ask the cloud for the list of devices.
    FetchDevices,
    /// Ask the cloud for the drive log of the device with this UUID.
    FetchDriveLog { uuid: String },
    /// Sleep, then wake the watcher.
    Sleep { seconds: u64 },
    /// Nothing: the event was not one that the state waits for.
    Wait,
}

/// A next action as contracts see it.
pub enum NextActionView {
    FetchDevices,
    FetchDriveLog { uuid: Seq<char> },
    Sleep { seconds: nat },
    Wait,
}

impl View for NextAction {
    type V = NextActionView;

    open spec fn view(&self) -> NextActionView {
        match self {
            NextAction::FetchDevices => NextActionView::FetchDevices,
            NextAction::FetchDriveLog { uuid } => NextActionView::FetchDriveLog { uuid: uuid@ },
            NextAction::Sleep { seconds } => NextActionView::Sleep { seconds: *seconds as nat },
            NextAction::Wait => NextActionView::Wait,
        }
    }
}

/// The outcome of a step: the messages to publish, in order, and what to do
/// after them.
#[derive(Debug)]
pub struct PollStep {
    pub publish: Vec<MQTTAction>,
    pub after: NextAction,
}

/// A step as contracts see it: the state and the count of online devices
/// that it leaves, the messages, and the next action.
pub struct StepView {
    pub state: PollStateView,
    pub online: nat,
    pub publish: Seq<MQTTActionView>,
    pub after: NextActionView,
}

/// The rest of a cycle from the device at `from` on, with `online` devices
/// found online before it. Each device is published in turn. Where drive
/// support is on, the step ends behind a device with the request for its
/// drive log; where it is off, the drive is announced as offline and the
/// next device follows. Behind the last device the bridge goes to sleep.
pub open spec fn run_devices(
    cfg: ConfigView,
    devices: Seq<DeviceView>,
    from: nat,
    now: Timestamp,
    online: nat,
) -> StepView
    decreases devices.len() - from,
{
    if from >= devices.len() {
        StepView {
            state: PollStateView::Sleeping,
            online,
            publish: Seq::empty(),
            after: NextActionView::Sleep {
                seconds: sleep_seconds(online, cfg.fireboard_enable_drive),
            },
        }
    } else {
        let device = devices[from as int];
        let found = if device_online(device, now) {
            online + 1
        } else {
            online
        };
        if cfg.fireboard_enable_drive {
            StepView {
                state: PollStateView::Publishing { devices, next: from, now },
                online: found,
                publish: device_messages(cfg, device, now),
                after: NextActionView::FetchDriveLog { uuid: device.uuid },
            }
        } else {
            let rest = run_devices(cfg, devices, from + 1, now, found);
            StepView {
                publish: device_messages(cfg, device, now).push(
                    drive_offline_message(cfg, device, true),
                ) + rest.publish,
                ..rest
            }
        }
    }
}

/// One step of the cycle.
///
/// - Idle or sleeping, the bridge wakes and asks for the devices.
/// - Fetching, it either gets them, counts anew and publishes them, or fails
///   to and goes to sleep with nothing published and the count as it was.
/// - Publishing, it gets the answer for the drive of one device, publishes
///   the drive, or nothing if the answer failed, and goes on with the devices
///   behind it.
/// - Any other event changes nothing.
pub open spec fn step(cfg: ConfigView, state: PollStateView, online: nat, event: PollEventView) -> StepView {
    match (state, event) {
        (PollStateView::Idle, PollEventView::Wake) | (
            PollStateView::Sleeping,
            PollEventView::Wake,
        ) => StepView {
            state: PollStateView::Fetching,
            online,
            publish: Seq::empty(),
            after: NextActionView::FetchDevices,
        },
        (PollStateView::Fetching, PollEventView::DevicesFetched { devices, now }) => run_devices(
            cfg,
            devices,
            0,
            now,
            0,
        ),
        (PollStateView::Fetching, PollEventView::DevicesFailed) => StepView {
            state: PollStateView::Sleeping,
            online,
            publish: Seq::empty(),
            after: NextActionView::Sleep {
                seconds: sleep_seconds(online, cfg.fireboard_enable_drive),
            },
        },
        (
            PollStateView::Publishing { devices, next, now },
            PollEventView::DriveLogFetched { log },
        ) => {
            let rest = run_devices(cfg, devices, next + 1, now, online);
            StepView {
                publish: drive_fetched_messages(cfg, devices[next as int], log) + rest.publish,
                ..rest
            }
        },
        (PollStateView::Publishing { devices, next, now }, PollEventView::DriveLogFailed) => run_devices(
            cfg,
            devices,
            next + 1,
            now,
            online,
        ),
        _ => StepView { state, online, publish: Seq::empty(), after: NextActionView::Wait },
    }
}

/// Whether `device` is online at `now`: whether this fetch brought a
/// temperature reading of it, or its telemetry log is less than five whole
/// minutes older than `now`.
pub fn is_device_online(device: &FireboardApiDevice, now: &Timestamp) -> (r: bool)
    ensures
        r == device_online(device@, *now),
{
    if device.latest_temps.len() > 0 {
        true
    } else {
        now.minutes_since(&device.device_log.date)
            < FIREBOARD_DEVICELOG_UPDATE_INTERVAL_MINUTES as i128
    }
}

/// The number of devices of a list that are online at `now`.
pub fn count_online(devices: &Vec<FireboardApiDevice>, now: &Timestamp) -> (n: usize)
    ensures
        n == online_among(device_views(devices@), 0, *now),
{
    let ghost views = device_views(devices@);
    let mut n: usize = 0;
    let mut i: usize = 0;
    while i < devices.len()
        invariant
            n <= i <= devices.len(),
            views == device_views(devices@),
            n + online_among(views, i as nat, *now) == online_among(views, 0, *now),
        decreases devices.len() - i,
    {
        assert(views[i as int] == devices@[i as int]@);
        if is_device_online(&devices[i], now) {
            n = n + 1;
        }
        i = i + 1;
    }
    n
}

/// Whether `channel` is online: whether it has a last reading.
pub fn is_channel_online(channel: &FireboardDeviceChannel) -> (r: bool)
    ensures
        r == channel_online(channel@),
{
    channel.last_templog.is_some()
}

/// The seconds to sleep after a cycle that left `online` devices online.
pub fn next_sleep_seconds(online: u8, drive_enabled: bool) -> (r: u64)
    ensures
        r == sleep_seconds(online as nat, drive_enabled),
{
    if online > 0 {
        if drive_enabled {
            BASE_INTERVAL_SECONDS * 2
        } else {
            BASE_INTERVAL_SECONDS
        }
    } else {
        IDLE_INTERVAL_SECONDS
    }
}

/// The number of devices from `from` on that are online at `now`.
pub open spec fn online_among(devices: Seq<DeviceView>, from: nat, now: Timestamp) -> nat
    decreases devices.len() - from,
{
    if from >= devices.len() {
        0
    } else if device_online(devices[from as int], now) {
        1 + online_among(devices, from + 1, now)
    } else {
        online_among(devices, from + 1, now)
    }
}

/// Without drive support a cycle runs through all devices in one step: it
/// ends asleep, counts exactly the devices that are online, and sleeps a
/// minute if there is none and twenty seconds otherwise.
pub proof fn lemma_cycle_without_drive(
    cfg: ConfigView,
    devices: Seq<DeviceView>,
    from: nat,
    now: Timestamp,
    online: nat,
)
    requires
        !cfg.fireboard_enable_drive,
    ensures
        ({
            let end = run_devices(cfg, devices, from, now, online);
            let found = online + online_among(devices, from, now);
            &&& end.state == PollStateView::Sleeping
            &&& end.online == found
            &&& end.after == NextActionView::Sleep {
                seconds: if found == 0 {
                    60
                } else {
                    20
                },
            }
        }),
    decreases devices.len() - from,
{
    if from < devices.len() {
        let found = if device_online(devices[from as int], now) {
            online + 1
        } else {
            online
        };
        lemma_cycle_without_drive(cfg, devices, from + 1, now, found);
    }
}

/// With drive support a step stops behind each device: it publishes that
/// device, counts it if it is online, and asks for the drive log of that
/// device and no other. Behind the last device it asks for a sleep of a
/// minute if no device was online and of forty seconds otherwise.
pub proof fn lemma_cycle_with_drive(
    cfg: ConfigView,
    devices: Seq<DeviceView>,
    from: nat,
    now: Timestamp,
    online: nat,
)
    requires
        cfg.fireboard_enable_drive,
    ensures
        ({
            let end = run_devices(cfg, devices, from, now, online);
            if from < devices.len() {
                &&& end.state == PollStateView::Publishing { devices, next: from, now }
                &&& end.online == online + online_among(devices, from, now) - online_among(
                    devices,
                    from + 1,
                    now,
                )
                &&& end.publish == device_messages(cfg, devices[from as int], now)
                &&& end.after == NextActionView::FetchDriveLog { uuid: devices[from as int].uuid }
            } else {
                &&& end.state == PollStateView::Sleeping
                &&& end.online == online
                &&& end.publish == Seq::<MQTTActionView>::empty()
                &&& end.after == NextActionView::Sleep {
                    seconds: if online == 0 {
                        60
                    } else {
                        40
                    },
                }
            }
        }),
{
}

/// The number of online devices that a cycle will have counted at its
/// end: what is counted so far and, while a drive log is waited for, the
/// online devices behind the one that the log is for.
pub open spec fn expected_online(state: PollStateView, online: nat) -> nat {
    match state {
        PollStateView::Publishing { devices, next, now } => online + online_among(
            devices,
            next + 1,
            now,
        ),
        _ => online,
    }
}

/// Wherever the rest of a cycle stops, it has counted or will count exactly
/// the online devices from `from` on, besides those counted before.
pub proof fn lemma_run_devices_counts(
    cfg: ConfigView,
    devices: Seq<DeviceView>,
    from: nat,
    now: Timestamp,
    online: nat,
)
    ensures
        ({
            let end = run_devices(cfg, devices, from, now, online);
            expected_online(end.state, end.online) == online + online_among(devices, from, now)
        }),
    decreases devices.len() - from,
{
    if from < devices.len() && !cfg.fireboard_enable_drive {
        let found = if device_online(devices[from as int], now) {
            online + 1
        } else {
            online
        };
        lemma_run_devices_counts(cfg, devices, from + 1, now, found);
    }
}

/// The count follows the last fetched list: a step that takes a fetched list
/// starts to count the online devices of that list, whatever was counted
/// before and however long the list is, and every other step keeps what the
/// cycle will have counted, whether a drive log comes, fails, or the fetch of
/// the devices fails. So a cycle that ends asleep has counted the devices of
/// its list that were online, neither more nor fewer.
pub proof fn lemma_step_counts(
    cfg: ConfigView,
    state: PollStateView,
    online: nat,
    event: PollEventView,
)
    ensures
        ({
            let end = step(cfg, state, online, event);
            if state is Fetching && event is DevicesFetched {
                expected_online(end.state, end.online) == online_among(
                    event->devices,
                    0,
                    event->now,
                )
            } else {
                expected_online(end.state, end.online) == expected_online(state, online)
            }
        }),
{
    match (state, event) {
        (PollStateView::Fetching, PollEventView::DevicesFetched { devices, now }) => {
            lemma_run_devices_counts(cfg, devices, 0, now, 0);
        },
        (PollStateView::Publishing { devices, next, now }, PollEventView::DriveLogFetched { .. }) => {
            lemma_run_devices_counts(cfg, devices, next + 1, now, online);
        },
        (PollStateView::Publishing { devices, next, now }, PollEventView::DriveLogFailed) => {
            lemma_run_devices_counts(cfg, devices, next + 1, now, online);
        },
        _ => {},
    }
}

/// A failed fetch of the devices skips the cycle: nothing is published, the
/// count of online devices stays as it was, and the bridge sleeps as long as
/// that count asks for.
pub proof fn lemma_failed_fetch_skips_cycle(cfg: ConfigView, online: nat)
    ensures
        step(cfg, PollStateView::Fetching, online, PollEventView::DevicesFailed) == (StepView {
            state: PollStateView::Sleeping,
            online,
            publish: Seq::empty(),
            after: NextActionView::Sleep {
                seconds: sleep_seconds(online, cfg.fireboard_enable_drive),
            },
        }),
{
}

/// A failed fetch of a drive log touches that device alone: the step is the
/// one that the devices behind it give, with no message for the drive that
/// failed and with the count as it was. A drive log that was had differs from
/// this by the messages of the drive, which come first.
pub proof fn lemma_failed_drive_log_is_isolated(
    cfg: ConfigView,
    devices: Seq<DeviceView>,
    next: nat,
    now: Timestamp,
    online: nat,
    log: Option<FireboardRealtimeDrivelog>,
)
    ensures
        ({
            let waiting = PollStateView::Publishing { devices, next, now };
            let failed = step(cfg, waiting, online, PollEventView::DriveLogFailed);
            let fetched = step(cfg, waiting, online, PollEventView::DriveLogFetched { log });
            &&& failed == run_devices(cfg, devices, next + 1, now, online)
            &&& fetched.publish == drive_fetched_messages(cfg, devices[next as int], log)
                + failed.publish
            &&& fetched.state == failed.state
            &&& fetched.online == failed.online
            &&& fetched.after == failed.after
        }),
{
}

/// Whether `message` leaves the drive of `device` alone: it is published
/// under a topic that is none of the state topics of that drive.
pub open spec fn spares_drive(message: MQTTActionView, cfg: ConfigView, device: DeviceView) -> bool {
    message matches MQTTActionView::Publish { topic, .. } && !topics::is_drive_state_topic(
        cfg.mqtt_base_topic,
        device.hardware_id,
        topic,
    )
}

/// Whether every message of a list leaves the drive of `device` alone.
pub open spec fn all_spare_drive(messages: Seq<MQTTActionView>, cfg: ConfigView, device: DeviceView) -> bool {
    forall|i: int| 0 <= i < messages.len() ==> spares_drive(#[trigger] messages[i], cfg, device)
}

/// The messages of the channels of a device leave a drive alone.
proof fn lemma_channels_spare_drive(cfg: ConfigView, device: DeviceView, other: DeviceView, n: nat)
    requires
        topics::tellable(device.hardware_id, other.hardware_id),
    ensures
        all_spare_drive(channels_messages(cfg, other, n), cfg, device),
    decreases n,
{
    if n > 0 {
        let before = channels_messages(cfg, other, (n - 1) as nat);
        let last = channel_messages(cfg, other, other.channels[n - 1]);
        let all = channels_messages(cfg, other, n);
        lemma_channels_spare_drive(cfg, device, other, (n - 1) as nat);
        topics::lemma_drive_state_topics_of_all_are_apart(
            cfg.mqtt_base_topic,
            cfg.mqtt_discovery_topic,
            device.hardware_id,
            other.hardware_id,
            other.channels[n - 1].channel,
        );
        assert forall|i: int| 0 <= i < all.len() implies spares_drive(
            #[trigger] all[i],
            cfg,
            device,
        ) by {
            if i < before.len() {
                assert(all[i] == before[i]);
            } else {
                assert(all[i] == last[i - before.len()]);
            }
        }
    }
}

/// The discovery documents of a device leave a drive alone.
proof fn lemma_discovery_spares_drive(cfg: ConfigView, device: DeviceView, other: DeviceView)
    requires
        topics::tellable(device.hardware_id, other.hardware_id),
    ensures
        all_spare_drive(discovery_messages(cfg, other), cfg, device),
{
    let all = discovery_messages(cfg, other);
    let n = other.channels.len();
    assert forall|i: int| 0 <= i < all.len() implies spares_drive(#[trigger] all[i], cfg, device) by {
        if 1 <= i <= n {
            assert(all[i] == channel_discovery_messages(cfg, other, n)[i - 1]);
            topics::lemma_drive_state_topics_of_all_are_apart(
                cfg.mqtt_base_topic,
                cfg.mqtt_discovery_topic,
                device.hardware_id,
                other.hardware_id,
                other.channels[i - 1].channel,
            );
        } else {
            if i > n {
                assert(all[i] == drive_discovery_messages(cfg, other)[i - 1 - n]);
            }
            topics::lemma_drive_state_topics_of_all_are_apart(
                cfg.mqtt_base_topic,
                cfg.mqtt_discovery_topic,
                device.hardware_id,
                other.hardware_id,
                0,
            );
        }
    }
}

/// What is published for a device before its drive is looked at leaves every
/// drive alone: no message of it goes under a state topic of its own drive,
/// nor of the drive of another device where neither hardware id holds a
/// slash.
pub proof fn lemma_device_messages_spare_drive(
    cfg: ConfigView,
    device: DeviceView,
    other: DeviceView,
    now: Timestamp,
)
    requires
        topics::tellable(device.hardware_id, other.hardware_id),
    ensures
        all_spare_drive(device_messages(cfg, other, now), cfg, device),
{
    let all = device_messages(cfg, other, now);
    let documents = discovery_messages(cfg, other);
    let channels = channels_messages(cfg, other, other.channels.len());
    lemma_discovery_spares_drive(cfg, device, other);
    lemma_channels_spare_drive(cfg, device, other, other.channels.len());
    topics::lemma_drive_state_topics_of_all_are_apart(
        cfg.mqtt_base_topic,
        cfg.mqtt_discovery_topic,
        device.hardware_id,
        other.hardware_id,
        0,
    );
    assert forall|i: int| 0 <= i < all.len() implies spares_drive(#[trigger] all[i], cfg, device) by {
        if 1 <= i <= documents.len() {
            assert(all[i] == documents[i - 1]);
        } else if i > documents.len() + 1 {
            assert(all[i] == channels[i - 2 - documents.len()]);
        }
    }
}

/// A drive log that fails leaves the drive of its device as it was: the step
/// that follows the failure publishes nothing under a state topic of that
/// drive. What was published for the device before its drive was asked for
/// did not either, so its availability, battery and channels went out all the
/// same. This holds where the device that follows is the same one or where
/// neither hardware id holds a slash.
pub proof fn lemma_failed_drive_log_spares_drive(
    cfg: ConfigView,
    devices: Seq<DeviceView>,
    next: nat,
    now: Timestamp,
    online: nat,
)
    requires
        cfg.fireboard_enable_drive,
        next < devices.len(),
        next + 1 < devices.len() ==> topics::tellable(
            devices[next as int].hardware_id,
            devices[next as int + 1].hardware_id,
        ),
    ensures
        all_spare_drive(
            step(
                cfg,
                PollStateView::Publishing { devices, next, now },
                online,
                PollEventView::DriveLogFailed,
            ).publish,
            cfg,
            devices[next as int],
        ),
        all_spare_drive(
            device_messages(cfg, devices[next as int], now),
            cfg,
            devices[next as int],
        ),
{
    let device = devices[next as int];
    lemma_device_messages_spare_drive(cfg, device, device, now);
    if next + 1 < devices.len() {
        lemma_device_messages_spare_drive(cfg, device, devices[next as int + 1], now);
    }
}

/// Whether `message` is a publish request of the plain sort: at most once or
/// at least once, and without properties.
pub open spec fn is_plain_publish(message: MQTTActionView) -> bool {
    message matches MQTTActionView::Publish { qos, props, .. } && qos != QoS::ExactlyOnce
        && props is None
}

/// Whether every message of a list is a plain publish request.
pub open spec fn all_plain(messages: Seq<MQTTActionView>) -> bool {
    forall|i: int| 0 <= i < messages.len() ==> is_plain_publish(#[trigger] messages[i])
}

/// Two lists of plain publish requests make one.
proof fn lemma_all_plain_concat(a: Seq<MQTTActionView>, b: Seq<MQTTActionView>)
    requires
        all_plain(a),
        all_plain(b),
    ensures
        all_plain(a + b),
{
    assert forall|i: int| 0 <= i < (a + b).len() implies is_plain_publish(#[trigger] (a + b)[i]) by {
        if i < a.len() {
            assert((a + b)[i] == a[i]);
        } else {
            assert((a + b)[i] == b[i - a.len()]);
        }
    }
}

/// The messages of the channels of a device are plain publish requests.
proof fn lemma_channels_plain(cfg: ConfigView, device: DeviceView, n: nat)
    ensures
        all_plain(channels_messages(cfg, device, n)),
    decreases n,
{
    if n > 0 {
        lemma_channels_plain(cfg, device, (n - 1) as nat);
        lemma_all_plain_concat(
            channels_messages(cfg, device, (n - 1) as nat),
            channel_messages(cfg, device, device.channels[n - 1]),
        );
    }
}

/// The messages of a device are plain publish requests.
proof fn lemma_device_messages_plain(cfg: ConfigView, device: DeviceView, now: Timestamp)
    ensures
        all_plain(device_messages(cfg, device, now)),
{
    let documents = discovery_messages(cfg, device);
    lemma_discovery_documents(cfg, device);
    assert(all_plain(documents)) by {
        assert forall|i: int| 0 <= i < documents.len() implies is_plain_publish(
            #[trigger] documents[i],
        ) by {
            assert(is_document_of(documents[i], cfg, device));
        }
    }
    let head = seq![device_availability_message(cfg, device, now)];
    lemma_all_plain_concat(head, documents);
    lemma_channels_plain(cfg, device, device.channels.len());
    let tail = if device_online(device, now) {
        seq![battery_message(cfg, device)] + channels_messages(cfg, device, device.channels.len())
    } else {
        Seq::empty()
    };
    if device_online(device, now) {
        lemma_all_plain_concat(
            seq![battery_message(cfg, device)],
            channels_messages(cfg, device, device.channels.len()),
        );
    }
    lemma_all_plain_concat(head + documents, tail);
}

/// The rest of a cycle asks for plain publish requests only.
proof fn lemma_run_devices_plain(
    cfg: ConfigView,
    devices: Seq<DeviceView>,
    from: nat,
    now: Timestamp,
    online: nat,
)
    ensures
        all_plain(run_devices(cfg, devices, from, now, online).publish),
    decreases devices.len() - from,
{
    if from < devices.len() {
        let device = devices[from as int];
        lemma_device_messages_plain(cfg, device, now);
        if !cfg.fireboard_enable_drive {
            let found = if device_online(device, now) {
                online + 1
            } else {
                online
            };
            lemma_run_devices_plain(cfg, devices, from + 1, now, found);
            let first = device_messages(cfg, device, now).push(
                drive_offline_message(cfg, device, true),
            );
            assert(first =~= device_messages(cfg, device, now) + seq![
                drive_offline_message(cfg, device, true),
            ]);
            lemma_all_plain_concat(
                device_messages(cfg, device, now),
                seq![drive_offline_message(cfg, device, true)],
            );
            lemma_all_plain_concat(
                first,
                run_devices(cfg, devices, from + 1, now, found).publish,
            );
        }
    }
}

/// Whatever happens, a step asks for nothing but to publish, at most once or
/// at least once and without properties: the bridge never subscribes, and
/// never asks for a delivery of exactly once.
pub proof fn lemma_step_publishes_plainly(
    cfg: ConfigView,
    state: PollStateView,
    online: nat,
    event: PollEventView,
)
    ensures
        all_plain(step(cfg, state, online, event).publish),
{
    match (state, event) {
        (PollStateView::Fetching, PollEventView::DevicesFetched { devices, now }) => {
            lemma_run_devices_plain(cfg, devices, 0, now, 0);
        },
        (
            PollStateView::Publishing { devices, next, now },
            PollEventView::DriveLogFetched { log },
        ) => {
            lemma_run_devices_plain(cfg, devices, next + 1, now, online);
            lemma_all_plain_concat(
                drive_fetched_messages(cfg, devices[next as int], log),
                run_devices(cfg, devices, next + 1, now, online).publish,
            );
        },
        (PollStateView::Publishing { devices, next, now }, PollEventView::DriveLogFailed) => {
            lemma_run_devices_plain(cfg, devices, next + 1, now, online);
        },
        _ => {},
    }
}

} // verus!
