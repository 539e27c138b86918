//! What the FireBoard cloud reports: devices, their channels, telemetry logs
//! and drive logs.
use crate::float32::Float32;
use crate::time::Timestamp;
use vstd::prelude::*;

verus! {

/// The body of a login request.
#[derive(Debug, Clone)]
pub struct FireboardCloudApiAuthRequest {
    pub username: String,
    pub password: String,
}

/// The body of the answer to a login request.
#[derive(Debug, Clone)]
pub struct FireboardCloudApiAuthResponse {
    pub key: String,
}

/// The temperature unit that a device is set to.
#[derive(PartialEq, Eq, Structural, Debug, Copy, Clone)]
pub enum DegreeType {
    Celcius,
    Fahrenheit,
}

impl DegreeType {
    /// The unit sign as text.
    pub open spec fn spec_to_string(self) -> Seq<char> {
        match self {
            DegreeType::Celcius => "°C"@,
            DegreeType::Fahrenheit => "°F"@,
        }
    }

    /// The number that stands for the unit on the wire.
    pub open spec fn spec_code(self) -> u8 {
        match self {
            DegreeType::Celcius => 1,
            DegreeType::Fahrenheit => 2,
        }
    }

    /// The unit sign: `°C` or `°F`.
    pub fn to_string(&self) -> (r: String)
        ensures
            r@ == self.spec_to_string(),
    {
        match self {
            DegreeType::Celcius => String::from_str("°C"),
            DegreeType::Fahrenheit => String::from_str("°F"),
        }
    }

    /// The number that stands for the unit on the wire.
    pub fn code(&self) -> (r: u8)
        ensures
            r == self.spec_code(),
    {
        match self {
            DegreeType::Celcius => 1,
            DegreeType::Fahrenheit => 2,
        }
    }

    /// The unit that `code` stands for, if any.
    pub fn from_code(code: u8) -> (r: Option<DegreeType>)
        ensures
            match r {
                Some(d) => d.spec_code() == code,
                None => forall|d: DegreeType| d.spec_code() != code,
            },
    {
        if code == 1 {
            Some(DegreeType::Celcius)
        } else if code == 2 {
            Some(DegreeType::Fahrenheit)
        } else {
            None
        }
    }
}

/// The lower-case form that `str::to_lowercase` gives a text.
pub uninterp spec fn lowercase_of(text: Seq<char>) -> Seq<char>;

/// `str::to_lowercase`: the text with each character in its lower-case form.
/// The contract names the outcome and says nothing of what it holds.
#[verifier::external_body]
fn lowercase(text: &str) -> (r: String)
    ensures
        r@ == lowercase_of(text@),
{
    text.to_lowercase()
}

/// What the drive of a device is doing.
#[derive(PartialEq, Eq, Structural, Debug, Copy, Clone)]
pub enum DriveModeType {
    Off,
    Manual,
    Auto,
}

impl DriveModeType {
    /// The mode as the token that is published.
    pub open spec fn spec_to_string(self) -> Seq<char> {
        match self {
            DriveModeType::Off => "off"@,
            DriveModeType::Manual => "manual"@,
            DriveModeType::Auto => "auto"@,
        }
    }

    /// The number that stands for the mode on the wire.
    pub open spec fn spec_code(self) -> u8 {
        match self {
            DriveModeType::Off => 0,
            DriveModeType::Manual => 1,
            DriveModeType::Auto => 2,
        }
    }

    /// The mode that a setpoint and a drive fraction amount to: `Auto` when
    /// the setpoint is 100 or more, else `Manual` when the drive runs at all,
    /// else `Off`.
    pub open spec fn spec_derive(setpoint: Float32, driveper: Float32) -> DriveModeType {
        if setpoint.spec_at_least(100) {
            DriveModeType::Auto
        } else if driveper.spec_exceeds(0) {
            DriveModeType::Manual
        } else {
            DriveModeType::Off
        }
    }

    /// The mode as the token that is published: `off`, `manual` or `auto`.
    pub fn to_string(&self) -> (r: String)
        ensures
            r@ == self.spec_to_string(),
    {
        match self {
            DriveModeType::Off => String::from_str("off"),
            DriveModeType::Manual => String::from_str("manual"),
            DriveModeType::Auto => String::from_str("auto"),
        }
    }

    /// The number that stands for the mode on the wire.
    pub fn code(&self) -> (r: u8)
        ensures
            r == self.spec_code(),
    {
        match self {
            DriveModeType::Off => 0,
            DriveModeType::Manual => 1,
            DriveModeType::Auto => 2,
        }
    }

    /// The mode that `code` stands for, if any.
    pub fn from_code(code: u8) -> (r: Option<DriveModeType>)
        ensures
            match r {
                Some(m) => m.spec_code() == code,
                None => forall|m: DriveModeType| m.spec_code() != code,
            },
    {
        if code == 0 {
            Some(DriveModeType::Off)
        } else if code == 1 {
            Some(DriveModeType::Manual)
        } else if code == 2 {
            Some(DriveModeType::Auto)
        } else {
            None
        }
    }

    /// The mode that a lower-case token names, if any.
    pub open spec fn spec_from_token(token: Seq<char>) -> Option<DriveModeType> {
        if token == "off"@ {
            Some(DriveModeType::Off)
        } else if token == "manual"@ {
            Some(DriveModeType::Manual)
        } else if token == "auto"@ {
            Some(DriveModeType::Auto)
        } else {
            None
        }
    }

    /// The mode that `token` names: `off`, `manual` or `auto`, in exactly
    /// this spelling.
    pub fn from_token(token: &String) -> (r: Option<DriveModeType>)
        ensures
            r == DriveModeType::spec_from_token(token@),
    {
        if *token == String::from_str("off") {
            Some(DriveModeType::Off)
        } else if *token == String::from_str("manual") {
            Some(DriveModeType::Manual)
        } else if *token == String::from_str("auto") {
            Some(DriveModeType::Auto)
        } else {
            None
        }
    }

    /// The mode that `name` names in any mix of upper and lower case, if any.
    pub fn from_name(name: &str) -> (r: Option<DriveModeType>)
        ensures
            r == DriveModeType::spec_from_token(lowercase_of(name@)),
    {
        let token = lowercase(name);
        Self::from_token(&token)
    }

    /// The mode of a drive, from its setpoint and the fraction at which it
    /// runs. It is worked out anew from each drive log.
    pub fn derive(setpoint: Float32, driveper: Float32) -> (r: DriveModeType)
        ensures
            r == DriveModeType::spec_derive(setpoint, driveper),
    {
        if setpoint.at_least(100) {
            DriveModeType::Auto
        } else if driveper.exceeds(0) {
            DriveModeType::Manual
        } else {
            DriveModeType::Off
        }
    }
}

/// Whether a cooking program runs on the device.
#[derive(PartialEq, Eq, Structural, Debug, Copy, Clone)]
pub enum ProgramState {
    NotRunning,
    Running,
    Paused,
    Complete,
}

/// One temperature reading.
#[derive(Debug, Copy, Clone, PartialEq, Eq, Structural)]
pub struct FireboardTemps {
    pub temp: Float32,
}

/// A probe channel of a device.
#[derive(Debug, Clone)]
pub struct FireboardDeviceChannel {
    /// The number of the channel on its device, from 1.
    pub channel: usize,
    pub channel_label: String,
    /// The last reading; `None` while the channel has never reported.
    pub last_templog: Option<FireboardTemps>,
}

/// A channel as contracts see it.
pub struct ChannelView {
    pub channel: nat,
    pub channel_label: Seq<char>,
    pub last_templog: Option<FireboardTemps>,
}

impl View for FireboardDeviceChannel {
    type V = ChannelView;

    open spec fn view(&self) -> ChannelView {
        ChannelView {
            channel: self.channel as nat,
            channel_label: self.channel_label@,
            last_templog: self.last_templog,
        }
    }
}

/// The latest telemetry log of a device.
#[derive(Debug, Clone)]
pub struct FireboardDeviceLog {
    /// When the log was taken.
    pub date: Timestamp,
    pub mac_nic: String,
    pub onboard_temp: Float32,
    /// The battery charge as a fraction of one.
    pub v_batt_per: Float32,
}

/// A telemetry log as contracts see it.
pub struct DeviceLogView {
    pub date: Timestamp,
    pub mac_nic: Seq<char>,
    pub onboard_temp: Float32,
    pub v_batt_per: Float32,
}

impl View for FireboardDeviceLog {
    type V = DeviceLogView;

    open spec fn view(&self) -> DeviceLogView {
        DeviceLogView {
            date: self.date,
            mac_nic: self.mac_nic@,
            onboard_temp: self.onboard_temp,
            v_batt_per: self.v_batt_per,
        }
    }
}

/// A device as the cloud lists it.
#[derive(Debug, Clone)]
pub struct FireboardApiDevice {
    pub id: usize,
    pub uuid: String,
    pub title: String,
    /// The hardware id: the key under which everything about the device is
    /// published.
    pub hardware_id: String,
    pub version: String,
    pub channel_count: usize,
    pub degreetype: DegreeType,
    pub model: String,
    pub channels: Vec<FireboardDeviceChannel>,
    /// The readings of this fetch; empty when the device sent none.
    pub latest_temps: Vec<FireboardTemps>,
    pub device_log: FireboardDeviceLog,
}

/// A device as contracts see it.
pub struct DeviceView {
    pub id: nat,
    pub uuid: Seq<char>,
    pub title: Seq<char>,
    pub hardware_id: Seq<char>,
    pub version: Seq<char>,
    pub channel_count: nat,
    pub degreetype: DegreeType,
    pub model: Seq<char>,
    pub channels: Seq<ChannelView>,
    pub latest_temps: Seq<FireboardTemps>,
    pub device_log: DeviceLogView,
}

impl View for FireboardApiDevice {
    type V = DeviceView;

    open spec fn view(&self) -> DeviceView {
        DeviceView {
            id: self.id as nat,
            uuid: self.uuid@,
            title: self.title@,
            hardware_id: self.hardware_id@,
            version: self.version@,
            channel_count: self.channel_count as nat,
            degreetype: self.degreetype,
            model: self.model@,
            channels: self.channels@.map_values(|c: FireboardDeviceChannel| c@),
            latest_temps: self.latest_temps@,
            device_log: self.device_log@,
        }
    }
}

/// The devices of an account.
#[derive(Debug)]
pub struct FireboardDeviceList {
    pub devices: Vec<FireboardApiDevice>,
}

/// The views of a list of devices.
pub open spec fn device_views(devices: Seq<FireboardApiDevice>) -> Seq<DeviceView> {
    devices.map_values(|d: FireboardApiDevice| d@)
}

/// The state of the drive of a device at the time of asking.
#[derive(Debug, Clone, Copy, PartialEq, Eq, Structural)]
pub struct FireboardRealtimeDrivelog {
    /// The mode as the cloud names it. What is published is worked out from
    /// `setpoint` and `driveper` instead.
    pub modetype: DriveModeType,
    pub setpoint: Float32,
    pub lidpaused: bool,
    pub tiedchannel: usize,
    /// The fraction of full power at which the drive runs.
    pub driveper: Float32,
}

} // verus!
