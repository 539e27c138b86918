//! Home Assistant discovery documents: what tells the platform how to show a
//! topic as a sensor of a device.
use crate::constants::{OFFLINE, ONLINE};
use crate::fireboard_api::DegreeType;
use crate::float32::Float32;
use crate::text::{chars_of, list_chars, opt_chars};
use compact_str::CompactString;
use vstd::prelude::*;
use vstd::std_specs::convert::FromSpecImpl;

verus! {

/// The temperature units that Home Assistant knows of a device here.
#[derive(PartialEq, Eq, Structural, Debug, Copy, Clone)]
pub enum UnitOfTemperatureMeasurement {
    Celcius,
    Fahrenheit,
}

impl From<DegreeType> for UnitOfTemperatureMeasurement {
    fn from(degreetype: DegreeType) -> (r: Self) {
        match degreetype {
            DegreeType::Celcius => UnitOfTemperatureMeasurement::Celcius,
            DegreeType::Fahrenheit => UnitOfTemperatureMeasurement::Fahrenheit,
        }
    }
}

impl FromSpecImpl<DegreeType> for UnitOfTemperatureMeasurement {
    open spec fn obeys_from_spec() -> bool {
        true
    }

    open spec fn from_spec(degreetype: DegreeType) -> Self {
        match degreetype {
            DegreeType::Celcius => UnitOfTemperatureMeasurement::Celcius,
            DegreeType::Fahrenheit => UnitOfTemperatureMeasurement::Fahrenheit,
        }
    }
}

/// The state of one channel as a single record.
#[derive(Debug)]
pub struct FireboardMqttChannel {
    pub availability: CompactString,
    pub state: Float32,
}

/// One topic that has to report the available payload for an entity to count
/// as available.
#[derive(Debug)]
pub struct MQTTDiscoveryAvailabilityEntry {
    pub payload_available: Option<CompactString>,
    pub payload_not_available: Option<CompactString>,
    pub topic: CompactString,
}

/// An availability entry as contracts see it.
pub struct AvailabilityEntryView {
    pub payload_available: Option<Seq<char>>,
    pub payload_not_available: Option<Seq<char>>,
    pub topic: Seq<char>,
}

impl View for MQTTDiscoveryAvailabilityEntry {
    type V = AvailabilityEntryView;

    open spec fn view(&self) -> AvailabilityEntryView {
        AvailabilityEntryView {
            payload_available: opt_chars(self.payload_available),
            payload_not_available: opt_chars(self.payload_not_available),
            topic: chars_of(self.topic),
        }
    }
}

/// The entry for `topic`, with the payloads `online` and `offline`.
pub open spec fn availability_entry(topic: Seq<char>) -> AvailabilityEntryView {
    AvailabilityEntryView {
        payload_available: Some(ONLINE@),
        payload_not_available: Some(OFFLINE@),
        topic,
    }
}

impl From<CompactString> for MQTTDiscoveryAvailabilityEntry {
    fn from(topic: CompactString) -> (r: Self)
        ensures
            r@ == availability_entry(chars_of(topic)),
    {
        MQTTDiscoveryAvailabilityEntry {
            payload_available: Some(CompactString::from(ONLINE)),
            payload_not_available: Some(CompactString::from(OFFLINE)),
            topic,
        }
    }
}

impl FromSpecImpl<CompactString> for MQTTDiscoveryAvailabilityEntry {
    open spec fn obeys_from_spec() -> bool {
        false
    }

    open spec fn from_spec(topic: CompactString) -> Self {
        arbitrary()
    }
}

impl From<String> for MQTTDiscoveryAvailabilityEntry {
    fn from(topic: String) -> (r: Self)
        ensures
            r@ == availability_entry(topic@),
    {
        MQTTDiscoveryAvailabilityEntry {
            payload_available: Some(CompactString::from(ONLINE)),
            payload_not_available: Some(CompactString::from(OFFLINE)),
            topic: CompactString::from(topic.as_str()),
        }
    }
}

impl FromSpecImpl<String> for MQTTDiscoveryAvailabilityEntry {
    open spec fn obeys_from_spec() -> bool {
        false
    }

    open spec fn from_spec(topic: String) -> Self {
        arbitrary()
    }
}

/// The views of a list of availability entries.
pub open spec fn entry_views(l: Seq<MQTTDiscoveryAvailabilityEntry>) -> Seq<AvailabilityEntryView> {
    l.map_values(|e: MQTTDiscoveryAvailabilityEntry| e@)
}

/// The characters of a pair of strings.
pub open spec fn pair_chars(p: [CompactString; 2]) -> Seq<Seq<char>> {
    list_chars(p@)
}

/// The device that an entity belongs to, as Home Assistant files it.
#[derive(Debug)]
pub struct MQTTDiscoveryDevice {
    pub configuration_url: Option<CompactString>,
    pub connections: Option<Vec<[CompactString; 2]>>,
    pub hw_version: Option<CompactString>,
    pub identifiers: Option<Vec<CompactString>>,
    pub manufacturer: Option<CompactString>,
    pub model: Option<CompactString>,
    pub name: Option<CompactString>,
    pub serial_number: Option<CompactString>,
    pub sw_version: Option<CompactString>,
}

/// A device envelope as contracts see it.
pub struct DiscoveryDeviceView {
    pub configuration_url: Option<Seq<char>>,
    pub connections: Option<Seq<Seq<Seq<char>>>>,
    pub hw_version: Option<Seq<char>>,
    pub identifiers: Option<Seq<Seq<char>>>,
    pub manufacturer: Option<Seq<char>>,
    pub model: Option<Seq<char>>,
    pub name: Option<Seq<char>>,
    pub serial_number: Option<Seq<char>>,
    pub sw_version: Option<Seq<char>>,
}

impl DiscoveryDeviceView {
    /// The envelope with every field absent.
    pub open spec fn empty() -> DiscoveryDeviceView {
        DiscoveryDeviceView {
            configuration_url: None,
            connections: None,
            hw_version: None,
            identifiers: None,
            manufacturer: None,
            model: None,
            name: None,
            serial_number: None,
            sw_version: None,
        }
    }
}

impl View for MQTTDiscoveryDevice {
    type V = DiscoveryDeviceView;

    open spec fn view(&self) -> DiscoveryDeviceView {
        DiscoveryDeviceView {
            configuration_url: opt_chars(self.configuration_url),
            connections: match self.connections {
                Some(l) => Some(l@.map_values(|p: [CompactString; 2]| pair_chars(p))),
                None => None,
            },
            hw_version: opt_chars(self.hw_version),
            identifiers: match self.identifiers {
                Some(l) => Some(list_chars(l@)),
                None => None,
            },
            manufacturer: opt_chars(self.manufacturer),
            model: opt_chars(self.model),
            name: opt_chars(self.name),
            serial_number: opt_chars(self.serial_number),
            sw_version: opt_chars(self.sw_version),
        }
    }
}

impl Default for MQTTDiscoveryDevice {
    fn default() -> (r: Self)
        ensures
            r@ == DiscoveryDeviceView::empty(),
    {
        MQTTDiscoveryDevice {
            configuration_url: None,
            connections: None,
            hw_version: None,
            identifiers: None,
            manufacturer: None,
            model: None,
            name: None,
            serial_number: None,
            sw_version: None,
        }
    }
}

/// The view of an optional device envelope.
pub open spec fn opt_device_view(d: Option<MQTTDiscoveryDevice>) -> Option<DiscoveryDeviceView> {
    match d {
        Some(x) => Some(x@),
        None => None,
    }
}

/// The discovery document of a sensor.
#[derive(Debug)]
pub struct MQTTDiscoverySensor {
    pub unique_id: CompactString,
    pub object_id: CompactString,
    pub name: Option<CompactString>,
    pub availability: Vec<MQTTDiscoveryAvailabilityEntry>,
    pub device_class: Option<CompactString>,
    pub options: Option<Vec<CompactString>>,
    pub enabled_by_default: bool,
    pub encoding: CompactString,
    pub suggested_display_precision: Option<u16>,
    pub qos: u8,
    pub state_class: Option<CompactString>,
    pub json_attributes_topic: Option<CompactString>,
    pub icon: Option<CompactString>,
    /// The topic that carries the value of the sensor.
    pub state_topic: CompactString,
    pub unit_of_measurement: Option<CompactString>,
    pub suggested_unit_of_measurement: Option<CompactString>,
    pub device: Option<MQTTDiscoveryDevice>,
    pub expires_after: Option<u32>,
}

/// A sensor document as contracts see it.
pub struct SensorView {
    pub unique_id: Seq<char>,
    pub object_id: Seq<char>,
    pub name: Option<Seq<char>>,
    pub availability: Seq<AvailabilityEntryView>,
    pub device_class: Option<Seq<char>>,
    pub options: Option<Seq<Seq<char>>>,
    pub enabled_by_default: bool,
    pub encoding: Seq<char>,
    pub suggested_display_precision: Option<u16>,
    pub qos: u8,
    pub state_class: Option<Seq<char>>,
    pub json_attributes_topic: Option<Seq<char>>,
    pub icon: Option<Seq<char>>,
    pub state_topic: Seq<char>,
    pub unit_of_measurement: Option<Seq<char>>,
    pub suggested_unit_of_measurement: Option<Seq<char>>,
    pub device: Option<DiscoveryDeviceView>,
    pub expires_after: Option<u32>,
}

impl SensorView {
    /// The document that every sensor starts from: enabled, encoded as UTF-8,
    /// a measurement, with no name, topic or device yet.
    pub open spec fn initial() -> SensorView {
        SensorView {
            unique_id: ""@,
            object_id: ""@,
            name: None,
            availability: Seq::empty(),
            device_class: None,
            options: None,
            enabled_by_default: true,
            encoding: "utf-8"@,
            suggested_display_precision: None,
            qos: 0,
            state_class: Some("measurement"@),
            json_attributes_topic: None,
            icon: None,
            state_topic: ""@,
            unit_of_measurement: None,
            suggested_unit_of_measurement: None,
            device: None,
            expires_after: None,
        }
    }
}

impl View for MQTTDiscoverySensor {
    type V = SensorView;

    open spec fn view(&self) -> SensorView {
        SensorView {
            unique_id: chars_of(self.unique_id),
            object_id: chars_of(self.object_id),
            name: opt_chars(self.name),
            availability: entry_views(self.availability@),
            device_class: opt_chars(self.device_class),
            options: match self.options {
                Some(l) => Some(list_chars(l@)),
                None => None,
            },
            enabled_by_default: self.enabled_by_default,
            encoding: chars_of(self.encoding),
            suggested_display_precision: self.suggested_display_precision,
            qos: self.qos,
            state_class: opt_chars(self.state_class),
            json_attributes_topic: opt_chars(self.json_attributes_topic),
            icon: opt_chars(self.icon),
            state_topic: chars_of(self.state_topic),
            unit_of_measurement: opt_chars(self.unit_of_measurement),
            suggested_unit_of_measurement: opt_chars(self.suggested_unit_of_measurement),
            device: opt_device_view(self.device),
            expires_after: self.expires_after,
        }
    }
}

impl Default for MQTTDiscoverySensor {
    fn default() -> (r: Self)
        ensures
            r@ == SensorView::initial(),
    {
        let r = MQTTDiscoverySensor {
            unique_id: CompactString::from(""),
            object_id: CompactString::from(""),
            name: None,
            availability: Vec::new(),
            device_class: None,
            enabled_by_default: true,
            encoding: CompactString::from("utf-8"),
            suggested_display_precision: None,
            options: None,
            qos: 0,
            state_class: Some(CompactString::from("measurement")),
            json_attributes_topic: None,
            icon: None,
            state_topic: CompactString::from(""),
            unit_of_measurement: None,
            suggested_unit_of_measurement: None,
            device: None,
            expires_after: None,
        };
        assert(r@.availability =~= Seq::empty());
        r
    }
}

/// The discovery document of a binary sensor.
#[derive(Debug)]
pub struct MQTTDiscoveryBinarySensor {
    pub unique_id: CompactString,
    pub object_id: CompactString,
    pub name: Option<CompactString>,
    pub availability: Vec<MQTTDiscoveryAvailabilityEntry>,
    pub device_class: Option<CompactString>,
    pub enabled_by_default: bool,
    pub encoding: CompactString,
    pub suggested_display_precision: Option<u16>,
    pub qos: u8,
    pub json_attributes_topic: Option<CompactString>,
    pub icon: Option<CompactString>,
    /// The topic that carries the state of the sensor.
    pub state_topic: CompactString,
    pub payload_on: Option<CompactString>,
    pub payload_off: Option<CompactString>,
    pub device: Option<MQTTDiscoveryDevice>,
}

/// A binary sensor document as contracts see it.
pub struct BinarySensorView {
    pub unique_id: Seq<char>,
    pub object_id: Seq<char>,
    pub name: Option<Seq<char>>,
    pub availability: Seq<AvailabilityEntryView>,
    pub device_class: Option<Seq<char>>,
    pub enabled_by_default: bool,
    pub encoding: Seq<char>,
    pub suggested_display_precision: Option<u16>,
    pub qos: u8,
    pub json_attributes_topic: Option<Seq<char>>,
    pub icon: Option<Seq<char>>,
    pub state_topic: Seq<char>,
    pub payload_on: Option<Seq<char>>,
    pub payload_off: Option<Seq<char>>,
    pub device: Option<DiscoveryDeviceView>,
}

impl BinarySensorView {
    /// The document that every binary sensor starts from: enabled, encoded as
    /// UTF-8, with no name, topic or device yet.
    pub open spec fn initial() -> BinarySensorView {
        BinarySensorView {
            unique_id: ""@,
            object_id: ""@,
            name: None,
            availability: Seq::empty(),
            device_class: None,
            enabled_by_default: true,
            encoding: "utf-8"@,
            suggested_display_precision: None,
            qos: 0,
            json_attributes_topic: None,
            icon: None,
            state_topic: ""@,
            payload_on: None,
            payload_off: None,
            device: None,
        }
    }
}

impl View for MQTTDiscoveryBinarySensor {
    type V = BinarySensorView;

    open spec fn view(&self) -> BinarySensorView {
        BinarySensorView {
            unique_id: chars_of(self.unique_id),
            object_id: chars_of(self.object_id),
            name: opt_chars(self.name),
            availability: entry_views(self.availability@),
            device_class: opt_chars(self.device_class),
            enabled_by_default: self.enabled_by_default,
            encoding: chars_of(self.encoding),
            suggested_display_precision: self.suggested_display_precision,
            qos: self.qos,
            json_attributes_topic: opt_chars(self.json_attributes_topic),
            icon: opt_chars(self.icon),
            state_topic: chars_of(self.state_topic),
            payload_on: opt_chars(self.payload_on),
            payload_off: opt_chars(self.payload_off),
            device: opt_device_view(self.device),
        }
    }
}

impl Default for MQTTDiscoveryBinarySensor {
    fn default() -> (r: Self)
        ensures
            r@ == BinarySensorView::initial(),
    {
        let r = MQTTDiscoveryBinarySensor {
            unique_id: CompactString::from(""),
            object_id: CompactString::from(""),
            name: None,
            availability: Vec::new(),
            device_class: None,
            enabled_by_default: true,
            encoding: CompactString::from("utf-8"),
            suggested_display_precision: None,
            qos: 0,
            json_attributes_topic: None,
            icon: None,
            state_topic: CompactString::from(""),
            payload_on: None,
            payload_off: None,
            device: None,
        };
        assert(r@.availability =~= Seq::empty());
        r
    }
}

} // verus!
