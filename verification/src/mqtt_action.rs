//! What the bridge asks of its MQTT connection.
use crate::device::{BinarySensorView, MQTTDiscoveryBinarySensor, MQTTDiscoverySensor, SensorView};
use crate::drive::{DriveAttributes, DriveAttributesView};
use crate::float32::Float32;
use rumqttc::v5::mqttbytes::v5::{PublishProperties, SubscribeProperties, UnsubscribeProperties};
use vstd::prelude::*;

verus! {

/// `rumqttc`'s properties of a publish packet. The bridge sets none; a value
/// is carried through as it is.
#[verifier::external_type_specification]
#[verifier::external_body]
pub struct ExPublishProperties(PublishProperties);

/// `rumqttc`'s properties of a subscribe packet, carried through as they are.
#[verifier::external_type_specification]
#[verifier::external_body]
pub struct ExSubscribeProperties(SubscribeProperties);

/// `rumqttc`'s properties of an unsubscribe packet, carried through as they
/// are.
#[verifier::external_type_specification]
#[verifier::external_body]
pub struct ExUnsubscribeProperties(UnsubscribeProperties);

/// How hard the broker tries to deliver a message.
#[derive(Debug, Clone, Copy, PartialEq, Eq, Structural)]
pub enum QoS {
    AtMostOnce,
    AtLeastOnce,
    ExactlyOnce,
}

impl QoS {
    /// The level as MQTT numbers it.
    pub open spec fn spec_level(self) -> u8 {
        match self {
            QoS::AtMostOnce => 0,
            QoS::AtLeastOnce => 1,
            QoS::ExactlyOnce => 2,
        }
    }

    /// The level as MQTT numbers it: 0, 1 or 2.
    pub fn level(&self) -> (r: u8)
        ensures
            r == self.spec_level(),
    {
        match self {
            QoS::AtMostOnce => 0,
            QoS::AtLeastOnce => 1,
            QoS::ExactlyOnce => 2,
        }
    }
}

/// What a message carries, before it is put into bytes.
#[derive(Debug)]
pub enum Payload {
    /// Plain text, sent as its UTF-8 bytes.
    Text(String),
    /// A number, sent as its shortest decimal form.
    Number(Float32),
    /// A sensor document, sent as a JSON object.
    Sensor(MQTTDiscoverySensor),
    /// A binary sensor document, sent as a JSON object.
    BinarySensor(MQTTDiscoveryBinarySensor),
    /// Drive attributes, sent as a JSON object.
    Attributes(DriveAttributes),
}

/// A payload as contracts see it.
pub enum PayloadView {
    Text(Seq<char>),
    Number(Float32),
    Sensor(SensorView),
    BinarySensor(BinarySensorView),
    Attributes(DriveAttributesView),
}

impl View for Payload {
    type V = PayloadView;

    open spec fn view(&self) -> PayloadView {
        match self {
            Payload::Text(t) => PayloadView::Text(t@),
            Payload::Number(n) => PayloadView::Number(*n),
            Payload::Sensor(s) => PayloadView::Sensor(s@),
            Payload::BinarySensor(s) => PayloadView::BinarySensor(s@),
            Payload::Attributes(a) => PayloadView::Attributes(a@),
        }
    }
}

/// One request to the MQTT connection.
#[allow(inconsistent_fields)]
#[derive(Debug)]
pub enum MQTTAction {
    Publish { topic: String, qos: QoS, retain: bool, payload: Payload, props: Option<PublishProperties> },
    Subscribe { topic: String, qos: QoS, props: Option<SubscribeProperties> },
    Unsubscribe { topic: String, props: Option<UnsubscribeProperties> },
}

/// A request as contracts see it.
#[allow(inconsistent_fields)]
pub enum MQTTActionView {
    Publish {
        topic: Seq<char>,
        qos: QoS,
        retain: bool,
        payload: PayloadView,
        props: Option<PublishProperties>,
    },
    Subscribe { topic: Seq<char>, qos: QoS, props: Option<SubscribeProperties> },
    Unsubscribe { topic: Seq<char>, props: Option<UnsubscribeProperties> },
}

impl View for MQTTAction {
    type V = MQTTActionView;

    open spec fn view(&self) -> MQTTActionView {
        match self {
            MQTTAction::Publish { topic, qos, retain, payload, props } => MQTTActionView::Publish {
                topic: topic@,
                qos: *qos,
                retain: *retain,
                payload: payload@,
                props: *props,
            },
            MQTTAction::Subscribe { topic, qos, props } => MQTTActionView::Subscribe {
                topic: topic@,
                qos: *qos,
                props: *props,
            },
            MQTTAction::Unsubscribe { topic, props } => MQTTActionView::Unsubscribe {
                topic: topic@,
                props: *props,
            },
        }
    }
}

/// The views of a list of requests.
pub open spec fn action_views(l: Seq<MQTTAction>) -> Seq<MQTTActionView> {
    l.map_values(|a: MQTTAction| a@)
}

/// A publish request without properties.
pub open spec fn publish(topic: Seq<char>, qos: QoS, retain: bool, payload: PayloadView) -> MQTTActionView {
    MQTTActionView::Publish { topic, qos, retain, payload, props: None }
}

/// A publish request of plain text, without properties.
pub open spec fn publish_text(topic: Seq<char>, qos: QoS, retain: bool, text: Seq<char>) -> MQTTActionView {
    publish(topic, qos, retain, PayloadView::Text(text))
}

impl MQTTAction {
    /// The request to publish `payload` under `topic`, without properties.
    pub fn publish(topic: String, qos: QoS, retain: bool, payload: Payload) -> (r: MQTTAction)
        ensures
            r@ == publish(topic@, qos, retain, payload@),
    {
        MQTTAction::Publish { topic, qos, retain, payload, props: None }
    }
}

/// The message that the broker publishes for the bridge once the connection
/// is lost.
#[derive(Debug)]
pub struct LastWill {
    pub topic: String,
    pub message: String,
    pub qos: QoS,
    pub retain: bool,
}

/// A last will as contracts see it.
pub struct LastWillView {
    pub topic: Seq<char>,
    pub message: Seq<char>,
    pub qos: QoS,
    pub retain: bool,
}

impl View for LastWill {
    type V = LastWillView;

    open spec fn view(&self) -> LastWillView {
        LastWillView {
            topic: self.topic@,
            message: self.message@,
            qos: self.qos,
            retain: self.retain,
        }
    }
}

} // verus!
