//! The verified core of a bridge that polls the FireBoard cloud for device
//! telemetry and republishes it over MQTT, with Home Assistant discovery.
//!
//! The crate decides what is published and when: topic names, availability,
//! discovery documents, state values and the pause between two polls. It does
//! no input or output of its own. A driver fetches the devices, hands them to
//! [`fireboard_watcher::FireboardWatcher::update`] as events, and carries out
//! what comes back: it publishes the messages and then fetches or sleeps.
//!
//! - [`topics`] names the topics and proves the naming injective.
//! - [`discovery`] says what the discovery documents of a device hold.
//! - [`cycle`] says what is online, what a device and its drive publish, how
//!   long the bridge sleeps, and how one step of the cycle follows another.
//! - [`fireboard_watcher`] computes all of these.
//! - [`fireboard_api`], [`device`], [`drive`], [`mqtt_action`] and [`config`]
//!   hold the data; [`float32`], [`utils`], [`time`] and [`text`] the numbers,
//!   instants and strings that they are made of.
//!
//! Numbers with a fraction are carried as IEEE 754 bit patterns and read with
//! integer arithmetic. Payloads stay values until the driver puts them into
//! bytes.
pub mod config;
pub mod constants;
pub mod cycle;
pub mod device;
pub mod discovery;
pub mod drive;
pub mod fireboard_api;
pub mod fireboard_watcher;
pub mod float32;
pub mod mqtt_action;
pub mod text;
pub mod time;
pub mod topics;
pub mod utils;
