//! What is published about a drive besides its state.
use crate::float32::Float32;
use vstd::prelude::*;

verus! {

/// The attributes of a drive: its mode as a token, its setpoint, the channel
/// it is tied to and whether an open lid has paused it.
#[derive(Debug)]
pub struct DriveAttributes {
    pub modetype: String,
    pub setpoint: Float32,
    pub tiedchannel: usize,
    pub lid_paused: bool,
}

/// Drive attributes as contracts see them.
pub struct DriveAttributesView {
    pub modetype: Seq<char>,
    pub setpoint: Float32,
    pub tiedchannel: nat,
    pub lid_paused: bool,
}

impl View for DriveAttributes {
    type V = DriveAttributesView;

    open spec fn view(&self) -> DriveAttributesView {
        DriveAttributesView {
            modetype: self.modetype@,
            setpoint: self.setpoint,
            tiedchannel: self.tiedchannel as nat,
            lid_paused: self.lid_paused,
        }
    }
}

} // verus!
