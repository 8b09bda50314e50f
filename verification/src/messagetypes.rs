//! The registry of frame type tags.
//!
//! Every frame carries an 8-bit tag that names its kind.  Tags the registry
//! does not know decode to `Unknown` with the raw tag preserved, so decoding
//! is total and encoding gives the original byte back for the whole 0..=255
//! tag space.

use vstd::prelude::*;

verus! {

/// The kind of a frame, as named by the low byte of the header's type field.
///
/// The numeric tag is the wire identity; the name is cosmetic.  `Unknown`
/// carries any tag outside the named set, so no byte value is rejected.
#[derive(Debug, Clone, Copy, PartialEq, Eq, Structural)]
pub enum MessageType {
    Open,
    Plugged,
    Phase,
    Unplugged,
    Touch,
    VideoData,
    AudioData,
    Command,
    LogoType,
    BluetoothAddress,
    BluetoothPIN,
    BluetoothDeviceName,
    WifiDeviceName,
    DisconnectPhone,
    BluetoothPairedList,
    ManufacturerInfo,
    CloseDongle,
    MultiTouch,
    HiCarLink,
    BoxSettings,
    MediaData,
    SendFile,
    HeartBeat,
    SoftwareVersion,
    Unknown(u8),
}

impl MessageType {
    /// The 32-bit code written into a header's type field for this tag.
    /// Always fits in the low byte.
    pub open spec fn spec_code(self) -> u32 {
        match self {
            MessageType::Open => 0x01,
            MessageType::Plugged => 0x02,
            MessageType::Phase => 0x03,
            MessageType::Unplugged => 0x04,
            MessageType::Touch => 0x05,
            MessageType::VideoData => 0x06,
            MessageType::AudioData => 0x07,
            MessageType::Command => 0x08,
            MessageType::LogoType => 0x09,
            MessageType::BluetoothAddress => 0x0a,
            MessageType::BluetoothPIN => 0x0c,
            MessageType::BluetoothDeviceName => 0x0d,
            MessageType::WifiDeviceName => 0x0e,
            MessageType::DisconnectPhone => 0x0f,
            MessageType::BluetoothPairedList => 0x12,
            MessageType::ManufacturerInfo => 0x14,
            MessageType::CloseDongle => 0x15,
            MessageType::MultiTouch => 0x17,
            MessageType::HiCarLink => 0x18,
            MessageType::BoxSettings => 0x19,
            MessageType::MediaData => 0x2a,
            MessageType::SendFile => 0x99,
            MessageType::HeartBeat => 0xaa,
            MessageType::SoftwareVersion => 0xcc,
            MessageType::Unknown(code) => code as u32,
        }
    }

    /// The tag a byte resolves to: the named kind where one exists,
    /// `Unknown(value)` otherwise.
    pub open spec fn spec_from_u8(value: u8) -> MessageType {
        match value {
            0x01 => MessageType::Open,
            0x02 => MessageType::Plugged,
            0x03 => MessageType::Phase,
            0x04 => MessageType::Unplugged,
            0x05 => MessageType::Touch,
            0x06 => MessageType::VideoData,
            0x07 => MessageType::AudioData,
            0x08 => MessageType::Command,
            0x09 => MessageType::LogoType,
            0x0a => MessageType::BluetoothAddress,
            0x0c => MessageType::BluetoothPIN,
            0x0d => MessageType::BluetoothDeviceName,
            0x0e => MessageType::WifiDeviceName,
            0x0f => MessageType::DisconnectPhone,
            0x12 => MessageType::BluetoothPairedList,
            0x14 => MessageType::ManufacturerInfo,
            0x15 => MessageType::CloseDongle,
            0x17 => MessageType::MultiTouch,
            0x18 => MessageType::HiCarLink,
            0x19 => MessageType::BoxSettings,
            0x2a => MessageType::MediaData,
            0x99 => MessageType::SendFile,
            0xaa => MessageType::HeartBeat,
            0xcc => MessageType::SoftwareVersion,
            _ => MessageType::Unknown(value),
        }
    }

    /// The 32-bit code written into a header's type field for this tag.
    pub fn code(&self) -> (r: u32)
        ensures
            r == self.spec_code(),
    {
        match self {
            MessageType::Open => 0x01,
            MessageType::Plugged => 0x02,
            MessageType::Phase => 0x03,
            MessageType::Unplugged => 0x04,
            MessageType::Touch => 0x05,
            MessageType::VideoData => 0x06,
            MessageType::AudioData => 0x07,
            MessageType::Command => 0x08,
            MessageType::LogoType => 0x09,
            MessageType::BluetoothAddress => 0x0a,
            MessageType::BluetoothPIN => 0x0c,
            MessageType::BluetoothDeviceName => 0x0d,
            MessageType::WifiDeviceName => 0x0e,
            MessageType::DisconnectPhone => 0x0f,
            MessageType::BluetoothPairedList => 0x12,
            MessageType::ManufacturerInfo => 0x14,
            MessageType::CloseDongle => 0x15,
            MessageType::MultiTouch => 0x17,
            MessageType::HiCarLink => 0x18,
            MessageType::BoxSettings => 0x19,
            MessageType::MediaData => 0x2a,
            MessageType::SendFile => 0x99,
            MessageType::HeartBeat => 0xaa,
            MessageType::SoftwareVersion => 0xcc,
            MessageType::Unknown(code) => *code as u32,
        }
    }
}

impl From<u8> for MessageType {
    fn from(value: u8) -> (r: Self) {
        match value {
            0x01 => MessageType::Open,
            0x02 => MessageType::Plugged,
            0x03 => MessageType::Phase,
            0x04 => MessageType::Unplugged,
            0x05 => MessageType::Touch,
            0x06 => MessageType::VideoData,
            0x07 => MessageType::AudioData,
            0x08 => MessageType::Command,
            0x09 => MessageType::LogoType,
            0x0a => MessageType::BluetoothAddress,
            0x0c => MessageType::BluetoothPIN,
            0x0d => MessageType::BluetoothDeviceName,
            0x0e => MessageType::WifiDeviceName,
            0x0f => MessageType::DisconnectPhone,
            0x12 => MessageType::BluetoothPairedList,
            0x14 => MessageType::ManufacturerInfo,
            0x15 => MessageType::CloseDongle,
            0x17 => MessageType::MultiTouch,
            0x18 => MessageType::HiCarLink,
            0x19 => MessageType::BoxSettings,
            0x2a => MessageType::MediaData,
            0x99 => MessageType::SendFile,
            0xaa => MessageType::HeartBeat,
            0xcc => MessageType::SoftwareVersion,
            other => MessageType::Unknown(other),
        }
    }
}

impl vstd::std_specs::convert::FromSpecImpl<u8> for MessageType {
    open spec fn obeys_from_spec() -> bool {
        true
    }

    open spec fn from_spec(v: u8) -> MessageType {
        MessageType::spec_from_u8(v)
    }
}

impl From<MessageType> for u32 {
    #[verifier::rlimit(30)]
    fn from(msg: MessageType) -> (r: u32) {
        match msg {
            MessageType::Open => 0x01,
            MessageType::Plugged => 0x02,
            MessageType::Phase => 0x03,
            MessageType::Unplugged => 0x04,
            MessageType::Touch => 0x05,
            MessageType::VideoData => 0x06,
            MessageType::AudioData => 0x07,
            MessageType::Command => 0x08,
            MessageType::LogoType => 0x09,
            MessageType::BluetoothAddress => 0x0a,
            MessageType::BluetoothPIN => 0x0c,
            MessageType::BluetoothDeviceName => 0x0d,
            MessageType::WifiDeviceName => 0x0e,
            MessageType::DisconnectPhone => 0x0f,
            MessageType::BluetoothPairedList => 0x12,
            MessageType::ManufacturerInfo => 0x14,
            MessageType::CloseDongle => 0x15,
            MessageType::MultiTouch => 0x17,
            MessageType::HiCarLink => 0x18,
            MessageType::BoxSettings => 0x19,
            MessageType::MediaData => 0x2a,
            MessageType::SendFile => 0x99,
            MessageType::HeartBeat => 0xaa,
            MessageType::SoftwareVersion => 0xcc,
            MessageType::Unknown(code) => code as u32,
        }
    }
}

impl vstd::std_specs::convert::FromSpecImpl<MessageType> for u32 {
    open spec fn obeys_from_spec() -> bool {
        true
    }

    open spec fn from_spec(v: MessageType) -> u32 {
        v.spec_code()
    }
}

/// Tag round trip over the whole 8-bit tag space: resolving a byte and
/// encoding the result gives the byte back, whether or not the byte names
/// a known kind.
pub proof fn lemma_tag_round_trip(tag: u8)
    ensures
        MessageType::spec_from_u8(tag).spec_code() == tag as u32,
{
}

} // verus!
