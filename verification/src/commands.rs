//! The registry of 32-bit command codes.
//!
//! Command codes live in a namespace of their own, distinct from the 8-bit
//! frame tags: they appear only inside `Command`-tagged payloads and are
//! always a full 32-bit word on the wire.  Decoding is total: every code the
//! registry does not know falls back to `Invalid`.

use vstd::prelude::*;

verus! {

/// A named protocol command: UI buttons, audio routing, night mode, wifi
/// band selection and device-pairing lifecycle events.
///
/// `Invalid` doubles as the fallback for unrecognised codes; its own wire
/// code is 0, so a literal 0 on the wire cannot be told apart from an
/// unknown code, an ambiguity inherited from the protocol itself.
#[derive(Debug, Clone, Copy, PartialEq, Eq, Structural)]
pub enum CommandMapping {
    Invalid,
    StartRecordAudio,
    StopRecordAudio,
    RequestHostUI,
    Siri,
    Mic,
    Frame,
    BoxMic,
    EnableNightMode,
    DisableNightMode,
    AudioTransferOn,
    AudioTransferOff,
    Wifi24g,
    Wifi5g,
    Left,
    Right,
    SelectDown,
    SelectUp,
    Back,
    Up,
    Down,
    Home,
    Play,
    Pause,
    PlayOrPause,
    Next,
    Prev,
    AcceptPhone,
    RejectPhone,
    RequestVideoFocus,
    ReleaseVideoFocus,
    WifiEnable,
    AutoConnectEnable,
    WifiConnect,
    ScanningDevice,
    DeviceFound,
    DeviceNotFound,
    ConnectDeviceFailed,
    BtConnected,
    BtDisconnected,
    WifiConnected,
    WifiDisconnected,
    BtPairStart,
    WifiPair,
}

impl CommandMapping {
    /// The 32-bit code this command is written as on the wire.
    pub open spec fn spec_code(self) -> u32 {
        match self {
            CommandMapping::Invalid => 0,
            CommandMapping::StartRecordAudio => 1,
            CommandMapping::StopRecordAudio => 2,
            CommandMapping::RequestHostUI => 3,
            CommandMapping::Siri => 5,
            CommandMapping::Mic => 7,
            CommandMapping::Frame => 12,
            CommandMapping::BoxMic => 15,
            CommandMapping::EnableNightMode => 16,
            CommandMapping::DisableNightMode => 17,
            CommandMapping::AudioTransferOn => 22,
            CommandMapping::AudioTransferOff => 23,
            CommandMapping::Wifi24g => 24,
            CommandMapping::Wifi5g => 25,
            CommandMapping::Left => 100,
            CommandMapping::Right => 101,
            CommandMapping::SelectDown => 104,
            CommandMapping::SelectUp => 105,
            CommandMapping::Back => 106,
            CommandMapping::Up => 113,
            CommandMapping::Down => 114,
            CommandMapping::Home => 200,
            CommandMapping::Play => 201,
            CommandMapping::Pause => 202,
            CommandMapping::PlayOrPause => 203,
            CommandMapping::Next => 204,
            CommandMapping::Prev => 205,
            CommandMapping::AcceptPhone => 300,
            CommandMapping::RejectPhone => 301,
            CommandMapping::RequestVideoFocus => 500,
            CommandMapping::ReleaseVideoFocus => 501,
            CommandMapping::WifiEnable => 1000,
            CommandMapping::AutoConnectEnable => 1001,
            CommandMapping::WifiConnect => 1002,
            CommandMapping::ScanningDevice => 1003,
            CommandMapping::DeviceFound => 1004,
            CommandMapping::DeviceNotFound => 1005,
            CommandMapping::ConnectDeviceFailed => 1006,
            CommandMapping::BtConnected => 1007,
            CommandMapping::BtDisconnected => 1008,
            CommandMapping::WifiConnected => 1009,
            CommandMapping::WifiDisconnected => 1010,
            CommandMapping::BtPairStart => 1011,
            CommandMapping::WifiPair => 1012,
        }
    }

    /// The command a 32-bit code resolves to; codes outside the named set
    /// fall back to `Invalid`.
    pub open spec fn spec_from_u32(value: u32) -> CommandMapping {
        match value {
            0 => CommandMapping::Invalid,
            1 => CommandMapping::StartRecordAudio,
            2 => CommandMapping::StopRecordAudio,
            3 => CommandMapping::RequestHostUI,
            5 => CommandMapping::Siri,
            7 => CommandMapping::Mic,
            12 => CommandMapping::Frame,
            15 => CommandMapping::BoxMic,
            16 => CommandMapping::EnableNightMode,
            17 => CommandMapping::DisableNightMode,
            22 => CommandMapping::AudioTransferOn,
            23 => CommandMapping::AudioTransferOff,
            24 => CommandMapping::Wifi24g,
            25 => CommandMapping::Wifi5g,
            100 => CommandMapping::Left,
            101 => CommandMapping::Right,
            104 => CommandMapping::SelectDown,
            105 => CommandMapping::SelectUp,
            106 => CommandMapping::Back,
            113 => CommandMapping::Up,
            114 => CommandMapping::Down,
            200 => CommandMapping::Home,
            201 => CommandMapping::Play,
            202 => CommandMapping::Pause,
            203 => CommandMapping::PlayOrPause,
            204 => CommandMapping::Next,
            205 => CommandMapping::Prev,
            300 => CommandMapping::AcceptPhone,
            301 => CommandMapping::RejectPhone,
            500 => CommandMapping::RequestVideoFocus,
            501 => CommandMapping::ReleaseVideoFocus,
            1000 => CommandMapping::WifiEnable,
            1001 => CommandMapping::AutoConnectEnable,
            1002 => CommandMapping::WifiConnect,
            1003 => CommandMapping::ScanningDevice,
            1004 => CommandMapping::DeviceFound,
            1005 => CommandMapping::DeviceNotFound,
            1006 => CommandMapping::ConnectDeviceFailed,
            1007 => CommandMapping::BtConnected,
            1008 => CommandMapping::BtDisconnected,
            1009 => CommandMapping::WifiConnected,
            1010 => CommandMapping::WifiDisconnected,
            1011 => CommandMapping::BtPairStart,
            1012 => CommandMapping::WifiPair,
            _ => CommandMapping::Invalid,
        }
    }

    /// The 32-bit code this command is written as on the wire.
    pub fn code(&self) -> (r: u32)
        ensures
            r == self.spec_code(),
    {
        match self {
            CommandMapping::Invalid => 0,
            CommandMapping::StartRecordAudio => 1,
            CommandMapping::StopRecordAudio => 2,
            CommandMapping::RequestHostUI => 3,
            CommandMapping::Siri => 5,
            CommandMapping::Mic => 7,
            CommandMapping::Frame => 12,
            CommandMapping::BoxMic => 15,
            CommandMapping::EnableNightMode => 16,
            CommandMapping::DisableNightMode => 17,
            CommandMapping::AudioTransferOn => 22,
            CommandMapping::AudioTransferOff => 23,
            CommandMapping::Wifi24g => 24,
            CommandMapping::Wifi5g => 25,
            CommandMapping::Left => 100,
            CommandMapping::Right => 101,
            CommandMapping::SelectDown => 104,
            CommandMapping::SelectUp => 105,
            CommandMapping::Back => 106,
            CommandMapping::Up => 113,
            CommandMapping::Down => 114,
            CommandMapping::Home => 200,
            CommandMapping::Play => 201,
            CommandMapping::Pause => 202,
            CommandMapping::PlayOrPause => 203,
            CommandMapping::Next => 204,
            CommandMapping::Prev => 205,
            CommandMapping::AcceptPhone => 300,
            CommandMapping::RejectPhone => 301,
            CommandMapping::RequestVideoFocus => 500,
            CommandMapping::ReleaseVideoFocus => 501,
            CommandMapping::WifiEnable => 1000,
            CommandMapping::AutoConnectEnable => 1001,
            CommandMapping::WifiConnect => 1002,
            CommandMapping::ScanningDevice => 1003,
            CommandMapping::DeviceFound => 1004,
            CommandMapping::DeviceNotFound => 1005,
            CommandMapping::ConnectDeviceFailed => 1006,
            CommandMapping::BtConnected => 1007,
            CommandMapping::BtDisconnected => 1008,
            CommandMapping::WifiConnected => 1009,
            CommandMapping::WifiDisconnected => 1010,
            CommandMapping::BtPairStart => 1011,
            CommandMapping::WifiPair => 1012,
        }
    }
}

impl From<u32> for CommandMapping {
    fn from(value: u32) -> (r: Self) {
        match value {
            0 => CommandMapping::Invalid,
            1 => CommandMapping::StartRecordAudio,
            2 => CommandMapping::StopRecordAudio,
            3 => CommandMapping::RequestHostUI,
            5 => CommandMapping::Siri,
            7 => CommandMapping::Mic,
            12 => CommandMapping::Frame,
            15 => CommandMapping::BoxMic,
            16 => CommandMapping::EnableNightMode,
            17 => CommandMapping::DisableNightMode,
            22 => CommandMapping::AudioTransferOn,
            23 => CommandMapping::AudioTransferOff,
            24 => CommandMapping::Wifi24g,
            25 => CommandMapping::Wifi5g,
            100 => CommandMapping::Left,
            101 => CommandMapping::Right,
            104 => CommandMapping::SelectDown,
            105 => CommandMapping::SelectUp,
            106 => CommandMapping::Back,
            113 => CommandMapping::Up,
            114 => CommandMapping::Down,
            200 => CommandMapping::Home,
            201 => CommandMapping::Play,
            202 => CommandMapping::Pause,
            203 => CommandMapping::PlayOrPause,
            204 => CommandMapping::Next,
            205 => CommandMapping::Prev,
            300 => CommandMapping::AcceptPhone,
            301 => CommandMapping::RejectPhone,
            500 => CommandMapping::RequestVideoFocus,
            501 => CommandMapping::ReleaseVideoFocus,
            1000 => CommandMapping::WifiEnable,
            1001 => CommandMapping::AutoConnectEnable,
            1002 => CommandMapping::WifiConnect,
            1003 => CommandMapping::ScanningDevice,
            1004 => CommandMapping::DeviceFound,
            1005 => CommandMapping::DeviceNotFound,
            1006 => CommandMapping::ConnectDeviceFailed,
            1007 => CommandMapping::BtConnected,
            1008 => CommandMapping::BtDisconnected,
            1009 => CommandMapping::WifiConnected,
            1010 => CommandMapping::WifiDisconnected,
            1011 => CommandMapping::BtPairStart,
            1012 => CommandMapping::WifiPair,
            _ => CommandMapping::Invalid,
        }
    }
}

impl vstd::std_specs::convert::FromSpecImpl<u32> for CommandMapping {
    open spec fn obeys_from_spec() -> bool {
        true
    }

    open spec fn from_spec(v: u32) -> CommandMapping {
        CommandMapping::spec_from_u32(v)
    }
}

impl From<CommandMapping> for u32 {
    #[verifier::rlimit(30)]
    fn from(cmd: CommandMapping) -> (r: u32) {
        match cmd {
            CommandMapping::Invalid => 0,
            CommandMapping::StartRecordAudio => 1,
            CommandMapping::StopRecordAudio => 2,
            CommandMapping::RequestHostUI => 3,
            CommandMapping::Siri => 5,
            CommandMapping::Mic => 7,
            CommandMapping::Frame => 12,
            CommandMapping::BoxMic => 15,
            CommandMapping::EnableNightMode => 16,
            CommandMapping::DisableNightMode => 17,
            CommandMapping::AudioTransferOn => 22,
            CommandMapping::AudioTransferOff => 23,
            CommandMapping::Wifi24g => 24,
            CommandMapping::Wifi5g => 25,
            CommandMapping::Left => 100,
            CommandMapping::Right => 101,
            CommandMapping::SelectDown => 104,
            CommandMapping::SelectUp => 105,
            CommandMapping::Back => 106,
            CommandMapping::Up => 113,
            CommandMapping::Down => 114,
            CommandMapping::Home => 200,
            CommandMapping::Play => 201,
            CommandMapping::Pause => 202,
            CommandMapping::PlayOrPause => 203,
            CommandMapping::Next => 204,
            CommandMapping::Prev => 205,
            CommandMapping::AcceptPhone => 300,
            CommandMapping::RejectPhone => 301,
            CommandMapping::RequestVideoFocus => 500,
            CommandMapping::ReleaseVideoFocus => 501,
            CommandMapping::WifiEnable => 1000,
            CommandMapping::AutoConnectEnable => 1001,
            CommandMapping::WifiConnect => 1002,
            CommandMapping::ScanningDevice => 1003,
            CommandMapping::DeviceFound => 1004,
            CommandMapping::DeviceNotFound => 1005,
            CommandMapping::ConnectDeviceFailed => 1006,
            CommandMapping::BtConnected => 1007,
            CommandMapping::BtDisconnected => 1008,
            CommandMapping::WifiConnected => 1009,
            CommandMapping::WifiDisconnected => 1010,
            CommandMapping::BtPairStart => 1011,
            CommandMapping::WifiPair => 1012,
        }
    }
}

impl vstd::std_specs::convert::FromSpecImpl<CommandMapping> for u32 {
    open spec fn obeys_from_spec() -> bool {
        true
    }

    open spec fn from_spec(v: CommandMapping) -> u32 {
        v.spec_code()
    }
}

/// Command round trip: every named command survives encoding to its wire
/// code and decoding back.  Unnamed codes are not injective the other way
/// around: they all decode to `Invalid`, whose own code is 0.
pub proof fn lemma_command_round_trip(cmd: CommandMapping)
    ensures
        CommandMapping::spec_from_u32(cmd.spec_code()) == cmd,
{
}

} // verus!
