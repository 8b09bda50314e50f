//! The driver-side configuration model, the known device identities, and
//! the fixed startup handshake.
//!
//! The session itself — device discovery, endpoint claiming and the two
//! transfer loops — is USB work and lives outside the crate.  What lives
//! here is everything the session decides from plain values: which devices
//! count as a dongle, and exactly which frames the handshake sends, in
//! which order.

use vstd::prelude::*;
use vstd::bytes::spec_u32_to_le_bytes;
use vstd::utf8::encode_utf8;
use crate::commands::CommandMapping;
use crate::messagetypes::MessageType;
use crate::sendable::FileAddress;
use crate::sendable::HeartBeat;
use crate::sendable::SendBoolean;
use crate::sendable::SendBoxSettings;
use crate::sendable::SendCommand;
use crate::sendable::SendNumber;
use crate::sendable::SendOpen;
use crate::sendable::SendString;
use crate::sendable::SendableMessage;
use crate::sendable::lemma_path_bytes;
use crate::sendable::spec_box_settings_payload;
use crate::sendable::spec_command_payload;
use crate::sendable::spec_file_payload;
use crate::sendable::spec_frame;
use crate::sendable::spec_open_payload;

verus! {

/// Which side of the car the wheel is on; the code is what goes to the
/// device file.
#[derive(Debug, Clone, Copy, PartialEq, Eq, Structural)]
pub enum HandDriveType {
    Lhd,
    Rhd,
}

impl HandDriveType {
    /// The word written to the hand-drive device file.
    pub open spec fn spec_code(self) -> u32 {
        match self {
            HandDriveType::Lhd => 0,
            HandDriveType::Rhd => 1,
        }
    }

    pub fn code(&self) -> (r: u32)
        ensures
            r == self.spec_code(),
    {
        match self {
            HandDriveType::Lhd => 0,
            HandDriveType::Rhd => 1,
        }
    }
}

/// The kind of phone a per-phone tuning entry applies to.
#[derive(Debug, Clone, Copy, PartialEq, Eq, Hash, Structural)]
pub enum PhoneType {
    AndroidMirror,
    CarPlay,
    IphoneMirror,
    AndroidAuto,
    HiCar,
}

/// Per-phone tuning: currently only an optional frame interval.
#[derive(Debug, Clone, Copy, PartialEq, Eq, Structural)]
pub struct PhoneTypeConfig {
    pub frame_interval: Option<u32>,
}

/// Which wifi band the dongle should advertise.
#[derive(Debug, Clone, Copy, PartialEq, Eq, Structural)]
pub enum WifiType {
    Ghz2_4,
    Ghz5,
}

/// Where microphone audio should come from: the dongle's own microphone
/// or the host system's.
#[derive(Debug, Clone, Copy, PartialEq, Eq, Structural)]
pub enum MicType {
    Box,
    Os,
}

/// Everything the handshake seeds the dongle with.  Created once by the
/// caller and read, never mutated, while the session runs.
///
/// `phone_config` associates each phone kind with its tuning at most once;
/// it replaces a hash map so its contents stay visible to contracts.
#[derive(Debug, Clone)]
pub struct DongleConfig {
    pub android_work_mode: Option<bool>,
    pub width: u32,
    pub height: u32,
    pub fps: u32,
    pub dpi: u32,
    pub format: u32,
    pub i_box_version: u32,
    pub packet_max: u32,
    pub phone_work_mode: u32,
    pub night_mode: bool,
    pub box_name: String,
    pub hand: HandDriveType,
    pub media_delay: u32,
    pub audio_transfer_mode: bool,
    pub wifi_type: WifiType,
    pub mic_type: MicType,
    pub phone_config: Vec<(PhoneType, PhoneTypeConfig)>,
}

impl Default for DongleConfig {
    /// The stock configuration: an 800 by 640, 20 fps session named
    /// "nodePlay", left-hand drive, 5 GHz wifi, host-side microphone, with
    /// the stock per-phone tuning for CarPlay and Android Auto.
    fn default() -> (r: Self)
        ensures
            r.android_work_mode is None,
            r.width == 800,
            r.height == 640,
            r.fps == 20,
            r.dpi == 160,
            r.format == 5,
            r.i_box_version == 2,
            r.packet_max == 49152,
            r.phone_work_mode == 2,
            r.night_mode == false,
            r.box_name@ == "nodePlay"@,
            r.hand == HandDriveType::Lhd,
            r.media_delay == 300,
            r.audio_transfer_mode == false,
            r.wifi_type == WifiType::Ghz5,
            r.mic_type == MicType::Os,
            r.phone_config@.len() == 2,
            r.phone_config@[0].0 == PhoneType::CarPlay,
            r.phone_config@[0].1.frame_interval == Some(5000u32),
            r.phone_config@[1].0 == PhoneType::AndroidAuto,
            r.phone_config@[1].1.frame_interval == None::<u32>,
    {
        let mut phone_config: Vec<(PhoneType, PhoneTypeConfig)> = Vec::new();
        phone_config.push((PhoneType::CarPlay, PhoneTypeConfig { frame_interval: Some(5000) }));
        phone_config.push((PhoneType::AndroidAuto, PhoneTypeConfig { frame_interval: None }));

        DongleConfig {
            android_work_mode: None,
            width: 800,
            height: 640,
            fps: 20,
            dpi: 160,
            format: 5,
            i_box_version: 2,
            phone_work_mode: 2,
            packet_max: 49152,
            box_name: "nodePlay".to_owned(),
            night_mode: false,
            hand: HandDriveType::Lhd,
            media_delay: 300,
            audio_transfer_mode: false,
            wifi_type: WifiType::Ghz5,
            mic_type: MicType::Os,
            phone_config,
        }
    }
}

/// A USB identity the driver recognises as a dongle.
#[derive(Debug, Clone, Copy, PartialEq, Eq, Structural)]
pub struct KnownDevice {
    pub vendor_id: u16,
    pub product_id: u16,
}

/// Whether a USB vendor/product pair names a known dongle.
pub open spec fn spec_known_device(vendor_id: u16, product_id: u16) -> bool {
    vendor_id == 0x1314 && (product_id == 0x1520 || product_id == 0x1521)
}

/// The devices the driver looks for during discovery.
pub fn known_devices() -> (r: Vec<KnownDevice>)
    ensures
        r@.len() == 2,
        forall|i: int| #![auto] 0 <= i < r@.len() ==> spec_known_device(
            r@[i].vendor_id,
            r@[i].product_id,
        ),
        r@[0].product_id == 0x1520,
        r@[1].product_id == 0x1521,
{
    let mut r: Vec<KnownDevice> = Vec::new();
    r.push(KnownDevice { vendor_id: 0x1314, product_id: 0x1520 });
    r.push(KnownDevice { vendor_id: 0x1314, product_id: 0x1521 });
    r
}

/// Whether this vendor/product pair is one the driver should claim.
pub fn matches_known_device(vendor_id: u16, product_id: u16) -> (r: bool)
    ensures
        r == spec_known_device(vendor_id, product_id),
{
    vendor_id == 0x1314 && (product_id == 0x1520 || product_id == 0x1521)
}

/// How long after the handshake the one-shot wifi-connect command is due,
/// in milliseconds.
pub const WIFI_CONNECT_DELAY_MS: u64 = 1000;

/// How often a heartbeat frame is due while the session runs, in
/// milliseconds.
pub const HEARTBEAT_INTERVAL_MS: u64 = 2000;

/// The fixed startup sequence, already serialized, in send order: screen
/// DPI, the video-session open request, night mode, hand-drive side,
/// charge mode (always on), the box name, the settings JSON, wifi enable,
/// the wifi band, the microphone source, and the audio transfer mode.
///
/// The caller writes these to the device one at a time, awaiting each
/// before the next: the device processes the open request before later
/// pushes refer to the session it creates.  `sync_time_ms` stamps the
/// settings JSON; the wifi-connect command and the heartbeat are scheduled
/// separately, after `WIFI_CONNECT_DELAY_MS` and every
/// `HEARTBEAT_INTERVAL_MS`.
pub fn handshake_frames(config: &DongleConfig, sync_time_ms: u64) -> (frames: Vec<Vec<u8>>)
    requires
        encode_utf8(config.box_name@).len() + 32 <= u32::MAX,
    ensures
        frames@.len() == 11,
        frames@[0]@ == spec_frame(
            MessageType::SendFile,
            spec_file_payload(FileAddress::Dpi.spec_path(), spec_u32_to_le_bytes(config.dpi)),
        ),
        frames@[1]@ == spec_frame(
            MessageType::Open,
            spec_open_payload(
                config.width,
                config.height,
                config.fps,
                config.format,
                config.packet_max,
                config.i_box_version,
                config.phone_work_mode,
            ),
        ),
        frames@[2]@ == spec_frame(
            MessageType::SendFile,
            spec_file_payload(
                FileAddress::NightMode.spec_path(),
                spec_u32_to_le_bytes(if config.night_mode { 1u32 } else { 0u32 }),
            ),
        ),
        frames@[3]@ == spec_frame(
            MessageType::SendFile,
            spec_file_payload(
                FileAddress::HandDriveMode.spec_path(),
                spec_u32_to_le_bytes(config.hand.spec_code()),
            ),
        ),
        frames@[4]@ == spec_frame(
            MessageType::SendFile,
            spec_file_payload(FileAddress::ChargeMode.spec_path(), spec_u32_to_le_bytes(1)),
        ),
        frames@[5]@ == spec_frame(
            MessageType::SendFile,
            spec_file_payload(FileAddress::BoxName.spec_path(), encode_utf8(config.box_name@)),
        ),
        frames@[6]@ == spec_frame(
            MessageType::BoxSettings,
            spec_box_settings_payload(
                config.media_delay,
                sync_time_ms,
                config.width,
                config.height,
            ),
        ),
        frames@[7]@ == spec_frame(
            MessageType::Command,
            spec_command_payload(CommandMapping::WifiEnable),
        ),
        frames@[8]@ == spec_frame(
            MessageType::Command,
            spec_command_payload(
                match config.wifi_type {
                    WifiType::Ghz5 => CommandMapping::Wifi5g,
                    WifiType::Ghz2_4 => CommandMapping::Wifi24g,
                },
            ),
        ),
        frames@[9]@ == spec_frame(
            MessageType::Command,
            spec_command_payload(
                match config.mic_type {
                    MicType::Box => CommandMapping::BoxMic,
                    MicType::Os => CommandMapping::Mic,
                },
            ),
        ),
        frames@[10]@ == spec_frame(
            MessageType::Command,
            spec_command_payload(
                if config.audio_transfer_mode {
                    CommandMapping::AudioTransferOn
                } else {
                    CommandMapping::AudioTransferOff
                },
            ),
        ),
{
    let mut frames: Vec<Vec<u8>> = Vec::new();

    proof {
        vstd::bytes::lemma_auto_spec_u32_to_from_le_bytes();
        lemma_path_bytes(FileAddress::Dpi);
        lemma_path_bytes(FileAddress::NightMode);
        lemma_path_bytes(FileAddress::HandDriveMode);
        lemma_path_bytes(FileAddress::ChargeMode);
        lemma_path_bytes(FileAddress::BoxName);
        crate::sendable::lemma_box_settings_payload_len(
            config.media_delay,
            sync_time_ms,
            config.width,
            config.height,
        );
    }

    frames.push(SendNumber::new(config.dpi, FileAddress::Dpi).serialize());
    frames.push(SendOpen::new(config).serialize());
    frames.push(SendBoolean::new(config.night_mode, FileAddress::NightMode).serialize());
    frames.push(SendNumber::new(config.hand.code(), FileAddress::HandDriveMode).serialize());
    frames.push(SendBoolean::new(true, FileAddress::ChargeMode).serialize());
    frames.push(SendString::new(config.box_name.clone(), FileAddress::BoxName).serialize());
    frames.push(SendBoxSettings::new(config, Some(sync_time_ms)).serialize());
    frames.push((SendCommand { value: CommandMapping::WifiEnable }).serialize());
    let band = match config.wifi_type {
        WifiType::Ghz5 => CommandMapping::Wifi5g,
        WifiType::Ghz2_4 => CommandMapping::Wifi24g,
    };
    frames.push((SendCommand { value: band }).serialize());
    let mic = match config.mic_type {
        MicType::Box => CommandMapping::BoxMic,
        MicType::Os => CommandMapping::Mic,
    };
    frames.push((SendCommand { value: mic }).serialize());
    let audio = if config.audio_transfer_mode {
        CommandMapping::AudioTransferOn
    } else {
        CommandMapping::AudioTransferOff
    };
    frames.push((SendCommand { value: audio }).serialize());

    frames
}

/// The one-shot wifi-connect command, due once, a moment after the
/// handshake completes.
pub fn wifi_connect_frame() -> (frame: Vec<u8>)
    ensures
        frame@ == spec_frame(
            MessageType::Command,
            spec_command_payload(CommandMapping::WifiConnect),
        ),
{
    proof {
        vstd::bytes::lemma_auto_spec_u32_to_from_le_bytes();
    }
    (SendCommand { value: CommandMapping::WifiConnect }).serialize()
}

/// The periodic liveness frame the session must keep sending until it
/// closes.
pub fn heartbeat_frame() -> (frame: Vec<u8>)
    ensures
        frame@ == spec_frame(MessageType::HeartBeat, Seq::<u8>::empty()),
{
    (HeartBeat {}).serialize()
}

} // verus!
