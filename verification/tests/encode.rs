//! Encode-side behaviour: payload layouts, the clamping policy, the
//! settings JSON, and the serialized handshake sequence.

use carlink::driver::DongleConfig;
use carlink::driver::HandDriveType;
use carlink::driver::MicType;
use carlink::driver::WifiType;
use carlink::driver::handshake_frames;
use carlink::driver::heartbeat_frame;
use carlink::driver::known_devices;
use carlink::driver::matches_known_device;
use carlink::driver::wifi_connect_frame;
use carlink::driver::HEARTBEAT_INTERVAL_MS;
use carlink::driver::WIFI_CONNECT_DELAY_MS;
use carlink::message::MessageHeader;
use carlink::messagetypes::MessageType;
use carlink::sendable::FileAddress;
use carlink::sendable::HeartBeat;
use carlink::sendable::IconConfig;
use carlink::sendable::LogoType;
use carlink::sendable::MultiTouchAction;
use carlink::sendable::SendAudio;
use carlink::sendable::SendBoolean;
use carlink::sendable::SendBoxSettings;
use carlink::sendable::SendCommand;
use carlink::sendable::SendFile;
use carlink::sendable::SendIconConfig;
use carlink::sendable::SendLogoType;
use carlink::sendable::SendMultiTouch;
use carlink::sendable::SendNumber;
use carlink::sendable::SendOpen;
use carlink::sendable::SendString;
use carlink::sendable::SendTouch;
use carlink::sendable::SendableMessage;
use carlink::sendable::TouchAction;

/// The scaling the GUI applies before handing coordinates to the library:
/// normalized floats into ten-thousandths.
fn scaled(v: f32) -> i64 {
    (10000.0 * v) as i64
}

#[test]
fn touch_payload_clamps_out_of_range_coordinates() {
    let touch = SendTouch::new(scaled(-1.0), scaled(2.0), TouchAction::Down);
    let payload = touch.get_payload();
    assert_eq!(payload.len(), 16);
    assert_eq!(&payload[0..4], &14u32.to_le_bytes()); // action
    assert_eq!(&payload[4..8], &0u32.to_le_bytes()); // x clamped up to 0
    assert_eq!(&payload[8..12], &10000u32.to_le_bytes()); // y clamped down
    assert_eq!(&payload[12..16], &0u32.to_le_bytes()); // reserved
}

#[test]
fn touch_payload_keeps_in_range_coordinates() {
    let touch = SendTouch::new(scaled(0.5), scaled(0.25), TouchAction::Up);
    let payload = touch.get_payload();
    assert_eq!(&payload[0..4], &16u32.to_le_bytes());
    assert_eq!(&payload[4..8], &5000u32.to_le_bytes());
    assert_eq!(&payload[8..12], &2500u32.to_le_bytes());
}

#[test]
fn multi_touch_records_and_ids() {
    let touches = vec![
        (0.5f32.to_bits(), 0.5f32.to_bits(), MultiTouchAction::Down),
        (0.25f32.to_bits(), 1.0f32.to_bits(), MultiTouchAction::Up),
    ];
    let message = SendMultiTouch::new(touches);
    let payload = message.get_payload();
    assert_eq!(payload.len(), 32);
    assert_eq!(&payload[0..4], &0.5f32.to_le_bytes());
    assert_eq!(&payload[4..8], &0.5f32.to_le_bytes());
    assert_eq!(&payload[8..12], &1u32.to_le_bytes()); // down
    assert_eq!(&payload[12..16], &0u32.to_le_bytes()); // id 0
    assert_eq!(&payload[16..20], &0.25f32.to_le_bytes());
    assert_eq!(&payload[20..24], &1.0f32.to_le_bytes());
    assert_eq!(&payload[24..28], &0u32.to_le_bytes()); // up
    assert_eq!(&payload[28..32], &1u32.to_le_bytes()); // id 1
}

#[test]
fn audio_payload_prefix_and_samples() {
    let message = SendAudio::new(vec![-1i16, 2]);
    let payload = message.get_payload();
    let mut expected = Vec::new();
    expected.extend_from_slice(&5u32.to_le_bytes());
    expected.extend_from_slice(&0.0f32.to_le_bytes());
    expected.extend_from_slice(&3u32.to_le_bytes());
    expected.extend_from_slice(&(-1i16).to_le_bytes());
    expected.extend_from_slice(&2i16.to_le_bytes());
    assert_eq!(payload, expected);
}

#[test]
fn file_payload_layout() {
    let message = SendFile::new(vec![9, 9], "/tmp/x".to_string());
    let payload = message.get_payload();
    let mut expected = Vec::new();
    expected.extend_from_slice(&7u32.to_le_bytes()); // name + NUL
    expected.extend_from_slice(b"/tmp/x\0");
    expected.extend_from_slice(&2u32.to_le_bytes()); // content length
    expected.extend_from_slice(&[9, 9]);
    assert_eq!(payload, expected);
    assert_eq!(message.message_type(), MessageType::SendFile);
}

#[test]
fn number_and_boolean_writes() {
    let message = SendNumber::new(160, FileAddress::Dpi);
    let payload = message.get_payload();
    assert_eq!(&payload[0..4], &16u32.to_le_bytes()); // "/tmp/screen_dpi" + NUL
    assert_eq!(&payload[4..20], b"/tmp/screen_dpi\0");
    assert_eq!(&payload[20..24], &4u32.to_le_bytes());
    assert_eq!(&payload[24..28], &160u32.to_le_bytes());

    let message = SendBoolean::new(true, FileAddress::NightMode);
    let payload = message.get_payload();
    assert_eq!(&payload[4..20], b"/tmp/night_mode\0");
    assert_eq!(&payload[24..28], &1u32.to_le_bytes());
    let message = SendBoolean::new(false, FileAddress::NightMode);
    assert_eq!(&message.get_payload()[24..28], &0u32.to_le_bytes());
}

#[test]
fn string_write_passes_long_content_unchanged() {
    let long = "abcdefghijklmnopqrstuvwxyz".to_string();
    let message = SendString::new(long.clone(), FileAddress::BoxName);
    let payload = message.get_payload();
    assert_eq!(&payload[0..4], &14u32.to_le_bytes()); // "/etc/box_name" + NUL
    assert_eq!(&payload[18..22], &26u32.to_le_bytes());
    assert_eq!(&payload[22..], long.as_bytes());
}

#[test]
fn file_paths() {
    assert_eq!(FileAddress::Dpi.as_str(), "/tmp/screen_dpi");
    assert_eq!(FileAddress::NightMode.as_str(), "/tmp/night_mode");
    assert_eq!(FileAddress::HandDriveMode.as_str(), "/tmp/hand_drive_mode");
    assert_eq!(FileAddress::ChargeMode.as_str(), "/tmp/charge_mode");
    assert_eq!(FileAddress::BoxName.as_str(), "/etc/box_name");
    assert_eq!(FileAddress::OemIcon.as_str(), "/etc/oem_icon.png");
    assert_eq!(FileAddress::AirplayConfig.as_str(), "/etc/airplay.conf");
    assert_eq!(FileAddress::Icon120.as_str(), "/etc/icon_120x120.png");
    assert_eq!(FileAddress::Icon180.as_str(), "/etc/icon_180x180.png");
    assert_eq!(FileAddress::Icon250.as_str(), "/etc/icon_256x256.png");
    assert_eq!(FileAddress::AndroidWorkMode.as_str(), "/etc/android_work_mode");
}

#[test]
fn command_payload_is_the_code() {
    let message = SendCommand::new(1000);
    assert_eq!(message.get_payload(), 1000u32.to_le_bytes().to_vec());
}

#[test]
fn logo_payload_is_the_code() {
    assert_eq!(
        SendLogoType::new(LogoType::HomeButton).get_payload(),
        1u32.to_le_bytes().to_vec()
    );
    assert_eq!(SendLogoType::new(LogoType::Siri).get_payload(), 2u32.to_le_bytes().to_vec());
}

#[test]
fn open_payload_is_seven_words() {
    let config = DongleConfig::default();
    let payload = SendOpen::new(&config).get_payload();
    let mut expected = Vec::new();
    for word in [800u32, 640, 20, 5, 49152, 2, 2] {
        expected.extend_from_slice(&word.to_le_bytes());
    }
    assert_eq!(payload, expected);
}

#[test]
fn box_settings_json_is_exact() {
    let config = DongleConfig::default();
    let message = SendBoxSettings::new(&config, Some(12345));
    let payload = message.get_payload();
    assert_eq!(
        payload,
        br#"{"media_delay":300,"sync_time":12345,"android_auto_size_w":800,"android_auto_size_h":640}"#
    );
    // and it is well-formed JSON with the expected fields
    let value: serde_json::Value = serde_json::from_slice(&payload).unwrap();
    assert_eq!(value.get("media_delay").and_then(|v| v.as_u64()), Some(300));
    assert_eq!(value.get("sync_time").and_then(|v| v.as_u64()), Some(12345));
}

#[test]
fn box_settings_default_sync_time_is_the_clock() {
    let config = DongleConfig::default();
    let message = SendBoxSettings::new(&config, None);
    assert!(message.sync_time > 0);
}

#[test]
fn icon_config_file_text() {
    let message = SendIconConfig::new(IconConfig { label: None });
    assert_eq!(message.inner.file_name, "/etc/airplay.conf");
    assert_eq!(
        message.inner.content,
        b"oemIconVisible = 1\nname = AutoBox\nmodel = Magic-Car-Link-1.00\noemIconPath = /etc/oem_icon.png\n"
    );

    let message = SendIconConfig::new(IconConfig { label: Some("Car") });
    assert_eq!(
        message.inner.content,
        b"oemIconVisible = 1\nname = AutoBox\nmodel = Magic-Car-Link-1.00\noemIconPath = /etc/oem_icon.png\noemIconLabel = Car\n"
    );
}

#[test]
fn serialize_prefixes_the_header() {
    let frame = HeartBeat.serialize();
    assert_eq!(frame.len(), 16);
    let header = MessageHeader::from_bytes(&frame).unwrap();
    assert_eq!(header.msg_type, MessageType::HeartBeat);
    assert_eq!(header.length, 0);

    let frame = SendCommand::new(1002).serialize();
    assert_eq!(frame.len(), 20);
    let header = MessageHeader::from_bytes(&frame[0..16]).unwrap();
    assert_eq!(header.msg_type, MessageType::Command);
    assert_eq!(header.length, 4);
    assert_eq!(&frame[16..20], &1002u32.to_le_bytes());
}

#[test]
fn handshake_sequence_is_fixed_and_ordered() {
    let config = DongleConfig {
        night_mode: true,
        hand: HandDriveType::Rhd,
        wifi_type: WifiType::Ghz2_4,
        mic_type: MicType::Box,
        audio_transfer_mode: false,
        ..DongleConfig::default()
    };
    let frames = handshake_frames(&config, 777);
    assert_eq!(frames.len(), 11);

    let tags: Vec<MessageType> = frames
        .iter()
        .map(|f| MessageHeader::from_bytes(&f[0..16]).unwrap().msg_type)
        .collect();
    assert_eq!(
        tags,
        vec![
            MessageType::SendFile,
            MessageType::Open,
            MessageType::SendFile,
            MessageType::SendFile,
            MessageType::SendFile,
            MessageType::SendFile,
            MessageType::BoxSettings,
            MessageType::Command,
            MessageType::Command,
            MessageType::Command,
            MessageType::Command,
        ]
    );

    assert_eq!(frames[0], SendNumber::new(config.dpi, FileAddress::Dpi).serialize());
    assert_eq!(frames[1], SendOpen::new(&config).serialize());
    assert_eq!(frames[2], SendBoolean::new(true, FileAddress::NightMode).serialize());
    assert_eq!(frames[3], SendNumber::new(1, FileAddress::HandDriveMode).serialize());
    assert_eq!(frames[4], SendBoolean::new(true, FileAddress::ChargeMode).serialize());
    assert_eq!(
        frames[5],
        SendString::new("nodePlay".to_string(), FileAddress::BoxName).serialize()
    );
    assert_eq!(frames[6], SendBoxSettings::new(&config, Some(777)).serialize());
    // wifi enable, then the 2.4 GHz band, the box microphone, audio transfer off
    for (frame, code) in frames[7..].iter().zip([1000u32, 24, 15, 23]) {
        assert_eq!(&frame[16..20], &code.to_le_bytes());
    }
}

#[test]
fn scheduled_frames_and_intervals() {
    let frame = wifi_connect_frame();
    assert_eq!(&frame[16..20], &1002u32.to_le_bytes());
    assert_eq!(heartbeat_frame(), HeartBeat.serialize());
    assert_eq!(WIFI_CONNECT_DELAY_MS, 1000);
    assert_eq!(HEARTBEAT_INTERVAL_MS, 2000);
}

#[test]
fn known_device_identities() {
    let devices = known_devices();
    assert_eq!(devices.len(), 2);
    assert!(matches_known_device(0x1314, 0x1520));
    assert!(matches_known_device(0x1314, 0x1521));
    assert!(!matches_known_device(0x1314, 0x1522));
    assert!(!matches_known_device(0x1315, 0x1520));
}

#[test]
fn default_config_values() {
    let config = DongleConfig::default();
    assert_eq!(config.width, 800);
    assert_eq!(config.height, 640);
    assert_eq!(config.fps, 20);
    assert_eq!(config.dpi, 160);
    assert_eq!(config.format, 5);
    assert_eq!(config.i_box_version, 2);
    assert_eq!(config.phone_work_mode, 2);
    assert_eq!(config.packet_max, 49152);
    assert_eq!(config.box_name, "nodePlay");
    assert!(!config.night_mode);
    assert_eq!(config.hand, HandDriveType::Lhd);
    assert_eq!(config.media_delay, 300);
    assert!(!config.audio_transfer_mode);
    assert_eq!(config.wifi_type, WifiType::Ghz5);
    assert_eq!(config.mic_type, MicType::Os);
    assert_eq!(config.phone_config.len(), 2);
}
