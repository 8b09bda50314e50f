//! Header codec and registry behaviour, checked byte for byte.

use carlink::commands::CommandMapping;
use carlink::message::HeaderBuildError;
use carlink::message::MessageHeader;
use carlink::messagetypes::MessageType;

fn header_bytes(tag: u8, length: u32) -> Vec<u8> {
    MessageHeader { length, msg_type: MessageType::from(tag) }.to_bytes()
}

#[test]
fn header_round_trip_every_tag_and_length() {
    for tag in 0..=255u8 {
        for &length in &[0u32, 1, 65535] {
            let bytes = header_bytes(tag, length);
            assert_eq!(bytes.len(), 16);
            let header = MessageHeader::from_bytes(&bytes).unwrap();
            assert_eq!(header.length, length);
            assert_eq!(header.msg_type, MessageType::from(tag));
        }
    }
}

#[test]
fn header_bytes_are_exact() {
    let bytes = header_bytes(0x01, 0);
    assert_eq!(
        bytes,
        vec![
            0xAA, 0x55, 0xAA, 0x55, // magic
            0x00, 0x00, 0x00, 0x00, // length
            0x01, 0x00, 0x00, 0x00, // type
            0xFE, 0xFF, 0xFF, 0xFF, // complement of type
        ]
    );
}

#[test]
fn checksum_rejection_on_every_single_bit() {
    let good = header_bytes(0x08, 4);
    for i in 12..16 {
        for k in 0..8 {
            let mut bad = good.clone();
            bad[i] ^= 1u8 << k;
            match MessageHeader::from_bytes(&bad) {
                Err(HeaderBuildError::InvalidTypeCheck { expected, actual }) => {
                    assert_eq!(expected, !0x08u32);
                    assert_ne!(actual, expected);
                }
                other => panic!("expected a checksum error, got {:?}", other),
            }
        }
    }
}

#[test]
fn magic_rejection_whatever_the_rest_holds() {
    for wrong in [0u32, 1, 0x55AA55AB, 0xAA55AA55, 0xFFFFFFFF] {
        let mut bytes = header_bytes(0x08, 4);
        bytes[0..4].copy_from_slice(&wrong.to_le_bytes());
        match MessageHeader::from_bytes(&bytes) {
            Err(HeaderBuildError::InvalidMagic(seen)) => assert_eq!(seen, wrong),
            other => panic!("expected a magic error, got {:?}", other),
        }
    }
}

#[test]
fn size_rejection() {
    assert!(matches!(
        MessageHeader::from_bytes(&[0u8; 15]),
        Err(HeaderBuildError::InvalidSize(15))
    ));
    assert!(matches!(
        MessageHeader::from_bytes(&[0u8; 17]),
        Err(HeaderBuildError::InvalidSize(17))
    ));
}

#[test]
fn command_round_trip_for_every_named_value() {
    let all = vec![
        CommandMapping::Invalid,
        CommandMapping::StartRecordAudio,
        CommandMapping::StopRecordAudio,
        CommandMapping::RequestHostUI,
        CommandMapping::Siri,
        CommandMapping::Mic,
        CommandMapping::Frame,
        CommandMapping::BoxMic,
        CommandMapping::EnableNightMode,
        CommandMapping::DisableNightMode,
        CommandMapping::AudioTransferOn,
        CommandMapping::AudioTransferOff,
        CommandMapping::Wifi24g,
        CommandMapping::Wifi5g,
        CommandMapping::Left,
        CommandMapping::Right,
        CommandMapping::SelectDown,
        CommandMapping::SelectUp,
        CommandMapping::Back,
        CommandMapping::Up,
        CommandMapping::Down,
        CommandMapping::Home,
        CommandMapping::Play,
        CommandMapping::Pause,
        CommandMapping::PlayOrPause,
        CommandMapping::Next,
        CommandMapping::Prev,
        CommandMapping::AcceptPhone,
        CommandMapping::RejectPhone,
        CommandMapping::RequestVideoFocus,
        CommandMapping::ReleaseVideoFocus,
        CommandMapping::WifiEnable,
        CommandMapping::AutoConnectEnable,
        CommandMapping::WifiConnect,
        CommandMapping::ScanningDevice,
        CommandMapping::DeviceFound,
        CommandMapping::DeviceNotFound,
        CommandMapping::ConnectDeviceFailed,
        CommandMapping::BtConnected,
        CommandMapping::BtDisconnected,
        CommandMapping::WifiConnected,
        CommandMapping::WifiDisconnected,
        CommandMapping::BtPairStart,
        CommandMapping::WifiPair,
    ];
    for value in all {
        assert_eq!(CommandMapping::from(u32::from(value)), value);
    }
}

#[test]
fn unmapped_command_code_decodes_to_invalid() {
    assert_eq!(CommandMapping::from(9999), CommandMapping::Invalid);
    assert_eq!(u32::from(CommandMapping::Invalid), 0);
}

#[test]
fn unknown_tag_round_trip() {
    assert_eq!(MessageType::from(0x42), MessageType::Unknown(0x42));
    assert_eq!(u32::from(MessageType::Unknown(0x42)), 0x42);
    assert_eq!(MessageType::from(0xaa), MessageType::HeartBeat);
    assert_eq!(u32::from(MessageType::HeartBeat), 0xaa);
}
