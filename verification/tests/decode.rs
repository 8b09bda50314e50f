//! Decode-side behaviour: payload shapes, the audio tail dispatch, the
//! video split, the JSON shapes, and the full header-plus-payload path.

use carlink::commands::CommandMapping;
use carlink::message::Message;
use carlink::message::MessageHeader;
use carlink::messagetypes::MessageType;
use carlink::readable::AudioCommand;
use carlink::readable::AudioData;
use carlink::readable::BoxInfo;
use carlink::readable::BoxSettings;
use carlink::readable::Command;
use carlink::readable::ManufacturerInfo;
use carlink::readable::MediaData;
use carlink::readable::MediaPayload;
use carlink::readable::Opened;
use carlink::readable::PayloadDecodeError;
use carlink::readable::Phase;
use carlink::readable::PhoneType;
use carlink::readable::Plugged;
use carlink::readable::ReadableMessage;
use carlink::readable::SoftwareVersion;
use carlink::readable::VideoData;

fn header(tag: u8, length: u32) -> MessageHeader {
    MessageHeader { length, msg_type: MessageType::from(tag) }
}

fn audio_prefix() -> Vec<u8> {
    let mut data = Vec::new();
    data.extend_from_slice(&7u32.to_le_bytes()); // decode type
    data.extend_from_slice(&0.5f32.to_le_bytes().to_vec()); // volume
    data.extend_from_slice(&2u32.to_le_bytes()); // audio type
    data
}

#[test]
fn audio_one_byte_tail_is_a_command_only_payload() {
    let mut data = audio_prefix();
    data.push(1);
    let audio = AudioData::new(header(0x07, 13), data).unwrap();
    assert_eq!(audio.command, Some(AudioCommand::AudioOutputStart));
    assert_eq!(audio.decode_type, 7);
    assert_eq!(audio.volume_bits, 0.5f32.to_bits());
    assert_eq!(audio.audio_type, 2);
    assert!(audio.volume_duration_bits.is_none());
    assert!(audio.data.is_none());
}

#[test]
fn audio_unknown_command_byte_fails_cleanly() {
    let mut data = audio_prefix();
    data.push(0x20);
    assert!(matches!(
        AudioData::new(header(0x07, 13), data),
        Err(PayloadDecodeError::InvalidAudioCommand(0x20))
    ));
}

#[test]
fn audio_four_byte_tail_is_a_volume_duration_only_payload() {
    let mut data = audio_prefix();
    data.extend_from_slice(&1.5f32.to_le_bytes());
    let audio = AudioData::new(header(0x07, 16), data).unwrap();
    assert!(audio.command.is_none());
    assert_eq!(audio.volume_duration_bits, Some(1.5f32.to_bits()));
    assert!(audio.data.is_none());
}

#[test]
fn audio_six_byte_tail_is_exactly_three_samples() {
    let mut data = audio_prefix();
    for sample in [-1i16, 0, 257] {
        data.extend_from_slice(&sample.to_le_bytes());
    }
    let audio = AudioData::new(header(0x07, 18), data).unwrap();
    assert!(audio.command.is_none());
    assert!(audio.volume_duration_bits.is_none());
    assert_eq!(audio.data, Some(vec![-1i16, 0, 257]));
}

#[test]
fn audio_short_prefix_is_rejected() {
    assert!(matches!(
        AudioData::new(header(0x07, 11), vec![0; 11]),
        Err(PayloadDecodeError::TooShort { expected: 12, actual: 11 })
    ));
}

#[test]
fn audio_format_table() {
    let mut data = audio_prefix();
    data.push(1);
    let audio = AudioData::new(header(0x07, 13), data).unwrap();
    let format = audio.get_audio_format().unwrap();
    assert_eq!(format.sample_rate, 16000);
    assert_eq!(format.channels, 2);
    assert_eq!(format.bit_depth, 16);
}

#[test]
fn video_split_zero_metadata() {
    let mut data = vec![0u8; 20];
    data.extend_from_slice(&[9, 8, 7, 6, 5]);
    let video = VideoData::new(header(0x06, 25), data).unwrap();
    assert_eq!(video.width, 0);
    assert_eq!(video.height, 0);
    assert_eq!(video.flags, 0);
    assert_eq!(video.length, 0);
    assert_eq!(video.unknown, 0);
    assert_eq!(video.data, vec![9, 8, 7, 6, 5]);
    assert_eq!(video.get_data(), vec![9, 8, 7, 6, 5]);
}

#[test]
fn video_subheader_fields_in_wire_order() {
    let mut data = Vec::new();
    for word in [1920u32, 1080, 3, 42, 7] {
        data.extend_from_slice(&word.to_le_bytes());
    }
    let video = VideoData::new(header(0x06, 20), data).unwrap();
    assert_eq!(video.width, 1920);
    assert_eq!(video.height, 1080);
    assert_eq!(video.flags, 3);
    assert_eq!(video.length, 42);
    assert_eq!(video.unknown, 7);
    assert!(video.data.is_empty());
}

#[test]
fn video_short_subheader_is_rejected() {
    assert!(matches!(
        VideoData::new(header(0x06, 19), vec![0; 19]),
        Err(PayloadDecodeError::TooShort { expected: 20, actual: 19 })
    ));
}

#[test]
fn command_payload_resolves_through_the_registry() {
    let cmd = Command::new(header(0x08, 4), 1u32.to_le_bytes().to_vec()).unwrap();
    assert_eq!(cmd.value, CommandMapping::StartRecordAudio);
    let cmd = Command::new(header(0x08, 4), 9999u32.to_le_bytes().to_vec()).unwrap();
    assert_eq!(cmd.value, CommandMapping::Invalid);
    assert!(Command::new(header(0x08, 3), vec![1, 0, 0]).is_err());
}

#[test]
fn plugged_with_and_without_wifi() {
    let plugged = Plugged::new(header(0x02, 4), 3u32.to_le_bytes().to_vec()).unwrap();
    assert_eq!(plugged.phone_type, PhoneType::CarPlay);
    assert_eq!(plugged.wifi, None);

    let mut data = 5u32.to_le_bytes().to_vec();
    data.extend_from_slice(&1u32.to_le_bytes());
    let plugged = Plugged::new(header(0x02, 8), data).unwrap();
    assert_eq!(plugged.phone_type, PhoneType::AndroidAuto);
    assert_eq!(plugged.wifi, Some(1));

    let plugged = Plugged::new(header(0x02, 4), 99u32.to_le_bytes().to_vec()).unwrap();
    assert_eq!(plugged.phone_type, PhoneType::Unknown);
}

#[test]
fn manufacturer_info_two_words() {
    let mut data = 11u32.to_le_bytes().to_vec();
    data.extend_from_slice(&22u32.to_le_bytes());
    let info = ManufacturerInfo::new(header(0x14, 8), data).unwrap();
    assert_eq!((info.a, info.b), (11, 22));
}

#[test]
fn opened_seven_words() {
    let mut data = Vec::new();
    for word in [800u32, 640, 20, 5, 49152, 2, 2] {
        data.extend_from_slice(&word.to_le_bytes());
    }
    let opened = Opened::new(header(0x01, 28), data).unwrap();
    assert_eq!(opened.width, 800);
    assert_eq!(opened.height, 640);
    assert_eq!(opened.fps, 20);
    assert_eq!(opened.format, 5);
    assert_eq!(opened.packet_max, 49152);
    assert_eq!(opened.i_box, 2);
    assert_eq!(opened.phone_mode, 2);
    assert!(Opened::new(header(0x01, 27), vec![0; 27]).is_err());
}

#[test]
fn phase_single_word() {
    let phase = Phase::new(header(0x03, 4), 6u32.to_le_bytes().to_vec()).unwrap();
    assert_eq!(phase.phase, 6);
}

#[test]
fn text_payloads_decode_lossily() {
    let sv = SoftwareVersion::new(header(0xcc, 5), b"2023.".to_vec());
    assert_eq!(sv.version, "2023.");
    let sv = SoftwareVersion::new(header(0xcc, 2), vec![0xff, b'a']);
    assert_eq!(sv.version, "\u{FFFD}a");
    assert!(sv.get_data().is_empty());
}

#[test]
fn media_metadata_parses_tolerantly() {
    let json = br#"{"MediaSongName":"Song","MediaArtistName":"Artist","MediaSongDuration":123.5}"#;
    let mut data = 1u32.to_le_bytes().to_vec();
    data.extend_from_slice(json);
    data.push(0); // trailing byte past the JSON
    let media = MediaData::new(header(0x2a, data.len() as u32), data).unwrap();
    match media.payload {
        Some(MediaPayload::Data { media }) => {
            assert_eq!(media.media_song_name.as_deref(), Some("Song"));
            assert_eq!(media.media_artist_name.as_deref(), Some("Artist"));
            assert_eq!(media.media_album_name, None);
            assert_eq!(media.media_app_name, None);
            assert_eq!(media.media_song_duration.as_deref(), Some("123.5"));
            assert_eq!(media.media_song_play_time, None);
        }
        other => panic!("expected parsed metadata, got {:?}", other),
    }
}

#[test]
fn media_bad_json_means_no_payload() {
    let mut data = 1u32.to_le_bytes().to_vec();
    data.extend_from_slice(b"not json");
    data.push(0);
    let media = MediaData::new(header(0x2a, data.len() as u32), data).unwrap();
    assert!(media.payload.is_none());
}

#[test]
fn media_album_cover_is_base64() {
    let mut data = 3u32.to_le_bytes().to_vec();
    data.extend_from_slice(&[1, 2, 3]);
    let media = MediaData::new(header(0x2a, 7), data).unwrap();
    match media.payload {
        Some(MediaPayload::AlbumCover { base64_image }) => assert_eq!(base64_image, "AQID"),
        other => panic!("expected an album cover, got {:?}", other),
    }
}

#[test]
fn media_other_kind_is_surfaced_without_payload() {
    let data = 9u32.to_le_bytes().to_vec();
    let media = MediaData::new(header(0x2a, 4), data).unwrap();
    assert!(media.payload.is_none());
}

#[test]
fn box_info_oem_shape() {
    let json = br#"{"HiCar":1,"OemName":"oem","WiFiChannel":36,"boxType":"A","hwVersion":"1.0","productType":"P","uuid":"u-1"}"#;
    let info = BoxInfo::new(header(0x19, json.len() as u32), json.to_vec());
    match info.settings {
        Some(BoxSettings::Type1 { hi_car, oem_name, wifi_channel, uuid, .. }) => {
            assert_eq!(hi_car, 1);
            assert_eq!(oem_name, "oem");
            assert_eq!(wifi_channel, 36);
            assert_eq!(uuid, "u-1");
        }
        other => panic!("expected the OEM shape, got {:?}", other),
    }
}

#[test]
fn box_info_model_shape() {
    let json = br#"{"MDLinkType":"wifi","MDModel":"m","MDOSVersion":"13","MDLinkVersion":"2","cpuTemp":46.5}"#;
    let info = BoxInfo::new(header(0x19, json.len() as u32), json.to_vec());
    match info.settings {
        Some(BoxSettings::Type2 { md_link_type, md_model, cpu_temp, .. }) => {
            assert_eq!(md_link_type, "wifi");
            assert_eq!(md_model, "m");
            assert_eq!(cpu_temp, "46.5");
        }
        other => panic!("expected the model shape, got {:?}", other),
    }
}

#[test]
fn box_info_unknown_shape_means_no_settings() {
    let info = BoxInfo::new(header(0x19, 2), b"{}".to_vec());
    assert!(info.settings.is_none());
    let info = BoxInfo::new(header(0x19, 4), vec![0xff, 0xfe, 0x00, 0x01]);
    assert!(info.settings.is_none());
}

#[test]
fn dispatch_command_frame_end_to_end() {
    let wire_header = header(0x08, 4).to_bytes();
    let parsed = MessageHeader::from_bytes(&wire_header).unwrap();
    assert_eq!(parsed.length, 4);
    let message = parsed.to_message(Some(1u32.to_le_bytes().to_vec())).unwrap();
    match message {
        Message::ReadCommand(cmd) => assert_eq!(cmd.value, CommandMapping::StartRecordAudio),
        other => panic!("expected a command message, got {:?}", other),
    }
}

#[test]
fn dispatch_unplugged_end_to_end() {
    let wire_header = header(0x04, 0).to_bytes();
    let parsed = MessageHeader::from_bytes(&wire_header).unwrap();
    let message = parsed.to_message(None).unwrap();
    match message {
        Message::ReadUnplugged(u) => assert_eq!(u.header, parsed),
        other => panic!("expected an unplugged marker, got {:?}", other),
    }
}

#[test]
fn dispatch_unknown_tag_never_fails() {
    let h = header(0x42, 0);
    assert_eq!(h.msg_type, MessageType::Unknown(0x42));
    let message = h.to_message(None).unwrap();
    match message {
        Message::ReadUnknown(u) => assert_eq!(u.header, h),
        other => panic!("expected an unknown marker, got {:?}", other),
    }
}

#[test]
fn dispatch_mismatched_payload_presence_falls_through() {
    // a command tag without its payload dispatches to the unknown marker
    let message = header(0x08, 0).to_message(None).unwrap();
    assert!(matches!(message, Message::ReadUnknown(_)));
    // a heartbeat tag with a stray payload does too
    let message = header(0xaa, 1).to_message(Some(vec![0])).unwrap();
    assert!(matches!(message, Message::ReadUnknown(_)));
}

#[test]
fn dispatch_surfaces_payload_decode_errors() {
    let err = header(0x08, 2).to_message(Some(vec![0, 1])).unwrap_err();
    assert!(matches!(err, PayloadDecodeError::TooShort { expected: 4, actual: 2 }));
}
