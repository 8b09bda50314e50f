//! The 16-byte frame header codec and the frame dispatcher.
//!
//! Every frame starts with four little-endian 32-bit words: a constant magic
//! number, the payload length, the type word (whose low byte is the tag) and
//! an integrity check that must equal the bitwise complement of the type
//! word.  A header is valid exactly when the magic matches and the
//! complement relation holds; anything else is rejected before any payload
//! is consumed.

use vstd::prelude::*;
use vstd::bytes::lemma_auto_spec_u32_to_from_le_bytes;
use vstd::bytes::spec_u32_from_le_bytes;
use vstd::bytes::spec_u32_to_le_bytes;
use vstd::bytes::u32_from_le_bytes;
use vstd::bytes::u32_to_le_bytes;
use vstd::slice::slice_subrange;
use crate::messagetypes::MessageType;
use crate::readable::AudioCommand;
use crate::readable::AudioData;
use crate::readable::BluetoothAddress;
use crate::readable::BluetoothDeviceName;
use crate::readable::BluetoothPIN;
use crate::readable::BluetoothPairedList;
use crate::readable::BoxInfo;
use crate::readable::Command;
use crate::readable::HiCarLink;
use crate::readable::ManufacturerInfo;
use crate::readable::MediaData;
use crate::readable::Opened;
use crate::readable::PayloadDecodeError;
use crate::readable::Phase;
use crate::readable::Plugged;
use crate::readable::SoftwareVersion;
use crate::readable::Unknown;
use crate::readable::Unplugged;
use crate::readable::VideoData;
use crate::readable::WifiDeviceName;
use crate::sendable::HeartBeat;
use crate::sendable::LogoType;
use crate::sendable::SendBoxSettings;
use crate::sendable::SendCloseDongle;
use crate::sendable::SendCommand;
use crate::sendable::SendDisconnectPhone;
use crate::sendable::SendFile;
use crate::sendable::SendLogoType;
use crate::sendable::SendMultiTouch;
use crate::sendable::SendOpen;
use crate::sendable::SendTouch;
use crate::sendable::TouchAction;

verus! {

/// Number of bytes in a frame header.
pub const HEADER_SIZE: usize = 16;

/// The magic constant every frame header must open with.
pub const MAGIC: u32 = 0x55AA55AA;

/// A decoded frame header: the payload length that follows on the wire and
/// the resolved type tag.  The magic and the checksum are validated during
/// decoding and reproduced during encoding, so they need no field here.
#[derive(Debug, Clone, Copy, PartialEq, Eq, Structural)]
pub struct MessageHeader {
    pub length: u32,
    pub msg_type: MessageType,
}

/// Why a 16-byte buffer failed to decode as a frame header.
#[derive(Debug, Clone, Copy, PartialEq, Eq, Structural)]
pub enum HeaderBuildError {
    /// The buffer is not exactly 16 bytes long; carries the length seen.
    InvalidSize(usize),
    /// The first word is not the magic constant; carries the word seen.
    InvalidMagic(u32),
    /// The fourth word is not the complement of the type word.
    InvalidTypeCheck { expected: u32, actual: u32 },
}

/// The 16 bytes that a header with the given tag and payload length is
/// written as: magic, length, type code, complement of the type code,
/// each as a little-endian 32-bit word.
pub open spec fn spec_header_bytes(msg_type: MessageType, length: u32) -> Seq<u8> {
    spec_u32_to_le_bytes(MAGIC) + spec_u32_to_le_bytes(length)
        + spec_u32_to_le_bytes(msg_type.spec_code()) + spec_u32_to_le_bytes(!msg_type.spec_code())
}

/// What decoding a buffer as a frame header yields: the checks in the order
/// the decoder applies them, then the header with the tag resolved from the
/// low byte of the type word.
pub open spec fn spec_decode_header(data: Seq<u8>) -> Result<MessageHeader, HeaderBuildError> {
    if data.len() != 16 {
        Err(HeaderBuildError::InvalidSize(data.len() as usize))
    } else {
        let magic = spec_u32_from_le_bytes(data.subrange(0, 4));
        if magic != MAGIC {
            Err(HeaderBuildError::InvalidMagic(magic))
        } else {
            let length = spec_u32_from_le_bytes(data.subrange(4, 8));
            let type_raw = spec_u32_from_le_bytes(data.subrange(8, 12));
            let type_check = spec_u32_from_le_bytes(data.subrange(12, 16));
            if type_check != !type_raw {
                Err(HeaderBuildError::InvalidTypeCheck { expected: !type_raw, actual: type_check })
            } else {
                Ok(MessageHeader {
                    length,
                    msg_type: MessageType::spec_from_u8((type_raw & 0xff) as u8),
                })
            }
        }
    }
}

impl MessageHeader {
    /// Decodes a frame header, rejecting wrong sizes, a wrong magic and a
    /// broken complement check, in that order.
    pub fn from_bytes(data: &[u8]) -> (r: Result<Self, HeaderBuildError>)
        ensures
            r == spec_decode_header(data@),
    {
        if data.len() != HEADER_SIZE {
            return Err(HeaderBuildError::InvalidSize(data.len()));
        }

        let magic = u32_from_le_bytes(slice_subrange(data, 0, 4));
        if magic != MAGIC {
            return Err(HeaderBuildError::InvalidMagic(magic));
        }

        let length = u32_from_le_bytes(slice_subrange(data, 4, 8));
        let type_raw = u32_from_le_bytes(slice_subrange(data, 8, 12));
        let type_check = u32_from_le_bytes(slice_subrange(data, 12, 16));

        let expected_check = !type_raw;
        if type_check != expected_check {
            return Err(HeaderBuildError::InvalidTypeCheck {
                expected: expected_check,
                actual: type_check,
            });
        }

        Ok(Self { length, msg_type: MessageType::from((type_raw & 0xff) as u8) })
    }

    /// Encodes this header as the 16 bytes the dongle expects, with the
    /// magic and the complement check filled in.
    pub fn to_bytes(&self) -> (out: Vec<u8>)
        ensures
            out@ == spec_header_bytes(self.msg_type, self.length),
            out@.len() == 16,
    {
        proof {
            lemma_auto_spec_u32_to_from_le_bytes();
        }
        let code = self.msg_type.code();
        let mut out = u32_to_le_bytes(MAGIC);
        let mut word = u32_to_le_bytes(self.length);
        out.append(&mut word);
        let mut word = u32_to_le_bytes(code);
        out.append(&mut word);
        let mut word = u32_to_le_bytes(!code);
        out.append(&mut word);
        out
    }
}

/// Header round trip: for every tag byte and every payload length, encoding
/// a header and decoding the bytes gives the same header back.
pub proof fn lemma_header_round_trip(tag: u8, length: u32)
    ensures
        spec_decode_header(spec_header_bytes(MessageType::spec_from_u8(tag), length))
            == Ok::<MessageHeader, HeaderBuildError>(
            MessageHeader { length, msg_type: MessageType::spec_from_u8(tag) },
        ),
{
    lemma_auto_spec_u32_to_from_le_bytes();
    let msg_type = MessageType::spec_from_u8(tag);
    let code = msg_type.spec_code();
    let data = spec_header_bytes(msg_type, length);
    assert(data.subrange(0, 4) =~= spec_u32_to_le_bytes(MAGIC));
    assert(data.subrange(4, 8) =~= spec_u32_to_le_bytes(length));
    assert(data.subrange(8, 12) =~= spec_u32_to_le_bytes(code));
    assert(data.subrange(12, 16) =~= spec_u32_to_le_bytes(!code));
    crate::messagetypes::lemma_tag_round_trip(tag);
    assert(((tag as u32) & 0xff) as u8 == tag) by (bit_vector);
}

/// Magic rejection: if the first four bytes of a 16-byte buffer are anything
/// but the magic word, decoding fails with a magic error, whatever the rest
/// of the buffer holds.
pub proof fn lemma_magic_rejection(data: Seq<u8>)
    requires
        data.len() == 16,
        data.subrange(0, 4) != spec_u32_to_le_bytes(MAGIC),
    ensures
        spec_decode_header(data) == Err::<MessageHeader, HeaderBuildError>(
            HeaderBuildError::InvalidMagic(spec_u32_from_le_bytes(data.subrange(0, 4))),
        ),
{
    lemma_auto_spec_u32_to_from_le_bytes();
    if spec_u32_from_le_bytes(data.subrange(0, 4)) == MAGIC {
        assert(spec_u32_to_le_bytes(spec_u32_from_le_bytes(data.subrange(0, 4)))
            == data.subrange(0, 4));
    }
}

/// One decoded or outbound message of any kind: the tagged union the
/// dispatcher produces and the transfer loops exchange.  Host-originated
/// shapes appear here too, because the dispatcher routes their tags through
/// the same table when they come back over the wire.
#[derive(Debug, Clone)]
pub enum Message {
    SendOpen(SendOpen),
    ReadOpen(Opened),
    ReadPlugged(Plugged),
    ReadPhase(Phase),
    ReadUnplugged(Unplugged),
    SendTouch(SendTouch),
    ReadVideoData(VideoData),
    ReadAudioData(AudioData),
    SendCommand(SendCommand),
    ReadCommand(Command),
    SendLogoType(SendLogoType),
    ReadBluetoothAddress(BluetoothAddress),
    ReadBluetoothPIN(BluetoothPIN),
    ReadBluetoothDeviceName(BluetoothDeviceName),
    ReadWifiDeviceName(WifiDeviceName),
    SendDisconnectPhone(SendDisconnectPhone),
    ReadBluetoothPairedList(BluetoothPairedList),
    ReadManufacturerInfo(ManufacturerInfo),
    SendCloseDongle(SendCloseDongle),
    SendMultiTouch(SendMultiTouch),
    ReadHiCarLink(HiCarLink),
    SendBoxSettings(SendBoxSettings),
    ReadBoxSettings(BoxInfo),
    ReadMediaData(MediaData),
    ReadFile(SendFile),
    SendFile(SendFile),
    ReadHeartBeat(HeartBeat),
    ReadSoftwareVersion(SoftwareVersion),
    ReadUnknown(Unknown),
}

/// When dispatch succeeds.  Every arm succeeds except the fixed-width and
/// audio shapes, which fail exactly on the payloads their decoders reject;
/// an unknown tag or a mismatched payload presence falls through to the
/// `Unknown` marker and never fails.
pub open spec fn spec_dispatch_ok(header: MessageHeader, data: Option<Vec<u8>>) -> bool {
    match (header.msg_type, data) {
        (MessageType::Command, Some(d)) => d@.len() >= 4,
        (MessageType::ManufacturerInfo, Some(d)) => d@.len() >= 8,
        (MessageType::Plugged, Some(d)) => d@.len() >= 4,
        (MessageType::AudioData, Some(d)) => d@.len() >= 12 && (d@.len() == 13
            ==> AudioCommand::spec_from_u8(d@[12]) is Some),
        (MessageType::VideoData, Some(d)) => d@.len() >= 20,
        (MessageType::MediaData, Some(d)) => d@.len() >= 4 && (spec_u32_from_le_bytes(
            d@.subrange(0, 4),
        ) == 1 ==> d@.len() >= 5),
        (MessageType::Phase, Some(d)) => d@.len() >= 4,
        (MessageType::Open, Some(d)) => d@.len() >= 28,
        _ => true,
    }
}

/// Which message each (tag, payload-presence) pair dispatches to, and what
/// its decoded fields must satisfy.
pub open spec fn spec_dispatched(header: MessageHeader, data: Option<Vec<u8>>, m: Message) -> bool {
    match (header.msg_type, data) {
        (MessageType::Command, Some(d)) => m matches Message::ReadCommand(x) && x.spec_decoded(
            header,
            d@,
        ),
        (MessageType::ManufacturerInfo, Some(d)) => m matches Message::ReadManufacturerInfo(x)
            && x.spec_decoded(header, d@),
        (MessageType::SoftwareVersion, Some(d)) => m matches Message::ReadSoftwareVersion(x)
            && x.spec_decoded(header, d@),
        (MessageType::BluetoothAddress, Some(d)) => m matches Message::ReadBluetoothAddress(x)
            && x.spec_decoded(header, d@),
        (MessageType::BluetoothPIN, Some(d)) => m matches Message::ReadBluetoothPIN(x)
            && x.spec_decoded(header, d@),
        (MessageType::BluetoothDeviceName, Some(d)) => m matches Message::ReadBluetoothDeviceName(
            x,
        ) && x.spec_decoded(header, d@),
        (MessageType::WifiDeviceName, Some(d)) => m matches Message::ReadWifiDeviceName(x)
            && x.spec_decoded(header, d@),
        (MessageType::HiCarLink, Some(d)) => m matches Message::ReadHiCarLink(x) && x.spec_decoded(
            header,
            d@,
        ),
        (MessageType::BluetoothPairedList, Some(d)) => m matches Message::ReadBluetoothPairedList(
            x,
        ) && x.spec_decoded(header, d@),
        (MessageType::Plugged, Some(d)) => m matches Message::ReadPlugged(x) && x.spec_decoded(
            header,
            d@,
        ),
        (MessageType::AudioData, Some(d)) => m matches Message::ReadAudioData(x) && x.spec_decoded(
            header,
            d@,
        ),
        (MessageType::VideoData, Some(d)) => m matches Message::ReadVideoData(x) && x.spec_decoded(
            header,
            d@,
        ),
        (MessageType::MediaData, Some(d)) => m matches Message::ReadMediaData(x) && x.spec_decoded(
            header,
            d@,
        ),
        (MessageType::BoxSettings, Some(d)) => m matches Message::ReadBoxSettings(x)
            && x.spec_decoded(header, d@),
        (MessageType::Phase, Some(d)) => m matches Message::ReadPhase(x) && x.spec_decoded(
            header,
            d@,
        ),
        (MessageType::Unplugged, None) => m matches Message::ReadUnplugged(x) && x.header
            == header,
        (MessageType::Open, Some(d)) => m matches Message::ReadOpen(x) && x.spec_decoded(
            header,
            d@,
        ),
        (MessageType::Touch, None) => m matches Message::SendTouch(t) && t.x == 0 && t.y == 0
            && t.action == TouchAction::Down,
        (MessageType::LogoType, None) => m matches Message::SendLogoType(l) && l.logo_type
            == LogoType::HomeButton,
        (MessageType::DisconnectPhone, None) => m matches Message::SendDisconnectPhone(_),
        (MessageType::CloseDongle, None) => m matches Message::SendCloseDongle(_),
        (MessageType::MultiTouch, None) => m matches Message::SendMultiTouch(t) && t.touches@.len()
            == 0,
        (MessageType::SendFile, Some(d)) => m matches Message::SendFile(f) && f.content@ == d@
            && f.file_name@.len() == 0,
        (MessageType::HeartBeat, None) => m matches Message::ReadHeartBeat(_),
        _ => m matches Message::ReadUnknown(x) && x.header == header,
    }
}

/// The error each failing arm reports: the decode error of that arm's
/// payload shape.
pub open spec fn spec_dispatch_err(
    header: MessageHeader,
    data: Option<Vec<u8>>,
    e: PayloadDecodeError,
) -> bool {
    match (header.msg_type, data) {
        (MessageType::Command, Some(d)) => e == (PayloadDecodeError::TooShort {
            expected: 4,
            actual: d@.len() as usize,
        }),
        (MessageType::ManufacturerInfo, Some(d)) => e == (PayloadDecodeError::TooShort {
            expected: 8,
            actual: d@.len() as usize,
        }),
        (MessageType::Plugged, Some(d)) => e == (PayloadDecodeError::TooShort {
            expected: 4,
            actual: d@.len() as usize,
        }),
        (MessageType::AudioData, Some(d)) => if d@.len() < 12 {
            e == (PayloadDecodeError::TooShort { expected: 12, actual: d@.len() as usize })
        } else {
            e == PayloadDecodeError::InvalidAudioCommand(d@[12])
        },
        (MessageType::VideoData, Some(d)) => e == (PayloadDecodeError::TooShort {
            expected: 20,
            actual: d@.len() as usize,
        }),
        (MessageType::MediaData, Some(d)) => e == (PayloadDecodeError::TooShort {
            expected: if d@.len() < 4 {
                4usize
            } else {
                5usize
            },
            actual: d@.len() as usize,
        }),
        (MessageType::Phase, Some(d)) => e == (PayloadDecodeError::TooShort {
            expected: 4,
            actual: d@.len() as usize,
        }),
        (MessageType::Open, Some(d)) => e == (PayloadDecodeError::TooShort {
            expected: 28,
            actual: d@.len() as usize,
        }),
        _ => false,
    }
}

impl MessageHeader {
    /// Turns this header and its payload bytes, if any, into exactly one
    /// message.  Fixed-width and audio shapes reject the payloads their
    /// decoders reject; every unknown tag, and every known tag whose
    /// payload presence does not match its shape, dispatches to the
    /// `Unknown` marker rather than failing.
    pub fn to_message(&self, data: Option<Vec<u8>>) -> (r: Result<Message, PayloadDecodeError>)
        requires
            data matches Some(d) ==> 4 * ((d@.len() + 2) / 3) <= usize::MAX,
        ensures
            r is Ok <==> spec_dispatch_ok(*self, data),
            r matches Ok(m) ==> spec_dispatched(*self, data, m),
            r matches Err(e) ==> spec_dispatch_err(*self, data, e),
    {
        match (self.msg_type, data) {
            (MessageType::Command, Some(d)) => match Command::new(*self, d) {
                Ok(x) => Ok(Message::ReadCommand(x)),
                Err(e) => Err(e),
            },
            (MessageType::ManufacturerInfo, Some(d)) => match ManufacturerInfo::new(*self, d) {
                Ok(x) => Ok(Message::ReadManufacturerInfo(x)),
                Err(e) => Err(e),
            },
            (MessageType::SoftwareVersion, Some(d)) => Ok(
                Message::ReadSoftwareVersion(SoftwareVersion::new(*self, d)),
            ),
            (MessageType::BluetoothAddress, Some(d)) => Ok(
                Message::ReadBluetoothAddress(BluetoothAddress::new(*self, d)),
            ),
            (MessageType::BluetoothPIN, Some(d)) => Ok(
                Message::ReadBluetoothPIN(BluetoothPIN::new(*self, d)),
            ),
            (MessageType::BluetoothDeviceName, Some(d)) => Ok(
                Message::ReadBluetoothDeviceName(BluetoothDeviceName::new(*self, d)),
            ),
            (MessageType::WifiDeviceName, Some(d)) => Ok(
                Message::ReadWifiDeviceName(WifiDeviceName::new(*self, d)),
            ),
            (MessageType::HiCarLink, Some(d)) => Ok(
                Message::ReadHiCarLink(HiCarLink::new(*self, d)),
            ),
            (MessageType::BluetoothPairedList, Some(d)) => Ok(
                Message::ReadBluetoothPairedList(BluetoothPairedList::new(*self, d)),
            ),
            (MessageType::Plugged, Some(d)) => match Plugged::new(*self, d) {
                Ok(x) => Ok(Message::ReadPlugged(x)),
                Err(e) => Err(e),
            },
            (MessageType::AudioData, Some(d)) => match AudioData::new(*self, d) {
                Ok(x) => Ok(Message::ReadAudioData(x)),
                Err(e) => Err(e),
            },
            (MessageType::VideoData, Some(d)) => match VideoData::new(*self, d) {
                Ok(x) => Ok(Message::ReadVideoData(x)),
                Err(e) => Err(e),
            },
            (MessageType::MediaData, Some(d)) => match MediaData::new(*self, d) {
                Ok(x) => Ok(Message::ReadMediaData(x)),
                Err(e) => Err(e),
            },
            (MessageType::BoxSettings, Some(d)) => Ok(
                Message::ReadBoxSettings(BoxInfo::new(*self, d)),
            ),
            (MessageType::Phase, Some(d)) => match Phase::new(*self, d) {
                Ok(x) => Ok(Message::ReadPhase(x)),
                Err(e) => Err(e),
            },
            (MessageType::Unplugged, None) => Ok(Message::ReadUnplugged(Unplugged::new(*self))),
            (MessageType::Open, Some(d)) => match Opened::new(*self, d) {
                Ok(x) => Ok(Message::ReadOpen(x)),
                Err(e) => Err(e),
            },
            (MessageType::Touch, None) => Ok(
                Message::SendTouch(SendTouch::new(0, 0, TouchAction::Down)),
            ),
            (MessageType::LogoType, None) => Ok(
                Message::SendLogoType(SendLogoType::new(LogoType::HomeButton)),
            ),
            (MessageType::DisconnectPhone, None) => Ok(
                Message::SendDisconnectPhone(SendDisconnectPhone {}),
            ),
            (MessageType::CloseDongle, None) => Ok(Message::SendCloseDongle(SendCloseDongle {})),
            (MessageType::MultiTouch, None) => Ok(
                Message::SendMultiTouch(SendMultiTouch::new(Vec::new())),
            ),
            (MessageType::SendFile, Some(d)) => Ok(
                Message::SendFile(SendFile::new(d, String::new())),
            ),
            (MessageType::HeartBeat, None) => Ok(Message::ReadHeartBeat(HeartBeat {})),
            (_, _) => Ok(Message::ReadUnknown(Unknown::new(*self))),
        }
    }
}

/// Checksum rejection: flipping any single bit of the check word in an
/// otherwise valid header makes decoding fail with a checksum error.
/// `i` picks the mutated byte and `k` the flipped bit within it.
pub proof fn lemma_checksum_rejection(data: Seq<u8>, i: int, k: u8)
    requires
        spec_decode_header(data) is Ok,
        12 <= i < 16,
        k < 8,
    ensures
        ({
            let mutated = data.update(i, data[i] ^ (1u8 << k));
            spec_decode_header(mutated) == Err::<MessageHeader, HeaderBuildError>(HeaderBuildError::InvalidTypeCheck {
                expected: !spec_u32_from_le_bytes(data.subrange(8, 12)),
                actual: spec_u32_from_le_bytes(mutated.subrange(12, 16)),
            })
        }),
{
    lemma_auto_spec_u32_to_from_le_bytes();
    let b = data[i];
    let mutated = data.update(i, data[i] ^ (1u8 << k));
    assert(b ^ (1u8 << k) != b) by (bit_vector)
        requires
            k < 8,
    ;
    assert(mutated.subrange(0, 4) =~= data.subrange(0, 4));
    assert(mutated.subrange(4, 8) =~= data.subrange(4, 8));
    assert(mutated.subrange(8, 12) =~= data.subrange(8, 12));
    assert(mutated.subrange(12, 16) != data.subrange(12, 16)) by {
        assert(mutated.subrange(12, 16)[i - 12] != data.subrange(12, 16)[i - 12]);
    }
    if spec_u32_from_le_bytes(mutated.subrange(12, 16))
        == spec_u32_from_le_bytes(data.subrange(12, 16)) {
        assert(spec_u32_to_le_bytes(spec_u32_from_le_bytes(mutated.subrange(12, 16)))
            == mutated.subrange(12, 16));
        assert(spec_u32_to_le_bytes(spec_u32_from_le_bytes(data.subrange(12, 16)))
            == data.subrange(12, 16));
    }
}

} // verus!
