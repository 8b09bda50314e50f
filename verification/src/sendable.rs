//! Host-to-device payloads: one type per frame kind the host can send.
//!
//! Every sendable type names its frame tag and produces its payload bytes;
//! `serialize` prefixes the 16-byte header for that tag and length.  Wire
//! values that the device reads as floating-point numbers are taken as raw
//! 32-bit bit patterns or as pre-scaled integers, so every byte written is
//! pinned by a contract.

use vstd::prelude::*;
use vstd::bytes::spec_u16_to_le_bytes;
use vstd::bytes::spec_u32_to_le_bytes;
use vstd::bytes::u32_to_le_bytes;
use vstd::slice::slice_to_vec;
use vstd::string::StrSliceExecFns;
use vstd::utf8::encode_utf8;
use vstd::utf8::is_ascii_chars;
use vstd::utf8::is_ascii_chars_encode_utf8;
use crate::commands::CommandMapping;
use crate::driver::DongleConfig;
use crate::message::MessageHeader;
use crate::message::spec_header_bytes;
use crate::messagetypes::MessageType;
use crate::wire::push_u16_le;
use crate::wire::push_u32_le;

verus! {

/// A full frame as written to the wire: the 16-byte header for this tag
/// and payload length, then the payload itself.
pub open spec fn spec_frame(msg_type: MessageType, payload: Seq<u8>) -> Seq<u8> {
    spec_header_bytes(msg_type, payload.len() as u32) + payload
}

/// A message the host can serialize onto the wire.
///
/// `spec_payload` pins the payload bytes; `serialize` is the shared framing
/// path.  Serialization asks that the payload length fit the header's
/// 32-bit length word.
pub trait SendableMessage {
    /// The frame tag this message is sent under.
    spec fn spec_message_type(&self) -> MessageType;

    /// The exact payload bytes this message carries.
    spec fn spec_payload(&self) -> Seq<u8>;

    fn message_type(&self) -> (t: MessageType)
        ensures
            t == self.spec_message_type(),
    ;

    fn get_payload(&self) -> (p: Vec<u8>)
        requires
            self.spec_payload().len() <= u32::MAX,
        ensures
            p@ == self.spec_payload(),
    ;

    /// The frame for this message: its header, then its payload.
    fn serialize(&self) -> (out: Vec<u8>)
        requires
            self.spec_payload().len() <= u32::MAX,
        ensures
            out@ == spec_frame(self.spec_message_type(), self.spec_payload()),
    {
        let mut data = self.get_payload();
        let message_header = MessageHeader {
            msg_type: self.message_type(),
            length: data.len() as u32,
        };
        let mut out = message_header.to_bytes();
        out.append(&mut data);
        out
    }
}

/// Every frame the host serializes opens with a header the decoder
/// accepts: the magic and the complement check hold, and the tag and the
/// payload length come back exactly as they were framed.
pub proof fn lemma_frame_header_round_trip(msg_type: MessageType, payload: Seq<u8>)
    requires
        payload.len() <= u32::MAX,
    ensures
        ({
            let frame = spec_frame(msg_type, payload);
            &&& frame.len() == 16 + payload.len()
            &&& crate::message::spec_decode_header(frame.subrange(0, 16))
                == Ok::<MessageHeader, crate::message::HeaderBuildError>(MessageHeader {
                length: payload.len() as u32,
                msg_type: MessageType::spec_from_u8((msg_type.spec_code() & 0xff) as u8),
            })
        }),
{
    vstd::bytes::lemma_auto_spec_u32_to_from_le_bytes();
    let code = msg_type.spec_code();
    let frame = spec_frame(msg_type, payload);
    let header = frame.subrange(0, 16);
    assert(header.subrange(0, 4) =~= vstd::bytes::spec_u32_to_le_bytes(crate::message::MAGIC));
    assert(header.subrange(4, 8) =~= vstd::bytes::spec_u32_to_le_bytes(payload.len() as u32));
    assert(header.subrange(8, 12) =~= vstd::bytes::spec_u32_to_le_bytes(code));
    assert(header.subrange(12, 16) =~= vstd::bytes::spec_u32_to_le_bytes(!code));
}

/// The payload of a command frame: the command's code as one word.
pub open spec fn spec_command_payload(value: CommandMapping) -> Seq<u8> {
    spec_u32_to_le_bytes(value.spec_code())
}

/// A command press sent to the dongle.
#[derive(Debug, Clone, Copy, PartialEq, Eq, Structural)]
pub struct SendCommand {
    pub value: CommandMapping,
}

impl SendCommand {
    /// Resolves a raw code through the command registry.
    pub fn new(value: u32) -> (r: Self)
        ensures
            r.value == CommandMapping::spec_from_u32(value),
    {
        SendCommand { value: CommandMapping::from(value) }
    }
}

impl SendableMessage for SendCommand {
    open spec fn spec_message_type(&self) -> MessageType {
        MessageType::Command
    }

    open spec fn spec_payload(&self) -> Seq<u8> {
        spec_command_payload(self.value)
    }

    fn message_type(&self) -> (t: MessageType) {
        MessageType::Command
    }

    fn get_payload(&self) -> (p: Vec<u8>) {
        u32_to_le_bytes(self.value.code())
    }
}

/// The action code of a single-touch event.  This numbering is specific to
/// single touch; multi-touch records use a different one.
#[derive(Debug, Clone, Copy, PartialEq, Eq, Structural)]
pub enum TouchAction {
    Down,
    Move,
    Up,
}

impl TouchAction {
    /// The wire code of this action.
    pub open spec fn spec_code(self) -> u32 {
        match self {
            TouchAction::Down => 14,
            TouchAction::Move => 15,
            TouchAction::Up => 16,
        }
    }

    pub fn code(&self) -> (r: u32)
        ensures
            r == self.spec_code(),
    {
        match self {
            TouchAction::Down => 14,
            TouchAction::Move => 15,
            TouchAction::Up => 16,
        }
    }
}

/// A single-touch event.  Coordinates are in ten-thousandths of the screen
/// dimension, scaled by the caller from its own input space; values outside
/// 0..=10000 are clamped at serialization — clamping, not rejection, is the
/// device's policy for out-of-range coordinates.
#[derive(Debug, Clone, Copy, PartialEq, Eq, Structural)]
pub struct SendTouch {
    pub x: i64,
    pub y: i64,
    pub action: TouchAction,
}

impl SendTouch {
    pub fn new(x: i64, y: i64, action: TouchAction) -> (r: Self)
        ensures
            r.x == x && r.y == y && r.action == action,
    {
        SendTouch { x, y, action }
    }

    /// A value pulled into the closed range `min..=max`.
    pub open spec fn spec_clamp(value: i64, min: i64, max: i64) -> i64 {
        if value < min {
            min
        } else if value > max {
            max
        } else {
            value
        }
    }

    fn clamp(value: i64, min: i64, max: i64) -> (r: i64)
        ensures
            r == Self::spec_clamp(value, min, max),
    {
        if value < min {
            min
        } else if value > max {
            max
        } else {
            value
        }
    }
}

impl SendableMessage for SendTouch {
    open spec fn spec_message_type(&self) -> MessageType {
        MessageType::Touch
    }

    open spec fn spec_payload(&self) -> Seq<u8> {
        spec_u32_to_le_bytes(self.action.spec_code()) + spec_u32_to_le_bytes(
            Self::spec_clamp(self.x, 0, 10000) as u32,
        ) + spec_u32_to_le_bytes(Self::spec_clamp(self.y, 0, 10000) as u32) + spec_u32_to_le_bytes(
            0,
        )
    }

    fn message_type(&self) -> (t: MessageType) {
        MessageType::Touch
    }

    fn get_payload(&self) -> (p: Vec<u8>) {
        let mut buf: Vec<u8> = Vec::new();
        push_u32_le(&mut buf, self.action.code());
        let final_x = Self::clamp(self.x, 0, 10000);
        let final_y = Self::clamp(self.y, 0, 10000);
        push_u32_le(&mut buf, final_x as u32);
        push_u32_le(&mut buf, final_y as u32);
        push_u32_le(&mut buf, 0);
        buf
    }
}

/// The action code of one multi-touch record — a different numbering than
/// single touch.
#[derive(Debug, Clone, Copy, PartialEq, Eq, Structural)]
pub enum MultiTouchAction {
    Down,
    Move,
    Up,
}

impl MultiTouchAction {
    /// The wire code of this action.
    pub open spec fn spec_code(self) -> u32 {
        match self {
            MultiTouchAction::Down => 1,
            MultiTouchAction::Move => 2,
            MultiTouchAction::Up => 0,
        }
    }

    pub fn code(&self) -> (r: u32)
        ensures
            r == self.spec_code(),
    {
        match self {
            MultiTouchAction::Down => 1,
            MultiTouchAction::Move => 2,
            MultiTouchAction::Up => 0,
        }
    }
}

/// One fixed 16-byte record of a multi-touch frame.  The coordinates are
/// the raw bits of the 32-bit floating-point values the record carries on
/// the wire; the id is assigned by position in the input sequence.
#[derive(Debug, Clone, Copy, PartialEq, Eq, Structural)]
pub struct TouchItem {
    pub x_bits: u32,
    pub y_bits: u32,
    pub action: MultiTouchAction,
    pub id: u32,
}

impl TouchItem {
    fn new(x_bits: u32, y_bits: u32, action: MultiTouchAction, id: u32) -> (r: Self)
        ensures
            r == (TouchItem { x_bits, y_bits, action, id }),
    {
        TouchItem { x_bits, y_bits, action, id }
    }

    /// This record's 16 bytes: both coordinates, the action, the id.
    pub open spec fn spec_item_payload(self) -> Seq<u8> {
        spec_u32_to_le_bytes(self.x_bits) + spec_u32_to_le_bytes(self.y_bits)
            + spec_u32_to_le_bytes(self.action.spec_code()) + spec_u32_to_le_bytes(self.id)
    }

    fn get_payload(&self) -> (p: Vec<u8>)
        ensures
            p@ == self.spec_item_payload(),
    {
        let mut buf: Vec<u8> = Vec::new();
        push_u32_le(&mut buf, self.x_bits);
        push_u32_le(&mut buf, self.y_bits);
        push_u32_le(&mut buf, self.action.code());
        push_u32_le(&mut buf, self.id);
        buf
    }
}

/// The records of a multi-touch frame, concatenated in order with nothing
/// between them.
pub open spec fn spec_multi_touch_payload(items: Seq<TouchItem>) -> Seq<u8>
    decreases items.len(),
{
    if items.len() == 0 {
        Seq::empty()
    } else {
        spec_multi_touch_payload(items.drop_last()) + items.last().spec_item_payload()
    }
}

/// A multi-touch frame: a run of 16-byte records.
#[derive(Debug, Clone)]
pub struct SendMultiTouch {
    pub touches: Vec<TouchItem>,
}

impl SendMultiTouch {
    /// Builds one record per input triple, in order, with ids assigned by
    /// position.
    pub fn new(touch_data: Vec<(u32, u32, MultiTouchAction)>) -> (r: Self)
        requires
            touch_data@.len() <= u32::MAX,
        ensures
            r.touches@.len() == touch_data@.len(),
            forall|i: int|
                #![auto]
                0 <= i < touch_data@.len() ==> r.touches@[i] == (TouchItem {
                    x_bits: touch_data@[i].0,
                    y_bits: touch_data@[i].1,
                    action: touch_data@[i].2,
                    id: i as u32,
                }),
    {
        let mut touches: Vec<TouchItem> = Vec::new();
        let mut i: usize = 0;
        while i < touch_data.len()
            invariant
                touch_data@.len() <= u32::MAX,
                i <= touch_data@.len(),
                touches@.len() == i,
                forall|t: int|
                    #![auto]
                    0 <= t < i ==> touches@[t] == (TouchItem {
                        x_bits: touch_data@[t].0,
                        y_bits: touch_data@[t].1,
                        action: touch_data@[t].2,
                        id: t as u32,
                    }),
            decreases touch_data@.len() - i,
        {
            let (x_bits, y_bits, action) = touch_data[i];
            touches.push(TouchItem::new(x_bits, y_bits, action, i as u32));
            i = i + 1;
        }
        SendMultiTouch { touches }
    }
}

impl SendableMessage for SendMultiTouch {
    open spec fn spec_message_type(&self) -> MessageType {
        MessageType::MultiTouch
    }

    open spec fn spec_payload(&self) -> Seq<u8> {
        spec_multi_touch_payload(self.touches@)
    }

    fn message_type(&self) -> (t: MessageType) {
        MessageType::MultiTouch
    }

    fn get_payload(&self) -> (p: Vec<u8>) {
        let mut buf: Vec<u8> = Vec::new();
        let mut i: usize = 0;
        while i < self.touches.len()
            invariant
                i <= self.touches@.len(),
                buf@ == spec_multi_touch_payload(self.touches@.take(i as int)),
            decreases self.touches@.len() - i,
        {
            let mut item = self.touches[i].get_payload();
            buf.append(&mut item);
            proof {
                assert(self.touches@.take(i + 1).drop_last() =~= self.touches@.take(i as int));
                assert(self.touches@.take(i + 1).last() == self.touches@[i as int]);
            }
            i = i + 1;
        }
        proof {
            assert(self.touches@.take(self.touches@.len() as int) =~= self.touches@);
        }
        buf
    }
}

/// The 16-bit samples of an outgoing audio frame, each as two little-endian
/// bytes, in order.
pub open spec fn spec_pcm_bytes(samples: Seq<i16>) -> Seq<u8>
    decreases samples.len(),
{
    if samples.len() == 0 {
        Seq::empty()
    } else {
        spec_pcm_bytes(samples.drop_last()) + spec_u16_to_le_bytes(samples.last() as u16)
    }
}

/// Microphone audio for the dongle: the fixed prefix for a 16 kHz mono
/// stream (decode type 5, volume 0, audio type 3), then the samples.
#[derive(Debug, Clone)]
pub struct SendAudio {
    pub data: Vec<i16>,
}

impl SendAudio {
    pub fn new(data: Vec<i16>) -> (r: Self)
        ensures
            r.data@ == data@,
    {
        SendAudio { data }
    }
}

impl SendableMessage for SendAudio {
    open spec fn spec_message_type(&self) -> MessageType {
        MessageType::AudioData
    }

    open spec fn spec_payload(&self) -> Seq<u8> {
        spec_u32_to_le_bytes(5) + spec_u32_to_le_bytes(0) + spec_u32_to_le_bytes(3)
            + spec_pcm_bytes(self.data@)
    }

    fn message_type(&self) -> (t: MessageType) {
        MessageType::AudioData
    }

    fn get_payload(&self) -> (p: Vec<u8>) {
        let mut buf: Vec<u8> = Vec::new();
        push_u32_le(&mut buf, 5);
        push_u32_le(&mut buf, 0);
        push_u32_le(&mut buf, 3);
        let ghost prefix = buf@;
        let mut i: usize = 0;
        while i < self.data.len()
            invariant
                i <= self.data@.len(),
                buf@ == prefix + spec_pcm_bytes(self.data@.take(i as int)),
            decreases self.data@.len() - i,
        {
            let sample = self.data[i];
            push_u16_le(&mut buf, #[verifier::truncate] (sample as u16));
            proof {
                assert(self.data@.take(i + 1).drop_last() =~= self.data@.take(i as int));
                assert(self.data@.take(i + 1).last() == self.data@[i as int]);
            }
            i = i + 1;
        }
        proof {
            assert(self.data@.take(self.data@.len() as int) =~= self.data@);
        }
        buf
    }
}

/// The payload of a file-write frame: the NUL-terminated name with its
/// length, then the content with its length.
pub open spec fn spec_file_payload(name: Seq<char>, content: Seq<u8>) -> Seq<u8> {
    let name_bytes = encode_utf8(name) + seq![0u8];
    spec_u32_to_le_bytes(name_bytes.len() as u32) + name_bytes + spec_u32_to_le_bytes(
        content.len() as u32,
    ) + content
}

/// A write to one of the dongle's virtual files.
#[derive(Debug, Clone)]
pub struct SendFile {
    pub content: Vec<u8>,
    pub file_name: String,
}

impl SendFile {
    pub fn new(content: Vec<u8>, file_name: String) -> (r: Self)
        ensures
            r.content@ == content@,
            r.file_name@ == file_name@,
    {
        SendFile { content, file_name }
    }

    /// The file name as wire bytes: its UTF-8 encoding, NUL-terminated.
    fn get_file_name(&self) -> (r: Vec<u8>)
        ensures
            r@ == encode_utf8(self.file_name@) + seq![0u8],
    {
        let mut name = self.file_name.as_str().as_bytes_vec();
        name.push(0);
        name
    }
}

impl SendableMessage for SendFile {
    open spec fn spec_message_type(&self) -> MessageType {
        MessageType::SendFile
    }

    open spec fn spec_payload(&self) -> Seq<u8> {
        spec_file_payload(self.file_name@, self.content@)
    }

    fn message_type(&self) -> (t: MessageType) {
        MessageType::SendFile
    }

    fn get_payload(&self) -> (p: Vec<u8>) {
        let mut new_file_name = self.get_file_name();
        let mut buf: Vec<u8> = Vec::new();
        push_u32_le(&mut buf, new_file_name.len() as u32);
        buf.append(&mut new_file_name);
        push_u32_le(&mut buf, self.content.len() as u32);
        let mut content = slice_to_vec(self.content.as_slice());
        buf.append(&mut content);
        buf
    }
}

/// The dongle's fixed namespace of virtual file paths.
#[derive(Debug, Clone, Copy, PartialEq, Eq, Structural)]
pub enum FileAddress {
    Dpi,
    NightMode,
    HandDriveMode,
    ChargeMode,
    BoxName,
    OemIcon,
    AirplayConfig,
    Icon120,
    Icon180,
    Icon250,
    AndroidWorkMode,
}

impl FileAddress {
    /// The device-side path this address names.
    pub open spec fn spec_path(self) -> Seq<char> {
        match self {
            FileAddress::Dpi => "/tmp/screen_dpi"@,
            FileAddress::NightMode => "/tmp/night_mode"@,
            FileAddress::HandDriveMode => "/tmp/hand_drive_mode"@,
            FileAddress::ChargeMode => "/tmp/charge_mode"@,
            FileAddress::BoxName => "/etc/box_name"@,
            FileAddress::OemIcon => "/etc/oem_icon.png"@,
            FileAddress::AirplayConfig => "/etc/airplay.conf"@,
            FileAddress::Icon120 => "/etc/icon_120x120.png"@,
            FileAddress::Icon180 => "/etc/icon_180x180.png"@,
            FileAddress::Icon250 => "/etc/icon_256x256.png"@,
            FileAddress::AndroidWorkMode => "/etc/android_work_mode"@,
        }
    }

    pub fn as_str(&self) -> (r: &'static str)
        ensures
            r@ == self.spec_path(),
    {
        match self {
            FileAddress::Dpi => "/tmp/screen_dpi",
            FileAddress::NightMode => "/tmp/night_mode",
            FileAddress::HandDriveMode => "/tmp/hand_drive_mode",
            FileAddress::ChargeMode => "/tmp/charge_mode",
            FileAddress::BoxName => "/etc/box_name",
            FileAddress::OemIcon => "/etc/oem_icon.png",
            FileAddress::AirplayConfig => "/etc/airplay.conf",
            FileAddress::Icon120 => "/etc/icon_120x120.png",
            FileAddress::Icon180 => "/etc/icon_180x180.png",
            FileAddress::Icon250 => "/etc/icon_256x256.png",
            FileAddress::AndroidWorkMode => "/etc/android_work_mode",
        }
    }
}

/// Every path in the fixed namespace is short ASCII text, so its wire form
/// is one byte per character and a whole file-write frame around a small
/// content always fits the header's length word.
pub proof fn lemma_path_bytes(file: FileAddress)
    ensures
        encode_utf8(file.spec_path()).len() == file.spec_path().len(),
        file.spec_path().len() <= 22,
{
    match file {
        FileAddress::Dpi => {
            reveal_strlit("/tmp/screen_dpi");
            assert(is_ascii_chars("/tmp/screen_dpi"@));
            is_ascii_chars_encode_utf8("/tmp/screen_dpi"@);
        },
        FileAddress::NightMode => {
            reveal_strlit("/tmp/night_mode");
            assert(is_ascii_chars("/tmp/night_mode"@));
            is_ascii_chars_encode_utf8("/tmp/night_mode"@);
        },
        FileAddress::HandDriveMode => {
            reveal_strlit("/tmp/hand_drive_mode");
            assert(is_ascii_chars("/tmp/hand_drive_mode"@));
            is_ascii_chars_encode_utf8("/tmp/hand_drive_mode"@);
        },
        FileAddress::ChargeMode => {
            reveal_strlit("/tmp/charge_mode");
            assert(is_ascii_chars("/tmp/charge_mode"@));
            is_ascii_chars_encode_utf8("/tmp/charge_mode"@);
        },
        FileAddress::BoxName => {
            reveal_strlit("/etc/box_name");
            assert(is_ascii_chars("/etc/box_name"@));
            is_ascii_chars_encode_utf8("/etc/box_name"@);
        },
        FileAddress::OemIcon => {
            reveal_strlit("/etc/oem_icon.png");
            assert(is_ascii_chars("/etc/oem_icon.png"@));
            is_ascii_chars_encode_utf8("/etc/oem_icon.png"@);
        },
        FileAddress::AirplayConfig => {
            reveal_strlit("/etc/airplay.conf");
            assert(is_ascii_chars("/etc/airplay.conf"@));
            is_ascii_chars_encode_utf8("/etc/airplay.conf"@);
        },
        FileAddress::Icon120 => {
            reveal_strlit("/etc/icon_120x120.png");
            assert(is_ascii_chars("/etc/icon_120x120.png"@));
            is_ascii_chars_encode_utf8("/etc/icon_120x120.png"@);
        },
        FileAddress::Icon180 => {
            reveal_strlit("/etc/icon_180x180.png");
            assert(is_ascii_chars("/etc/icon_180x180.png"@));
            is_ascii_chars_encode_utf8("/etc/icon_180x180.png"@);
        },
        FileAddress::Icon250 => {
            reveal_strlit("/etc/icon_256x256.png");
            assert(is_ascii_chars("/etc/icon_256x256.png"@));
            is_ascii_chars_encode_utf8("/etc/icon_256x256.png"@);
        },
        FileAddress::AndroidWorkMode => {
            reveal_strlit("/etc/android_work_mode");
            assert(is_ascii_chars("/etc/android_work_mode"@));
            is_ascii_chars_encode_utf8("/etc/android_work_mode"@);
        },
    }
}

/// A 32-bit number written to a device file, as a file-write frame.
#[derive(Debug, Clone)]
pub struct SendNumber {
    pub inner: SendFile,
}

impl SendNumber {
    pub fn new(content: u32, file: FileAddress) -> (r: Self)
        ensures
            r.inner.file_name@ == file.spec_path(),
            r.inner.content@ == spec_u32_to_le_bytes(content),
    {
        let message = u32_to_le_bytes(content);
        let inner = SendFile::new(message, file.as_str().to_owned());
        SendNumber { inner }
    }
}

impl SendableMessage for SendNumber {
    open spec fn spec_message_type(&self) -> MessageType {
        self.inner.spec_message_type()
    }

    open spec fn spec_payload(&self) -> Seq<u8> {
        self.inner.spec_payload()
    }

    fn message_type(&self) -> (t: MessageType) {
        self.inner.message_type()
    }

    fn get_payload(&self) -> (p: Vec<u8>) {
        self.inner.get_payload()
    }
}

/// A boolean written to a device file: 1 for true, 0 for false.
#[derive(Debug, Clone)]
pub struct SendBoolean {
    pub inner: SendNumber,
}

impl SendBoolean {
    pub fn new(content: bool, file: FileAddress) -> (r: Self)
        ensures
            r.inner.inner.file_name@ == file.spec_path(),
            r.inner.inner.content@ == spec_u32_to_le_bytes(if content { 1u32 } else { 0u32 }),
    {
        let inner = SendNumber::new(if content { 1 } else { 0 }, file);
        SendBoolean { inner }
    }
}

impl SendableMessage for SendBoolean {
    open spec fn spec_message_type(&self) -> MessageType {
        self.inner.spec_message_type()
    }

    open spec fn spec_payload(&self) -> Seq<u8> {
        self.inner.spec_payload()
    }

    fn message_type(&self) -> (t: MessageType) {
        self.inner.message_type()
    }

    fn get_payload(&self) -> (p: Vec<u8>) {
        self.inner.get_payload()
    }
}

/// A text value written to a device file.  The device reads at most 16
/// bytes from these files, but longer values are passed through unchanged,
/// never truncated or rejected.
#[derive(Debug, Clone)]
pub struct SendString {
    pub inner: SendFile,
}

impl SendString {
    pub fn new(content: String, file: FileAddress) -> (r: Self)
        ensures
            r.inner.file_name@ == file.spec_path(),
            r.inner.content@ == encode_utf8(content@),
    {
        let message = content.as_str().as_bytes_vec();
        let inner = SendFile::new(message, file.as_str().to_owned());
        SendString { inner }
    }
}

impl SendableMessage for SendString {
    open spec fn spec_message_type(&self) -> MessageType {
        self.inner.spec_message_type()
    }

    open spec fn spec_payload(&self) -> Seq<u8> {
        self.inner.spec_payload()
    }

    fn message_type(&self) -> (t: MessageType) {
        self.inner.message_type()
    }

    fn get_payload(&self) -> (p: Vec<u8>) {
        self.inner.get_payload()
    }
}

/// The periodic liveness frame: tag only, no payload.
#[derive(Debug, Clone, Copy, PartialEq, Eq, Structural)]
pub struct HeartBeat;

impl SendableMessage for HeartBeat {
    open spec fn spec_message_type(&self) -> MessageType {
        MessageType::HeartBeat
    }

    open spec fn spec_payload(&self) -> Seq<u8> {
        Seq::empty()
    }

    fn message_type(&self) -> (t: MessageType) {
        MessageType::HeartBeat
    }

    fn get_payload(&self) -> (p: Vec<u8>) {
        Vec::new()
    }
}

/// The seven words of the video-session open request, in wire order.
pub open spec fn spec_open_payload(
    width: u32,
    height: u32,
    fps: u32,
    format: u32,
    packet_max: u32,
    i_box_version: u32,
    phone_work_mode: u32,
) -> Seq<u8> {
    spec_u32_to_le_bytes(width) + spec_u32_to_le_bytes(height) + spec_u32_to_le_bytes(fps)
        + spec_u32_to_le_bytes(format) + spec_u32_to_le_bytes(packet_max) + spec_u32_to_le_bytes(
        i_box_version,
    ) + spec_u32_to_le_bytes(phone_work_mode)
}

/// The open request that establishes the video session: the session
/// parameters from the configuration, fixed at construction.
#[derive(Debug, Clone, Copy, PartialEq, Eq, Structural)]
pub struct SendOpen {
    pub width: u32,
    pub height: u32,
    pub fps: u32,
    pub format: u32,
    pub packet_max: u32,
    pub i_box_version: u32,
    pub phone_work_mode: u32,
}

impl SendOpen {
    pub fn new(config: &DongleConfig) -> (r: Self)
        ensures
            r.width == config.width,
            r.height == config.height,
            r.fps == config.fps,
            r.format == config.format,
            r.packet_max == config.packet_max,
            r.i_box_version == config.i_box_version,
            r.phone_work_mode == config.phone_work_mode,
    {
        SendOpen {
            width: config.width,
            height: config.height,
            fps: config.fps,
            format: config.format,
            packet_max: config.packet_max,
            i_box_version: config.i_box_version,
            phone_work_mode: config.phone_work_mode,
        }
    }
}

impl SendableMessage for SendOpen {
    open spec fn spec_message_type(&self) -> MessageType {
        MessageType::Open
    }

    open spec fn spec_payload(&self) -> Seq<u8> {
        spec_open_payload(
            self.width,
            self.height,
            self.fps,
            self.format,
            self.packet_max,
            self.i_box_version,
            self.phone_work_mode,
        )
    }

    fn message_type(&self) -> (t: MessageType) {
        MessageType::Open
    }

    fn get_payload(&self) -> (p: Vec<u8>) {
        let mut buf: Vec<u8> = Vec::new();
        push_u32_le(&mut buf, self.width);
        push_u32_le(&mut buf, self.height);
        push_u32_le(&mut buf, self.fps);
        push_u32_le(&mut buf, self.format);
        push_u32_le(&mut buf, self.packet_max);
        push_u32_le(&mut buf, self.i_box_version);
        push_u32_le(&mut buf, self.phone_work_mode);
        buf
    }
}

/// The decimal digits of `n`, most significant first.
pub open spec fn spec_dec_digits(n: nat) -> Seq<u8>
    decreases n,
{
    if n < 10 {
        seq![(n + 0x30) as u8]
    } else {
        spec_dec_digits(n / 10) + seq![((n % 10) + 0x30) as u8]
    }
}

proof fn lemma_dec_digits_len_rec(n: nat, k: nat)
    requires
        k >= 1,
        n < vstd::arithmetic::power::pow(10, k),
    ensures
        1 <= spec_dec_digits(n).len() <= k,
    decreases k,
{
    if n < 10 {
    } else {
        let p = vstd::arithmetic::power::pow(10, (k - 1) as nat);
        vstd::arithmetic::power::lemma_pow_positive(10, (k - 1) as nat);
        vstd::arithmetic::power::lemma_pow1(10);
        vstd::arithmetic::power::lemma_pow_adds(10, 1, (k - 1) as nat);
        assert(vstd::arithmetic::power::pow(10, k) == 10 * p);
        assert(n / 10 < p) by (nonlinear_arith)
            requires
                n < 10 * p,
                p >= 1,
        ;
        lemma_dec_digits_len_rec(n / 10, (k - 1) as nat);
    }
}

/// Twenty decimal digits cover any 64-bit value.
pub proof fn lemma_dec_digits_len(n: nat)
    requires
        n < 0x1_0000_0000_0000_0000,
    ensures
        1 <= spec_dec_digits(n).len() <= 20,
{
    assert(vstd::arithmetic::power::pow(10, 20) > 0x1_0000_0000_0000_0000) by {
        reveal_with_fuel(vstd::arithmetic::power::pow, 21);
    }
    lemma_dec_digits_len_rec(n, 20);
}

/// Appends the decimal digits of `n`.
fn push_decimal(buf: &mut Vec<u8>, n: u64)
    ensures
        final(buf)@ == old(buf)@ + spec_dec_digits(n as nat),
{
    let mut digits: Vec<u8> = Vec::new();
    let mut m = n;
    while m >= 10
        invariant
            spec_dec_digits(n as nat) == spec_dec_digits(m as nat) + digits@.reverse(),
        decreases m,
    {
        let d = (m % 10) as u8 + 0x30;
        proof {
            assert(digits@.push(d).reverse() =~= seq![d] + digits@.reverse());
        }
        digits.push(d);
        m = m / 10;
    }
    let d = m as u8 + 0x30;
    proof {
        assert(digits@.push(d).reverse() =~= seq![d] + digits@.reverse());
        assert(spec_dec_digits(m as nat) =~= seq![d]);
    }
    digits.push(d);

    let mut i = digits.len();
    while i > 0
        invariant
            i <= digits@.len(),
            buf@ == old(buf)@ + digits@.skip(i as int).reverse(),
        decreases i,
    {
        i = i - 1;
        buf.push(digits[i]);
        proof {
            assert(digits@.skip(i as int).reverse() =~= digits@.skip(i + 1).reverse().push(
                digits@[i as int],
            ));
        }
    }
    proof {
        assert(digits@.skip(0).reverse() == digits@.reverse());
        assert(final(buf)@ == old(buf)@ + digits@.reverse());
    }
}

/// The box-settings JSON object, byte for byte: the four fields in fixed
/// order, integers in decimal, no whitespace.
pub open spec fn spec_box_settings_payload(
    media_delay: u32,
    sync_time: u64,
    width: u32,
    height: u32,
) -> Seq<u8> {
    encode_utf8("{\"media_delay\":"@) + spec_dec_digits(media_delay as nat) + encode_utf8(
        ",\"sync_time\":"@,
    ) + spec_dec_digits(sync_time as nat) + encode_utf8(",\"android_auto_size_w\":"@)
        + spec_dec_digits(width as nat) + encode_utf8(",\"android_auto_size_h\":"@)
        + spec_dec_digits(height as nat) + encode_utf8("}"@)
}

/// The fixed pieces of the settings JSON are short ASCII text, so the
/// whole object always fits the header's length word.
pub proof fn lemma_box_settings_payload_len(
    media_delay: u32,
    sync_time: u64,
    width: u32,
    height: u32,
)
    ensures
        spec_box_settings_payload(media_delay, sync_time, width, height).len() <= 160,
{
    reveal_strlit("{\"media_delay\":");
    assert(is_ascii_chars("{\"media_delay\":"@));
    is_ascii_chars_encode_utf8("{\"media_delay\":"@);
    reveal_strlit(",\"sync_time\":");
    assert(is_ascii_chars(",\"sync_time\":"@));
    is_ascii_chars_encode_utf8(",\"sync_time\":"@);
    reveal_strlit(",\"android_auto_size_w\":");
    assert(is_ascii_chars(",\"android_auto_size_w\":"@));
    is_ascii_chars_encode_utf8(",\"android_auto_size_w\":"@);
    reveal_strlit(",\"android_auto_size_h\":");
    assert(is_ascii_chars(",\"android_auto_size_h\":"@));
    is_ascii_chars_encode_utf8(",\"android_auto_size_h\":"@);
    reveal_strlit("}");
    assert(is_ascii_chars("}"@));
    is_ascii_chars_encode_utf8("}"@);
    lemma_dec_digits_len(media_delay as nat);
    lemma_dec_digits_len(sync_time as nat);
    lemma_dec_digits_len(width as nat);
    lemma_dec_digits_len(height as nat);
}

/// The settings JSON pushed during the handshake: media delay, a sync
/// timestamp, and the Android Auto canvas size.
#[derive(Debug, Clone, Copy, PartialEq, Eq, Structural)]
pub struct SendBoxSettings {
    pub media_delay: u32,
    pub sync_time: u64,
    pub width: u32,
    pub height: u32,
}

impl SendBoxSettings {
    /// Relies on `std::time::SystemTime`: milliseconds since the UNIX epoch
    /// at the moment of the call.  The value depends on the wall clock, so
    /// nothing is promised of it; a clock before the epoch reads as zero.
    #[verifier::external_body]
    pub fn get_current_time_ms() -> u64 {
        std::time::SystemTime::now()
            .duration_since(std::time::UNIX_EPOCH)
            .map(|d| d.as_millis() as u64)
            .unwrap_or(0)
    }

    /// Takes the caller's sync time when one is given; otherwise stamps the
    /// message with the wall clock now.
    pub fn new(config: &DongleConfig, sync_time: Option<u64>) -> (r: Self)
        ensures
            r.media_delay == config.media_delay,
            r.width == config.width,
            r.height == config.height,
            sync_time matches Some(t) ==> r.sync_time == t,
    {
        let resolved = match sync_time {
            Some(t) => t,
            None => Self::get_current_time_ms(),
        };
        SendBoxSettings {
            media_delay: config.media_delay,
            sync_time: resolved,
            width: config.width,
            height: config.height,
        }
    }
}

impl SendableMessage for SendBoxSettings {
    open spec fn spec_message_type(&self) -> MessageType {
        MessageType::BoxSettings
    }

    open spec fn spec_payload(&self) -> Seq<u8> {
        spec_box_settings_payload(self.media_delay, self.sync_time, self.width, self.height)
    }

    fn message_type(&self) -> (t: MessageType) {
        MessageType::BoxSettings
    }

    fn get_payload(&self) -> (p: Vec<u8>) {
        let mut buf = ("{\"media_delay\":").as_bytes_vec();
        push_decimal(&mut buf, self.media_delay as u64);
        let mut part = (",\"sync_time\":").as_bytes_vec();
        buf.append(&mut part);
        push_decimal(&mut buf, self.sync_time);
        let mut part = (",\"android_auto_size_w\":").as_bytes_vec();
        buf.append(&mut part);
        push_decimal(&mut buf, self.width as u64);
        let mut part = (",\"android_auto_size_h\":").as_bytes_vec();
        buf.append(&mut part);
        push_decimal(&mut buf, self.height as u64);
        let mut part = ("}").as_bytes_vec();
        buf.append(&mut part);
        buf
    }
}

/// Which logo the head unit asks the dongle to show.
#[derive(Debug, Clone, Copy, PartialEq, Eq, Structural)]
pub enum LogoType {
    HomeButton,
    Siri,
}

impl LogoType {
    /// The wire code of this logo kind.
    pub open spec fn spec_code(self) -> u32 {
        match self {
            LogoType::HomeButton => 1,
            LogoType::Siri => 2,
        }
    }

    pub fn code(&self) -> (r: u32)
        ensures
            r == self.spec_code(),
    {
        match self {
            LogoType::HomeButton => 1,
            LogoType::Siri => 2,
        }
    }
}

/// A logo selection frame: one word naming the logo.
#[derive(Debug, Clone, Copy, PartialEq, Eq, Structural)]
pub struct SendLogoType {
    pub logo_type: LogoType,
}

impl SendLogoType {
    pub fn new(logo_type: LogoType) -> (r: Self)
        ensures
            r.logo_type == logo_type,
    {
        SendLogoType { logo_type }
    }
}

impl SendableMessage for SendLogoType {
    open spec fn spec_message_type(&self) -> MessageType {
        MessageType::LogoType
    }

    open spec fn spec_payload(&self) -> Seq<u8> {
        spec_u32_to_le_bytes(self.logo_type.spec_code())
    }

    fn message_type(&self) -> (t: MessageType) {
        MessageType::LogoType
    }

    fn get_payload(&self) -> (p: Vec<u8>) {
        u32_to_le_bytes(self.logo_type.code())
    }
}

/// What goes into the airplay configuration file: the fixed identity
/// lines, with the optional OEM icon label appended, newline-terminated.
pub open spec fn spec_icon_content(label: Option<Seq<char>>) -> Seq<u8> {
    let base = encode_utf8(
        "oemIconVisible = 1\nname = AutoBox\nmodel = Magic-Car-Link-1.00\noemIconPath = /etc/oem_icon.png"@,
    );
    match label {
        Some(l) => base + encode_utf8("\noemIconLabel = "@) + encode_utf8(l) + encode_utf8("\n"@),
        None => base + encode_utf8("\n"@),
    }
}

/// The optional pieces of the icon configuration file.
#[derive(Debug)]
pub struct IconConfig {
    pub label: Option<&'static str>,
}

impl Default for IconConfig {
    fn default() -> (r: Self)
        ensures
            r.label is None,
    {
        IconConfig { label: None }
    }
}

/// The icon configuration written to the airplay configuration file, as a
/// file-write frame.
#[derive(Debug, Clone)]
pub struct SendIconConfig {
    pub inner: SendFile,
}

impl SendIconConfig {
    pub fn new(config: IconConfig) -> (r: Self)
        ensures
            r.inner.file_name@ == FileAddress::AirplayConfig.spec_path(),
            r.inner.content@ == spec_icon_content(
                match config.label {
                    Some(l) => Some(l@),
                    None => None::<Seq<char>>,
                },
            ),
    {
        let mut content = (
        "oemIconVisible = 1\nname = AutoBox\nmodel = Magic-Car-Link-1.00\noemIconPath = /etc/oem_icon.png"
        ).as_bytes_vec();
        if let Some(label) = config.label {
            let mut part = ("\noemIconLabel = ").as_bytes_vec();
            content.append(&mut part);
            let mut part = label.as_bytes_vec();
            content.append(&mut part);
        }
        let mut part = ("\n").as_bytes_vec();
        content.append(&mut part);

        let inner = SendFile::new(content, FileAddress::AirplayConfig.as_str().to_owned());
        SendIconConfig { inner }
    }
}

impl SendableMessage for SendIconConfig {
    open spec fn spec_message_type(&self) -> MessageType {
        self.inner.spec_message_type()
    }

    open spec fn spec_payload(&self) -> Seq<u8> {
        self.inner.spec_payload()
    }

    fn message_type(&self) -> (t: MessageType) {
        self.inner.message_type()
    }

    fn get_payload(&self) -> (p: Vec<u8>) {
        self.inner.get_payload()
    }
}

/// Tells the dongle to shut the session down: tag only, no payload.
#[derive(Debug, Clone, Copy, PartialEq, Eq, Structural)]
pub struct SendCloseDongle;

impl SendableMessage for SendCloseDongle {
    open spec fn spec_message_type(&self) -> MessageType {
        MessageType::CloseDongle
    }

    open spec fn spec_payload(&self) -> Seq<u8> {
        Seq::empty()
    }

    fn message_type(&self) -> (t: MessageType) {
        MessageType::CloseDongle
    }

    fn get_payload(&self) -> (p: Vec<u8>) {
        Vec::new()
    }
}

/// Asks the dongle to drop the phone connection: tag only, no payload.
#[derive(Debug, Clone, Copy, PartialEq, Eq, Structural)]
pub struct SendDisconnectPhone;

impl SendableMessage for SendDisconnectPhone {
    open spec fn spec_message_type(&self) -> MessageType {
        MessageType::DisconnectPhone
    }

    open spec fn spec_payload(&self) -> Seq<u8> {
        Seq::empty()
    }

    fn message_type(&self) -> (t: MessageType) {
        MessageType::DisconnectPhone
    }

    fn get_payload(&self) -> (p: Vec<u8>) {
        Vec::new()
    }
}

} // verus!
