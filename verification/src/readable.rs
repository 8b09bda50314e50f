//! Device-to-host payloads: one type per frame kind the dongle can send.
//!
//! Each type owns its decode-from-bytes logic.  Fixed-width struct shapes
//! reject short buffers with a decode error instead of reading past the end;
//! text shapes decode the whole payload as UTF-8 with lossy replacement;
//! the audio payload dispatches on the length of its tail.  Fields that are
//! floating-point numbers on the wire are carried as their raw 32-bit
//! little-endian bit patterns, leaving their interpretation to consumers.

use base64::Engine;
use vstd::prelude::*;
use vstd::bytes::spec_u16_from_le_bytes;
use vstd::bytes::spec_u32_from_le_bytes;
use vstd::slice::slice_subrange;
use vstd::slice::slice_to_vec;
use crate::commands::CommandMapping;
use crate::message::MessageHeader;
use crate::wire::read_u16_at;
use crate::wire::read_u32_at;

verus! {

/// Why a typed payload failed to decode.
#[derive(Debug, Clone, Copy, PartialEq, Eq, Structural)]
pub enum PayloadDecodeError {
    /// The payload is shorter than its fixed-width shape requires.
    TooShort { expected: usize, actual: usize },
    /// A one-byte audio tail held a value outside the known command set.
    InvalidAudioCommand(u8),
}

/// The characters that decoding a byte sequence as UTF-8 with lossy
/// replacement yields.
pub uninterp spec fn utf8_lossy(data: Seq<u8>) -> Seq<char>;

/// Relies on `String::from_utf8_lossy`: the result depends on the bytes
/// alone, invalid sequences are replaced rather than rejected, and valid
/// UTF-8 decodes to exactly its own characters.
#[verifier::external_body]
fn bytes_to_string_lossy(data: &[u8]) -> (r: String)
    ensures
        r@ == utf8_lossy(data@),
        vstd::utf8::valid_utf8(data@) ==> r@ == vstd::utf8::decode_utf8(data@),
{
    String::from_utf8_lossy(data).into_owned()
}

/// A decoded device-to-host message.  `get_data` hands out the raw stream
/// bytes for the kinds that carry any; everything else yields nothing.
pub trait ReadableMessage {
    /// The stream bytes this message carries.
    spec fn spec_data(&self) -> Seq<u8>;

    fn get_data(&self) -> (r: Vec<u8>)
        ensures
            r@ == self.spec_data(),
    ;
}

/// A command event: a 32-bit code resolved through the command registry.
#[derive(Debug, Clone)]
pub struct Command {
    pub header: MessageHeader,
    pub value: CommandMapping,
}

impl ReadableMessage for Command {
    open spec fn spec_data(&self) -> Seq<u8> {
        Seq::empty()
    }

    fn get_data(&self) -> (r: Vec<u8>) {
        Vec::new()
    }
}

impl Command {
    /// What a correct decode of `data` under `header` looks like.
    pub open spec fn spec_decoded(self, header: MessageHeader, data: Seq<u8>) -> bool {
        self.header == header && self.value == CommandMapping::spec_from_u32(
            spec_u32_from_le_bytes(data.subrange(0, 4)),
        )
    }

    /// Decodes the first little-endian word of the payload through the
    /// command registry; anything shorter than a word is rejected.
    pub fn new(header: MessageHeader, data: Vec<u8>) -> (r: Result<Self, PayloadDecodeError>)
        ensures
            r is Ok <==> data@.len() >= 4,
            r matches Ok(c) ==> c.spec_decoded(header, data@),
            r matches Err(e) ==> e == (PayloadDecodeError::TooShort {
                expected: 4,
                actual: data@.len() as usize,
            }),
    {
        if data.len() < 4 {
            return Err(PayloadDecodeError::TooShort { expected: 4, actual: data.len() });
        }
        let value = CommandMapping::from(read_u32_at(data.as_slice(), 0));
        Ok(Command { header, value })
    }
}

/// Two opaque words of manufacturer information.
#[derive(Debug, Clone)]
pub struct ManufacturerInfo {
    pub header: MessageHeader,
    pub a: u32,
    pub b: u32,
}

impl ReadableMessage for ManufacturerInfo {
    open spec fn spec_data(&self) -> Seq<u8> {
        Seq::empty()
    }

    fn get_data(&self) -> (r: Vec<u8>) {
        Vec::new()
    }
}

impl ManufacturerInfo {
    /// What a correct decode of `data` under `header` looks like.
    pub open spec fn spec_decoded(self, header: MessageHeader, data: Seq<u8>) -> bool {
        self.header == header && self.a == spec_u32_from_le_bytes(data.subrange(0, 4))
            && self.b == spec_u32_from_le_bytes(data.subrange(4, 8))
    }

    /// Decodes two little-endian words, in wire order.
    pub fn new(header: MessageHeader, data: Vec<u8>) -> (r: Result<Self, PayloadDecodeError>)
        ensures
            r is Ok <==> data@.len() >= 8,
            r matches Ok(m) ==> m.spec_decoded(header, data@),
            r matches Err(e) ==> e == (PayloadDecodeError::TooShort {
                expected: 8,
                actual: data@.len() as usize,
            }),
    {
        if data.len() < 8 {
            return Err(PayloadDecodeError::TooShort { expected: 8, actual: data.len() });
        }
        let a = read_u32_at(data.as_slice(), 0);
        let b = read_u32_at(data.as_slice(), 4);
        Ok(ManufacturerInfo { header, a, b })
    }
}

/// The dongle's software version, as reported in text.
#[derive(Debug, Clone)]
pub struct SoftwareVersion {
    pub header: MessageHeader,
    pub version: String,
}

impl ReadableMessage for SoftwareVersion {
    open spec fn spec_data(&self) -> Seq<u8> {
        Seq::empty()
    }

    fn get_data(&self) -> (r: Vec<u8>) {
        Vec::new()
    }
}

impl SoftwareVersion {
    /// What a correct decode of `data` under `header` looks like.
    pub open spec fn spec_decoded(self, header: MessageHeader, data: Seq<u8>) -> bool {
        self.header == header && self.version@ == utf8_lossy(data)
    }

    /// Decodes the whole payload as lossy UTF-8 text.
    pub fn new(header: MessageHeader, data: Vec<u8>) -> (r: Self)
        ensures
            r.spec_decoded(header, data@),
    {
        let version = bytes_to_string_lossy(data.as_slice());
        SoftwareVersion { header, version }
    }
}

/// The bluetooth address the dongle advertises, in text.
#[derive(Debug, Clone)]
pub struct BluetoothAddress {
    pub header: MessageHeader,
    pub address: String,
}

impl ReadableMessage for BluetoothAddress {
    open spec fn spec_data(&self) -> Seq<u8> {
        Seq::empty()
    }

    fn get_data(&self) -> (r: Vec<u8>) {
        Vec::new()
    }
}

impl BluetoothAddress {
    /// What a correct decode of `data` under `header` looks like.
    pub open spec fn spec_decoded(self, header: MessageHeader, data: Seq<u8>) -> bool {
        self.header == header && self.address@ == utf8_lossy(data)
    }

    /// Decodes the whole payload as lossy UTF-8 text.
    pub fn new(header: MessageHeader, data: Vec<u8>) -> (r: Self)
        ensures
            r.spec_decoded(header, data@),
    {
        let address = bytes_to_string_lossy(data.as_slice());
        BluetoothAddress { header, address }
    }
}

/// The bluetooth pairing PIN, in text.
#[derive(Debug, Clone)]
pub struct BluetoothPIN {
    pub header: MessageHeader,
    pub pin: String,
}

impl ReadableMessage for BluetoothPIN {
    open spec fn spec_data(&self) -> Seq<u8> {
        Seq::empty()
    }

    fn get_data(&self) -> (r: Vec<u8>) {
        Vec::new()
    }
}

impl BluetoothPIN {
    /// What a correct decode of `data` under `header` looks like.
    pub open spec fn spec_decoded(self, header: MessageHeader, data: Seq<u8>) -> bool {
        self.header == header && self.pin@ == utf8_lossy(data)
    }

    /// Decodes the whole payload as lossy UTF-8 text.
    pub fn new(header: MessageHeader, data: Vec<u8>) -> (r: Self)
        ensures
            r.spec_decoded(header, data@),
    {
        let pin = bytes_to_string_lossy(data.as_slice());
        BluetoothPIN { header, pin }
    }
}

/// The bluetooth device name, in text.
#[derive(Debug, Clone)]
pub struct BluetoothDeviceName {
    pub header: MessageHeader,
    pub name: String,
}

impl ReadableMessage for BluetoothDeviceName {
    open spec fn spec_data(&self) -> Seq<u8> {
        Seq::empty()
    }

    fn get_data(&self) -> (r: Vec<u8>) {
        Vec::new()
    }
}

impl BluetoothDeviceName {
    /// What a correct decode of `data` under `header` looks like.
    pub open spec fn spec_decoded(self, header: MessageHeader, data: Seq<u8>) -> bool {
        self.header == header && self.name@ == utf8_lossy(data)
    }

    /// Decodes the whole payload as lossy UTF-8 text.
    pub fn new(header: MessageHeader, data: Vec<u8>) -> (r: Self)
        ensures
            r.spec_decoded(header, data@),
    {
        let name = bytes_to_string_lossy(data.as_slice());
        BluetoothDeviceName { header, name }
    }
}

/// The wifi device name, in text.
#[derive(Debug, Clone)]
pub struct WifiDeviceName {
    pub header: MessageHeader,
    pub name: String,
}

impl ReadableMessage for WifiDeviceName {
    open spec fn spec_data(&self) -> Seq<u8> {
        Seq::empty()
    }

    fn get_data(&self) -> (r: Vec<u8>) {
        Vec::new()
    }
}

impl WifiDeviceName {
    /// What a correct decode of `data` under `header` looks like.
    pub open spec fn spec_decoded(self, header: MessageHeader, data: Seq<u8>) -> bool {
        self.header == header && self.name@ == utf8_lossy(data)
    }

    /// Decodes the whole payload as lossy UTF-8 text.
    pub fn new(header: MessageHeader, data: Vec<u8>) -> (r: Self)
        ensures
            r.spec_decoded(header, data@),
    {
        let name = bytes_to_string_lossy(data.as_slice());
        WifiDeviceName { header, name }
    }
}

/// The HiCar pairing link, in text.
#[derive(Debug, Clone)]
pub struct HiCarLink {
    pub header: MessageHeader,
    pub link: String,
}

impl ReadableMessage for HiCarLink {
    open spec fn spec_data(&self) -> Seq<u8> {
        Seq::empty()
    }

    fn get_data(&self) -> (r: Vec<u8>) {
        Vec::new()
    }
}

impl HiCarLink {
    /// What a correct decode of `data` under `header` looks like.
    pub open spec fn spec_decoded(self, header: MessageHeader, data: Seq<u8>) -> bool {
        self.header == header && self.link@ == utf8_lossy(data)
    }

    /// Decodes the whole payload as lossy UTF-8 text.
    pub fn new(header: MessageHeader, data: Vec<u8>) -> (r: Self)
        ensures
            r.spec_decoded(header, data@),
    {
        let link = bytes_to_string_lossy(data.as_slice());
        HiCarLink { header, link }
    }
}

/// The list of previously paired bluetooth devices, in text.
#[derive(Debug, Clone)]
pub struct BluetoothPairedList {
    pub header: MessageHeader,
    pub data: String,
}

impl ReadableMessage for BluetoothPairedList {
    open spec fn spec_data(&self) -> Seq<u8> {
        Seq::empty()
    }

    fn get_data(&self) -> (r: Vec<u8>) {
        Vec::new()
    }
}

impl BluetoothPairedList {
    /// What a correct decode of `data` under `header` looks like.
    pub open spec fn spec_decoded(self, header: MessageHeader, data: Seq<u8>) -> bool {
        self.header == header && self.data@ == utf8_lossy(data)
    }

    /// Decodes the whole payload as lossy UTF-8 text.
    pub fn new(header: MessageHeader, data: Vec<u8>) -> (r: Self)
        ensures
            r.spec_decoded(header, data@),
    {
        let text = bytes_to_string_lossy(data.as_slice());
        BluetoothPairedList { header, data: text }
    }
}

/// The kind of phone behind a plug event.  Codes outside the named set
/// resolve to `Unknown`.
#[derive(Debug, Clone, Copy, PartialEq, Eq, Structural)]
pub enum PhoneType {
    AndroidMirror,
    CarPlay,
    IphoneMirror,
    AndroidAuto,
    HiCar,
    Unknown,
}

impl PhoneType {
    /// The phone type a 32-bit code resolves to.
    pub open spec fn spec_from_u32(value: u32) -> PhoneType {
        match value {
            1 => PhoneType::AndroidMirror,
            3 => PhoneType::CarPlay,
            4 => PhoneType::IphoneMirror,
            5 => PhoneType::AndroidAuto,
            6 => PhoneType::HiCar,
            _ => PhoneType::Unknown,
        }
    }
}

impl From<u32> for PhoneType {
    fn from(value: u32) -> (r: Self) {
        match value {
            1 => PhoneType::AndroidMirror,
            3 => PhoneType::CarPlay,
            4 => PhoneType::IphoneMirror,
            5 => PhoneType::AndroidAuto,
            6 => PhoneType::HiCar,
            _ => PhoneType::Unknown,
        }
    }
}

impl vstd::std_specs::convert::FromSpecImpl<u32> for PhoneType {
    open spec fn obeys_from_spec() -> bool {
        true
    }

    open spec fn from_spec(v: u32) -> PhoneType {
        PhoneType::spec_from_u32(v)
    }
}

/// A phone plugged in: its kind, and the wifi flag word when the payload
/// carries one (the eight-byte form).
#[derive(Debug, Clone)]
pub struct Plugged {
    pub header: MessageHeader,
    pub phone_type: PhoneType,
    pub wifi: Option<u32>,
}

impl ReadableMessage for Plugged {
    open spec fn spec_data(&self) -> Seq<u8> {
        Seq::empty()
    }

    fn get_data(&self) -> (r: Vec<u8>) {
        Vec::new()
    }
}

impl Plugged {
    /// What a correct decode of `data` under `header` looks like.
    pub open spec fn spec_decoded(self, header: MessageHeader, data: Seq<u8>) -> bool {
        self.header == header && self.phone_type == PhoneType::spec_from_u32(
            spec_u32_from_le_bytes(data.subrange(0, 4)),
        ) && self.wifi == (if data.len() == 8 {
            Some(spec_u32_from_le_bytes(data.subrange(4, 8)))
        } else {
            None::<u32>
        })
    }

    /// Decodes the phone type word; a second word is the wifi flag and is
    /// present exactly in the eight-byte payload form.
    pub fn new(header: MessageHeader, data: Vec<u8>) -> (r: Result<Self, PayloadDecodeError>)
        ensures
            r is Ok <==> data@.len() >= 4,
            r matches Ok(p) ==> p.spec_decoded(header, data@),
            r matches Err(e) ==> e == (PayloadDecodeError::TooShort {
                expected: 4,
                actual: data@.len() as usize,
            }),
    {
        if data.len() < 4 {
            return Err(PayloadDecodeError::TooShort { expected: 4, actual: data.len() });
        }
        let phone_type = PhoneType::from(read_u32_at(data.as_slice(), 0));
        let wifi = if data.len() == 8 {
            Some(read_u32_at(data.as_slice(), 4))
        } else {
            None
        };
        Ok(Plugged { header, phone_type, wifi })
    }
}

/// The phone was unplugged; the frame carries nothing but its header.
#[derive(Debug, Clone)]
pub struct Unplugged {
    pub header: MessageHeader,
}

impl ReadableMessage for Unplugged {
    open spec fn spec_data(&self) -> Seq<u8> {
        Seq::empty()
    }

    fn get_data(&self) -> (r: Vec<u8>) {
        Vec::new()
    }
}

impl Unplugged {
    pub fn new(header: MessageHeader) -> (r: Self)
        ensures
            r.header == header,
    {
        Unplugged { header }
    }
}

/// How samples of one audio stream are laid out: rate, channel count and
/// bit depth.
#[derive(Debug, Clone, Copy, PartialEq, Eq, Structural)]
pub struct AudioFormat {
    pub sample_rate: u32,
    pub channels: u8,
    pub bit_depth: u8,
}

/// The format a decode type names, if any.  The table is fixed by the
/// protocol: decode types 1 through 7, always 16-bit samples.
pub open spec fn spec_audio_format(decode_type: u32) -> Option<AudioFormat> {
    match decode_type {
        1 => Some(AudioFormat { sample_rate: 44100, channels: 2, bit_depth: 16 }),
        2 => Some(AudioFormat { sample_rate: 44100, channels: 2, bit_depth: 16 }),
        3 => Some(AudioFormat { sample_rate: 8000, channels: 1, bit_depth: 16 }),
        4 => Some(AudioFormat { sample_rate: 48000, channels: 2, bit_depth: 16 }),
        5 => Some(AudioFormat { sample_rate: 16000, channels: 1, bit_depth: 16 }),
        6 => Some(AudioFormat { sample_rate: 24000, channels: 1, bit_depth: 16 }),
        7 => Some(AudioFormat { sample_rate: 16000, channels: 2, bit_depth: 16 }),
        _ => None::<AudioFormat>,
    }
}

/// An audio routing command carried in a one-byte audio tail.
#[derive(Debug, Clone, Copy, PartialEq, Eq, Structural)]
pub enum AudioCommand {
    AudioOutputStart,
    AudioOutputStop,
    AudioInputConfig,
    AudioPhonecallStart,
    AudioPhonecallStop,
    AudioNaviStart,
    AudioNaviStop,
    AudioSiriStart,
    AudioSiriStop,
    AudioMediaStart,
    AudioMediaStop,
    AudioAlertStart,
    AudioAlertStop,
}

impl AudioCommand {
    /// The command a tail byte names, if any: the thirteen known values,
    /// nothing else.
    pub open spec fn spec_from_u8(value: u8) -> Option<AudioCommand> {
        match value {
            1 => Some(AudioCommand::AudioOutputStart),
            2 => Some(AudioCommand::AudioOutputStop),
            3 => Some(AudioCommand::AudioInputConfig),
            4 => Some(AudioCommand::AudioPhonecallStart),
            5 => Some(AudioCommand::AudioPhonecallStop),
            6 => Some(AudioCommand::AudioNaviStart),
            7 => Some(AudioCommand::AudioNaviStop),
            8 => Some(AudioCommand::AudioSiriStart),
            9 => Some(AudioCommand::AudioSiriStop),
            10 => Some(AudioCommand::AudioMediaStart),
            11 => Some(AudioCommand::AudioMediaStop),
            12 => Some(AudioCommand::AudioAlertStart),
            13 => Some(AudioCommand::AudioAlertStop),
            _ => None::<AudioCommand>,
        }
    }

    /// Resolves a tail byte to its command; bytes outside the known set
    /// yield `None` rather than a reinterpreted value.
    pub fn from_u8(value: u8) -> (r: Option<AudioCommand>)
        ensures
            r == AudioCommand::spec_from_u8(value),
    {
        match value {
            1 => Some(AudioCommand::AudioOutputStart),
            2 => Some(AudioCommand::AudioOutputStop),
            3 => Some(AudioCommand::AudioInputConfig),
            4 => Some(AudioCommand::AudioPhonecallStart),
            5 => Some(AudioCommand::AudioPhonecallStop),
            6 => Some(AudioCommand::AudioNaviStart),
            7 => Some(AudioCommand::AudioNaviStop),
            8 => Some(AudioCommand::AudioSiriStart),
            9 => Some(AudioCommand::AudioSiriStop),
            10 => Some(AudioCommand::AudioMediaStart),
            11 => Some(AudioCommand::AudioMediaStop),
            12 => Some(AudioCommand::AudioAlertStart),
            13 => Some(AudioCommand::AudioAlertStop),
            _ => None,
        }
    }
}

/// The 16-bit little-endian samples a PCM tail holds, one per byte pair;
/// a trailing odd byte is ignored.
pub open spec fn spec_pcm_samples(tail: Seq<u8>) -> Seq<i16> {
    Seq::new((tail.len() / 2) as nat, |j: int| spec_u16_from_le_bytes(
        tail.subrange(2 * j, 2 * j + 2),
    ) as i16)
}

/// An audio frame: a three-word prefix, then a tail whose length picks its
/// meaning.  One byte is a routing command, four bytes are a volume ramp
/// duration, anything else is PCM samples.  At most one of `command`,
/// `volume_duration_bits` and `data` is present.
#[derive(Debug, Clone)]
pub struct AudioData {
    pub header: MessageHeader,
    pub command: Option<AudioCommand>,
    pub decode_type: u32,
    /// Raw bits of the 32-bit volume field; a floating-point number on the
    /// wire, carried through uninterpreted.
    pub volume_bits: u32,
    /// Raw bits of the four-byte volume-duration tail, when present.
    pub volume_duration_bits: Option<u32>,
    pub audio_type: u32,
    pub data: Option<Vec<i16>>,
}

impl ReadableMessage for AudioData {
    open spec fn spec_data(&self) -> Seq<u8> {
        Seq::empty()
    }

    fn get_data(&self) -> (r: Vec<u8>) {
        Vec::new()
    }
}

impl AudioData {
    /// What a correct decode of `data` under `header` looks like.
    pub open spec fn spec_decoded(self, header: MessageHeader, data: Seq<u8>) -> bool {
        &&& self.header == header
        &&& self.decode_type == spec_u32_from_le_bytes(data.subrange(0, 4))
        &&& self.volume_bits == spec_u32_from_le_bytes(data.subrange(4, 8))
        &&& self.audio_type == spec_u32_from_le_bytes(data.subrange(8, 12))
        &&& (data.len() == 13 ==> self.command == AudioCommand::spec_from_u8(data[12])
            && self.volume_duration_bits is None && self.data is None)
        &&& (data.len() == 16 ==> self.command is None && self.volume_duration_bits == Some(
            spec_u32_from_le_bytes(data.subrange(12, 16)),
        ) && self.data is None)
        &&& (data.len() != 13 && data.len() != 16 ==> self.command is None
            && self.volume_duration_bits is None && (self.data matches Some(samples)
            && samples@ == spec_pcm_samples(data.skip(12))))
    }

    /// Decodes the three-word prefix, then dispatches on the tail length:
    /// one byte resolves through the audio command set (and is rejected when
    /// outside it), four bytes are the volume ramp duration, any other
    /// length is a run of 16-bit samples.
    pub fn new(header: MessageHeader, data: Vec<u8>) -> (r: Result<Self, PayloadDecodeError>)
        ensures
            r is Ok <==> data@.len() >= 12 && (data@.len() == 13
                ==> AudioCommand::spec_from_u8(data@[12]) is Some),
            r matches Ok(a) ==> a.spec_decoded(header, data@),
            r matches Err(e) ==> if data@.len() < 12 {
                e == (PayloadDecodeError::TooShort { expected: 12, actual: data@.len() as usize })
            } else {
                e == PayloadDecodeError::InvalidAudioCommand(data@[12])
            },
    {
        if data.len() < 12 {
            return Err(PayloadDecodeError::TooShort { expected: 12, actual: data.len() });
        }
        let decode_type = read_u32_at(data.as_slice(), 0);
        let volume_bits = read_u32_at(data.as_slice(), 4);
        let audio_type = read_u32_at(data.as_slice(), 8);

        let amount = data.len() - 12;
        if amount == 1 {
            let command_byte = *vstd::slice::slice_index_get(data.as_slice(), 12);
            match AudioCommand::from_u8(command_byte) {
                Some(command) => Ok(AudioData {
                    header,
                    command: Some(command),
                    decode_type,
                    volume_bits,
                    volume_duration_bits: None,
                    audio_type,
                    data: None,
                }),
                None => Err(PayloadDecodeError::InvalidAudioCommand(command_byte)),
            }
        } else if amount == 4 {
            let duration = read_u32_at(data.as_slice(), 12);
            Ok(AudioData {
                header,
                command: None,
                decode_type,
                volume_bits,
                volume_duration_bits: Some(duration),
                audio_type,
                data: None,
            })
        } else {
            let n = data.len();
            let count = amount / 2;
            let mut samples: Vec<i16> = Vec::new();
            let ghost tail = data@.skip(12);
            let mut j: usize = 0;
            while j < count
                invariant
                    n == data@.len(),
                    data@.len() >= 12,
                    count == (data@.len() - 12) / 2,
                    tail == data@.skip(12),
                    j <= count,
                    samples@.len() == j,
                    forall|t: int| 0 <= t < j ==> samples@[t] == spec_pcm_samples(tail)[t],
                decreases count - j,
            {
                let word = read_u16_at(data.as_slice(), 12 + 2 * j);
                proof {
                    assert(data@.subrange(12 + 2 * (j as int), 12 + 2 * (j as int) + 2)
                        =~= tail.subrange(2 * (j as int), 2 * (j as int) + 2));
                }
                samples.push(#[verifier::truncate] (word as i16));
                j = j + 1;
            }
            proof {
                assert(samples@ =~= spec_pcm_samples(tail));
            }
            Ok(AudioData {
                header,
                command: None,
                decode_type,
                volume_bits,
                volume_duration_bits: None,
                audio_type,
                data: Some(samples),
            })
        }
    }

    /// Looks the frame's decode type up in the fixed format table.
    pub fn get_audio_format(&self) -> (r: Option<AudioFormat>)
        ensures
            r == spec_audio_format(self.decode_type),
    {
        match self.decode_type {
            1 => Some(AudioFormat { sample_rate: 44100, channels: 2, bit_depth: 16 }),
            2 => Some(AudioFormat { sample_rate: 44100, channels: 2, bit_depth: 16 }),
            3 => Some(AudioFormat { sample_rate: 8000, channels: 1, bit_depth: 16 }),
            4 => Some(AudioFormat { sample_rate: 48000, channels: 2, bit_depth: 16 }),
            5 => Some(AudioFormat { sample_rate: 16000, channels: 1, bit_depth: 16 }),
            6 => Some(AudioFormat { sample_rate: 24000, channels: 1, bit_depth: 16 }),
            7 => Some(AudioFormat { sample_rate: 16000, channels: 2, bit_depth: 16 }),
            _ => None,
        }
    }
}

/// A video frame: a five-word sub-header, then the elementary-stream bytes.
#[derive(Debug, Clone)]
pub struct VideoData {
    pub header: MessageHeader,
    pub width: u32,
    pub height: u32,
    pub flags: u32,
    pub length: u32,
    pub unknown: u32,
    pub data: Vec<u8>,
}

impl ReadableMessage for VideoData {
    open spec fn spec_data(&self) -> Seq<u8> {
        self.data@
    }

    fn get_data(&self) -> (r: Vec<u8>) {
        slice_to_vec(self.data.as_slice())
    }
}

impl VideoData {
    /// What a correct decode of `data` under `header` looks like.
    pub open spec fn spec_decoded(self, header: MessageHeader, data: Seq<u8>) -> bool {
        &&& self.header == header
        &&& self.width == spec_u32_from_le_bytes(data.subrange(0, 4))
        &&& self.height == spec_u32_from_le_bytes(data.subrange(4, 8))
        &&& self.flags == spec_u32_from_le_bytes(data.subrange(8, 12))
        &&& self.length == spec_u32_from_le_bytes(data.subrange(12, 16))
        &&& self.unknown == spec_u32_from_le_bytes(data.subrange(16, 20))
        &&& self.data@ == data.skip(20)
    }

    /// Decodes the five sub-header words; everything after byte 20 is the
    /// frame's stream payload, handed over as-is.
    pub fn new(header: MessageHeader, data: Vec<u8>) -> (r: Result<Self, PayloadDecodeError>)
        ensures
            r is Ok <==> data@.len() >= 20,
            r matches Ok(v) ==> v.spec_decoded(header, data@),
            r matches Err(e) ==> e == (PayloadDecodeError::TooShort {
                expected: 20,
                actual: data@.len() as usize,
            }),
    {
        if data.len() < 20 {
            return Err(PayloadDecodeError::TooShort { expected: 20, actual: data.len() });
        }
        let width = read_u32_at(data.as_slice(), 0);
        let height = read_u32_at(data.as_slice(), 4);
        let flags = read_u32_at(data.as_slice(), 8);
        let length = read_u32_at(data.as_slice(), 12);
        let unknown = read_u32_at(data.as_slice(), 16);
        let tail = slice_to_vec(slice_subrange(data.as_slice(), 20, data.len()));
        proof {
            assert(data@.subrange(20, data@.len() as int) =~= data@.skip(20));
        }
        Ok(VideoData { header, width, height, flags, length, unknown, data: tail })
    }
}

/// The device's answer to the video-session open request: the session
/// parameters it settled on, in the same seven-word layout.
#[derive(Debug, Clone)]
pub struct Opened {
    pub header: MessageHeader,
    pub width: u32,
    pub height: u32,
    pub fps: u32,
    pub format: u32,
    pub packet_max: u32,
    pub i_box: u32,
    pub phone_mode: u32,
}

impl ReadableMessage for Opened {
    open spec fn spec_data(&self) -> Seq<u8> {
        Seq::empty()
    }

    fn get_data(&self) -> (r: Vec<u8>) {
        Vec::new()
    }
}

impl Opened {
    /// What a correct decode of `data` under `header` looks like.
    pub open spec fn spec_decoded(self, header: MessageHeader, data: Seq<u8>) -> bool {
        &&& self.header == header
        &&& self.width == spec_u32_from_le_bytes(data.subrange(0, 4))
        &&& self.height == spec_u32_from_le_bytes(data.subrange(4, 8))
        &&& self.fps == spec_u32_from_le_bytes(data.subrange(8, 12))
        &&& self.format == spec_u32_from_le_bytes(data.subrange(12, 16))
        &&& self.packet_max == spec_u32_from_le_bytes(data.subrange(16, 20))
        &&& self.i_box == spec_u32_from_le_bytes(data.subrange(20, 24))
        &&& self.phone_mode == spec_u32_from_le_bytes(data.subrange(24, 28))
    }

    /// Decodes the seven little-endian words, in wire order.
    pub fn new(header: MessageHeader, data: Vec<u8>) -> (r: Result<Self, PayloadDecodeError>)
        ensures
            r is Ok <==> data@.len() >= 28,
            r matches Ok(o) ==> o.spec_decoded(header, data@),
            r matches Err(e) ==> e == (PayloadDecodeError::TooShort {
                expected: 28,
                actual: data@.len() as usize,
            }),
    {
        if data.len() < 28 {
            return Err(PayloadDecodeError::TooShort { expected: 28, actual: data.len() });
        }
        let width = read_u32_at(data.as_slice(), 0);
        let height = read_u32_at(data.as_slice(), 4);
        let fps = read_u32_at(data.as_slice(), 8);
        let format = read_u32_at(data.as_slice(), 12);
        let packet_max = read_u32_at(data.as_slice(), 16);
        let i_box = read_u32_at(data.as_slice(), 20);
        let phone_mode = read_u32_at(data.as_slice(), 24);
        Ok(Opened { header, width, height, fps, format, packet_max, i_box, phone_mode })
    }
}

/// A phase change word from the dongle.
#[derive(Debug, Clone)]
pub struct Phase {
    pub header: MessageHeader,
    pub phase: u32,
}

impl ReadableMessage for Phase {
    open spec fn spec_data(&self) -> Seq<u8> {
        Seq::empty()
    }

    fn get_data(&self) -> (r: Vec<u8>) {
        Vec::new()
    }
}

impl Phase {
    /// What a correct decode of `data` under `header` looks like.
    pub open spec fn spec_decoded(self, header: MessageHeader, data: Seq<u8>) -> bool {
        self.header == header && self.phase == spec_u32_from_le_bytes(data.subrange(0, 4))
    }

    /// Decodes the single phase word.
    pub fn new(header: MessageHeader, data: Vec<u8>) -> (r: Result<Self, PayloadDecodeError>)
        ensures
            r is Ok <==> data@.len() >= 4,
            r matches Ok(p) ==> p.spec_decoded(header, data@),
            r matches Err(e) ==> e == (PayloadDecodeError::TooShort {
                expected: 4,
                actual: data@.len() as usize,
            }),
    {
        if data.len() < 4 {
            return Err(PayloadDecodeError::TooShort { expected: 4, actual: data.len() });
        }
        let phase = read_u32_at(data.as_slice(), 0);
        Ok(Phase { header, phase })
    }
}

/// The discriminant word a media payload opens with.
#[derive(Debug, Clone, Copy, PartialEq, Eq, Structural)]
pub enum MediaType {
    Data,
    AlbumCover,
}

impl MediaType {
    /// The wire code of this media kind.
    pub open spec fn spec_code(self) -> u32 {
        match self {
            MediaType::Data => 1,
            MediaType::AlbumCover => 3,
        }
    }
}

/// Now-playing metadata, every field optional.  The two time fields are
/// floating-point numbers in the JSON and are carried as their decimal
/// text, leaving their interpretation to consumers.
#[derive(Debug, Clone)]
pub struct MediaInfo {
    pub media_song_name: Option<String>,
    pub media_album_name: Option<String>,
    pub media_artist_name: Option<String>,
    pub media_app_name: Option<String>,
    pub media_song_duration: Option<String>,
    pub media_song_play_time: Option<String>,
}

/// What a media frame carries: parsed now-playing metadata, or an album
/// cover re-encoded as base64 for the consumer.
#[derive(Debug, Clone)]
pub enum MediaPayload {
    Data { media: MediaInfo },
    AlbumCover { base64_image: String },
}

/// What parsing a byte sequence as now-playing JSON yields, if anything.
pub uninterp spec fn media_info_of(data: Seq<u8>) -> Option<MediaInfo>;

/// Relies on serde_json: parses the bytes as a JSON object and picks the
/// six optional now-playing fields out of it; the result is a function of
/// the bytes alone.  Bytes that are not a JSON object yield nothing.
#[verifier::external_body]
fn parse_media_info(data: &[u8]) -> (r: Option<MediaInfo>)
    ensures
        r == media_info_of(data@),
{
    let v: serde_json::Value = serde_json::from_slice(data).ok()?;
    let text = |k: &str| (v.get(k).and_then(|f| f.as_str()).map(|s| s.to_string()));
    let number = |k: &str| (v.get(k).and_then(|f| f.as_number()).map(|n| n.to_string()));
    if !v.is_object() {
        return None;
    }
    Some(MediaInfo {
        media_song_name: text("MediaSongName"),
        media_album_name: text("MediaAlbumName"),
        media_artist_name: text("MediaArtistName"),
        media_app_name: text("MediaAPPName"),
        media_song_duration: number("MediaSongDuration"),
        media_song_play_time: number("MediaSongPlayTime"),
    })
}

/// The characters of the standard base64 encoding, with padding, of a byte
/// sequence.
pub uninterp spec fn base64_of(data: Seq<u8>) -> Seq<char>;

/// Relies on base64's STANDARD engine: the result is a function of the
/// bytes alone, four output characters for every three input bytes with
/// the last group padded.
#[verifier::external_body]
fn base64_encode(data: &[u8]) -> (r: String)
    requires
        4 * ((data@.len() + 2) / 3) <= usize::MAX,
    ensures
        r@ == base64_of(data@),
        r@.len() == 4 * ((data@.len() + 2) / 3),
{
    base64::engine::general_purpose::STANDARD.encode(data)
}

/// Wraps parsed now-playing metadata as a media payload, keeping nothing
/// when the parse yielded nothing.
pub open spec fn spec_media_data_payload(info: Option<MediaInfo>) -> Option<MediaPayload> {
    match info {
        Some(media) => Some(MediaPayload::Data { media }),
        None => None::<MediaPayload>,
    }
}

/// A media frame: a discriminant word, then metadata JSON or image bytes.
#[derive(Debug, Clone)]
pub struct MediaData {
    pub header: MessageHeader,
    pub payload: Option<MediaPayload>,
}

impl ReadableMessage for MediaData {
    open spec fn spec_data(&self) -> Seq<u8> {
        Seq::empty()
    }

    fn get_data(&self) -> (r: Vec<u8>) {
        Vec::new()
    }
}

impl MediaData {
    /// What a correct decode of `data` under `header` looks like.
    pub open spec fn spec_decoded(self, header: MessageHeader, data: Seq<u8>) -> bool {
        let media_type = spec_u32_from_le_bytes(data.subrange(0, 4));
        &&& self.header == header
        &&& (media_type == 1 ==> self.payload == spec_media_data_payload(
            media_info_of(data.subrange(4, data.len() - 1)),
        ))
        &&& (media_type == 3 ==> (self.payload matches Some(MediaPayload::AlbumCover {
            base64_image,
        }) && base64_image@ == base64_of(data.skip(4))))
        &&& (media_type != 1 && media_type != 3 ==> self.payload is None)
    }

    /// Dispatches on the discriminant word: kind 1 parses the bytes up to a
    /// trailing byte as now-playing JSON (an unparseable body means no
    /// payload, not an error); kind 3 re-encodes the image bytes as base64;
    /// any other kind is surfaced with no payload.
    pub fn new(header: MessageHeader, data: Vec<u8>) -> (r: Result<Self, PayloadDecodeError>)
        requires
            4 * ((data@.len() + 2) / 3) <= usize::MAX,
        ensures
            r is Ok <==> data@.len() >= 4 && (spec_u32_from_le_bytes(data@.subrange(0, 4)) == 1
                ==> data@.len() >= 5),
            r matches Ok(m) ==> m.spec_decoded(header, data@),
            r matches Err(e) ==> e == (PayloadDecodeError::TooShort {
                expected: if data@.len() < 4 { 4usize } else { 5usize },
                actual: data@.len() as usize,
            }),
    {
        if data.len() < 4 {
            return Err(PayloadDecodeError::TooShort { expected: 4, actual: data.len() });
        }
        let media_type = read_u32_at(data.as_slice(), 0);
        if media_type == 1 {
            if data.len() < 5 {
                return Err(PayloadDecodeError::TooShort { expected: 5, actual: data.len() });
            }
            let body = slice_subrange(data.as_slice(), 4, data.len() - 1);
            let payload = match parse_media_info(body) {
                Some(media) => Some(MediaPayload::Data { media }),
                None => None,
            };
            Ok(MediaData { header, payload })
        } else if media_type == 3 {
            let image = slice_subrange(data.as_slice(), 4, data.len());
            proof {
                assert(data@.skip(4) =~= data@.subrange(4, data@.len() as int));
            }
            let encoded = base64_encode(image);
            Ok(MediaData { header, payload: Some(MediaPayload::AlbumCover {
                base64_image: encoded,
            }) })
        } else {
            Ok(MediaData { header, payload: None })
        }
    }
}

/// The dongle's JSON self-description, in one of its two known shapes:
/// an OEM/HiCar descriptor, or a model and link-version report.  The CPU
/// temperature of the second shape is a floating-point number in the JSON
/// and is carried as its decimal text.
#[derive(Debug, Clone)]
pub enum BoxSettings {
    Type1 {
        hi_car: u32,
        oem_name: String,
        wifi_channel: u32,
        box_type: String,
        hw_version: String,
        product_type: String,
        uuid: String,
    },
    Type2 {
        md_link_type: String,
        md_model: String,
        md_os_version: String,
        md_link_version: String,
        cpu_temp: String,
    },
}

/// What parsing a byte sequence as the OEM/HiCar descriptor shape yields,
/// if it has all of that shape's keys.
pub uninterp spec fn box_oem_of(data: Seq<u8>) -> Option<BoxSettings>;

/// What parsing a byte sequence as the model report shape yields, if it
/// has all of that shape's keys.
pub uninterp spec fn box_model_of(data: Seq<u8>) -> Option<BoxSettings>;

/// Relies on serde_json: parses the bytes as JSON and reads the seven keys
/// of the OEM/HiCar descriptor shape, yielding nothing if any is missing
/// or of the wrong type; the result is a function of the bytes alone.
#[verifier::external_body]
fn parse_box_oem(data: &[u8]) -> (r: Option<BoxSettings>)
    ensures
        r == box_oem_of(data@),
        r matches Some(s) ==> s is Type1,
{
    let v: serde_json::Value = serde_json::from_slice(data).ok()?;
    Some(BoxSettings::Type1 {
        hi_car: u32::try_from(v.get("HiCar")?.as_u64()?).ok()?,
        oem_name: v.get("OemName")?.as_str()?.to_string(),
        wifi_channel: u32::try_from(v.get("WiFiChannel")?.as_u64()?).ok()?,
        box_type: v.get("boxType")?.as_str()?.to_string(),
        hw_version: v.get("hwVersion")?.as_str()?.to_string(),
        product_type: v.get("productType")?.as_str()?.to_string(),
        uuid: v.get("uuid")?.as_str()?.to_string(),
    })
}

/// Relies on serde_json: parses the bytes as JSON and reads the five keys
/// of the model report shape, yielding nothing if any is missing or of the
/// wrong type; the result is a function of the bytes alone.
#[verifier::external_body]
fn parse_box_model(data: &[u8]) -> (r: Option<BoxSettings>)
    ensures
        r == box_model_of(data@),
        r matches Some(s) ==> s is Type2,
{
    let v: serde_json::Value = serde_json::from_slice(data).ok()?;
    Some(BoxSettings::Type2 {
        md_link_type: v.get("MDLinkType")?.as_str()?.to_string(),
        md_model: v.get("MDModel")?.as_str()?.to_string(),
        md_os_version: v.get("MDOSVersion")?.as_str()?.to_string(),
        md_link_version: v.get("MDLinkVersion")?.as_str()?.to_string(),
        cpu_temp: v.get("cpuTemp")?.as_number()?.to_string(),
    })
}

/// The dongle's self-description frame.  `settings` is empty when the
/// payload matches neither known shape, so a malformed report never stops
/// the session.
#[derive(Debug, Clone)]
pub struct BoxInfo {
    pub header: MessageHeader,
    pub settings: Option<BoxSettings>,
}

impl ReadableMessage for BoxInfo {
    open spec fn spec_data(&self) -> Seq<u8> {
        Seq::empty()
    }

    fn get_data(&self) -> (r: Vec<u8>) {
        Vec::new()
    }
}

impl BoxInfo {
    /// What a correct decode of `data` under `header` looks like.
    pub open spec fn spec_decoded(self, header: MessageHeader, data: Seq<u8>) -> bool {
        self.header == header && self.settings == (if box_oem_of(data) is Some {
            box_oem_of(data)
        } else {
            box_model_of(data)
        })
    }

    /// Tries the OEM/HiCar descriptor shape first, then the model report
    /// shape, mirroring the order the two are disambiguated in on the wire.
    pub fn new(header: MessageHeader, data: Vec<u8>) -> (r: Self)
        ensures
            r.spec_decoded(header, data@),
    {
        let settings = match parse_box_oem(data.as_slice()) {
            Some(s) => Some(s),
            None => parse_box_model(data.as_slice()),
        };
        BoxInfo { header, settings }
    }
}

/// A frame whose tag the registry does not cover, kept rather than
/// rejected: the designed escape hatch for unsupported frames.
#[derive(Debug, Clone)]
pub struct Unknown {
    pub header: MessageHeader,
}

impl ReadableMessage for Unknown {
    open spec fn spec_data(&self) -> Seq<u8> {
        Seq::empty()
    }

    fn get_data(&self) -> (r: Vec<u8>) {
        Vec::new()
    }
}

impl Unknown {
    pub fn new(header: MessageHeader) -> (r: Self)
        ensures
            r.header == header,
    {
        Unknown { header }
    }
}

} // verus!
