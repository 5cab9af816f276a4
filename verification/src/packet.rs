//! The USB-MIDI event packet: a frame of four bytes that carries one MIDI
//! event. Byte 0 holds the cable number in its high nibble and the code index
//! number in its low nibble; bytes 1 to 3 hold the MIDI bytes, padded with
//! zeros.

use vstd::prelude::*;

verus! {

/// The length of one frame in bytes.
pub const FRAME_LEN: usize = 4;

/// A channel voice message, without its channel.
#[derive(Clone, Copy, Debug, PartialEq, Eq, Structural)]
pub enum MidiMessage {
    NoteOff { key: u8, vel: u8 },
    NoteOn { key: u8, vel: u8 },
    Aftertouch { key: u8, vel: u8 },
    Controller { controller: u8, value: u8 },
    ProgramChange { program: u8 },
    ChannelAftertouch { vel: u8 },
    /// The bend as a 14-bit number; 0x2000 is the centre.
    PitchBend { bend: u16 },
}

/// A system common message.
#[derive(Clone, Copy, Debug, PartialEq, Eq, Structural)]
pub enum SystemCommon {
    MidiTimeCodeQuarterFrame { data: u8 },
    /// The position in MIDI beats, a 14-bit number.
    SongPosition { beats: u16 },
    SongSelect { song: u8 },
    TuneRequest,
}

/// A system realtime message.
#[derive(Clone, Copy, Debug, PartialEq, Eq, Structural)]
pub enum SystemRealtime {
    TimingClock,
    Start,
    Continue,
    Stop,
    ActiveSensing,
    Reset,
}

/// What one frame carries.
#[derive(Clone, Copy, Debug, PartialEq, Eq, Structural)]
pub enum LiveEvent {
    Midi { channel: u8, message: MidiMessage },
    Common(SystemCommon),
    Realtime(SystemRealtime),
    /// The frame is of a kind that is not decoded, or its bytes do not fit
    /// its kind.
    Unknown,
}

/// A decoded frame.
#[derive(Clone, Copy, Debug, PartialEq, Eq, Structural)]
pub struct UsbMidiPacket {
    /// The virtual cable, below 16.
    pub cable_number: u8,
    /// The kind of the frame, below 16.
    pub code_index_number: u8,
    pub event: LiveEvent,
}

/// Whether `byte` is a MIDI data byte: its top bit is clear.
pub open spec fn is_data(byte: u8) -> bool {
    byte < 0x80
}

impl MidiMessage {
    /// Every byte of the message is a data byte, and a bend has 14 bits.
    pub open spec fn wf(self) -> bool {
        match self {
            MidiMessage::NoteOff { key, vel } => is_data(key) && is_data(vel),
            MidiMessage::NoteOn { key, vel } => is_data(key) && is_data(vel),
            MidiMessage::Aftertouch { key, vel } => is_data(key) && is_data(vel),
            MidiMessage::Controller { controller, value } => is_data(controller) && is_data(value),
            MidiMessage::ProgramChange { program } => is_data(program),
            MidiMessage::ChannelAftertouch { vel } => is_data(vel),
            MidiMessage::PitchBend { bend } => bend < 0x4000,
        }
    }

    /// The high nibble of the status byte, which is also the code index
    /// number of the frame that carries the message.
    pub open spec fn kind(self) -> u8 {
        match self {
            MidiMessage::NoteOff { .. } => 0x8,
            MidiMessage::NoteOn { .. } => 0x9,
            MidiMessage::Aftertouch { .. } => 0xA,
            MidiMessage::Controller { .. } => 0xB,
            MidiMessage::ProgramChange { .. } => 0xC,
            MidiMessage::ChannelAftertouch { .. } => 0xD,
            MidiMessage::PitchBend { .. } => 0xE,
        }
    }

    /// The two bytes after the status byte.
    pub open spec fn data(self) -> (u8, u8) {
        match self {
            MidiMessage::NoteOff { key, vel } => (key, vel),
            MidiMessage::NoteOn { key, vel } => (key, vel),
            MidiMessage::Aftertouch { key, vel } => (key, vel),
            MidiMessage::Controller { controller, value } => (controller, value),
            MidiMessage::ProgramChange { program } => (program, 0),
            MidiMessage::ChannelAftertouch { vel } => (vel, 0),
            MidiMessage::PitchBend { bend } => ((bend % 128) as u8, (bend / 128) as u8),
        }
    }

    /// The message of kind `kind` with the data bytes `d1` and `d2`, where
    /// there is such a kind and the bytes it reads are data bytes. A message
    /// of one data byte does not read `d2`.
    pub open spec fn parse(kind: u8, d1: u8, d2: u8) -> Option<MidiMessage> {
        if !is_data(d1) {
            None
        } else if kind == 0xC {
            Some(MidiMessage::ProgramChange { program: d1 })
        } else if kind == 0xD {
            Some(MidiMessage::ChannelAftertouch { vel: d1 })
        } else if !is_data(d2) {
            None
        } else if kind == 0x8 {
            Some(MidiMessage::NoteOff { key: d1, vel: d2 })
        } else if kind == 0x9 {
            Some(MidiMessage::NoteOn { key: d1, vel: d2 })
        } else if kind == 0xA {
            Some(MidiMessage::Aftertouch { key: d1, vel: d2 })
        } else if kind == 0xB {
            Some(MidiMessage::Controller { controller: d1, value: d2 })
        } else if kind == 0xE {
            Some(MidiMessage::PitchBend { bend: (d1 + d2 * 128) as u16 })
        } else {
            None
        }
    }
}

impl SystemCommon {
    /// Every byte of the message is a data byte, and a position has 14 bits.
    pub open spec fn wf(self) -> bool {
        match self {
            SystemCommon::MidiTimeCodeQuarterFrame { data } => is_data(data),
            SystemCommon::SongPosition { beats } => beats < 0x4000,
            SystemCommon::SongSelect { song } => is_data(song),
            SystemCommon::TuneRequest => true,
        }
    }

    /// The status byte of the message.
    pub open spec fn status(self) -> u8 {
        match self {
            SystemCommon::MidiTimeCodeQuarterFrame { .. } => 0xF1,
            SystemCommon::SongPosition { .. } => 0xF2,
            SystemCommon::SongSelect { .. } => 0xF3,
            SystemCommon::TuneRequest => 0xF6,
        }
    }

    /// The code index number of the frame that carries the message: it tells
    /// whether the message has one, two or three bytes.
    pub open spec fn code_index(self) -> u8 {
        match self {
            SystemCommon::MidiTimeCodeQuarterFrame { .. } => 0x2,
            SystemCommon::SongPosition { .. } => 0x3,
            SystemCommon::SongSelect { .. } => 0x2,
            SystemCommon::TuneRequest => 0x5,
        }
    }

    /// The two bytes after the status byte.
    pub open spec fn data(self) -> (u8, u8) {
        match self {
            SystemCommon::MidiTimeCodeQuarterFrame { data } => (data, 0),
            SystemCommon::SongPosition { beats } => ((beats % 128) as u8, (beats / 128) as u8),
            SystemCommon::SongSelect { song } => (song, 0),
            SystemCommon::TuneRequest => (0, 0),
        }
    }

    /// The message with the status byte `status` in a frame of code index
    /// `code_index`, where the two fit and the bytes it reads are data bytes.
    pub open spec fn parse(code_index: u8, status: u8, d1: u8, d2: u8) -> Option<SystemCommon> {
        if code_index == 0x5 && status == 0xF6 {
            Some(SystemCommon::TuneRequest)
        } else if code_index == 0x2 && status == 0xF1 && is_data(d1) {
            Some(SystemCommon::MidiTimeCodeQuarterFrame { data: d1 })
        } else if code_index == 0x2 && status == 0xF3 && is_data(d1) {
            Some(SystemCommon::SongSelect { song: d1 })
        } else if code_index == 0x3 && status == 0xF2 && is_data(d1) && is_data(d2) {
            Some(SystemCommon::SongPosition { beats: (d1 + d2 * 128) as u16 })
        } else {
            None
        }
    }
}

impl SystemRealtime {
    /// The one byte of the message.
    pub open spec fn status(self) -> u8 {
        match self {
            SystemRealtime::TimingClock => 0xF8,
            SystemRealtime::Start => 0xFA,
            SystemRealtime::Continue => 0xFB,
            SystemRealtime::Stop => 0xFC,
            SystemRealtime::ActiveSensing => 0xFE,
            SystemRealtime::Reset => 0xFF,
        }
    }

    /// The message whose byte is `status`, if there is one.
    pub open spec fn parse(status: u8) -> Option<SystemRealtime> {
        if status == 0xF8 {
            Some(SystemRealtime::TimingClock)
        } else if status == 0xFA {
            Some(SystemRealtime::Start)
        } else if status == 0xFB {
            Some(SystemRealtime::Continue)
        } else if status == 0xFC {
            Some(SystemRealtime::Stop)
        } else if status == 0xFE {
            Some(SystemRealtime::ActiveSensing)
        } else if status == 0xFF {
            Some(SystemRealtime::Reset)
        } else {
            None
        }
    }
}

impl LiveEvent {
    /// The event can be put in a frame: its numbers are in range.
    pub open spec fn wf(self) -> bool {
        match self {
            LiveEvent::Midi { channel, message } => channel < 16 && message.wf(),
            LiveEvent::Common(common) => common.wf(),
            LiveEvent::Realtime(_) => true,
            LiveEvent::Unknown => true,
        }
    }

    /// The code index number of the frame that carries the event. An unknown
    /// event has none.
    pub open spec fn code_index(self) -> Option<u8> {
        match self {
            LiveEvent::Midi { channel, message } => Some(message.kind()),
            LiveEvent::Common(common) => Some(common.code_index()),
            LiveEvent::Realtime(_) => Some(0xF),
            LiveEvent::Unknown => None,
        }
    }

    /// The three MIDI bytes of the frame that carries the event.
    pub open spec fn bytes(self) -> (u8, u8, u8) {
        match self {
            LiveEvent::Midi { channel, message } => (
                (message.kind() * 16 + channel) as u8,
                message.data().0,
                message.data().1,
            ),
            LiveEvent::Common(common) => (common.status(), common.data().0, common.data().1),
            LiveEvent::Realtime(realtime) => (realtime.status(), 0, 0),
            LiveEvent::Unknown => (0, 0, 0),
        }
    }

    /// The event in a frame of code index `code_index` with the MIDI bytes
    /// `status`, `d1` and `d2`. A channel voice message has its kind both as
    /// the code index and in the high nibble of the status byte, and its
    /// channel in the low nibble. Code index 0xF carries a single byte, which
    /// is decoded where it is a realtime message. Reserved code indices,
    /// system exclusive data, and bytes that do not fit the code index give
    /// `Unknown`.
    pub open spec fn parse(code_index: u8, status: u8, d1: u8, d2: u8) -> LiveEvent {
        if 0x8 <= code_index <= 0xE {
            match MidiMessage::parse(code_index, d1, d2) {
                Some(message) if status / 16 == code_index => LiveEvent::Midi {
                    channel: status % 16,
                    message,
                },
                _ => LiveEvent::Unknown,
            }
        } else if code_index == 0xF {
            match SystemRealtime::parse(status) {
                Some(realtime) => LiveEvent::Realtime(realtime),
                None => LiveEvent::Unknown,
            }
        } else {
            match SystemCommon::parse(code_index, status, d1, d2) {
                Some(common) => LiveEvent::Common(common),
                None => LiveEvent::Unknown,
            }
        }
    }
}

impl UsbMidiPacket {
    /// The numbers of the packet are in range, and the code index is that of
    /// the event, where the event is known.
    pub open spec fn wf(self) -> bool {
        &&& self.cable_number < 16
        &&& self.code_index_number < 16
        &&& self.event.wf()
        &&& self.event.code_index() matches Some(code_index) ==> code_index
            == self.code_index_number
    }

    /// The packet that the four bytes of `frame` hold.
    pub open spec fn decode(frame: Seq<u8>) -> UsbMidiPacket
        recommends
            frame.len() == FRAME_LEN,
    {
        UsbMidiPacket {
            cable_number: frame[0] / 16,
            code_index_number: frame[0] % 16,
            event: LiveEvent::parse(frame[0] % 16, frame[1], frame[2], frame[3]),
        }
    }

    /// The frame that carries `event` on the cable `cable_number`.
    pub open spec fn encode(cable_number: u8, event: LiveEvent) -> Seq<u8>
        recommends
            cable_number < 16,
            event.wf(),
            event.code_index() is Some,
    {
        seq![
            (cable_number * 16 + event.code_index().unwrap()) as u8,
            event.bytes().0,
            event.bytes().1,
            event.bytes().2,
        ]
    }
}

/// Whether `byte` is a MIDI data byte.
fn byte_is_data(byte: u8) -> (data: bool)
    ensures
        data == is_data(byte),
{
    byte < 0x80
}

impl MidiMessage {
    /// Whether the message can be put in a frame.
    pub fn is_wf(&self) -> (wf: bool)
        ensures
            wf == self.wf(),
    {
        match *self {
            MidiMessage::NoteOff { key, vel } => byte_is_data(key) && byte_is_data(vel),
            MidiMessage::NoteOn { key, vel } => byte_is_data(key) && byte_is_data(vel),
            MidiMessage::Aftertouch { key, vel } => byte_is_data(key) && byte_is_data(vel),
            MidiMessage::Controller { controller, value } => byte_is_data(controller)
                && byte_is_data(value),
            MidiMessage::ProgramChange { program } => byte_is_data(program),
            MidiMessage::ChannelAftertouch { vel } => byte_is_data(vel),
            MidiMessage::PitchBend { bend } => bend < 0x4000,
        }
    }

    /// Reads the message of kind `kind` from its data bytes.
    pub fn read(kind: u8, d1: u8, d2: u8) -> (message: Option<MidiMessage>)
        ensures
            message == Self::parse(kind, d1, d2),
            message matches Some(m) ==> m.wf() && m.kind() == kind,
    {
        if !byte_is_data(d1) {
            None
        } else if kind == 0xC {
            Some(MidiMessage::ProgramChange { program: d1 })
        } else if kind == 0xD {
            Some(MidiMessage::ChannelAftertouch { vel: d1 })
        } else if !byte_is_data(d2) {
            None
        } else if kind == 0x8 {
            Some(MidiMessage::NoteOff { key: d1, vel: d2 })
        } else if kind == 0x9 {
            Some(MidiMessage::NoteOn { key: d1, vel: d2 })
        } else if kind == 0xA {
            Some(MidiMessage::Aftertouch { key: d1, vel: d2 })
        } else if kind == 0xB {
            Some(MidiMessage::Controller { controller: d1, value: d2 })
        } else if kind == 0xE {
            let low: u16 = d1 as u16;
            let high: u16 = d2 as u16;
            Some(MidiMessage::PitchBend { bend: low + high * 128 })
        } else {
            None
        }
    }

    /// The status nibble and the two data bytes of the message.
    fn write(&self) -> (bytes: (u8, u8, u8))
        requires
            self.wf(),
        ensures
            bytes == (self.kind(), self.data().0, self.data().1),
    {
        match *self {
            MidiMessage::NoteOff { key, vel } => (0x8, key, vel),
            MidiMessage::NoteOn { key, vel } => (0x9, key, vel),
            MidiMessage::Aftertouch { key, vel } => (0xA, key, vel),
            MidiMessage::Controller { controller, value } => (0xB, controller, value),
            MidiMessage::ProgramChange { program } => (0xC, program, 0),
            MidiMessage::ChannelAftertouch { vel } => (0xD, vel, 0),
            MidiMessage::PitchBend { bend } => (0xE, (bend % 128) as u8, (bend / 128) as u8),
        }
    }
}

impl SystemCommon {
    /// Whether the message can be put in a frame.
    pub fn is_wf(&self) -> (wf: bool)
        ensures
            wf == self.wf(),
    {
        match *self {
            SystemCommon::MidiTimeCodeQuarterFrame { data } => byte_is_data(data),
            SystemCommon::SongPosition { beats } => beats < 0x4000,
            SystemCommon::SongSelect { song } => byte_is_data(song),
            SystemCommon::TuneRequest => true,
        }
    }

    /// Reads the message from the MIDI bytes of a frame of code index
    /// `code_index`.
    pub fn read(code_index: u8, status: u8, d1: u8, d2: u8) -> (message: Option<SystemCommon>)
        ensures
            message == Self::parse(code_index, status, d1, d2),
            message matches Some(m) ==> m.wf() && m.code_index() == code_index,
    {
        if code_index == 0x5 && status == 0xF6 {
            Some(SystemCommon::TuneRequest)
        } else if code_index == 0x2 && status == 0xF1 && byte_is_data(d1) {
            Some(SystemCommon::MidiTimeCodeQuarterFrame { data: d1 })
        } else if code_index == 0x2 && status == 0xF3 && byte_is_data(d1) {
            Some(SystemCommon::SongSelect { song: d1 })
        } else if code_index == 0x3 && status == 0xF2 && byte_is_data(d1) && byte_is_data(d2) {
            let low: u16 = d1 as u16;
            let high: u16 = d2 as u16;
            Some(SystemCommon::SongPosition { beats: low + high * 128 })
        } else {
            None
        }
    }

    /// The code index and the three MIDI bytes of the message.
    fn write(&self) -> (bytes: (u8, u8, u8, u8))
        requires
            self.wf(),
        ensures
            bytes == (self.code_index(), self.status(), self.data().0, self.data().1),
    {
        match *self {
            SystemCommon::MidiTimeCodeQuarterFrame { data } => (0x2, 0xF1, data, 0),
            SystemCommon::SongPosition { beats } => (
                0x3,
                0xF2,
                (beats % 128) as u8,
                (beats / 128) as u8,
            ),
            SystemCommon::SongSelect { song } => (0x2, 0xF3, song, 0),
            SystemCommon::TuneRequest => (0x5, 0xF6, 0, 0),
        }
    }
}

impl SystemRealtime {
    /// Reads the message from its one byte.
    pub fn read(status: u8) -> (message: Option<SystemRealtime>)
        ensures
            message == Self::parse(status),
    {
        if status == 0xF8 {
            Some(SystemRealtime::TimingClock)
        } else if status == 0xFA {
            Some(SystemRealtime::Start)
        } else if status == 0xFB {
            Some(SystemRealtime::Continue)
        } else if status == 0xFC {
            Some(SystemRealtime::Stop)
        } else if status == 0xFE {
            Some(SystemRealtime::ActiveSensing)
        } else if status == 0xFF {
            Some(SystemRealtime::Reset)
        } else {
            None
        }
    }

    /// The one byte of the message.
    fn write(&self) -> (status: u8)
        ensures
            status == self.status(),
    {
        match *self {
            SystemRealtime::TimingClock => 0xF8,
            SystemRealtime::Start => 0xFA,
            SystemRealtime::Continue => 0xFB,
            SystemRealtime::Stop => 0xFC,
            SystemRealtime::ActiveSensing => 0xFE,
            SystemRealtime::Reset => 0xFF,
        }
    }
}

impl LiveEvent {
    /// Whether the event can be put in a frame.
    pub fn is_wf(&self) -> (wf: bool)
        ensures
            wf == self.wf(),
    {
        match *self {
            LiveEvent::Midi { channel, message } => channel < 16 && message.is_wf(),
            LiveEvent::Common(common) => common.is_wf(),
            LiveEvent::Realtime(_) => true,
            LiveEvent::Unknown => true,
        }
    }

    /// Whether the event is a MIDI timing clock pulse.
    pub fn is_timing_clock(&self) -> (clock: bool)
        ensures
            clock == (*self == LiveEvent::Realtime(SystemRealtime::TimingClock)),
    {
        match *self {
            LiveEvent::Realtime(SystemRealtime::TimingClock) => true,
            _ => false,
        }
    }

    /// Reads the event from the MIDI bytes of a frame of code index
    /// `code_index`. No input fails: what is not decoded is `Unknown`.
    pub fn read(code_index: u8, status: u8, d1: u8, d2: u8) -> (event: LiveEvent)
        ensures
            event == Self::parse(code_index, status, d1, d2),
            event.wf(),
            event.code_index() matches Some(c) ==> c == code_index,
    {
        if 0x8 <= code_index && code_index <= 0xE {
            match MidiMessage::read(code_index, d1, d2) {
                Some(message) => {
                    if status / 16 == code_index {
                        LiveEvent::Midi { channel: status % 16, message }
                    } else {
                        LiveEvent::Unknown
                    }
                },
                None => LiveEvent::Unknown,
            }
        } else if code_index == 0xF {
            match SystemRealtime::read(status) {
                Some(realtime) => LiveEvent::Realtime(realtime),
                None => LiveEvent::Unknown,
            }
        } else {
            match SystemCommon::read(code_index, status, d1, d2) {
                Some(common) => LiveEvent::Common(common),
                None => LiveEvent::Unknown,
            }
        }
    }

    /// The code index and the three MIDI bytes of the frame that carries the
    /// event. An unknown event has no frame.
    fn write(&self) -> (bytes: Option<(u8, u8, u8, u8)>)
        requires
            self.wf(),
        ensures
            bytes is Some == self.code_index() is Some,
            bytes matches Some(b) ==> Some(b.0) == self.code_index() && (b.1, b.2, b.3)
                == self.bytes(),
    {
        match *self {
            LiveEvent::Midi { channel, message } => {
                let (kind, d1, d2) = message.write();
                Some((kind, kind * 16 + channel, d1, d2))
            },
            LiveEvent::Common(common) => Some(common.write()),
            LiveEvent::Realtime(realtime) => Some((0xF, realtime.write(), 0, 0)),
            LiveEvent::Unknown => None,
        }
    }
}

impl UsbMidiPacket {
    /// Decodes one frame. No frame fails: one that is not decoded gives the
    /// event `Unknown`, with the cable and the code index that it names.
    pub fn read(frame: &[u8; 4]) -> (packet: UsbMidiPacket)
        ensures
            packet == Self::decode(frame@),
            packet.wf(),
    {
        let code_index: u8 = frame[0] % 16;
        UsbMidiPacket {
            cable_number: frame[0] / 16,
            code_index_number: code_index,
            event: LiveEvent::read(code_index, frame[1], frame[2], frame[3]),
        }
    }

    /// The packet that carries `event` on the cable `cable_number`. There is
    /// one exactly where the cable is below 16 and the event is known and in
    /// range.
    pub fn new(cable_number: u8, event: LiveEvent) -> (packet: Option<UsbMidiPacket>)
        ensures
            packet is Some == (cable_number < 16 && event.wf() && event.code_index() is Some),
            packet matches Some(p) ==> p.wf() && p.cable_number == cable_number && p.event == event
                && Some(p.code_index_number) == event.code_index(),
    {
        if cable_number >= 16 || !event.is_wf() {
            return None;
        }
        match event.write() {
            Some(bytes) => Some(
                UsbMidiPacket { cable_number, code_index_number: bytes.0, event },
            ),
            None => None,
        }
    }

    /// Encodes the packet as one frame. There is a frame exactly where the
    /// packet is in range and its event is known.
    pub fn write(&self) -> (frame: Option<[u8; 4]>)
        ensures
            frame is Some == (self.wf() && self.event.code_index() is Some),
            frame matches Some(f) ==> f@ == Self::encode(self.cable_number, self.event),
    {
        if self.cable_number >= 16 || self.code_index_number >= 16 || !self.event.is_wf() {
            return None;
        }
        match self.event.write() {
            Some(bytes) => {
                if bytes.0 != self.code_index_number {
                    None
                } else {
                    let frame = [self.cable_number * 16 + bytes.0, bytes.1, bytes.2, bytes.3];
                    assert(frame@ =~= Self::encode(self.cable_number, self.event));
                    Some(frame)
                }
            },
            None => None,
        }
    }

    /// Decoding the frame of an event gives the event back, on its cable: for
    /// every cable below 16 and every known event in range.
    pub proof fn decode_inverts_encode(cable_number: u8, event: LiveEvent)
        requires
            cable_number < 16,
            event.wf(),
            event.code_index() is Some,
        ensures
            Self::encode(cable_number, event).len() == FRAME_LEN,
            Self::decode(Self::encode(cable_number, event)) == (UsbMidiPacket {
                cable_number,
                code_index_number: event.code_index().unwrap(),
                event,
            }),
    {
    }

    /// Every frame decodes to a packet in range, and a frame whose code index
    /// is reserved or stands for system exclusive data decodes to `Unknown`.
    pub proof fn decode_is_total(frame: Seq<u8>)
        requires
            frame.len() == FRAME_LEN,
        ensures
            Self::decode(frame).wf(),
            Self::decode(frame).cable_number == frame[0] / 16,
            Self::decode(frame).code_index_number == frame[0] % 16,
            frame[0] % 16 == 0x0 || frame[0] % 16 == 0x1 || frame[0] % 16 == 0x4 || frame[0] % 16
                == 0x6 || frame[0] % 16 == 0x7 ==> Self::decode(frame).event
                == LiveEvent::Unknown,
    {
    }
}

} // verus!
