//! Reading the command line of another process on Windows.
//!
//! The command line lies in the memory of the process, three pointers deep: its
//! environment block points to its parameters, and these hold the length of the
//! command line and point to its characters. The memory is read piece by piece.
use vstd::prelude::*;

use crate::text::optional_text;
use crate::wide::{from_wide, utf16_lossy};

verus! {

/// Where the environment block points to the parameters.
pub const PARAMETERS_OFFSET: u64 = 0x20;

/// Where the parameters hold the length of the command line in bytes.
pub const LENGTH_OFFSET: u64 = 0x70;

/// Where the parameters point to the command line.
pub const BUFFER_OFFSET: u64 = 0x78;

/// The rights to ask for when opening a process whose memory is to be read.
pub const READING_ACCESS: u32 = 0x0410;

/// The memory of a process: what can be read at an address.
pub struct MemoryView {
    /// A pointer.
    pub pointer: spec_fn(u64) -> Option<u64>,
    /// A length of two bytes.
    pub length: spec_fn(u64) -> Option<u16>,
    /// Some UTF-16 units.
    pub units: spec_fn(u64, u16) -> Option<Seq<u16>>,
}

/// What is to be read next.
#[derive(Debug, Clone, Copy, PartialEq, Eq, Structural)]
pub enum MemoryRead {
    /// A pointer at this address.
    Pointer(u64),
    /// A length of two bytes at this address.
    Length(u64),
    /// So many UTF-16 units at this address.
    Units(u64, u16),
}

/// What a read gave; nothing where it failed.
pub enum MemoryReply {
    Pointer(Option<u64>),
    Length(Option<u16>),
    Units(Option<Vec<u16>>),
}

impl MemoryReply {
    /// The reply is what a read of this memory gives.
    pub open spec fn is_true(&self, memory: MemoryView, read: MemoryRead) -> bool {
        match read {
            MemoryRead::Pointer(at) => *self == MemoryReply::Pointer((memory.pointer)(at)),
            MemoryRead::Length(at) => *self == MemoryReply::Length((memory.length)(at)),
            MemoryRead::Units(at, count) => match (memory.units)(at, count) {
                Some(units) => self matches MemoryReply::Units(Some(list)) && list@ == units,
                None => self matches MemoryReply::Units(None),
            },
        }
    }
}

/// The address behind `base` by `offset`, where there is one.
pub open spec fn behind(base: u64, offset: u64) -> Option<u64> {
    if base + offset <= u64::MAX {
        Some((base + offset) as u64)
    } else {
        None
    }
}

/// The pointer at an address, where it can be read and leads somewhere.
pub open spec fn points_to(memory: MemoryView, at: Option<u64>) -> Option<u64> {
    match at {
        Some(at) => match (memory.pointer)(at) {
            Some(target) if target != 0 => Some(target),
            _ => None,
        },
        None => None,
    }
}

/// The text of so many bytes at an address.
pub open spec fn text_at(memory: MemoryView, at: u64, bytes: u16) -> Option<Seq<char>> {
    match (memory.units)(at, (bytes / 2) as u16) {
        Some(units) => Some(utf16_lossy(units)),
        None => None,
    }
}

/// The command line that these parameters lead to.
pub open spec fn line_of_parameters(memory: MemoryView, parameters: u64) -> Option<Seq<char>> {
    match behind(parameters, LENGTH_OFFSET) {
        None => None,
        Some(at) => match (memory.length)(at) {
            Some(bytes) if bytes != 0 => match points_to(memory, behind(parameters, BUFFER_OFFSET)) {
                Some(buffer) => text_at(memory, buffer, bytes),
                None => None,
            },
            _ => None,
        },
    }
}

/// The command line of a process with this memory, whose environment block is
/// at this address; nothing where the block is not known or one of the reads
/// fails or leads nowhere.
pub open spec fn line_in(memory: MemoryView, block: Option<u64>) -> Option<Seq<char>> {
    match block {
        Some(block) if block != 0 => match points_to(memory, behind(block, PARAMETERS_OFFSET)) {
            Some(parameters) => line_of_parameters(memory, parameters),
            None => None,
        },
        _ => None,
    }
}

/// How far the reading has come.
pub enum LineReader {
    /// The pointer to the parameters is read at this address.
    Parameters(u64),
    /// The length is read, for the parameters at this address.
    Length { parameters: u64, at: u64 },
    /// The pointer to the characters is read at this address.
    Buffer { at: u64, bytes: u16 },
    /// The characters are read at this address.
    Units { at: u64, bytes: u16 },
    /// The end, with the command line or without it.
    Done(Option<String>),
}

impl LineReader {
    /// The command line that the reading leads to.
    pub open spec fn leads_to(&self, memory: MemoryView) -> Option<Seq<char>> {
        match self {
            LineReader::Parameters(at) => match points_to(memory, Some(*at)) {
                Some(parameters) => line_of_parameters(memory, parameters),
                None => None,
            },
            LineReader::Length { parameters, at } => match (memory.length)(*at) {
                Some(bytes) if bytes != 0 => match points_to(
                    memory,
                    behind(*parameters, BUFFER_OFFSET),
                ) {
                    Some(buffer) => text_at(memory, buffer, bytes),
                    None => None,
                },
                _ => None,
            },
            LineReader::Buffer { at, bytes } => match points_to(memory, Some(*at)) {
                Some(buffer) => text_at(memory, buffer, *bytes),
                None => None,
            },
            LineReader::Units { at, bytes } => text_at(memory, *at, *bytes),
            LineReader::Done(line) => optional_text(*line),
        }
    }

    /// The number of reads that may still be asked for.
    pub open spec fn left(&self) -> nat {
        match self {
            LineReader::Parameters(_) => 4,
            LineReader::Length { .. } => 3,
            LineReader::Buffer { .. } => 2,
            LineReader::Units { .. } => 1,
            LineReader::Done(_) => 0,
        }
    }

    /// What is to be read next.
    pub open spec fn asks(&self) -> Option<MemoryRead> {
        match self {
            LineReader::Parameters(at) => Some(MemoryRead::Pointer(*at)),
            LineReader::Length { at, .. } => Some(MemoryRead::Length(*at)),
            LineReader::Buffer { at, .. } => Some(MemoryRead::Pointer(*at)),
            LineReader::Units { at, bytes } => Some(MemoryRead::Units(*at, (*bytes / 2) as u16)),
            LineReader::Done(_) => None,
        }
    }

    /// Starts at the environment block of a process, where it is known.
    pub fn new(block: Option<u64>) -> (reader: LineReader)
        ensures
            forall|memory: MemoryView| #[trigger]
                reader.leads_to(memory) == line_in(memory, block),
    {
        match block {
            Some(block) => {
                if block != 0 && block <= u64::MAX - PARAMETERS_OFFSET {
                    LineReader::Parameters(block + PARAMETERS_OFFSET)
                } else {
                    LineReader::Done(None)
                }
            },
            None => LineReader::Done(None),
        }
    }

    /// What is to be read next; nothing at the end.
    pub fn next_read(&self) -> (read: Option<MemoryRead>)
        ensures
            read == self.asks(),
    {
        match self {
            LineReader::Parameters(at) => Some(MemoryRead::Pointer(*at)),
            LineReader::Length { at, .. } => Some(MemoryRead::Length(*at)),
            LineReader::Buffer { at, .. } => Some(MemoryRead::Pointer(*at)),
            LineReader::Units { at, bytes } => Some(MemoryRead::Units(*at, *bytes / 2)),
            LineReader::Done(_) => None,
        }
    }

    /// Takes in what the read gave.
    pub fn take_in(self, reply: MemoryReply) -> (after: LineReader)
        ensures
            self.asks() is None ==> after == self,
            self.asks() is Some ==> after.left() < self.left(),
            forall|memory: MemoryView|
                self.asks() is Some && reply.is_true(memory, self.asks()->0)
                    ==> #[trigger] after.leads_to(memory) == self.leads_to(memory),
    {
        match self {
            LineReader::Parameters(_) => match reply {
                MemoryReply::Pointer(Some(parameters)) => {
                    if parameters != 0 && parameters <= u64::MAX - LENGTH_OFFSET {
                        LineReader::Length { parameters, at: parameters + LENGTH_OFFSET }
                    } else {
                        LineReader::Done(None)
                    }
                },
                _ => LineReader::Done(None),
            },
            LineReader::Length { parameters, .. } => match reply {
                MemoryReply::Length(Some(bytes)) => {
                    if bytes != 0 && parameters <= u64::MAX - BUFFER_OFFSET {
                        LineReader::Buffer { at: parameters + BUFFER_OFFSET, bytes }
                    } else {
                        LineReader::Done(None)
                    }
                },
                _ => LineReader::Done(None),
            },
            LineReader::Buffer { bytes, .. } => match reply {
                MemoryReply::Pointer(Some(buffer)) => {
                    if buffer != 0 {
                        LineReader::Units { at: buffer, bytes }
                    } else {
                        LineReader::Done(None)
                    }
                },
                _ => LineReader::Done(None),
            },
            LineReader::Units { .. } => match reply {
                MemoryReply::Units(Some(list)) => {
                    let line = from_wide(list.as_slice(), list.len());
                    assert(list@.take(list@.len() as int) =~= list@);
                    LineReader::Done(Some(line))
                },
                _ => LineReader::Done(None),
            },
            LineReader::Done(line) => LineReader::Done(line),
        }
    }

    /// The command line, at the end of the reading.
    pub fn line(self) -> (line: Option<String>)
        ensures
            line == match self {
                LineReader::Done(line) => line,
                _ => None,
            },
    {
        match self {
            LineReader::Done(line) => line,
            _ => None,
        }
    }
}

/// A process whose parameters hold a text as its command line is read as having
/// that command line.
pub proof fn a_command_line_is_read_back(
    memory: MemoryView,
    block: u64,
    parameters: u64,
    buffer: u64,
    text: Seq<char>,
)
    requires
        0 < block <= u64::MAX - PARAMETERS_OFFSET,
        0 < parameters <= u64::MAX - BUFFER_OFFSET,
        0 < buffer,
        0 < 2 * crate::wide::utf16(text).len() <= u16::MAX,
        (memory.pointer)((block + PARAMETERS_OFFSET) as u64) == Some(parameters),
        (memory.length)((parameters + LENGTH_OFFSET) as u64) == Some(
            (2 * crate::wide::utf16(text).len()) as u16,
        ),
        (memory.pointer)((parameters + BUFFER_OFFSET) as u64) == Some(buffer),
        (memory.units)(buffer, crate::wide::utf16(text).len() as u16) == Some(
            crate::wide::utf16(text),
        ),
    ensures
        line_in(memory, Some(block)) == Some(text),
{
    crate::wide::utf16_round_trip(text);
}

/// Reading ends after four reads at most, whatever they give.
pub proof fn reading_ends(reader: LineReader)
    ensures
        reader.left() <= 4,
        reader.left() == 0 <==> reader.asks() is None,
{
}

/// A process has a command line exactly where every pointer on the way leads
/// somewhere and every read gives something: the parameters stand 0x20 bytes into
/// the block, the length and the pointer to the characters 0x70 and 0x78 bytes
/// into the parameters, and the length counts two bytes for a unit.
pub proof fn where_a_command_line_lies(memory: MemoryView, block: u64, line: Seq<char>)
    ensures
        line_in(memory, Some(block)) == Some(line) <==> {
            &&& 0 < block
            &&& block + 0x20 <= u64::MAX
            &&& (memory.pointer)((block + 0x20) as u64) matches Some(parameters)
            &&& 0 < parameters
            &&& parameters + 0x78 <= u64::MAX
            &&& (memory.length)((parameters + 0x70) as u64) matches Some(bytes)
            &&& 0 < bytes
            &&& (memory.pointer)((parameters + 0x78) as u64) matches Some(buffer)
            &&& 0 < buffer
            &&& (memory.units)(buffer, (bytes / 2) as u16) matches Some(units)
            &&& line == utf16_lossy(units)
        },
        line_in(memory, None) is None,
{
}

/// A reply is true exactly where it is what the memory holds at the address of
/// the read.
pub proof fn true_replies_are_what_memory_holds(
    reply: MemoryReply,
    memory: MemoryView,
    at: u64,
    count: u16,
)
    ensures
        reply.is_true(memory, MemoryRead::Pointer(at)) <==> match reply {
            MemoryReply::Pointer(found) => found == (memory.pointer)(at),
            _ => false,
        },
        reply.is_true(memory, MemoryRead::Length(at)) <==> match reply {
            MemoryReply::Length(found) => found == (memory.length)(at),
            _ => false,
        },
        reply.is_true(memory, MemoryRead::Units(at, count)) <==> match reply {
            MemoryReply::Units(Some(list)) => (memory.units)(at, count) == Some(list@),
            MemoryReply::Units(None) => (memory.units)(at, count) is None,
            _ => false,
        },
{
}

/// A reading that is over leads to the line that it has come to, and to nothing
/// else; one that is not reads at the address that it has come to.
pub proof fn a_reading_asks_for_its_next_piece(
    memory: MemoryView,
    line: String,
    parameters: u64,
    at: u64,
    bytes: u16,
)
    ensures
        LineReader::Done(Some(line)).leads_to(memory) == Some(line@),
        LineReader::Done(None).leads_to(memory) is None,
        LineReader::Done(None).asks() is None,
        LineReader::Done(Some(line)).asks() is None,
        LineReader::Parameters(at).asks() == Some(MemoryRead::Pointer(at)),
        (LineReader::Length { parameters, at }).asks() == Some(MemoryRead::Length(at)),
        (LineReader::Buffer { at, bytes }).asks() == Some(MemoryRead::Pointer(at)),
        (LineReader::Units { at, bytes }).asks() matches Some(MemoryRead::Units(a, count)) && a
            == at && (2 * count == bytes || 2 * count + 1 == bytes),
{
}

/// An address behind another is their sum, where the sum is an address; a
/// pointer leads somewhere exactly where it can be read and is not zero.
pub proof fn addresses_and_pointers(memory: MemoryView, base: u64, offset: u64)
    ensures
        base + offset <= u64::MAX ==> (behind(base, offset) matches Some(at) && at == base + offset),
        base + offset > u64::MAX ==> behind(base, offset) is None,
        points_to(memory, None) is None,
        points_to(memory, Some(base)) is Some <==> (memory.pointer)(base) is Some && (
        memory.pointer)(base)->0 != 0,
        points_to(memory, Some(base)) is Some ==> points_to(memory, Some(base)) == (memory.pointer)(
            base,
        ),
        READING_ACCESS == 0x0400 + 0x0010,
{
}

} // verus!
