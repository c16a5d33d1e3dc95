//! The wire format of a trace: tagged little-endian messages, read from bytes.
//!
//! | tag  | message       | payload                                   |
//! |------|---------------|-------------------------------------------|
//! | 0x55 | Separator     | none                                      |
//! | 0xEE | LibLoad       | text, u64 from, u64 to                    |
//! | 0xAA | Address       | u64                                       |
//! | 0xFF | Code          | u64 length, the bytes                     |
//! | 0x33 | Load          | u8 size, u64 address, u64 value           |
//! | 0x44 | Store         | u8 size, u64 address, u64 value           |
//! | 0x77 | Registers     | u8 count, u64 flags, u64 pc, count of u64 |
//! | 0x99 | Syscall       | text                                      |
//! | 0x9A | SyscallResult | text                                      |
//! | 0xDD | Debug         | text                                      |
//!
//! A text is a u64 length and that many bytes of UTF-8.

use crate::mem::byte::{lemma_span_monotonic, lemma_span_values, span};
use crate::state::{assembled, views, GenericStep, StepError, StepView};
use vstd::prelude::*;
use vstd::slice::slice_subrange;
use vstd::slice::slice_to_vec;
use vstd::utf8::{decode_utf8, valid_utf8};

verus! {

/// The tag byte that starts a message.
#[derive(Debug, Clone, Copy, PartialEq, Eq, Structural)]
pub enum Header {
    Separator,
    Libload,
    Address,
    Code,
    Load,
    Store,
    Registers,
    Syscall,
    SyscallResult,
    Debug,
}

/// Why a byte stream is no well-formed trace.
#[derive(Debug, Clone, Copy, PartialEq, Eq, Structural)]
pub enum DecodeError {
    /// A message starts with a byte that is no known tag.
    UnknownTag(u8),
    /// The stream ends inside a message.
    Truncated,
    /// A text is not valid UTF-8.
    InvalidUtf8,
}

/// A register snapshot as it comes over the wire.
#[derive(Clone, Debug)]
pub struct RegisterMessage {
    pub pc: u64,
    pub flags: u64,
    pub regs: Vec<u64>,
}

/// One message of the trace.
#[derive(Clone, Debug)]
pub enum Message {
    LibLoad(String, u64, u64),
    Separator,
    Address(u64),
    Code(Vec<u8>),
    Registers(RegisterMessage),
    Flags(u64),
    /// Address, value, size in bytes.
    Load(u64, u64, u8),
    /// Address, value, size in bytes.
    Store(u64, u64, u8),
    Syscall(String),
    SyscallResult(String),
    Debug(String),
}

/// What a message holds, as plain mathematical values.
pub enum MessageView {
    LibLoad(Seq<char>, u64, u64),
    Separator,
    Address(u64),
    Code(Seq<u8>),
    /// Program counter, flags, registers.
    Registers(u64, u64, Seq<u64>),
    Flags(u64),
    Load(u64, u64, u8),
    Store(u64, u64, u8),
    Syscall(Seq<char>),
    SyscallResult(Seq<char>),
    Debug(Seq<char>),
}

impl View for Message {
    type V = MessageView;

    open spec fn view(&self) -> MessageView {
        match self {
            Message::LibLoad(name, from, to) => MessageView::LibLoad(name@, *from, *to),
            Message::Separator => MessageView::Separator,
            Message::Address(a) => MessageView::Address(*a),
            Message::Code(c) => MessageView::Code(c@),
            Message::Registers(r) => MessageView::Registers(r.pc, r.flags, r.regs@),
            Message::Flags(f) => MessageView::Flags(*f),
            Message::Load(a, v, s) => MessageView::Load(*a, *v, *s),
            Message::Store(a, v, s) => MessageView::Store(*a, *v, *s),
            Message::Syscall(t) => MessageView::Syscall(t@),
            Message::SyscallResult(t) => MessageView::SyscallResult(t@),
            Message::Debug(t) => MessageView::Debug(t@),
        }
    }
}

impl Header {
    /// The byte that stands for this tag.
    pub open spec fn tag_of(self) -> u8 {
        match self {
            Header::Separator => 0x55,
            Header::Libload => 0xee,
            Header::Address => 0xaa,
            Header::Code => 0xff,
            Header::Load => 0x33,
            Header::Store => 0x44,
            Header::Registers => 0x77,
            Header::Syscall => 0x99,
            Header::SyscallResult => 0x9a,
            Header::Debug => 0xdd,
        }
    }

    /// The byte that stands for this tag.
    pub fn tag(&self) -> (byte: u8)
        ensures
            byte == self.tag_of(),
    {
        match self {
            Header::Separator => 0x55,
            Header::Libload => 0xee,
            Header::Address => 0xaa,
            Header::Code => 0xff,
            Header::Load => 0x33,
            Header::Store => 0x44,
            Header::Registers => 0x77,
            Header::Syscall => 0x99,
            Header::SyscallResult => 0x9a,
            Header::Debug => 0xdd,
        }
    }

    /// The tag that a byte stands for.
    pub fn try_from(value: u8) -> (r: Result<Self, ()>)
        ensures
            r matches Ok(h) ==> header_of(value) == Some(h) && h.tag_of() == value,
            r is Err ==> header_of(value) is None && forall|h: Header| h.tag_of() != value,
    {
        match value {
            0x55 => Ok(Header::Separator),
            0xee => Ok(Header::Libload),
            0xaa => Ok(Header::Address),
            0xff => Ok(Header::Code),
            0x33 => Ok(Header::Load),
            0x44 => Ok(Header::Store),
            0x77 => Ok(Header::Registers),
            0x99 => Ok(Header::Syscall),
            0x9a => Ok(Header::SyscallResult),
            0xdd => Ok(Header::Debug),
            _ => Err(()),
        }
    }
}

/// The number that `bytes` spell, least significant byte first.
pub open spec fn le_value(bytes: Seq<u8>) -> nat
    decreases bytes.len(),
{
    if bytes.len() == 0 {
        0
    } else {
        bytes[0] as nat + 256 * le_value(bytes.drop_first())
    }
}

/// One byte at `pos`, and the position behind it.
pub open spec fn read_u8(input: Seq<u8>, pos: int) -> Option<(u8, int)> {
    if 0 <= pos < input.len() {
        Some((input[pos], pos + 1))
    } else {
        None
    }
}

/// A little-endian u64 at `pos`, and the position behind it.
pub open spec fn read_u64(input: Seq<u8>, pos: int) -> Option<(u64, int)> {
    if 0 <= pos && pos + 8 <= input.len() {
        Some((le_value(input.subrange(pos, pos + 8)) as u64, pos + 8))
    } else {
        None
    }
}

/// `count` little-endian u64 from `pos`, and the position behind them.
pub open spec fn read_words(input: Seq<u8>, pos: int, count: nat) -> Option<(Seq<u64>, int)>
    decreases count,
{
    if count == 0 {
        Some((Seq::empty(), pos))
    } else {
        match read_words(input, pos, (count - 1) as nat) {
            None => None,
            Some((front, p)) => match read_u64(input, p) {
                None => None,
                Some((w, q)) => Some((front.push(w), q)),
            },
        }
    }
}

/// A length-prefixed block of bytes at `pos`, and the position behind it.
pub open spec fn read_block(input: Seq<u8>, pos: int) -> Option<(Seq<u8>, int)> {
    match read_u64(input, pos) {
        None => None,
        Some((n, p)) => if p + n <= input.len() {
            Some((input.subrange(p, p + n), p + n))
        } else {
            None
        },
    }
}

/// A length-prefixed UTF-8 text at `pos`, and the position behind it.
pub open spec fn read_text(input: Seq<u8>, pos: int) -> Result<(Seq<char>, int), DecodeError> {
    match read_block(input, pos) {
        None => Err(DecodeError::Truncated),
        Some((bytes, p)) => if valid_utf8(bytes) {
            Ok((decode_utf8(bytes), p))
        } else {
            Err(DecodeError::InvalidUtf8)
        },
    }
}

/// A memory access at `pos`: size, address and value.
pub open spec fn read_access(input: Seq<u8>, pos: int) -> Option<(u64, u64, u8, int)> {
    match read_u8(input, pos) {
        None => None,
        Some((size, p)) => match read_u64(input, p) {
            None => None,
            Some((adr, q)) => match read_u64(input, q) {
                None => None,
                Some((value, r)) => Some((adr, value, size, r)),
            },
        },
    }
}

/// The payload of a message with tag `header` at `pos`, and the position behind it.
pub open spec fn parse_payload(header: Header, input: Seq<u8>, pos: int) -> Result<
    (MessageView, int),
    DecodeError,
> {
    match header {
        Header::Separator => Ok((MessageView::Separator, pos)),
        Header::Libload => match read_text(input, pos) {
            Err(e) => Err(e),
            Ok((name, p)) => match read_u64(input, p) {
                None => Err(DecodeError::Truncated),
                Some((from, q)) => match read_u64(input, q) {
                    None => Err(DecodeError::Truncated),
                    Some((to, r)) => Ok((MessageView::LibLoad(name, from, to), r)),
                },
            },
        },
        Header::Address => match read_u64(input, pos) {
            None => Err(DecodeError::Truncated),
            Some((a, p)) => Ok((MessageView::Address(a), p)),
        },
        Header::Code => match read_block(input, pos) {
            None => Err(DecodeError::Truncated),
            Some((code, p)) => Ok((MessageView::Code(code), p)),
        },
        Header::Load => match read_access(input, pos) {
            None => Err(DecodeError::Truncated),
            Some((adr, value, size, p)) => Ok((MessageView::Load(adr, value, size), p)),
        },
        Header::Store => match read_access(input, pos) {
            None => Err(DecodeError::Truncated),
            Some((adr, value, size, p)) => Ok((MessageView::Store(adr, value, size), p)),
        },
        Header::Registers => match read_u8(input, pos) {
            None => Err(DecodeError::Truncated),
            Some((count, p)) => match read_u64(input, p) {
                None => Err(DecodeError::Truncated),
                Some((flags, q)) => match read_u64(input, q) {
                    None => Err(DecodeError::Truncated),
                    Some((pc, r)) => match read_words(input, r, count as nat) {
                        None => Err(DecodeError::Truncated),
                        Some((regs, s)) => Ok((MessageView::Registers(pc, flags, regs), s)),
                    },
                },
            },
        },
        Header::Syscall => match read_text(input, pos) {
            Err(e) => Err(e),
            Ok((text, p)) => Ok((MessageView::Syscall(text), p)),
        },
        Header::SyscallResult => match read_text(input, pos) {
            Err(e) => Err(e),
            Ok((text, p)) => Ok((MessageView::SyscallResult(text), p)),
        },
        Header::Debug => match read_text(input, pos) {
            Err(e) => Err(e),
            Ok((text, p)) => Ok((MessageView::Debug(text), p)),
        },
    }
}

/// The tag that a byte stands for, if any.
pub open spec fn header_of(byte: u8) -> Option<Header> {
    if byte == 0x55 {
        Some(Header::Separator)
    } else if byte == 0xee {
        Some(Header::Libload)
    } else if byte == 0xaa {
        Some(Header::Address)
    } else if byte == 0xff {
        Some(Header::Code)
    } else if byte == 0x33 {
        Some(Header::Load)
    } else if byte == 0x44 {
        Some(Header::Store)
    } else if byte == 0x77 {
        Some(Header::Registers)
    } else if byte == 0x99 {
        Some(Header::Syscall)
    } else if byte == 0x9a {
        Some(Header::SyscallResult)
    } else if byte == 0xdd {
        Some(Header::Debug)
    } else {
        None
    }
}

/// The message at `pos` and the position behind it; `None` at the end of the stream.
pub open spec fn parse_message(input: Seq<u8>, pos: int) -> Result<
    Option<(MessageView, int)>,
    DecodeError,
> {
    if pos >= input.len() {
        Ok(None)
    } else {
        match header_of(input[pos]) {
            None => Err(DecodeError::UnknownTag(input[pos])),
            Some(header) => match parse_payload(header, input, pos + 1) {
                Err(e) => Err(e),
                Ok((message, p)) => Ok(Some((message, p))),
            },
        }
    }
}

/// `String::from_utf8`: the text that the bytes encode, if they are valid UTF-8.
#[verifier::external_body]
pub(crate) fn string_from_utf8(bytes: Vec<u8>) -> (text: Option<String>)
    ensures
        text is Some <==> valid_utf8(bytes@),
        text matches Some(s) ==> s@ == decode_utf8(bytes@),
{
    String::from_utf8(bytes).ok()
}

fn take_u8(input: &[u8], pos: usize) -> (r: Option<(u8, usize)>)
    requires
        pos <= input@.len(),
    ensures
        r is None <==> read_u8(input@, pos as int) is None,
        r matches Some((b, p)) ==> read_u8(input@, pos as int) == Some((b, p as int)) && p
            <= input@.len(),
{
    if pos < input.len() {
        Some((input[pos], pos + 1))
    } else {
        None
    }
}

fn take_u64(input: &[u8], pos: usize) -> (r: Option<(u64, usize)>)
    requires
        pos <= input@.len(),
    ensures
        r is None <==> read_u64(input@, pos as int) is None,
        r matches Some((v, p)) ==> read_u64(input@, pos as int) == Some((v, p as int)) && p
            <= input@.len(),
{
    let n = input.len();
    if n - pos < 8 {
        return None;
    }
    let ghost word = input@.subrange(pos as int, pos + 8);
    let mut acc: u64 = 0;
    let mut i: usize = 8;
    while i > 0
        invariant
            i <= 8,
            pos + 8 <= n == input@.len(),
            word == input@.subrange(pos as int, pos + 8),
            acc == le_value(word.subrange(i as int, 8)),
            acc < span((8 - i) as nat),
        decreases i,
    {
        i -= 1;
        proof {
            let tail = word.subrange(i as int, 8);
            assert(tail.drop_first() =~= word.subrange(i + 1, 8));
            assert(tail[0] == input@[pos + i]);
            lemma_span_bound((8 - i - 1) as nat);
        }
        acc = acc * 256 + input[pos + i] as u64;
    }
    assert(word.subrange(0, 8) =~= word);
    Some((acc, pos + 8))
}

proof fn lemma_span_bound(n: nat)
    requires
        n <= 7,
    ensures
        span(n) <= 0x100_0000_0000_0000,
        span(n + 1) == 256 * span(n),
{
    lemma_span_monotonic(n, 7);
    lemma_span_values();
}

/// The number that some bytes spell is below `256` to the power of their count.
pub proof fn lemma_le_value_bound(bytes: Seq<u8>)
    ensures
        le_value(bytes) < span(bytes.len()),
    decreases bytes.len(),
{
    if bytes.len() > 0 {
        lemma_le_value_bound(bytes.drop_first());
    }
}

fn take_block(input: &[u8], pos: usize) -> (r: Option<(Vec<u8>, usize)>)
    requires
        pos <= input@.len(),
    ensures
        r is None <==> read_block(input@, pos as int) is None,
        r matches Some((v, p)) ==> read_block(input@, pos as int) == Some((v@, p as int)) && p
            <= input@.len(),
{
    let (n, p) = match take_u64(input, pos) {
        Some(x) => x,
        None => {
            return None;
        },
    };
    if n > (input.len() - p) as u64 {
        return None;
    }
    let len = n as usize;
    let block = slice_to_vec(slice_subrange(input, p, p + len));
    Some((block, p + len))
}

fn take_text(input: &[u8], pos: usize) -> (r: Result<(String, usize), DecodeError>)
    requires
        pos <= input@.len(),
    ensures
        r matches Ok((s, p)) ==> read_text(input@, pos as int) == Ok::<
            (Seq<char>, int),
            DecodeError,
        >((s@, p as int)) && p <= input@.len(),
        r matches Err(e) ==> read_text(input@, pos as int) == Err::<(Seq<char>, int), DecodeError>(
            e,
        ),
{
    let (bytes, p) = match take_block(input, pos) {
        Some(x) => x,
        None => {
            return Err(DecodeError::Truncated);
        },
    };
    match string_from_utf8(bytes) {
        Some(text) => Ok((text, p)),
        None => Err(DecodeError::InvalidUtf8),
    }
}

fn take_access(input: &[u8], pos: usize) -> (r: Option<(u64, u64, u8, usize)>)
    requires
        pos <= input@.len(),
    ensures
        r is None <==> read_access(input@, pos as int) is None,
        r matches Some((adr, value, size, p)) ==> read_access(input@, pos as int) == Some(
            (adr, value, size, p as int),
        ) && p <= input@.len(),
{
    let (size, p) = match take_u8(input, pos) {
        Some(x) => x,
        None => {
            return None;
        },
    };
    let (adr, q) = match take_u64(input, p) {
        Some(x) => x,
        None => {
            return None;
        },
    };
    let (value, r) = match take_u64(input, q) {
        Some(x) => x,
        None => {
            return None;
        },
    };
    Some((adr, value, size, r))
}

fn take_words(input: &[u8], pos: usize, count: u8) -> (r: Option<(Vec<u64>, usize)>)
    requires
        pos <= input@.len(),
    ensures
        r is None <==> read_words(input@, pos as int, count as nat) is None,
        r matches Some((v, p)) ==> read_words(input@, pos as int, count as nat) == Some(
            (v@, p as int),
        ) && p <= input@.len(),
{
    let mut words: Vec<u64> = Vec::new();
    let mut p = pos;
    let mut i: u8 = 0;
    while i < count
        invariant
            i <= count,
            p <= input@.len(),
            read_words(input@, pos as int, i as nat) == Some((words@, p as int)),
        decreases count - i,
    {
        match take_u64(input, p) {
            Some((w, q)) => {
                assert(read_words(input@, pos as int, (i + 1) as nat) == Some(
                    (words@.push(w), q as int),
                ));
                words.push(w);
                p = q;
            },
            None => {
                proof {
                    assert(read_words(input@, pos as int, (i + 1) as nat) is None);
                    lemma_read_words_fails(input@, pos as int, (i + 1) as nat, count as nat);
                }
                return None;
            },
        }
        i += 1;
    }
    Some((words, p))
}

/// Once too few words are left, asking for more fails too.
pub proof fn lemma_read_words_fails(input: Seq<u8>, pos: int, short: nat, count: nat)
    requires
        short <= count,
        read_words(input, pos, short) is None,
    ensures
        read_words(input, pos, count) is None,
    decreases count,
{
    if short < count {
        lemma_read_words_fails(input, pos, short, (count - 1) as nat);
    }
}

impl Header {
    /// Reads the payload that follows this tag, from `pos` on. Gives the
    /// message and the position behind it.
    ///
    /// The payload stands there whole, and its texts are UTF-8. Of a
    /// payload cut short, or with a text that is not UTF-8, there is no
    /// message; `try_deserialize` tells such a payload from a whole one.
    pub fn deserialize(&self, input: &[u8], pos: usize) -> (r: (Message, usize))
        requires
            pos <= input@.len(),
            parse_payload(*self, input@, pos as int) is Ok,
        ensures
            parse_payload(*self, input@, pos as int) == Ok::<(MessageView, int), DecodeError>(
                (r.0@, r.1 as int),
            ),
            r.1 <= input@.len(),
    {
        match self.try_deserialize(input, pos) {
            Ok(found) => found,
            Err(_) => unreached(),
        }
    }

    /// Reads the payload that follows this tag, from `pos` on, if it
    /// stands there whole. Gives the message and the position behind it, or
    /// tells that the payload is cut short or that a text is not UTF-8.
    pub fn try_deserialize(&self, input: &[u8], pos: usize) -> (r: Result<
        (Message, usize),
        DecodeError,
    >)
        requires
            pos <= input@.len(),
        ensures
            r matches Ok((m, p)) ==> parse_payload(*self, input@, pos as int) == Ok::<
                (MessageView, int),
                DecodeError,
            >((m@, p as int)) && p <= input@.len(),
            r matches Err(e) ==> parse_payload(*self, input@, pos as int) == Err::<
                (MessageView, int),
                DecodeError,
            >(e),
    {
        match self {
            Header::Libload => {
                let (name, p) = match take_text(input, pos) {
                    Ok(x) => x,
                    Err(e) => {
                        return Err(e);
                    },
                };
                let (from, q) = match take_u64(input, p) {
                    Some(x) => x,
                    None => {
                        return Err(DecodeError::Truncated);
                    },
                };
                let (to, r) = match take_u64(input, q) {
                    Some(x) => x,
                    None => {
                        return Err(DecodeError::Truncated);
                    },
                };
                Ok((Message::LibLoad(name, from, to), r))
            },
            Header::Separator => Ok((Message::Separator, pos)),
            Header::Address => match take_u64(input, pos) {
                Some((a, p)) => Ok((Message::Address(a), p)),
                None => Err(DecodeError::Truncated),
            },
            Header::Code => match take_block(input, pos) {
                Some((code, p)) => Ok((Message::Code(code), p)),
                None => Err(DecodeError::Truncated),
            },
            Header::Load => match take_access(input, pos) {
                Some((adr, value, size, p)) => Ok((Message::Load(adr, value, size), p)),
                None => Err(DecodeError::Truncated),
            },
            Header::Store => match take_access(input, pos) {
                Some((adr, value, size, p)) => Ok((Message::Store(adr, value, size), p)),
                None => Err(DecodeError::Truncated),
            },
            Header::Registers => {
                let (count, p) = match take_u8(input, pos) {
                    Some(x) => x,
                    None => {
                        return Err(DecodeError::Truncated);
                    },
                };
                let (flags, q) = match take_u64(input, p) {
                    Some(x) => x,
                    None => {
                        return Err(DecodeError::Truncated);
                    },
                };
                let (pc, r) = match take_u64(input, q) {
                    Some(x) => x,
                    None => {
                        return Err(DecodeError::Truncated);
                    },
                };
                let (regs, s) = match take_words(input, r, count) {
                    Some(x) => x,
                    None => {
                        return Err(DecodeError::Truncated);
                    },
                };
                Ok((Message::Registers(RegisterMessage { pc, flags, regs }), s))
            },
            Header::Syscall => match take_text(input, pos) {
                Ok((text, p)) => Ok((Message::Syscall(text), p)),
                Err(e) => Err(e),
            },
            Header::SyscallResult => match take_text(input, pos) {
                Ok((text, p)) => Ok((Message::SyscallResult(text), p)),
                Err(e) => Err(e),
            },
            Header::Debug => match take_text(input, pos) {
                Ok((text, p)) => Ok((Message::Debug(text), p)),
                Err(e) => Err(e),
            },
        }
    }
}

/// Reads the message at `pos`. At the end of the stream there is none;
/// otherwise the message comes with the position behind it.
///
/// What stands at `pos` is a message: it starts with a known tag, its
/// payload is whole and its texts are UTF-8. Anything else is no trace, and
/// there is no way to find the next message behind it; `try_next_message`
/// tells the one from the other.
pub fn get_next_message(input: &[u8], pos: usize) -> (r: Option<(Message, usize)>)
    requires
        parse_message(input@, pos as int) is Ok,
    ensures
        r is None <==> pos >= input@.len(),
        r matches Some((m, p)) ==> parse_message(input@, pos as int) == Ok::<
            Option<(MessageView, int)>,
            DecodeError,
        >(Some((m@, p as int))) && pos < p <= input@.len(),
{
    match try_next_message(input, pos) {
        Ok(found) => found,
        Err(_) => unreached(),
    }
}

/// Reads the message at `pos`, if one stands there. At the end of the
/// stream there is none; otherwise the message comes with the position
/// behind it. An unknown tag, a message cut short and a text that is not
/// UTF-8 are told as errors.
pub fn try_next_message(input: &[u8], pos: usize) -> (r: Result<
    Option<(Message, usize)>,
    DecodeError,
>)
    ensures
        r matches Ok(Some((m, p))) ==> parse_message(input@, pos as int) == Ok::<
            Option<(MessageView, int)>,
            DecodeError,
        >(Some((m@, p as int))) && pos < p <= input@.len(),
        r matches Ok(None) ==> parse_message(input@, pos as int) == Ok::<
            Option<(MessageView, int)>,
            DecodeError,
        >(None) && pos >= input@.len(),
        r matches Err(e) ==> parse_message(input@, pos as int) == Err::<
            Option<(MessageView, int)>,
            DecodeError,
        >(e),
{
    if pos >= input.len() {
        return Ok(None);
    }
    let header = match Header::try_from(input[pos]) {
        Ok(header) => header,
        Err(_) => {
            return Err(DecodeError::UnknownTag(input[pos]));
        },
    };
    match header.try_deserialize(input, pos + 1) {
        Ok((message, p)) => {
            proof {
                lemma_payload_advances(header, input@, pos + 1);
            }
            Ok(Some((message, p)))
        },
        Err(e) => Err(e),
    }
}

/// Reading a block or some words never moves backwards.
pub proof fn lemma_read_words_advances(input: Seq<u8>, pos: int, count: nat)
    ensures
        read_words(input, pos, count) matches Some((_, p)) ==> pos <= p,
    decreases count,
{
    if count > 0 {
        lemma_read_words_advances(input, pos, (count - 1) as nat);
    }
}

/// The position behind a payload is not before its start.
pub proof fn lemma_payload_advances(header: Header, input: Seq<u8>, pos: int)
    requires
        0 <= pos,
    ensures
        parse_payload(header, input, pos) matches Ok((_, p)) ==> pos <= p,
{
    if header == Header::Registers {
        if let Some((count, p)) = read_u8(input, pos) {
            lemma_read_words_advances(input, p + 16, count as nat);
        }
    }
}


/// The position behind a message is behind its start.
pub proof fn lemma_message_advances(input: Seq<u8>, pos: int)
    requires
        0 <= pos,
    ensures
        parse_message(input, pos) matches Ok(Some((_, p))) ==> pos < p,
{
    if pos < input.len() {
        if let Some(header) = header_of(input[pos]) {
            lemma_payload_advances(header, input, pos + 1);
        }
    }
}

/// The messages from `pos` up to the next separator or the end of the
/// stream, and the position behind them; the separator is left out.
pub open spec fn parse_batch(input: Seq<u8>, pos: int) -> Result<(Seq<MessageView>, int), DecodeError>
    decreases input.len() - pos,
    when 0 <= pos
{
    match parse_message(input, pos) {
        Err(e) => Err(e),
        Ok(None) => Ok((Seq::empty(), pos)),
        Ok(Some((message, p))) => if message is Separator {
            Ok((Seq::empty(), p))
        } else {
            proof {
                lemma_message_advances(input, pos);
            }
            match parse_batch(input, p) {
                Err(e) => Err(e),
                Ok((rest, q)) => Ok((seq![message] + rest, q)),
            }
        },
    }
}

/// Reads the messages from `pos` up to the next separator or the end of
/// the stream.
pub fn get_next_batch(input: &[u8], pos: usize) -> (r: Result<(Vec<Message>, usize), DecodeError>)
    ensures
        r matches Ok((msgs, p)) ==> parse_batch(input@, pos as int) == Ok::<
            (Seq<MessageView>, int),
            DecodeError,
        >((views(msgs@), p as int)) && pos <= p && (p <= input@.len() || p == pos) && (msgs@.len()
            > 0 ==> pos < p),
        r matches Err(e) ==> parse_batch(input@, pos as int) == Err::<
            (Seq<MessageView>, int),
            DecodeError,
        >(e),
{
    let mut msgs: Vec<Message> = Vec::new();
    let mut p = pos;
    loop
        invariant
            pos <= p,
            msgs@.len() > 0 ==> pos < p,
            p <= input@.len() || p == pos,
            parse_batch(input@, pos as int) == (match parse_batch(input@, p as int) {
                Err(e) => Err(e),
                Ok((rest, q)) => Ok((views(msgs@) + rest, q)),
            }),
        decreases input@.len() - p,
    {
        let ghost done = views(msgs@);
        match try_next_message(input, p) {
            Err(e) => {
                return Err(e);
            },
            Ok(None) => {
                assert(done + Seq::<MessageView>::empty() =~= done);
                return Ok((msgs, p));
            },
            Ok(Some((message, q))) => {
                if let Message::Separator = message {
                    assert(done + Seq::<MessageView>::empty() =~= done);
                    return Ok((msgs, q));
                }
                proof {
                    assert(views(msgs@.push(message)) =~= done + seq![message@]);
                    match parse_batch(input@, q as int) {
                        Ok((rest, end)) => {
                            assert(done + (seq![message@] + rest) =~= (done + seq![message@])
                                + rest);
                        },
                        Err(_) => {},
                    }
                }
                msgs.push(message);
                p = q;
            },
        }
    }
}

/// Whether a whole batch stands at `pos`: messages up to a separator.
/// It does not yet if the stream ends before the separator or inside a
/// message; more bytes may complete it. An unknown tag and a text that is
/// not UTF-8 are errors that more bytes do not mend.
pub open spec fn batch_stands(input: Seq<u8>, pos: int) -> Result<bool, DecodeError>
    decreases input.len() - pos,
    when 0 <= pos
{
    match parse_message(input, pos) {
        Err(DecodeError::Truncated) => Ok(false),
        Err(e) => Err(e),
        Ok(None) => Ok(false),
        Ok(Some((message, p))) => if message is Separator {
            Ok(true)
        } else {
            proof {
                lemma_message_advances(input, pos);
            }
            batch_stands(input, p)
        },
    }
}

/// Tells whether a whole batch stands at `pos`, so that it can be read
/// while the stream is still open.
pub fn batch_ready(input: &[u8], pos: usize) -> (r: Result<bool, DecodeError>)
    ensures
        r == batch_stands(input@, pos as int),
{
    let mut p = pos;
    loop
        invariant
            pos <= p,
            batch_stands(input@, pos as int) == batch_stands(input@, p as int),
        decreases input@.len() - p,
    {
        match try_next_message(input, p) {
            Err(DecodeError::Truncated) => {
                return Ok(false);
            },
            Err(e) => {
                return Err(e);
            },
            Ok(None) => {
                return Ok(false);
            },
            Ok(Some((message, q))) => {
                if let Message::Separator = message {
                    return Ok(true);
                }
                p = q;
            },
        }
    }
}

/// A whole batch is read as it stands, whatever follows it: where a batch
/// stands at `pos`, reading it gives no decode error.
pub proof fn lemma_ready_batch_is_read(input: Seq<u8>, pos: int)
    requires
        0 <= pos,
        batch_stands(input, pos) == Ok::<bool, DecodeError>(true),
    ensures
        parse_batch(input, pos) is Ok,
    decreases input.len() - pos,
{
    match parse_message(input, pos) {
        Ok(Some((message, p))) => {
            if !(message is Separator) {
                lemma_message_advances(input, pos);
                lemma_ready_batch_is_read(input, p);
            }
        },
        _ => {},
    }
}

/// What a batch of messages is.
pub enum BatchView {
    /// No message: the traced process has ended.
    End,
    /// The module map: names with the range of addresses at which each was loaded.
    LibLoad(Seq<(Seq<char>, (u64, u64))>),
    /// A step of the trace.
    TraceStep(StepView),
}

/// The module map entries among the messages, in their order: one for
/// every module map message, whatever its name.
pub open spec fn lib_loads(msgs: Seq<MessageView>) -> Seq<(Seq<char>, (u64, u64))>
    decreases msgs.len(),
{
    if msgs.len() == 0 {
        Seq::empty()
    } else {
        let front = lib_loads(msgs.drop_last());
        match msgs.last() {
            MessageView::LibLoad(name, from, to) => front.push((name, (from, to))),
            _ => front,
        }
    }
}

/// What a batch of messages is: the end of the trace if it is empty, the
/// module map if it starts with a module map entry, else a step.
pub open spec fn classified(msgs: Seq<MessageView>) -> Result<BatchView, StepError> {
    if msgs.len() == 0 {
        Ok(BatchView::End)
    } else if msgs[0] is LibLoad {
        Ok(BatchView::LibLoad(lib_loads(msgs)))
    } else {
        match assembled(msgs) {
            Ok(step) => Ok(BatchView::TraceStep(step)),
            Err(e) => Err(e),
        }
    }
}

/// A batch of messages, read as what it stands for.
#[derive(Debug, Clone)]
pub enum Batch {
    /// No message: the traced process has ended.
    End,
    /// The module map: names with the range of addresses at which each was loaded.
    LibLoad(Vec<(String, (u64, u64))>),
    /// A step of the trace.
    TraceStep(GenericStep),
}

/// The entries of a module map as plain values.
pub open spec fn load_views(loads: Seq<(String, (u64, u64))>) -> Seq<(Seq<char>, (u64, u64))> {
    Seq::new(loads.len(), |i: int| (loads[i].0@, loads[i].1))
}

impl View for Batch {
    type V = BatchView;

    open spec fn view(&self) -> BatchView {
        match self {
            Batch::End => BatchView::End,
            Batch::LibLoad(loads) => BatchView::LibLoad(load_views(loads@)),
            Batch::TraceStep(step) => BatchView::TraceStep(step@),
        }
    }
}

/// Why a byte stream is no trace.
#[derive(Debug, Clone, Copy, PartialEq, Eq, Structural)]
pub enum TraceError {
    /// The bytes are no well-formed messages.
    Decode(DecodeError),
    /// The messages of a batch are no step.
    Step(StepError),
}

/// What the next batch from `pos` on is, and the position behind it.
pub open spec fn parse_step(input: Seq<u8>, pos: int) -> Result<(BatchView, int), TraceError> {
    match parse_batch(input, pos) {
        Err(e) => Err(TraceError::Decode(e)),
        Ok((msgs, p)) => match classified(msgs) {
            Err(e) => Err(TraceError::Step(e)),
            Ok(batch) => Ok((batch, p)),
        },
    }
}

/// The module map entries of a batch, in their order.
fn collect_loads(msgs: &Vec<Message>) -> (loads: Vec<(String, (u64, u64))>)
    ensures
        load_views(loads@) == lib_loads(views(msgs@)),
{
    let mut loads: Vec<(String, (u64, u64))> = Vec::new();
    let ghost all = views(msgs@);
    let mut i: usize = 0;
    while i < msgs.len()
        invariant
            i <= msgs@.len(),
            all == views(msgs@),
            load_views(loads@) =~= lib_loads(all.subrange(0, i as int)),
        decreases msgs.len() - i,
    {
        proof {
            let next = all.subrange(0, i + 1);
            assert(next.drop_last() =~= all.subrange(0, i as int));
            assert(next.last() == msgs@[i as int]@);
        }
        let ghost before = load_views(loads@);
        match &msgs[i] {
            Message::LibLoad(name, from, to) => {
                loads.push((name.clone(), (*from, *to)));
                assert(load_views(loads@) =~= before.push((name@, (*from, *to))));
            },
            _ => {},
        }
        i += 1;
    }
    assert(all.subrange(0, i as int) =~= all);
    loads
}

/// Reads the next batch from `pos` on and tells what it is: a step, the
/// module map, or the end of the trace. The module map holds an entry for
/// every module map message of the batch, in the order of the stream.
///
/// The end is reported for a batch without messages: when the stream is
/// over, and also when a separator follows directly on another.
pub fn get_next_step(input: &[u8], pos: usize) -> (r: Result<(Batch, usize), TraceError>)
    ensures
        r matches Ok((batch, p)) ==> parse_step(input@, pos as int) == Ok::<
            (BatchView, int),
            TraceError,
        >((batch@, p as int)) && pos <= p && (p <= input@.len() || p == pos),
        r matches Err(e) ==> parse_step(input@, pos as int) == Err::<(BatchView, int), TraceError>(
            e,
        ),
{
    let (msgs, p) = match get_next_batch(input, pos) {
        Ok(x) => x,
        Err(e) => {
            return Err(TraceError::Decode(e));
        },
    };
    if msgs.len() == 0 {
        return Ok((Batch::End, p));
    }
    if let Message::LibLoad(_, _, _) = &msgs[0] {
        return Ok((Batch::LibLoad(collect_loads(&msgs)), p));
    }
    match GenericStep::try_from(msgs.as_slice()) {
        Ok(step) => Ok((Batch::TraceStep(step), p)),
        Err(e) => Err(TraceError::Step(e)),
    }
}

} // verus!
