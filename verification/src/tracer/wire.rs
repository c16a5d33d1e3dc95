//! How messages are written to the wire, and that reading gives back what
//! was written.

use super::parser::{
    header_of, le_value, lemma_le_value_bound, parse_batch, parse_message, parse_payload,
    read_access, read_block, read_text, read_u64, read_words, DecodeError, Header, MessageView,
};
use crate::mem::byte::{lemma_span_positive, lemma_span_values, span};
use vstd::prelude::*;
use vstd::utf8::{encode_utf8, encode_utf8_decode_utf8, encode_utf8_valid_utf8};

verus! {

/// The `n` low bytes of `v`, least significant byte first.
pub open spec fn le_bytes(v: nat, n: nat) -> Seq<u8>
    decreases n,
{
    if n == 0 {
        Seq::empty()
    } else {
        seq![(v % 256) as u8] + le_bytes(v / 256, (n - 1) as nat)
    }
}

/// A u64 on the wire: eight bytes, least significant first.
pub open spec fn wire_u64(v: u64) -> Seq<u8> {
    le_bytes(v as nat, 8)
}

/// A block of bytes on the wire: its length, then the bytes.
pub open spec fn wire_block(bytes: Seq<u8>) -> Seq<u8> {
    wire_u64(bytes.len() as u64) + bytes
}

/// A text on the wire: the block of its UTF-8 bytes.
pub open spec fn wire_text(text: Seq<char>) -> Seq<u8> {
    wire_block(encode_utf8(text))
}

/// Some u64 on the wire, one after the other.
pub open spec fn wire_words(words: Seq<u64>) -> Seq<u8>
    decreases words.len(),
{
    if words.len() == 0 {
        Seq::empty()
    } else {
        wire_words(words.drop_last()) + wire_u64(words.last())
    }
}

/// The tag of a message.
pub open spec fn header(m: MessageView) -> Option<Header> {
    match m {
        MessageView::LibLoad(_, _, _) => Some(Header::Libload),
        MessageView::Separator => Some(Header::Separator),
        MessageView::Address(_) => Some(Header::Address),
        MessageView::Code(_) => Some(Header::Code),
        MessageView::Registers(_, _, _) => Some(Header::Registers),
        MessageView::Flags(_) => None,
        MessageView::Load(_, _, _) => Some(Header::Load),
        MessageView::Store(_, _, _) => Some(Header::Store),
        MessageView::Syscall(_) => Some(Header::Syscall),
        MessageView::SyscallResult(_) => Some(Header::SyscallResult),
        MessageView::Debug(_) => Some(Header::Debug),
    }
}

/// The payload of a message on the wire.
pub open spec fn payload(m: MessageView) -> Seq<u8> {
    match m {
        MessageView::LibLoad(name, from, to) => wire_text(name) + wire_u64(from) + wire_u64(to),
        MessageView::Separator => Seq::empty(),
        MessageView::Address(a) => wire_u64(a),
        MessageView::Code(c) => wire_block(c),
        MessageView::Registers(pc, flags, regs) => seq![regs.len() as u8] + wire_u64(flags)
            + wire_u64(pc) + wire_words(regs),
        MessageView::Flags(_) => Seq::empty(),
        MessageView::Load(adr, value, size) => seq![size] + wire_u64(adr) + wire_u64(value),
        MessageView::Store(adr, value, size) => seq![size] + wire_u64(adr) + wire_u64(value),
        MessageView::Syscall(t) => wire_text(t),
        MessageView::SyscallResult(t) => wire_text(t),
        MessageView::Debug(t) => wire_text(t),
    }
}

/// A message on the wire: its tag, then its payload.
pub open spec fn wire(m: MessageView) -> Seq<u8> {
    match header(m) {
        Some(h) => seq![h.tag_of()] + payload(m),
        None => Seq::empty(),
    }
}

/// The message can be written to the wire: it has a tag, its lengths fit
/// their fields.
pub open spec fn sendable(m: MessageView) -> bool {
    match m {
        MessageView::LibLoad(name, _, _) => encode_utf8(name).len() <= u64::MAX,
        MessageView::Code(c) => c.len() <= u64::MAX,
        MessageView::Registers(_, _, regs) => regs.len() <= u8::MAX,
        MessageView::Flags(_) => false,
        MessageView::Syscall(t) => encode_utf8(t).len() <= u64::MAX,
        MessageView::SyscallResult(t) => encode_utf8(t).len() <= u64::MAX,
        MessageView::Debug(t) => encode_utf8(t).len() <= u64::MAX,
        _ => true,
    }
}

/// `bytes` stand in `input` at `pos`.
pub open spec fn holds_at(input: Seq<u8>, pos: int, bytes: Seq<u8>) -> bool {
    0 <= pos && pos + bytes.len() <= input.len() && input.subrange(pos, pos + bytes.len()) == bytes
}

/// Two runs of bytes stand one after the other exactly if their
/// concatenation stands there.
pub proof fn lemma_holds_concat(input: Seq<u8>, pos: int, a: Seq<u8>, b: Seq<u8>)
    ensures
        holds_at(input, pos, a + b) <==> holds_at(input, pos, a) && holds_at(
            input,
            pos + a.len(),
            b,
        ),
{
    if holds_at(input, pos, a + b) {
        assert(input.subrange(pos, pos + a.len()) =~= (a + b).subrange(0, a.len() as int));
        assert((a + b).subrange(0, a.len() as int) =~= a);
        assert(input.subrange(pos + a.len(), pos + a.len() + b.len()) =~= (a + b).subrange(
            a.len() as int,
            (a + b).len() as int,
        ));
        assert((a + b).subrange(a.len() as int, (a + b).len() as int) =~= b);
    }
    if holds_at(input, pos, a) && holds_at(input, pos + a.len(), b) {
        assert(input.subrange(pos, pos + a.len() + b.len()) =~= input.subrange(pos, pos + a.len())
            + input.subrange(pos + a.len(), pos + a.len() + b.len()));
    }
}

/// `n` bytes are `n` bytes.
pub proof fn lemma_le_bytes_len(v: nat, n: nat)
    ensures
        le_bytes(v, n).len() == n,
    decreases n,
{
    if n > 0 {
        lemma_le_bytes_len(v / 256, (n - 1) as nat);
    }
}

/// Bytes written least significant first spell the number again, as far
/// as it fits into them.
pub proof fn lemma_le_round_trip(v: nat, n: nat)
    ensures
        le_value(le_bytes(v, n)) == v % span(n),
    decreases n,
{
    if n > 0 {
        let rest = (n - 1) as nat;
        let bytes = le_bytes(v, n);
        lemma_le_round_trip(v / 256, rest);
        assert(bytes.drop_first() =~= le_bytes(v / 256, rest));
        assert(bytes[0] == (v % 256) as u8);
        let s = span(rest);
        lemma_span_positive(rest);
        lemma_le_value_bound(le_bytes(v / 256, rest));
        vstd::arithmetic::div_mod::lemma_fundamental_div_mod(v as int, 256);
        vstd::arithmetic::div_mod::lemma_breakdown(v as int, 256, s as int);
        assert(v % (256 * s) == 256 * ((v / 256) % s) + v % 256);
    } else {
        assert(v % 1 == 0);
    }
}

/// A u64 takes eight bytes on the wire.
pub proof fn lemma_wire_u64_len(v: u64)
    ensures
        wire_u64(v).len() == 8,
{
    lemma_le_bytes_len(v as nat, 8);
}

/// A u64 that stands on the wire is read from it.
pub proof fn lemma_read_wire_u64(input: Seq<u8>, pos: int, v: u64)
    requires
        holds_at(input, pos, wire_u64(v)),
    ensures
        read_u64(input, pos) == Some((v, pos + 8)),
        wire_u64(v).len() == 8,
{
    lemma_le_bytes_len(v as nat, 8);
    lemma_le_round_trip(v as nat, 8);
    lemma_span_values();
    vstd::arithmetic::div_mod::lemma_small_mod(v as nat, span(8));
}

/// A block that stands on the wire is read from it.
pub proof fn lemma_read_wire_block(input: Seq<u8>, pos: int, bytes: Seq<u8>)
    requires
        bytes.len() <= u64::MAX,
        holds_at(input, pos, wire_block(bytes)),
    ensures
        read_block(input, pos) == Some((bytes, pos + 8 + bytes.len())),
        wire_block(bytes).len() == 8 + bytes.len(),
{
    let n = bytes.len() as u64;
    lemma_wire_u64_len(n);
    lemma_holds_concat(input, pos, wire_u64(n), bytes);
    lemma_read_wire_u64(input, pos, n);
}

/// A text that stands on the wire is read from it.
pub proof fn lemma_read_wire_text(input: Seq<u8>, pos: int, text: Seq<char>)
    requires
        encode_utf8(text).len() <= u64::MAX,
        holds_at(input, pos, wire_text(text)),
    ensures
        read_text(input, pos) == Ok::<(Seq<char>, int), DecodeError>(
            (text, pos + wire_text(text).len()),
        ),
        wire_text(text).len() == 8 + encode_utf8(text).len(),
{
    lemma_read_wire_block(input, pos, encode_utf8(text));
    encode_utf8_valid_utf8(text);
    encode_utf8_decode_utf8(text);
}

/// Every word takes eight bytes on the wire.
pub proof fn lemma_wire_words_len(words: Seq<u64>)
    ensures
        wire_words(words).len() == 8 * words.len(),
    decreases words.len(),
{
    if words.len() > 0 {
        lemma_wire_words_len(words.drop_last());
        lemma_wire_u64_len(words.last());
    }
}

/// Words that stand on the wire are read from it.
pub proof fn lemma_read_wire_words(input: Seq<u8>, pos: int, words: Seq<u64>)
    requires
        holds_at(input, pos, wire_words(words)),
    ensures
        read_words(input, pos, words.len()) == Some((words, pos + 8 * words.len())),
        wire_words(words).len() == 8 * words.len(),
    decreases words.len(),
{
    if words.len() > 0 {
        let front = words.drop_last();
        lemma_wire_u64_len(words.last());
        lemma_wire_words_len(front);
        lemma_holds_concat(input, pos, wire_words(front), wire_u64(words.last()));
        lemma_read_wire_words(input, pos, front);
        lemma_read_wire_u64(input, pos + 8 * front.len(), words.last());
        assert(front.push(words.last()) =~= words);
    }
}

/// A memory access that stands on the wire is read from it.
pub proof fn lemma_read_wire_access(input: Seq<u8>, pos: int, adr: u64, value: u64, size: u8)
    requires
        holds_at(input, pos, seq![size] + wire_u64(adr) + wire_u64(value)),
    ensures
        read_access(input, pos) == Some((adr, value, size, pos + 17)),
        (seq![size] + wire_u64(adr) + wire_u64(value)).len() == 17,
{
    lemma_wire_u64_len(adr);
    lemma_wire_u64_len(value);
    lemma_holds_concat(input, pos, seq![size] + wire_u64(adr), wire_u64(value));
    lemma_holds_concat(input, pos, seq![size], wire_u64(adr));
    assert(input.subrange(pos, pos + 1)[0] == size);
    lemma_read_wire_u64(input, pos + 1, adr);
    lemma_read_wire_u64(input, pos + 9, value);
}

/// A payload that stands on the wire is read from it.
pub proof fn lemma_read_wire_payload(input: Seq<u8>, pos: int, m: MessageView)
    requires
        sendable(m),
        holds_at(input, pos, payload(m)),
    ensures
        parse_payload(header(m)->0, input, pos) == Ok::<(MessageView, int), DecodeError>(
            (m, pos + payload(m).len()),
        ),
{
    match m {
        MessageView::LibLoad(name, from, to) => {
            lemma_wire_u64_len(from);
            lemma_wire_u64_len(to);
            lemma_wire_u64_len(encode_utf8(name).len() as u64);
            lemma_holds_concat(input, pos, wire_text(name) + wire_u64(from), wire_u64(to));
            lemma_holds_concat(input, pos, wire_text(name), wire_u64(from));
            lemma_read_wire_text(input, pos, name);
            let p = pos + wire_text(name).len();
            lemma_read_wire_u64(input, p, from);
            lemma_read_wire_u64(input, p + 8, to);
        },
        MessageView::Separator => {},
        MessageView::Address(a) => {
            lemma_read_wire_u64(input, pos, a);
        },
        MessageView::Code(c) => {
            lemma_read_wire_block(input, pos, c);
        },
        MessageView::Registers(pc, flags, regs) => {
            let count = regs.len() as u8;
            lemma_wire_u64_len(flags);
            lemma_wire_u64_len(pc);
            lemma_wire_words_len(regs);
            lemma_holds_concat(
                input,
                pos,
                seq![count] + wire_u64(flags) + wire_u64(pc),
                wire_words(regs),
            );
            lemma_holds_concat(input, pos, seq![count] + wire_u64(flags), wire_u64(pc));
            lemma_holds_concat(input, pos, seq![count], wire_u64(flags));
            assert(input.subrange(pos, pos + 1)[0] == count);
            lemma_read_wire_u64(input, pos + 1, flags);
            lemma_read_wire_u64(input, pos + 9, pc);
            lemma_read_wire_words(input, pos + 17, regs);
        },
        MessageView::Flags(_) => {},
        MessageView::Load(adr, value, size) => {
            lemma_read_wire_access(input, pos, adr, value, size);
        },
        MessageView::Store(adr, value, size) => {
            lemma_read_wire_access(input, pos, adr, value, size);
        },
        MessageView::Syscall(t) => {
            lemma_read_wire_text(input, pos, t);
        },
        MessageView::SyscallResult(t) => {
            lemma_read_wire_text(input, pos, t);
        },
        MessageView::Debug(t) => {
            lemma_read_wire_text(input, pos, t);
        },
    }
}

/// Every tag is told from its byte.
pub proof fn lemma_header_of_tag(h: Header)
    ensures
        header_of(h.tag_of()) == Some(h),
{
}

/// Round trip: wherever a message stands on the wire, reading there gives
/// the message and the position behind it.
pub proof fn lemma_read_wire(input: Seq<u8>, pos: int, m: MessageView)
    requires
        sendable(m),
        holds_at(input, pos, wire(m)),
    ensures
        parse_message(input, pos) == Ok::<Option<(MessageView, int)>, DecodeError>(
            Some((m, pos + wire(m).len())),
        ),
{
    let h = header(m)->0;
    lemma_holds_concat(input, pos, seq![h.tag_of()], payload(m));
    assert(input.subrange(pos, pos + 1)[0] == h.tag_of());
    lemma_header_of_tag(h);
    lemma_read_wire_payload(input, pos + 1, m);
}

/// Some messages on the wire, one after the other.
pub open spec fn wire_all(msgs: Seq<MessageView>) -> Seq<u8>
    decreases msgs.len(),
{
    if msgs.len() == 0 {
        Seq::empty()
    } else {
        wire(msgs[0]) + wire_all(msgs.drop_first())
    }
}

/// Every one of the messages can be written, and none is a separator.
pub open spec fn batchable(msgs: Seq<MessageView>) -> bool {
    forall|i: int| 0 <= i < msgs.len() ==> sendable(#[trigger] msgs[i]) && !(msgs[i] is Separator)
}

/// Round trip of a batch: wherever some messages stand on the wire with a
/// separator behind them, reading the batch there gives the messages and
/// the position behind the separator.
pub proof fn lemma_read_wire_batch(input: Seq<u8>, pos: int, msgs: Seq<MessageView>)
    requires
        batchable(msgs),
        holds_at(input, pos, wire_all(msgs) + wire(MessageView::Separator)),
    ensures
        parse_batch(input, pos) == Ok::<(Seq<MessageView>, int), DecodeError>(
            (msgs, pos + wire_all(msgs).len() + 1),
        ),
    decreases msgs.len(),
{
    let end = wire(MessageView::Separator);
    assert(end =~= seq![0x55u8]);
    if msgs.len() == 0 {
        assert(wire_all(msgs) + end =~= end);
        lemma_read_wire(input, pos, MessageView::Separator);
        assert(msgs =~= Seq::<MessageView>::empty());
    } else {
        let first = msgs[0];
        let rest = msgs.drop_first();
        assert(wire_all(msgs) + end =~= wire(first) + (wire_all(rest) + end));
        lemma_holds_concat(input, pos, wire(first), wire_all(rest) + end);
        lemma_read_wire(input, pos, first);
        assert forall|i: int| 0 <= i < rest.len() implies sendable(#[trigger] rest[i]) && !(rest[i]
            is Separator) by {
            assert(rest[i] == msgs[i + 1]);
        }
        lemma_read_wire_batch(input, pos + wire(first).len(), rest);
        assert(seq![first] + rest =~= msgs);
    }
}

/// Round trip of the end of a trace: where some messages stand at the very
/// end of the stream, reading the batch gives them, and the next read
/// finds the stream at its end.
pub proof fn lemma_read_wire_tail(input: Seq<u8>, pos: int, msgs: Seq<MessageView>)
    requires
        batchable(msgs),
        holds_at(input, pos, wire_all(msgs)),
        pos + wire_all(msgs).len() == input.len(),
    ensures
        parse_batch(input, pos) == Ok::<(Seq<MessageView>, int), DecodeError>(
            (msgs, input.len() as int),
        ),
        parse_batch(input, input.len() as int) == Ok::<(Seq<MessageView>, int), DecodeError>(
            (Seq::empty(), input.len() as int),
        ),
    decreases msgs.len(),
{
    if msgs.len() == 0 {
        assert(msgs =~= Seq::<MessageView>::empty());
    } else {
        let first = msgs[0];
        let rest = msgs.drop_first();
        lemma_holds_concat(input, pos, wire(first), wire_all(rest));
        lemma_read_wire(input, pos, first);
        assert forall|i: int| 0 <= i < rest.len() implies sendable(#[trigger] rest[i]) && !(rest[i]
            is Separator) by {
            assert(rest[i] == msgs[i + 1]);
        }
        lemma_read_wire_tail(input, pos + wire(first).len(), rest);
        assert(seq![first] + rest =~= msgs);
    }
}

} // verus!
