use rebg::state::{MemoryOp, MemoryOpKind, MemoryValue, StepError};
use rebg::tracer::parser::{
    batch_ready, get_next_batch, get_next_message, get_next_step, try_next_message, Batch,
    DecodeError, Header, Message, TraceError,
};

fn u64le(out: &mut Vec<u8>, v: u64) {
    out.extend_from_slice(&v.to_le_bytes());
}

fn text(out: &mut Vec<u8>, s: &str) {
    u64le(out, s.len() as u64);
    out.extend_from_slice(s.as_bytes());
}

fn address(out: &mut Vec<u8>, a: u64) {
    out.push(0xaa);
    u64le(out, a);
}

fn code(out: &mut Vec<u8>, c: &[u8]) {
    out.push(0xff);
    u64le(out, c.len() as u64);
    out.extend_from_slice(c);
}

fn registers(out: &mut Vec<u8>, flags: u64, pc: u64, regs: &[u64]) {
    out.push(0x77);
    out.push(regs.len() as u8);
    u64le(out, flags);
    u64le(out, pc);
    for r in regs {
        u64le(out, *r);
    }
}

fn access(out: &mut Vec<u8>, tag: u8, size: u8, adr: u64, value: u64) {
    out.push(tag);
    out.push(size);
    u64le(out, adr);
    u64le(out, value);
}

fn libload(out: &mut Vec<u8>, name: &str, from: u64, to: u64) {
    out.push(0xee);
    text(out, name);
    u64le(out, from);
    u64le(out, to);
}

fn tagged_text(out: &mut Vec<u8>, tag: u8, s: &str) {
    out.push(tag);
    text(out, s);
}

#[test]
fn one_step_then_the_end() {
    let mut bytes = Vec::new();
    address(&mut bytes, 0x1000);
    code(&mut bytes, &[0xde, 0xad, 0xbe, 0xef]);
    registers(&mut bytes, 0, 0x1000, &[5]);
    bytes.push(0x55);

    let (batch, pos) = get_next_step(&bytes, 0).unwrap();
    assert_eq!(pos, bytes.len());
    match batch {
        Batch::TraceStep(step) => {
            assert_eq!(step.address, 0x1000);
            assert_eq!(step.code, vec![0xde, 0xad, 0xbe, 0xef]);
            assert_eq!(step.state.pc, 0x1000);
            assert_eq!(step.state.flags, 0);
            assert_eq!(step.state.regs, vec![5]);
            assert_eq!(step.strace, None);
            assert!(step.memory_ops.is_empty());
        }
        other => panic!("no step: {:?}", other),
    }

    let (batch, end) = get_next_step(&bytes, pos).unwrap();
    assert!(matches!(batch, Batch::End));
    assert_eq!(end, pos);
}

#[test]
fn every_message_is_read_as_the_table_says() {
    let mut bytes = Vec::new();
    libload(&mut bytes, "/bin/ls", 0x10, 0x20);
    let (m, p) = get_next_message(&bytes, 0).unwrap();
    assert!(matches!(m, Message::LibLoad(ref n, 0x10, 0x20) if n == "/bin/ls"));
    assert_eq!(p, bytes.len());

    let (m, p) = get_next_message(&[0x55, 0x55], 0).unwrap();
    assert!(matches!(m, Message::Separator));
    assert_eq!(p, 1);

    let mut bytes = Vec::new();
    address(&mut bytes, 0x0102_0304_0506_0708);
    let (m, _) = get_next_message(&bytes, 0).unwrap();
    assert!(matches!(m, Message::Address(0x0102_0304_0506_0708)));
    assert_eq!(&bytes[1..], &[8, 7, 6, 5, 4, 3, 2, 1]);

    let mut bytes = Vec::new();
    code(&mut bytes, &[1, 2, 3]);
    let (m, p) = get_next_message(&bytes, 0).unwrap();
    assert!(matches!(m, Message::Code(ref c) if c == &[1, 2, 3]));
    assert_eq!(p, 12);

    let mut bytes = Vec::new();
    access(&mut bytes, 0x33, 4, 0x7000, 0xffff_ffff_0000_0001);
    let (m, _) = get_next_message(&bytes, 0).unwrap();
    assert!(matches!(m, Message::Load(0x7000, 0xffff_ffff_0000_0001, 4)));

    let mut bytes = Vec::new();
    access(&mut bytes, 0x44, 9, 0x7000, 3);
    let (m, _) = get_next_message(&bytes, 0).unwrap();
    assert!(matches!(m, Message::Store(0x7000, 3, 9)));

    let mut bytes = Vec::new();
    registers(&mut bytes, 0xf0, 0x400, &[1, 2, u64::MAX]);
    let (m, p) = get_next_message(&bytes, 0).unwrap();
    match m {
        Message::Registers(r) => {
            assert_eq!(r.flags, 0xf0);
            assert_eq!(r.pc, 0x400);
            assert_eq!(r.regs, vec![1, 2, u64::MAX]);
        }
        other => panic!("no registers: {:?}", other),
    }
    assert_eq!(p, 1 + 1 + 8 + 8 + 3 * 8);

    for (tag, s) in [(0x99u8, "brk(NULL)"), (0x9a, " = 0x1000"), (0xdd, "grüße")] {
        let mut bytes = Vec::new();
        tagged_text(&mut bytes, tag, s);
        let (m, p) = get_next_message(&bytes, 0).unwrap();
        assert_eq!(p, bytes.len());
        match (tag, m) {
            (0x99, Message::Syscall(t)) => assert_eq!(t, s),
            (0x9a, Message::SyscallResult(t)) => assert_eq!(t, s),
            (0xdd, Message::Debug(t)) => assert_eq!(t, s),
            (_, other) => panic!("wrong message: {:?}", other),
        }
    }
}

#[test]
fn messages_are_read_from_any_position() {
    let mut bytes = vec![0x00, 0x01];
    address(&mut bytes, 7);
    let (m, p) = get_next_message(&bytes, 2).unwrap();
    assert!(matches!(m, Message::Address(7)));
    assert_eq!(p, 11);
    assert!(get_next_message(&bytes, 11).is_none());
    assert_eq!(try_next_message(&bytes, 11).map(|m| m.is_none()), Ok(true));
    assert!(get_next_message(&bytes, 500).is_none());
}

#[test]
fn decode_errors() {
    assert_eq!(try_next_message(&[0x12], 0).err(), Some(DecodeError::UnknownTag(0x12)));
    assert_eq!(try_next_message(&[0x00, 1, 2], 0).err(), Some(DecodeError::UnknownTag(0)));
    assert_eq!(try_next_message(&[0xaa, 1, 2, 3], 0).err(), Some(DecodeError::Truncated));
    assert_eq!(try_next_message(&[0xaa], 0).err(), Some(DecodeError::Truncated));
    assert_eq!(try_next_message(&[0x33], 0).err(), Some(DecodeError::Truncated));
    assert_eq!(try_next_message(&[0x77, 1], 0).err(), Some(DecodeError::Truncated));

    let mut bytes = Vec::new();
    registers(&mut bytes, 0, 0, &[1, 2]);
    bytes.pop();
    assert_eq!(try_next_message(&bytes, 0).err(), Some(DecodeError::Truncated));

    let mut bytes = vec![0xff];
    u64le(&mut bytes, 5);
    bytes.extend_from_slice(&[1, 2, 3, 4]);
    assert_eq!(try_next_message(&bytes, 0).err(), Some(DecodeError::Truncated));

    let mut bytes = vec![0xff];
    u64le(&mut bytes, u64::MAX);
    assert_eq!(try_next_message(&bytes, 0).err(), Some(DecodeError::Truncated));

    let mut bytes = vec![0x99];
    u64le(&mut bytes, 2);
    bytes.extend_from_slice(&[0xc3, 0x28]);
    assert_eq!(try_next_message(&bytes, 0).err(), Some(DecodeError::InvalidUtf8));

    let mut bytes = Vec::new();
    libload(&mut bytes, "a", 1, 2);
    bytes.truncate(bytes.len() - 8);
    assert_eq!(try_next_message(&bytes, 0).err(), Some(DecodeError::Truncated));

    let mut bytes = Vec::new();
    address(&mut bytes, 1);
    bytes.push(0x13);
    assert_eq!(get_next_step(&bytes, 0).err(), Some(TraceError::Decode(DecodeError::UnknownTag(0x13))));
}

#[test]
fn header_tags() {
    for byte in 0..=255u8 {
        match Header::try_from(byte) {
            Ok(h) => assert_eq!(h.tag(), byte),
            Err(()) => assert!(![0x55, 0xee, 0xaa, 0xff, 0x33, 0x44, 0x77, 0x99, 0x9a, 0xdd]
                .contains(&byte)),
        }
    }
    assert_eq!(Header::try_from(0x55), Ok(Header::Separator));
    assert_eq!(Header::try_from(0x9a), Ok(Header::SyscallResult));
    let (m, p) = Header::Address.deserialize(&[9, 0, 0, 0, 0, 0, 0, 0, 0xff], 0);
    assert!(matches!(m, Message::Address(9)));
    assert_eq!(p, 8);
    let (m, p) = Header::Address.try_deserialize(&[9, 0, 0, 0, 0, 0, 0, 0, 0xff], 0).unwrap();
    assert!(matches!(m, Message::Address(9)));
    assert_eq!(p, 8);
    assert_eq!(
        Header::Address.try_deserialize(&[9, 0, 0, 0, 0, 0, 0], 0).err(),
        Some(DecodeError::Truncated)
    );
    assert_eq!(
        Header::Debug.try_deserialize(&[1, 0, 0, 0, 0, 0, 0, 0, 0xff], 0).err(),
        Some(DecodeError::InvalidUtf8)
    );
    let (m, p) = Header::Separator.deserialize(&[], 0);
    assert!(matches!(m, Message::Separator));
    assert_eq!(p, 0);
}

#[test]
fn batches_end_at_separators_and_at_the_end_of_the_stream() {
    let mut bytes = Vec::new();
    address(&mut bytes, 1);
    address(&mut bytes, 2);
    bytes.push(0x55);
    address(&mut bytes, 3);
    let (first, p) = get_next_batch(&bytes, 0).unwrap();
    assert_eq!(first.len(), 2);
    assert_eq!(p, 19);
    let (second, q) = get_next_batch(&bytes, p).unwrap();
    assert_eq!(second.len(), 1);
    assert_eq!(q, bytes.len());
    let (third, r) = get_next_batch(&bytes, q).unwrap();
    assert!(third.is_empty());
    assert_eq!(r, q);
}

#[test]
fn module_map_batch() {
    let mut bytes = Vec::new();
    libload(&mut bytes, "/bin/a", 0x1000, 0x2000);
    tagged_text(&mut bytes, 0xdd, "between");
    libload(&mut bytes, "/lib/b.so", 0x7000, 0x9000);
    bytes.push(0x55);
    let (batch, p) = get_next_step(&bytes, 0).unwrap();
    assert_eq!(p, bytes.len());
    match batch {
        Batch::LibLoad(loads) => assert_eq!(
            loads,
            vec![
                ("/bin/a".to_string(), (0x1000, 0x2000)),
                ("/lib/b.so".to_string(), (0x7000, 0x9000))
            ]
        ),
        other => panic!("no module map: {:?}", other),
    }
}

#[test]
fn empty_batch_between_separators_is_the_end() {
    let (batch, p) = get_next_step(&[0x55, 0x55], 0).unwrap();
    assert!(matches!(batch, Batch::End));
    assert_eq!(p, 1);
}

#[test]
fn step_with_memory_accesses_and_syscall() {
    let mut bytes = Vec::new();
    address(&mut bytes, 0x400);
    code(&mut bytes, &[0x0f, 0x05]);
    registers(&mut bytes, 0x246, 0x400, &[0; 16]);
    access(&mut bytes, 0x33, 8, 0x7ffe_0000, 0x1122_3344_5566_7788);
    access(&mut bytes, 0x44, 2, 0x7ffe_0008, 0xabcd_ef01);
    tagged_text(&mut bytes, 0x99, "close(3)");
    tagged_text(&mut bytes, 0x9a, " = 0");
    registers(&mut bytes, 0, 0x999, &[1; 16]);
    let (batch, _) = get_next_step(&bytes, 0).unwrap();
    match batch {
        Batch::TraceStep(step) => {
            assert_eq!(step.state.pc, 0x400);
            assert_eq!(step.state.flags, 0x246);
            assert_eq!(step.strace.as_deref(), Some("close(3) = 0"));
            assert_eq!(
                step.memory_ops,
                vec![
                    MemoryOp {
                        address: 0x7ffe_0000,
                        kind: MemoryOpKind::Read,
                        value: MemoryValue::Qword(0x1122_3344_5566_7788)
                    },
                    MemoryOp {
                        address: 0x7ffe_0008,
                        kind: MemoryOpKind::Write,
                        value: MemoryValue::Word(0xef01)
                    },
                ]
            );
        }
        other => panic!("no step: {:?}", other),
    }
}

#[test]
fn batch_that_is_no_step_is_an_error() {
    let mut bytes = Vec::new();
    address(&mut bytes, 0x400);
    bytes.push(0x55);
    assert_eq!(get_next_step(&bytes, 0).err(), Some(TraceError::Step(StepError::MissingCode)));
    let mut bytes = Vec::new();
    access(&mut bytes, 0x44, 3, 1, 1);
    assert_eq!(
        get_next_step(&bytes, 0).err(),
        Some(TraceError::Step(StepError::UnknownValueSize(3)))
    );
}

#[test]
fn module_map_holds_every_entry_in_stream_order() {
    let mut bytes = Vec::new();
    libload(&mut bytes, "/bin/a", 0x1000, 0x2000);
    libload(&mut bytes, "/lib/b.so", 0x7000, 0x9000);
    libload(&mut bytes, "/bin/a", 0x5000, 0x6000);
    libload(&mut bytes, "/lib/c.so", 0xa000, 0xb000);
    libload(&mut bytes, "/lib/c.so", 0xa000, 0xb000);
    bytes.push(0x55);
    let (batch, _) = get_next_step(&bytes, 0).unwrap();
    match batch {
        Batch::LibLoad(loads) => assert_eq!(
            loads,
            vec![
                ("/bin/a".to_string(), (0x1000, 0x2000)),
                ("/lib/b.so".to_string(), (0x7000, 0x9000)),
                ("/bin/a".to_string(), (0x5000, 0x6000)),
                ("/lib/c.so".to_string(), (0xa000, 0xb000)),
                ("/lib/c.so".to_string(), (0xa000, 0xb000)),
            ]
        ),
        other => panic!("no module map: {:?}", other),
    }
}

#[test]
fn batch_is_ready_once_its_separator_has_come() {
    let mut bytes = Vec::new();
    address(&mut bytes, 0x1000);
    tagged_text(&mut bytes, 0xdd, "U");
    registers(&mut bytes, 0, 0x1000, &[0x55]);
    for cut in 0..=bytes.len() {
        assert_eq!(batch_ready(&bytes[..cut], 0), Ok(false), "cut at {}", cut);
    }
    bytes.push(0x55);
    assert_eq!(batch_ready(&bytes, 0), Ok(true));
    assert_eq!(batch_ready(&bytes, bytes.len() - 1), Ok(true));
    assert_eq!(batch_ready(&bytes, bytes.len()), Ok(false));
    address(&mut bytes, 1);
    assert_eq!(batch_ready(&bytes, 0), Ok(true));
    assert_eq!(batch_ready(&[0xaa, 1, 2, 0x13], 0), Ok(false));
    assert_eq!(batch_ready(&[0x13, 0x55], 0), Err(DecodeError::UnknownTag(0x13)));
    let mut bad = vec![0xdd];
    u64le(&mut bad, 1);
    bad.push(0xff);
    assert_eq!(batch_ready(&bad, 0), Err(DecodeError::InvalidUtf8));
}
