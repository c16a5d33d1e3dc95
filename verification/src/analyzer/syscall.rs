//! System calls of the traced program, as far as they tell which files are
//! mapped where.
//!
//! The tracer reports a system call as one line of text, such as
//! `openat(AT_FDCWD,"/lib/libc.so.6",O_RDONLY) = 3`. From the `openat`,
//! `close`, `mmap` and `munmap` calls the analysis learns which file lies
//! behind a file descriptor and where it is mapped.

use crate::text::{
    parse_i32, parse_u64, spelled_i32, spelled_u64, split, split_at_char, str_eq, strip_prefix,
    strip_suffix, texts_of, without_prefix, without_suffix,
};
use std::collections::HashMap;
use vstd::prelude::*;
use vstd::string::StringExecFns;

verus! {

broadcast use vstd::std_specs::hash::group_hash_axioms;

/// The pattern of a reported system call: name, arguments in brackets, and
/// the result behind an equals sign.
pub const SYSCALL_PATTERN: &'static str = r"(\w+)\(([^)]*)\) = (\w+)";

/// regex's error for a pattern that is no regular expression.
#[verifier::external_type_specification]
#[verifier::external_body]
pub struct ExRegexError(regex::Error);

/// What a regular expression makes of a text.
pub enum Captures {
    /// The pattern is no regular expression.
    BadPattern,
    /// The pattern matches nowhere in the text.
    NoMatch,
    /// The text of each group of the leftmost match, the whole match first;
    /// nothing for a group that took no part in the match.
    Groups(Seq<Option<Seq<char>>>),
}

/// What `regex::Regex::new(pattern)` and, on its result, `captures(text)` give.
pub uninterp spec fn regex_captures(pattern: Seq<char>, text: Seq<char>) -> Captures;

/// The texts of the groups of a match.
pub open spec fn group_texts(groups: Seq<Option<String>>) -> Seq<Option<Seq<char>>> {
    Seq::new(
        groups.len(),
        |i: int|
            match groups[i] {
                Some(t) => Some(t@),
                None => None,
            },
    )
}

/// Calls `regex::Regex::new` with the pattern and `Regex::captures` with
/// the text, and copies out the text of every group. The contract only
/// says that the outcome is decided by pattern and text.
#[verifier::external_body]
pub(crate) fn captures(pattern: &str, text: &str) -> (r: Result<
    Option<Vec<Option<String>>>,
    regex::Error,
>)
    ensures
        match r {
            Err(_) => regex_captures(pattern@, text@) is BadPattern,
            Ok(None) => regex_captures(pattern@, text@) is NoMatch,
            Ok(Some(groups)) => regex_captures(pattern@, text@) == Captures::Groups(
                group_texts(groups@),
            ),
        },
{
    let re = regex::Regex::new(pattern)?;
    Ok(re.captures(text).map(|c| c.iter().map(|m| m.map(|m| m.as_str().to_string())).collect()))
}

/// Why a reported system call tells nothing.
#[derive(Debug, Clone, Copy, PartialEq, Eq, Structural)]
pub enum SyscallError {
    /// The text is no system call with arguments and result, or has too few arguments.
    BadFormat,
    /// An address is not written with `0x` before it.
    MissingHexPrefix,
    /// A file name is not written in quotes.
    UnqotedStringLiteral,
    /// A file descriptor is mapped that was not seen being opened.
    UnknownFd,
    /// A number is no number, or too large.
    Parse,
}

/// What a system call changes in the map of the process.
#[derive(Debug, Clone, PartialEq, Eq)]
pub enum StateUpdate {
    /// A file was mapped.
    Mmap { path: String, addr: u64, offset: u64, size: u64 },
    /// A mapping was removed.
    Munmap { addr: u64, size: u64 },
}

/// An update as plain values.
pub enum UpdateView {
    Mmap { path: Seq<char>, addr: u64, offset: u64, size: u64 },
    Munmap { addr: u64, size: u64 },
}

impl View for StateUpdate {
    type V = UpdateView;

    open spec fn view(&self) -> UpdateView {
        match self {
            StateUpdate::Mmap { path, addr, offset, size } => UpdateView::Mmap {
                path: path@,
                addr: *addr,
                offset: *offset,
                size: *size,
            },
            StateUpdate::Munmap { addr, size } => UpdateView::Munmap { addr: *addr, size: *size },
        }
    }
}

/// A system call taken apart: name, arguments, result.
pub struct Call {
    pub name: Seq<char>,
    pub args: Seq<Seq<char>>,
    pub ret: Seq<char>,
}

/// The system call that the groups of a match are: the name from the first
/// group, the arguments from the second, split at the commas, and the
/// result from the third.
pub open spec fn call_of(groups: Seq<Option<Seq<char>>>) -> Option<Call> {
    if groups.len() == 4 && groups[1] is Some && groups[2] is Some && groups[3] is Some {
        Some(Call { name: groups[1]->0, args: split(groups[2]->0, ','), ret: groups[3]->0 })
    } else {
        None
    }
}

/// The system call that a line of text reports, if it reports one.
pub open spec fn decomposed(text: Seq<char>) -> Option<Call> {
    match regex_captures(SYSCALL_PATTERN@, text) {
        Captures::Groups(groups) => call_of(groups),
        _ => None,
    }
}

/// An address: hexadecimal digits behind `0x`.
pub open spec fn address_of(text: Seq<char>) -> Result<u64, SyscallError> {
    match without_prefix(text, "0x"@) {
        None => Err(SyscallError::MissingHexPrefix),
        Some(digits) => match spelled_u64(digits, 16) {
            Some(v) => Ok(v),
            None => Err(SyscallError::Parse),
        },
    }
}

/// A file name: the text between two quotes.
pub open spec fn quoted(text: Seq<char>) -> Result<Seq<char>, SyscallError> {
    match without_prefix(text, "\""@) {
        None => Err(SyscallError::UnqotedStringLiteral),
        Some(rest) => match without_suffix(rest, "\""@) {
            None => Err(SyscallError::UnqotedStringLiteral),
            Some(name) => Ok(name),
        },
    }
}

/// A decimal number of 32 bits.
pub open spec fn number_i32(text: Seq<char>) -> Result<i32, SyscallError> {
    match spelled_i32(text) {
        Some(v) => Ok(v),
        None => Err(SyscallError::Parse),
    }
}

/// A decimal number of 64 bits.
pub open spec fn number_u64(text: Seq<char>) -> Result<u64, SyscallError> {
    match spelled_u64(text, 10) {
        Some(v) => Ok(v),
        None => Err(SyscallError::Parse),
    }
}

/// What is known after a system call, and what the call changes.
pub struct Outcome {
    /// The file behind each open file descriptor.
    pub fds: Map<i32, Seq<char>>,
    pub update: Result<Option<UpdateView>, SyscallError>,
}

/// An `openat`: the file named by the second argument lies behind the
/// descriptor that is the result.
pub open spec fn opened(fds: Map<i32, Seq<char>>, call: Call) -> Outcome {
    match number_i32(call.ret) {
        Err(e) => Outcome { fds, update: Err(e) },
        Ok(fd) => if call.args.len() < 2 {
            Outcome { fds, update: Err(SyscallError::BadFormat) }
        } else {
            match quoted(call.args[1]) {
                Err(e) => Outcome { fds, update: Err(e) },
                Ok(file) => Outcome { fds: fds.insert(fd, file), update: Ok(None) },
            }
        },
    }
}

/// A `close`: if it succeeded, the descriptor is forgotten.
pub open spec fn closed(fds: Map<i32, Seq<char>>, call: Call) -> Outcome {
    if call.args.len() < 1 {
        Outcome { fds, update: Err(SyscallError::BadFormat) }
    } else {
        match number_i32(call.args[0]) {
            Err(e) => Outcome { fds, update: Err(e) },
            Ok(fd) => match number_i32(call.ret) {
                Err(e) => Outcome { fds, update: Err(e) },
                Ok(err) => if err == 0 {
                    Outcome { fds: fds.remove(fd), update: Ok(None) }
                } else {
                    Outcome { fds, update: Ok(None) }
                },
            },
        }
    }
}

/// An `mmap`: of a file, if the fifth argument is an open descriptor; the
/// result is the address, the second argument the size, the sixth the
/// offset in the file. A mapping without a file changes nothing.
pub open spec fn mapped(fds: Map<i32, Seq<char>>, call: Call) -> Result<
    Option<UpdateView>,
    SyscallError,
> {
    if call.args.len() < 6 {
        Err(SyscallError::BadFormat)
    } else {
        match number_u64(call.args[1]) {
            Err(e) => Err(e),
            Ok(size) => match number_i32(call.args[4]) {
                Err(e) => Err(e),
                Ok(fd) => match address_of(call.ret) {
                    Err(e) => Err(e),
                    Ok(addr) => match (if call.args[5] == "0"@ {
                        Ok(0u64)
                    } else {
                        address_of(call.args[5])
                    }) {
                        Err(e) => Err(e),
                        Ok(offset) => if fd == -1 {
                            Ok(None)
                        } else if fds.contains_key(fd) {
                            Ok(Some(UpdateView::Mmap { path: fds[fd], addr, offset, size }))
                        } else {
                            Err(SyscallError::UnknownFd)
                        },
                    },
                },
            },
        }
    }
}

/// A `munmap`: the first argument is the address, or `NULL`; the second the size.
pub open spec fn unmapped(call: Call) -> Result<Option<UpdateView>, SyscallError> {
    if call.args.len() < 2 {
        Err(SyscallError::BadFormat)
    } else {
        match (if call.args[0] == "NULL"@ {
            Ok(0u64)
        } else {
            address_of(call.args[0])
        }) {
            Err(e) => Err(e),
            Ok(addr) => match number_u64(call.args[1]) {
                Err(e) => Err(e),
                Ok(size) => Ok(Some(UpdateView::Munmap { addr, size })),
            },
        }
    }
}

/// What a system call does, given the files behind the open descriptors.
/// Calls other than `openat`, `close`, `mmap` and `munmap` do nothing.
pub open spec fn registered(fds: Map<i32, Seq<char>>, call: Option<Call>) -> Outcome {
    match call {
        None => Outcome { fds, update: Err(SyscallError::BadFormat) },
        Some(call) => if call.name == "openat"@ {
            opened(fds, call)
        } else if call.name == "close"@ {
            closed(fds, call)
        } else if call.name == "mmap"@ {
            Outcome { fds, update: mapped(fds, call) }
        } else if call.name == "munmap"@ {
            Outcome { fds, update: unmapped(call) }
        } else {
            Outcome { fds, update: Ok(None) }
        },
    }
}

/// The parts of a system call: name, arguments, result.
pub struct SyscallParts {
    pub name: String,
    pub args: Vec<String>,
    pub ret: String,
}

impl View for SyscallParts {
    type V = Call;

    open spec fn view(&self) -> Call {
        Call { name: self.name@, args: texts_of(self.args@), ret: self.ret@ }
    }
}

/// The system call that the groups of a match are.
pub fn syscall_parts(groups: &Vec<Option<String>>) -> (r: Option<SyscallParts>)
    ensures
        match call_of(group_texts(groups@)) {
            Some(call) => r matches Some(parts) && parts@ == call,
            None => r is None,
        },
{
    if groups.len() != 4 {
        return None;
    }
    match (&groups[1], &groups[2], &groups[3]) {
        (Some(name), Some(args), Some(ret)) => {
            assert(group_texts(groups@)[1] == Some(name@));
            assert(group_texts(groups@)[2] == Some(args@));
            assert(group_texts(groups@)[3] == Some(ret@));
            Some(
                SyscallParts {
                    name: name.clone(),
                    args: split_at_char(args.as_str(), ','),
                    ret: ret.clone(),
                },
            )
        },
        _ => {
            assert(group_texts(groups@)[1] is None || group_texts(groups@)[2] is None
                || group_texts(groups@)[3] is None);
            None
        },
    }
}

/// Takes a reported system call apart into name, arguments and result.
pub fn decompose_syscall(strace: &str) -> (r: Option<SyscallParts>)
    ensures
        match decomposed(strace@) {
            Some(call) => r matches Some(parts) && parts@ == call,
            None => r is None,
        },
{
    match captures(SYSCALL_PATTERN, strace) {
        Ok(Some(groups)) => syscall_parts(&groups),
        _ => None,
    }
}

fn read_address(text: &str) -> (r: Result<u64, SyscallError>)
    ensures
        r == address_of(text@),
{
    match strip_prefix(text, "0x") {
        None => Err(SyscallError::MissingHexPrefix),
        Some(digits) => match parse_u64(digits, 16) {
            Some(v) => Ok(v),
            None => Err(SyscallError::Parse),
        },
    }
}

fn read_i32(text: &str) -> (r: Result<i32, SyscallError>)
    ensures
        r == number_i32(text@),
{
    match parse_i32(text) {
        Some(v) => Ok(v),
        None => Err(SyscallError::Parse),
    }
}

fn read_u64(text: &str) -> (r: Result<u64, SyscallError>)
    ensures
        r == number_u64(text@),
{
    match parse_u64(text, 10) {
        Some(v) => Ok(v),
        None => Err(SyscallError::Parse),
    }
}

/// The files behind the open file descriptors of the traced process.
pub struct SyscallState {
    fds: HashMap<i32, String>,
}

impl View for SyscallState {
    type V = Map<i32, Seq<char>>;

    closed spec fn view(&self) -> Map<i32, Seq<char>> {
        Map::new(|fd: i32| self.fds@.contains_key(fd), |fd: i32| self.fds@[fd]@)
    }
}

impl SyscallState {
    /// No file descriptor is open.
    pub fn new() -> (s: Self)
        ensures
            s@ == Map::<i32, Seq<char>>::empty(),
    {
        let s = SyscallState { fds: HashMap::new() };
        assert(s@ =~= Map::<i32, Seq<char>>::empty());
        s
    }

    /// Takes a system call into account that was taken apart already.
    pub fn register_parts(&mut self, parts: &SyscallParts) -> (r: Result<
        Option<StateUpdate>,
        SyscallError,
    >)
        ensures
            final(self)@ == registered(old(self)@, Some(parts@)).fds,
            match registered(old(self)@, Some(parts@)).update {
                Ok(Some(update)) => r matches Ok(Some(u)) && u@ == update,
                Ok(None) => r matches Ok(None),
                Err(e) => r == Err::<Option<StateUpdate>, SyscallError>(e),
            },
    {
        let name = parts.name.as_str();
        let args = &parts.args;
        let ret = parts.ret.as_str();
        assert(forall|i: int| 0 <= i < args@.len() ==> parts@.args[i] == args@[i]@);
        if str_eq(name, "openat") {
            let fd = match read_i32(ret) {
                Ok(fd) => fd,
                Err(e) => {
                    return Err(e);
                },
            };
            if args.len() < 2 {
                return Err(SyscallError::BadFormat);
            }
            let rest = match strip_prefix(args[1].as_str(), "\"") {
                Some(rest) => rest,
                None => {
                    return Err(SyscallError::UnqotedStringLiteral);
                },
            };
            let file = match strip_suffix(rest, "\"") {
                Some(file) => file,
                None => {
                    return Err(SyscallError::UnqotedStringLiteral);
                },
            };
            let ghost before = self@;
            self.fds.insert(fd, String::from_str(file));
            assert(self@ =~= before.insert(fd, file@));
            Ok(None)
        } else if str_eq(name, "close") {
            if args.len() < 1 {
                return Err(SyscallError::BadFormat);
            }
            let fd = match read_i32(args[0].as_str()) {
                Ok(fd) => fd,
                Err(e) => {
                    return Err(e);
                },
            };
            let err = match read_i32(ret) {
                Ok(err) => err,
                Err(e) => {
                    return Err(e);
                },
            };
            if err == 0 {
                let ghost before = self@;
                self.fds.remove(&fd);
                assert(self@ =~= before.remove(fd));
            }
            Ok(None)
        } else if str_eq(name, "mmap") {
            if args.len() < 6 {
                return Err(SyscallError::BadFormat);
            }
            let len = match read_u64(args[1].as_str()) {
                Ok(v) => v,
                Err(e) => {
                    return Err(e);
                },
            };
            let fd = match read_i32(args[4].as_str()) {
                Ok(v) => v,
                Err(e) => {
                    return Err(e);
                },
            };
            let addr = match read_address(ret) {
                Ok(v) => v,
                Err(e) => {
                    return Err(e);
                },
            };
            let offset = if str_eq(args[5].as_str(), "0") {
                0
            } else {
                match read_address(args[5].as_str()) {
                    Ok(v) => v,
                    Err(e) => {
                        return Err(e);
                    },
                }
            };
            if fd != -1 {
                match self.fds.get(&fd) {
                    Some(path) => Ok(
                        Some(StateUpdate::Mmap { path: path.clone(), addr, offset, size: len }),
                    ),
                    None => Err(SyscallError::UnknownFd),
                }
            } else {
                Ok(None)
            }
        } else if str_eq(name, "munmap") {
            if args.len() < 2 {
                return Err(SyscallError::BadFormat);
            }
            let addr = if str_eq(args[0].as_str(), "NULL") {
                0
            } else {
                match read_address(args[0].as_str()) {
                    Ok(v) => v,
                    Err(e) => {
                        return Err(e);
                    },
                }
            };
            let len = match read_u64(args[1].as_str()) {
                Ok(v) => v,
                Err(e) => {
                    return Err(e);
                },
            };
            Ok(Some(StateUpdate::Munmap { addr, size: len }))
        } else {
            Ok(None)
        }
    }

    /// Takes a reported system call into account: notes which file a
    /// descriptor stands for, and tells what the call maps or unmaps.
    pub fn register(&mut self, raw: &str) -> (r: Result<Option<StateUpdate>, SyscallError>)
        ensures
            final(self)@ == registered(old(self)@, decomposed(raw@)).fds,
            match registered(old(self)@, decomposed(raw@)).update {
                Ok(Some(update)) => r matches Ok(Some(u)) && u@ == update,
                Ok(None) => r matches Ok(None),
                Err(e) => r == Err::<Option<StateUpdate>, SyscallError>(e),
            },
    {
        match decompose_syscall(raw) {
            Some(parts) => self.register_parts(&parts),
            None => Err(SyscallError::BadFormat),
        }
    }
}

} // verus!
