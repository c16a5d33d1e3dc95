//! The QEMU user-mode emulator as tracer.

use super::{TracerCmd, TRACE_PORT};
use crate::text::texts_of;
use crate::arch::Arch;
use vstd::prelude::*;
use vstd::string::StringExecFns;

verus! {

/// The QEMU user-mode emulator, patched to send a trace.
#[derive(Debug, Clone, Copy)]
pub struct QEMU {}

/// The arguments with which the emulator traces `executable` and sends the
/// trace to `localhost`.
pub open spec fn qemu_args(executable: Seq<char>, localhost: Seq<char>) -> Seq<Seq<char>> {
    seq![
        "-rebglog"@,
        "/dev/null"@,
        "-rebgtcp"@,
        localhost + ":"@ + TRACE_PORT@,
        "-one-insn-per-tb"@,
        "-d"@,
        "in_asm,strace"@,
        executable,
    ]
}

impl QEMU {
    /// The command that traces `executable`, a program for `arch`, and
    /// sends the trace to `localhost`.
    pub fn command(&self, executable: &str, arch: Arch, localhost: &str) -> (cmd: TracerCmd)
        ensures
            cmd.program@ == arch.qemu_user_bin_name(),
            texts_of(cmd.args@) == qemu_args(executable@, localhost@),
    {
        let mut args: Vec<String> = Vec::new();
        args.push(String::from_str("-rebglog"));
        args.push(String::from_str("/dev/null"));
        args.push(String::from_str("-rebgtcp"));
        args.push(String::from_str(localhost).concat(":").concat(TRACE_PORT));
        args.push(String::from_str("-one-insn-per-tb"));
        args.push(String::from_str("-d"));
        args.push(String::from_str("in_asm,strace"));
        args.push(String::from_str(executable));
        assert(texts_of(args@) =~= qemu_args(executable@, localhost@));
        TracerCmd { program: String::from_str(arch.qemu_user_bin()), args }
    }
}

} // verus!
