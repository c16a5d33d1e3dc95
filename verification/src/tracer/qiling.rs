//! The Qiling emulation framework as tracer.

use super::TracerCmd;
use crate::text::texts_of;
use crate::arch::Arch;
use vstd::prelude::*;
use vstd::string::StringExecFns;

verus! {

/// The Qiling emulation framework, run by a script that sends a trace.
#[derive(Debug, Clone, Copy)]
pub struct Qiling {}

/// The arguments with which the script traces `executable`, a program for `arch`.
pub open spec fn qiling_args(executable: Seq<char>, arch: Arch) -> Seq<Seq<char>> {
    seq!["../tools/ql/run.py"@, "../tools/ql/"@ + arch.qiling_rootfs_name(), executable]
}

impl Qiling {
    /// The command that traces `executable`, a program for `arch`.
    pub fn command(&self, executable: &str, arch: Arch, _localhost: &str) -> (cmd: TracerCmd)
        ensures
            cmd.program@ == "python3"@,
            texts_of(cmd.args@) == qiling_args(executable@, arch),
    {
        let mut args: Vec<String> = Vec::new();
        args.push(String::from_str("../tools/ql/run.py"));
        args.push(String::from_str("../tools/ql/").concat(arch.qiling_rootfs()));
        args.push(String::from_str(executable));
        assert(texts_of(args@) =~= qiling_args(executable@, arch));
        TracerCmd { program: String::from_str("python3"), args }
    }
}

} // verus!
