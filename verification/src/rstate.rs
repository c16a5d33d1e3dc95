//! What changed between two register snapshots.

use crate::state::State;
use crate::text::{hexadecimal, push_hex, texts_of};
use vstd::prelude::*;
use vstd::std_specs::cmp::PartialEqSpec;
use vstd::string::StringExecFns;

verus! {

/// A value before and after a step.
#[derive(Clone, Copy, PartialEq, Eq, Debug)]
pub enum RDiff<B> {
    Changed { from: B, to: B },
    Unchanged { value: B },
}

impl<X: PartialEq> RDiff<X> {
    /// Compares a value before a step with the one after it.
    pub fn make(before: X, after: X) -> (r: Self)
        ensures
            X::obeys_eq_spec() ==> r == (if before.eq_spec(&after) {
                RDiff::Unchanged { value: before }
            } else {
                RDiff::Changed { from: before, to: after }
            }),
    {
        if before != after {
            Self::Changed { from: before, to: after }
        } else {
            Self::Unchanged { value: before }
        }
    }
}

/// The difference of two values.
pub open spec fn changed<T>(before: T, after: T) -> RDiff<T> {
    if before == after {
        RDiff::Unchanged { value: before }
    } else {
        RDiff::Changed { from: before, to: after }
    }
}

/// The differences of two register files, register by register.
pub open spec fn regs_changed(before: Seq<u64>, after: Seq<u64>) -> Seq<RDiff<u64>> {
    Seq::new(before.len(), |i: int| changed(before[i], after[i]))
}

/// Whether every bit of `flag` is set in `bits`.
pub open spec fn has_flag(bits: u32, flag: u32) -> bool {
    bits & flag == flag
}

/// The differences of two flag registers, for each of the named flags.
pub open spec fn flags_changed(names: Seq<(&'static str, u32)>, before: u32, after: u32) -> Seq<
    (&'static str, RDiff<bool>),
> {
    Seq::new(
        names.len(),
        |i: int| (names[i].0, changed(has_flag(before, names[i].1), has_flag(after, names[i].1))),
    )
}

/// The differences between two snapshots: every register, the program
/// counter, and every named flag.
pub struct StateDiff {
    pub regs: Vec<RDiff<u64>>,
    pub pc: RDiff<u64>,
    pub flags: Vec<(&'static str, RDiff<bool>)>,
}

/// The differences between a snapshot and the one after it.
pub fn diff<S: State>(current: &S, future: &S) -> (d: StateDiff)
    ensures
        d.regs@ == regs_changed(current.regs_of(), future.regs_of()),
        d.pc == changed(current.pc_of(), future.pc_of()),
        d.flags@ == flags_changed(S::named_flags(), current.flag_bits(), future.flag_bits()),
{
    let before = current.regs();
    let after = future.regs();
    let mut regs: Vec<RDiff<u64>> = Vec::new();
    let mut i: usize = 0;
    while i < before.len()
        invariant
            i <= before@.len(),
            before@.len() == after@.len(),
            regs@ =~= regs_changed(before@, after@).subrange(0, i as int),
        decreases before.len() - i,
    {
        regs.push(RDiff::make(before[i], after[i]));
        i += 1;
    }
    assert(regs@ =~= regs_changed(before@, after@));
    let pc = RDiff::make(current.pc(), future.pc());
    let names = S::flag_names();
    let cur = current.flags();
    let fut = future.flags();
    let mut flags: Vec<(&'static str, RDiff<bool>)> = Vec::new();
    let mut k: usize = 0;
    while k < names.len()
        invariant
            k <= names@.len(),
            flags@ =~= flags_changed(names@, cur, fut).subrange(0, k as int),
        decreases names.len() - k,
    {
        let (name, flag) = names[k];
        let c = cur & flag == flag;
        let f = fut & flag == flag;
        flags.push((name, RDiff::make(c, f)));
        k += 1;
    }
    assert(flags@ =~= flags_changed(names@, cur, fut));
    StateDiff { regs, pc, flags }
}


/// The line that tells of a register: nothing if it did not change, else
/// its name, its new value and its old one, in hexadecimal.
pub open spec fn reg_line(name: Seq<char>, d: RDiff<u64>) -> Option<Seq<char>> {
    match d {
        RDiff::Changed { from, to } => Some(
            name + " <- "@ + hexadecimal(to as nat) + " (prev "@ + hexadecimal(from as nat) + ")"@,
        ),
        RDiff::Unchanged { .. } => None,
    }
}

/// The line that tells of the program counter: nothing if it did not
/// change, else its new value in hexadecimal.
pub open spec fn pc_line(d: RDiff<u64>) -> Option<Seq<char>> {
    match d {
        RDiff::Changed { from, to } => Some("pc <- "@ + hexadecimal(to as nat)),
        RDiff::Unchanged { .. } => None,
    }
}

/// The line that tells of a flag: nothing if it did not change, else its
/// name behind a minus sign if it was set before, behind a plus sign if not.
pub open spec fn flag_line(name: Seq<char>, d: RDiff<bool>) -> Option<Seq<char>> {
    match d {
        RDiff::Changed { from, to } => Some(
            if from {
                "flags -"@ + name
            } else {
                "flags +"@ + name
            },
        ),
        RDiff::Unchanged { .. } => None,
    }
}

/// The lines that tell of the first `upto` registers.
pub open spec fn reg_lines<S: State>(regs: Seq<RDiff<u64>>, upto: int) -> Seq<Seq<char>>
    decreases upto,
{
    if upto <= 0 {
        Seq::empty()
    } else {
        let front = reg_lines::<S>(regs, upto - 1);
        match reg_line(S::reg_name(upto - 1), regs[upto - 1]) {
            Some(line) => front.push(line),
            None => front,
        }
    }
}

/// The lines that tell of the first `upto` flags.
pub open spec fn flag_lines(flags: Seq<(&'static str, RDiff<bool>)>, upto: int) -> Seq<Seq<char>>
    decreases upto,
{
    if upto <= 0 {
        Seq::empty()
    } else {
        let front = flag_lines(flags, upto - 1);
        match flag_line(flags[upto - 1].0@, flags[upto - 1].1) {
            Some(line) => front.push(line),
            None => front,
        }
    }
}

/// The lines of one kind, if there is one.
pub open spec fn one(line: Option<Seq<char>>) -> Seq<Seq<char>> {
    match line {
        Some(l) => seq![l],
        None => Seq::empty(),
    }
}

/// What is printed of a difference: the changed registers, the program
/// counter if it changed, and the changed flags.
pub open spec fn printed<S: State>(d: StateDiff) -> Seq<Seq<char>> {
    reg_lines::<S>(d.regs@, d.regs@.len() as int) + one(pc_line(d.pc)) + flag_lines(
        d.flags@,
        d.flags@.len() as int,
    )
}

impl StateDiff {
    /// The lines that tell of the difference, and whether a register or a
    /// flag changed at all. The difference must be one of snapshots of `S`.
    pub fn lines<S: State>(&self) -> (r: (Vec<String>, bool))
        requires
            self.regs@.len() == S::count(),
        ensures
            texts_of(r.0@) == printed::<S>(*self),
            r.1 == (reg_lines::<S>(self.regs@, self.regs@.len() as int).len() > 0 || flag_lines(
                self.flags@,
                self.flags@.len() as int,
            ).len() > 0),
    {
        let mut lines: Vec<String> = Vec::new();
        let mut i: usize = 0;
        while i < self.regs.len()
            invariant
                i <= self.regs@.len() == S::count(),
                texts_of(lines@) =~= reg_lines::<S>(self.regs@, i as int),
            decreases self.regs.len() - i,
        {
            let ghost before = texts_of(lines@);
            match &self.regs[i] {
                RDiff::Changed { from, to } => {
                    let mut line = String::from_str(S::reg_name_idx(i));
                    line.append(" <- ");
                    push_hex(&mut line, *to);
                    line.append(" (prev ");
                    push_hex(&mut line, *from);
                    line.append(")");
                    lines.push(line);
                    assert(texts_of(lines@) =~= before.push(
                        reg_line(S::reg_name(i as int), self.regs@[i as int])->0,
                    ));
                },
                RDiff::Unchanged { .. } => {},
            }
            i += 1;
        }
        let changed_regs = lines.len() > 0;
        let ghost regs_done = texts_of(lines@);
        match &self.pc {
            RDiff::Changed { from: _, to } => {
                let mut line = String::from_str("pc <- ");
                push_hex(&mut line, *to);
                lines.push(line);
                assert(texts_of(lines@) =~= regs_done + one(pc_line(self.pc)));
            },
            RDiff::Unchanged { .. } => {
                assert(texts_of(lines@) =~= regs_done + one(pc_line(self.pc)));
            },
        }
        let ghost head = texts_of(lines@);
        let mut changed_flags = false;
        let mut k: usize = 0;
        while k < self.flags.len()
            invariant
                k <= self.flags@.len(),
                texts_of(lines@) =~= head + flag_lines(self.flags@, k as int),
                changed_flags == (flag_lines(self.flags@, k as int).len() > 0),
            decreases self.flags.len() - k,
        {
            let ghost before = texts_of(lines@);
            let (name, d) = &self.flags[k];
            match d {
                RDiff::Changed { from, to: _ } => {
                    let line = if *from {
                        String::from_str("flags -").concat(name)
                    } else {
                        String::from_str("flags +").concat(name)
                    };
                    lines.push(line);
                    changed_flags = true;
                    assert(texts_of(lines@) =~= before.push(
                        flag_line(self.flags@[k as int].0@, self.flags@[k as int].1)->0,
                    ));
                },
                RDiff::Unchanged { .. } => {},
            }
            k += 1;
        }
        (lines, changed_regs || changed_flags)
    }
}

} // verus!
