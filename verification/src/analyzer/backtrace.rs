//! Call depth from a flat trace.
//!
//! The trace may leave out instructions: a call may come back without one
//! traced instruction of the callee, and a return may be missing. So the
//! stack of pending return addresses is never popped blindly. A call pushes
//! its return address unless the next step is already there; whenever a
//! step stands at an address that is pending, the stack is cut down to
//! below that entry.

use crate::search::{first_true, lemma_first_true, lemma_first_true_at};
use crate::state::Branching;
use vstd::prelude::*;

verus! {

/// For each pending return address, whether it is `pc`.
pub open spec fn pending_at(stack: Seq<u64>, pc: u64) -> Seq<bool> {
    Seq::new(stack.len(), |i: int| stack[i] == pc)
}

/// The lowest place in the stack at which `pc` is pending.
pub open spec fn position(stack: Seq<u64>, pc: u64) -> Option<int> {
    first_true(pending_at(stack, pc))
}

/// The stack after the trace arrived at `pc`: cut down to below the lowest
/// entry that is `pc`, or unchanged if `pc` is not pending.
pub open spec fn unwound(stack: Seq<u64>, pc: u64) -> Seq<u64> {
    match position(stack, pc) {
        Some(i) => stack.subrange(0, i),
        None => stack,
    }
}

/// The stack at a step at `pc`, given the stack at the step before and how
/// the instruction of that step branched.
///
/// After a call, the return address is pushed, unless the trace is already
/// there: then nothing of the callee was traced. After a return, and after
/// any other instruction, the stack is unwound to `pc`.
pub open spec fn after_step(stack: Seq<u64>, previous: Option<Branching>, pc: u64) -> Seq<u64> {
    match previous {
        Some(Branching::Call(_, return_address)) => if pc == return_address {
            stack
        } else {
            stack.push(return_address)
        },
        Some(Branching::Return) => unwound(stack, pc),
        None => unwound(stack, pc),
    }
}

/// The stack at the last of the steps at `pcs`, where `branches` tells how
/// each step's instruction branched. Before the first step the stack is
/// empty and no instruction has branched.
pub open spec fn stack_at(branches: Seq<Option<Branching>>, pcs: Seq<u64>) -> Seq<u64>
    recommends
        branches.len() == pcs.len(),
    decreases pcs.len(),
{
    if pcs.len() == 0 {
        Seq::empty()
    } else if pcs.len() == 1 {
        after_step(Seq::empty(), None, pcs[0])
    } else {
        after_step(
            stack_at(branches.drop_last(), pcs.drop_last()),
            branches[pcs.len() - 2],
            pcs.last(),
        )
    }
}

/// The call depth at each step.
pub open spec fn depths(branches: Seq<Option<Branching>>, pcs: Seq<u64>) -> Seq<usize>
    recommends
        branches.len() == pcs.len(),
{
    Seq::new(
        pcs.len(),
        |i: int| stack_at(branches.subrange(0, i + 1), pcs.subrange(0, i + 1)).len() as usize,
    )
}

/// The stack of pending return addresses.
pub struct Backtrace {
    stack: Vec<u64>,
}

impl View for Backtrace {
    type V = Seq<u64>;

    closed spec fn view(&self) -> Seq<u64> {
        self.stack@
    }
}

impl Backtrace {
    /// An empty stack: depth zero.
    pub fn new() -> (bt: Self)
        ensures
            bt@ == Seq::<u64>::empty(),
    {
        Backtrace { stack: Vec::new() }
    }

    /// The call depth: the number of pending return addresses.
    pub fn depth(&self) -> (d: usize)
        ensures
            d == self@.len(),
    {
        self.stack.len()
    }

    /// The lowest place in the stack at which `pc` is pending.
    fn find(&self, pc: u64) -> (found: Option<usize>)
        ensures
            found is None <==> position(self@, pc) is None,
            found matches Some(i) ==> position(self@, pc) == Some(i as int) && i < self@.len(),
    {
        let mut i: usize = 0;
        while i < self.stack.len()
            invariant
                i <= self.stack.len(),
                forall|j: int| 0 <= j < i ==> !#[trigger] pending_at(self@, pc)[j],
            decreases self.stack.len() - i,
        {
            if self.stack[i] == pc {
                proof {
                    assert(pending_at(self@, pc)[i as int]);
                    lemma_first_true_at(pending_at(self@, pc), i as int);
                }
                return Some(i);
            }
            i += 1;
        }
        proof {
            lemma_first_true_at(pending_at(self@, pc), i as int);
        }
        None
    }

    /// Unwinds the stack to `pc`. Tells whether `pc` was pending.
    pub fn unwind(&mut self, pc: u64) -> (found: bool)
        ensures
            final(self)@ == unwound(old(self)@, pc),
            found == position(old(self)@, pc) is Some,
    {
        match self.find(pc) {
            Some(i) => {
                self.stack.truncate(i);
                true
            },
            None => false,
        }
    }

    /// Moves on to a step at `pc`, after a step whose instruction branched
    /// as `previous` says. Gives the call depth at the new step.
    pub fn update(&mut self, previous: Option<Branching>, pc: u64) -> (depth: usize)
        ensures
            final(self)@ == after_step(old(self)@, previous, pc),
            depth == final(self)@.len(),
    {
        match previous {
            Some(Branching::Call(_, return_address)) => {
                if pc != return_address {
                    self.stack.push(return_address);
                }
            },
            Some(Branching::Return) => {
                self.unwind(pc);
            },
            None => {
                self.unwind(pc);
            },
        }
        self.stack.len()
    }
}

/// Unwinding only removes: what is left is the part of the stack below the
/// entry found, so the depth never grows.
pub proof fn lemma_unwound_is_prefix(stack: Seq<u64>, pc: u64)
    ensures
        unwound(stack, pc).len() <= stack.len(),
        unwound(stack, pc) == stack.subrange(0, unwound(stack, pc).len() as int),
        position(unwound(stack, pc), pc) is None,
{
    lemma_first_true(pending_at(stack, pc));
    let rest = unwound(stack, pc);
    match position(stack, pc) {
        Some(i) => {
            assert forall|j: int| 0 <= j < rest.len() implies !#[trigger] pending_at(rest, pc)[j] by {
                assert(!pending_at(stack, pc)[j]);
            }
            lemma_first_true_at(pending_at(rest, pc), rest.len() as int);
        },
        None => {
            assert(stack.subrange(0, stack.len() as int) =~= stack);
        },
    }
}

/// The depth changes by at most one upwards in a step, and only after a call
/// whose callee was traced.
pub proof fn lemma_depth_step(stack: Seq<u64>, previous: Option<Branching>, pc: u64)
    ensures
        after_step(stack, previous, pc).len() <= stack.len() + 1,
        after_step(stack, previous, pc).len() == stack.len() + 1 <==> (previous matches Some(
            Branching::Call(_, return_address),
        ) && pc != return_address),
{
    lemma_unwound_is_prefix(stack, pc);
}

/// Call and return: after a call whose callee is traced, arriving at the
/// call's return address restores the stack of before the call, whatever
/// was pushed in between, provided the return address was not pending already.
pub proof fn lemma_return_restores(stack: Seq<u64>, return_address: u64, pushed: Seq<u64>)
    requires
        position(stack, return_address) is None,
    ensures
        unwound(stack.push(return_address) + pushed, return_address) == stack,
{
    let all = stack.push(return_address) + pushed;
    lemma_first_true(pending_at(stack, return_address));
    assert forall|j: int| 0 <= j < stack.len() implies !#[trigger] pending_at(
        all,
        return_address,
    )[j] by {
        assert(all[j] == stack[j]);
        assert(!pending_at(stack, return_address)[j]);
    }
    assert(all[stack.len() as int] == return_address);
    assert(pending_at(all, return_address)[stack.len() as int]);
    lemma_first_true_at(pending_at(all, return_address), stack.len() as int);
    assert(all.subrange(0, stack.len() as int) =~= stack);
}

/// An invisible call leaves the depth as it is.
pub proof fn lemma_invisible_call(stack: Seq<u64>, target: u64, return_address: u64)
    ensures
        after_step(stack, Some(Branching::Call(target, return_address)), return_address) == stack,
{
}

} // verus!
