//! Handlers as machines that talk to the platform.

use vstd::prelude::*;

use crate::platform::{fits, is_fitting, Action, Reply};
use crate::vmsa_list::{VmsaInfo, VmsaList};

verus! {

/// A computation that is cut at each point where it needs the platform.
///
/// A machine that is not finished has a pending [`Action`]. The platform performs it, and
/// [`Machine::resume`] takes the [`Reply`]. The list of VMSA pages is shared with other CPUs: a
/// machine sees it as it is at the time of each reply.
pub trait Machine: Sized {
    /// The machine is well-formed.
    spec fn inv(self) -> bool;

    /// The action that the machine waits for, `None` once it is finished.
    spec fn pending(self) -> Option<Action>;

    /// Every address that the machine computes from the reply exists.
    spec fn defined(self, reply: Reply) -> bool;

    /// The machine after a reply that came while `list` was the list of VMSA pages.
    spec fn next(self, reply: Reply, list: Seq<VmsaInfo>) -> Self;

    /// The list of VMSA pages after a reply that came while it was `list`.
    spec fn next_list(self, reply: Reply, list: Seq<VmsaInfo>) -> Seq<VmsaInfo>;

    /// The action to perform next, `None` once the machine is finished.
    fn action(&self) -> (action: Option<Action>)
        requires
            self.inv(),
        ensures
            action == self.pending(),
    ;

    /// Whether every address that the machine computes from `reply` exists.
    fn is_defined(&self, reply: &Reply) -> (is_defined: bool)
        requires
            self.inv(),
        ensures
            is_defined == self.defined(*reply),
    ;

    /// Takes the reply to the pending action.
    fn resume(self, reply: Reply, list: &mut VmsaList) -> (after: Self)
        requires
            self.inv(),
            self.pending() matches Some(action) && fits(action, reply),
            self.defined(reply),
        ensures
            after.inv(),
            after == self.next(reply, old(list)@),
            final(list)@ == self.next_list(reply, old(list)@),
    ;
}

/// The machine can go on with `reply`: it fits the pending action, and every address that is
/// computed from it exists.
pub open spec fn accepts<M: Machine>(machine: M, reply: Reply) -> bool {
    machine.pending() matches Some(action) && fits(action, reply) && machine.defined(reply)
}

/// Whether the machine can go on with `reply`.
pub fn admits<M: Machine>(machine: &M, reply: &Reply) -> (admitted: bool)
    requires
        machine.inv(),
    ensures
        admitted == accepts(*machine, *reply),
{
    match machine.action() {
        Some(action) => is_fitting(&action, reply) && machine.is_defined(reply),
        None => false,
    }
}

/// An action, the reply to it, and the list of VMSA pages at the time of the reply.
pub ghost struct Exchange {
    pub action: Action,
    pub reply: Reply,
    pub list: Seq<VmsaInfo>,
}

/// The machine that `start` has become after the exchanges of `log`.
pub open spec fn after<M: Machine>(start: M, log: Seq<Exchange>) -> M
    decreases log.len(),
{
    if log.len() == 0 {
        start
    } else {
        after(start, log.drop_last()).next(log.last().reply, log.last().list)
    }
}

/// `log` can be what `start` and the platform exchange: each action is the pending one, and each
/// reply is accepted.
pub open spec fn is_run<M: Machine>(start: M, log: Seq<Exchange>) -> bool
    decreases log.len(),
{
    log.len() == 0 || {
        let before = after(start, log.drop_last());
        &&& is_run(start, log.drop_last())
        &&& before.pending() == Some(log.last().action)
        &&& accepts(before, log.last().reply)
    }
}

/// The first exchanges of a run are a run.
pub proof fn law_prefix_is_run<M: Machine>(start: M, log: Seq<Exchange>, count: int)
    requires
        is_run(start, log),
        0 <= count <= log.len(),
    ensures
        is_run(start, log.take(count)),
    decreases log.len(),
{
    if count == log.len() {
        assert(log.take(count) =~= log);
    } else {
        assert(log.drop_last().take(count) =~= log.take(count));
        law_prefix_is_run(start, log.drop_last(), count);
    }
}

/// Each action of a run is the one that was pending at its time.
pub proof fn law_actions_were_pending<M: Machine>(start: M, log: Seq<Exchange>, i: int)
    requires
        is_run(start, log),
        0 <= i < log.len(),
    ensures
        after(start, log.take(i)).pending() == Some(log[i].action),
        accepts(after(start, log.take(i)), log[i].reply),
        fits(log[i].action, log[i].reply),
        after(start, log.take(i + 1)) == after(start, log.take(i)).next(log[i].reply, log[i].list),
{
    law_prefix_is_run(start, log, i + 1);
    assert(log.take(i + 1).drop_last() =~= log.take(i));
    assert(log.take(i + 1).last() == log[i]);
}

/// A run can be cut anywhere: what comes after the first `count` exchanges is a run of the machine
/// that these have led to.
pub proof fn law_run_can_be_cut<M: Machine>(start: M, log: Seq<Exchange>, count: int)
    requires
        is_run(start, log),
        0 <= count <= log.len(),
    ensures
        is_run(after(start, log.take(count)), log.skip(count)),
        after(after(start, log.take(count)), log.skip(count)) == after(start, log),
    decreases log.len(),
{
    if count == log.len() {
        assert(log.take(count) =~= log);
        assert(log.skip(count).len() == 0);
    } else {
        let shorter = log.drop_last();
        law_run_can_be_cut(start, shorter, count);
        assert(shorter.take(count) =~= log.take(count));
        assert(log.skip(count).drop_last() =~= shorter.skip(count));
        assert(log.skip(count).last() == log.last());
    }
}

/// A machine goes on with a reply exactly if it waits for an action that the reply fits and every
/// address that is computed from the reply exists. A finished machine takes no reply at all.
pub proof fn law_what_is_accepted<M: Machine>(machine: M, action: Action, reply: Reply)
    ensures
        machine.pending() is None ==> !accepts(machine, reply),
        machine.pending() == Some(action) ==> (accepts(machine, reply) <==> fits(action, reply)
            && machine.defined(reply)),
{
}

} // verus!
