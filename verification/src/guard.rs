//! The rule that a binary carries one version-information resource: a guard
//! that lets the first successful link through and refuses every later one.

use crate::versioninfo::cargo_env::CargoEnv;
use crate::versioninfo::script::VersionInfo;
use vstd::prelude::*;

verus! {

/// The answer to an attempt to link a second resource.
#[derive(Clone, Copy, Debug, PartialEq, Eq, Structural)]
pub struct AlreadyLinkedError {}

impl AlreadyLinkedError {
    /// The reason in words.
    pub fn message(&self) -> (r: &'static str)
        ensures
            r@ == "Only one versioninfo can be linked"@,
    {
        "Only one versioninfo can be linked"
    }
}

/// Why a link did not come about: a resource was linked before, or the
/// sink that was to write and link the script failed with its own error.
#[derive(Debug)]
pub enum LinkError<E> {
    AlreadyLinked(AlreadyLinkedError),
    Sink(E),
}

/// What an attempt to link comes to.
#[derive(Clone, Copy, Debug, PartialEq, Eq, Structural)]
pub enum Answer {
    /// The script was written and linked; the guard is now set.
    Linked,
    /// The sink failed; the guard is as it was.
    Failed,
    /// A resource was linked before; nothing was written or linked.
    Refused,
}

/// The answer that a result of `link` stands for.
pub open spec fn answer_of<E>(r: Result<(), LinkError<E>>) -> Answer {
    match r {
        Ok(_) => Answer::Linked,
        Err(LinkError::Sink(_)) => Answer::Failed,
        Err(LinkError::AlreadyLinked(_)) => Answer::Refused,
    }
}

/// One attempt as a step of the guard. From `linked`, and with a sink that
/// would succeed or not, it gives the state after the attempt and the
/// answer. A set guard refuses without asking the sink.
pub open spec fn step(linked: bool, sink_succeeds: bool) -> (bool, Answer) {
    if linked {
        (true, Answer::Refused)
    } else if sink_succeeds {
        (true, Answer::Linked)
    } else {
        (false, Answer::Failed)
    }
}

/// The state of the guard after the attempts `sinks`, made one after
/// another from the state `linked`.
pub open spec fn state_after(linked: bool, sinks: Seq<bool>) -> bool
    decreases sinks.len(),
{
    if sinks.len() == 0 {
        linked
    } else {
        step(state_after(linked, sinks.drop_last()), sinks.last()).0
    }
}

/// The answer to the attempt at place `i` of `sinks`, made one after
/// another from the state `linked`.
pub open spec fn answer_at(linked: bool, sinks: Seq<bool>, i: int) -> Answer
    recommends
        0 <= i < sinks.len(),
{
    step(state_after(linked, sinks.take(i)), sinks[i]).1
}

/// The guard is set after some attempts exactly if it was set before them or
/// the sink of one of them succeeds.
pub proof fn lemma_state_after(linked: bool, sinks: Seq<bool>, k: int)
    requires
        0 <= k <= sinks.len(),
    ensures
        state_after(linked, sinks.take(k)) == (linked || exists|j: int|
            0 <= j < k && #[trigger] sinks[j]),
    decreases k,
{
    if k > 0 {
        lemma_state_after(linked, sinks, k - 1);
        assert(sinks.take(k).drop_last() =~= sinks.take(k - 1));
        assert(sinks.take(k).last() == sinks[k - 1]);
        if state_after(linked, sinks.take(k)) && !linked {
            if !sinks[k - 1] {
                let j = choose|j: int| 0 <= j < k - 1 && #[trigger] sinks[j];
                assert(0 <= j < k && sinks[j]);
            }
        }
    }
}

/// Whatever attempts are made on one guard, the first whose sink succeeds
/// sets the guard and is answered `Linked`; every attempt before it is
/// answered `Failed` and finds the guard unset; every attempt after it is
/// answered `Refused`, whatever its sink would have done.
pub proof fn lemma_first_success_links(sinks: Seq<bool>, first: int)
    requires
        0 <= first < sinks.len(),
        sinks[first],
        forall|j: int| 0 <= j < first ==> !#[trigger] sinks[j],
    ensures
        forall|j: int|
            0 <= j < first ==> #[trigger] answer_at(false, sinks, j) == Answer::Failed
                && !state_after(false, sinks.take(j + 1)),
        answer_at(false, sinks, first) == Answer::Linked,
        forall|j: int|
            first < j < sinks.len() ==> #[trigger] answer_at(false, sinks, j) == Answer::Refused,
        forall|k: int| first < k <= sinks.len() ==> #[trigger] state_after(false, sinks.take(k)),
{
    assert forall|j: int| 0 <= j <= first implies !#[trigger] state_after(
        false,
        sinks.take(j),
    ) by {
        lemma_state_after(false, sinks, j);
    }
    assert forall|k: int| first < k <= sinks.len() implies #[trigger] state_after(
        false,
        sinks.take(k),
    ) by {
        lemma_state_after(false, sinks, k);
    }
    assert forall|j: int| 0 <= j < first implies #[trigger] answer_at(false, sinks, j)
        == Answer::Failed && !state_after(false, sinks.take(j + 1)) by {
        assert(!state_after(false, sinks.take(j)));
        assert(!state_after(false, sinks.take(j + 1)));
    }
    assert(!state_after(false, sinks.take(first)));
    assert forall|j: int| first < j < sinks.len() implies #[trigger] answer_at(false, sinks, j)
        == Answer::Refused by {
        assert(state_after(false, sinks.take(j)));
    }
}

/// A set guard is never reset: from a set guard every attempt is refused
/// and the guard stays set.
pub proof fn lemma_linked_is_final(sinks: Seq<bool>, i: int)
    requires
        0 <= i < sinks.len(),
    ensures
        answer_at(true, sinks, i) == Answer::Refused,
        state_after(true, sinks.take(i)),
        state_after(true, sinks),
{
    lemma_state_after(true, sinks, i);
    lemma_state_after(true, sinks, sinks.len() as int);
    assert(sinks.take(sinks.len() as int) =~= sinks);
}

/// Attempts whose sinks all fail leave the guard unset, and each of them is
/// answered `Failed`.
pub proof fn lemma_failures_leave_unset(sinks: Seq<bool>, i: int)
    requires
        0 <= i < sinks.len(),
        forall|j: int| 0 <= j < sinks.len() ==> !#[trigger] sinks[j],
    ensures
        answer_at(false, sinks, i) == Answer::Failed,
        !state_after(false, sinks),
{
    lemma_state_after(false, sinks, i);
    lemma_state_after(false, sinks, sinks.len() as int);
    assert(sinks.take(sinks.len() as int) =~= sinks);
}

/// No two attempts on one guard are both answered `Linked`.
pub proof fn lemma_at_most_one_link(linked: bool, sinks: Seq<bool>, i: int, j: int)
    requires
        0 <= i < j < sinks.len(),
    ensures
        !(answer_at(linked, sinks, i) == Answer::Linked && answer_at(linked, sinks, j)
            == Answer::Linked),
{
    if answer_at(linked, sinks, i) == Answer::Linked {
        assert(sinks[i]);
        lemma_state_after(linked, sinks, j);
        assert(state_after(linked, sinks.take(j)));
    }
}

/// Whether a version-information resource has been linked: the one piece of
/// state that outlives a link. It starts unset, the first link that succeeds
/// sets it, and nothing resets it. An attempt needs the guard to itself from
/// its test to its end, so no two attempts can both find it unset and both
/// go on.
#[derive(Debug)]
pub struct LinkGuard {
    linked: bool,
}

impl LinkGuard {
    /// Whether a resource has been linked.
    pub closed spec fn linked(&self) -> bool {
        self.linked
    }

    /// A guard through which nothing has been linked yet.
    pub fn new() -> (r: Self)
        ensures
            !r.linked(),
    {
        LinkGuard { linked: false }
    }

    /// Whether a resource has been linked.
    pub fn is_linked(&self) -> (r: bool)
        ensures
            r == self.linked(),
    {
        self.linked
    }

    /// Whether an attempt may go on: it may unless a resource was linked.
    pub fn check(&self) -> (r: Result<(), AlreadyLinkedError>)
        ensures
            r is Err <==> self.linked(),
    {
        if self.linked {
            Err(AlreadyLinkedError {  })
        } else {
            Ok(())
        }
    }

    /// Ends an attempt that was let through, given what the sink made of
    /// the script. Success sets the guard; a failure leaves it as it was
    /// and is handed on as it came.
    pub fn settle<E>(&mut self, outcome: Result<(), E>) -> (r: Result<(), LinkError<E>>)
        ensures
            final(self).linked() == (old(self).linked() || outcome is Ok),
            !old(self).linked() ==> (final(self).linked(), answer_of(r)) == step(
                false,
                outcome is Ok,
            ),
            match outcome {
                Ok(_) => r is Ok,
                Err(e) => r == Err::<(), LinkError<E>>(LinkError::Sink(e)),
            },
    {
        match outcome {
            Ok(_) => {
                self.linked = true;
                Ok(())
            },
            Err(e) => Err(LinkError::Sink(e)),
        }
    }
}

impl VersionInfo {
    /// Links this resource once. Where the guard is set, the attempt is
    /// refused and the sink is not called. Where it is not, the sink is
    /// called with the script of the resource, which it is to write and
    /// hand to the resource compiler; its success sets the guard, its
    /// failure is handed on and leaves the guard unset.
    pub fn link<E, F: FnOnce(String) -> Result<(), E>>(&self, guard: &mut LinkGuard, sink: F) -> (r:
        Result<(), LinkError<E>>)
        requires
            !old(guard).linked() ==> forall|script: String|
                script@ == self@.script() ==> call_requires(sink, (script,)),
        ensures
            old(guard).linked() ==> (final(guard).linked(), answer_of(r)) == step(true, true),
            !old(guard).linked() ==> exists|script: String, outcome: Result<(), E>|
                #![trigger call_ensures(sink, (script,), outcome)]
                script@ == self@.script() && call_ensures(sink, (script,), outcome) && (
                final(guard).linked(),
                answer_of(r),
            ) == step(false, outcome is Ok) && (outcome matches Err(e) ==> r == Err::<
                (),
                LinkError<E>,
            >(LinkError::Sink(e))),
    {
        match guard.check() {
            Err(refusal) => Err(LinkError::AlreadyLinked(refusal)),
            Ok(_) => {
                let script = self.to_string();
                let ghost handed = script;
                let outcome = sink(script);
                let ghost came = outcome;
                let r = guard.settle(outcome);
                assert(call_ensures(sink, (handed,), came));
                r
            },
        }
    }
}

/// Makes the resource of the package that `env` describes and links it once.
pub fn link_cargo_env<E, F: FnOnce(String) -> Result<(), E>>(
    env: &CargoEnv,
    guard: &mut LinkGuard,
    sink: F,
) -> (r: Result<(), LinkError<E>>)
    requires
        !old(guard).linked() ==> forall|script: String|
            script@ == env@.resource(None, None, None, None).script() ==> call_requires(
                sink,
                (script,),
            ),
    ensures
        old(guard).linked() ==> (final(guard).linked(), answer_of(r)) == step(true, true),
        !old(guard).linked() ==> exists|script: String, outcome: Result<(), E>|
            #![trigger call_ensures(sink, (script,), outcome)]
            script@ == env@.resource(None, None, None, None).script() && call_ensures(
                sink,
                (script,),
                outcome,
            ) && (final(guard).linked(), answer_of(r)) == step(false, outcome is Ok) && (
            outcome matches Err(e) ==> r == Err::<(), LinkError<E>>(LinkError::Sink(e))),
{
    let resource = VersionInfo::from_cargo_env(env);
    resource.link(guard, sink)
}

} // verus!
