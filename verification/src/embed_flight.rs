//! The single flight of the background embedding pass.
//!
//! At most one worker embeds at a time. A request that comes while a pass runs is not lost:
//! it makes the owner run once more before it lets go.

use vstd::prelude::*;

verus! {

/// The text of a pass that ended on no regular way.
pub open spec fn unfinished_text() -> Seq<char> {
    "embedding pass ended without completing"@
}

/// How far the semantic side of the search is.
#[derive(Debug, Clone, PartialEq, Eq)]
pub enum SemanticRuntimeStatus {
    Disabled,
    Ready,
    Indexing,
    OverlaySyncing,
    Failed(String),
}

impl SemanticRuntimeStatus {
    /// The runtime failed with `message`.
    pub open spec fn failed_with(&self, message: Seq<char>) -> bool {
        self matches SemanticRuntimeStatus::Failed(text) && text@ == message
    }

    /// A pass is no longer announced: the runtime is ready or says why it is not.
    pub open spec fn settled(&self) -> bool {
        self is Ready || self is Failed
    }
}

/// Who embeds, and whether the pass must run again.
#[derive(Debug, Clone, Copy, PartialEq, Eq, Structural)]
pub struct EmbedFlight {
    pub in_flight: bool,
    pub rerun_pending: bool,
}

impl EmbedFlight {
    /// The flight after a request to embed.
    pub open spec fn claimed(self) -> EmbedFlight {
        if self.in_flight {
            EmbedFlight { rerun_pending: true, ..self }
        } else {
            EmbedFlight { in_flight: true, ..self }
        }
    }

    /// The flight after the owner let go.
    pub open spec fn released(self) -> EmbedFlight {
        EmbedFlight { in_flight: false, ..self }
    }

    /// The flight after the owner starts a pass.
    pub open spec fn begun(self) -> EmbedFlight {
        EmbedFlight { rerun_pending: false, ..self }
    }

    /// The flight after the owner ends a pass.
    pub open spec fn ended(self) -> EmbedFlight {
        if self.rerun_pending {
            self
        } else {
            self.released()
        }
    }

    pub fn new() -> (flight: Self)
        ensures
            flight == (EmbedFlight { in_flight: false, rerun_pending: false }),
    {
        EmbedFlight { in_flight: false, rerun_pending: false }
    }

    /// A flight that somebody holds.
    pub fn in_flight_for_test() -> (flight: Self)
        ensures
            flight == (EmbedFlight { in_flight: true, rerun_pending: false }),
    {
        EmbedFlight { in_flight: true, rerun_pending: false }
    }

    /// Asks for a pass: true makes the caller its owner, false records a rerun for the owner.
    pub fn claim(&mut self) -> (won: bool)
        ensures
            won == !old(self).in_flight,
            *final(self) == old(self).claimed(),
    {
        if self.in_flight {
            self.rerun_pending = true;
            false
        } else {
            self.in_flight = true;
            true
        }
    }

    /// The owner starts a pass; what was asked for so far is covered by it.
    pub fn begin_pass(&mut self)
        ensures
            *final(self) == old(self).begun(),
    {
        self.rerun_pending = false;
    }

    /// The owner ends a pass: true where it must run again, false where the flight is free.
    pub fn finish_pass(&mut self) -> (again: bool)
        ensures
            again == old(self).rerun_pending,
            *final(self) == old(self).ended(),
    {
        if self.rerun_pending {
            true
        } else {
            self.in_flight = false;
            false
        }
    }

    /// The owner lets go.
    pub fn release(&mut self)
        ensures
            *final(self) == old(self).released(),
    {
        self.in_flight = false;
    }

    pub fn is_in_flight(&self) -> (in_flight: bool)
        ensures
            in_flight == self.in_flight,
    {
        self.in_flight
    }

    pub fn rerun_pending(&self) -> (pending: bool)
        ensures
            pending == self.rerun_pending,
    {
        self.rerun_pending
    }
}

/// Lets the flight go when its owner ends without having done so.
#[derive(Debug, Clone, Copy, PartialEq, Eq, Structural)]
pub struct EmbedClaimGuard {
    pub armed: bool,
}

impl EmbedClaimGuard {
    pub fn new() -> (guard: Self)
        ensures
            guard.armed,
    {
        EmbedClaimGuard { armed: true }
    }

    pub fn disarm(&mut self)
        ensures
            !final(self).armed,
    {
        self.armed = false;
    }

    /// What the end of the owner does to the flight.
    pub fn on_drop(&self, flight: &mut EmbedFlight)
        ensures
            *final(flight) == if self.armed {
                old(flight).released()
            } else {
                *old(flight)
            },
    {
        if self.armed {
            flight.release();
        }
    }
}

/// Reports a failure when the owner ends without having reported anything.
#[derive(Debug, Clone, Copy, PartialEq, Eq, Structural)]
pub struct EmbedStatusGuard {
    pub finished: bool,
}

impl EmbedStatusGuard {
    pub fn new() -> (guard: Self)
        ensures
            !guard.finished,
    {
        EmbedStatusGuard { finished: false }
    }

    pub fn finish(&mut self)
        ensures
            final(self).finished,
    {
        self.finished = true;
    }

    /// What the end of the owner does to the reported status.
    pub fn on_drop(&self, runtime: &mut SemanticRuntimeStatus)
        ensures
            self.finished ==> *final(runtime) == *old(runtime),
            !self.finished ==> final(runtime).failed_with(unfinished_text()),
    {
        if !self.finished {
            *runtime = SemanticRuntimeStatus::Failed(
                "embedding pass ended without completing".to_owned(),
            );
        }
    }
}

/// The flight after `n` requests in a row.
pub open spec fn after_claims(flight: EmbedFlight, n: nat) -> EmbedFlight
    decreases n,
{
    if n == 0 {
        flight
    } else {
        after_claims(flight, (n - 1) as nat).claimed()
    }
}

/// While a flight is held, no request wins it, however many come.
pub proof fn a_held_flight_has_one_owner(flight: EmbedFlight, n: nat)
    requires
        flight.in_flight,
    ensures
        after_claims(flight, n).in_flight,
        n > 0 ==> after_claims(flight, n).rerun_pending,
    decreases n,
{
    if n > 0 {
        a_held_flight_has_one_owner(flight, (n - 1) as nat);
    }
}

/// Requests that come during a pass make the owner run once more; without one the pass is the
/// last and the flight is free for the next request.
pub proof fn a_request_during_a_pass_is_never_lost(flight: EmbedFlight, requests: nat)
    requires
        flight.in_flight,
    ensures
        ({
            let before_end = after_claims(flight.begun(), requests);
            &&& before_end.rerun_pending == (requests > 0)
            &&& requests > 0 ==> before_end.ended().in_flight
            &&& requests == 0 ==> !before_end.ended().in_flight
        }),
{
    a_held_flight_has_one_owner(flight.begun(), requests);
}

/// A request wins a flight exactly where nobody holds it. Either way the flight is held after it,
/// and a request that did not win is remembered as a rerun.
pub proof fn a_request_wins_a_free_flight(won: bool)
    ensures
        forall|flight: &mut EmbedFlight| #[trigger]
            call_ensures(EmbedFlight::claim, (flight,), won) ==> {
                let after = *final(flight);
                &&& won <==> !flight.in_flight
                &&& after.in_flight
                &&& !won ==> after.rerun_pending
                &&& won ==> after.rerun_pending == flight.rerun_pending
            },
{
}

/// A pass covers what was asked for before it began. It is repeated exactly where something was
/// asked for since; else the flight is free.
pub proof fn a_pass_is_repeated_where_more_was_asked_for(again: bool)
    ensures
        forall|flight: &mut EmbedFlight| #[trigger]
            call_ensures(EmbedFlight::begin_pass, (flight,), ()) ==> {
                &&& !final(flight).rerun_pending
                &&& final(flight).in_flight == flight.in_flight
            },
        forall|flight: &mut EmbedFlight| #[trigger]
            call_ensures(EmbedFlight::finish_pass, (flight,), again) ==> {
                &&& again <==> flight.rerun_pending
                &&& again ==> final(flight).in_flight == flight.in_flight
                &&& !again ==> !final(flight).in_flight
                &&& final(flight).rerun_pending == flight.rerun_pending
            },
        forall|flight: &mut EmbedFlight| #[trigger]
            call_ensures(EmbedFlight::release, (flight,), ()) ==> {
                &&& !final(flight).in_flight
                &&& final(flight).rerun_pending == flight.rerun_pending
            },
{
}

/// A new flight is free, and a flight tells truly whether it is held and whether it is asked for
/// again.
pub proof fn a_flight_tells_its_state(
    free: EmbedFlight,
    held: EmbedFlight,
    flight: EmbedFlight,
    in_flight: bool,
    pending: bool,
)
    requires
        call_ensures(EmbedFlight::new, (), free),
        call_ensures(EmbedFlight::in_flight_for_test, (), held),
        call_ensures(EmbedFlight::is_in_flight, (&flight,), in_flight),
        call_ensures(EmbedFlight::rerun_pending, (&flight,), pending),
    ensures
        !free.in_flight && !free.rerun_pending,
        held.in_flight && !held.rerun_pending,
        in_flight == flight.in_flight,
        pending == flight.rerun_pending,
{
}

/// An owner that ends lets the flight go unless it has done so itself, and reports that its pass
/// did not complete unless it has reported how it ended.
pub proof fn an_owner_that_ends_leaves_nothing_open(
    claim: EmbedClaimGuard,
    status: EmbedStatusGuard,
)
    ensures
        forall|flight: &mut EmbedFlight| #[trigger]
            call_ensures(EmbedClaimGuard::on_drop, (&claim, flight), ()) ==> {
                &&& claim.armed ==> !final(flight).in_flight
                &&& !claim.armed ==> final(flight).in_flight == flight.in_flight
                &&& final(flight).rerun_pending == flight.rerun_pending
            },
        forall|runtime: &mut SemanticRuntimeStatus| #[trigger]
            call_ensures(EmbedStatusGuard::on_drop, (&status, runtime), ()) ==> {
                &&& status.finished ==> *final(runtime) == *runtime
                &&& !status.finished ==> (*final(runtime) matches SemanticRuntimeStatus::Failed(
                    text,
                ) && text@ == "embedding pass ended without completing"@)
            },
{
}

/// A guard watches from its start, and no longer once it is told so.
pub proof fn a_guard_watches_until_it_is_told(claim: EmbedClaimGuard, status: EmbedStatusGuard)
    requires
        call_ensures(EmbedClaimGuard::new, (), claim),
        call_ensures(EmbedStatusGuard::new, (), status),
    ensures
        claim.armed,
        !status.finished,
        forall|guard: &mut EmbedClaimGuard| #[trigger]
            call_ensures(EmbedClaimGuard::disarm, (guard,), ()) ==> !final(guard).armed,
        forall|guard: &mut EmbedStatusGuard| #[trigger]
            call_ensures(EmbedStatusGuard::finish, (guard,), ()) ==> final(guard).finished,
{
}

} // verus!
