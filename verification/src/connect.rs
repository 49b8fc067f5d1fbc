//! The plan of a connection attempt: which step comes after which, as far
//! as the steps succeed.
//!
//! A socket is connected by resolving the multicast group of the family to
//! its id, opening the socket and joining the group. The id is resolved
//! through the resolver that is kept between attempts; one that fails is
//! made anew once, and where none can be made a router of the moment takes
//! its place.

use vstd::prelude::*;

verus! {

/// What the owner of the socket is to do next.
#[derive(Debug, Clone, Copy, PartialEq, Eq, Structural)]
pub enum ConnectStep {
    /// Resolve the group's id through the kept resolver.
    ResolveGroup,
    /// Drop the kept resolver, if any, and make a new one to keep.
    CreateResolver,
    /// Open a router for this attempt only.
    OpenRouter,
    /// Resolve the group's id through the router of this attempt.
    ResolveWithRouter,
    /// Open the data socket.
    OpenSocket,
    /// Join the group with this id on the data socket.
    JoinGroup(u32),
    /// The attempt is over; the socket stands if `connected`. The router of
    /// this attempt is to be closed, and after a failure the socket and the
    /// kept resolver too.
    Finished { connected: bool },
}

/// How a step ended.
#[derive(Debug, Clone, Copy, PartialEq, Eq, Structural)]
pub enum StepResult {
    /// It succeeded.
    Done,
    /// The group's id was resolved.
    Resolved(u32),
    /// It failed.
    Failed,
}

/// Where an attempt stands.
#[derive(Debug, Clone, Copy, PartialEq, Eq, Structural)]
pub enum Phase {
    /// Resolving through the resolver that was kept from before.
    ResolvingKept,
    /// Making a resolver to keep.
    Creating,
    /// Resolving through a resolver that this attempt made.
    ResolvingNew,
    /// Opening the router of this attempt.
    OpeningRouter,
    /// Resolving through the router of this attempt.
    ResolvingWithRouter,
    /// Opening the data socket, to join the group with this id.
    OpeningSocket(u32),
    /// Joining the group with this id.
    Joining(u32),
    /// Over.
    Over { connected: bool },
}

/// The step that the owner is at in a phase.
pub open spec fn spec_step_of(phase: Phase) -> ConnectStep {
    match phase {
        Phase::ResolvingKept => ConnectStep::ResolveGroup,
        Phase::Creating => ConnectStep::CreateResolver,
        Phase::ResolvingNew => ConnectStep::ResolveGroup,
        Phase::OpeningRouter => ConnectStep::OpenRouter,
        Phase::ResolvingWithRouter => ConnectStep::ResolveWithRouter,
        Phase::OpeningSocket(_) => ConnectStep::OpenSocket,
        Phase::Joining(id) => ConnectStep::JoinGroup(id),
        Phase::Over { connected } => ConnectStep::Finished { connected },
    }
}

/// The phase in which an attempt starts: with the kept resolver if there is
/// one, else by making one.
pub open spec fn spec_first_phase(has_resolver: bool) -> Phase {
    if has_resolver {
        Phase::ResolvingKept
    } else {
        Phase::Creating
    }
}

/// The phase that follows on `phase` when its step ended with `result`.
///
/// A resolving step succeeds with `Resolved`, any other step with `Done`;
/// every other result counts as failure.
pub open spec fn spec_next_phase(phase: Phase, result: StepResult) -> Phase {
    match phase {
        Phase::ResolvingKept => match result {
            StepResult::Resolved(id) => Phase::OpeningSocket(id),
            _ => Phase::Creating,
        },
        Phase::Creating => match result {
            StepResult::Done => Phase::ResolvingNew,
            _ => Phase::OpeningRouter,
        },
        Phase::ResolvingNew => match result {
            StepResult::Resolved(id) => Phase::OpeningSocket(id),
            _ => Phase::Over { connected: false },
        },
        Phase::OpeningRouter => match result {
            StepResult::Done => Phase::ResolvingWithRouter,
            _ => Phase::Over { connected: false },
        },
        Phase::ResolvingWithRouter => match result {
            StepResult::Resolved(id) => Phase::OpeningSocket(id),
            _ => Phase::Over { connected: false },
        },
        Phase::OpeningSocket(id) => match result {
            StepResult::Done => Phase::Joining(id),
            _ => Phase::Over { connected: false },
        },
        Phase::Joining(_) => match result {
            StepResult::Done => Phase::Over { connected: true },
            _ => Phase::Over { connected: false },
        },
        Phase::Over { connected } => Phase::Over { connected },
    }
}

/// Steps that an attempt in this phase can still take at most.
pub open spec fn spec_steps_left(phase: Phase) -> nat {
    match phase {
        Phase::ResolvingKept => 6,
        Phase::Creating => 5,
        Phase::OpeningRouter => 4,
        Phase::ResolvingNew => 3,
        Phase::ResolvingWithRouter => 3,
        Phase::OpeningSocket(_) => 2,
        Phase::Joining(_) => 1,
        Phase::Over { .. } => 0,
    }
}

/// A connection attempt in progress.
pub struct ConnectPlan {
    phase: Phase,
}

impl ConnectPlan {
    /// Where the attempt stands.
    pub closed spec fn phase(&self) -> Phase {
        self.phase
    }

    /// Starts an attempt. `has_resolver` says whether a resolver was kept
    /// from before.
    pub fn start(has_resolver: bool) -> (plan: Self)
        ensures
            plan.phase() == spec_first_phase(has_resolver),
    {
        ConnectPlan {
            phase: if has_resolver {
                Phase::ResolvingKept
            } else {
                Phase::Creating
            },
        }
    }

    /// The step that the owner is to take now.
    pub fn step(&self) -> (step: ConnectStep)
        ensures
            step == spec_step_of(self.phase()),
    {
        match self.phase {
            Phase::ResolvingKept => ConnectStep::ResolveGroup,
            Phase::Creating => ConnectStep::CreateResolver,
            Phase::ResolvingNew => ConnectStep::ResolveGroup,
            Phase::OpeningRouter => ConnectStep::OpenRouter,
            Phase::ResolvingWithRouter => ConnectStep::ResolveWithRouter,
            Phase::OpeningSocket(_) => ConnectStep::OpenSocket,
            Phase::Joining(id) => ConnectStep::JoinGroup(id),
            Phase::Over { connected } => ConnectStep::Finished { connected },
        }
    }

    /// Whether the attempt is over, and how it ended.
    pub fn outcome(&self) -> (outcome: Option<bool>)
        ensures
            match self.phase() {
                Phase::Over { connected } => outcome == Some(connected),
                _ => outcome is None,
            },
    {
        match self.phase {
            Phase::Over { connected } => Some(connected),
            _ => None,
        }
    }

    /// Takes in how the current step ended and says which step is next.
    pub fn advance(&mut self, result: StepResult) -> (step: ConnectStep)
        ensures
            final(self).phase() == spec_next_phase(old(self).phase(), result),
            step == spec_step_of(final(self).phase()),
    {
        let next: Phase = match self.phase {
            Phase::ResolvingKept => match result {
                StepResult::Resolved(id) => Phase::OpeningSocket(id),
                _ => Phase::Creating,
            },
            Phase::Creating => match result {
                StepResult::Done => Phase::ResolvingNew,
                _ => Phase::OpeningRouter,
            },
            Phase::ResolvingNew => match result {
                StepResult::Resolved(id) => Phase::OpeningSocket(id),
                _ => Phase::Over { connected: false },
            },
            Phase::OpeningRouter => match result {
                StepResult::Done => Phase::ResolvingWithRouter,
                _ => Phase::Over { connected: false },
            },
            Phase::ResolvingWithRouter => match result {
                StepResult::Resolved(id) => Phase::OpeningSocket(id),
                _ => Phase::Over { connected: false },
            },
            Phase::OpeningSocket(id) => match result {
                StepResult::Done => Phase::Joining(id),
                _ => Phase::Over { connected: false },
            },
            Phase::Joining(_) => match result {
                StepResult::Done => Phase::Over { connected: true },
                _ => Phase::Over { connected: false },
            },
            Phase::Over { connected } => Phase::Over { connected },
        };
        self.phase = next;
        self.step()
    }
}

/// An attempt ends connected only from the step that joins the group, and
/// only when that step succeeded.
pub proof fn lemma_connected_only_after_join(phase: Phase, result: StepResult)
    requires
        !(phase is Over),
    ensures
        spec_next_phase(phase, result) == (Phase::Over { connected: true }) <==> phase
            is Joining && result is Done,
{
}

/// Every step brings an attempt nearer to its end: it is over after six
/// steps at most.
pub proof fn lemma_attempt_ends(phase: Phase, result: StepResult)
    ensures
        spec_steps_left(phase) <= 6,
        !(phase is Over) ==> spec_steps_left(spec_next_phase(phase, result)) < spec_steps_left(
            phase,
        ),
        spec_steps_left(phase) == 0 <==> phase is Over,
{
}

} // verus!
