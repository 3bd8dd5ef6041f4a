//! Whether the graph and the resident workspace can answer a question about names.

use vstd::prelude::*;

verus! {

/// What a provider of names is to a caller.
#[derive(Debug, Clone, Copy, PartialEq, Eq, Structural)]
pub enum ProviderState {
    Answered,
    NotReady,
    Unavailable,
    Failed,
}

/// Where the call graph is in its life.
#[derive(Debug, Clone, PartialEq, Eq)]
pub enum GraphStatus {
    Disabled,
    Idle,
    Loading,
    Ready,
    Failed(String),
}

/// Where the resident workspace is in its life.
#[derive(Debug, Clone, PartialEq, Eq)]
pub enum DiagnosticsStatus {
    Disabled,
    Idle,
    Loading,
    Ready,
    Failed(String),
}

/// How old the state is that a read was served from.
#[derive(Debug, Clone, PartialEq, Eq)]
pub struct Freshness {
    pub revision: u64,
    pub stale: bool,
    pub reload: String,
    pub topology: u64,
}

/// What a read of the resident workspace gave.
#[derive(Debug, Clone, PartialEq, Eq)]
pub enum ResidentOutcome<R> {
    Ready(R, Freshness),
    Loading,
    Disabled,
    Failed(String),
}

/// The state of the graph as a provider.
pub open spec fn graph_state(status: GraphStatus, has_snapshot: bool) -> ProviderState {
    match status {
        GraphStatus::Ready => if has_snapshot {
            ProviderState::Answered
        } else {
            ProviderState::NotReady
        },
        GraphStatus::Idle => ProviderState::NotReady,
        GraphStatus::Loading => ProviderState::NotReady,
        GraphStatus::Failed(_) => ProviderState::Failed,
        GraphStatus::Disabled => ProviderState::Unavailable,
    }
}

/// The state of the graph as a provider: it answers only where it is ready and a snapshot of it
/// could be had.
pub fn graph_provider_state(status: &GraphStatus, has_snapshot: bool) -> (state: ProviderState)
    ensures
        state == graph_state(*status, has_snapshot),
{
    match status {
        GraphStatus::Ready => if has_snapshot {
            ProviderState::Answered
        } else {
            ProviderState::NotReady
        },
        GraphStatus::Idle => ProviderState::NotReady,
        GraphStatus::Loading => ProviderState::NotReady,
        GraphStatus::Failed(_) => ProviderState::Failed,
        GraphStatus::Disabled => ProviderState::Unavailable,
    }
}

/// The state of a resident workspace whose read handed nothing over.
pub open spec fn unread_state<R>(outcome: ResidentOutcome<R>) -> ProviderState {
    match outcome {
        ResidentOutcome::Ready(_, _) => ProviderState::NotReady,
        ResidentOutcome::Loading => ProviderState::NotReady,
        ResidentOutcome::Disabled => ProviderState::Unavailable,
        ResidentOutcome::Failed(_) => ProviderState::Failed,
    }
}

/// The state of a resident workspace whose read handed nothing over. It is never an answer.
pub fn unread_resident_state<R>(outcome: &ResidentOutcome<R>) -> (state: ProviderState)
    ensures
        state == unread_state(*outcome),
        state != ProviderState::Answered,
{
    match outcome {
        ResidentOutcome::Ready(_, _) => ProviderState::NotReady,
        ResidentOutcome::Loading => ProviderState::NotReady,
        ResidentOutcome::Disabled => ProviderState::Unavailable,
        ResidentOutcome::Failed(_) => ProviderState::Failed,
    }
}

/// The state of the workspace for an answer that was made without it: that of the read, where
/// there was one, and else the one before.
pub fn fallback_workspace_state<R>(
    before_read: ProviderState,
    read: Option<&ResidentOutcome<R>>,
) -> (state: ProviderState)
    ensures
        state == match read {
            None => before_read,
            Some(outcome) => unread_state(*outcome),
        },
{
    match read {
        None => before_read,
        Some(outcome) => unread_resident_state(outcome),
    }
}

/// The state of the resident workspace as a provider.
pub open spec fn resident_state(status: DiagnosticsStatus) -> ProviderState {
    match status {
        DiagnosticsStatus::Ready => ProviderState::Answered,
        DiagnosticsStatus::Idle => ProviderState::NotReady,
        DiagnosticsStatus::Loading => ProviderState::NotReady,
        DiagnosticsStatus::Failed(_) => ProviderState::Failed,
        DiagnosticsStatus::Disabled => ProviderState::Unavailable,
    }
}

/// The state of the resident workspace as a provider.
pub fn resident_provider_state(status: &DiagnosticsStatus) -> (state: ProviderState)
    ensures
        state == resident_state(*status),
{
    match status {
        DiagnosticsStatus::Ready => ProviderState::Answered,
        DiagnosticsStatus::Idle => ProviderState::NotReady,
        DiagnosticsStatus::Loading => ProviderState::NotReady,
        DiagnosticsStatus::Failed(_) => ProviderState::Failed,
        DiagnosticsStatus::Disabled => ProviderState::Unavailable,
    }
}

/// The source of names that the graph is to a question: its snapshot where it answers, and else
/// the state that says why it does not.
#[derive(Debug, Clone, PartialEq, Eq)]
pub enum GraphNameSource<S> {
    Answering(S),
    Absent(ProviderState),
}

/// The graph as a source of names.
pub fn graph_name_source<S>(snapshot: Option<S>, status: &GraphStatus) -> (source: GraphNameSource<
    S,
>)
    ensures
        source == match (snapshot, *status) {
            (Some(graph), GraphStatus::Ready) => GraphNameSource::Answering(graph),
            _ => GraphNameSource::Absent(graph_state(*status, snapshot is Some)),
        },
{
    match snapshot {
        Some(graph) => match graph_provider_state(status, true) {
            ProviderState::Answered => GraphNameSource::Answering(graph),
            state => GraphNameSource::Absent(state),
        },
        None => GraphNameSource::Absent(graph_provider_state(status, false)),
    }
}

/// Which reading a question about names is answered from.
#[derive(Debug, Clone, PartialEq, Eq)]
pub enum NameReading<R> {
    /// The resident workspace handed its answer over.
    Resident(R),
    /// The question is asked of an empty workspace, which is presented as this.
    Detached(ProviderState),
}

/// The next step of a question about names.
#[derive(Debug, Clone, PartialEq, Eq)]
pub enum NameStep<R> {
    /// Read the resident workspace.
    ReadResident(AwaitNameRead),
    Answer(NameReading<R>),
}

/// A question about names whose workspace looked ready.
#[derive(Debug, Clone, Copy, PartialEq, Eq, Structural)]
pub struct AwaitNameRead {
    pub before_read: ProviderState,
}

/// The first step of a question about names.
pub open spec fn first_name_step<R>(status: DiagnosticsStatus) -> NameStep<R> {
    if resident_state(status) == ProviderState::Answered {
        NameStep::ReadResident(AwaitNameRead { before_read: ProviderState::Answered })
    } else {
        NameStep::Answer(NameReading::Detached(resident_state(status)))
    }
}

/// Starts a question about names. The resident workspace is read only where it looks ready; it
/// is never waited for.
pub fn resolve_names<R>(status: &DiagnosticsStatus) -> (step: NameStep<R>)
    ensures
        step == first_name_step::<R>(*status),
{
    let before_read: ProviderState = resident_provider_state(status);
    match before_read {
        ProviderState::Answered => NameStep::ReadResident(AwaitNameRead { before_read }),
        _ => NameStep::Answer(
            NameReading::Detached(fallback_workspace_state(before_read, None::<&ResidentOutcome<R>>)),
        ),
    }
}

impl AwaitNameRead {
    pub open spec fn reading<R>(self, read: ResidentOutcome<R>) -> NameReading<R> {
        match read {
            ResidentOutcome::Ready(answer, _) => NameReading::Resident(answer),
            outcome => NameReading::Detached(unread_state(outcome)),
        }
    }

    /// The workspace handed its answer over, or it did not: what it looked like before the read
    /// counts no more.
    pub fn answer<R>(self, read: ResidentOutcome<R>) -> (reading: NameReading<R>)
        ensures
            reading == self.reading(read),
    {
        let state: ProviderState = fallback_workspace_state(self.before_read, Some(&read));
        match read {
            ResidentOutcome::Ready(answer, _) => NameReading::Resident(answer),
            _ => NameReading::Detached(state),
        }
    }
}

/// A whole question about names: what the workspace looked like, and what its read gives.
pub open spec fn whole_reading<R>(
    status: DiagnosticsStatus,
    read: ResidentOutcome<R>,
) -> NameReading<R> {
    match first_name_step::<R>(status) {
        NameStep::ReadResident(ask) => ask.reading(read),
        NameStep::Answer(reading) => reading,
    }
}

/// An empty workspace is never presented as one that answered, however the workspace changes
/// between the look at it and its read: what was not read is no proof that there is nothing.
pub proof fn an_empty_workspace_never_answers<R>(
    status: DiagnosticsStatus,
    read: ResidentOutcome<R>,
)
    ensures
        whole_reading(status, read) matches NameReading::Detached(state) ==> state
            != ProviderState::Answered,
        whole_reading(status, read) is Resident <==> status is Ready && read is Ready,
{
}

/// What an answer about names leaves open: with files that could not be read, the search was not
/// exhaustive.
pub fn names_left_open(unread_files: usize) -> (reason: Option<&'static str>)
    ensures
        unread_files == 0 ==> reason is None,
        unread_files > 0 ==> (reason matches Some(text) && text@
            == "some workspace files could not be read, so the search was not exhaustive"@),
{
    if unread_files > 0 {
        Some("some workspace files could not be read, so the search was not exhaustive")
    } else {
        None
    }
}

/// What an answer of the graph leaves open: modules that could not be read are not in it.
pub fn graph_left_open(unread_files: usize) -> (reason: Option<&'static str>)
    ensures
        unread_files == 0 ==> reason is None,
        unread_files > 0 ==> (reason matches Some(text) && text@
            == "some workspace modules could not be read when the graph was built"@),
{
    if unread_files > 0 {
        Some("some workspace modules could not be read when the graph was built")
    } else {
        None
    }
}

/// The graph answers exactly where it is ready and a snapshot could be had. A graph that failed or
/// is switched off says so, and every other one is not ready yet.
pub proof fn only_a_ready_graph_with_a_snapshot_answers(
    status: GraphStatus,
    has_snapshot: bool,
    state: ProviderState,
)
    requires
        call_ensures(graph_provider_state, (&status, has_snapshot), state),
    ensures
        state is Answered <==> status is Ready && has_snapshot,
        state is Failed <==> status is Failed,
        state is Unavailable <==> status is Disabled,
        state is NotReady <==> status is Idle || status is Loading || (status is Ready
            && !has_snapshot),
{
}

/// A read that handed nothing over is no answer: it says that the workspace is switched off, or
/// failed, and else that it is not ready, also where it has become ready since. Where nothing was
/// read, what was known before stands.
pub proof fn a_read_that_handed_nothing_over_is_no_answer<R>(
    outcome: ResidentOutcome<R>,
    before_read: ProviderState,
    unread: ProviderState,
    with_read: ProviderState,
    without_read: ProviderState,
)
    requires
        call_ensures(unread_resident_state::<R>, (&outcome,), unread),
        call_ensures(fallback_workspace_state::<R>, (before_read, Some(&outcome)), with_read),
        call_ensures(
            fallback_workspace_state::<R>,
            (before_read, None::<&ResidentOutcome<R>>),
            without_read,
        ),
    ensures
        unread is NotReady <==> outcome is Ready || outcome is Loading,
        unread is Unavailable <==> outcome is Disabled,
        unread is Failed <==> outcome is Failed,
        with_read == unread,
        without_read == before_read,
{
}

/// The resident workspace answers exactly where it is ready. One that failed or is switched off
/// says so, and every other one is not ready yet.
pub proof fn only_a_ready_workspace_answers(status: DiagnosticsStatus, state: ProviderState)
    requires
        call_ensures(resident_provider_state, (&status,), state),
    ensures
        state is Answered <==> status is Ready,
        state is Failed <==> status is Failed,
        state is Unavailable <==> status is Disabled,
        state is NotReady <==> status is Idle || status is Loading,
{
}

/// The graph is a source of names exactly where it is ready and has a snapshot, and then it is that
/// snapshot. Else it says why it is none.
pub proof fn a_ready_snapshot_is_a_source_of_names<S>(
    snapshot: Option<S>,
    status: GraphStatus,
    source: GraphNameSource<S>,
)
    requires
        call_ensures(graph_name_source::<S>, (snapshot, &status), source),
    ensures
        source is Answering <==> snapshot is Some && status is Ready,
        source matches GraphNameSource::Answering(graph) ==> snapshot == Some(graph),
        source matches GraphNameSource::Absent(state) ==> {
            &&& state is Failed <==> status is Failed
            &&& state is Unavailable <==> status is Disabled
            &&& state is NotReady <==> status is Idle || status is Loading || status is Ready
        },
{
}

/// The workspace is read exactly where it looks ready, and what it hands over is the answer. Else
/// names are looked up without it, and the answer says why.
pub proof fn names_are_read_from_a_ready_workspace<R>(
    status: DiagnosticsStatus,
    step: NameStep<R>,
    ask: AwaitNameRead,
    read: ResidentOutcome<R>,
    reading: NameReading<R>,
)
    requires
        call_ensures(resolve_names::<R>, (&status,), step),
        call_ensures(AwaitNameRead::answer::<R>, (ask, read), reading),
    ensures
        step is ReadResident <==> status is Ready,
        step matches NameStep::Answer(NameReading::Detached(state)) ==> {
            &&& state is Failed <==> status is Failed
            &&& state is Unavailable <==> status is Disabled
            &&& state is NotReady <==> status is Idle || status is Loading
        },
        !(status is Ready) ==> (step matches NameStep::Answer(given) && given is Detached),
        read matches ResidentOutcome::Ready(answer, _) ==> (reading matches NameReading::Resident(
            given,
        ) && given == answer),
        !(read is Ready) ==> (reading matches NameReading::Detached(state) && {
            &&& state is NotReady <==> read is Loading
            &&& state is Unavailable <==> read is Disabled
            &&& state is Failed <==> read is Failed
        }),
{
}

/// What could not be read is said to be left open, and nothing is where everything could be.
pub proof fn what_could_not_be_read_is_left_open(
    unread_files: usize,
    names: Option<&'static str>,
    graph: Option<&'static str>,
)
    requires
        call_ensures(names_left_open, (unread_files,), names),
        call_ensures(graph_left_open, (unread_files,), graph),
    ensures
        names is Some <==> unread_files > 0,
        graph is Some <==> unread_files > 0,
        names matches Some(text) ==> text@
            == "some workspace files could not be read, so the search was not exhaustive"@,
        graph matches Some(text) ==> text@
            == "some workspace modules could not be read when the graph was built"@,
{
}

} // verus!
