//! What the tools share: the connections to running infobases, the roots of the workspace, and
//! what still works in the background.

use crate::embed_flight::SemanticRuntimeStatus;
use crate::ordered::{
    lemma_insert_keeps_order, name_lt, name_order_is_irreflexive, name_order_is_total, place_of,
    sorted_names,
};
use crate::text::{join, joined, same_text, views};
use vstd::prelude::*;

verus! {

/// A client of a running infobase, and whether code may be executed through it.
#[derive(Debug, Clone, PartialEq, Eq)]
pub struct OnecConnection<C> {
    pub client: C,
    pub allow_execute: bool,
}

impl<C> OnecConnection<C> {
    pub fn new(client: C, allow_execute: bool) -> (connection: Self)
        ensures
            connection.client == client,
            connection.allow_execute == allow_execute,
    {
        OnecConnection { client, allow_execute }
    }

    pub fn client(&self) -> (client: &C)
        ensures
            *client == self.client,
    {
        &self.client
    }

    pub fn allow_execute(&self) -> (allowed: bool)
        ensures
            allowed == self.allow_execute,
    {
        self.allow_execute
    }
}

/// A copy of a connection: the same policy, and a clone of the client.
pub open spec fn carries<C: Clone>(copy: OnecConnection<C>, original: OnecConnection<C>) -> bool {
    copy.allow_execute == original.allow_execute && cloned(original.client, copy.client)
}

/// Where the search of the platform reference is in its life.
#[derive(Debug, Clone, PartialEq, Eq)]
pub enum ReferenceSearchLifecycle {
    Uninitialized,
    Loading,
    Ready,
    Failed { message: String, reason_code: String },
}

/// What the process still works on.
#[derive(Debug, Clone, Copy, PartialEq, Eq, Structural)]
pub struct BackgroundWork {
    pub workspace_search_initializing: bool,
    pub reference_loading: bool,
    pub index_active: bool,
}

/// The parts of the state, in the order in which they are shut down.
#[derive(Debug, Clone, Copy, PartialEq, Eq, Structural)]
pub enum ShutdownStep {
    ReferenceSearch,
    Baseline,
    Diagnostics,
    OverlayRetry,
    WorkspaceLease,
}

/// The state that the tools share.
pub struct SharedState<C> {
    workspace_root: Option<String>,
    source_root: Option<String>,
    onec_client: Option<C>,
    connection_names: Vec<String>,
    connections: Vec<OnecConnection<C>>,
    has_overlay_retry: bool,
    work: BackgroundWork,
}

/// The text of a server without any connection.
pub open spec fn unconfigured_text() -> Seq<char> {
    "1C HTTP клиент не настроен. Укажите --onec-url или BSL_ONEC_CONNECTIONS_FILE."@
}

/// The text of a name that no connection has.
pub open spec fn unknown_connection_text(name: Seq<char>, available: Seq<Seq<char>>) -> Seq<char> {
    if available.len() == 0 {
        "Unknown 1C connection '"@ + name
            + "'. No named connections are configured; omit `connection` to use the --onec-url client."@
    } else {
        "Unknown 1C connection '"@ + name + "'. Available: "@ + joined(available, ", "@)
    }
}

/// The text of a request that must name its connection.
pub open spec fn connection_required_text(available: Seq<Seq<char>>) -> Seq<char> {
    "1C connection is required. Available: "@ + joined(available, ", "@)
}

/// In a sorted list a name stands in one place.
proof fn lemma_place_is_unique(names: Seq<Seq<char>>, i: int)
    requires
        sorted_names(names),
        0 <= i < names.len(),
    ensures
        names.contains(names[i]),
        names.index_of(names[i]) == i,
{
    let k = names.index_of(names[i]);
    assert(0 <= k < names.len() && names[k] == names[i]);
    if k < i {
        assert(name_lt(names[k], names[i]));
        name_order_is_irreflexive(names[i]);
    } else if i < k {
        assert(name_lt(names[i], names[k]));
        name_order_is_irreflexive(names[i]);
    }
}

impl<C> SharedState<C> {
    /// The names of the connections, sorted.
    pub closed spec fn names(&self) -> Seq<Seq<char>> {
        views(self.connection_names@)
    }

    /// The named connections.
    pub closed spec fn connections(&self) -> Map<Seq<char>, OnecConnection<C>> {
        Map::new(
            |name: Seq<char>| self.names().contains(name),
            |name: Seq<char>| self.connections@[self.names().index_of(name)],
        )
    }

    /// The client that is used where no connection is named.
    pub closed spec fn legacy_client(&self) -> Option<C> {
        self.onec_client
    }

    /// The root of the workspace.
    pub closed spec fn root(&self) -> Option<String> {
        self.workspace_root
    }

    /// The root of the sources.
    pub closed spec fn sources(&self) -> Option<String> {
        self.source_root
    }

    /// The overlay of the workspace is kept warm.
    pub closed spec fn warms_overlay(&self) -> bool {
        self.has_overlay_retry
    }

    /// What the process still works on.
    pub closed spec fn working_on(&self) -> BackgroundWork {
        self.work
    }

    /// The names are sorted and each has its connection.
    pub closed spec fn wf(&self) -> bool {
        sorted_names(self.names()) && self.connections@.len() == self.connection_names@.len()
    }

    /// A state without a workspace and without connections.
    pub fn shared() -> (state: Self)
        ensures
            state.wf(),
            state.names() == Seq::<Seq<char>>::empty(),
            state.connections() == Map::<Seq<char>, OnecConnection<C>>::empty(),
            state.legacy_client() is None,
            state.root() is None,
            state.sources() is None,
            !state.warms_overlay(),
            state.working_on() == (BackgroundWork {
                workspace_search_initializing: false,
                reference_loading: false,
                index_active: false,
            }),
    {
        let state: SharedState<C> = SharedState {
            workspace_root: None,
            source_root: None,
            onec_client: None,
            connection_names: Vec::new(),
            connections: Vec::new(),
            has_overlay_retry: false,
            work: BackgroundWork {
                workspace_search_initializing: false,
                reference_loading: false,
                index_active: false,
            },
        };
        proof {
            assert(state.names() =~= Seq::<Seq<char>>::empty());
            assert(state.connections() =~= Map::<Seq<char>, OnecConnection<C>>::empty());
        }
        state
    }

    /// The names are those of the connections, each once, in order.
    pub proof fn names_list_the_connections(&self)
        requires
            self.wf(),
        ensures
            sorted_names(self.names()),
            self.names().to_set() == self.connections().dom(),
            self.names().len() == self.connections().len(),
            self.connections().dom().finite(),
    {
        let names = self.names();
        assert forall|i: int, j: int| 0 <= i < names.len() && 0 <= j < names.len() && i
            != j implies names[i] != names[j] by {
            name_order_is_irreflexive(names[i]);
            if i < j {
                assert(name_lt(names[i], names[j]));
            } else {
                assert(name_lt(names[j], names[i]));
            }
        }
        names.unique_seq_to_set();
        assert(names.to_set() =~= self.connections().dom());
    }

    /// Adds a connection, in place of one with the same name.
    pub fn add_onec_connection(&mut self, name: String, connection: OnecConnection<C>)
        requires
            old(self).wf(),
        ensures
            final(self).wf(),
            final(self).connections() == old(self).connections().insert(name@, connection),
            final(self).legacy_client() == old(self).legacy_client(),
            final(self).root() == old(self).root(),
            final(self).sources() == old(self).sources(),
            final(self).warms_overlay() == old(self).warms_overlay(),
            final(self).working_on() == old(self).working_on(),
    {
        let place: usize = place_of(&self.connection_names, name.as_str());
        let ghost names = self.names();
        let ghost values = self.connections@;
        let ghost before = self.connections();
        if place < self.connection_names.len() && same_text(
            self.connection_names[place].as_str(),
            name.as_str(),
        ) {
            self.connections.set(place, connection);
            proof {
                assert(names[place as int] == name@);
                lemma_place_is_unique(names, place as int);
                assert forall|n: Seq<char>| names.contains(n) implies #[trigger] self.connections()[n]
                    == before.insert(name@, connection)[n] by {
                    let k = names.index_of(n);
                    assert(names[k] == n);
                }
                assert(self.connections() =~= before.insert(name@, connection));
            }
        } else {
            proof {
                if place < names.len() {
                    assert(names[place as int] == self.connection_names@[place as int]@);
                    name_order_is_total(names[place as int], name@);
                }
                assert forall|i: int| 0 <= i < place implies name_lt(#[trigger] names[i], name@) by {
                    assert(names[i] == self.connection_names@[i]@);
                }
                lemma_insert_keeps_order(names, place as int, name@);
            }
            let ghost key = name@;
            self.connection_names.insert(place, name);
            self.connections.insert(place, connection);
            proof {
                let after = self.names();
                assert(after =~= names.insert(place as int, key));
                assert forall|n: Seq<char>| after.contains(n) implies #[trigger] self.connections()[n]
                    == before.insert(key, connection)[n] by {
                    let k = after.index_of(n);
                    assert(after[k] == n);
                    lemma_place_is_unique(after, place as int);
                    if k < place {
                        assert(names[k] == n);
                        lemma_place_is_unique(names, k);
                    } else if k > place {
                        assert(names[k - 1] == n);
                        lemma_place_is_unique(names, k - 1);
                    }
                    if k != place && n == key {
                        assert(after[place as int] == n);
                    }
                }
                assert(self.connections() =~= before.insert(key, connection));
            }
        }
    }

    /// Sets the client that is used where no connection is named.
    pub fn set_onec_client(&mut self, client: C)
        requires
            old(self).wf(),
        ensures
            final(self).wf(),
            final(self).legacy_client() == Some(client),
            final(self).names() == old(self).names(),
            final(self).connections() == old(self).connections(),
            final(self).root() == old(self).root(),
            final(self).sources() == old(self).sources(),
            final(self).warms_overlay() == old(self).warms_overlay(),
            final(self).working_on() == old(self).working_on(),
    {
        self.onec_client = Some(client);
        proof {
            assert(self.connections() =~= old(self).connections());
        }
    }

    /// The client that is used where no connection is named.
    pub fn onec_client(&self) -> (client: Option<&C>)
        ensures
            match client {
                Some(client) => self.legacy_client() == Some(*client),
                None => self.legacy_client() is None,
            },
    {
        self.onec_client.as_ref()
    }

    /// Sets the root of the workspace.
    pub fn set_workspace_root(&mut self, root: String)
        requires
            old(self).wf(),
        ensures
            final(self).wf(),
            final(self).root() == Some(root),
            final(self).names() == old(self).names(),
            final(self).connections() == old(self).connections(),
            final(self).legacy_client() == old(self).legacy_client(),
            final(self).sources() == old(self).sources(),
            final(self).warms_overlay() == old(self).warms_overlay(),
            final(self).working_on() == old(self).working_on(),
    {
        self.workspace_root = Some(root);
        proof {
            assert(self.connections() =~= old(self).connections());
        }
    }

    /// The root of the workspace.
    pub fn workspace_root(&self) -> (root: Option<&String>)
        ensures
            match root {
                Some(root) => self.root() == Some(*root),
                None => self.root() is None,
            },
    {
        self.workspace_root.as_ref()
    }

    /// Sets the root of the sources.
    pub fn set_source_root(&mut self, root: String)
        requires
            old(self).wf(),
        ensures
            final(self).wf(),
            final(self).sources() == Some(root),
            final(self).names() == old(self).names(),
            final(self).connections() == old(self).connections(),
            final(self).legacy_client() == old(self).legacy_client(),
            final(self).root() == old(self).root(),
            final(self).warms_overlay() == old(self).warms_overlay(),
            final(self).working_on() == old(self).working_on(),
    {
        self.source_root = Some(root);
        proof {
            assert(self.connections() =~= old(self).connections());
        }
    }

    /// The root of the sources.
    pub fn source_root(&self) -> (root: Option<&String>)
        ensures
            match root {
                Some(root) => self.sources() == Some(*root),
                None => self.sources() is None,
            },
    {
        self.source_root.as_ref()
    }

    /// Notes what the process works on.
    pub fn set_background_work(&mut self, work: BackgroundWork)
        requires
            old(self).wf(),
        ensures
            final(self).wf(),
            final(self).working_on() == work,
            final(self).names() == old(self).names(),
            final(self).connections() == old(self).connections(),
            final(self).legacy_client() == old(self).legacy_client(),
            final(self).root() == old(self).root(),
            final(self).sources() == old(self).sources(),
            final(self).warms_overlay() == old(self).warms_overlay(),
    {
        self.work = work;
        proof {
            assert(self.connections() =~= old(self).connections());
        }
    }

    /// Notes whether the overlay of the workspace is kept warm.
    pub fn set_overlay_retry(&mut self, present: bool)
        requires
            old(self).wf(),
        ensures
            final(self).wf(),
            final(self).warms_overlay() == present,
            final(self).names() == old(self).names(),
            final(self).connections() == old(self).connections(),
            final(self).legacy_client() == old(self).legacy_client(),
            final(self).root() == old(self).root(),
            final(self).sources() == old(self).sources(),
            final(self).working_on() == old(self).working_on(),
    {
        self.has_overlay_retry = present;
        proof {
            assert(self.connections() =~= old(self).connections());
        }
    }

    /// Whether a request for fresh overlay data reaches a worker.
    pub fn request_overlay_refresh(&self) -> (kicked: bool)
        ensures
            kicked == self.warms_overlay(),
    {
        self.has_overlay_retry
    }

    /// Whether the process still works in the background. `runtime` is the semantic status, or
    /// nothing where somebody holds its lock, which counts as work.
    pub fn background_work_active(&self, runtime: Option<&SemanticRuntimeStatus>) -> (active: bool)
        ensures
            active == {
                let work = self.working_on();
                ||| work.workspace_search_initializing
                ||| work.reference_loading
                ||| work.index_active
                ||| match runtime {
                    Some(status) => status is Indexing || status is OverlaySyncing,
                    None => true,
                }
            },
    {
        let embedding: bool = match runtime {
            Some(SemanticRuntimeStatus::Indexing) => true,
            Some(SemanticRuntimeStatus::OverlaySyncing) => true,
            Some(_) => false,
            None => true,
        };
        self.work.workspace_search_initializing || self.work.reference_loading
            || self.work.index_active || embedding
    }

    /// What is shut down, in order. The lease goes last: nothing that could still write is left
    /// when another process may take the workspace.
    pub fn shutdown(&self) -> (steps: Vec<ShutdownStep>)
        ensures
            steps@ == if self.warms_overlay() {
                seq![
                    ShutdownStep::ReferenceSearch,
                    ShutdownStep::Baseline,
                    ShutdownStep::Diagnostics,
                    ShutdownStep::OverlayRetry,
                    ShutdownStep::WorkspaceLease,
                ]
            } else {
                seq![
                    ShutdownStep::ReferenceSearch,
                    ShutdownStep::Baseline,
                    ShutdownStep::Diagnostics,
                    ShutdownStep::WorkspaceLease,
                ]
            },
            steps@.last() == ShutdownStep::WorkspaceLease,
    {
        let mut steps: Vec<ShutdownStep> = Vec::new();
        steps.push(ShutdownStep::ReferenceSearch);
        steps.push(ShutdownStep::Baseline);
        steps.push(ShutdownStep::Diagnostics);
        if self.has_overlay_retry {
            steps.push(ShutdownStep::OverlayRetry);
        }
        steps.push(ShutdownStep::WorkspaceLease);
        steps
    }

    /// The connection that a request means: the one that it names, the legacy client where it
    /// names none, or the only one there is.
    pub fn onec_connection(&self, name: Option<&str>) -> (result: Result<
        OnecConnection<C>,
        String,
    >) where C: Clone
        requires
            self.wf(),
        ensures
            match name {
                Some(name) => if self.connections().contains_key(name@) {
                    result matches Ok(found) && carries(found, self.connections()[name@])
                } else {
                    result matches Err(text) && text@ == unknown_connection_text(
                        name@,
                        self.names(),
                    )
                },
                None => match self.legacy_client() {
                    Some(client) => result matches Ok(found) && cloned(client, found.client)
                        && found.allow_execute,
                    None => if self.connections().len() == 1 {
                        result matches Ok(found) && forall|only: Seq<char>| #[trigger]
                            self.connections().contains_key(only) ==> carries(
                                found,
                                self.connections()[only],
                            )
                    } else if self.connections().len() == 0 {
                        result matches Err(text) && text@ == unconfigured_text()
                    } else {
                        result matches Err(text) && text@ == connection_required_text(self.names())
                    },
                },
            },
    {
        if let Some(name) = name {
            let place: usize = place_of(&self.connection_names, name);
            if place < self.connection_names.len() && same_text(
                self.connection_names[place].as_str(),
                name,
            ) {
                proof {
                    assert(self.names()[place as int] == name@);
                    lemma_place_is_unique(self.names(), place as int);
                }
                return Ok(self.copy_of(place));
            }
            proof {
                assert forall|k: int| 0 <= k < self.names().len() implies self.names()[k]
                    != name@ by {
                    assert(self.names()[k] == self.connection_names@[k]@);
                    if k < place {
                        name_order_is_irreflexive(name@);
                    } else if k > place {
                        assert(name_lt(self.names()[place as int], self.names()[k]));
                    }
                }
            }
            let mut text: String = "Unknown 1C connection '".to_owned();
            text.append(name);
            if self.connection_names.len() == 0 {
                text.append(
                    "'. No named connections are configured; omit `connection` to use the --onec-url client.",
                );
            } else {
                text.append("'. Available: ");
                text.append(join(&self.connection_names, ", ").as_str());
            }
            return Err(text);
        }
        if let Some(client) = &self.onec_client {
            return Ok(OnecConnection::new(client.clone(), true));
        }
        proof {
            self.names_list_the_connections();
        }
        if self.connections.len() == 1 {
            proof {
                lemma_place_is_unique(self.names(), 0);
                assert forall|only: Seq<char>| #[trigger]
                    self.connections().contains_key(only) implies only == self.names()[0] by {
                    assert(self.names().contains(only));
                }
            }
            return Ok(self.copy_of(0));
        }
        if self.connections.len() == 0 {
            return Err(
                "1C HTTP клиент не настроен. Укажите --onec-url или BSL_ONEC_CONNECTIONS_FILE.".to_owned(),
            );
        }
        let mut text: String = "1C connection is required. Available: ".to_owned();
        text.append(join(&self.connection_names, ", ").as_str());
        Err(text)
    }

    fn copy_of(&self, place: usize) -> (copy: OnecConnection<C>) where C: Clone
        requires
            place < self.connections@.len(),
        ensures
            carries(copy, self.connections@[place as int]),
    {
        let found: &OnecConnection<C> = &self.connections[place];
        OnecConnection::new(found.client.clone(), found.allow_execute)
    }
}

/// A connection keeps its client and its policy.
pub proof fn a_connection_keeps_its_policy<C>(
    client: C,
    allowed: bool,
    made: OnecConnection<C>,
    connection: OnecConnection<C>,
    given: &C,
    allows: bool,
)
    requires
        call_ensures(OnecConnection::<C>::new, (client, allowed), made),
        call_ensures(OnecConnection::<C>::client, (&connection,), given),
        call_ensures(OnecConnection::<C>::allow_execute, (&connection,), allows),
    ensures
        made.client == client,
        made.allow_execute == allowed,
        *given == connection.client,
        allows == connection.allow_execute,
{
}

/// A connection that was added is there under its name, with its own client and policy, and every
/// other one stays as it was.
pub proof fn an_added_connection_is_there_under_its_name<C>(
    name: String,
    connection: OnecConnection<C>,
)
    ensures
        forall|state: &mut SharedState<C>|
            state.wf() && #[trigger] call_ensures(
                SharedState::<C>::add_onec_connection,
                (state, name, connection),
                (),
            ) ==> {
                &&& final(state).wf()
                &&& final(state).connections().contains_key(name@)
                &&& final(state).connections()[name@] == connection
                &&& forall|other: Seq<char>|
                    other != name@ ==> (#[trigger] final(state).connections().contains_key(other)
                        <==> state.connections().contains_key(other))
                &&& forall|other: Seq<char>|
                    other != name@ && state.connections().contains_key(other)
                        ==> #[trigger] final(state).connections()[other]
                        == state.connections()[other]
                &&& final(state).legacy_client() == state.legacy_client()
                &&& final(state).root() == state.root()
                &&& final(state).sources() == state.sources()
                &&& final(state).warms_overlay() == state.warms_overlay()
                &&& final(state).working_on() == state.working_on()
            },
{
}

/// A request that names a connection gets that one, with its own policy, and is told the names that
/// there are where it names none of them.
pub proof fn a_named_connection_is_the_one_that_is_meant<C: Clone>(
    state: SharedState<C>,
    name: &str,
    result: Result<OnecConnection<C>, String>,
)
    requires
        state.wf(),
        call_ensures(SharedState::<C>::onec_connection, (&state, Some(name)), result),
    ensures
        result is Ok <==> state.connections().contains_key(name@),
        result matches Ok(found) ==> found.allow_execute
            == state.connections()[name@].allow_execute && cloned(
            state.connections()[name@].client,
            found.client,
        ),
        result matches Err(text) ==> {
            &&& state.names().len() == 0 ==> text@ == "Unknown 1C connection '"@ + name@
                + "'. No named connections are configured; omit `connection` to use the --onec-url client."@
            &&& state.names().len() > 0 ==> text@ == "Unknown 1C connection '"@ + name@
                + "'. Available: "@ + joined(state.names(), ", "@)
        },
{
}

/// A request that names no connection gets the legacy client, through which code may be executed,
/// and without one the only connection there is, with its own policy. Where there are none or
/// several, it is told so.
pub proof fn an_unnamed_connection_is_never_guessed<C: Clone>(
    state: SharedState<C>,
    result: Result<OnecConnection<C>, String>,
)
    requires
        state.wf(),
        call_ensures(SharedState::<C>::onec_connection, (&state, None::<&str>), result),
    ensures
        result is Ok <==> state.legacy_client() is Some || state.connections().len() == 1,
        state.legacy_client() matches Some(client) ==> (result matches Ok(found) && cloned(
            client,
            found.client,
        ) && found.allow_execute),
        state.legacy_client() is None ==> (result matches Ok(found) ==> forall|only: Seq<char>|
            #[trigger] state.connections().contains_key(only) ==> found.allow_execute
                == state.connections()[only].allow_execute && cloned(
                state.connections()[only].client,
                found.client,
            )),
        result matches Err(text) ==> {
            &&& state.connections().len() == 0 ==> text@
                == "1C HTTP клиент не настроен. Укажите --onec-url или BSL_ONEC_CONNECTIONS_FILE."@
            &&& state.connections().len() > 1 ==> text@
                == "1C connection is required. Available: "@ + joined(state.names(), ", "@)
        },
{
}

/// What is set is what is read, and setting one thing leaves every other as it was.
pub proof fn setting_one_thing_leaves_the_others<C>(
    client: C,
    root: String,
    work: BackgroundWork,
    present: bool,
)
    ensures
        forall|state: &mut SharedState<C>|
            state.wf() && #[trigger] call_ensures(
                SharedState::<C>::set_onec_client,
                (state, client),
                (),
            ) ==> {
                &&& final(state).wf()
                &&& final(state).legacy_client() == Some(client)
                &&& final(state).names() == state.names()
                &&& final(state).connections() == state.connections()
                &&& final(state).root() == state.root()
                &&& final(state).sources() == state.sources()
                &&& final(state).warms_overlay() == state.warms_overlay()
                &&& final(state).working_on() == state.working_on()
            },
        forall|state: &mut SharedState<C>|
            state.wf() && #[trigger] call_ensures(
                SharedState::<C>::set_workspace_root,
                (state, root),
                (),
            ) ==> {
                &&& final(state).wf()
                &&& final(state).root() == Some(root)
                &&& final(state).legacy_client() == state.legacy_client()
                &&& final(state).names() == state.names()
                &&& final(state).connections() == state.connections()
                &&& final(state).sources() == state.sources()
                &&& final(state).warms_overlay() == state.warms_overlay()
                &&& final(state).working_on() == state.working_on()
            },
        forall|state: &mut SharedState<C>|
            state.wf() && #[trigger] call_ensures(
                SharedState::<C>::set_source_root,
                (state, root),
                (),
            ) ==> {
                &&& final(state).wf()
                &&& final(state).sources() == Some(root)
                &&& final(state).legacy_client() == state.legacy_client()
                &&& final(state).names() == state.names()
                &&& final(state).connections() == state.connections()
                &&& final(state).root() == state.root()
                &&& final(state).warms_overlay() == state.warms_overlay()
                &&& final(state).working_on() == state.working_on()
            },
        forall|state: &mut SharedState<C>|
            state.wf() && #[trigger] call_ensures(
                SharedState::<C>::set_background_work,
                (state, work),
                (),
            ) ==> {
                &&& final(state).wf()
                &&& final(state).working_on() == work
                &&& final(state).legacy_client() == state.legacy_client()
                &&& final(state).names() == state.names()
                &&& final(state).connections() == state.connections()
                &&& final(state).root() == state.root()
                &&& final(state).sources() == state.sources()
                &&& final(state).warms_overlay() == state.warms_overlay()
            },
        forall|state: &mut SharedState<C>|
            state.wf() && #[trigger] call_ensures(
                SharedState::<C>::set_overlay_retry,
                (state, present),
                (),
            ) ==> {
                &&& final(state).wf()
                &&& final(state).warms_overlay() == present
                &&& final(state).legacy_client() == state.legacy_client()
                &&& final(state).names() == state.names()
                &&& final(state).connections() == state.connections()
                &&& final(state).root() == state.root()
                &&& final(state).sources() == state.sources()
                &&& final(state).working_on() == state.working_on()
            },
{
}

/// A new state holds nothing and works on nothing, and a state tells what it holds.
pub proof fn a_state_tells_what_it_holds<C>(
    new: SharedState<C>,
    state: SharedState<C>,
    client: Option<&C>,
    root: Option<&String>,
    sources: Option<&String>,
    kicked: bool,
)
    requires
        call_ensures(SharedState::<C>::shared, (), new),
        call_ensures(SharedState::<C>::onec_client, (&state,), client),
        call_ensures(SharedState::<C>::workspace_root, (&state,), root),
        call_ensures(SharedState::<C>::source_root, (&state,), sources),
        call_ensures(SharedState::<C>::request_overlay_refresh, (&state,), kicked),
    ensures
        new.wf(),
        new.names().len() == 0,
        new.legacy_client() is None && new.root() is None && new.sources() is None,
        !new.warms_overlay(),
        !new.working_on().workspace_search_initializing && !new.working_on().reference_loading
            && !new.working_on().index_active,
        client is Some <==> state.legacy_client() is Some,
        client matches Some(given) ==> state.legacy_client() == Some(*given),
        root is Some <==> state.root() is Some,
        root matches Some(given) ==> state.root() == Some(*given),
        sources is Some <==> state.sources() is Some,
        sources matches Some(given) ==> state.sources() == Some(*given),
        kicked == state.warms_overlay(),
{
}

/// The process works in the background while any of its parts does, while it embeds or syncs the
/// overlay, and while somebody holds the status so that it cannot be read.
pub proof fn any_part_at_work_is_work<C>(
    state: SharedState<C>,
    runtime: Option<&SemanticRuntimeStatus>,
    active: bool,
)
    requires
        call_ensures(SharedState::<C>::background_work_active, (&state, runtime), active),
    ensures
        state.working_on().workspace_search_initializing ==> active,
        state.working_on().reference_loading ==> active,
        state.working_on().index_active ==> active,
        runtime is None ==> active,
        runtime matches Some(status) && (status is Indexing || status is OverlaySyncing) ==> active,
        !state.working_on().workspace_search_initializing && !state.working_on().reference_loading
            && !state.working_on().index_active && (runtime matches Some(status) && (status is Ready
            || status is Disabled || status is Failed)) ==> !active,
{
}

/// Everything that could still write is shut down before the lease is given up, the overlay worker
/// where there is one, and each part once.
pub proof fn the_lease_is_given_up_last<C>(state: SharedState<C>, steps: Vec<ShutdownStep>)
    requires
        call_ensures(SharedState::<C>::shutdown, (&state,), steps),
    ensures
        steps@.len() == if state.warms_overlay() { 5int } else { 4int },
        steps@[0] is ReferenceSearch,
        steps@[1] is Baseline,
        steps@[2] is Diagnostics,
        state.warms_overlay() ==> steps@[3] is OverlayRetry,
        steps@[steps@.len() - 1] is WorkspaceLease,
        forall|i: int| 0 <= i < steps@.len() - 1 ==> !(#[trigger] steps@[i] is WorkspaceLease),
{
}

} // verus!
