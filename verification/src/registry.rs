//! Which pane a session reports to.
//!
//! One server process can drive sessions in many panes, so its own environment
//! cannot tell them apart. Each client hands over its terminal environment when
//! it subscribes, and the registry keeps what that says of the session. A
//! session that is not registered falls back to the process environment, which
//! is right where client and server are one process.

use crate::environment::{
    self, env_lookup, is_truthy, ProcessEnv, HERDR_ENV, HERDR_PANE_ID, HERDR_SOCKET_PATH,
};
use crate::text;
use vstd::hash_map::StringHashMap;
use vstd::prelude::*;
use vstd::slice::slice_to_vec;
use vstd::utf8::*;

verus! {

/// Where the reports of a session go: the pane that they are about, and the
/// socket that takes them. The path is kept as bytes, as Unix paths are.
#[derive(Debug)]
pub struct HerdrIdentity {
    pub pane_id: String,
    pub socket_path: Vec<u8>,
}

/// Mathematical content of a `HerdrIdentity`.
pub ghost struct IdentityView {
    pub pane_id: Seq<char>,
    pub socket_path: Seq<u8>,
}

impl View for HerdrIdentity {
    type V = IdentityView;

    open spec fn view(&self) -> IdentityView {
        IdentityView { pane_id: self.pane_id@, socket_path: self.socket_path@ }
    }
}

impl Clone for HerdrIdentity {
    fn clone(&self) -> (copy: HerdrIdentity)
        ensures
            copy@ == self@,
            copy.pane_id@ == self.pane_id@,
            copy.socket_path@ == self.socket_path@,
    {
        let socket_path = self.socket_path.clone();
        assert(socket_path@ =~= self.socket_path@);
        HerdrIdentity { pane_id: self.pane_id.clone(), socket_path }
    }
}

/// The content of an identity that may be missing.
pub open spec fn identity_view(identity: Option<HerdrIdentity>) -> Option<IdentityView> {
    match identity {
        Some(id) => Some(id@),
        None => None,
    }
}

/// The identities of the registered sessions, by session id.
pub struct SessionRegistry {
    sessions: StringHashMap<HerdrIdentity>,
}

impl View for SessionRegistry {
    type V = Map<Seq<char>, IdentityView>;

    closed spec fn view(&self) -> Map<Seq<char>, IdentityView> {
        self.sessions@.map_values(|id: HerdrIdentity| id@)
    }
}

impl SessionRegistry {
    /// Creates a registry without sessions.
    pub fn new() -> (registry: SessionRegistry)
        ensures
            registry@ == Map::<Seq<char>, IdentityView>::empty(),
    {
        let registry = SessionRegistry { sessions: StringHashMap::new() };
        assert(registry@ =~= Map::empty());
        registry
    }

    fn insert(&mut self, session_id: &str, identity: HerdrIdentity)
        ensures
            final(self)@ == old(self)@.insert(session_id@, identity@),
    {
        self.sessions.insert(session_id.to_owned(), identity);
        assert(self@ =~= old(self)@.insert(session_id@, identity@));
    }

    fn remove(&mut self, session_id: &str)
        ensures
            final(self)@ == old(self)@.remove(session_id@),
    {
        self.sessions.remove(session_id);
        assert(self@ =~= old(self)@.remove(session_id@));
    }

    fn get(&self, session_id: &str) -> (identity: Option<HerdrIdentity>)
        ensures
            identity_view(identity) == registered(self@, session_id@),
    {
        match self.sessions.get(session_id) {
            Some(identity) => Some(identity.clone()),
            None => None,
        }
    }
}

/// What a registry holds of a session.
pub open spec fn registered(
    sessions: Map<Seq<char>, IdentityView>,
    session_id: Seq<char>,
) -> Option<IdentityView> {
    if sessions.contains_key(session_id) {
        Some(sessions[session_id])
    } else {
        None
    }
}

/// What became of a request to register a session.
#[derive(Debug, Clone, Copy, PartialEq, Eq, Structural)]
pub enum Registration {
    /// The session reports to the pane and the socket of its terminal.
    Registered,
    /// Skipped: the terminal has no `HERDR_PANE_ID`.
    NoPaneId,
    /// Skipped: the terminal has no `HERDR_ENV`.
    NoHerdrEnv,
    /// Skipped: the terminal's `HERDR_ENV` is not a yes-word.
    HerdrEnvNotTruthy,
    /// Skipped: the terminal has no `HERDR_SOCKET_PATH`.
    NoSocketPath,
}

/// What a terminal with these variables gets: the first check that fails
/// decides.
pub open spec fn registration(vars: Seq<(Seq<char>, Seq<char>)>) -> Registration {
    if environment::lookup(vars, HERDR_PANE_ID@) is None {
        Registration::NoPaneId
    } else if environment::lookup(vars, HERDR_ENV@) is None {
        Registration::NoHerdrEnv
    } else if !environment::truthy(environment::lookup(vars, HERDR_ENV@)->0) {
        Registration::HerdrEnvNotTruthy
    } else if environment::lookup(vars, HERDR_SOCKET_PATH@) is None {
        Registration::NoSocketPath
    } else {
        Registration::Registered
    }
}

/// The identity that the variables of a terminal name. An empty pane id or
/// path counts as given.
pub open spec fn terminal_identity(vars: Seq<(Seq<char>, Seq<char>)>) -> IdentityView {
    IdentityView {
        pane_id: environment::lookup(vars, HERDR_PANE_ID@)->0,
        socket_path: encode_utf8(environment::lookup(vars, HERDR_SOCKET_PATH@)->0),
    }
}

/// The sessions once a client has asked to register one.
pub open spec fn after_register(
    sessions: Map<Seq<char>, IdentityView>,
    session_id: Seq<char>,
    vars: Seq<(Seq<char>, Seq<char>)>,
) -> Map<Seq<char>, IdentityView> {
    if registration(vars) == Registration::Registered {
        sessions.insert(session_id, terminal_identity(vars))
    } else {
        sessions
    }
}

/// Records the pane and the socket of a session, as the client's terminal
/// environment gives them. A later call overwrites what an earlier one
/// recorded, so a session that is resumed in another pane moves there. A
/// terminal that is not under Herdr leaves the registry as it was.
pub fn register_session(
    registry: &mut SessionRegistry,
    session_id: &str,
    terminal_env: &[(String, String)],
) -> (outcome: Registration)
    ensures
        outcome == registration(environment::variables(terminal_env@)),
        final(registry)@ == after_register(
            old(registry)@,
            session_id@,
            environment::variables(terminal_env@),
        ),
        // The outcome, told from the pairs.
        outcome is NoPaneId <==> forall|i: int|
            0 <= i < terminal_env@.len() ==> (#[trigger] terminal_env@[i]).0@ != "HERDR_PANE_ID"@,
        outcome is NoHerdrEnv <==> outcome !is NoPaneId && forall|i: int|
            0 <= i < terminal_env@.len() ==> (#[trigger] terminal_env@[i]).0@ != "HERDR_ENV"@,
        forall|i: int|
            0 <= i < terminal_env@.len() && (#[trigger] terminal_env@[i]).0@ == "HERDR_ENV"@ && (
            forall|j: int| 0 <= j < i ==> (#[trigger] terminal_env@[j]).0@ != "HERDR_ENV"@) ==> (
            outcome is HerdrEnvNotTruthy <==> outcome !is NoPaneId && !environment::truthy(
                terminal_env@[i].1@,
            )),
        outcome is NoSocketPath <==> outcome !is NoPaneId && outcome !is NoHerdrEnv && outcome
            !is HerdrEnvNotTruthy && forall|i: int|
            0 <= i < terminal_env@.len() ==> (#[trigger] terminal_env@[i]).0@
                != "HERDR_SOCKET_PATH"@,
        // What is recorded, told from the pairs.
        outcome !is Registered ==> final(registry)@ == old(registry)@,
        outcome is Registered ==> {
            &&& final(registry)@ == old(registry)@.insert(
                session_id@,
                final(registry)@[session_id@],
            )
            &&& forall|i: int|
                0 <= i < terminal_env@.len() && (#[trigger] terminal_env@[i]).0@
                    == "HERDR_PANE_ID"@ && (forall|j: int|
                    0 <= j < i ==> (#[trigger] terminal_env@[j]).0@ != "HERDR_PANE_ID"@)
                    ==> final(registry)@[session_id@].pane_id == terminal_env@[i].1@
            &&& forall|i: int|
                0 <= i < terminal_env@.len() && (#[trigger] terminal_env@[i]).0@
                    == "HERDR_SOCKET_PATH"@ && (forall|j: int|
                    0 <= j < i ==> (#[trigger] terminal_env@[j]).0@ != "HERDR_SOCKET_PATH"@)
                    ==> final(registry)@[session_id@].socket_path == encode_utf8(
                    terminal_env@[i].1@,
                )
        },
{
    let pane_id = match env_lookup(terminal_env, HERDR_PANE_ID) {
        Some(value) => value,
        None => return Registration::NoPaneId,
    };
    let env_value = match env_lookup(terminal_env, HERDR_ENV) {
        Some(value) => value,
        None => return Registration::NoHerdrEnv,
    };
    if !is_truthy(env_value.as_str()) {
        return Registration::HerdrEnvNotTruthy;
    }
    let socket_path = match env_lookup(terminal_env, HERDR_SOCKET_PATH) {
        Some(value) => value,
        None => return Registration::NoSocketPath,
    };
    let identity = HerdrIdentity {
        pane_id,
        socket_path: slice_to_vec(socket_path.as_str().as_bytes()),
    };
    registry.insert(session_id, identity);
    Registration::Registered
}

/// Drops what is recorded of a session.
pub fn unregister_session(registry: &mut SessionRegistry, session_id: &str)
    ensures
        final(registry)@ == old(registry)@.remove(session_id@),
{
    registry.remove(session_id);
}

/// The identity that the process environment names: only under Herdr, and only
/// with both a pane and a socket.
pub open spec fn env_identity(env: environment::EnvView) -> Option<IdentityView> {
    match (env.usable_pane_id(), env.usable_socket_path()) {
        (Some(pane_id), Some(socket_path)) if env.under_herdr() => Some(
            IdentityView { pane_id, socket_path },
        ),
        _ => None,
    }
}

/// Where the reports of a session go: to what the registry holds of it, or
/// else to what the process environment names.
pub open spec fn resolved(
    sessions: Map<Seq<char>, IdentityView>,
    env: environment::EnvView,
    session_id: Option<Seq<char>>,
) -> Option<IdentityView> {
    match session_id {
        Some(id) if sessions.contains_key(id) => Some(sessions[id]),
        _ => env_identity(env),
    }
}

/// Finds where the reports of a session go. The registry comes first, so
/// sessions that share a server report to their own panes.
pub fn resolve_identity(
    registry: &SessionRegistry,
    env: &ProcessEnv,
    session_id: Option<&str>,
) -> (identity: Option<HerdrIdentity>)
    ensures
        identity_view(identity) == resolved(
            registry@,
            env@,
            text::str_view(session_id),
        ),
        session_id matches Some(id) ==> registry@.contains_key(id@) ==> {
            &&& identity matches Some(found)
            &&& found.pane_id@ == registry@[id@].pane_id
            &&& found.socket_path@ == registry@[id@].socket_path
        },
        !(session_id matches Some(id) && registry@.contains_key(id@)) ==> {
            &&& identity is Some <==> {
                &&& env.herdr_env matches Some(value) && environment::truthy(value@)
                &&& env.pane_id matches Some(pane) && pane@.len() > 0
                &&& env.socket_path matches Some(path) && path@.len() > 0
            }
            &&& identity matches Some(found) ==> {
                &&& found.pane_id@ == env.pane_id->0@
                &&& found.socket_path@ == env.socket_path->0@
            }
        },
{
    if let Some(id) = session_id {
        if let Some(identity) = registry.get(id) {
            return Some(identity);
        }
    }
    if env.env_is_truthy() {
        if let (Some(pane_id), Some(socket_path)) = (env.pane_id(), env.socket_path()) {
            return Some(HerdrIdentity { pane_id, socket_path });
        }
    }
    None
}

/// Tells whether the reports of a session go anywhere.
pub fn enabled_for_session(registry: &SessionRegistry, env: &ProcessEnv, session_id: &str) -> (on:
    bool)
    ensures
        on == (resolved(registry@, env@, Some(session_id@)) is Some),
        on <==> (registry@.contains_key(session_id@) || {
            &&& env.herdr_env matches Some(value) && environment::truthy(value@)
            &&& env.pane_id matches Some(pane) && pane@.len() > 0
            &&& env.socket_path matches Some(path) && path@.len() > 0
        }),
{
    resolve_identity(registry, env, Some(session_id)).is_some()
}

} // verus!
