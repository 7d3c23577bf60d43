//! What a lifecycle event reports.
//!
//! Reports are fire-and-forget: each one opens the socket, writes one line and
//! closes, and the environment is read anew for each. So an event is answered
//! with a plan, a list of actions, and the caller performs them one by one,
//! each with the registry and the environment as they are at that moment, and
//! sends what comes out before it goes on to the next.

use crate::environment::{self, ProcessEnv};
use crate::registry::{
    self, enabled_for_session, resolve_identity, unregister_session, SessionRegistry,
};
use crate::state::State;
use crate::text;
use crate::wire::{self, encode_report_agent, encode_report_agent_session, frame};
use vstd::prelude::*;

verus! {

/// One report on its way: the line, and the path of the socket that takes it.
#[derive(Debug)]
pub struct Delivery {
    pub socket_path: Vec<u8>,
    pub line: String,
}

/// Mathematical content of a `Delivery`.
pub ghost struct DeliveryView {
    pub socket_path: Seq<u8>,
    pub line: Seq<char>,
}

impl View for Delivery {
    type V = DeliveryView;

    open spec fn view(&self) -> DeliveryView {
        DeliveryView { socket_path: self.socket_path@, line: self.line@ }
    }
}

impl Delivery {
    /// Returns the bytes to write to the socket: the line and its newline.
    pub fn bytes(&self) -> (bytes: Vec<u8>)
        ensures
            bytes@ == wire::framed(self@.line),
            bytes@ == vstd::utf8::encode_utf8(self.line@).push(10u8),
    {
        frame(self.line.as_str())
    }
}

/// The content of a delivery that may be missing.
pub open spec fn delivery_view(delivery: Option<Delivery>) -> Option<DeliveryView> {
    match delivery {
        Some(d) => Some(d@),
        None => None,
    }
}

/// What a state report sends, given where the reports of the session go.
pub open spec fn state_delivery(
    identity: Option<registry::IdentityView>,
    state: State,
    message: Option<Seq<char>>,
) -> Option<DeliveryView> {
    match identity {
        Some(id) => Some(
            DeliveryView {
                socket_path: id.socket_path,
                line: wire::report_agent_line(id.pane_id, state, message),
            },
        ),
        None => None,
    }
}

/// What a session report sends, given where the reports of the session go.
pub open spec fn session_delivery(
    identity: Option<registry::IdentityView>,
    session_id: Seq<char>,
) -> Option<DeliveryView> {
    match identity {
        Some(id) => Some(
            DeliveryView {
                socket_path: id.socket_path,
                line: wire::report_agent_session_line(id.pane_id, session_id),
            },
        ),
        None => None,
    }
}

/// The delivery is free of control characters, so it is one line, and reads as this state report on the pane.
pub open spec fn reads_as_state_report(
    delivery: DeliveryView,
    identity: registry::IdentityView,
    state: State,
    message: Option<Seq<char>>,
) -> bool {
    &&& wire::reads_as_request(
        delivery.line,
        wire::REPORT_AGENT@,
        wire::report_agent_object(identity.pane_id, state, message),
    )
    &&& wire::without_control_characters(delivery.line)
}

/// The delivery is free of control characters, so it is one line, and reads as this session report on the pane.
pub open spec fn reads_as_session_report(
    delivery: DeliveryView,
    identity: registry::IdentityView,
    session_id: Seq<char>,
) -> bool {
    &&& wire::reads_as_request(
        delivery.line,
        wire::REPORT_AGENT_SESSION@,
        wire::report_agent_session_object(identity.pane_id, session_id),
    )
    &&& wire::without_control_characters(delivery.line)
}

/// Reports the lifecycle state of a session's pane. Nothing is sent for a
/// session whose reports go nowhere.
pub fn report_state_for_session(
    registry: &SessionRegistry,
    env: &ProcessEnv,
    session_id: &str,
    state: State,
    message: Option<&str>,
) -> (delivery: Option<Delivery>)
    ensures
        ({
            let identity = registry::resolved(registry@, env@, Some(session_id@));
            &&& delivery_view(delivery) == state_delivery(
                identity,
                state,
                text::str_view(message),
            )
            &&& delivery matches Some(d) ==> reads_as_state_report(
                d@,
                identity->0,
                state,
                text::str_view(message),
            )
        }),
        registry::resolved(registry@, env@, Some(session_id@)) matches Some(identity)
            ==> delivery matches Some(d) && d.socket_path@ == identity.socket_path,
        delivery is Some <==> (registry@.contains_key(session_id@) || {
            &&& env.herdr_env matches Some(value) && environment::truthy(value@)
            &&& env.pane_id matches Some(pane) && pane@.len() > 0
            &&& env.socket_path matches Some(path) && path@.len() > 0
        }),
        delivery matches Some(d) ==> {
            let pane_id = if registry@.contains_key(session_id@) {
                registry@[session_id@].pane_id
            } else {
                env.pane_id->0@
            };
            &&& registry@.contains_key(session_id@) ==> d.socket_path@
                == registry@[session_id@].socket_path
            &&& !registry@.contains_key(session_id@) ==> d.socket_path@
                == env.socket_path->0@
            &&& wire::reads_as_request(
                d.line@,
                "pane.report_agent"@,
                wire::report_agent_object(pane_id, state, text::str_view(message)),
            )
        },
{
    let identity = match resolve_identity(registry, env, Some(session_id)) {
        Some(identity) => identity,
        None => return None,
    };
    let line = encode_report_agent(identity.pane_id.as_str(), state, message);
    Some(Delivery { socket_path: identity.socket_path, line })
}

/// Reports the native id of a session, so that Herdr can resume its pane.
/// Nothing is sent for a session whose reports go nowhere.
pub fn report_session_for_session(
    registry: &SessionRegistry,
    env: &ProcessEnv,
    session_id: &str,
) -> (delivery: Option<Delivery>)
    ensures
        ({
            let identity = registry::resolved(registry@, env@, Some(session_id@));
            &&& delivery_view(delivery) == session_delivery(identity, session_id@)
            &&& delivery matches Some(d) ==> reads_as_session_report(
                d@,
                identity->0,
                session_id@,
            )
        }),
        registry::resolved(registry@, env@, Some(session_id@)) matches Some(identity)
            ==> delivery matches Some(d) && d.socket_path@ == identity.socket_path,
        delivery is Some <==> (registry@.contains_key(session_id@) || {
            &&& env.herdr_env matches Some(value) && environment::truthy(value@)
            &&& env.pane_id matches Some(pane) && pane@.len() > 0
            &&& env.socket_path matches Some(path) && path@.len() > 0
        }),
        delivery matches Some(d) ==> {
            let pane_id = if registry@.contains_key(session_id@) {
                registry@[session_id@].pane_id
            } else {
                env.pane_id->0@
            };
            &&& registry@.contains_key(session_id@) ==> d.socket_path@
                == registry@[session_id@].socket_path
            &&& !registry@.contains_key(session_id@) ==> d.socket_path@
                == env.socket_path->0@
            &&& wire::reads_as_request(
                d.line@,
                "pane.report_agent_session"@,
                wire::report_agent_session_object(pane_id, session_id@),
            )
        },
{
    let identity = match resolve_identity(registry, env, Some(session_id)) {
        Some(identity) => identity,
        None => return None,
    };
    let line = encode_report_agent_session(identity.pane_id.as_str(), session_id);
    Some(Delivery { socket_path: identity.socket_path, line })
}

/// One step of the answer to a lifecycle event.
#[derive(Debug, Clone, Copy)]
pub enum Action {
    /// Report the native session id.
    ReportSession,
    /// Report a lifecycle state, with a message where there is one.
    ReportState { state: State, message: Option<&'static str> },
    /// Forget where the reports of the session go.
    Unregister,
}

/// Mathematical content of an `Action`.
pub ghost enum ActionView {
    ReportSession,
    ReportState { state: State, message: Option<Seq<char>> },
    Unregister,
}

impl View for Action {
    type V = ActionView;

    open spec fn view(&self) -> ActionView {
        match *self {
            Action::ReportSession => ActionView::ReportSession,
            Action::ReportState { state, message } => ActionView::ReportState {
                state,
                message: text::str_view(message),
            },
            Action::Unregister => ActionView::Unregister,
        }
    }
}

/// The content of a list of actions.
pub open spec fn plan_view(plan: Seq<Action>) -> Seq<ActionView> {
    plan.map_values(|action: Action| action@)
}

/// The message that goes with the first state of a session, by the way the
/// session came about.
pub open spec fn start_message(source: Seq<char>) -> Option<Seq<char>> {
    if source == "create"@ {
        Some("new session"@)
    } else if source == "resume"@ {
        Some("resumed"@)
    } else if source == "attach"@ {
        Some("attached"@)
    } else {
        None
    }
}

/// The answer to the start of a session: its id first, so that Herdr can
/// resume the pane, then `idle`.
pub open spec fn session_start_plan(source: Seq<char>) -> Seq<ActionView> {
    seq![
        ActionView::ReportSession,
        ActionView::ReportState { state: State::Idle, message: start_message(source) },
    ]
}

/// The answer to the end of a session: `done`, after which the session is
/// forgotten.
pub open spec fn session_end_plan() -> Seq<ActionView> {
    seq![
        ActionView::ReportState { state: State::Done, message: Some("session closed"@) },
        ActionView::Unregister,
    ]
}

/// The answer to the start of a turn: `working`.
pub open spec fn turn_start_plan() -> Seq<ActionView> {
    seq![ActionView::ReportState { state: State::Working, message: Some("working"@) }]
}

/// The answer to the end of a turn: `idle`, with the outcome as the message.
pub open spec fn turn_end_plan(ok: bool) -> Seq<ActionView> {
    seq![
        ActionView::ReportState {
            state: State::Idle,
            message: Some(
                if ok {
                    "ready"@
                } else {
                    "turn failed"@
                },
            ),
        },
    ]
}

/// The answer to an event: nothing at all unless the session's reports go
/// somewhere.
pub open spec fn answer(
    sessions: Map<Seq<char>, registry::IdentityView>,
    env: environment::EnvView,
    session_id: Seq<char>,
    plan: Seq<ActionView>,
) -> Seq<ActionView> {
    if registry::resolved(sessions, env, Some(session_id)) is Some {
        plan
    } else {
        Seq::empty()
    }
}

pub(crate) proof fn lemma_sources_are_distinct()
    ensures
        "create"@ != "resume"@,
        "create"@ != "attach"@,
        "resume"@ != "attach"@,
{
    reveal_strlit("create");
    reveal_strlit("resume");
    reveal_strlit("attach");
    assert("create"@[0] == 'c' && "resume"@[0] == 'r' && "attach"@[0] == 'a');
}

/// Answers the start of a session, at every create, attach and resume.
pub fn on_session_start(
    registry: &SessionRegistry,
    env: &ProcessEnv,
    session_id: &str,
    source: &str,
) -> (plan: Vec<Action>)
    ensures
        plan_view(plan@) == answer(registry@, env@, session_id@, session_start_plan(source@)),
        plan@.len() == if (registry@.contains_key(session_id@) || {
            &&& env.herdr_env matches Some(value) && environment::truthy(value@)
            &&& env.pane_id matches Some(pane) && pane@.len() > 0
            &&& env.socket_path matches Some(path) && path@.len() > 0
        }) {
            2int
        } else {
            0
        },
        plan@.len() > 0 ==> {
            &&& plan@[0] is ReportSession
            &&& plan@[1] matches Action::ReportState { state, message }
            &&& state is Idle
            &&& source@ == "create"@ ==> (message matches Some(m) && m@ == "new session"@)
            &&& source@ == "resume"@ ==> (message matches Some(m) && m@ == "resumed"@)
            &&& source@ == "attach"@ ==> (message matches Some(m) && m@ == "attached"@)
            &&& source@ != "create"@ && source@ != "resume"@ && source@ != "attach"@
                ==> message is None
        },
{
    let mut plan: Vec<Action> = Vec::new();
    if !enabled_for_session(registry, env, session_id) {
        assert(plan_view(plan@) =~= Seq::empty());
        return plan;
    }
    let message = if *source == *"create" {
        Some("new session")
    } else if *source == *"resume" {
        Some("resumed")
    } else if *source == *"attach" {
        Some("attached")
    } else {
        None
    };
    plan.push(Action::ReportSession);
    plan.push(Action::ReportState { state: State::Idle, message });
    proof {
        assert(plan_view(plan@) =~= session_start_plan(source@));
        lemma_sources_are_distinct();
    }
    plan
}

/// Answers the end of a session.
pub fn on_session_end(registry: &SessionRegistry, env: &ProcessEnv, session_id: &str) -> (plan: Vec<
    Action,
>)
    ensures
        plan_view(plan@) == answer(registry@, env@, session_id@, session_end_plan()),
        plan@.len() == if (registry@.contains_key(session_id@) || {
            &&& env.herdr_env matches Some(value) && environment::truthy(value@)
            &&& env.pane_id matches Some(pane) && pane@.len() > 0
            &&& env.socket_path matches Some(path) && path@.len() > 0
        }) {
            2int
        } else {
            0
        },
        plan@.len() > 0 ==> {
            &&& plan@[0] matches Action::ReportState { state, message }
            &&& state is Done
            &&& message matches Some(m) && m@ == "session closed"@
            &&& plan@[1] is Unregister
        },
{
    let mut plan: Vec<Action> = Vec::new();
    if !enabled_for_session(registry, env, session_id) {
        assert(plan_view(plan@) =~= Seq::empty());
        return plan;
    }
    plan.push(Action::ReportState { state: State::Done, message: Some("session closed") });
    plan.push(Action::Unregister);
    assert(plan_view(plan@) =~= session_end_plan());
    plan
}

/// Answers the start of a turn.
pub fn on_turn_start(registry: &SessionRegistry, env: &ProcessEnv, session_id: &str) -> (plan: Vec<
    Action,
>)
    ensures
        plan_view(plan@) == answer(registry@, env@, session_id@, turn_start_plan()),
        plan@.len() == if (registry@.contains_key(session_id@) || {
            &&& env.herdr_env matches Some(value) && environment::truthy(value@)
            &&& env.pane_id matches Some(pane) && pane@.len() > 0
            &&& env.socket_path matches Some(path) && path@.len() > 0
        }) {
            1int
        } else {
            0
        },
        plan@.len() > 0 ==> {
            &&& plan@[0] matches Action::ReportState { state, message }
            &&& state is Working
            &&& message matches Some(m) && m@ == "working"@
        },
{
    let mut plan: Vec<Action> = Vec::new();
    if !enabled_for_session(registry, env, session_id) {
        assert(plan_view(plan@) =~= Seq::empty());
        return plan;
    }
    plan.push(Action::ReportState { state: State::Working, message: Some("working") });
    assert(plan_view(plan@) =~= turn_start_plan());
    plan
}

/// Answers the end of a turn. `ok` tells whether the turn succeeded.
pub fn on_turn_end(
    registry: &SessionRegistry,
    env: &ProcessEnv,
    session_id: &str,
    ok: bool,
) -> (plan: Vec<Action>)
    ensures
        plan_view(plan@) == answer(registry@, env@, session_id@, turn_end_plan(ok)),
        plan@.len() == if (registry@.contains_key(session_id@) || {
            &&& env.herdr_env matches Some(value) && environment::truthy(value@)
            &&& env.pane_id matches Some(pane) && pane@.len() > 0
            &&& env.socket_path matches Some(path) && path@.len() > 0
        }) {
            1int
        } else {
            0
        },
        plan@.len() > 0 ==> {
            &&& plan@[0] matches Action::ReportState { state, message }
            &&& state is Idle
            &&& ok ==> (message matches Some(m) && m@ == "ready"@)
            &&& !ok ==> (message matches Some(m) && m@ == "turn failed"@)
        },
{
    let mut plan: Vec<Action> = Vec::new();
    if !enabled_for_session(registry, env, session_id) {
        assert(plan_view(plan@) =~= Seq::empty());
        return plan;
    }
    let message = if ok {
        "ready"
    } else {
        "turn failed"
    };
    plan.push(Action::ReportState { state: State::Idle, message: Some(message) });
    assert(plan_view(plan@) =~= turn_end_plan(ok));
    plan
}

/// What an action sends.
pub open spec fn sent_by(
    sessions: Map<Seq<char>, registry::IdentityView>,
    env: environment::EnvView,
    session_id: Seq<char>,
    action: ActionView,
) -> Option<DeliveryView> {
    let identity = registry::resolved(sessions, env, Some(session_id));
    match action {
        ActionView::ReportSession => session_delivery(identity, session_id),
        ActionView::ReportState { state, message } => state_delivery(identity, state, message),
        ActionView::Unregister => None,
    }
}

/// The sessions once an action is done.
pub open spec fn sessions_after(
    sessions: Map<Seq<char>, registry::IdentityView>,
    session_id: Seq<char>,
    action: ActionView,
) -> Map<Seq<char>, registry::IdentityView> {
    match action {
        ActionView::Unregister => sessions.remove(session_id),
        _ => sessions,
    }
}

/// Performs one action of a plan, up to the report that is then to be sent.
pub fn perform(
    registry: &mut SessionRegistry,
    env: &ProcessEnv,
    session_id: &str,
    action: Action,
) -> (delivery: Option<Delivery>)
    ensures
        final(registry)@ == sessions_after(old(registry)@, session_id@, action@),
        delivery_view(delivery) == sent_by(old(registry)@, env@, session_id@, action@),
        delivery matches Some(d) ==> ({
            let identity = registry::resolved(old(registry)@, env@, Some(session_id@))->0;
            match action@ {
                ActionView::ReportSession => reads_as_session_report(d@, identity, session_id@),
                ActionView::ReportState { state, message } => reads_as_state_report(
                    d@,
                    identity,
                    state,
                    message,
                ),
                ActionView::Unregister => false,
            }
        }),
        action is Unregister ==> final(registry)@ == old(registry)@.remove(session_id@),
        action !is Unregister ==> final(registry)@ == old(registry)@,
        delivery is Some <==> action !is Unregister && (old(registry)@.contains_key(session_id@) || {
            &&& env.herdr_env matches Some(value) && environment::truthy(value@)
            &&& env.pane_id matches Some(pane) && pane@.len() > 0
            &&& env.socket_path matches Some(path) && path@.len() > 0
        }),
        delivery matches Some(d) ==> {
            let pane_id = if old(registry)@.contains_key(session_id@) {
                old(registry)@[session_id@].pane_id
            } else {
                env.pane_id->0@
            };
            &&& old(registry)@.contains_key(session_id@) ==> d.socket_path@
                == old(registry)@[session_id@].socket_path
            &&& !old(registry)@.contains_key(session_id@) ==> d.socket_path@
                == env.socket_path->0@
            &&& (action matches Action::ReportState { state, message } ==> wire::reads_as_request(
                d.line@,
                "pane.report_agent"@,
                wire::report_agent_object(pane_id, state, text::str_view(message)),
            ))
            &&& action is ReportSession ==> wire::reads_as_request(
                d.line@,
                "pane.report_agent_session"@,
                wire::report_agent_session_object(pane_id, session_id@),
            )
        },
{
    match action {
        Action::ReportSession => report_session_for_session(registry, env, session_id),
        Action::ReportState { state, message } => report_state_for_session(
            registry,
            env,
            session_id,
            state,
            message,
        ),
        Action::Unregister => {
            unregister_session(registry, session_id);
            None
        },
    }
}

} // verus!
