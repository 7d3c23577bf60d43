//! What holds across calls: of registrations, of the fallback to the process
//! environment, and of events carried out to the end.

use crate::environment;
use crate::lifecycle;
use crate::registry;
use crate::state::State;
use crate::wire;
use vstd::prelude::*;
use vstd::utf8::*;

verus! {

/// A variable has the value of the first pair with its name, and none where no
/// pair has that name.
pub proof fn the_first_pair_wins(vars: Seq<(Seq<char>, Seq<char>)>, key: Seq<char>)
    ensures
        environment::lookup(vars, key) is None <==> forall|i: int|
            0 <= i < vars.len() ==> (#[trigger] vars[i]).0 != key,
        forall|i: int|
            0 <= i < vars.len() && (#[trigger] vars[i]).0 == key && (forall|j: int|
                0 <= j < i ==> (#[trigger] vars[j]).0 != key) ==> environment::lookup(vars, key)
                == Some(vars[i].1),
    decreases vars.len(),
{
    if vars.len() > 0 && vars.first().0 != key {
        let rest = vars.drop_first();
        the_first_pair_wins(rest, key);
        assert(forall|i: int| 0 <= i < rest.len() ==> rest[i] == #[trigger] vars[i + 1]);
        assert forall|i: int|
            0 <= i < vars.len() && (#[trigger] vars[i]).0 == key && (forall|j: int|
                0 <= j < i ==> (#[trigger] vars[j]).0 != key) implies environment::lookup(vars, key)
            == Some(vars[i].1) by {
            assert(rest[i - 1] == vars[i]);
            assert forall|j: int| 0 <= j < i - 1 implies (#[trigger] rest[j]).0 != key by {
                assert(rest[j] == vars[j + 1]);
            }
        }
        if forall|i: int| 0 <= i < rest.len() ==> (#[trigger] rest[i]).0 != key {
            assert forall|i: int| 0 <= i < vars.len() implies (#[trigger] vars[i]).0 != key by {
                if i > 0 {
                    assert(rest[i - 1] == vars[i]);
                }
            }
        } else {
            let k = choose|k: int| 0 <= k < rest.len() && (#[trigger] rest[k]).0 == key;
            assert(vars[k + 1].0 == key);
        }
    } else if vars.len() > 0 {
        assert(vars[0].0 == key);
    }
}

/// White space around the value of a variable does not matter.
pub proof fn white_space_around_a_value_does_not_matter(
    before: Seq<char>,
    value: Seq<char>,
    after: Seq<char>,
)
    requires
        forall|i: int|
            0 <= i < before.len() ==> crate::text::is_white_space(#[trigger] before[i]),
        forall|i: int| 0 <= i < after.len() ==> crate::text::is_white_space(#[trigger] after[i]),
    ensures
        environment::truthy(before + value + after) == environment::truthy(value),
{
    crate::text::trimming_ignores_outer_white_space(before, value, after);
}

/// A registered session reports to the pane and the socket of its terminal,
/// whatever the process environment says.
pub proof fn a_registered_session_reports_to_its_terminal(
    sessions: Map<Seq<char>, registry::IdentityView>,
    session_id: Seq<char>,
    vars: Seq<(Seq<char>, Seq<char>)>,
    env: environment::EnvView,
)
    requires
        registry::registration(vars) == registry::Registration::Registered,
    ensures
        registry::resolved(
            registry::after_register(sessions, session_id, vars),
            env,
            Some(session_id),
        ) == Some(registry::terminal_identity(vars)),
{
}

/// Sessions that share a server report to their own panes: each of two that
/// are registered one after the other keeps what its own terminal gave.
pub proof fn sessions_keep_their_own_panes(
    sessions: Map<Seq<char>, registry::IdentityView>,
    session_a: Seq<char>,
    vars_a: Seq<(Seq<char>, Seq<char>)>,
    session_b: Seq<char>,
    vars_b: Seq<(Seq<char>, Seq<char>)>,
    env: environment::EnvView,
)
    requires
        session_a != session_b,
        registry::registration(vars_a) == registry::Registration::Registered,
        registry::registration(vars_b) == registry::Registration::Registered,
    ensures
        ({
            let both = registry::after_register(
                registry::after_register(sessions, session_a, vars_a),
                session_b,
                vars_b,
            );
            &&& registry::resolved(both, env, Some(session_a)) == Some(
                registry::terminal_identity(vars_a),
            )
            &&& registry::resolved(both, env, Some(session_b)) == Some(
                registry::terminal_identity(vars_b),
            )
        }),
{
}

/// Registering a session leaves every other session alone.
pub proof fn registering_leaves_other_sessions_alone(
    sessions: Map<Seq<char>, registry::IdentityView>,
    session_id: Seq<char>,
    vars: Seq<(Seq<char>, Seq<char>)>,
    other: Seq<char>,
    env: environment::EnvView,
)
    requires
        other != session_id,
    ensures
        registry::resolved(
            registry::after_register(sessions, session_id, vars),
            env,
            Some(other),
        ) == registry::resolved(sessions, env, Some(other)),
{
}

/// Registering a session again from the same terminal changes nothing.
pub proof fn registering_is_idempotent(
    sessions: Map<Seq<char>, registry::IdentityView>,
    session_id: Seq<char>,
    vars: Seq<(Seq<char>, Seq<char>)>,
)
    ensures
        registry::after_register(
            registry::after_register(sessions, session_id, vars),
            session_id,
            vars,
        ) == registry::after_register(sessions, session_id, vars),
{
    let once = registry::after_register(sessions, session_id, vars);
    assert(registry::after_register(once, session_id, vars) =~= once);
}

/// A session that registers from another terminal moves there: nothing is left
/// of what was recorded before.
pub proof fn the_last_registration_wins(
    sessions: Map<Seq<char>, registry::IdentityView>,
    session_id: Seq<char>,
    earlier: Seq<(Seq<char>, Seq<char>)>,
    later: Seq<(Seq<char>, Seq<char>)>,
)
    requires
        registry::registration(later) == registry::Registration::Registered,
    ensures
        registry::after_register(
            registry::after_register(sessions, session_id, earlier),
            session_id,
            later,
        ) == registry::after_register(sessions, session_id, later),
{
    assert(registry::after_register(
        registry::after_register(sessions, session_id, earlier),
        session_id,
        later,
    ) =~= registry::after_register(sessions, session_id, later));
}

/// The order in which different sessions register does not matter.
pub proof fn registrations_commute(
    sessions: Map<Seq<char>, registry::IdentityView>,
    session_a: Seq<char>,
    vars_a: Seq<(Seq<char>, Seq<char>)>,
    session_b: Seq<char>,
    vars_b: Seq<(Seq<char>, Seq<char>)>,
)
    requires
        session_a != session_b,
    ensures
        registry::after_register(
            registry::after_register(sessions, session_a, vars_a),
            session_b,
            vars_b,
        ) == registry::after_register(
            registry::after_register(sessions, session_b, vars_b),
            session_a,
            vars_a,
        ),
{
    assert(registry::after_register(
        registry::after_register(sessions, session_a, vars_a),
        session_b,
        vars_b,
    ) =~= registry::after_register(
        registry::after_register(sessions, session_b, vars_b),
        session_a,
        vars_a,
    ));
}

/// Unregistering undoes the registration of a session that was not there.
pub proof fn unregistering_undoes_registering(
    sessions: Map<Seq<char>, registry::IdentityView>,
    session_id: Seq<char>,
    vars: Seq<(Seq<char>, Seq<char>)>,
)
    requires
        !sessions.contains_key(session_id),
    ensures
        registry::after_register(sessions, session_id, vars).remove(session_id) == sessions,
{
    assert(registry::after_register(sessions, session_id, vars).remove(session_id) =~= sessions);
}

/// An unregistered session falls back to the process environment, and every
/// other session is left alone.
pub proof fn an_unregistered_session_falls_back(
    sessions: Map<Seq<char>, registry::IdentityView>,
    session_id: Seq<char>,
    other: Seq<char>,
    env: environment::EnvView,
)
    requires
        other != session_id,
    ensures
        registry::resolved(sessions.remove(session_id), env, Some(session_id))
            == registry::env_identity(env),
        registry::resolved(sessions.remove(session_id), env, Some(other)) == registry::resolved(
            sessions,
            env,
            Some(other),
        ),
{
}

/// The reports of a session that is not registered go somewhere exactly where
/// the process runs under Herdr with both a pane and a socket, and then they go
/// to that pane and that socket.
pub proof fn the_fallback_needs_all_three_variables(
    sessions: Map<Seq<char>, registry::IdentityView>,
    env: environment::EnvView,
    session_id: Seq<char>,
)
    requires
        !sessions.contains_key(session_id),
    ensures
        registry::resolved(sessions, env, Some(session_id)) is Some <==> {
            &&& env.herdr_env matches Some(value) && environment::truthy(value)
            &&& env.pane_id matches Some(id) && id.len() > 0
            &&& env.socket_path matches Some(path) && path.len() > 0
        },
        registry::resolved(sessions, env, Some(session_id)) matches Some(identity) ==> {
            &&& env.pane_id == Some(identity.pane_id)
            &&& env.socket_path == Some(identity.socket_path)
        },
{
}

/// White space is what has the Unicode property `White_Space`: these code
/// points and no others.
pub proof fn white_space_is_the_unicode_property(c: char)
    ensures
        crate::text::is_white_space(c) <==> {
            let code = c as u32;
            ||| 9 <= code <= 13
            ||| code == 32
            ||| code == 0x85
            ||| code == 0xa0
            ||| code == 0x1680
            ||| 0x2000 <= code <= 0x200a
            ||| 0x2028 <= code <= 0x2029
            ||| code == 0x202f
            ||| code == 0x205f
            ||| code == 0x3000
        },
{
}

/// Trimming takes white space off both ends, nothing else, and leaves none
/// there.
pub proof fn trimming_takes_off_all_outer_white_space(text: Seq<char>) -> (cut: (
    Seq<char>,
    Seq<char>,
))
    ensures
        text == cut.0 + crate::text::trimmed(text) + cut.1,
        forall|i: int| 0 <= i < cut.0.len() ==> crate::text::is_white_space(#[trigger] cut.0[i]),
        forall|i: int| 0 <= i < cut.1.len() ==> crate::text::is_white_space(#[trigger] cut.1[i]),
        crate::text::trimmed(text).len() > 0 ==> !crate::text::is_white_space(
            crate::text::trimmed(text).first(),
        ) && !crate::text::is_white_space(crate::text::trimmed(text).last()),
    decreases text.len(),
{
    let rest = crate::text::trimmed(text);
    if text.len() > 0 && crate::text::is_white_space(text.first()) {
        let first = seq![text.first()];
        let (before, after) = trimming_takes_off_all_outer_white_space(text.drop_first());
        let longer = first + before;
        assert(text =~= first + text.drop_first());
        assert(first + (before + rest + after) =~= longer + rest + after);
        assert forall|i: int| 0 <= i < longer.len() implies crate::text::is_white_space(
            #[trigger] longer[i],
        ) by {
            if i > 0 {
                assert(longer[i] == before[i - 1]);
            }
        }
        (longer, after)
    } else if text.len() > 0 && crate::text::is_white_space(text.last()) {
        let last = text.last();
        let (before, after) = trimming_takes_off_all_outer_white_space(text.drop_last());
        let longer = after.push(last);
        assert(text =~= text.drop_last().push(last));
        assert((before + rest + after).push(last) =~= before + rest + longer);
        assert forall|i: int| 0 <= i < longer.len() implies crate::text::is_white_space(
            #[trigger] longer[i],
        ) by {
            if i < after.len() {
                assert(longer[i] == after[i]);
            }
        }
        (before, longer)
    } else {
        assert(text =~= Seq::<char>::empty() + text + Seq::<char>::empty());
        (Seq::empty(), Seq::empty())
    }
}

/// A value switches a variable on exactly where it is one of the six yes-words
/// between two stretches of white space, either of which may be empty.
pub proof fn a_truthy_value_is_a_yes_word_in_white_space(value: Seq<char>)
    ensures
        environment::truthy(value) <==> exists|before: Seq<char>, word: Seq<char>, after: Seq<char>|
            {
                &&& value == #[trigger] (before + word + after)
                &&& forall|i: int|
                    0 <= i < before.len() ==> crate::text::is_white_space(#[trigger] before[i])
                &&& forall|i: int|
                    0 <= i < after.len() ==> crate::text::is_white_space(#[trigger] after[i])
                &&& (word == "1"@ || word == "true"@ || word == "TRUE"@ || word == "True"@ || word
                    == "yes"@ || word == "on"@)
            },
{
    if environment::truthy(value) {
        let (before, after) = trimming_takes_off_all_outer_white_space(value);
        assert(value == before + crate::text::trimmed(value) + after);
    }
    assert forall|before: Seq<char>, word: Seq<char>, after: Seq<char>|
        {
            &&& value == #[trigger] (before + word + after)
            &&& forall|i: int|
                0 <= i < before.len() ==> crate::text::is_white_space(#[trigger] before[i])
            &&& forall|i: int|
                0 <= i < after.len() ==> crate::text::is_white_space(#[trigger] after[i])
            &&& (word == "1"@ || word == "true"@ || word == "TRUE"@ || word == "True"@ || word
                == "yes"@ || word == "on"@)
        } implies environment::truthy(value) by {
        crate::text::trimming_ignores_outer_white_space(before, word, after);
        reveal_strlit("1");
        reveal_strlit("true");
        reveal_strlit("TRUE");
        reveal_strlit("True");
        reveal_strlit("yes");
        reveal_strlit("on");
        assert(!crate::text::is_white_space(word.first()));
        assert(!crate::text::is_white_space(word.last()));
    }
}

/// A list of variables is read pair by pair, each name and each value as it
/// stands, and a text that may be missing is its characters where it is there.
pub proof fn variables_are_read_as_they_stand(
    env: Seq<(String, String)>,
    owned: Option<String>,
    borrowed: Option<&str>,
)
    ensures
        environment::variables(env).len() == env.len(),
        forall|i: int|
            0 <= i < env.len() ==> #[trigger] environment::variables(env)[i] == (
                env[i].0@,
                env[i].1@,
            ),
        owned matches Some(text) ==> crate::text::string_view(owned) == Some(text@),
        owned is None ==> crate::text::string_view(owned) is None,
        borrowed matches Some(text) ==> crate::text::str_view(borrowed) == Some(text@),
        borrowed is None ==> crate::text::str_view(borrowed) is None,
{
}

/// Of the variables of the process, an identity, a delivery and an action, the
/// contracts see every field as it stands.
pub proof fn views_hold_every_field(
    env: environment::ProcessEnv,
    identity: registry::HerdrIdentity,
    delivery: lifecycle::Delivery,
    action: lifecycle::Action,
)
    ensures
        env.herdr_env matches Some(value) ==> env@.herdr_env == Some(value@),
        env.herdr_env is None ==> env@.herdr_env is None,
        env.pane_id matches Some(value) ==> env@.pane_id == Some(value@),
        env.pane_id is None ==> env@.pane_id is None,
        env.socket_path matches Some(value) ==> env@.socket_path == Some(value@),
        env.socket_path is None ==> env@.socket_path is None,
        identity@.pane_id == identity.pane_id@,
        identity@.socket_path == identity.socket_path@,
        delivery@.socket_path == delivery.socket_path@,
        delivery@.line == delivery.line@,
        action is ReportSession <==> action@ is ReportSession,
        action is Unregister <==> action@ is Unregister,
        action matches lifecycle::Action::ReportState { state, message } ==> {
            &&& action@ matches lifecycle::ActionView::ReportState { state: s, message: m }
            &&& s == state
            &&& message matches Some(text) ==> m == Some(text@)
            &&& message is None ==> m is None
        },
{
}

proof fn lemma_first_pair(vars: Seq<(Seq<char>, Seq<char>)>, key: Seq<char>, at: int) -> (first:
    int)
    requires
        0 <= at < vars.len(),
        vars[at].0 == key,
    ensures
        0 <= first <= at,
        vars[first].0 == key,
        forall|j: int| 0 <= j < first ==> (#[trigger] vars[j]).0 != key,
        environment::lookup(vars, key) == Some(vars[first].1),
    decreases at,
{
    the_first_pair_wins(vars, key);
    if exists|j: int| 0 <= j < at && (#[trigger] vars[j]).0 == key {
        let earlier = choose|j: int| 0 <= j < at && (#[trigger] vars[j]).0 == key;
        lemma_first_pair(vars, key, earlier)
    } else {
        at
    }
}

proof fn lemma_lookup_at_first(vars: Seq<(Seq<char>, Seq<char>)>, key: Seq<char>, first: int)
    requires
        0 <= first < vars.len(),
        vars[first].0 == key,
        forall|j: int| 0 <= j < first ==> (#[trigger] vars[j]).0 != key,
    ensures
        environment::lookup(vars, key) == Some(vars[first].1),
{
    the_first_pair_wins(vars, key);
}

proof fn lemma_lookup_finds(vars: Seq<(Seq<char>, Seq<char>)>, key: Seq<char>)
    ensures
        environment::lookup(vars, key) is Some <==> exists|i: int|
            0 <= i < vars.len() && (#[trigger] vars[i]).0 == key,
{
    the_first_pair_wins(vars, key);
}

/// A terminal is registered exactly where some pair is named `HERDR_PANE_ID`,
/// some pair is named `HERDR_SOCKET_PATH`, and the first pair named `HERDR_ENV`
/// is there and switched on. Otherwise the outcome names what is amiss, the
/// pane first, then `HERDR_ENV`, then the socket.
pub proof fn a_terminal_is_registered_by_its_three_variables(vars: Seq<(Seq<char>, Seq<char>)>)
    ensures
        registry::registration(vars) is Registered <==> {
            &&& exists|i: int| 0 <= i < vars.len() && (#[trigger] vars[i]).0 == "HERDR_PANE_ID"@
            &&& exists|i: int| 0 <= i < vars.len() && (#[trigger] vars[i]).0 == "HERDR_SOCKET_PATH"@
            &&& exists|i: int|
                0 <= i < vars.len() && (#[trigger] vars[i]).0 == "HERDR_ENV"@ && (forall|j: int|
                    0 <= j < i ==> (#[trigger] vars[j]).0 != "HERDR_ENV"@) && environment::truthy(
                    vars[i].1,
                )
        },
        registry::registration(vars) is NoPaneId <==> forall|i: int|
            0 <= i < vars.len() ==> (#[trigger] vars[i]).0 != "HERDR_PANE_ID"@,
        registry::registration(vars) is NoHerdrEnv <==> {
            &&& exists|i: int| 0 <= i < vars.len() && (#[trigger] vars[i]).0 == "HERDR_PANE_ID"@
            &&& forall|i: int| 0 <= i < vars.len() ==> (#[trigger] vars[i]).0 != "HERDR_ENV"@
        },
        registry::registration(vars) is HerdrEnvNotTruthy <==> {
            &&& exists|i: int| 0 <= i < vars.len() && (#[trigger] vars[i]).0 == "HERDR_PANE_ID"@
            &&& exists|i: int|
                0 <= i < vars.len() && (#[trigger] vars[i]).0 == "HERDR_ENV"@ && (forall|j: int|
                    0 <= j < i ==> (#[trigger] vars[j]).0 != "HERDR_ENV"@) && !environment::truthy(
                    vars[i].1,
                )
        },
{
    lemma_lookup_finds(vars, "HERDR_PANE_ID"@);
    lemma_lookup_finds(vars, "HERDR_SOCKET_PATH"@);
    lemma_lookup_finds(vars, "HERDR_ENV"@);
    if environment::lookup(vars, "HERDR_ENV"@) is Some {
        let at = choose|i: int| 0 <= i < vars.len() && (#[trigger] vars[i]).0 == "HERDR_ENV"@;
        let first = lemma_first_pair(vars, "HERDR_ENV"@, at);
        assert forall|i: int|
            0 <= i < vars.len() && (#[trigger] vars[i]).0 == "HERDR_ENV"@ && (forall|j: int|
                0 <= j < i ==> (#[trigger] vars[j]).0 != "HERDR_ENV"@) implies i == first by {
            if i < first {
                assert(vars[i].0 != "HERDR_ENV"@);
            }
            if first < i {
                assert(vars[first].0 != "HERDR_ENV"@);
            }
        }
        assert(vars[first].0 == "HERDR_ENV"@);
    }
}

/// A registered session resolves to the pane of the first pair named
/// `HERDR_PANE_ID` and to the socket whose path is the UTF-8 of the first pair
/// named `HERDR_SOCKET_PATH`, wherever in the list these stand, whatever else
/// the list holds, and whatever the process environment says.
pub proof fn a_registration_records_the_first_pairs(
    sessions: Map<Seq<char>, registry::IdentityView>,
    session_id: Seq<char>,
    vars: Seq<(Seq<char>, Seq<char>)>,
    env: environment::EnvView,
    pane_at: int,
    socket_at: int,
    switch_at: int,
)
    requires
        0 <= pane_at < vars.len(),
        vars[pane_at].0 == "HERDR_PANE_ID"@,
        forall|j: int| 0 <= j < pane_at ==> (#[trigger] vars[j]).0 != "HERDR_PANE_ID"@,
        0 <= socket_at < vars.len(),
        vars[socket_at].0 == "HERDR_SOCKET_PATH"@,
        forall|j: int| 0 <= j < socket_at ==> (#[trigger] vars[j]).0 != "HERDR_SOCKET_PATH"@,
        0 <= switch_at < vars.len(),
        vars[switch_at].0 == "HERDR_ENV"@,
        forall|j: int| 0 <= j < switch_at ==> (#[trigger] vars[j]).0 != "HERDR_ENV"@,
        environment::truthy(vars[switch_at].1),
    ensures
        ({
            let after = registry::after_register(sessions, session_id, vars);
            &&& registry::registration(vars) is Registered
            &&& after.contains_key(session_id)
            &&& after[session_id].pane_id == vars[pane_at].1
            &&& after[session_id].socket_path == encode_utf8(vars[socket_at].1)
            &&& after.remove(session_id) == sessions.remove(session_id)
            &&& registry::resolved(after, env, Some(session_id)) matches Some(identity)
            &&& identity.pane_id == vars[pane_at].1
            &&& identity.socket_path == encode_utf8(vars[socket_at].1)
        }),
{
    lemma_lookup_at_first(vars, "HERDR_PANE_ID"@, pane_at);
    lemma_lookup_at_first(vars, "HERDR_SOCKET_PATH"@, socket_at);
    lemma_lookup_at_first(vars, "HERDR_ENV"@, switch_at);
    let after = registry::after_register(sessions, session_id, vars);
    assert(after.remove(session_id) =~= sessions.remove(session_id));
}

/// A terminal that lacks one of the three variables, or whose `HERDR_ENV` is
/// not switched on, leaves the registry as it was.
pub proof fn a_terminal_outside_herdr_records_nothing(
    sessions: Map<Seq<char>, registry::IdentityView>,
    session_id: Seq<char>,
    vars: Seq<(Seq<char>, Seq<char>)>,
)
    requires
        ({
            ||| forall|i: int| 0 <= i < vars.len() ==> (#[trigger] vars[i]).0 != "HERDR_PANE_ID"@
            ||| forall|i: int| 0 <= i < vars.len() ==> (#[trigger] vars[i]).0 != "HERDR_ENV"@
            ||| forall|i: int|
                0 <= i < vars.len() ==> (#[trigger] vars[i]).0 != "HERDR_SOCKET_PATH"@
            ||| exists|i: int|
                0 <= i < vars.len() && (#[trigger] vars[i]).0 == "HERDR_ENV"@ && (forall|j: int|
                    0 <= j < i ==> (#[trigger] vars[j]).0 != "HERDR_ENV"@) && !environment::truthy(
                    vars[i].1,
                )
        }),
    ensures
        registry::after_register(sessions, session_id, vars) == sessions,
{
    a_terminal_is_registered_by_its_three_variables(vars);
}

proof fn lemma_lookup_skips_other_names(
    vars: Seq<(Seq<char>, Seq<char>)>,
    at: int,
    name: Seq<char>,
    value: Seq<char>,
    key: Seq<char>,
)
    requires
        0 <= at <= vars.len(),
        name != key,
    ensures
        environment::lookup(vars.insert(at, (name, value)), key) == environment::lookup(vars, key),
    decreases vars.len(),
{
    let more = vars.insert(at, (name, value));
    if at == 0 {
        assert(more.drop_first() =~= vars);
    } else {
        assert(more.first() == vars.first());
        assert(more.drop_first() =~= vars.drop_first().insert(at - 1, (name, value)));
        lemma_lookup_skips_other_names(vars.drop_first(), at - 1, name, value, key);
    }
}

/// A variable with another name, put anywhere into the terminal's list, changes
/// neither the outcome of a registration nor what it records.
pub proof fn other_variables_do_not_matter(
    sessions: Map<Seq<char>, registry::IdentityView>,
    session_id: Seq<char>,
    vars: Seq<(Seq<char>, Seq<char>)>,
    at: int,
    name: Seq<char>,
    value: Seq<char>,
)
    requires
        0 <= at <= vars.len(),
        name != "HERDR_ENV"@,
        name != "HERDR_PANE_ID"@,
        name != "HERDR_SOCKET_PATH"@,
    ensures
        registry::registration(vars.insert(at, (name, value))) == registry::registration(vars),
        registry::after_register(sessions, session_id, vars.insert(at, (name, value)))
            == registry::after_register(sessions, session_id, vars),
{
    lemma_lookup_skips_other_names(vars, at, name, value, "HERDR_ENV"@);
    lemma_lookup_skips_other_names(vars, at, name, value, "HERDR_PANE_ID"@);
    lemma_lookup_skips_other_names(vars, at, name, value, "HERDR_SOCKET_PATH"@);
}

/// A later pair with a name that the list already holds changes nothing.
pub proof fn a_repeated_variable_does_not_matter(
    sessions: Map<Seq<char>, registry::IdentityView>,
    session_id: Seq<char>,
    vars: Seq<(Seq<char>, Seq<char>)>,
    earlier: int,
    value: Seq<char>,
)
    requires
        0 <= earlier < vars.len(),
    ensures
        registry::registration(vars.push((vars[earlier].0, value))) == registry::registration(vars),
        registry::after_register(sessions, session_id, vars.push((vars[earlier].0, value)))
            == registry::after_register(sessions, session_id, vars),
{
    lemma_lookup_of_pushed(vars, earlier, value, "HERDR_ENV"@);
    lemma_lookup_of_pushed(vars, earlier, value, "HERDR_PANE_ID"@);
    lemma_lookup_of_pushed(vars, earlier, value, "HERDR_SOCKET_PATH"@);
}

proof fn lemma_lookup_of_pushed(
    vars: Seq<(Seq<char>, Seq<char>)>,
    earlier: int,
    value: Seq<char>,
    key: Seq<char>,
)
    requires
        0 <= earlier < vars.len(),
    ensures
        environment::lookup(vars.push((vars[earlier].0, value)), key) == environment::lookup(
            vars,
            key,
        ),
{
    let name = vars[earlier].0;
    let more = vars.push((name, value));
    if name == key {
        let first = lemma_first_pair(vars, key, earlier);
        the_first_pair_wins(more, key);
        assert(more[first] == vars[first]);
        assert forall|j: int| 0 <= j < first implies (#[trigger] more[j]).0 != key by {
            assert(more[j] == vars[j]);
        }
    } else {
        assert(more =~= vars.insert(vars.len() as int, (name, value)));
        lemma_lookup_skips_other_names(vars, vars.len() as int, name, value, key);
    }
}

/// What the registry holds of a session comes before anything that the process
/// environment says.
pub proof fn the_registry_comes_first(
    sessions: Map<Seq<char>, registry::IdentityView>,
    session_id: Seq<char>,
    env: environment::EnvView,
)
    requires
        sessions.contains_key(session_id),
    ensures
        registry::resolved(sessions, env, Some(session_id)) matches Some(identity)
            && identity.pane_id == sessions[session_id].pane_id && identity.socket_path
            == sessions[session_id].socket_path,
{
}

/// Without a session the process environment alone decides, and it names a pane
/// and a socket only under Herdr, and only with both of them.
pub proof fn without_a_session_the_process_decides(
    sessions: Map<Seq<char>, registry::IdentityView>,
    env: environment::EnvView,
)
    ensures
        registry::resolved(sessions, env, None) is Some <==> {
            &&& env.herdr_env matches Some(value) && environment::truthy(value)
            &&& env.pane_id matches Some(id) && id.len() > 0
            &&& env.socket_path matches Some(path) && path.len() > 0
        },
        registry::resolved(sessions, env, None) matches Some(identity) ==> {
            &&& env.pane_id == Some(identity.pane_id)
            &&& env.socket_path == Some(identity.socket_path)
        },
{
}

/// A state report goes to the socket that the session resolves to, whatever the
/// state and whatever the message, and it is about the pane that the session
/// resolves to. Where the session resolves to nothing, nothing is sent.
pub proof fn a_state_report_goes_to_the_socket_of_the_session(
    sessions: Map<Seq<char>, registry::IdentityView>,
    env: environment::EnvView,
    session_id: Seq<char>,
    state: State,
    message: Option<Seq<char>>,
)
    ensures
        ({
            let target = registry::resolved(sessions, env, Some(session_id));
            let delivery = lifecycle::state_delivery(target, state, message);
            &&& delivery is Some <==> target is Some
            &&& delivery matches Some(sent) ==> {
                &&& sent.socket_path == target->0.socket_path
                &&& sent.line == wire::report_agent_line(target->0.pane_id, state, message)
            }
            &&& lifecycle::sent_by(
                sessions,
                env,
                session_id,
                lifecycle::ActionView::ReportState { state, message },
            ) == delivery
        }),
{
}

/// A session report goes to the socket that the session resolves to, and it is
/// about the pane that the session resolves to. Where the session resolves to
/// nothing, nothing is sent.
pub proof fn a_session_report_goes_to_the_socket_of_the_session(
    sessions: Map<Seq<char>, registry::IdentityView>,
    env: environment::EnvView,
    session_id: Seq<char>,
)
    ensures
        ({
            let target = registry::resolved(sessions, env, Some(session_id));
            let delivery = lifecycle::session_delivery(target, session_id);
            &&& delivery is Some <==> target is Some
            &&& delivery matches Some(sent) ==> {
                &&& sent.socket_path == target->0.socket_path
                &&& sent.line == wire::report_agent_session_line(target->0.pane_id, session_id)
            }
            &&& lifecycle::sent_by(
                sessions,
                env,
                session_id,
                lifecycle::ActionView::ReportSession,
            ) == delivery
        }),
{
}

/// Two reports of one session, whatever they say, go to the same socket.
pub proof fn all_reports_of_a_session_go_one_way(
    sessions: Map<Seq<char>, registry::IdentityView>,
    env: environment::EnvView,
    session_id: Seq<char>,
    a: lifecycle::ActionView,
    b: lifecycle::ActionView,
)
    ensures
        lifecycle::sent_by(sessions, env, session_id, a) matches Some(first)
            ==> lifecycle::sent_by(sessions, env, session_id, b) matches Some(second)
            ==> first.socket_path == second.socket_path,
{
}

/// Only `Unregister` changes the registry, it takes out the session and no
/// other, and it sends nothing.
pub proof fn only_unregistering_changes_the_registry(
    sessions: Map<Seq<char>, registry::IdentityView>,
    env: environment::EnvView,
    session_id: Seq<char>,
    action: lifecycle::ActionView,
)
    ensures
        action !is Unregister ==> lifecycle::sessions_after(sessions, session_id, action)
            == sessions,
        action is Unregister ==> {
            let after = lifecycle::sessions_after(sessions, session_id, action);
            &&& !after.contains_key(session_id)
            &&& forall|other: Seq<char>|
                other != session_id ==> (#[trigger] after.contains_key(other)
                    <==> sessions.contains_key(other))
            &&& forall|other: Seq<char>| #[trigger]
                after.contains_key(other) ==> after[other] == sessions[other]
            &&& lifecycle::sent_by(sessions, env, session_id, action) is None
        },
{
}

/// The text of a report is that of an object with the id, the method and the
/// parameters by these names.
pub proof fn a_report_is_the_text_of_its_members(
    pane_id: Seq<char>,
    state: State,
    message: Seq<char>,
    session_id: Seq<char>,
)
    ensures
        wire::report_agent_line(pane_id, state, None) == wire::json_text(
            seq![("id"@, "jcode"@), ("method"@, "pane.report_agent"@)],
            "params"@,
            seq![
                ("pane_id"@, pane_id),
                ("source"@, "herdr:jcode"@),
                ("agent"@, "jcode"@),
                ("state"@, state.name()),
            ],
        ),
        wire::report_agent_line(pane_id, state, Some(message)) == wire::json_text(
            seq![("id"@, "jcode"@), ("method"@, "pane.report_agent"@)],
            "params"@,
            seq![
                ("pane_id"@, pane_id),
                ("source"@, "herdr:jcode"@),
                ("agent"@, "jcode"@),
                ("state"@, state.name()),
                ("message"@, message),
            ],
        ),
        wire::report_agent_session_line(pane_id, session_id) == wire::json_text(
            seq![("id"@, "jcode"@), ("method"@, "pane.report_agent_session"@)],
            "params"@,
            seq![
                ("pane_id"@, pane_id),
                ("source"@, "herdr:jcode"@),
                ("agent"@, "jcode"@),
                ("agent_session_id"@, session_id),
            ],
        ),
{
    let with = wire::report_agent_params(pane_id, state, Some(message));
    assert(with =~= seq![
        ("pane_id"@, pane_id),
        ("source"@, "herdr:jcode"@),
        ("agent"@, "jcode"@),
        ("state"@, state.name()),
        ("message"@, message),
    ]);
}

/// The bytes of a line are its UTF-8 and one newline more.
pub proof fn a_frame_is_the_line_and_a_newline(line: Seq<char>)
    ensures
        wire::framed(line).len() == encode_utf8(line).len() + 1,
        wire::framed(line).drop_last() == encode_utf8(line),
        wire::framed(line).last() == 10,
{
    assert(wire::framed(line).drop_last() =~= encode_utf8(line));
}

/// What a plan sends when its actions are performed one after the other in one
/// and the same environment.
pub open spec fn outbox(
    sessions: Map<Seq<char>, registry::IdentityView>,
    env: environment::EnvView,
    session_id: Seq<char>,
    plan: Seq<lifecycle::ActionView>,
) -> Seq<lifecycle::DeliveryView>
    decreases plan.len(),
{
    if plan.len() == 0 {
        Seq::empty()
    } else {
        let later = outbox(
            lifecycle::sessions_after(sessions, session_id, plan.first()),
            env,
            session_id,
            plan.drop_first(),
        );
        match lifecycle::sent_by(sessions, env, session_id, plan.first()) {
            Some(delivery) => seq![delivery] + later,
            None => later,
        }
    }
}

/// The sessions once a plan is carried out.
pub open spec fn sessions_after_plan(
    sessions: Map<Seq<char>, registry::IdentityView>,
    session_id: Seq<char>,
    plan: Seq<lifecycle::ActionView>,
) -> Map<Seq<char>, registry::IdentityView>
    decreases plan.len(),
{
    if plan.len() == 0 {
        sessions
    } else {
        sessions_after_plan(
            lifecycle::sessions_after(sessions, session_id, plan.first()),
            session_id,
            plan.drop_first(),
        )
    }
}

/// The state report on a pane, as it goes to its socket.
pub open spec fn state_report_to(
    identity: registry::IdentityView,
    state: State,
    message: Option<Seq<char>>,
) -> lifecycle::DeliveryView {
    lifecycle::DeliveryView {
        socket_path: identity.socket_path,
        line: wire::report_agent_line(identity.pane_id, state, message),
    }
}

/// The session report on a pane, as it goes to its socket.
pub open spec fn session_report_to(
    identity: registry::IdentityView,
    session_id: Seq<char>,
) -> lifecycle::DeliveryView {
    lifecycle::DeliveryView {
        socket_path: identity.socket_path,
        line: wire::report_agent_session_line(identity.pane_id, session_id),
    }
}

proof fn lemma_one_step(
    sessions: Map<Seq<char>, registry::IdentityView>,
    env: environment::EnvView,
    session_id: Seq<char>,
    action: lifecycle::ActionView,
)
    ensures
        outbox(sessions, env, session_id, seq![action]) == match lifecycle::sent_by(
            sessions,
            env,
            session_id,
            action,
        ) {
            Some(delivery) => seq![delivery],
            None => Seq::empty(),
        },
        sessions_after_plan(sessions, session_id, seq![action]) == lifecycle::sessions_after(
            sessions,
            session_id,
            action,
        ),
{
    reveal_with_fuel(outbox, 2);
    reveal_with_fuel(sessions_after_plan, 2);
    let plan = seq![action];
    assert(plan.drop_first() =~= Seq::empty());
    if let Some(delivery) = lifecycle::sent_by(sessions, env, session_id, action) {
        assert(seq![delivery] + Seq::empty() =~= seq![delivery]);
    }
}

/// The start of a session sends two reports to its socket, the session id
/// first and `idle` second, and leaves the registry alone.
pub proof fn a_session_start_sends_its_id_and_then_idle(
    sessions: Map<Seq<char>, registry::IdentityView>,
    env: environment::EnvView,
    session_id: Seq<char>,
    source: Seq<char>,
    identity: registry::IdentityView,
)
    requires
        registry::resolved(sessions, env, Some(session_id)) == Some(identity),
    ensures
        ({
            let plan = lifecycle::answer(
                sessions,
                env,
                session_id,
                lifecycle::session_start_plan(source),
            );
            &&& outbox(sessions, env, session_id, plan) == seq![
                session_report_to(identity, session_id),
                state_report_to(identity, State::Idle, lifecycle::start_message(source)),
            ]
            &&& plan.len() == 2
            &&& plan[0] is ReportSession
            &&& plan[1] matches lifecycle::ActionView::ReportState { state, message }
            &&& state is Idle
            &&& source == "create"@ ==> message == Some("new session"@)
            &&& source == "resume"@ ==> message == Some("resumed"@)
            &&& source == "attach"@ ==> message == Some("attached"@)
            &&& source != "create"@ && source != "resume"@ && source != "attach"@ ==> message
                is None
            &&& outbox(sessions, env, session_id, plan).len() == 2
            &&& outbox(sessions, env, session_id, plan)[0].socket_path == identity.socket_path
            &&& outbox(sessions, env, session_id, plan)[0].line == wire::report_agent_session_line(
                identity.pane_id,
                session_id,
            )
            &&& outbox(sessions, env, session_id, plan)[1].socket_path == identity.socket_path
            &&& outbox(sessions, env, session_id, plan)[1].line == wire::report_agent_line(
                identity.pane_id,
                State::Idle,
                message,
            )
            &&& sessions_after_plan(sessions, session_id, plan) == sessions
        }),
{
    lifecycle::lemma_sources_are_distinct();
    let plan = lifecycle::session_start_plan(source);
    assert(plan.drop_first() =~= seq![plan[1]]);
    lemma_one_step(sessions, env, session_id, plan[1]);
    assert(outbox(sessions, env, session_id, plan) =~= seq![
        session_report_to(identity, session_id),
        state_report_to(identity, State::Idle, lifecycle::start_message(source)),
    ]);
}

/// A turn sends `working` when it starts and `idle` when it ends, the latter
/// with a message that tells success from failure, and leaves the registry
/// alone.
pub proof fn a_turn_sends_working_and_then_idle(
    sessions: Map<Seq<char>, registry::IdentityView>,
    env: environment::EnvView,
    session_id: Seq<char>,
    ok: bool,
    identity: registry::IdentityView,
)
    requires
        registry::resolved(sessions, env, Some(session_id)) == Some(identity),
    ensures
        ({
            let start = lifecycle::answer(
                sessions,
                env,
                session_id,
                lifecycle::turn_start_plan(),
            );
            let end = lifecycle::answer(
                sessions_after_plan(sessions, session_id, start),
                env,
                session_id,
                lifecycle::turn_end_plan(ok),
            );
            &&& outbox(sessions, env, session_id, start) == seq![
                state_report_to(identity, State::Working, Some("working"@)),
            ]
            &&& start.len() == 1
            &&& lifecycle::sent_by(sessions, env, session_id, start[0]) matches Some(working)
            &&& outbox(sessions, env, session_id, start) == seq![working]
            &&& working.socket_path == identity.socket_path
            &&& working.line == wire::report_agent_line(
                identity.pane_id,
                State::Working,
                Some("working"@),
            )
            &&& end.len() == 1
            &&& lifecycle::sent_by(sessions, env, session_id, end[0]) matches Some(idle)
            &&& outbox(sessions, env, session_id, end) == seq![idle]
            &&& idle.socket_path == identity.socket_path
            &&& ok ==> idle.line == wire::report_agent_line(
                identity.pane_id,
                State::Idle,
                Some("ready"@),
            )
            &&& !ok ==> idle.line == wire::report_agent_line(
                identity.pane_id,
                State::Idle,
                Some("turn failed"@),
            )
            &&& sessions_after_plan(sessions, session_id, start) == sessions
            &&& outbox(sessions, env, session_id, end) == seq![
                state_report_to(
                    identity,
                    State::Idle,
                    Some(
                        if ok {
                            "ready"@
                        } else {
                            "turn failed"@
                        },
                    ),
                ),
            ]
            &&& sessions_after_plan(sessions, session_id, end) == sessions
        }),
{
    lemma_one_step(sessions, env, session_id, lifecycle::turn_start_plan()[0]);
    lemma_one_step(sessions, env, session_id, lifecycle::turn_end_plan(ok)[0]);
    assert(lifecycle::turn_start_plan() =~= seq![lifecycle::turn_start_plan()[0]]);
    assert(lifecycle::turn_end_plan(ok) =~= seq![lifecycle::turn_end_plan(ok)[0]]);
}

/// The end of a session sends `done` and forgets the session, and no other.
pub proof fn a_session_end_sends_done_and_forgets(
    sessions: Map<Seq<char>, registry::IdentityView>,
    env: environment::EnvView,
    session_id: Seq<char>,
    identity: registry::IdentityView,
)
    requires
        registry::resolved(sessions, env, Some(session_id)) == Some(identity),
    ensures
        ({
            let plan = lifecycle::answer(
                sessions,
                env,
                session_id,
                lifecycle::session_end_plan(),
            );
            &&& outbox(sessions, env, session_id, plan) == seq![
                state_report_to(identity, State::Done, Some("session closed"@)),
            ]
            &&& plan.len() == 2
            &&& plan[1] is Unregister
            &&& lifecycle::sent_by(sessions, env, session_id, plan[0]) matches Some(done)
            &&& outbox(sessions, env, session_id, plan) == seq![done]
            &&& done.socket_path == identity.socket_path
            &&& done.line == wire::report_agent_line(
                identity.pane_id,
                State::Done,
                Some("session closed"@),
            )
            &&& sessions_after_plan(sessions, session_id, plan) == sessions.remove(session_id)
        }),
{
    let plan = lifecycle::session_end_plan();
    assert(plan.drop_first() =~= seq![lifecycle::ActionView::Unregister]);
    lemma_one_step(sessions, env, session_id, lifecycle::ActionView::Unregister);
    assert(outbox(sessions, env, session_id, plan) =~= seq![
        state_report_to(identity, State::Done, Some("session closed"@)),
    ]);
}

/// A state report arrives as it was made: its bytes are one line, and what
/// stands before the newline reads as the pane, the state and the message.
pub proof fn a_state_report_arrives_as_made(
    delivery: lifecycle::DeliveryView,
    identity: registry::IdentityView,
    state: State,
    message: Option<Seq<char>>,
)
    requires
        lifecycle::reads_as_state_report(delivery, identity, state, message),
    ensures
        ({
            let bytes = wire::framed(delivery.line);
            &&& bytes.last() == wire::NEWLINE
            &&& forall|i: int| 0 <= i < bytes.len() - 1 ==> bytes[i] != wire::NEWLINE
            &&& wire::reads_as_request(
                decode_utf8(bytes.drop_last()),
                wire::REPORT_AGENT@,
                wire::report_agent_object(identity.pane_id, state, message),
            )
        }),
{
    wire::no_control_character_is_no_line_break(delivery.line);
    wire::a_frame_holds_one_line(delivery.line);
}

/// A session report arrives as it was made: its bytes are one line, and what
/// stands before the newline reads as the pane and the session id.
pub proof fn a_session_report_arrives_as_made(
    delivery: lifecycle::DeliveryView,
    identity: registry::IdentityView,
    session_id: Seq<char>,
)
    requires
        lifecycle::reads_as_session_report(delivery, identity, session_id),
    ensures
        ({
            let bytes = wire::framed(delivery.line);
            &&& bytes.last() == wire::NEWLINE
            &&& forall|i: int| 0 <= i < bytes.len() - 1 ==> bytes[i] != wire::NEWLINE
            &&& wire::reads_as_request(
                decode_utf8(bytes.drop_last()),
                wire::REPORT_AGENT_SESSION@,
                wire::report_agent_session_object(identity.pane_id, session_id),
            )
        }),
{
    wire::no_control_character_is_no_line_break(delivery.line);
    wire::a_frame_holds_one_line(delivery.line);
}

/// A session whose reports go nowhere is answered with nothing: no event makes
/// a plan, no action sends anything.
pub proof fn nothing_is_sent_outside_herdr(
    sessions: Map<Seq<char>, registry::IdentityView>,
    env: environment::EnvView,
    session_id: Seq<char>,
    plan: Seq<lifecycle::ActionView>,
)
    requires
        registry::resolved(sessions, env, Some(session_id)) is None,
    ensures
        lifecycle::answer(sessions, env, session_id, plan) == Seq::<
            lifecycle::ActionView,
        >::empty(),
        outbox(sessions, env, session_id, plan) == Seq::<lifecycle::DeliveryView>::empty(),
    decreases plan.len(),
{
    if plan.len() > 0 {
        let after = lifecycle::sessions_after(sessions, session_id, plan.first());
        assert(registry::resolved(after, env, Some(session_id)) is None);
        nothing_is_sent_outside_herdr(after, env, session_id, plan.drop_first());
    }
}

/// Once a session has ended, nothing more is sent for it, as long as the
/// process environment names no pane of its own to fall back to.
pub proof fn an_ended_session_is_silent(
    sessions: Map<Seq<char>, registry::IdentityView>,
    env_then: environment::EnvView,
    env_now: environment::EnvView,
    session_id: Seq<char>,
    later: Seq<lifecycle::ActionView>,
)
    requires
        registry::env_identity(env_now) is None,
    ensures
        ({
            let end = lifecycle::answer(
                sessions,
                env_then,
                session_id,
                lifecycle::session_end_plan(),
            );
            let left = sessions_after_plan(sessions, session_id, end);
            &&& registry::resolved(left, env_now, Some(session_id)) is None
            &&& lifecycle::answer(left, env_now, session_id, later) == Seq::<
                lifecycle::ActionView,
            >::empty()
            &&& outbox(left, env_now, session_id, later) == Seq::<
                lifecycle::DeliveryView,
            >::empty()
        }),
{
    let end = lifecycle::answer(sessions, env_then, session_id, lifecycle::session_end_plan());
    let left = sessions_after_plan(sessions, session_id, end);
    match registry::resolved(sessions, env_then, Some(session_id)) {
        Some(identity) => {
            a_session_end_sends_done_and_forgets(sessions, env_then, session_id, identity);
        },
        None => {
            assert(left == sessions);
        },
    }
    nothing_is_sent_outside_herdr(left, env_now, session_id, later);
}

} // verus!
