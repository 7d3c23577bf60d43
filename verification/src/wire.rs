//! The wire format: one JSON request per line.
//!
//! A request is an object with an `id`, a `method` and an object of `params`,
//! all of whose members are strings.

use crate::state::{self, State};
use crate::text;
use vstd::prelude::*;
use vstd::slice::slice_to_vec;
use vstd::utf8::*;

verus! {

/// The `agent` label reported to Herdr: the name that `herdr agent list` shows.
pub const AGENT_LABEL: &'static str = "jcode";

/// The `source` of every report, namespaced under `herdr:`.
pub const SOURCE: &'static str = "herdr:jcode";

/// The `id` of every request.
pub const REQUEST_ID: &'static str = "jcode";

/// The method that reports the lifecycle state of a pane.
pub const REPORT_AGENT: &'static str = "pane.report_agent";

/// The method that reports the native session id of a pane.
pub const REPORT_AGENT_SESSION: &'static str = "pane.report_agent_session";

/// The byte that ends a request.
pub const NEWLINE: u8 = 10;

/// The name/text pairs of a list of members.
pub open spec fn pairs(list: Seq<(&str, &str)>) -> Seq<(Seq<char>, Seq<char>)> {
    list.map_values(|pair: (&str, &str)| (pair.0@, pair.1@))
}

/// No two members of the list have the same name.
pub open spec fn distinct_names(list: Seq<(Seq<char>, Seq<char>)>) -> bool {
    forall|i: int, j: int|
        0 <= i < j < list.len() ==> (#[trigger] list[i]).0 != (#[trigger] list[j]).0
}

/// A text without control characters of ASCII, line breaks among them (the
/// character U+007F, which breaks no line, may occur).
pub open spec fn without_control_characters(text: Seq<char>) -> bool {
    forall|i: int| 0 <= i < text.len() ==> #[trigger] text[i] >= '\u{20}'
}

/// The object that a list of members makes, their names being distinct.
pub open spec fn members(list: Seq<(Seq<char>, Seq<char>)>) -> Map<Seq<char>, Seq<char>>
    decreases list.len(),
{
    if list.len() == 0 {
        Map::empty()
    } else {
        members(list.drop_last()).insert(list.last().0, list.last().1)
    }
}

/// The text that `serde_json::Value::to_string` writes for the object that is
/// collected from the string members `texts` and then given, under `key`, the
/// object that is collected from the string members `inner`.
pub uninterp spec fn json_text(
    texts: Seq<(Seq<char>, Seq<char>)>,
    key: Seq<char>,
    inner: Seq<(Seq<char>, Seq<char>)>,
) -> Seq<char>;

/// What `serde_json::from_str` reads from a text, as a `serde_json::Value`:
/// where it is an object each of whose members is a string or an object of
/// strings, the string members and the object members; `None` for every other
/// text.
pub uninterp spec fn json_read(text: Seq<char>) -> Option<
    (Map<Seq<char>, Seq<char>>, Map<Seq<char>, Map<Seq<char>, Seq<char>>>),
>;

/// Calls `serde_json::Value::to_string` on the object with the string members
/// `texts` and, under `key`, the object with the string members `inner`. Both
/// are collected from their pairs by `Value`'s `FromIterator`, and the second is
/// put into the first by its `IndexMut`. Neither list may name a member twice,
/// since it is left open which of the two would stay.
///
/// Claimed of it: the text depends on these arguments alone; it is JSON, so
/// `serde_json::from_str` reads the same members back; and it is compact, with
/// every character below U+0020 escaped in names and texts alike, so none
/// occurs in it.
#[verifier::external_body]
fn object_text(texts: Vec<(&str, &str)>, key: &str, inner: Vec<(&str, &str)>) -> (text: String)
    requires
        distinct_names(pairs(texts@)),
        distinct_names(pairs(inner@)),
    ensures
        text@ == json_text(pairs(texts@), key@, pairs(inner@)),
        json_read(text@) == Some(
            (
                members(pairs(texts@)).remove(key@),
                Map::empty().insert(key@, members(pairs(inner@))),
            ),
        ),
        without_control_characters(text@),
{
    let mut object: serde_json::Value = texts.into_iter().collect();
    object[key] = inner.into_iter().collect();
    object.to_string()
}

/// The text of a request.
pub open spec fn request_text(
    method: Seq<char>,
    params: Seq<(Seq<char>, Seq<char>)>,
) -> Seq<char> {
    json_text(seq![("id"@, REQUEST_ID@), ("method"@, method)], "params"@, params)
}

/// A text that a JSON reader takes for a request with this method and these
/// parameters, and with nothing else in it.
pub open spec fn reads_as_request(
    text: Seq<char>,
    method: Seq<char>,
    params: Map<Seq<char>, Seq<char>>,
) -> bool {
    json_read(text) == Some(
        (
            Map::empty().insert("id"@, REQUEST_ID@).insert("method"@, method),
            Map::empty().insert("params"@, params),
        ),
    )
}

/// The parameters of a state report. The message is left out where there is
/// none.
pub open spec fn report_agent_params(
    pane_id: Seq<char>,
    state: State,
    message: Option<Seq<char>>,
) -> Seq<(Seq<char>, Seq<char>)> {
    let always = seq![
        ("pane_id"@, pane_id),
        ("source"@, SOURCE@),
        ("agent"@, AGENT_LABEL@),
        ("state"@, state.name()),
    ];
    match message {
        Some(text) => always.push(("message"@, text)),
        None => always,
    }
}

/// The object that the parameters of a state report make.
pub open spec fn report_agent_object(
    pane_id: Seq<char>,
    state: State,
    message: Option<Seq<char>>,
) -> Map<Seq<char>, Seq<char>> {
    let always = Map::empty().insert("pane_id"@, pane_id).insert("source"@, SOURCE@).insert(
        "agent"@,
        AGENT_LABEL@,
    ).insert("state"@, state.name());
    match message {
        Some(text) => always.insert("message"@, text),
        None => always,
    }
}

/// The line of a state report.
pub open spec fn report_agent_line(
    pane_id: Seq<char>,
    state: State,
    message: Option<Seq<char>>,
) -> Seq<char> {
    request_text(REPORT_AGENT@, report_agent_params(pane_id, state, message))
}

/// The parameters of a session report.
pub open spec fn report_agent_session_params(
    pane_id: Seq<char>,
    session_id: Seq<char>,
) -> Seq<(Seq<char>, Seq<char>)> {
    seq![
        ("pane_id"@, pane_id),
        ("source"@, SOURCE@),
        ("agent"@, AGENT_LABEL@),
        ("agent_session_id"@, session_id),
    ]
}

/// The object that the parameters of a session report make.
pub open spec fn report_agent_session_object(
    pane_id: Seq<char>,
    session_id: Seq<char>,
) -> Map<Seq<char>, Seq<char>> {
    Map::empty().insert("pane_id"@, pane_id).insert("source"@, SOURCE@).insert(
        "agent"@,
        AGENT_LABEL@,
    ).insert("agent_session_id"@, session_id)
}

/// The line of a session report.
pub open spec fn report_agent_session_line(
    pane_id: Seq<char>,
    session_id: Seq<char>,
) -> Seq<char> {
    request_text(REPORT_AGENT_SESSION@, report_agent_session_params(pane_id, session_id))
}

/// Writes a request with the given method and parameters as JSON.
fn encode_request(method: &str, params: Vec<(&str, &str)>) -> (line: String)
    requires
        distinct_names(pairs(params@)),
    ensures
        line@ == request_text(method@, pairs(params@)),
        reads_as_request(line@, method@, members(pairs(params@))),
        without_control_characters(line@),
{
    let mut texts: Vec<(&str, &str)> = Vec::new();
    texts.push(("id", REQUEST_ID));
    texts.push(("method", method));
    proof {
        reveal_strlit("id");
        reveal_strlit("method");
        reveal_strlit("params");
        let list = seq![("id"@, REQUEST_ID@), ("method"@, method@)];
        assert(pairs(texts@) =~= list);
        lemma_names_are_distinct();
        assert(list.drop_last() =~= seq![("id"@, REQUEST_ID@)]);
        reveal_with_fuel(members, 3);
        assert("id"@.len() != "params"@.len());
        assert("method"@[0] != "params"@[0]);
        assert(members(list).remove("params"@) =~= Map::empty().insert("id"@, REQUEST_ID@).insert(
            "method"@,
            method@,
        ));
    }
    object_text(texts, "params", params)
}

/// Builds the line for `pane.report_agent`, without the newline that ends it.
///
/// The whole text is JSON whatever the arguments hold, so it reads back as the
/// report, and no control character in them breaks the line.
pub fn encode_report_agent(pane_id: &str, state: State, message: Option<&str>) -> (line: String)
    ensures
        line@ == report_agent_line(pane_id@, state, text::str_view(message)),
        reads_as_request(
            line@,
            REPORT_AGENT@,
            report_agent_object(pane_id@, state, text::str_view(message)),
        ),
        ({
            let always = Map::empty().insert("pane_id"@, pane_id@).insert(
                "source"@,
                "herdr:jcode"@,
            ).insert("agent"@, "jcode"@).insert("state"@, state.name());
            let params = match message {
                Some(given) => always.insert("message"@, given@),
                None => always,
            };
            json_read(line@) == Some(
                (
                    Map::empty().insert("id"@, "jcode"@).insert("method"@, "pane.report_agent"@),
                    Map::empty().insert("params"@, params),
                ),
            )
        }),
        forall|i: int| 0 <= i < line@.len() ==> #[trigger] line@[i] >= '\u{20}',
        without_control_characters(line@),
        !line@.contains('\n'),
{
    let mut params: Vec<(&str, &str)> = Vec::new();
    params.push(("pane_id", pane_id));
    params.push(("source", SOURCE));
    params.push(("agent", AGENT_LABEL));
    params.push(("state", state.as_str()));
    if let Some(text) = message {
        params.push(("message", text));
    }
    proof {
        assert(pairs(params@) =~= report_agent_params(pane_id@, state, text::str_view(message)));
        lemma_state_report_members(pane_id@, state, text::str_view(message));
        lemma_names_are_distinct();
    }
    encode_request(REPORT_AGENT, params)
}

/// Builds the line for `pane.report_agent_session`, without the newline that
/// ends it.
pub fn encode_report_agent_session(pane_id: &str, session_id: &str) -> (line: String)
    ensures
        line@ == report_agent_session_line(pane_id@, session_id@),
        reads_as_request(
            line@,
            REPORT_AGENT_SESSION@,
            report_agent_session_object(pane_id@, session_id@),
        ),
        json_read(line@) == Some(
            (
                Map::empty().insert("id"@, "jcode"@).insert(
                    "method"@,
                    "pane.report_agent_session"@,
                ),
                Map::empty().insert(
                    "params"@,
                    Map::empty().insert("pane_id"@, pane_id@).insert(
                        "source"@,
                        "herdr:jcode"@,
                    ).insert("agent"@, "jcode"@).insert("agent_session_id"@, session_id@),
                ),
            ),
        ),
        forall|i: int| 0 <= i < line@.len() ==> #[trigger] line@[i] >= '\u{20}',
        without_control_characters(line@),
        !line@.contains('\n'),
{
    let mut params: Vec<(&str, &str)> = Vec::new();
    params.push(("pane_id", pane_id));
    params.push(("source", SOURCE));
    params.push(("agent", AGENT_LABEL));
    params.push(("agent_session_id", session_id));
    proof {
        assert(pairs(params@) =~= report_agent_session_params(pane_id@, session_id@));
        lemma_session_report_members(pane_id@, session_id@);
        lemma_names_are_distinct();
    }
    encode_request(REPORT_AGENT_SESSION, params)
}

proof fn lemma_members_push(list: Seq<(Seq<char>, Seq<char>)>, name: Seq<char>, text: Seq<char>)
    ensures
        members(list.push((name, text))) == members(list).insert(name, text),
{
    assert(list.push((name, text)).drop_last() =~= list);
}

proof fn lemma_state_report_members(pane_id: Seq<char>, state: State, message: Option<Seq<char>>)
    ensures
        members(report_agent_params(pane_id, state, message)) == report_agent_object(
            pane_id,
            state,
            message,
        ),
{
    let none = Seq::<(Seq<char>, Seq<char>)>::empty();
    let one = none.push(("pane_id"@, pane_id));
    let two = one.push(("source"@, SOURCE@));
    let three = two.push(("agent"@, AGENT_LABEL@));
    let four = three.push(("state"@, state.name()));
    lemma_members_push(none, "pane_id"@, pane_id);
    lemma_members_push(one, "source"@, SOURCE@);
    lemma_members_push(two, "agent"@, AGENT_LABEL@);
    lemma_members_push(three, "state"@, state.name());
    assert(four =~= report_agent_params(pane_id, state, None));
    if let Some(text) = message {
        lemma_members_push(four, "message"@, text);
    }
}

proof fn lemma_session_report_members(pane_id: Seq<char>, session_id: Seq<char>)
    ensures
        members(report_agent_session_params(pane_id, session_id)) == report_agent_session_object(
            pane_id,
            session_id,
        ),
{
    let none = Seq::<(Seq<char>, Seq<char>)>::empty();
    let one = none.push(("pane_id"@, pane_id));
    let two = one.push(("source"@, SOURCE@));
    let three = two.push(("agent"@, AGENT_LABEL@));
    lemma_members_push(none, "pane_id"@, pane_id);
    lemma_members_push(one, "source"@, SOURCE@);
    lemma_members_push(two, "agent"@, AGENT_LABEL@);
    lemma_members_push(three, "agent_session_id"@, session_id);
    assert(three.push(("agent_session_id"@, session_id)) =~= report_agent_session_params(
        pane_id,
        session_id,
    ));
}

proof fn lemma_names_are_distinct()
    ensures
        "pane_id"@ != "source"@,
        "pane_id"@ != "agent"@,
        "pane_id"@ != "state"@,
        "pane_id"@ != "message"@,
        "pane_id"@ != "agent_session_id"@,
        "source"@ != "agent"@,
        "source"@ != "state"@,
        "source"@ != "message"@,
        "source"@ != "agent_session_id"@,
        "agent"@ != "state"@,
        "agent"@ != "message"@,
        "agent"@ != "agent_session_id"@,
        "state"@ != "message"@,
        "state"@ != "agent_session_id"@,
        "id"@ != "method"@,
        REPORT_AGENT@ != REPORT_AGENT_SESSION@,
{
    reveal_strlit("pane_id");
    reveal_strlit("source");
    reveal_strlit("agent");
    reveal_strlit("state");
    reveal_strlit("message");
    reveal_strlit("agent_session_id");
    reveal_strlit("id");
    reveal_strlit("method");
    reveal_strlit("pane.report_agent");
    reveal_strlit("pane.report_agent_session");
    assert("pane_id"@.len() == 7 && "message"@.len() == 7 && "source"@.len() == 6);
    assert("agent"@.len() == 5 && "state"@.len() == 5 && "agent_session_id"@.len() == 16);
    assert("id"@.len() == 2 && "method"@.len() == 6);
    assert(REPORT_AGENT@.len() < REPORT_AGENT_SESSION@.len());
    assert("pane_id"@[0] != "message"@[0]);
    assert("agent"@[0] != "state"@[0]);
}

/// The parameters of a state report are the pane id, the source, the agent
/// label, the word for the state and, where there is one, the message; each as
/// it was given.
pub proof fn a_state_report_holds_its_fields(
    pane_id: Seq<char>,
    state: State,
    message: Option<Seq<char>>,
)
    ensures
        ({
            let params = report_agent_object(pane_id, state, message);
            &&& params.contains_pair("pane_id"@, pane_id)
            &&& params.contains_pair("source"@, "herdr:jcode"@)
            &&& params.contains_pair("agent"@, "jcode"@)
            &&& params.contains_pair("state"@, state.name())
            &&& message matches Some(text) ==> params.contains_pair("message"@, text)
            &&& message is None ==> !params.contains_key("message"@)
            &&& params.dom() == if message is Some {
                set!["pane_id"@, "source"@, "agent"@, "state"@, "message"@]
            } else {
                set!["pane_id"@, "source"@, "agent"@, "state"@]
            }
        }),
{
    lemma_names_are_distinct();
    let params = report_agent_object(pane_id, state, message);
    if message is Some {
        assert(params.dom() =~= set!["pane_id"@, "source"@, "agent"@, "state"@, "message"@]);
    } else {
        assert(params.dom() =~= set!["pane_id"@, "source"@, "agent"@, "state"@]);
    }
}

/// The parameters of a session report are the pane id, the source, the agent
/// label and the session id; each as it was given.
pub proof fn a_session_report_holds_its_fields(pane_id: Seq<char>, session_id: Seq<char>)
    ensures
        ({
            let params = report_agent_session_object(pane_id, session_id);
            &&& params.contains_pair("pane_id"@, pane_id)
            &&& params.contains_pair("source"@, "herdr:jcode"@)
            &&& params.contains_pair("agent"@, "jcode"@)
            &&& params.contains_pair("agent_session_id"@, session_id)
            &&& params.dom() == set!["pane_id"@, "source"@, "agent"@, "agent_session_id"@]
        }),
{
    lemma_names_are_distinct();
    let params = report_agent_session_object(pane_id, session_id);
    assert(params.dom() =~= set!["pane_id"@, "source"@, "agent"@, "agent_session_id"@]);
}

/// A line reads as a request exactly where a JSON reader finds the id, the
/// method and the parameters in it, and nothing else.
pub proof fn a_request_is_its_members(
    line: Seq<char>,
    method: Seq<char>,
    params: Map<Seq<char>, Seq<char>>,
)
    ensures
        reads_as_request(line, method, params) <==> (json_read(line) matches Some(request)
            && request.0 == Map::empty().insert("id"@, "jcode"@).insert("method"@, method)
            && request.1 == Map::empty().insert("params"@, params)),
{
}

/// A line tells its reader the method and the parameters: one line does not
/// read as two requests.
pub proof fn a_line_reads_one_way(
    line: Seq<char>,
    method_a: Seq<char>,
    params_a: Map<Seq<char>, Seq<char>>,
    method_b: Seq<char>,
    params_b: Map<Seq<char>, Seq<char>>,
)
    requires
        reads_as_request(line, method_a, params_a),
        reads_as_request(line, method_b, params_b),
    ensures
        method_a == method_b,
        params_a == params_b,
{
    let none = Map::<Seq<char>, Map<Seq<char>, Seq<char>>>::empty();
    let id = Map::empty().insert("id"@, REQUEST_ID@);
    assert(none.insert("params"@, params_a)["params"@] == params_a);
    assert(none.insert("params"@, params_b)["params"@] == params_b);
    assert(id.insert("method"@, method_a)["method"@] == method_a);
    assert(id.insert("method"@, method_b)["method"@] == method_b);
}

/// A state report tells its reader everything that went into it: two of them
/// that come out as the same line were made from the same pane, state and
/// message.
pub proof fn a_state_report_can_be_decoded(
    line: Seq<char>,
    pane_a: Seq<char>,
    state_a: State,
    message_a: Option<Seq<char>>,
    pane_b: Seq<char>,
    state_b: State,
    message_b: Option<Seq<char>>,
)
    requires
        reads_as_request(line, REPORT_AGENT@, report_agent_object(pane_a, state_a, message_a)),
        reads_as_request(line, REPORT_AGENT@, report_agent_object(pane_b, state_b, message_b)),
    ensures
        pane_a == pane_b,
        state_a == state_b,
        message_a == message_b,
{
    let a = report_agent_object(pane_a, state_a, message_a);
    let b = report_agent_object(pane_b, state_b, message_b);
    a_line_reads_one_way(line, REPORT_AGENT@, a, REPORT_AGENT@, b);
    a_state_report_holds_its_fields(pane_a, state_a, message_a);
    a_state_report_holds_its_fields(pane_b, state_b, message_b);
    state::state_names_are_distinct(state_a, state_b);
}

/// A session report tells its reader everything that went into it.
pub proof fn a_session_report_can_be_decoded(
    line: Seq<char>,
    pane_a: Seq<char>,
    session_a: Seq<char>,
    pane_b: Seq<char>,
    session_b: Seq<char>,
)
    requires
        reads_as_request(
            line,
            REPORT_AGENT_SESSION@,
            report_agent_session_object(pane_a, session_a),
        ),
        reads_as_request(
            line,
            REPORT_AGENT_SESSION@,
            report_agent_session_object(pane_b, session_b),
        ),
    ensures
        pane_a == pane_b,
        session_a == session_b,
{
    let a = report_agent_session_object(pane_a, session_a);
    let b = report_agent_session_object(pane_b, session_b);
    a_line_reads_one_way(line, REPORT_AGENT_SESSION@, a, REPORT_AGENT_SESSION@, b);
    a_session_report_holds_its_fields(pane_a, session_a);
    a_session_report_holds_its_fields(pane_b, session_b);
}

/// No line is both a state report and a session report.
pub proof fn the_two_reports_differ(
    line: Seq<char>,
    params_a: Map<Seq<char>, Seq<char>>,
    params_b: Map<Seq<char>, Seq<char>>,
)
    requires
        reads_as_request(line, REPORT_AGENT@, params_a),
    ensures
        !reads_as_request(line, REPORT_AGENT_SESSION@, params_b),
{
    lemma_names_are_distinct();
    if reads_as_request(line, REPORT_AGENT_SESSION@, params_b) {
        a_line_reads_one_way(line, REPORT_AGENT@, params_a, REPORT_AGENT_SESSION@, params_b);
    }
}

/// The bytes that carry a line: its UTF-8 encoding, ended by a newline.
pub open spec fn framed(line: Seq<char>) -> Seq<u8> {
    encode_utf8(line).push(NEWLINE)
}

/// Returns the bytes to write for a line.
pub fn frame(line: &str) -> (bytes: Vec<u8>)
    ensures
        bytes@ == framed(line@),
        bytes@ == encode_utf8(line@).push(10u8),
{
    let mut bytes = slice_to_vec(line.as_bytes());
    bytes.push(NEWLINE);
    bytes
}

proof fn lemma_scalar_without_newline(c: char)
    requires
        c != '\n',
    ensures
        !encode_scalar(c as u32).contains(NEWLINE),
{
    let v = c as u32;
    assert(v <= 0x7F ==> (v & 0x7F) as u8 == v) by (bit_vector);
    assert forall|x: u8| #![auto]
        (0x80 | x) >= 0x80 && (0xC0 | x) >= 0x80 && (0xE0 | x) >= 0x80 && (0xF0 | x) >= 0x80 by {
        assert((0x80 | x) >= 0x80 && (0xC0 | x) >= 0x80 && (0xE0 | x) >= 0x80 && (0xF0 | x) >= 0x80)
            by (bit_vector);
    }
}

proof fn lemma_utf8_without_newline(line: Seq<char>)
    requires
        !line.contains('\n'),
    ensures
        !encode_utf8(line).contains(NEWLINE),
    decreases line.len(),
{
    if line.len() > 0 {
        let rest = line.drop_first();
        assert(!rest.contains('\n')) by {
            if rest.contains('\n') {
                let i = rest.index_of('\n');
                assert(line[i + 1] == '\n');
            }
        }
        lemma_utf8_without_newline(rest);
        assert(line.contains(line[0]));
        lemma_scalar_without_newline(line[0]);
    }
}

/// A text without control characters has no line break in it.
pub proof fn no_control_character_is_no_line_break(line: Seq<char>)
    requires
        without_control_characters(line),
    ensures
        !line.contains('\n'),
{
}

/// A line without a line break travels as one line: its bytes hold one newline,
/// the last byte, and what stands before it decodes to the line.
pub proof fn a_frame_holds_one_line(line: Seq<char>)
    requires
        !line.contains('\n'),
    ensures
        framed(line).last() == NEWLINE,
        forall|i: int| 0 <= i < framed(line).len() - 1 ==> framed(line)[i] != NEWLINE,
        decode_utf8(framed(line).drop_last()) == line,
{
    lemma_utf8_without_newline(line);
    assert(framed(line).drop_last() =~= encode_utf8(line));
    encode_utf8_decode_utf8(line);
    assert forall|i: int| 0 <= i < framed(line).len() - 1 implies framed(line)[i] != NEWLINE by {
        assert(encode_utf8(line).contains(encode_utf8(line)[i]));
    }
}

} // verus!
