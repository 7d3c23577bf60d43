//! The variables that Herdr injects into the panes it spawns, and what they
//! say: whether a process runs under Herdr, in which pane, and behind which
//! socket.

use crate::text;
use vstd::prelude::*;

verus! {

/// Set to a yes-word in every process that Herdr manages.
pub const HERDR_ENV: &'static str = "HERDR_ENV";

/// Names the pane that a process runs in.
pub const HERDR_PANE_ID: &'static str = "HERDR_PANE_ID";

/// Names the Unix domain socket that Herdr listens on.
pub const HERDR_SOCKET_PATH: &'static str = "HERDR_SOCKET_PATH";

/// One of the words that switch a variable on. Case matters.
pub open spec fn is_yes_word(word: Seq<char>) -> bool {
    ||| word == "1"@
    ||| word == "true"@
    ||| word == "TRUE"@
    ||| word == "True"@
    ||| word == "yes"@
    ||| word == "on"@
}

/// A value that switches a variable on: a yes-word, with or without white
/// space around it.
pub open spec fn truthy(value: Seq<char>) -> bool {
    is_yes_word(text::trimmed(value))
}

/// Tells whether a value switches a variable on.
pub fn is_truthy(value: &str) -> (on: bool)
    ensures
        on == truthy(value@),
{
    let word = value.trim();
    *word == *"1" || *word == *"true" || *word == *"TRUE" || *word == *"True" || *word == *"yes"
        || *word == *"on"
}

/// The name/value pairs of a list of variables.
pub open spec fn variables(env: Seq<(String, String)>) -> Seq<(Seq<char>, Seq<char>)> {
    env.map_values(|pair: (String, String)| (pair.0@, pair.1@))
}

/// The value of a variable: that of the first pair with its name.
pub open spec fn lookup(vars: Seq<(Seq<char>, Seq<char>)>, key: Seq<char>) -> Option<Seq<char>>
    decreases vars.len(),
{
    if vars.len() == 0 {
        None
    } else if vars.first().0 == key {
        Some(vars.first().1)
    } else {
        lookup(vars.drop_first(), key)
    }
}

/// Looks a variable up in a list of name/value pairs. The first pair with
/// that name wins.
pub fn env_lookup(env: &[(String, String)], key: &str) -> (value: Option<String>)
    ensures
        text::string_view(value) == lookup(variables(env@), key@),
        value is None <==> forall|i: int|
            0 <= i < env@.len() ==> (#[trigger] env@[i]).0@ != key@,
        forall|i: int|
            0 <= i < env@.len() && (#[trigger] env@[i]).0@ == key@ && (forall|j: int|
                0 <= j < i ==> (#[trigger] env@[j]).0@ != key@) ==> (value matches Some(found)
                && found@ == env@[i].1@),
{
    let ghost vars = variables(env@);
    let mut i: usize = 0;
    assert(vars.skip(0) =~= vars);
    while i < env.len()
        invariant
            i <= env.len(),
            vars == variables(env@),
            lookup(vars, key@) == lookup(vars.skip(i as int), key@),
            forall|j: int| 0 <= j < i ==> (#[trigger] env@[j]).0@ != key@,
        decreases env.len() - i,
    {
        assert(vars.skip(i as int).drop_first() =~= vars.skip(i + 1));
        if *env[i].0.as_str() == *key {
            return Some(env[i].1.clone());
        }
        i += 1;
    }
    None
}

/// What the process environment holds of Herdr's variables at one moment.
/// The path is kept as the bytes that the system gave, which need not be UTF-8.
/// A text variable that is not valid Unicode counts as absent.
#[derive(Debug)]
pub struct ProcessEnv {
    /// `HERDR_ENV`.
    pub herdr_env: Option<String>,
    /// `HERDR_PANE_ID`.
    pub pane_id: Option<String>,
    /// `HERDR_SOCKET_PATH`.
    pub socket_path: Option<Vec<u8>>,
}

/// Mathematical content of a `ProcessEnv`.
pub ghost struct EnvView {
    pub herdr_env: Option<Seq<char>>,
    pub pane_id: Option<Seq<char>>,
    pub socket_path: Option<Seq<u8>>,
}

impl View for ProcessEnv {
    type V = EnvView;

    open spec fn view(&self) -> EnvView {
        EnvView {
            herdr_env: text::string_view(self.herdr_env),
            pane_id: text::string_view(self.pane_id),
            socket_path: match self.socket_path {
                Some(path) => Some(path@),
                None => None,
            },
        }
    }
}

impl EnvView {
    /// `HERDR_ENV` is set, and switched on.
    pub open spec fn under_herdr(self) -> bool {
        self.herdr_env matches Some(value) && truthy(value)
    }

    /// The pane id, unless it is missing or empty.
    pub open spec fn usable_pane_id(self) -> Option<Seq<char>> {
        match self.pane_id {
            Some(id) if id.len() > 0 => Some(id),
            _ => None,
        }
    }

    /// The socket path, unless it is missing or empty.
    pub open spec fn usable_socket_path(self) -> Option<Seq<u8>> {
        match self.socket_path {
            Some(path) if path.len() > 0 => Some(path),
            _ => None,
        }
    }
}

impl ProcessEnv {
    /// Tells whether `HERDR_ENV` is set to a yes-word.
    pub fn env_is_truthy(&self) -> (on: bool)
        ensures
            on == self@.under_herdr(),
            on <==> (self.herdr_env matches Some(value) && truthy(value@)),
    {
        match &self.herdr_env {
            Some(value) => is_truthy(value.as_str()),
            None => false,
        }
    }

    /// Returns the pane id. An empty one counts as absent.
    pub fn pane_id(&self) -> (id: Option<String>)
        ensures
            text::string_view(id) == self@.usable_pane_id(),
            id is Some <==> (self.pane_id matches Some(given) && given@.len() > 0),
            id matches Some(found) ==> found@ == self.pane_id->0@,
    {
        match &self.pane_id {
            Some(id) => if id.as_str().is_empty() {
                None
            } else {
                Some(id.clone())
            },
            None => None,
        }
    }

    /// Returns the bytes of the socket path. An empty one counts as absent.
    pub fn socket_path(&self) -> (path: Option<Vec<u8>>)
        ensures
            match path {
                Some(p) => self@.usable_socket_path() == Some(p@),
                None => self@.usable_socket_path() is None,
            },
            path is Some <==> (self.socket_path matches Some(given) && given@.len() > 0),
            path matches Some(found) ==> found@ == self.socket_path->0@,
    {
        match &self.socket_path {
            Some(path) => if path.len() == 0 {
                None
            } else {
                let copy = path.clone();
                assert(copy@ =~= path@);
                Some(copy)
            },
            None => None,
        }
    }
}

} // verus!
