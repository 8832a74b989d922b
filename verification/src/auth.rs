//! The allow-list of administrators and the configuration it is part of.

use crate::text::chars_of;
use vstd::prelude::*;

verus! {

/// The characters that separate the entries of an allow-list.
pub open spec fn is_separator(c: char) -> bool {
    c == ',' || c == ' '
}

/// Whether `list[from..to]` is one entry of the list: a run without
/// separators that is bounded on each side by a separator or by an end of
/// the list. Two separators in a row bound an empty entry.
pub open spec fn is_entry(list: Seq<char>, from: int, to: int) -> bool {
    &&& 0 <= from <= to <= list.len()
    &&& (from == 0 || is_separator(list[from - 1]))
    &&& (to == list.len() || is_separator(list[to]))
    &&& forall|k: int| from <= k < to ==> !is_separator(#[trigger] list[k])
}

/// Whether `sender` is one of the entries of `list`.
pub open spec fn listed(list: Seq<char>, sender: Seq<char>) -> bool {
    exists|from: int, to: int| #[trigger]
        is_entry(list, from, to) && list.subrange(from, to) == sender
}

/// Whether `sender` counts as an administrator: always without a list
/// (open mode), else exactly when the list names the sender.
pub open spec fn admin_spec(admins: Option<Seq<char>>, sender: Seq<char>) -> bool {
    match admins {
        None => true,
        Some(list) => listed(list, sender),
    }
}

fn entry_equals(list: &Vec<char>, from: usize, to: usize, sender: &Vec<char>) -> (same: bool)
    requires
        from <= to <= list.len(),
    ensures
        same == (list@.subrange(from as int, to as int) == sender@),
{
    if to - from != sender.len() {
        return false;
    }
    let ghost entry = list@.subrange(from as int, to as int);
    let mut i: usize = 0;
    while i < sender.len()
        invariant
            from <= to <= list.len(),
            to - from == sender.len(),
            i <= sender.len(),
            entry == list@.subrange(from as int, to as int),
            entry.take(i as int) == sender@.take(i as int),
        decreases sender.len() - i,
    {
        if list[from + i] != sender[i] {
            assert(entry[i as int] != sender@[i as int]);
            return false;
        }
        assert(entry.take(i + 1) == entry.take(i as int).push(entry[i as int]));
        assert(sender@.take(i + 1) == sender@.take(i as int).push(sender@[i as int]));
        i += 1;
    }
    assert(entry.take(sender.len() as int) == entry);
    assert(sender@.take(sender.len() as int) == sender@);
    true
}

/// Whether `sender` may invite the bot and issue privileged commands.
///
/// `admins` is the allow-list as configured: entries separated by commas or
/// spaces. Without a list everyone is allowed.
pub fn is_admin(admins: Option<&str>, sender: &str) -> (allowed: bool)
    ensures
        allowed == admin_spec(
            match admins {
                Some(list) => Some(list@),
                None => None,
            },
            sender@,
        ),
{
    let text = match admins {
        None => {
            return true;
        },
        Some(text) => text,
    };
    let list = chars_of(text);
    let who = chars_of(sender);
    let n = list.len();
    let mut start: usize = 0;
    let mut at: usize = 0;
    while at < n
        invariant
            n == list.len(),
            admins == Some(text),
            list@ == text@,
            who@ == sender@,
            start <= at <= n,
            start == 0 || is_separator(list@[start - 1]),
            forall|k: int| start <= k < at ==> !is_separator(#[trigger] list@[k]),
            forall|from: int, to: int| #[trigger]
                is_entry(list@, from, to) && to < at ==> list@.subrange(from, to) != who@,
        decreases n - at,
    {
        if list[at] == ',' || list[at] == ' ' {
            if entry_equals(&list, start, at, &who) {
                assert(is_entry(list@, start as int, at as int));
                return true;
            }
            assert forall|from: int, to: int| #[trigger]
                is_entry(list@, from, to) && to < at + 1 implies list@.subrange(from, to)
                != who@ by {
                if to == at {
                    if from < start {
                        assert(is_separator(list@[start - 1]));
                    } else if from > start {
                        assert(!is_separator(list@[from - 1]));
                    }
                }
            }
            start = at + 1;
        } else {
            assert forall|from: int, to: int| #[trigger]
                is_entry(list@, from, to) && to < at + 1 implies list@.subrange(from, to)
                != who@ by {
                if to == at {
                    assert(is_separator(list@[to]));
                }
            }
        }
        at += 1;
    }
    let last = entry_equals(&list, start, n, &who);
    proof {
        if last {
            assert(is_entry(list@, start as int, n as int));
        } else {
            assert forall|from: int, to: int| #[trigger]
                is_entry(list@, from, to) implies list@.subrange(from, to) != who@ by {
                if to == n {
                    if from < start {
                        assert(is_separator(list@[start - 1]));
                    } else if from > start {
                        assert(!is_separator(list@[from - 1]));
                    }
                }
            }
        }
    }
    last
}

/// The variables that the bot cannot start without.
#[derive(Clone, Copy, Debug, PartialEq, Eq)]
pub enum MissingVariable {
    Homeserver,
    MatrixId,
    Password,
}

impl MissingVariable {
    /// The name of the variable in the environment.
    pub fn name(&self) -> (name: &'static str)
        ensures
            name@ == match self {
                MissingVariable::Homeserver => "HOMESERVER"@,
                MissingVariable::MatrixId => "MATRIX_ID"@,
                MissingVariable::Password => "PASSWORD"@,
            },
    {
        match self {
            MissingVariable::Homeserver => "HOMESERVER",
            MissingVariable::MatrixId => "MATRIX_ID",
            MissingVariable::Password => "PASSWORD",
        }
    }
}

/// What the bot is configured with. It is made once, at startup, and handed
/// to whatever needs it.
#[derive(Clone, Debug)]
pub struct Config {
    pub homeserver: String,
    pub matrix_id: String,
    pub password: String,
    pub admin: Option<String>,
    pub tg_bot_token: Option<String>,
}

impl Config {
    /// The configuration made of the values found in the environment.
    /// The homeserver, the account and its password are required; the
    /// first of them that is missing is reported.
    pub fn new(
        homeserver: Option<String>,
        matrix_id: Option<String>,
        password: Option<String>,
        admin: Option<String>,
        tg_bot_token: Option<String>,
    ) -> (config: Result<Config, MissingVariable>)
        ensures
            match config {
                Ok(c) => homeserver == Some(c.homeserver) && matrix_id == Some(c.matrix_id)
                    && password == Some(c.password) && c.admin == admin && c.tg_bot_token
                    == tg_bot_token,
                Err(MissingVariable::Homeserver) => homeserver is None,
                Err(MissingVariable::MatrixId) => homeserver is Some && matrix_id is None,
                Err(MissingVariable::Password) => homeserver is Some && matrix_id is Some
                    && password is None,
            },
    {
        let homeserver = match homeserver {
            Some(value) => value,
            None => {
                return Err(MissingVariable::Homeserver);
            },
        };
        let matrix_id = match matrix_id {
            Some(value) => value,
            None => {
                return Err(MissingVariable::MatrixId);
            },
        };
        let password = match password {
            Some(value) => value,
            None => {
                return Err(MissingVariable::Password);
            },
        };
        Ok(Config { homeserver, matrix_id, password, admin, tg_bot_token })
    }

    /// Whether `sender` is an administrator under this configuration.
    pub fn is_admin(&self, sender: &str) -> (allowed: bool)
        ensures
            allowed == admin_spec(
                match self.admin {
                    Some(list) => Some(list@),
                    None => None,
                },
                sender@,
            ),
    {
        match &self.admin {
            Some(list) => is_admin(Some(list.as_str()), sender),
            None => is_admin(None, sender),
        }
    }
}

} // verus!
