//! The Firefox command line supplied in capabilities: flag lookup and the
//! flags that a client may not set.

use crate::json::{str_eq, texts};
use mozrunner::firefox_args::parse_args;
use vstd::prelude::*;

verus! {

/// An argument as Firefox reads it: the flag it names, written the way
/// Firefox spells it (`--profile`, `-P`, `--foo`), and the value it carries
/// (`bar` in `--foo=bar`, or the whole text of an argument that is no flag).
pub type ArgToken = (Option<String>, Option<String>);

pub open spec fn opt_view(o: Option<String>) -> Option<Seq<char>> {
    match o {
        Some(s) => Some(s@),
        None => None,
    }
}

pub open spec fn token_view(t: ArgToken) -> (Option<Seq<char>>, Option<Seq<char>>) {
    (opt_view(t.0), opt_view(t.1))
}

pub open spec fn tokens_view(ts: Seq<ArgToken>) -> Seq<(Option<Seq<char>>, Option<Seq<char>>)> {
    ts.map_values(|t: ArgToken| token_view(t))
}

/// How Firefox's argument grammar reads one command-line argument.  The
/// grammar depends on the target: flags start with `-`, and on Windows with
/// `/` too.
pub uninterp spec fn arg_token(arg: Seq<char>) -> (Option<Seq<char>>, Option<Seq<char>>);

/// Whether Firefox's grammar reads a leading `c` as the start of a flag on
/// this target.
pub uninterp spec fn is_flag_prefix(c: char) -> bool;

/// Relies on mozrunner's `runner::platform::arg_prefix_char`: `-` starts a
/// flag on every target, and nothing but `-` and `/` ever does.
#[verifier::external_body]
fn flag_prefix(c: char) -> (r: bool)
    ensures
        r == is_flag_prefix(c),
        c == '-' ==> r,
        r ==> c == '-' || c == '/',
{
    mozrunner::runner::platform::arg_prefix_char(c)
}

pub open spec fn ends_flag_name(c: char) -> bool {
    c == ' ' || c == '='
}

pub open spec fn is_ascii_char(c: char) -> bool {
    (c as u32) < 128
}

/// Firefox's grammar can read `arg`: where it starts with a flag prefix,
/// every character up to the first `' '` or `'='` is ASCII.  (The grammar
/// counts the name in characters and cuts the text at those counts as byte
/// offsets.)
pub open spec fn readable_arg(arg: Seq<char>) -> bool {
    arg.len() > 0 && is_flag_prefix(arg[0]) ==> forall|i: int|
        #![trigger arg[i]]
        0 <= i < arg.len() && (forall|j: int| 0 <= j < i ==> !ends_flag_name(arg[j]))
            ==> is_ascii_char(arg[i])
}

pub open spec fn all_readable(args: Seq<Seq<char>>) -> bool {
    forall|i: int| 0 <= i < args.len() ==> readable_arg(#[trigger] args[i])
}

/// Relies on mozrunner's `firefox_args::parse_args`: one token per argument,
/// in order, each read from that argument's text alone; the flag is given by
/// the `Display` text of mozrunner's `Arg`.  An argument that the grammar
/// would cut inside a character makes it panic, so none is passed.
#[verifier::external_body]
fn parse_firefox_args(args: &Vec<String>) -> (r: Vec<ArgToken>)
    requires
        all_readable(texts(args@)),
    ensures
        r@.len() == args@.len(),
        forall|i: int| 0 <= i < args@.len() ==> token_view(#[trigger] r@[i]) == arg_token(args@[i]@),
{
    let os_args: Vec<_> = args.iter().map(|a| a.into()).collect();
    parse_args(os_args.iter()).into_iter().map(|(arg, value)| (arg.map(|a| a.to_string()), value)).collect()
}

pub open spec fn tokens_of(args: Seq<Seq<char>>) -> Seq<(Option<Seq<char>>, Option<Seq<char>>)> {
    Seq::new(args.len(), |i: int| arg_token(args[i]))
}

/// Checks that Firefox's grammar can read `arg`.
pub fn is_readable_arg(arg: &str) -> (r: bool)
    ensures
        r == readable_arg(arg@),
{
    let n = arg.unicode_len();
    if n == 0 || !flag_prefix(arg.get_char(0)) {
        return true;
    }
    let mut i: usize = 0;
    while i < n
        invariant
            n == arg@.len(),
            n > 0,
            is_flag_prefix(arg@[0]),
            i <= n,
            forall|k: int| 0 <= k < i ==> !ends_flag_name(#[trigger] arg@[k]) && is_ascii_char(arg@[k]),
        decreases n - i,
    {
        let c = arg.get_char(i);
        if c == ' ' || c == '=' {
            assert forall|m: int|
                0 <= m < arg@.len() && (forall|j: int| 0 <= j < m ==> !ends_flag_name(arg@[j]))
                    implies is_ascii_char(#[trigger] arg@[m]) by {
                if m > i {
                    assert(ends_flag_name(arg@[i as int]));
                }
            }
            return true;
        }
        if (c as u32) >= 128 {
            assert(!ends_flag_name(arg@[i as int]) && !is_ascii_char(arg@[i as int]));
            assert(forall|j: int| 0 <= j < i ==> !ends_flag_name(arg@[j]));
            return false;
        }
        i = i + 1;
    }
    true
}

/// Reads every argument with Firefox's grammar; `None` where some argument
/// cannot be read.
pub fn tokenize(args: &Vec<String>) -> (r: Option<Vec<ArgToken>>)
    ensures
        match r {
            Some(ts) => all_readable(texts(args@)) && tokens_view(ts@) == tokens_of(texts(args@)),
            None => !all_readable(texts(args@)),
        },
{
    let mut i: usize = 0;
    while i < args.len()
        invariant
            i <= args@.len(),
            forall|k: int| 0 <= k < i ==> readable_arg(#[trigger] texts(args@)[k]),
        decreases args@.len() - i,
    {
        if !is_readable_arg(args[i].as_str()) {
            assert(!readable_arg(texts(args@)[i as int]));
            return None;
        }
        i = i + 1;
    }
    let r = parse_firefox_args(args);
    assert(tokens_view(r@) =~= tokens_of(texts(args@)));
    Some(r)
}

/// `i` is the first token that names `flag`.
pub open spec fn flag_at(ts: Seq<(Option<Seq<char>>, Option<Seq<char>>)>, flag: Seq<char>, i: int) -> bool {
    &&& 0 <= i < ts.len()
    &&& ts[i].0 == Some(flag)
    &&& forall|j: int| 0 <= j < i ==> ts[j].0 != Some(flag)
}

/// The value given to the first occurrence of `flag`: the one written with
/// it (`--flag=value`), else the next argument when that is no flag.
pub open spec fn flag_value(ts: Seq<(Option<Seq<char>>, Option<Seq<char>>)>, flag: Seq<char>) -> Option<Seq<char>> {
    if exists|i: int| flag_at(ts, flag, i) {
        let i = choose|i: int| flag_at(ts, flag, i);
        if ts[i].1 is Some {
            ts[i].1
        } else if i + 1 < ts.len() && ts[i + 1].0 is None {
            ts[i + 1].1
        } else {
            None
        }
    } else {
        None
    }
}

fn clone_opt(o: &Option<String>) -> (r: Option<String>)
    ensures
        opt_view(r) == opt_view(*o),
{
    match o {
        Some(s) => Some(s.clone()),
        None => None,
    }
}

fn names_flag(t: &ArgToken, flag: &str) -> (r: bool)
    ensures
        r == (token_view(*t).0 == Some(flag@)),
{
    match &t.0 {
        Some(f) => str_eq(f.as_str(), flag),
        None => false,
    }
}

/// The value given to `flag` on the command line.
pub fn flag_value_of(ts: &Vec<ArgToken>, flag: &str) -> (r: Option<String>)
    ensures
        opt_view(r) == flag_value(tokens_view(ts@), flag@),
{
    let ghost tv = tokens_view(ts@);
    let mut i: usize = 0;
    while i < ts.len()
        invariant
            tv == tokens_view(ts@),
            i <= ts@.len(),
            forall|j: int| 0 <= j < i ==> tv[j].0 != Some(flag@),
        decreases ts@.len() - i,
    {
        if names_flag(&ts[i], flag) {
            proof {
                assert(flag_at(tv, flag@, i as int));
                let k = choose|k: int| flag_at(tv, flag@, k);
                assert(k == i) by {
                    if k < i {
                        assert(tv[k].0 != Some(flag@));
                    } else if i < k {
                        assert(tv[i as int].0 != Some(flag@));
                    }
                }
            }
            if ts[i].1.is_some() {
                return clone_opt(&ts[i].1);
            } else if i + 1 < ts.len() && ts[i + 1].0.is_none() {
                return clone_opt(&ts[i + 1].1);
            } else {
                return None;
            }
        }
        i = i + 1;
    }
    None
}

/// A flag that only the server may set: it controls the automation
/// channels.
#[derive(Debug, Clone, Copy, PartialEq, Eq, Structural)]
pub enum BlockedFlag {
    Marionette,
    RemoteAllowHosts,
    RemoteAllowOrigins,
    RemoteDebuggingPort,
}

impl BlockedFlag {
    /// How Firefox writes the flag.
    pub open spec fn spec_text(self) -> Seq<char> {
        match self {
            BlockedFlag::Marionette => "--marionette"@,
            BlockedFlag::RemoteAllowHosts => "--remote-allow-hosts"@,
            BlockedFlag::RemoteAllowOrigins => "--remote-allow-origins"@,
            BlockedFlag::RemoteDebuggingPort => "--remote-debugging-port"@,
        }
    }

    /// How Firefox writes the flag.
    pub fn text(&self) -> (r: &'static str)
        ensures
            r@ == self.spec_text(),
    {
        match self {
            BlockedFlag::Marionette => "--marionette",
            BlockedFlag::RemoteAllowHosts => "--remote-allow-hosts",
            BlockedFlag::RemoteAllowOrigins => "--remote-allow-origins",
            BlockedFlag::RemoteDebuggingPort => "--remote-debugging-port",
        }
    }
}

/// The server-owned flag that a flag text stands for.
pub open spec fn blocked_named(f: Seq<char>) -> Option<BlockedFlag> {
    if f == "--marionette"@ {
        Some(BlockedFlag::Marionette)
    } else if f == "--remote-allow-hosts"@ {
        Some(BlockedFlag::RemoteAllowHosts)
    } else if f == "--remote-allow-origins"@ {
        Some(BlockedFlag::RemoteAllowOrigins)
    } else if f == "--remote-debugging-port"@ {
        Some(BlockedFlag::RemoteDebuggingPort)
    } else {
        None
    }
}

fn blocked_flag(f: &str) -> (r: Option<BlockedFlag>)
    ensures
        r == blocked_named(f@),
{
    if str_eq(f, "--marionette") {
        Some(BlockedFlag::Marionette)
    } else if str_eq(f, "--remote-allow-hosts") {
        Some(BlockedFlag::RemoteAllowHosts)
    } else if str_eq(f, "--remote-allow-origins") {
        Some(BlockedFlag::RemoteAllowOrigins)
    } else if str_eq(f, "--remote-debugging-port") {
        Some(BlockedFlag::RemoteDebuggingPort)
    } else {
        None
    }
}

pub open spec fn blocked_at(ts: Seq<(Option<Seq<char>>, Option<Seq<char>>)>, i: int) -> bool {
    &&& 0 <= i < ts.len()
    &&& ts[i].0 is Some
    &&& blocked_named(ts[i].0->0) is Some
}

/// The first flag on the command line that only the server may set.
pub open spec fn first_blocked(ts: Seq<(Option<Seq<char>>, Option<Seq<char>>)>) -> Option<BlockedFlag> {
    if exists|i: int| blocked_at(ts, i) && forall|j: int| 0 <= j < i ==> !blocked_at(ts, j) {
        let i = choose|i: int| blocked_at(ts, i) && forall|j: int| 0 <= j < i ==> !blocked_at(ts, j);
        blocked_named(ts[i].0->0)
    } else {
        None
    }
}

/// Where some flag is server-owned, a first one is.
pub proof fn lemma_first_blocked(ts: Seq<(Option<Seq<char>>, Option<Seq<char>>)>, i: int)
    requires
        blocked_at(ts, i),
    ensures
        first_blocked(ts) is Some,
    decreases i,
{
    if exists|j: int| 0 <= j < i && blocked_at(ts, j) {
        let j = choose|j: int| 0 <= j < i && blocked_at(ts, j);
        lemma_first_blocked(ts, j);
    } else {
        assert(blocked_at(ts, i) && forall|j: int| 0 <= j < i ==> !blocked_at(ts, j));
    }
}

/// Finds the first flag on the command line that only the server may set.
pub fn find_blocked(ts: &Vec<ArgToken>) -> (r: Option<BlockedFlag>)
    ensures
        r == first_blocked(tokens_view(ts@)),
{
    let ghost tv = tokens_view(ts@);
    let mut i: usize = 0;
    while i < ts.len()
        invariant
            tv == tokens_view(ts@),
            i <= ts@.len(),
            forall|j: int| 0 <= j < i ==> !blocked_at(tv, j),
        decreases ts@.len() - i,
    {
        if let Some(f) = &ts[i].0 {
            if let Some(b) = blocked_flag(f.as_str()) {
                proof {
                    assert(blocked_at(tv, i as int));
                    let k = choose|k: int|
                        blocked_at(tv, k) && forall|j: int| 0 <= j < k ==> !blocked_at(tv, j);
                    assert(k == i) by {
                        if k < i {
                        } else if i < k {
                            assert(!blocked_at(tv, i as int));
                        }
                    }
                }
                return Some(b);
            }
        }
        i = i + 1;
    }
    proof {
        if exists|k: int| blocked_at(tv, k) && forall|j: int| 0 <= j < k ==> !blocked_at(tv, j) {
            let k = choose|k: int| blocked_at(tv, k) && forall|j: int| 0 <= j < k ==> !blocked_at(tv, j);
            assert(!blocked_at(tv, k));
        }
    }
    None
}

} // verus!
