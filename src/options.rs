//! The launch configuration resolved from `moz:firefoxOptions`: profile,
//! command line, environment, logging, preferences and Android settings.

use crate::android::{android_spec, AndroidOptions, AndroidOptionsView};
use crate::args::{
    all_readable, find_blocked, first_blocked, flag_value, flag_value_of, opt_view, tokenize, tokens_of, tokens_view,
    ArgToken,
};
use crate::error::CapsError;
use crate::json::{
    contains_key, get, get_spec, remove, remove_spec, str_of, string_array, texts, to_string_vec,
    Json, Number,
};
use crate::text::{comma_joined, decimal, decimal_text, join_with_commas};
use base64::Engine;
use vstd::prelude::*;

verus! {

/// A verbosity of the driver's log, from most to least severe.
#[derive(Debug, Clone, Copy, PartialEq, Eq, Structural)]
pub enum Level {
    Fatal,
    Error,
    Warn,
    Info,
    Config,
    Debug,
    Trace,
}

/// `s` spells `name` up to ASCII case; `name` is lower case.
pub open spec fn spells(s: Seq<char>, name: Seq<char>) -> bool {
    &&& s.len() == name.len()
    &&& forall|i: int|
        0 <= i < s.len() ==> (#[trigger] s[i] == name[i] || ('A' <= s[i] && s[i] <= 'Z' && s[i]
            as u32 + 32 == name[i] as u32))
}

impl Level {
    /// The level a name stands for, in any ASCII case.
    pub open spec fn spec_named(s: Seq<char>) -> Option<Level> {
        if spells(s, "fatal"@) {
            Some(Level::Fatal)
        } else if spells(s, "error"@) {
            Some(Level::Error)
        } else if spells(s, "warn"@) {
            Some(Level::Warn)
        } else if spells(s, "info"@) {
            Some(Level::Info)
        } else if spells(s, "config"@) {
            Some(Level::Config)
        } else if spells(s, "debug"@) {
            Some(Level::Debug)
        } else if spells(s, "trace"@) {
            Some(Level::Trace)
        } else {
            None
        }
    }

    /// Reads a level from its name, in any ASCII case.
    pub fn from_name(s: &str) -> (r: Option<Level>)
        ensures
            r == Level::spec_named(s@),
    {
        if spelled(s, "fatal") {
            Some(Level::Fatal)
        } else if spelled(s, "error") {
            Some(Level::Error)
        } else if spelled(s, "warn") {
            Some(Level::Warn)
        } else if spelled(s, "info") {
            Some(Level::Info)
        } else if spelled(s, "config") {
            Some(Level::Config)
        } else if spelled(s, "debug") {
            Some(Level::Debug)
        } else if spelled(s, "trace") {
            Some(Level::Trace)
        } else {
            None
        }
    }
}

fn spelled(s: &str, name: &str) -> (r: bool)
    ensures
        r == spells(s@, name@),
{
    let n = s.unicode_len();
    if n != name.unicode_len() {
        return false;
    }
    let mut i: usize = 0;
    while i < n
        invariant
            n == s@.len(),
            n == name@.len(),
            i <= n,
            forall|j: int|
                0 <= j < i ==> (#[trigger] s@[j] == name@[j] || ('A' <= s@[j] && s@[j] <= 'Z'
                    && s@[j] as u32 + 32 == name@[j] as u32)),
        decreases n - i,
    {
        let c = s.get_char(i);
        let d = name.get_char(i);
        if !(c == d || ('A' <= c && c <= 'Z' && c as u32 + 32 == d as u32)) {
            return false;
        }
        i = i + 1;
    }
    true
}

/// Logging settings of the session.
#[derive(Debug, Clone, Copy, PartialEq, Eq, Structural)]
pub struct LogOptions {
    pub level: Option<Level>,
}

/// A Firefox preference value.
#[derive(Debug, PartialEq)]
pub enum PrefValue {
    Bool(bool),
    String(String),
    Int(i64),
}

pub enum PrefView {
    Bool(bool),
    String(Seq<char>),
    Int(i64),
}

pub open spec fn pref_view(p: PrefValue) -> PrefView {
    match p {
        PrefValue::Bool(b) => PrefView::Bool(b),
        PrefValue::String(s) => PrefView::String(s@),
        PrefValue::Int(i) => PrefView::Int(i),
    }
}

/// The profile that Firefox is started with.
#[derive(Debug, PartialEq)]
pub enum ProfileType {
    /// A zip archive of a profile directory, sent in capabilities.
    Archive(Vec<u8>),
    /// The profile directory named by `--profile`.
    Path(String),
    /// A profile chosen by name with `-P`.
    Named,
    /// A fresh profile, discarded when the session ends.
    Temporary,
}

pub enum ProfileView {
    Archive(Seq<u8>),
    Path(Seq<char>),
    Named,
    Temporary,
}

pub open spec fn profile_view(p: ProfileType) -> ProfileView {
    match p {
        ProfileType::Archive(b) => ProfileView::Archive(b@),
        ProfileType::Path(s) => ProfileView::Path(s@),
        ProfileType::Named => ProfileView::Named,
        ProfileType::Temporary => ProfileView::Temporary,
    }
}

/// Settings of the driver that shape how Firefox is started.
pub struct MarionetteSettings {
    /// The port of the Remote Agent, the same on host and device.
    pub websocket_port: u16,
    /// Additional `Host` header values allowed on WebDriver BiDi connections.
    pub allow_hosts: Vec<String>,
    /// Additional `Origin` header values allowed on WebDriver BiDi connections.
    pub allow_origins: Vec<String>,
    pub android_storage: mozdevice::AndroidStorageInput,
}

/// The Firefox launch configuration requested by a session's capabilities.
#[derive(Debug)]
pub struct FirefoxOptions {
    pub binary: Option<String>,
    pub profile: ProfileType,
    pub args: Option<Vec<String>>,
    pub env: Option<Vec<(String, String)>>,
    pub log: LogOptions,
    pub prefs: Vec<(String, PrefValue)>,
    pub android: Option<AndroidOptions>,
    pub use_websocket: bool,
}

pub struct FirefoxOptionsView {
    pub binary: Option<Seq<char>>,
    pub profile: ProfileView,
    pub args: Option<Seq<Seq<char>>>,
    pub env: Option<Seq<(Seq<char>, Seq<char>)>>,
    pub log: LogOptions,
    pub prefs: Seq<(Seq<char>, PrefView)>,
    pub android: Option<AndroidOptionsView>,
    pub use_websocket: bool,
}

pub open spec fn env_view(e: Option<Vec<(String, String)>>) -> Option<Seq<(Seq<char>, Seq<char>)>> {
    match e {
        Some(v) => Some(v@.map_values(|p: (String, String)| (p.0@, p.1@))),
        None => None,
    }
}

pub open spec fn prefs_view(p: Seq<(String, PrefValue)>) -> Seq<(Seq<char>, PrefView)> {
    p.map_values(|e: (String, PrefValue)| (e.0@, pref_view(e.1)))
}

pub open spec fn args_view(a: Option<Vec<String>>) -> Option<Seq<Seq<char>>> {
    match a {
        Some(v) => Some(texts(v@)),
        None => None,
    }
}

pub open spec fn android_view(a: Option<AndroidOptions>) -> Option<AndroidOptionsView> {
    match a {
        Some(x) => Some(x@),
        None => None,
    }
}

impl View for FirefoxOptions {
    type V = FirefoxOptionsView;

    open spec fn view(&self) -> FirefoxOptionsView {
        FirefoxOptionsView {
            binary: opt_view(self.binary),
            profile: profile_view(self.profile),
            args: args_view(self.args),
            env: env_view(self.env),
            log: self.log,
            prefs: prefs_view(self.prefs@),
            android: android_view(self.android),
            use_websocket: self.use_websocket,
        }
    }
}

/// What a JSON value gives as a preference: strings, booleans and integers
/// that fit `i64` keep their value; anything else is refused.
pub open spec fn pref_spec(v: Json) -> Result<PrefView, CapsError> {
    match v {
        Json::String(s) => Ok(PrefView::String(s@)),
        Json::Bool(b) => Ok(PrefView::Bool(b)),
        Json::Number(Number::Int(i)) => Ok(PrefView::Int(i)),
        Json::Number(Number::UInt(u)) => if u <= i64::MAX {
            Ok(PrefView::Int(u as i64))
        } else {
            Err(CapsError::PrefValueUnsupported)
        },
        _ => Err(CapsError::PrefValueUnsupported),
    }
}

/// Turns a JSON value into a preference value.
pub fn pref_from_json(value: &Json) -> (r: Result<PrefValue, CapsError>)
    ensures
        match r {
            Ok(p) => pref_spec(*value) == Ok::<PrefView, CapsError>(pref_view(p)),
            Err(e) => pref_spec(*value) == Err::<PrefView, CapsError>(e),
        },
{
    match value {
        Json::String(s) => Ok(PrefValue::String(s.clone())),
        Json::Bool(b) => Ok(PrefValue::Bool(*b)),
        Json::Number(Number::Int(i)) => Ok(PrefValue::Int(*i)),
        Json::Number(Number::UInt(u)) => {
            if *u <= i64::MAX as u64 {
                Ok(PrefValue::Int(*u as i64))
            } else {
                Err(CapsError::PrefValueUnsupported)
            }
        },
        _ => Err(CapsError::PrefValueUnsupported),
    }
}

pub open spec fn all_prefs(o: Seq<(String, Json)>) -> bool {
    forall|i: int| 0 <= i < o.len() ==> (#[trigger] pref_spec(o[i].1)) is Ok
}

/// The `prefs` object, each entry turned into a preference.
pub open spec fn prefs_spec(options: Seq<(String, Json)>) -> Result<Seq<(Seq<char>, PrefView)>, CapsError> {
    match get_spec(options, "prefs"@) {
        None => Ok(Seq::empty()),
        Some(Json::Object(o)) => if all_prefs(o@) {
            Ok(Seq::new(o@.len(), |i: int| (o@[i].0@, pref_spec(o@[i].1)->Ok_0)))
        } else {
            Err(CapsError::PrefValueUnsupported)
        },
        Some(_) => Err(CapsError::PrefsNotObject),
    }
}

/// The `env` object, whose values must all be strings.
pub open spec fn env_spec(options: Seq<(String, Json)>) -> Result<Option<Seq<(Seq<char>, Seq<char>)>>, CapsError> {
    match get_spec(options, "env"@) {
        None => Ok(None),
        Some(Json::Object(o)) => if forall|i: int| 0 <= i < o@.len() ==> (#[trigger] o@[i].1) is String {
            Ok(Some(Seq::new(o@.len(), |i: int| (o@[i].0@, str_of(o@[i].1)->0))))
        } else {
            Err(CapsError::EnvValueNotString)
        },
        Some(_) => Err(CapsError::EnvNotObject),
    }
}

/// The `log` object; only its `level` is read.
pub open spec fn log_spec(options: Seq<(String, Json)>) -> Result<LogOptions, CapsError> {
    match get_spec(options, "log"@) {
        None => Ok(LogOptions { level: None }),
        Some(Json::Object(o)) => match get_spec(o@, "level"@) {
            None => Ok(LogOptions { level: None }),
            Some(Json::String(l)) => match Level::spec_named(l@) {
                Some(level) => Ok(LogOptions { level: Some(level) }),
                None => Err(CapsError::LogLevelUnknown),
            },
            Some(_) => Err(CapsError::LogLevelNotString),
        },
        Some(_) => Err(CapsError::LogNotObject),
    }
}

/// The `args` array, whose entries must all be strings.
pub open spec fn args_spec(options: Seq<(String, Json)>) -> Result<Option<Seq<Seq<char>>>, CapsError> {
    match get_spec(options, "args"@) {
        None => Ok(None),
        Some(Json::Array(a)) => match string_array(a@) {
            Some(t) => Ok(Some(t)),
            None => Err(CapsError::ArgsNotStrings),
        },
        Some(_) => Err(CapsError::ArgsNotArray),
    }
}

/// The bytes that base64's standard alphabet, with padding, decodes from a
/// text; `None` where the text is no such encoding.
pub uninterp spec fn base64_decoded(text: Seq<char>) -> Option<Seq<u8>>;

/// Relies on base64's `STANDARD` engine `decode`: the bytes depend on the
/// text alone, and an error means that the text is not valid base64.
#[verifier::external_body]
fn decode_base64(text: &str) -> (r: Option<Vec<u8>>)
    ensures
        match r {
            Some(b) => base64_decoded(text@) == Some(b@),
            None => base64_decoded(text@) is None,
        },
{
    base64::prelude::BASE64_STANDARD.decode(text).ok()
}

/// The profile archive sent base64-encoded under `profile`.
pub open spec fn profile_spec(options: Seq<(String, Json)>) -> Result<Option<Seq<u8>>, CapsError> {
    match get_spec(options, "profile"@) {
        None => Ok(None),
        Some(Json::String(t)) => match base64_decoded(t@) {
            Some(b) => Ok(Some(b)),
            None => Err(CapsError::ProfileNotBase64),
        },
        Some(_) => Err(CapsError::ProfileNotString),
    }
}

impl FirefoxOptions {
    /// Options with nothing set: no binary, a temporary profile, default
    /// logging and no preferences.
    pub fn new() -> (r: FirefoxOptions)
        ensures
            r@ == default_view(),
    {
        let r = FirefoxOptions {
            binary: None,
            profile: ProfileType::Temporary,
            args: None,
            env: None,
            log: LogOptions { level: None },
            prefs: Vec::new(),
            android: None,
            use_websocket: false,
        };
        assert(r@.prefs =~= Seq::<(Seq<char>, PrefView)>::empty());
        r
    }

    /// Reads the profile archive from `profile`.
    pub fn load_profile(options: &Vec<(String, Json)>) -> (r: Result<Option<Vec<u8>>, CapsError>)
        ensures
            match r {
                Ok(Some(b)) => profile_spec(options@) == Ok::<Option<Seq<u8>>, CapsError>(Some(b@)),
                Ok(None) => profile_spec(options@) == Ok::<Option<Seq<u8>>, CapsError>(None),
                Err(e) => profile_spec(options@) == Err::<Option<Seq<u8>>, CapsError>(e),
            },
    {
        match get(options, "profile") {
            None => Ok(None),
            Some(Json::String(t)) => match decode_base64(t.as_str()) {
                Some(b) => Ok(Some(b)),
                None => Err(CapsError::ProfileNotBase64),
            },
            Some(_) => Err(CapsError::ProfileNotString),
        }
    }

    /// Reads the command line from `args`.
    pub fn load_args(options: &Vec<(String, Json)>) -> (r: Result<Option<Vec<String>>, CapsError>)
        ensures
            match r {
                Ok(a) => args_spec(options@) == Ok::<Option<Seq<Seq<char>>>, CapsError>(args_view(a)),
                Err(e) => args_spec(options@) == Err::<Option<Seq<Seq<char>>>, CapsError>(e),
            },
    {
        match get(options, "args") {
            None => Ok(None),
            Some(Json::Array(a)) => match to_string_vec(a) {
                Some(v) => Ok(Some(v)),
                None => Err(CapsError::ArgsNotStrings),
            },
            Some(_) => Err(CapsError::ArgsNotArray),
        }
    }

    /// Reads the environment variables from `env`, in payload order.
    pub fn load_env(options: &Vec<(String, Json)>) -> (r: Result<Option<Vec<(String, String)>>, CapsError>)
        ensures
            match r {
                Ok(e) => env_spec(options@) == Ok::<Option<Seq<(Seq<char>, Seq<char>)>>, CapsError>(env_view(e)),
                Err(e) => env_spec(options@) == Err::<Option<Seq<(Seq<char>, Seq<char>)>>, CapsError>(e),
            },
    {
        let o = match get(options, "env") {
            None => {
                return Ok(None);
            },
            Some(Json::Object(o)) => o,
            Some(_) => {
                return Err(CapsError::EnvNotObject);
            },
        };
        let mut rv: Vec<(String, String)> = Vec::new();
        let mut i: usize = 0;
        while i < o.len()
            invariant
                get_spec(options@, "env"@) == Some(Json::Object(*o)),
                i <= o@.len(),
                rv@.len() == i,
                forall|j: int| 0 <= j < i ==> (#[trigger] o@[j].1) is String,
                forall|j: int|
                    0 <= j < i ==> (#[trigger] rv@[j]).0@ == o@[j].0@ && rv@[j].1@ == str_of(
                        o@[j].1,
                    )->0,
            decreases o@.len() - i,
        {
            match &o[i].1 {
                Json::String(v) => {
                    rv.push((o[i].0.clone(), v.clone()));
                },
                _ => {
                    assert(!(o@[i as int].1 is String));
                    return Err(CapsError::EnvValueNotString);
                },
            }
            i = i + 1;
        }
        proof {
            assert(env_view(Some(rv)) == Some(
                Seq::new(o@.len(), |i: int| (o@[i].0@, str_of(o@[i].1)->0)),
            )) by {
                assert(rv@.map_values(|p: (String, String)| (p.0@, p.1@)) =~= Seq::new(
                    o@.len(),
                    |i: int| (o@[i].0@, str_of(o@[i].1)->0),
                ));
            }
        }
        Ok(Some(rv))
    }

    /// Reads the logging settings from `log`.
    pub fn load_log(options: &Vec<(String, Json)>) -> (r: Result<LogOptions, CapsError>)
        ensures
            match r {
                Ok(l) => log_spec(options@) == Ok::<LogOptions, CapsError>(l),
                Err(e) => log_spec(options@) == Err::<LogOptions, CapsError>(e),
            },
    {
        match get(options, "log") {
            None => Ok(LogOptions { level: None }),
            Some(Json::Object(o)) => match get(o, "level") {
                None => Ok(LogOptions { level: None }),
                Some(Json::String(l)) => match Level::from_name(l.as_str()) {
                    Some(level) => Ok(LogOptions { level: Some(level) }),
                    None => Err(CapsError::LogLevelUnknown),
                },
                Some(_) => Err(CapsError::LogLevelNotString),
            },
            Some(_) => Err(CapsError::LogNotObject),
        }
    }

    /// Reads the preferences from `prefs`, in payload order.
    pub fn load_prefs(options: &Vec<(String, Json)>) -> (r: Result<Vec<(String, PrefValue)>, CapsError>)
        ensures
            match r {
                Ok(p) => prefs_spec(options@) == Ok::<Seq<(Seq<char>, PrefView)>, CapsError>(prefs_view(p@)),
                Err(e) => prefs_spec(options@) == Err::<Seq<(Seq<char>, PrefView)>, CapsError>(e),
            },
    {
        let o = match get(options, "prefs") {
            None => {
                let rv: Vec<(String, PrefValue)> = Vec::new();
                assert(prefs_view(rv@) =~= Seq::<(Seq<char>, PrefView)>::empty());
                return Ok(rv);
            },
            Some(Json::Object(o)) => o,
            Some(_) => {
                return Err(CapsError::PrefsNotObject);
            },
        };
        let mut rv: Vec<(String, PrefValue)> = Vec::new();
        let mut i: usize = 0;
        while i < o.len()
            invariant
                get_spec(options@, "prefs"@) == Some(Json::Object(*o)),
                i <= o@.len(),
                rv@.len() == i,
                forall|j: int| 0 <= j < i ==> (#[trigger] pref_spec(o@[j].1)) is Ok,
                forall|j: int|
                    0 <= j < i ==> (#[trigger] rv@[j]).0@ == o@[j].0@ && pref_spec(o@[j].1)
                        == Ok::<PrefView, CapsError>(pref_view(rv@[j].1)),
            decreases o@.len() - i,
        {
            match pref_from_json(&o[i].1) {
                Ok(p) => {
                    rv.push((o[i].0.clone(), p));
                },
                Err(e) => {
                    assert(pref_spec(o@[i as int].1) is Err);
                    assert(!all_prefs(o@));
                    return Err(e);
                },
            }
            i = i + 1;
        }
        assert(prefs_view(rv@) =~= Seq::new(o@.len(), |i: int| (o@[i].0@, pref_spec(o@[i].1)->Ok_0)));
        Ok(rv)
    }
}

impl Default for FirefoxOptions {
    fn default() -> (r: FirefoxOptions)
        ensures
            r@ == default_view(),
    {
        FirefoxOptions::new()
    }
}

pub open spec fn default_view() -> FirefoxOptionsView {
    FirefoxOptionsView {
        binary: None,
        profile: ProfileView::Temporary,
        args: None,
        env: None,
        log: LogOptions { level: None },
        prefs: Seq::empty(),
        android: None,
        use_websocket: false,
    }
}

/// The options object read field by field: the Android application id and
/// a binary exclude each other; then Android settings, command line,
/// environment, logging, preferences and profile archive are read in turn,
/// and the first of them that is malformed decides the error.
pub open spec fn options_object_spec(
    binary: Option<Seq<char>>,
    storage: mozdevice::AndroidStorageInput,
    o: Seq<(String, Json)>,
) -> Result<FirefoxOptionsView, CapsError> {
    if get_spec(o, "androidPackage"@) is Some && get_spec(o, "binary"@) is Some {
        Err(CapsError::PackageAndBinary)
    } else {
        match android_spec(storage, o) {
            Err(e) => Err(e),
            Ok(android) => match args_spec(o) {
                Err(e) => Err(e),
                Ok(args) => match env_spec(o) {
                    Err(e) => Err(e),
                    Ok(env) => match log_spec(o) {
                        Err(e) => Err(e),
                        Ok(log) => match prefs_spec(o) {
                            Err(e) => Err(e),
                            Ok(prefs) => match profile_spec(o) {
                                Err(e) => Err(e),
                                Ok(archive) => Ok(
                                    FirefoxOptionsView {
                                        binary,
                                        profile: match archive {
                                            Some(b) => ProfileView::Archive(b),
                                            None => ProfileView::Temporary,
                                        },
                                        args,
                                        env,
                                        log,
                                        prefs,
                                        android,
                                        use_websocket: false,
                                    },
                                ),
                            },
                        },
                    },
                },
            },
        }
    }
}

/// The profile once the command line is read: `--profile <path>` selects a
/// profile directory unless an archive was sent, and `-P <name>` selects a
/// named profile unless some profile was selected already.  Then no flag
/// that only the server may set can stand on the command line.  An
/// argument that Firefox's grammar cannot read is refused before all this.
pub open spec fn args_checked_spec(v: FirefoxOptionsView) -> Result<FirefoxOptionsView, CapsError> {
    match v.args {
        None => Ok(v),
        Some(a) => if !all_readable(a) {
            Err(CapsError::ArgumentNotReadable)
        } else {
            match profile_after_args(v.profile, tokens_of(a)) {
                Err(e) => Err(e),
                Ok(p) => Ok(FirefoxOptionsView { profile: p, ..v }),
            }
        },
    }
}

/// The profile once the command line, read into `ts`, is looked at; see
/// `args_checked_spec`.
pub open spec fn profile_after_args(
    profile: ProfileView,
    ts: Seq<(Option<Seq<char>>, Option<Seq<char>>)>,
) -> Result<ProfileView, CapsError> {
    let with_path = match flag_value(ts, "--profile"@) {
        Some(path) => if profile is Archive {
            Err(CapsError::ProfileArgumentConflict)
        } else {
            Ok(ProfileView::Path(path))
        },
        None => Ok(profile),
    };
    match with_path {
        Err(e) => Err(e),
        Ok(p) => {
            let with_name = if flag_value(ts, "-P"@) is Some {
                if p is Archive || p is Path {
                    Err(CapsError::NamedProfileConflict)
                } else {
                    Ok(ProfileView::Named)
                }
            } else {
                Ok(p)
            };
            match with_name {
                Err(e) => Err(e),
                Ok(q) => match first_blocked(ts) {
                    Some(f) => Err(CapsError::BlockedArgument(f)),
                    None => Ok(q),
                },
            }
        },
    }
}

/// The arguments that start the Remote Agent on the configured port, with
/// the additional hosts and origins that it accepts, each list joined by `,`.
pub open spec fn remote_arguments(settings: MarionetteSettings) -> Seq<Seq<char>> {
    let hosts = texts(settings.allow_hosts@);
    let origins = texts(settings.allow_origins@);
    seq!["--remote-debugging-port"@, decimal(settings.websocket_port as nat)] + (if hosts.len() > 0 {
        seq!["--remote-allow-hosts"@, comma_joined(hosts)]
    } else {
        Seq::empty()
    }) + (if origins.len() > 0 {
        seq!["--remote-allow-origins"@, comma_joined(origins)]
    } else {
        Seq::empty()
    })
}

/// With a bidirectional session the remote arguments go after the command
/// line, and the session uses the WebSocket transport.
pub open spec fn transport_spec(v: FirefoxOptionsView, bidi: bool, remote: Seq<Seq<char>>) -> FirefoxOptionsView {
    if bidi {
        FirefoxOptionsView {
            args: Some(
                match v.args {
                    Some(a) => a + remote,
                    None => remote,
                },
            ),
            use_websocket: true,
            ..v
        }
    } else {
        v
    }
}

/// Whether the capabilities ask for a WebDriver BiDi session, through
/// `webSocketUrl` or the older `moz:debuggerAddress`.
pub open spec fn wants_bidi(rest: Seq<(String, Json)>) -> bool {
    get_spec(rest, "webSocketUrl"@) == Some(Json::Bool(true)) || get_spec(
        rest,
        "moz:debuggerAddress"@,
    ) == Some(Json::Bool(true))
}

/// The launch configuration for the matched capabilities.
pub open spec fn resolve_spec(
    binary: Option<Seq<char>>,
    settings: MarionetteSettings,
    matched: Seq<(String, Json)>,
) -> Result<FirefoxOptionsView, CapsError> {
    let read = match get_spec(matched, "moz:firefoxOptions"@) {
        None => Ok(FirefoxOptionsView { binary, ..default_view() }),
        Some(Json::Object(o)) => options_object_spec(binary, settings.android_storage, o@),
        Some(_) => Err(CapsError::OptionsCapabilityNotObject),
    };
    match read {
        Err(e) => Err(e),
        Ok(v) => match args_checked_spec(v) {
            Err(e) => Err(e),
            Ok(w) => Ok(
                transport_spec(
                    w,
                    wants_bidi(remove_spec(matched, "moz:firefoxOptions"@)),
                    remote_arguments(settings),
                ),
            ),
        },
    }
}

pub open spec fn result_view(r: Result<FirefoxOptions, CapsError>) -> Result<FirefoxOptionsView, CapsError> {
    match r {
        Ok(o) => Ok(o@),
        Err(e) => Err(e),
    }
}

fn remote_args(settings: &MarionetteSettings) -> (r: Vec<String>)
    ensures
        texts(r@) == remote_arguments(*settings),
{
    let mut r: Vec<String> = Vec::new();
    r.push(String::from_str("--remote-debugging-port"));
    r.push(decimal_text(settings.websocket_port));
    if settings.allow_hosts.len() > 0 {
        r.push(String::from_str("--remote-allow-hosts"));
        r.push(join_with_commas(&settings.allow_hosts));
    }
    if settings.allow_origins.len() > 0 {
        r.push(String::from_str("--remote-allow-origins"));
        r.push(join_with_commas(&settings.allow_origins));
    }
    assert(texts(r@) =~= remote_arguments(*settings));
    r
}

fn append_strings(a: Vec<String>, b: Vec<String>) -> (r: Vec<String>)
    ensures
        texts(r@) == texts(a@) + texts(b@),
{
    let ghost a0 = a@;
    let ghost b0 = b@;
    let mut a = a;
    let mut b = b;
    a.append(&mut b);
    assert(texts(a@) =~= texts(a0) + texts(b0));
    a
}

impl FirefoxOptions {
    /// Reads the fields of a `moz:firefoxOptions` object.
    fn load_object(
        binary: Option<String>,
        storage: mozdevice::AndroidStorageInput,
        options: &Vec<(String, Json)>,
    ) -> (r: Result<FirefoxOptions, CapsError>)
        ensures
            result_view(r) == options_object_spec(opt_view(binary), storage, options@),
    {
        if contains_key(options, "androidPackage") && contains_key(options, "binary") {
            return Err(CapsError::PackageAndBinary);
        }
        let android = match FirefoxOptions::load_android(storage, options) {
            Ok(a) => a,
            Err(e) => {
                return Err(e);
            },
        };
        let args = match FirefoxOptions::load_args(options) {
            Ok(a) => a,
            Err(e) => {
                return Err(e);
            },
        };
        let env = match FirefoxOptions::load_env(options) {
            Ok(e) => e,
            Err(e) => {
                return Err(e);
            },
        };
        let log = match FirefoxOptions::load_log(options) {
            Ok(l) => l,
            Err(e) => {
                return Err(e);
            },
        };
        let prefs = match FirefoxOptions::load_prefs(options) {
            Ok(p) => p,
            Err(e) => {
                return Err(e);
            },
        };
        let profile = match FirefoxOptions::load_profile(options) {
            Ok(Some(b)) => ProfileType::Archive(b),
            Ok(None) => ProfileType::Temporary,
            Err(e) => {
                return Err(e);
            },
        };
        let r = FirefoxOptions {
            binary,
            profile,
            args,
            env,
            log,
            prefs,
            android,
            use_websocket: false,
        };
        assert(android_view(r.android) == android_spec(storage, options@)->Ok_0);
        Ok(r)
    }

    /// Selects the profile named on the command line and refuses flags
    /// that only the server may set.
    fn check_args(self) -> (r: Result<FirefoxOptions, CapsError>)
        ensures
            result_view(r) == args_checked_spec(self@),
    {
        let FirefoxOptions { binary, profile, args, env, log, prefs, android, use_websocket } =
            self;
        let tokens: Vec<ArgToken> = match &args {
            None => {
                return Ok(
                    FirefoxOptions { binary, profile, args, env, log, prefs, android, use_websocket },
                );
            },
            Some(a) => match tokenize(a) {
                Some(ts) => ts,
                None => {
                    return Err(CapsError::ArgumentNotReadable);
                },
            },
        };
        match FirefoxOptions::profile_from_args(profile, &tokens) {
            Ok(profile) => Ok(
                FirefoxOptions { binary, profile, args, env, log, prefs, android, use_websocket },
            ),
            Err(e) => Err(e),
        }
    }

    /// Selects the profile named on a command line already read into
    /// tokens: `--profile <path>` conflicts with an archive, `-P <name>`
    /// with any profile selected before; then refuses flags that only the
    /// server may set.
    pub fn profile_from_args(profile: ProfileType, tokens: &Vec<ArgToken>) -> (r: Result<
        ProfileType,
        CapsError,
    >)
        ensures
            match r {
                Ok(p) => profile_after_args(profile_view(profile), tokens_view(tokens@)) == Ok::<
                    ProfileView,
                    CapsError,
                >(profile_view(p)),
                Err(e) => profile_after_args(profile_view(profile), tokens_view(tokens@)) == Err::<
                    ProfileView,
                    CapsError,
                >(e),
            },
    {
        let mut profile = profile;
        if let Some(path) = flag_value_of(tokens, "--profile") {
            if let ProfileType::Archive(_) = profile {
                return Err(CapsError::ProfileArgumentConflict);
            }
            profile = ProfileType::Path(path);
        }
        if flag_value_of(tokens, "-P").is_some() {
            match profile {
                ProfileType::Archive(_) | ProfileType::Path(_) => {
                    return Err(CapsError::NamedProfileConflict);
                },
                _ => {},
            }
            profile = ProfileType::Named;
        }
        if let Some(f) = find_blocked(tokens) {
            return Err(CapsError::BlockedArgument(f));
        }
        Ok(profile)
    }

    /// Adds the remote arguments after the command line and turns on the
    /// WebSocket transport.
    fn with_remote(self, remote: Vec<String>) -> (r: FirefoxOptions)
        ensures
            r@ == transport_spec(self@, true, texts(remote@)),
    {
        let FirefoxOptions { binary, profile, args, env, log, prefs, android, use_websocket } =
            self;
        let args = match args {
            Some(a) => append_strings(a, remote),
            None => remote,
        };
        FirefoxOptions {
            binary,
            profile,
            args: Some(args),
            env,
            log,
            prefs,
            android,
            use_websocket: true,
        }
    }

    /// Resolves the launch configuration from matched capabilities.
    ///
    /// `moz:firefoxOptions` is read and taken out of `matched`; so is
    /// `moz:debuggerAddress` once everything else was accepted.  A
    /// `binary_path` is kept as the binary.  The first malformed field, a
    /// conflict between profile sources or a flag that only the server may
    /// set ends the resolution with an error and no configuration.
    pub fn from_capabilities(
        binary_path: Option<String>,
        settings: &MarionetteSettings,
        matched: &mut Vec<(String, Json)>,
    ) -> (r: Result<FirefoxOptions, CapsError>)
        ensures
            result_view(r) == resolve_spec(opt_view(binary_path), *settings, old(matched)@),
            r is Ok ==> final(matched)@ == remove_spec(
                remove_spec(old(matched)@, "moz:firefoxOptions"@),
                "moz:debuggerAddress"@,
            ),
            r is Err ==> final(matched)@ == remove_spec(old(matched)@, "moz:firefoxOptions"@),
    {
        let ghost binary = opt_view(binary_path);
        let rv = match remove(matched, "moz:firefoxOptions") {
            None => {
                let mut rv = FirefoxOptions::new();
                rv.binary = binary_path;
                rv
            },
            Some(json) => match &json {
                Json::Object(o) => match FirefoxOptions::load_object(
                    binary_path,
                    settings.android_storage,
                    o,
                ) {
                    Ok(rv) => rv,
                    Err(e) => {
                        return Err(e);
                    },
                },
                _ => {
                    return Err(CapsError::OptionsCapabilityNotObject);
                },
            },
        };
        let rv = match rv.check_args() {
            Ok(rv) => rv,
            Err(e) => {
                return Err(e);
            },
        };
        let ghost rest = matched@;
        let web_socket_url = match get(matched, "webSocketUrl") {
            Some(Json::Bool(b)) => *b,
            _ => false,
        };
        let debugger_address = match remove(matched, "moz:debuggerAddress") {
            Some(Json::Bool(b)) => b,
            _ => false,
        };
        assert(wants_bidi(rest) == (web_socket_url || debugger_address));
        if web_socket_url || debugger_address {
            Ok(rv.with_remote(remote_args(settings)))
        } else {
            Ok(rv)
        }
    }
}

} // verus!
