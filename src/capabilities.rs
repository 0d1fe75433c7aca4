//! Matching of Firefox's vendor capabilities, and the version of each
//! Firefox binary, found once per path and kept.

use crate::error::CapsError;
use crate::json::{all_strings, contains_key, get, get_spec, has_key, lemma_has_key, str_eq, Json, Number};
use crate::args::opt_view;
use crate::options::Level;
use vstd::prelude::*;

verus! {

/// Why the version of a binary is not known.
#[derive(Debug, PartialEq)]
pub enum VersionError {
    /// Neither the application metadata nor the binary gave a version; the
    /// text says why.
    Probe(String),
    /// No binary was given.
    MissingBinary,
}

impl VersionError {
    pub fn duplicate(&self) -> (r: VersionError)
        ensures
            r == *self,
    {
        match self {
            VersionError::Probe(s) => VersionError::Probe(s.clone()),
            VersionError::MissingBinary => VersionError::MissingBinary,
        }
    }
}

/// A version as found for a binary: its text (`115.0.2`), or why there is
/// none.
pub type VersionResult = Result<String, VersionError>;

pub fn duplicate_result(r: &VersionResult) -> (d: VersionResult)
    ensures
        d == *r,
{
    match r {
        Ok(s) => Ok(s.clone()),
        Err(e) => Err(e.duplicate()),
    }
}

/// `i` is the first entry of the cache for `path`.
pub open spec fn cache_at(c: Seq<(String, VersionResult)>, path: Seq<char>, i: int) -> bool {
    &&& 0 <= i < c.len()
    &&& c[i].0@ == path
    &&& forall|j: int| 0 <= j < i ==> c[j].0@ != path
}

/// What the cache holds for `path`.
pub open spec fn cached(c: Seq<(String, VersionResult)>, path: Seq<char>) -> Option<VersionResult> {
    if exists|i: int| cache_at(c, path, i) {
        Some(c[choose|i: int| cache_at(c, path, i)].1)
    } else {
        None
    }
}

/// What a version lookup found without running anything.
#[derive(Debug, PartialEq)]
pub enum VersionLookup {
    /// The answer, from the cache or because no binary was given.
    Known(VersionResult),
    /// This binary was never probed: probe it and record the answer.
    Unknown(String),
}

/// The outcome of checking one vendor capability.
#[derive(Debug, PartialEq)]
pub enum Validation {
    Valid,
    Invalid(CapsError),
    /// The check needs the version of this binary, which was never probed:
    /// probe it, record the answer and check again.
    ProbeVersion(String),
}

/// Chooses the Firefox binary and keeps the version found for each binary.
pub struct FirefoxCapabilities {
    pub chosen_binary: Option<String>,
    fallback_binary: Option<String>,
    version_cache: Vec<(String, VersionResult)>,
}

/// Whether a JSON value can be a preference value.
pub open spec fn pref_kind(v: Json) -> bool {
    match v {
        Json::String(_) | Json::Bool(_) => true,
        Json::Number(Number::Int(_)) | Json::Number(Number::UInt(_)) => true,
        _ => false,
    }
}

/// The check of the `log` object from its `i`th entry on: only `level` may
/// stand there, as the name of a level.
pub open spec fn log_check_from(log: Seq<(String, Json)>, i: int) -> Validation
    decreases log.len() - i,
{
    if i < 0 || i >= log.len() {
        Validation::Valid
    } else if log[i].0@ == "level"@ {
        match log[i].1 {
            Json::String(l) => if Level::spec_named(l@) is Some {
                log_check_from(log, i + 1)
            } else {
                Validation::Invalid(CapsError::InvalidLogLevel(l))
            },
            _ => Validation::Invalid(CapsError::LogLevelValueNotString),
        }
    } else {
        Validation::Invalid(CapsError::InvalidLogField(log[i].0))
    }
}

/// The check of one field of `moz:firefoxOptions`.
pub open spec fn option_check(
    data: Seq<(String, Json)>,
    key: String,
    value: Json,
    cache: Seq<(String, VersionResult)>,
) -> Validation {
    let k = key@;
    if k == "androidActivity"@ || k == "androidDeviceSerial"@ || k == "androidPackage"@ || k
        == "profile"@ {
        if value is String {
            Validation::Valid
        } else {
            Validation::Invalid(CapsError::FieldNotString(key))
        }
    } else if k == "androidIntentArguments"@ || k == "args"@ {
        match value {
            Json::Array(items) => if all_strings(items@) {
                Validation::Valid
            } else {
                Validation::Invalid(CapsError::FieldEntryNotString(key))
            },
            _ => Validation::Invalid(CapsError::FieldNotArray(key)),
        }
    } else if k == "binary"@ {
        match value {
            Json::String(b) => if has_key(data, "androidPackage"@) {
                Validation::Valid
            } else {
                match cached(cache, b@) {
                    None => Validation::ProbeVersion(b),
                    Some(Ok(_)) => Validation::Valid,
                    Some(Err(_)) => Validation::Invalid(CapsError::NotFirefoxExecutable(key)),
                }
            },
            _ => Validation::Invalid(CapsError::FieldNotString(key)),
        }
    } else if k == "env"@ {
        match value {
            Json::Object(env) => if forall|i: int| 0 <= i < env@.len() ==> (#[trigger] env@[i].1) is String {
                Validation::Valid
            } else {
                Validation::Invalid(CapsError::EnvValuesNotStrings)
            },
            _ => Validation::Invalid(CapsError::EnvValueNotObject),
        }
    } else if k == "log"@ {
        match value {
            Json::Object(log) => log_check_from(log@, 0),
            _ => Validation::Invalid(CapsError::LogValueNotObject),
        }
    } else if k == "prefs"@ {
        match value {
            Json::Object(prefs) => if forall|i: int| 0 <= i < prefs@.len() ==> pref_kind(#[trigger] prefs@[i].1) {
                Validation::Valid
            } else {
                Validation::Invalid(CapsError::PrefValuesInvalid)
            },
            _ => Validation::Invalid(CapsError::PrefsValueNotObject),
        }
    } else {
        Validation::Invalid(CapsError::InvalidOptionsField(key))
    }
}

/// The check of `moz:firefoxOptions` from its `i`th field on, in order; the
/// first field that does not pass decides.
pub open spec fn options_check_from(
    data: Seq<(String, Json)>,
    i: int,
    cache: Seq<(String, VersionResult)>,
) -> Validation
    decreases data.len() - i,
{
    if i < 0 || i >= data.len() {
        Validation::Valid
    } else {
        match option_check(data, data[i].0, data[i].1, cache) {
            Validation::Valid => options_check_from(data, i + 1, cache),
            other => other,
        }
    }
}

pub open spec fn vendor_prefixed(name: Seq<char>) -> bool {
    name.len() >= 4 && name.subrange(0, 4) == "moz:"@
}

/// The check of a capability `name` with `value`.  Only names with the
/// `moz:` prefix are Firefox's to check; an unknown one is refused as
/// `UnrecognisedOption`, with the name.
pub open spec fn capability_check(
    name: Seq<char>,
    value: Json,
    cache: Seq<(String, VersionResult)>,
) -> Validation {
    if !vendor_prefixed(name) {
        Validation::Valid
    } else if name == "moz:firefoxOptions"@ {
        match value {
            Json::Object(data) => options_check_from(data@, 0, cache),
            _ => Validation::Invalid(CapsError::OptionsNotObject),
        }
    } else if name == "moz:webdriverClick"@ {
        if value is Bool {
            Validation::Valid
        } else {
            Validation::Invalid(CapsError::WebdriverClickNotBoolean)
        }
    } else if name == "moz:debuggerAddress"@ {
        if value is Bool {
            Validation::Valid
        } else {
            Validation::Invalid(CapsError::DebuggerAddressNotBoolean)
        }
    } else {
        Validation::Invalid(CapsError::UnrecognisedOption(arbitrary()))
    }
}

/// `v` is the outcome that `expected` describes for the capability `name`.
pub open spec fn validation_is(v: Validation, expected: Validation, name: Seq<char>) -> bool {
    match expected {
        Validation::Invalid(CapsError::UnrecognisedOption(_)) => v matches Validation::Invalid(
            CapsError::UnrecognisedOption(n),
        ) && n@ == name,
        _ => v == expected,
    }
}

fn has_vendor_prefix(name: &str) -> (r: bool)
    ensures
        r == vendor_prefixed(name@),
{
    proof {
        reveal_strlit("moz:");
    }
    let n = name.unicode_len();
    if n < 4 {
        return false;
    }
    let r = name.get_char(0) == 'm' && name.get_char(1) == 'o' && name.get_char(2) == 'z'
        && name.get_char(3) == ':';
    if r {
        assert(name@.subrange(0, 4) =~= "moz:"@);
    } else {
        assert(name@.subrange(0, 4)[0] == name@[0]);
        assert(name@.subrange(0, 4)[1] == name@[1]);
        assert(name@.subrange(0, 4)[2] == name@[2]);
        assert(name@.subrange(0, 4)[3] == name@[3]);
    }
    r
}

proof fn lemma_log_check_names_no_option(log: Seq<(String, Json)>, i: int)
    ensures
        !(log_check_from(log, i) matches Validation::Invalid(CapsError::UnrecognisedOption(_))),
    decreases log.len() - i,
{
    if 0 <= i < log.len() {
        lemma_log_check_names_no_option(log, i + 1);
    }
}

fn check_log(log: &Vec<(String, Json)>) -> (r: Validation)
    ensures
        r == log_check_from(log@, 0),
{
    let mut i: usize = 0;
    while i < log.len()
        invariant
            i <= log@.len(),
            log_check_from(log@, 0) == log_check_from(log@, i as int),
        decreases log@.len() - i,
    {
        if str_eq(log[i].0.as_str(), "level") {
            match &log[i].1 {
                Json::String(l) => {
                    if Level::from_name(l.as_str()).is_none() {
                        return Validation::Invalid(CapsError::InvalidLogLevel(l.clone()));
                    }
                },
                _ => {
                    return Validation::Invalid(CapsError::LogLevelValueNotString);
                },
            }
        } else {
            return Validation::Invalid(CapsError::InvalidLogField(log[i].0.clone()));
        }
        i = i + 1;
    }
    Validation::Valid
}

fn check_strings(items: &Vec<Json>) -> (r: bool)
    ensures
        r == all_strings(items@),
{
    let mut i: usize = 0;
    while i < items.len()
        invariant
            i <= items@.len(),
            forall|j: int| 0 <= j < i ==> (#[trigger] items@[j]) is String,
        decreases items@.len() - i,
    {
        if !matches!(items[i], Json::String(_)) {
            return false;
        }
        i = i + 1;
    }
    true
}

fn check_env(env: &Vec<(String, Json)>) -> (r: bool)
    ensures
        r == forall|i: int| 0 <= i < env@.len() ==> (#[trigger] env@[i].1) is String,
{
    let mut i: usize = 0;
    while i < env.len()
        invariant
            i <= env@.len(),
            forall|j: int| 0 <= j < i ==> (#[trigger] env@[j].1) is String,
        decreases env@.len() - i,
    {
        if !matches!(env[i].1, Json::String(_)) {
            assert(!(env@[i as int].1 is String));
            return false;
        }
        i = i + 1;
    }
    true
}

fn check_prefs(prefs: &Vec<(String, Json)>) -> (r: bool)
    ensures
        r == forall|i: int| 0 <= i < prefs@.len() ==> pref_kind(#[trigger] prefs@[i].1),
{
    let mut i: usize = 0;
    while i < prefs.len()
        invariant
            i <= prefs@.len(),
            forall|j: int| 0 <= j < i ==> pref_kind(#[trigger] prefs@[j].1),
        decreases prefs@.len() - i,
    {
        let ok = match &prefs[i].1 {
            Json::String(_) | Json::Bool(_) => true,
            Json::Number(Number::Int(_)) | Json::Number(Number::UInt(_)) => true,
            _ => false,
        };
        if !ok {
            assert(!pref_kind(prefs@[i as int].1));
            return false;
        }
        i = i + 1;
    }
    true
}

/// The binary named by `moz:firefoxOptions`, else the fallback given to
/// the driver, else the default installation.
pub open spec fn chosen_spec(
    capabilities: Seq<(String, Json)>,
    fallback: Option<Seq<char>>,
    default_path: Option<Seq<char>>,
) -> Option<Seq<char>> {
    let named = match get_spec(capabilities, "moz:firefoxOptions"@) {
        Some(Json::Object(o)) => match get_spec(o@, "binary"@) {
            Some(Json::String(b)) => Some(b@),
            _ => None,
        },
        _ => None,
    };
    if named is Some {
        named
    } else if fallback is Some {
        fallback
    } else {
        default_path
    }
}

proof fn lemma_cache_at_unique(c: Seq<(String, VersionResult)>, path: Seq<char>, i: int)
    requires
        cache_at(c, path, i),
    ensures
        cached(c, path) == Some(c[i].1),
{
    let k = choose|k: int| cache_at(c, path, k);
    if k < i {
        assert(c[k].0@ != path);
    } else if i < k {
        assert(c[i].0@ != path);
    }
}

/// Appending an entry for a path not in the cache records it and changes
/// nothing else.
proof fn lemma_cache_push(c: Seq<(String, VersionResult)>, e: (String, VersionResult), p: Seq<char>)
    requires
        cached(c, e.0@) is None,
    ensures
        cached(c.push(e), p) == if p == e.0@ {
            Some(e.1)
        } else {
            cached(c, p)
        },
{
    let d = c.push(e);
    if p == e.0@ {
        assert forall|j: int| 0 <= j < c.len() implies c[j].0@ != p by {
            if c[j].0@ == p {
                lemma_first_cached(c, p, j);
            }
        }
        assert(cache_at(d, p, c.len() as int));
        lemma_cache_at_unique(d, p, c.len() as int);
    } else {
        if exists|i: int| cache_at(c, p, i) {
            let i = choose|i: int| cache_at(c, p, i);
            assert(cache_at(d, p, i));
            lemma_cache_at_unique(d, p, i);
        } else {
            if exists|i: int| cache_at(d, p, i) {
                let i = choose|i: int| cache_at(d, p, i);
                assert(i < c.len());
                assert forall|j: int| 0 <= j < i implies c[j].0@ != p by {
                    assert(d[j] == c[j]);
                }
                assert(cache_at(c, p, i));
            }
        }
    }
}

proof fn lemma_first_cached(c: Seq<(String, VersionResult)>, p: Seq<char>, i: int)
    requires
        0 <= i < c.len(),
        c[i].0@ == p,
    ensures
        cached(c, p) is Some,
    decreases i,
{
    if exists|j: int| 0 <= j < i && c[j].0@ == p {
        let j = choose|j: int| 0 <= j < i && c[j].0@ == p;
        lemma_first_cached(c, p, j);
    } else {
        assert(cache_at(c, p, i));
    }
}

impl FirefoxCapabilities {
    /// The versions found so far, by binary path.
    pub closed spec fn spec_cache(&self) -> Seq<(String, VersionResult)> {
        self.version_cache@
    }

    /// The binary chosen for the session.
    pub closed spec fn spec_chosen(&self) -> Option<Seq<char>> {
        opt_view(self.chosen_binary)
    }

    /// The binary that the driver falls back to.
    pub closed spec fn spec_fallback(&self) -> Option<Seq<char>> {
        opt_view(self.fallback_binary)
    }

    /// Starts with no binary chosen and no version known.
    pub fn new(fallback_binary: Option<String>) -> (r: FirefoxCapabilities)
        ensures
            r.spec_chosen() is None,
            r.spec_fallback() == opt_view(fallback_binary),
            r.spec_cache().len() == 0,
    {
        FirefoxCapabilities { chosen_binary: None, fallback_binary, version_cache: Vec::new() }
    }

    /// Chooses the binary for `capabilities`; `default_path` is where
    /// Firefox is installed by default, if anywhere.
    pub fn set_binary(&mut self, capabilities: &Vec<(String, Json)>, default_path: Option<String>)
        ensures
            final(self).spec_chosen() == chosen_spec(
                capabilities@,
                old(self).spec_fallback(),
                opt_view(default_path),
            ),
            final(self).spec_fallback() == old(self).spec_fallback(),
            final(self).spec_cache() == old(self).spec_cache(),
    {
        let named = match get(capabilities, "moz:firefoxOptions") {
            Some(Json::Object(o)) => match get(o, "binary") {
                Some(Json::String(b)) => Some(b.clone()),
                _ => None,
            },
            _ => None,
        };
        self.chosen_binary = if named.is_some() {
            named
        } else {
            match &self.fallback_binary {
                Some(f) => Some(f.clone()),
                None => default_path,
            }
        };
    }

    fn find_cached(&self, path: &str) -> (r: Option<usize>)
        ensures
            match r {
                Some(i) => cache_at(self.spec_cache(), path@, i as int),
                None => cached(self.spec_cache(), path@) is None,
            },
    {
        let mut i: usize = 0;
        while i < self.version_cache.len()
            invariant
                i <= self.version_cache@.len(),
                forall|j: int| 0 <= j < i ==> self.version_cache@[j].0@ != path@,
            decreases self.version_cache@.len() - i,
        {
            if str_eq(self.version_cache[i].0.as_str(), path) {
                return Some(i);
            }
            i = i + 1;
        }
        None
    }

    /// Looks up the version of `binary` without probing anything.
    pub fn cached_version(&self, binary: Option<&str>) -> (r: VersionLookup)
        ensures
            match binary {
                None => r == VersionLookup::Known(Err(VersionError::MissingBinary)),
                Some(b) => match cached(self.spec_cache(), b@) {
                    Some(v) => r == VersionLookup::Known(v),
                    None => r matches VersionLookup::Unknown(p) && p@ == b@,
                },
            },
    {
        match binary {
            None => VersionLookup::Known(Err(VersionError::MissingBinary)),
            Some(b) => match self.find_cached(b) {
                Some(i) => {
                    proof {
                        lemma_cache_at_unique(self.spec_cache(), b@, i as int);
                    }
                    VersionLookup::Known(duplicate_result(&self.version_cache[i].1))
                },
                None => VersionLookup::Unknown(String::from_str(b)),
            },
        }
    }

    /// Records what probing `binary` found, unless an answer is kept
    /// already; returns the answer that stands.  An answer, an error too,
    /// is kept for the life of the value.
    pub fn record_version(&mut self, binary: &str, found: VersionResult) -> (r: VersionResult)
        ensures
            final(self).spec_chosen() == old(self).spec_chosen(),
            final(self).spec_fallback() == old(self).spec_fallback(),
            match cached(old(self).spec_cache(), binary@) {
                Some(v) => r == v && final(self).spec_cache() == old(self).spec_cache(),
                None => r == found && forall|p: Seq<char>|
                    #[trigger] cached(final(self).spec_cache(), p) == if p == binary@ {
                        Some(found)
                    } else {
                        cached(old(self).spec_cache(), p)
                    },
            },
    {
        match self.find_cached(binary) {
            Some(i) => {
                proof {
                    lemma_cache_at_unique(self.spec_cache(), binary@, i as int);
                }
                duplicate_result(&self.version_cache[i].1)
            },
            None => {
                let r = duplicate_result(&found);
                let ghost before = self.version_cache@;
                let entry = (String::from_str(binary), found);
                let ghost e = entry;
                self.version_cache.push(entry);
                proof {
                    assert forall|p: Seq<char>|
                        #[trigger] cached(self.version_cache@, p) == if p == binary@ {
                            Some(e.1)
                        } else {
                            cached(before, p)
                        } by {
                        lemma_cache_push(before, e, p);
                    }
                }
                r
            },
        }
    }

    fn check_option(&self, data: &Vec<(String, Json)>, key: &String, value: &Json) -> (r: Validation)
        ensures
            r == option_check(data@, *key, *value, self.spec_cache()),
            !(r matches Validation::Invalid(CapsError::UnrecognisedOption(_))),
    {
        let k = key.as_str();
        if str_eq(k, "androidActivity") || str_eq(k, "androidDeviceSerial") || str_eq(
            k,
            "androidPackage",
        ) || str_eq(k, "profile") {
            if matches!(value, Json::String(_)) {
                Validation::Valid
            } else {
                Validation::Invalid(CapsError::FieldNotString(key.clone()))
            }
        } else if str_eq(k, "androidIntentArguments") || str_eq(k, "args") {
            match value {
                Json::Array(items) => if check_strings(items) {
                    Validation::Valid
                } else {
                    Validation::Invalid(CapsError::FieldEntryNotString(key.clone()))
                },
                _ => Validation::Invalid(CapsError::FieldNotArray(key.clone())),
            }
        } else if str_eq(k, "binary") {
            match value {
                Json::String(b) => {
                    proof {
                        lemma_has_key(data@, "androidPackage"@);
                    }
                    if contains_key(data, "androidPackage") {
                        Validation::Valid
                    } else {
                        match self.find_cached(b.as_str()) {
                            None => Validation::ProbeVersion(b.clone()),
                            Some(i) => {
                                proof {
                                    lemma_cache_at_unique(self.spec_cache(), b@, i as int);
                                }
                                if self.version_cache[i].1.is_ok() {
                                    Validation::Valid
                                } else {
                                    Validation::Invalid(CapsError::NotFirefoxExecutable(key.clone()))
                                }
                            },
                        }
                    }
                },
                _ => Validation::Invalid(CapsError::FieldNotString(key.clone())),
            }
        } else if str_eq(k, "env") {
            match value {
                Json::Object(env) => if check_env(env) {
                    Validation::Valid
                } else {
                    Validation::Invalid(CapsError::EnvValuesNotStrings)
                },
                _ => Validation::Invalid(CapsError::EnvValueNotObject),
            }
        } else if str_eq(k, "log") {
            match value {
                Json::Object(log) => {
                    proof {
                        lemma_log_check_names_no_option(log@, 0);
                    }
                    check_log(log)
                },
                _ => Validation::Invalid(CapsError::LogValueNotObject),
            }
        } else if str_eq(k, "prefs") {
            match value {
                Json::Object(prefs) => if check_prefs(prefs) {
                    Validation::Valid
                } else {
                    Validation::Invalid(CapsError::PrefValuesInvalid)
                },
                _ => Validation::Invalid(CapsError::PrefsValueNotObject),
            }
        } else {
            Validation::Invalid(CapsError::InvalidOptionsField(key.clone()))
        }
    }

    /// Checks the vendor capability `name` against the schema of Firefox's
    /// capabilities.  Where a binary must be shown to be Firefox and its
    /// version was never probed, asks for that probe instead.
    pub fn validate_custom(&self, name: &str, value: &Json) -> (r: Validation)
        ensures
            validation_is(r, capability_check(name@, *value, self.spec_cache()), name@),
    {
        if !has_vendor_prefix(name) {
            return Validation::Valid;
        }
        if str_eq(name, "moz:firefoxOptions") {
            match value {
                Json::Object(data) => {
                    let mut i: usize = 0;
                    while i < data.len()
                        invariant
                            vendor_prefixed(name@),
                            name@ == "moz:firefoxOptions"@,
                            *value == Json::Object(*data),
                            i <= data@.len(),
                            options_check_from(data@, 0, self.spec_cache()) == options_check_from(
                                data@,
                                i as int,
                                self.spec_cache(),
                            ),
                        decreases data@.len() - i,
                    {
                        let v = self.check_option(data, &data[i].0, &data[i].1);
                        if !matches!(v, Validation::Valid) {
                            assert(options_check_from(data@, i as int, self.spec_cache()) == v);
                            return v;
                        }
                        i = i + 1;
                    }
                    Validation::Valid
                },
                _ => Validation::Invalid(CapsError::OptionsNotObject),
            }
        } else if str_eq(name, "moz:webdriverClick") {
            if matches!(value, Json::Bool(_)) {
                Validation::Valid
            } else {
                Validation::Invalid(CapsError::WebdriverClickNotBoolean)
            }
        } else if str_eq(name, "moz:debuggerAddress") {
            if matches!(value, Json::Bool(_)) {
                Validation::Valid
            } else {
                Validation::Invalid(CapsError::DebuggerAddressNotBoolean)
            }
        } else {
            Validation::Invalid(CapsError::UnrecognisedOption(String::from_str(name)))
        }
    }
}

} // verus!
