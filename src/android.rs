//! Android options of `moz:firefoxOptions`: the application id, the activity
//! to start, the device and the intent arguments.

use crate::error::CapsError;
use crate::json::{get, get_spec, str_eq, str_of, string_array, texts, to_string_vec, Json};
use crate::text::{is_valid_package, valid_package};
use vstd::prelude::*;

verus! {

/// mozdevice's `AndroidStorageInput`: where on the device the profile is
/// kept.  The options carry it through without reading it.
#[verifier::external_type_specification]
#[verifier::external_body]
pub struct ExAndroidStorageInput(mozdevice::AndroidStorageInput);

/// Android-specific options, named after their `androidCamelCase` fields.
#[derive(Debug, PartialEq)]
pub struct AndroidOptions {
    pub activity: Option<String>,
    pub device_serial: Option<String>,
    pub intent_arguments: Option<Vec<String>>,
    pub package: String,
    pub storage: mozdevice::AndroidStorageInput,
}

pub struct AndroidOptionsView {
    pub activity: Option<Seq<char>>,
    pub device_serial: Option<Seq<char>>,
    pub intent_arguments: Option<Seq<Seq<char>>>,
    pub package: Seq<char>,
    pub storage: mozdevice::AndroidStorageInput,
}

pub open spec fn opt_text(o: Option<String>) -> Option<Seq<char>> {
    match o {
        Some(s) => Some(s@),
        None => None,
    }
}

pub open spec fn opt_texts(o: Option<Vec<String>>) -> Option<Seq<Seq<char>>> {
    match o {
        Some(v) => Some(texts(v@)),
        None => None,
    }
}

impl View for AndroidOptions {
    type V = AndroidOptionsView;

    open spec fn view(&self) -> AndroidOptionsView {
        AndroidOptionsView {
            activity: opt_text(self.activity),
            device_serial: opt_text(self.device_serial),
            intent_arguments: opt_texts(self.intent_arguments),
            package: self.package@,
            storage: self.storage,
        }
    }
}

impl AndroidOptions {
    /// Options for `package` with nothing else set.
    pub fn new(package: String, storage: mozdevice::AndroidStorageInput) -> (r: AndroidOptions)
        ensures
            r@ == (AndroidOptionsView {
                activity: None,
                device_serial: None,
                intent_arguments: None,
                package: package@,
                storage,
            }),
    {
        AndroidOptions {
            activity: None,
            device_serial: None,
            intent_arguments: None,
            package,
            storage,
        }
    }
}

/// The activity that receives intents in well-known Mozilla applications.
pub open spec fn default_activity(package: Seq<char>) -> Option<Seq<char>> {
    if package == "org.mozilla.firefox"@ || package == "org.mozilla.firefox_beta"@ || package
        == "org.mozilla.fenix"@ || package == "org.mozilla.fenix.debug"@ || package
        == "org.mozilla.reference.browser"@ {
        Some("org.mozilla.fenix.IntentReceiverActivity"@)
    } else if package == "org.mozilla.focus"@ || package == "org.mozilla.focus.debug"@ || package
        == "org.mozilla.klar"@ || package == "org.mozilla.klar.debug"@ {
        Some("org.mozilla.focus.activity.IntentReceiverActivity"@)
    } else {
        None
    }
}

/// Opens a blank page in a Gecko window; every GeckoView application
/// supports it.
pub open spec fn default_intent_arguments() -> Seq<Seq<char>> {
    seq!["-a"@, "android.intent.action.VIEW"@, "-d"@, "about:blank"@]
}

/// What `load_android` resolves from the options object.
pub open spec fn android_spec(
    storage: mozdevice::AndroidStorageInput,
    options: Seq<(String, Json)>,
) -> Result<Option<AndroidOptionsView>, CapsError> {
    match get_spec(options, "androidPackage"@) {
        None => Ok(None),
        Some(p) => match str_of(p) {
            None => Err(CapsError::PackageNotString),
            Some(package) => if !valid_package(package) {
                Err(CapsError::InvalidPackage)
            } else {
                let activity = match get_spec(options, "androidActivity"@) {
                    None => Ok(default_activity(package)),
                    Some(a) => match str_of(a) {
                        None => Err(CapsError::ActivityNotString),
                        Some(t) => if t.contains('/') {
                            Err(CapsError::ActivityHasSlash)
                        } else {
                            Ok(Some(t))
                        },
                    },
                };
                let serial = match get_spec(options, "androidDeviceSerial"@) {
                    None => Ok(None),
                    Some(d) => match str_of(d) {
                        None => Err(CapsError::DeviceSerialNotString),
                        Some(t) => Ok(Some(t)),
                    },
                };
                let intent = match get_spec(options, "androidIntentArguments"@) {
                    None => Ok(default_intent_arguments()),
                    Some(Json::Array(items)) => match string_array(items@) {
                        None => Err(CapsError::IntentArgumentsNotStrings),
                        Some(t) => Ok(t),
                    },
                    Some(_) => Err(CapsError::IntentArgumentsNotArray),
                };
                match (activity, serial, intent) {
                    (Err(e), _, _) => Err(e),
                    (Ok(_), Err(e), _) => Err(e),
                    (Ok(_), Ok(_), Err(e)) => Err(e),
                    (Ok(a), Ok(s), Ok(i)) => Ok(
                        Some(
                            AndroidOptionsView {
                                activity: a,
                                device_serial: s,
                                intent_arguments: Some(i),
                                package,
                                storage,
                            },
                        ),
                    ),
                }
            },
        },
    }
}

pub open spec fn android_result_view(r: Result<Option<AndroidOptions>, CapsError>) -> Result<
    Option<AndroidOptionsView>,
    CapsError,
> {
    match r {
        Ok(Some(a)) => Ok(Some(a@)),
        Ok(None) => Ok(None),
        Err(e) => Err(e),
    }
}

fn lookup_default_activity(package: &str) -> (r: Option<String>)
    ensures
        opt_text(r) == default_activity(package@),
{
    if str_eq(package, "org.mozilla.firefox") || str_eq(package, "org.mozilla.firefox_beta")
        || str_eq(package, "org.mozilla.fenix") || str_eq(package, "org.mozilla.fenix.debug")
        || str_eq(package, "org.mozilla.reference.browser") {
        Some(String::from_str("org.mozilla.fenix.IntentReceiverActivity"))
    } else if str_eq(package, "org.mozilla.focus") || str_eq(package, "org.mozilla.focus.debug")
        || str_eq(package, "org.mozilla.klar") || str_eq(package, "org.mozilla.klar.debug") {
        Some(String::from_str("org.mozilla.focus.activity.IntentReceiverActivity"))
    } else {
        None
    }
}

fn default_intent() -> (r: Vec<String>)
    ensures
        texts(r@) == default_intent_arguments(),
{
    let mut r: Vec<String> = Vec::new();
    r.push(String::from_str("-a"));
    r.push(String::from_str("android.intent.action.VIEW"));
    r.push(String::from_str("-d"));
    r.push(String::from_str("about:blank"));
    assert(texts(r@) =~= default_intent_arguments());
    r
}

fn has_slash(s: &str) -> (r: bool)
    ensures
        r == s@.contains('/'),
{
    let n = s.unicode_len();
    let mut i: usize = 0;
    while i < n
        invariant
            n == s@.len(),
            i <= n,
            forall|j: int| 0 <= j < i ==> s@[j] != '/',
        decreases n - i,
    {
        if s.get_char(i) == '/' {
            assert(s@[i as int] == '/');
            return true;
        }
        i = i + 1;
    }
    false
}

impl crate::options::FirefoxOptions {
    /// Reads the Android options; present only where `androidPackage` is.
    /// The activity defaults from a table of well-known applications, the
    /// intent arguments to opening a blank page.
    pub fn load_android(
        storage: mozdevice::AndroidStorageInput,
        options: &Vec<(String, Json)>,
    ) -> (r: Result<Option<AndroidOptions>, CapsError>)
        ensures
            android_result_view(r) == android_spec(storage, options@),
    {
        let package = match get(options, "androidPackage") {
            None => {
                return Ok(None);
            },
            Some(Json::String(p)) => p.clone(),
            Some(_) => {
                return Err(CapsError::PackageNotString);
            },
        };
        if !is_valid_package(package.as_str()) {
            return Err(CapsError::InvalidPackage);
        }
        let activity = match get(options, "androidActivity") {
            None => lookup_default_activity(package.as_str()),
            Some(Json::String(a)) => {
                if has_slash(a.as_str()) {
                    return Err(CapsError::ActivityHasSlash);
                }
                Some(a.clone())
            },
            Some(_) => {
                return Err(CapsError::ActivityNotString);
            },
        };
        let device_serial = match get(options, "androidDeviceSerial") {
            None => None,
            Some(Json::String(d)) => Some(d.clone()),
            Some(_) => {
                return Err(CapsError::DeviceSerialNotString);
            },
        };
        let intent_arguments = match get(options, "androidIntentArguments") {
            None => default_intent(),
            Some(Json::Array(items)) => match to_string_vec(items) {
                Some(v) => v,
                None => {
                    return Err(CapsError::IntentArgumentsNotStrings);
                },
            },
            Some(_) => {
                return Err(CapsError::IntentArgumentsNotArray);
            },
        };
        let mut android = AndroidOptions::new(package, storage);
        android.activity = activity;
        android.device_serial = device_serial;
        android.intent_arguments = Some(intent_arguments);
        Ok(Some(android))
    }
}

} // verus!
