use geckodriver_caps::archive::{entry_action, EntryAction};
use geckodriver_caps::args::{is_readable_arg, BlockedFlag};
use geckodriver_caps::text::{decimal_text, is_valid_package, join_with_commas};
use geckodriver_caps::{
    AndroidOptions, CapsError, ErrorStatus, FirefoxCapabilities, FirefoxOptions, Json, Level, LogOptions,
    MarionetteSettings, Number, ProfileType, Validation, VersionError, VersionLookup,
};
use mozdevice::AndroidStorageInput;

fn text(s: &str) -> Json {
    Json::String(s.to_string())
}

fn texts(items: &[&str]) -> Json {
    Json::Array(items.iter().map(|s| text(s)).collect())
}

fn object(entries: Vec<(&str, Json)>) -> Vec<(String, Json)> {
    entries.into_iter().map(|(k, v)| (k.to_string(), v)).collect()
}

fn settings() -> MarionetteSettings {
    MarionetteSettings {
        websocket_port: 4444,
        allow_hosts: vec![],
        allow_origins: vec![],
        android_storage: AndroidStorageInput::Auto,
    }
}

fn resolve(options: Vec<(String, Json)>) -> Result<FirefoxOptions, CapsError> {
    let mut caps = vec![("moz:firefoxOptions".to_string(), Json::Object(options))];
    FirefoxOptions::from_capabilities(None, &settings(), &mut caps)
}

#[test]
fn no_vendor_options_gives_temporary_profile() {
    let mut caps = object(vec![("browserName", text("firefox"))]);
    let opts = FirefoxOptions::from_capabilities(Some("ff".into()), &settings(), &mut caps)
        .expect("valid");
    assert!(matches!(opts.profile, ProfileType::Temporary));
    assert_eq!(opts.args, None);
    assert_eq!(opts.android, None);
    assert_eq!(opts.binary, Some("ff".to_string()));
    assert!(!opts.use_websocket);
    assert_eq!(caps.len(), 1);
}

#[test]
fn vendor_keys_are_taken_out_of_the_capabilities() {
    let mut caps = object(vec![
        ("moz:firefoxOptions", Json::Object(vec![])),
        ("moz:debuggerAddress", Json::Bool(true)),
        ("webSocketUrl", Json::Bool(false)),
    ]);
    let opts = FirefoxOptions::from_capabilities(None, &settings(), &mut caps).expect("valid");
    assert!(opts.use_websocket);
    assert_eq!(opts.args, Some(vec!["--remote-debugging-port".to_string(), "4444".to_string()]));
    assert_eq!(caps.len(), 1);
    assert_eq!(caps[0].0, "webSocketUrl");
}

#[test]
fn package_and_binary_refused_before_other_fields() {
    let opts = object(vec![
        ("env", Json::Null),
        ("androidPackage", text("not valid")),
        ("binary", Json::Bool(true)),
    ]);
    assert_eq!(resolve(opts).err(), Some(CapsError::PackageAndBinary));
}

#[test]
fn archive_and_profile_flag_conflict() {
    let opts = object(vec![
        ("profile", text("UEsFBgAAAAAAAAAAAAAAAAAAAAAAAA==")),
        ("args", texts(&["--profile", "/tmp/p"])),
    ]);
    assert_eq!(resolve(opts).err(), Some(CapsError::ProfileArgumentConflict));
}

#[test]
fn named_profile_after_profile_flag_conflicts() {
    let opts = object(vec![("args", texts(&["--profile", "/tmp/p", "-P", "default"]))]);
    assert_eq!(resolve(opts).err(), Some(CapsError::NamedProfileConflict));
}

#[test]
fn profile_flag_with_equals_sign_gives_path() {
    let opts = object(vec![("args", texts(&["--headless", "--profile=/tmp/p"]))]);
    let resolved = resolve(opts).expect("valid");
    assert_eq!(resolved.profile, ProfileType::Path("/tmp/p".to_string()));
}

#[test]
fn profile_flag_value_is_next_argument() {
    let opts = object(vec![("args", texts(&["-profile", "/tmp/q"]))]);
    let resolved = resolve(opts).expect("valid");
    assert_eq!(resolved.profile, ProfileType::Path("/tmp/q".to_string()));
}

#[test]
fn invalid_base64_profile_is_unknown_error() {
    let err = resolve(object(vec![("profile", text("foo"))])).err().expect("error");
    assert_eq!(err, CapsError::ProfileNotBase64);
    assert_eq!(err.status(), ErrorStatus::UnknownError);
}

#[test]
fn blocked_flag_is_named_in_the_error() {
    let opts = object(vec![("args", texts(&["--headless", "--remote-allow-origins=x"]))]);
    let err = resolve(opts).err().expect("error");
    assert_eq!(err, CapsError::BlockedArgument(BlockedFlag::RemoteAllowOrigins));
    assert_eq!(err.message(), "Argument --remote-allow-origins can't be set via capabilities");
    assert_eq!(err.status(), ErrorStatus::InvalidArgument);
}

#[test]
fn first_blocked_flag_is_named() {
    let opts = object(vec![("args", texts(&["--marionette", "--remote-debugging-port", "9"]))]);
    assert_eq!(
        resolve(opts).err(),
        Some(CapsError::BlockedArgument(BlockedFlag::Marionette))
    );
}

#[test]
fn remote_arguments_follow_client_arguments() {
    let mut caps = object(vec![
        ("moz:firefoxOptions", Json::Object(object(vec![("args", texts(&["--headless"]))]))),
        ("webSocketUrl", Json::Bool(true)),
    ]);
    let mut s = settings();
    s.allow_hosts = vec!["foo".to_string(), "bar".to_string()];
    s.allow_origins = vec!["http://a/".to_string()];
    let opts = FirefoxOptions::from_capabilities(None, &s, &mut caps).expect("valid");
    assert_eq!(
        opts.args,
        Some(vec![
            "--headless".to_string(),
            "--remote-debugging-port".to_string(),
            "4444".to_string(),
            "--remote-allow-hosts".to_string(),
            "foo,bar".to_string(),
            "--remote-allow-origins".to_string(),
            "http://a/".to_string(),
        ])
    );
}

#[test]
fn log_level_any_case() {
    let opts = object(vec![("log", Json::Object(object(vec![("level", text("TrAcE"))])))]);
    assert_eq!(resolve(opts).expect("valid").log, LogOptions { level: Some(Level::Trace) });
    let bad = object(vec![("log", Json::Object(object(vec![("level", text("verbose"))])))]);
    assert_eq!(resolve(bad).err(), Some(CapsError::LogLevelUnknown));
}

#[test]
fn pref_of_other_kind_refused() {
    for value in [Json::Null, texts(&["a"]), Json::Number(Number::Float("1.5".into()))] {
        let prefs = object(vec![("p", value)]);
        let err = resolve(object(vec![("prefs", Json::Object(prefs))])).err();
        assert_eq!(err, Some(CapsError::PrefValueUnsupported));
    }
    let prefs = object(vec![("p", Json::Number(Number::UInt(u64::MAX)))]);
    let err = resolve(object(vec![("prefs", Json::Object(prefs))])).err();
    assert_eq!(err, Some(CapsError::PrefValueUnsupported));
}

#[test]
fn known_focus_package_gets_focus_activity() {
    let opts = object(vec![("androidPackage", text("org.mozilla.klar"))]);
    let android = resolve(opts).expect("valid").android.expect("android");
    assert_eq!(
        android.activity,
        Some("org.mozilla.focus.activity.IntentReceiverActivity".to_string())
    );
    assert_eq!(android.storage, AndroidStorageInput::Auto);
}

#[test]
fn package_grammar() {
    for good in ["foo.bar", "foo.bar.cheese.is.good", "Foo.Bar_9", "a.b"] {
        assert!(is_valid_package(good), "{}", good);
    }
    for bad in ["../foo", "_foo", "0foo", "foo", "foo.", ".foo", "foo..bar", "foo.9a", "fö.bar", ""] {
        assert!(!is_valid_package(bad), "{}", bad);
    }
}

#[test]
fn decimal_rendering() {
    assert_eq!(decimal_text(0), "0");
    assert_eq!(decimal_text(7), "7");
    assert_eq!(decimal_text(1234), "1234");
    assert_eq!(decimal_text(65535), "65535");
}

#[test]
fn comma_joining() {
    assert_eq!(join_with_commas(&vec![]), "");
    assert_eq!(join_with_commas(&vec!["a".to_string()]), "a");
    assert_eq!(join_with_commas(&vec!["a".to_string(), "b".to_string(), "c".to_string()]), "a,b,c");
}

#[test]
fn validate_ignores_other_names() {
    let caps = FirefoxCapabilities::new(None);
    assert_eq!(caps.validate_custom("acceptInsecureCerts", &Json::Null), Validation::Valid);
}

#[test]
fn validate_unrecognised_vendor_option() {
    let caps = FirefoxCapabilities::new(None);
    assert_eq!(
        caps.validate_custom("moz:foo", &Json::Bool(true)),
        Validation::Invalid(CapsError::UnrecognisedOption("moz:foo".to_string()))
    );
}

#[test]
fn validate_boolean_capabilities() {
    let caps = FirefoxCapabilities::new(None);
    assert_eq!(caps.validate_custom("moz:webdriverClick", &Json::Bool(false)), Validation::Valid);
    assert_eq!(
        caps.validate_custom("moz:webdriverClick", &text("yes")),
        Validation::Invalid(CapsError::WebdriverClickNotBoolean)
    );
    assert_eq!(
        caps.validate_custom("moz:debuggerAddress", &text("127.0.0.1")),
        Validation::Invalid(CapsError::DebuggerAddressNotBoolean)
    );
}

#[test]
fn validate_options_fields() {
    let caps = FirefoxCapabilities::new(None);
    let check = |entries: Vec<(&str, Json)>| {
        caps.validate_custom("moz:firefoxOptions", &Json::Object(object(entries)))
    };
    assert_eq!(
        caps.validate_custom("moz:firefoxOptions", &Json::Null),
        Validation::Invalid(CapsError::OptionsNotObject)
    );
    assert_eq!(
        check(vec![("args", texts(&["-headless"])), ("profile", Json::Bool(true))]),
        Validation::Invalid(CapsError::FieldNotString("profile".into()))
    );
    assert_eq!(
        check(vec![("args", Json::Array(vec![Json::Null]))]),
        Validation::Invalid(CapsError::FieldEntryNotString("args".into()))
    );
    assert_eq!(
        check(vec![("androidIntentArguments", text("x"))]),
        Validation::Invalid(CapsError::FieldNotArray("androidIntentArguments".into()))
    );
    assert_eq!(
        check(vec![("log", Json::Object(object(vec![("level", text("loud"))])))]),
        Validation::Invalid(CapsError::InvalidLogLevel("loud".into()))
    );
    assert_eq!(
        check(vec![("log", Json::Object(object(vec![("file", text("x"))])))]),
        Validation::Invalid(CapsError::InvalidLogField("file".into()))
    );
    assert_eq!(
        check(vec![("prefs", Json::Object(object(vec![("p", Json::Null)])))]),
        Validation::Invalid(CapsError::PrefValuesInvalid)
    );
    assert_eq!(
        check(vec![("env", Json::Object(object(vec![("K", Json::Bool(true))])))]),
        Validation::Invalid(CapsError::EnvValuesNotStrings)
    );
    assert_eq!(
        check(vec![("extensions", texts(&[]))]),
        Validation::Invalid(CapsError::InvalidOptionsField("extensions".into()))
    );
    assert_eq!(
        check(vec![
            ("prefs", Json::Object(object(vec![("p", Json::Number(Number::UInt(u64::MAX)))]))),
            ("log", Json::Object(object(vec![("level", text("Debug"))]))),
            ("androidPackage", text("a.b")),
            ("binary", text("/never/probed")),
        ]),
        Validation::Valid
    );
}

#[test]
fn validate_binary_asks_for_probe_then_uses_answer() {
    let mut caps = FirefoxCapabilities::new(None);
    let options = Json::Object(object(vec![("binary", text("/opt/firefox"))]));
    assert_eq!(
        caps.validate_custom("moz:firefoxOptions", &options),
        Validation::ProbeVersion("/opt/firefox".to_string())
    );
    let stands = caps.record_version("/opt/firefox", Err(VersionError::Probe("no".into())));
    assert_eq!(stands, Err(VersionError::Probe("no".into())));
    assert_eq!(
        caps.validate_custom("moz:firefoxOptions", &options),
        Validation::Invalid(CapsError::NotFirefoxExecutable("binary".into()))
    );
    let other = Json::Object(object(vec![("binary", text("/opt/ff2"))]));
    caps.record_version("/opt/ff2", Ok("115.0".into()));
    assert_eq!(caps.validate_custom("moz:firefoxOptions", &other), Validation::Valid);
}

#[test]
fn version_cache_keeps_first_answer() {
    let mut caps = FirefoxCapabilities::new(None);
    assert_eq!(caps.cached_version(None), VersionLookup::Known(Err(VersionError::MissingBinary)));
    assert_eq!(caps.cached_version(Some("/ff")), VersionLookup::Unknown("/ff".to_string()));
    assert_eq!(caps.record_version("/ff", Ok("120.0".into())), Ok("120.0".to_string()));
    assert_eq!(caps.record_version("/ff", Ok("121.0".into())), Ok("120.0".to_string()));
    assert_eq!(caps.cached_version(Some("/ff")), VersionLookup::Known(Ok("120.0".to_string())));
    assert_eq!(caps.cached_version(Some("/other")), VersionLookup::Unknown("/other".to_string()));
}

#[test]
fn binary_choice_order() {
    let mut caps = FirefoxCapabilities::new(Some("/fallback".into()));
    let named = object(vec![(
        "moz:firefoxOptions",
        Json::Object(object(vec![("binary", text("/named"))])),
    )]);
    caps.set_binary(&named, Some("/default".into()));
    assert_eq!(caps.chosen_binary, Some("/named".to_string()));
    caps.set_binary(&vec![], Some("/default".into()));
    assert_eq!(caps.chosen_binary, Some("/fallback".to_string()));
    let mut bare = FirefoxCapabilities::new(None);
    bare.set_binary(&vec![], Some("/default".into()));
    assert_eq!(bare.chosen_binary, Some("/default".to_string()));
    bare.set_binary(&vec![], None);
    assert_eq!(bare.chosen_binary, None);
}

#[test]
fn error_messages_name_their_subject() {
    assert_eq!(
        CapsError::FieldNotString("profile".into()).message(),
        "profile is not a string"
    );
    assert_eq!(
        CapsError::UnrecognisedOption("moz:x".into()).message(),
        "Unrecognised option moz:x"
    );
    assert_eq!(
        CapsError::PackageAndBinary.message(),
        "androidPackage and binary are mutual exclusive"
    );
}

fn token(flag: Option<&str>, value: Option<&str>) -> (Option<String>, Option<String>) {
    (flag.map(|f| f.to_string()), value.map(|v| v.to_string()))
}

#[test]
fn profile_from_tokens() {
    let tokens = vec![token(Some("--profile"), None), token(None, Some("/p"))];
    assert_eq!(
        FirefoxOptions::profile_from_args(ProfileType::Temporary, &tokens),
        Ok(ProfileType::Path("/p".to_string()))
    );
    assert_eq!(
        FirefoxOptions::profile_from_args(ProfileType::Archive(vec![1]), &tokens),
        Err(CapsError::ProfileArgumentConflict)
    );
    let named = vec![token(Some("-P"), Some("work"))];
    assert_eq!(
        FirefoxOptions::profile_from_args(ProfileType::Temporary, &named),
        Ok(ProfileType::Named)
    );
    let bare_named = vec![token(Some("-P"), None)];
    assert_eq!(
        FirefoxOptions::profile_from_args(ProfileType::Temporary, &bare_named),
        Ok(ProfileType::Temporary)
    );
    let blocked = vec![token(Some("--foo"), None), token(Some("--remote-allow-hosts"), Some("h"))];
    assert_eq!(
        FirefoxOptions::profile_from_args(ProfileType::Temporary, &blocked),
        Err(CapsError::BlockedArgument(BlockedFlag::RemoteAllowHosts))
    );
}

#[test]
fn android_options_new_sets_only_package() {
    let android = AndroidOptions::new("a.b".to_string(), AndroidStorageInput::Sdcard);
    assert_eq!(android.package, "a.b");
    assert_eq!(android.storage, AndroidStorageInput::Sdcard);
    assert_eq!(android.activity, None);
    assert_eq!(android.device_serial, None);
    assert_eq!(android.intent_arguments, None);
}

#[test]
fn loaders_read_their_fields() {
    let options = object(vec![
        ("env", Json::Object(object(vec![("B", text("2")), ("A", text("1"))]))),
        ("prefs", Json::Object(object(vec![("x", Json::Bool(false))]))),
        ("androidPackage", text("org.mozilla.fenix")),
        ("androidIntentArguments", texts(&[])),
    ]);
    assert_eq!(
        FirefoxOptions::load_env(&options),
        Ok(Some(vec![("B".to_string(), "2".to_string()), ("A".to_string(), "1".to_string())]))
    );
    assert_eq!(
        FirefoxOptions::load_prefs(&options),
        Ok(vec![("x".to_string(), geckodriver_caps::PrefValue::Bool(false))])
    );
    let android = FirefoxOptions::load_android(AndroidStorageInput::App, &options)
        .expect("valid")
        .expect("present");
    assert_eq!(android.activity, Some("org.mozilla.fenix.IntentReceiverActivity".to_string()));
    assert_eq!(android.intent_arguments, Some(vec![]));
    assert_eq!(FirefoxOptions::load_env(&vec![]), Ok(None));
    assert_eq!(FirefoxOptions::load_prefs(&vec![]), Ok(vec![]));
    assert_eq!(FirefoxOptions::load_android(AndroidStorageInput::App, &vec![]), Ok(None));
    assert_eq!(
        FirefoxOptions::load_prefs(&object(vec![("prefs", texts(&[]))])),
        Err(CapsError::PrefsNotObject)
    );
}

#[test]
fn archive_entries() {
    assert_eq!(entry_action("defaults/", 0), EntryAction::CreateDir);
    assert_eq!(entry_action("prefs.js", 12), EntryAction::WriteFile { copy_contents: true });
    assert_eq!(entry_action("empty", 0), EntryAction::WriteFile { copy_contents: false });
}

#[test]
fn unreadable_flag_name_is_refused() {
    let opts = object(vec![("args", texts(&["-é"]))]);
    assert_eq!(resolve(opts).err(), Some(CapsError::ArgumentNotReadable));
    let late = object(vec![("args", texts(&["--headless", "--prof\u{e9}le=x"]))]);
    assert_eq!(resolve(late).err(), Some(CapsError::ArgumentNotReadable));
}

#[test]
fn non_ascii_values_are_read() {
    let opts = object(vec![("args", texts(&["--profile", "/home/jos\u{e9}/p", "-a=\u{e9}"]))]);
    let resolved = resolve(opts).expect("valid");
    assert_eq!(resolved.profile, ProfileType::Path("/home/jos\u{e9}/p".to_string()));
}

#[test]
fn readable_argument_rule() {
    assert!(is_readable_arg("--headless"));
    assert!(is_readable_arg("-foo=\u{e9}t\u{e9}"));
    assert!(is_readable_arg("-a b\u{e9}"));
    assert!(is_readable_arg("\u{e9}t\u{e9}"));
    assert!(is_readable_arg(""));
    assert!(!is_readable_arg("-\u{e9}"));
    assert!(!is_readable_arg("--na\u{ef}ve=x"));
}
