use geckodriver_caps::{
    FirefoxOptions, Json, LogOptions, MarionetteSettings, Number, PrefValue, ProfileType,
};
use mozdevice::AndroidStorageInput;
use url::{Host, Url};

fn text(s: &str) -> Json {
    Json::String(s.to_string())
}

fn number(i: i64) -> Json {
    Json::Number(Number::Int(i))
}

fn texts(items: &[&str]) -> Json {
    Json::Array(items.iter().map(|s| text(s)).collect())
}

fn object(entries: Vec<(&str, Json)>) -> Vec<(String, Json)> {
    entries.into_iter().map(|(k, v)| (k.to_string(), v)).collect()
}

fn default_settings() -> MarionetteSettings {
    MarionetteSettings {
        websocket_port: 0,
        allow_hosts: vec![],
        allow_origins: vec![],
        android_storage: AndroidStorageInput::Auto,
    }
}

fn make_options(
    firefox_opts: Vec<(String, Json)>,
    settings: Option<MarionetteSettings>,
) -> Result<FirefoxOptions, geckodriver_caps::CapsError> {
    let mut caps = vec![("moz:firefoxOptions".to_string(), Json::Object(firefox_opts))];
    FirefoxOptions::from_capabilities(None, &settings.unwrap_or_else(default_settings), &mut caps)
}

#[test]
fn fx_options_default() {
    let opts: FirefoxOptions = Default::default();
    assert_eq!(opts.android, None);
    assert_eq!(opts.args, None);
    assert_eq!(opts.binary, None);
    assert_eq!(opts.log, LogOptions { level: None });
    assert_eq!(opts.prefs, vec![]);
}

#[test]
fn fx_options_from_capabilities_no_binary_and_empty_caps() {
    let mut caps = Vec::new();
    let opts = FirefoxOptions::from_capabilities(None, &default_settings(), &mut caps)
        .expect("valid firefox options");
    assert_eq!(opts.android, None);
    assert_eq!(opts.args, None);
    assert_eq!(opts.binary, None);
    assert_eq!(opts.log, LogOptions { level: None });
    assert_eq!(opts.prefs, vec![]);
}

#[test]
fn fx_options_from_capabilities_with_binary_and_caps() {
    let mut caps = object(vec![("moz:firefoxOptions", Json::Object(vec![]))]);
    let binary = "foo".to_string();
    let opts =
        FirefoxOptions::from_capabilities(Some(binary.clone()), &default_settings(), &mut caps)
            .expect("valid firefox options");
    assert_eq!(opts.android, None);
    assert_eq!(opts.args, None);
    assert_eq!(opts.binary, Some(binary));
    assert_eq!(opts.log, LogOptions { level: None });
    assert_eq!(opts.prefs, vec![]);
}

#[test]
fn fx_options_from_capabilities_with_blocked_firefox_arguments() {
    let blocked_args = vec![
        "--marionette",
        "--remote-allow-hosts",
        "--remote-allow-origins",
        "--remote-debugging-port",
    ];
    for arg in blocked_args {
        let firefox_opts = object(vec![("args", texts(&[arg]))]);
        make_options(firefox_opts, None).expect_err("invalid firefox options");
    }
}

#[test]
fn fx_options_from_capabilities_with_websocket_url_not_set() {
    let mut caps = Vec::new();
    let opts = FirefoxOptions::from_capabilities(None, &default_settings(), &mut caps)
        .expect("Valid Firefox options");
    assert!(opts.args.is_none(), "CLI arguments for Firefox unexpectedly found");
}

#[test]
fn fx_options_from_capabilities_with_websocket_url_false() {
    let mut caps = object(vec![("webSocketUrl", Json::Bool(false))]);
    let opts = FirefoxOptions::from_capabilities(None, &default_settings(), &mut caps)
        .expect("Valid Firefox options");
    assert!(opts.args.is_none(), "CLI arguments for Firefox unexpectedly found");
}

#[test]
fn fx_options_from_capabilities_with_websocket_url_true() {
    let mut caps = object(vec![("webSocketUrl", Json::Bool(true))]);
    let settings = MarionetteSettings { websocket_port: 1234, ..default_settings() };
    let opts = FirefoxOptions::from_capabilities(None, &settings, &mut caps)
        .expect("Valid Firefox options");
    if let Some(args) = opts.args {
        let mut iter = args.iter();
        assert!(iter.any(|arg| arg == &"--remote-debugging-port".to_owned()));
        assert_eq!(iter.next(), Some(&"1234".to_owned()));
    } else {
        panic!("CLI arguments for Firefox not found");
    }
}

#[test]
fn fx_options_from_capabilities_with_websocket_and_allow_hosts() {
    let mut caps = object(vec![("webSocketUrl", Json::Bool(true))]);
    let mut settings = default_settings();
    settings.allow_hosts = vec![
        Host::parse("foo").expect("host").to_string(),
        Host::parse("bar").expect("host").to_string(),
    ];
    let opts = FirefoxOptions::from_capabilities(None, &settings, &mut caps)
        .expect("Valid Firefox options");
    if let Some(args) = opts.args {
        let mut iter = args.iter();
        assert!(iter.any(|arg| arg == &"--remote-allow-hosts".to_owned()));
        assert_eq!(iter.next(), Some(&"foo,bar".to_owned()));
        assert!(!iter.any(|arg| arg == &"--remote-allow-origins".to_owned()));
    } else {
        panic!("CLI arguments for Firefox not found");
    }
}

#[test]
fn fx_options_from_capabilities_with_websocket_and_allow_origins() {
    let mut caps = object(vec![("webSocketUrl", Json::Bool(true))]);
    let mut settings = default_settings();
    settings.allow_origins = vec![
        Url::parse("http://foo/").expect("url").to_string(),
        Url::parse("http://bar/").expect("url").to_string(),
    ];
    let opts = FirefoxOptions::from_capabilities(None, &settings, &mut caps)
        .expect("Valid Firefox options");
    if let Some(args) = opts.args {
        let mut iter = args.iter();
        assert!(iter.any(|arg| arg == &"--remote-allow-origins".to_owned()));
        assert_eq!(iter.next(), Some(&"http://foo/,http://bar/".to_owned()));
        assert!(!iter.any(|arg| arg == &"--remote-allow-hosts".to_owned()));
    } else {
        panic!("CLI arguments for Firefox not found");
    }
}

#[test]
fn fx_options_from_capabilities_with_debugger_address_not_set() {
    let opts = make_options(Vec::new(), None).expect("valid firefox options");
    assert!(opts.args.is_none(), "CLI arguments for Firefox unexpectedly found");
}

#[test]
fn fx_options_from_capabilities_with_debugger_address_false() {
    let caps = object(vec![("moz:debuggerAddress", Json::Bool(false))]);
    let opts = make_options(caps, None).expect("valid firefox options");
    assert!(opts.args.is_none(), "CLI arguments for Firefox unexpectedly found");
}

#[test]
fn fx_options_from_capabilities_with_debugger_address_true() {
    let mut caps = object(vec![("moz:debuggerAddress", Json::Bool(true))]);
    let settings = MarionetteSettings { websocket_port: 1234, ..default_settings() };
    let opts = FirefoxOptions::from_capabilities(None, &settings, &mut caps)
        .expect("Valid Firefox options");
    if let Some(args) = opts.args {
        let mut iter = args.iter();
        assert!(iter.any(|arg| arg == &"--remote-debugging-port".to_owned()));
        assert_eq!(iter.next(), Some(&"1234".to_owned()));
    } else {
        panic!("CLI arguments for Firefox not found");
    }
}

#[test]
fn fx_options_from_capabilities_with_invalid_caps() {
    let mut caps = object(vec![("moz:firefoxOptions", number(42))]);
    FirefoxOptions::from_capabilities(None, &default_settings(), &mut caps)
        .expect_err("Firefox options need to be of type object");
}

#[test]
fn fx_options_android_package_and_binary() {
    let firefox_opts = object(vec![("androidPackage", text("foo")), ("binary", text("bar"))]);
    make_options(firefox_opts, None).expect_err("androidPackage and binary are mutual exclusive");
}

#[test]
fn fx_options_android_no_package() {
    let firefox_opts = object(vec![("androidAvtivity", text("foo"))]);
    let opts = make_options(firefox_opts, None).expect("valid firefox options");
    assert_eq!(opts.android, None);
}

#[test]
fn fx_options_android_package_valid_value() {
    for value in ["foo.bar", "foo.bar.cheese.is.good", "Foo.Bar_9"].iter() {
        let firefox_opts = object(vec![("androidPackage", text(value))]);
        let opts = make_options(firefox_opts, None).expect("valid firefox options");
        assert_eq!(opts.android.unwrap().package, value.to_string());
    }
}

#[test]
fn fx_options_android_package_invalid_type() {
    let firefox_opts = object(vec![("androidPackage", number(42))]);
    make_options(firefox_opts, None).expect_err("invalid firefox options");
}

#[test]
fn fx_options_android_package_invalid_value() {
    for value in ["../foo", "\\foo\n", "foo", "_foo", "0foo"].iter() {
        let firefox_opts = object(vec![("androidPackage", text(value))]);
        make_options(firefox_opts, None).expect_err("invalid firefox options");
    }
}

#[test]
fn fx_options_android_activity_default_known_apps() {
    let packages = vec![
        "org.mozilla.firefox",
        "org.mozilla.firefox_beta",
        "org.mozilla.fenix",
        "org.mozilla.fenix.debug",
        "org.mozilla.focus",
        "org.mozilla.focus.debug",
        "org.mozilla.klar",
        "org.mozilla.klar.debug",
        "org.mozilla.reference.browser",
    ];
    for package in packages {
        let firefox_opts = object(vec![("androidPackage", text(package))]);
        let opts = make_options(firefox_opts, None).expect("valid firefox options");
        assert!(opts.android.unwrap().activity.unwrap().contains("IntentReceiverActivity"));
    }
}

#[test]
fn fx_options_android_activity_default_unknown_apps() {
    let packages = vec!["org.mozilla.geckoview_example", "com.some.other.app"];
    for package in packages {
        let firefox_opts = object(vec![("androidPackage", text(package))]);
        let opts = make_options(firefox_opts, None).expect("valid firefox options");
        assert_eq!(opts.android.unwrap().activity, None);
    }
    let firefox_opts = object(vec![("androidPackage", text("org.mozilla.geckoview_example"))]);
    let opts = make_options(firefox_opts, None).expect("valid firefox options");
    assert_eq!(opts.android.unwrap().activity, None);
}

#[test]
fn fx_options_android_activity_override() {
    let firefox_opts =
        object(vec![("androidPackage", text("foo.bar")), ("androidActivity", text("foo"))]);
    let opts = make_options(firefox_opts, None).expect("valid firefox options");
    assert_eq!(opts.android.unwrap().activity, Some("foo".to_string()));
}

#[test]
fn fx_options_android_activity_invalid_type() {
    let firefox_opts =
        object(vec![("androidPackage", text("foo.bar")), ("androidActivity", number(42))]);
    make_options(firefox_opts, None).expect_err("invalid firefox options");
}

#[test]
fn fx_options_android_activity_invalid_value() {
    let firefox_opts = object(vec![
        ("androidPackage", text("foo.bar")),
        ("androidActivity", text("foo.bar/cheese")),
    ]);
    make_options(firefox_opts, None).expect_err("invalid firefox options");
}

#[test]
fn fx_options_android_device_serial() {
    let firefox_opts =
        object(vec![("androidPackage", text("foo.bar")), ("androidDeviceSerial", text("cheese"))]);
    let opts = make_options(firefox_opts, None).expect("valid firefox options");
    assert_eq!(opts.android.unwrap().device_serial, Some("cheese".to_string()));
}

#[test]
fn fx_options_android_device_serial_invalid() {
    let firefox_opts =
        object(vec![("androidPackage", text("foo.bar")), ("androidDeviceSerial", number(42))]);
    make_options(firefox_opts, None).expect_err("invalid firefox options");
}

#[test]
fn fx_options_android_intent_arguments_defaults() {
    let packages = vec![
        "org.mozilla.firefox",
        "org.mozilla.firefox_beta",
        "org.mozilla.fenix",
        "org.mozilla.fenix.debug",
        "org.mozilla.geckoview_example",
        "org.mozilla.reference.browser",
        "com.some.other.app",
    ];
    for package in packages {
        let firefox_opts = object(vec![("androidPackage", text(package))]);
        let opts = make_options(firefox_opts, None).expect("valid firefox options");
        assert_eq!(
            opts.android.unwrap().intent_arguments,
            Some(vec![
                "-a".to_string(),
                "android.intent.action.VIEW".to_string(),
                "-d".to_string(),
                "about:blank".to_string(),
            ])
        );
    }
}

#[test]
fn fx_options_android_intent_arguments_override() {
    let firefox_opts = object(vec![
        ("androidPackage", text("foo.bar")),
        ("androidIntentArguments", texts(&["lorem", "ipsum"])),
    ]);
    let opts = make_options(firefox_opts, None).expect("valid firefox options");
    assert_eq!(
        opts.android.unwrap().intent_arguments,
        Some(vec!["lorem".to_string(), "ipsum".to_string()])
    );
}

#[test]
fn fx_options_android_intent_arguments_no_array() {
    let firefox_opts =
        object(vec![("androidPackage", text("foo.bar")), ("androidIntentArguments", number(42))]);
    make_options(firefox_opts, None).expect_err("invalid firefox options");
}

#[test]
fn fx_options_android_intent_arguments_invalid_value() {
    let firefox_opts = object(vec![
        ("androidPackage", text("foo.bar")),
        ("androidIntentArguments", Json::Array(vec![text("lorem"), number(42)])),
    ]);
    make_options(firefox_opts, None).expect_err("invalid firefox options");
}

#[test]
fn fx_options_env() {
    let env = object(vec![
        ("TEST_KEY_A", text("test_value_a")),
        ("TEST_KEY_B", text("test_value_b")),
    ]);
    let firefox_opts = object(vec![("env", Json::Object(env))]);
    let mut opts = make_options(firefox_opts, None).expect("valid firefox options");
    for sorted in opts.env.iter_mut() {
        sorted.sort()
    }
    assert_eq!(
        opts.env,
        Some(vec![
            ("TEST_KEY_A".into(), "test_value_a".into()),
            ("TEST_KEY_B".into(), "test_value_b".into()),
        ])
    );
}

#[test]
fn fx_options_env_invalid_container() {
    let firefox_opts = object(vec![("env", number(1))]);
    make_options(firefox_opts, None).expect_err("invalid firefox options");
}

#[test]
fn fx_options_env_invalid_value() {
    let env = object(vec![("TEST_KEY", number(1))]);
    let firefox_opts = object(vec![("env", Json::Object(env))]);
    make_options(firefox_opts, None).expect_err("invalid firefox options");
}

#[test]
fn test_profile() {
    // A profile archive travels base64-encoded and is resolved to its bytes.
    let archive: Vec<u8> = b"PK\x05\x06\0\0\0\0\0\0\0\0\0\0\0\0\0\0\0\0\0\0".to_vec();
    let encoded = "UEsFBgAAAAAAAAAAAAAAAAAAAAAAAA==";
    let firefox_opts = object(vec![("profile", text(encoded))]);
    let opts = make_options(firefox_opts, None).expect("valid firefox options");
    match opts.profile {
        ProfileType::Archive(bytes) => assert_eq!(bytes, archive),
        _ => panic!("Expected ProfileType::Archive"),
    }
}

#[test]
fn fx_options_args_profile() {
    let firefox_opts = object(vec![("args", texts(&["--profile", "foo"]))]);
    let options = make_options(firefox_opts, None).expect("Valid args");
    assert!(matches!(options.profile, ProfileType::Path(_)));
}

#[test]
fn fx_options_args_named_profile() {
    let firefox_opts = object(vec![("args", texts(&["-P", "foo"]))]);
    let options = make_options(firefox_opts, None).expect("Valid args");
    assert!(matches!(options.profile, ProfileType::Named));
}

#[test]
fn fx_options_args_no_profile() {
    let firefox_opts = object(vec![("args", texts(&["--headless"]))]);
    let options = make_options(firefox_opts, None).expect("Valid args");
    assert!(matches!(options.profile, ProfileType::Temporary));
}

#[test]
fn fx_options_args_profile_and_profile() {
    let firefox_opts =
        object(vec![("args", texts(&["--profile", "foo"])), ("profile", text("foo"))]);
    make_options(firefox_opts, None).expect_err("Invalid args");
}

#[test]
fn fx_options_args_p_and_profile() {
    let firefox_opts = object(vec![("args", texts(&["-P"])), ("profile", text("foo"))]);
    make_options(firefox_opts, None).expect_err("Invalid args");
}

#[test]
fn prefs_keep_kind_and_value() {
    let prefs = object(vec![
        ("a.string", text("x")),
        ("a.bool", Json::Bool(true)),
        ("an.int", number(-7)),
        ("a.big", Json::Number(Number::UInt(42))),
    ]);
    let opts = make_options(object(vec![("prefs", Json::Object(prefs))]), None)
        .expect("valid firefox options");
    assert_eq!(
        opts.prefs,
        vec![
            ("a.string".to_string(), PrefValue::String("x".to_string())),
            ("a.bool".to_string(), PrefValue::Bool(true)),
            ("an.int".to_string(), PrefValue::Int(-7)),
            ("a.big".to_string(), PrefValue::Int(42)),
        ]
    );
}
