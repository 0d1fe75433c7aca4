//! Properties of the resolution that hold for every payload.

use crate::android::{android_spec, default_intent_arguments};
use crate::args::{all_readable, blocked_at, first_blocked, flag_value, lemma_first_blocked, tokens_of};
use crate::error::CapsError;
use crate::json::{get_spec, remove_spec, texts, Json, Number};
use crate::options::{
    args_spec, env_spec, log_spec, pref_spec, prefs_spec,
    profile_spec, remote_arguments, resolve_spec, wants_bidi, FirefoxOptionsView, MarionetteSettings,
    PrefView, ProfileView,
};
use crate::text::{comma_joined, decimal};
use vstd::prelude::*;

verus! {

/// Without `moz:firefoxOptions`, and without a request for a bidirectional
/// session, the configuration has a temporary profile, no command line and
/// no Android settings.
pub proof fn law_no_vendor_options(
    binary: Option<Seq<char>>,
    settings: MarionetteSettings,
    matched: Seq<(String, Json)>,
)
    requires
        get_spec(matched, "moz:firefoxOptions"@) is None,
        !wants_bidi(matched),
    ensures
        resolve_spec(binary, settings, matched) is Ok,
        resolve_spec(binary, settings, matched)->Ok_0.profile == ProfileView::Temporary,
        resolve_spec(binary, settings, matched)->Ok_0.args is None,
        resolve_spec(binary, settings, matched)->Ok_0.android is None,
{
}

/// An Android application id beside a binary is refused with that error,
/// whatever else the options hold.
pub proof fn law_package_and_binary_refused(
    binary: Option<Seq<char>>,
    settings: MarionetteSettings,
    matched: Seq<(String, Json)>,
    options: Vec<(String, Json)>,
)
    requires
        get_spec(matched, "moz:firefoxOptions"@) == Some(Json::Object(options)),
        get_spec(options@, "androidPackage"@) is Some,
        get_spec(options@, "binary"@) is Some,
    ensures
        resolve_spec(binary, settings, matched) == Err::<FirefoxOptionsView, CapsError>(
            CapsError::PackageAndBinary,
        ),
{
}

/// The fields of the options object other than the profile archive and the
/// command line are well formed.
pub open spec fn other_fields_ok(
    storage: mozdevice::AndroidStorageInput,
    options: Seq<(String, Json)>,
) -> bool {
    &&& !(get_spec(options, "androidPackage"@) is Some && get_spec(options, "binary"@) is Some)
    &&& android_spec(storage, options) is Ok
    &&& env_spec(options) is Ok
    &&& log_spec(options) is Ok
    &&& prefs_spec(options) is Ok
}

/// A profile archive together with a `--profile` flag is refused as a
/// conflict of profile sources, where every argument can be read.
pub proof fn law_archive_and_profile_flag_conflict(
    binary: Option<Seq<char>>,
    settings: MarionetteSettings,
    matched: Seq<(String, Json)>,
    options: Vec<(String, Json)>,
    args: Seq<Seq<char>>,
)
    requires
        get_spec(matched, "moz:firefoxOptions"@) == Some(Json::Object(options)),
        other_fields_ok(settings.android_storage, options@),
        profile_spec(options@) matches Ok(Some(_)),
        args_spec(options@) == Ok::<Option<Seq<Seq<char>>>, CapsError>(Some(args)),
        all_readable(args),
        flag_value(tokens_of(args), "--profile"@) is Some,
    ensures
        resolve_spec(binary, settings, matched) == Err::<FirefoxOptionsView, CapsError>(
            CapsError::ProfileArgumentConflict,
        ),
{
}

/// A profile archive alone, with a readable command line that names no
/// profile and no server-owned flag, gives the archive as the profile.
pub proof fn law_archive_alone(
    binary: Option<Seq<char>>,
    settings: MarionetteSettings,
    matched: Seq<(String, Json)>,
    options: Vec<(String, Json)>,
    archive: Seq<u8>,
)
    requires
        get_spec(matched, "moz:firefoxOptions"@) == Some(Json::Object(options)),
        other_fields_ok(settings.android_storage, options@),
        profile_spec(options@) == Ok::<Option<Seq<u8>>, CapsError>(Some(archive)),
        args_spec(options@) is Ok,
        args_spec(options@)->Ok_0 matches Some(a) ==> all_readable(a) && flag_value(
            tokens_of(a),
            "--profile"@,
        ) is None
            && flag_value(tokens_of(a), "-P"@) is None && first_blocked(tokens_of(a)) is None,
    ensures
        resolve_spec(binary, settings, matched) is Ok,
        resolve_spec(binary, settings, matched)->Ok_0.profile == ProfileView::Archive(archive),
{
}

/// A `--profile <path>` flag alone, on a readable command line with no
/// archive, no `-P` and no server-owned flag, gives that path as the
/// profile.
pub proof fn law_profile_flag_alone(
    binary: Option<Seq<char>>,
    settings: MarionetteSettings,
    matched: Seq<(String, Json)>,
    options: Vec<(String, Json)>,
    args: Seq<Seq<char>>,
    path: Seq<char>,
)
    requires
        get_spec(matched, "moz:firefoxOptions"@) == Some(Json::Object(options)),
        other_fields_ok(settings.android_storage, options@),
        profile_spec(options@) == Ok::<Option<Seq<u8>>, CapsError>(None),
        args_spec(options@) == Ok::<Option<Seq<Seq<char>>>, CapsError>(Some(args)),
        all_readable(args),
        flag_value(tokens_of(args), "--profile"@) == Some(path),
        flag_value(tokens_of(args), "-P"@) is None,
        first_blocked(tokens_of(args)) is None,
    ensures
        resolve_spec(binary, settings, matched) is Ok,
        resolve_spec(binary, settings, matched)->Ok_0.profile == ProfileView::Path(path),
{
}

/// A command line with a flag that only the server may set is refused.
/// Where the other fields are well formed, no archive is sent, no `-P` is
/// given and every argument can be read, the error names the first such
/// flag.
pub proof fn law_blocked_flag_refused(
    binary: Option<Seq<char>>,
    settings: MarionetteSettings,
    matched: Seq<(String, Json)>,
    options: Vec<(String, Json)>,
    args: Seq<Seq<char>>,
    i: int,
)
    requires
        get_spec(matched, "moz:firefoxOptions"@) == Some(Json::Object(options)),
        args_spec(options@) == Ok::<Option<Seq<Seq<char>>>, CapsError>(Some(args)),
        blocked_at(tokens_of(args), i),
    ensures
        resolve_spec(binary, settings, matched) is Err,
        other_fields_ok(settings.android_storage, options@) && profile_spec(options@) == Ok::<
            Option<Seq<u8>>,
            CapsError,
        >(None) && all_readable(args) && flag_value(tokens_of(args), "-P"@) is None ==> resolve_spec(
            binary,
            settings,
            matched,
        ) == Err::<FirefoxOptionsView, CapsError>(
            CapsError::BlockedArgument(first_blocked(tokens_of(args))->0),
        ),
{
    lemma_first_blocked(tokens_of(args), i);
}

/// Without `androidIntentArguments` the intent opens a blank page.
pub proof fn law_default_intent(storage: mozdevice::AndroidStorageInput, options: Seq<(String, Json)>)
    requires
        android_spec(storage, options) matches Ok(Some(_)),
        get_spec(options, "androidIntentArguments"@) is None,
    ensures
        android_spec(storage, options)->Ok_0->0.intent_arguments == Some(default_intent_arguments()),
{
}

/// A bidirectional session puts `--remote-debugging-port` on the command
/// line, right before the configured port.
pub proof fn law_remote_port(
    binary: Option<Seq<char>>,
    settings: MarionetteSettings,
    matched: Seq<(String, Json)>,
)
    requires
        resolve_spec(binary, settings, matched) is Ok,
        wants_bidi(remove_spec(matched, "moz:firefoxOptions"@)),
    ensures
        ({
            let a = resolve_spec(binary, settings, matched)->Ok_0.args;
            a is Some && exists|i: int|
                0 <= i && i + 1 < a->0.len() && #[trigger] a->0[i] == "--remote-debugging-port"@
                    && a->0[i + 1] == decimal(settings.websocket_port as nat)
        }),
        resolve_spec(binary, settings, matched)->Ok_0.use_websocket,
{
    let v = resolve_spec(binary, settings, matched)->Ok_0;
    let a = v.args->0;
    let remote = remote_arguments(settings);
    let i = a.len() - remote.len();
    assert(a[i] == remote[0]);
    assert(a[i + 1] == remote[1]);
}

/// In a bidirectional session with additional hosts and no additional
/// origins, the command line ends with exactly the remote port and the
/// hosts, joined by `,`, after `--remote-allow-hosts`: no
/// `--remote-allow-origins` flag is added.
pub proof fn law_remote_hosts(
    binary: Option<Seq<char>>,
    settings: MarionetteSettings,
    matched: Seq<(String, Json)>,
)
    requires
        resolve_spec(binary, settings, matched) is Ok,
        wants_bidi(remove_spec(matched, "moz:firefoxOptions"@)),
        settings.allow_hosts@.len() > 0,
        settings.allow_origins@.len() == 0,
    ensures
        ({
            let a = resolve_spec(binary, settings, matched)->Ok_0.args->0;
            &&& a.len() >= 4
            &&& a.subrange(a.len() - 4, a.len() as int) == seq![
                "--remote-debugging-port"@,
                decimal(settings.websocket_port as nat),
                "--remote-allow-hosts"@,
                comma_joined(texts(settings.allow_hosts@)),
            ]
        }),
{
    let a = resolve_spec(binary, settings, matched)->Ok_0.args->0;
    let remote = remote_arguments(settings);
    assert(remote =~= seq![
        "--remote-debugging-port"@,
        decimal(settings.websocket_port as nat),
        "--remote-allow-hosts"@,
        comma_joined(texts(settings.allow_hosts@)),
    ]);
    assert(a.subrange(a.len() - 4, a.len() as int) =~= remote);
}

/// Strings, booleans and integers that fit `i64` become preferences of the
/// same kind and value; every other JSON value is refused.
pub proof fn law_pref_kinds(v: Json)
    ensures
        match v {
            Json::String(s) => pref_spec(v) == Ok::<PrefView, CapsError>(PrefView::String(s@)),
            Json::Bool(b) => pref_spec(v) == Ok::<PrefView, CapsError>(PrefView::Bool(b)),
            Json::Number(Number::Int(i)) => pref_spec(v) == Ok::<PrefView, CapsError>(PrefView::Int(i)),
            Json::Number(Number::UInt(u)) => u <= i64::MAX ==> pref_spec(v) == Ok::<PrefView, CapsError>(
                PrefView::Int(u as i64),
            ),
            _ => pref_spec(v) == Err::<PrefView, CapsError>(CapsError::PrefValueUnsupported),
        },
{
}

} // verus!
