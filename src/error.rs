//! Errors reported while matching and resolving Firefox capabilities.

use crate::args::BlockedFlag;
use vstd::prelude::*;

verus! {

/// The WebDriver error code under which an error is reported to the client.
#[derive(Debug, Clone, Copy, PartialEq, Eq, Structural)]
pub enum ErrorStatus {
    InvalidArgument,
    SessionNotCreated,
    UnknownError,
}

/// Why a capabilities payload was refused.
#[derive(Debug, PartialEq)]
pub enum CapsError {
    // Matching of the vendor capabilities.
    OptionsNotObject,
    FieldNotString(String),
    FieldNotArray(String),
    FieldEntryNotString(String),
    NotFirefoxExecutable(String),
    EnvValueNotObject,
    EnvValuesNotStrings,
    LogValueNotObject,
    LogLevelValueNotString,
    InvalidLogLevel(String),
    InvalidLogField(String),
    PrefsValueNotObject,
    PrefValuesInvalid,
    InvalidOptionsField(String),
    WebdriverClickNotBoolean,
    DebuggerAddressNotBoolean,
    UnrecognisedOption(String),
    // Resolution of the launch configuration.
    OptionsCapabilityNotObject,
    PackageAndBinary,
    ProfileNotString,
    ProfileNotBase64,
    ArgsNotArray,
    ArgsNotStrings,
    EnvNotObject,
    EnvValueNotString,
    LogNotObject,
    LogLevelNotString,
    LogLevelUnknown,
    PrefsNotObject,
    PrefValueUnsupported,
    PackageNotString,
    InvalidPackage,
    ActivityNotString,
    ActivityHasSlash,
    DeviceSerialNotString,
    IntentArgumentsNotArray,
    IntentArgumentsNotStrings,
    ProfileArgumentConflict,
    NamedProfileConflict,
    BlockedArgument(BlockedFlag),
    ArgumentNotReadable,
}

/// `part` occurs in `whole` as a contiguous piece.
pub open spec fn contains_text(whole: Seq<char>, part: Seq<char>) -> bool {
    exists|i: int|
        0 <= i <= whole.len() - part.len() && #[trigger] whole.subrange(i, i + part.len()) == part
}

impl CapsError {
    pub open spec fn spec_status(&self) -> ErrorStatus {
        match self {
            CapsError::ProfileNotBase64 | CapsError::PrefValueUnsupported => ErrorStatus::UnknownError,
            _ => ErrorStatus::InvalidArgument,
        }
    }

    /// The error code that the client receives.
    pub fn status(&self) -> (r: ErrorStatus)
        ensures
            r == self.spec_status(),
    {
        match self {
            CapsError::ProfileNotBase64 | CapsError::PrefValueUnsupported => ErrorStatus::UnknownError,
            _ => ErrorStatus::InvalidArgument,
        }
    }

    /// The part of the message that names a field, a value or a flag.
    pub open spec fn spec_subject(&self) -> Seq<char> {
        match self {
            CapsError::FieldNotString(s) => s@,
            CapsError::FieldNotArray(s) => s@,
            CapsError::FieldEntryNotString(s) => s@,
            CapsError::NotFirefoxExecutable(s) => s@,
            CapsError::InvalidLogLevel(s) => s@,
            CapsError::InvalidLogField(s) => s@,
            CapsError::InvalidOptionsField(s) => s@,
            CapsError::UnrecognisedOption(s) => s@,
            CapsError::BlockedArgument(f) => f.spec_text(),
            _ => Seq::empty(),
        }
    }

    /// The human-readable message.
    pub open spec fn spec_message(&self) -> Seq<char> {
        match self {
            CapsError::OptionsNotObject => "moz:firefoxOptions is not an object"@,
            CapsError::FieldNotString(s) => s@ + " is not a string"@,
            CapsError::FieldNotArray(s) => s@ + " is not an array"@,
            CapsError::FieldEntryNotString(s) => s@ + " entry is not a string"@,
            CapsError::NotFirefoxExecutable(s) => s@ + " is not a Firefox executable"@,
            CapsError::EnvValueNotObject => "env value is not an object"@,
            CapsError::EnvValuesNotStrings => "Environment values were not all strings"@,
            CapsError::LogValueNotObject => "log value is not an object"@,
            CapsError::LogLevelValueNotString => "log level is not a string"@,
            CapsError::InvalidLogLevel(s) => "Not a valid log level: "@ + s@,
            CapsError::InvalidLogField(s) => "Invalid log field "@ + s@,
            CapsError::PrefsValueNotObject => "prefs value is not an object"@,
            CapsError::PrefValuesInvalid => "Preference values not all string or integer or boolean"@,
            CapsError::InvalidOptionsField(s) => "Invalid moz:firefoxOptions field "@ + s@,
            CapsError::WebdriverClickNotBoolean => "moz:webdriverClick is not a boolean"@,
            CapsError::DebuggerAddressNotBoolean => "moz:debuggerAddress is not a boolean"@,
            CapsError::UnrecognisedOption(s) => "Unrecognised option "@ + s@,
            CapsError::OptionsCapabilityNotObject => "'moz:firefoxOptions' capability is not an object"@,
            CapsError::PackageAndBinary => "androidPackage and binary are mutual exclusive"@,
            CapsError::ProfileNotString => "Profile is not a string"@,
            CapsError::ProfileNotBase64 => "Profile is not valid base64"@,
            CapsError::ArgsNotArray => "Arguments were not an array"@,
            CapsError::ArgsNotStrings => "Arguments entries were not all strings"@,
            CapsError::EnvNotObject => "Env was not an object"@,
            CapsError::EnvValueNotString => "Env value is not a string"@,
            CapsError::LogNotObject => "Log section is not an object"@,
            CapsError::LogLevelNotString => "Log level is not a string"@,
            CapsError::LogLevelUnknown => "Log level is unknown"@,
            CapsError::PrefsNotObject => "Prefs were not an object"@,
            CapsError::PrefValueUnsupported => "Could not convert pref value to string, boolean, or integer"@,
            CapsError::PackageNotString => "androidPackage is not a string"@,
            CapsError::InvalidPackage => "Not a valid androidPackage name"@,
            CapsError::ActivityNotString => "androidActivity is not a string"@,
            CapsError::ActivityHasSlash => "androidActivity should not contain '/'"@,
            CapsError::DeviceSerialNotString => "androidDeviceSerial is not a string"@,
            CapsError::IntentArgumentsNotArray => "androidIntentArguments is not an array"@,
            CapsError::IntentArgumentsNotStrings => "androidIntentArguments entries are not all strings"@,
            CapsError::ProfileArgumentConflict => "Can't provide both a --profile argument and a profile"@,
            CapsError::NamedProfileConflict => "Can't provide both a -P argument and a profile"@,
            CapsError::ArgumentNotReadable => "Argument flag names must be ASCII"@,
            CapsError::BlockedArgument(f) => "Argument "@ + f.spec_text() + " can't be set via capabilities"@,
        }
    }

    /// The human-readable message; where the error names something, the
    /// message holds that name.
    pub fn message(&self) -> (r: String)
        ensures
            r@ == self.spec_message(),
            contains_text(r@, self.spec_subject()),
    {
        let (head, subject, tail): (&str, Option<&str>, &str) = match self {
            CapsError::OptionsNotObject => ("moz:firefoxOptions is not an object", None, ""),
            CapsError::FieldNotString(s) => ("", Some(s.as_str()), " is not a string"),
            CapsError::FieldNotArray(s) => ("", Some(s.as_str()), " is not an array"),
            CapsError::FieldEntryNotString(s) => ("", Some(s.as_str()), " entry is not a string"),
            CapsError::NotFirefoxExecutable(s) => ("", Some(s.as_str()), " is not a Firefox executable"),
            CapsError::EnvValueNotObject => ("env value is not an object", None, ""),
            CapsError::EnvValuesNotStrings => ("Environment values were not all strings", None, ""),
            CapsError::LogValueNotObject => ("log value is not an object", None, ""),
            CapsError::LogLevelValueNotString => ("log level is not a string", None, ""),
            CapsError::InvalidLogLevel(s) => ("Not a valid log level: ", Some(s.as_str()), ""),
            CapsError::InvalidLogField(s) => ("Invalid log field ", Some(s.as_str()), ""),
            CapsError::PrefsValueNotObject => ("prefs value is not an object", None, ""),
            CapsError::PrefValuesInvalid => (
                "Preference values not all string or integer or boolean",
                None,
                "",
            ),
            CapsError::InvalidOptionsField(s) => ("Invalid moz:firefoxOptions field ", Some(s.as_str()), ""),
            CapsError::WebdriverClickNotBoolean => ("moz:webdriverClick is not a boolean", None, ""),
            CapsError::DebuggerAddressNotBoolean => (
                "moz:debuggerAddress is not a boolean",
                None,
                "",
            ),
            CapsError::UnrecognisedOption(s) => ("Unrecognised option ", Some(s.as_str()), ""),
            CapsError::OptionsCapabilityNotObject => (
                "'moz:firefoxOptions' capability is not an object",
                None,
                "",
            ),
            CapsError::PackageAndBinary => (
                "androidPackage and binary are mutual exclusive",
                None,
                "",
            ),
            CapsError::ProfileNotString => ("Profile is not a string", None, ""),
            CapsError::ProfileNotBase64 => ("Profile is not valid base64", None, ""),
            CapsError::ArgsNotArray => ("Arguments were not an array", None, ""),
            CapsError::ArgsNotStrings => ("Arguments entries were not all strings", None, ""),
            CapsError::EnvNotObject => ("Env was not an object", None, ""),
            CapsError::EnvValueNotString => ("Env value is not a string", None, ""),
            CapsError::LogNotObject => ("Log section is not an object", None, ""),
            CapsError::LogLevelNotString => ("Log level is not a string", None, ""),
            CapsError::LogLevelUnknown => ("Log level is unknown", None, ""),
            CapsError::PrefsNotObject => ("Prefs were not an object", None, ""),
            CapsError::PrefValueUnsupported => (
                "Could not convert pref value to string, boolean, or integer",
                None,
                "",
            ),
            CapsError::PackageNotString => ("androidPackage is not a string", None, ""),
            CapsError::InvalidPackage => ("Not a valid androidPackage name", None, ""),
            CapsError::ActivityNotString => ("androidActivity is not a string", None, ""),
            CapsError::ActivityHasSlash => ("androidActivity should not contain '/'", None, ""),
            CapsError::DeviceSerialNotString => ("androidDeviceSerial is not a string", None, ""),
            CapsError::IntentArgumentsNotArray => (
                "androidIntentArguments is not an array",
                None,
                "",
            ),
            CapsError::IntentArgumentsNotStrings => (
                "androidIntentArguments entries are not all strings",
                None,
                "",
            ),
            CapsError::ProfileArgumentConflict => (
                "Can't provide both a --profile argument and a profile",
                None,
                "",
            ),
            CapsError::NamedProfileConflict => (
                "Can't provide both a -P argument and a profile",
                None,
                "",
            ),
            CapsError::ArgumentNotReadable => ("Argument flag names must be ASCII", None, ""),
            CapsError::BlockedArgument(f) => ("Argument ", Some(f.text()), " can't be set via capabilities"),
        };
        proof {
            reveal_strlit("");
        }
        let mut r = String::from_str(head);
        if let Some(s) = subject {
            r.append(s);
        }
        let ghost mid = r@;
        r.append(tail);
        proof {
            let sub = self.spec_subject();
            assert(r@ =~= mid + tail@);
            if sub.len() > 0 {
                assert(mid =~= head@ + sub);
                let i = head@.len() as int;
                assert(r@.subrange(i, i + sub.len()) =~= sub);
            } else {
                let i = 0int;
                assert(r@.subrange(i, i + sub.len()) =~= sub);
            }
        }
        r
    }
}

} // verus!
