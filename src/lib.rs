//! Resolution of Firefox's WebDriver capabilities into a launch
//! configuration.
//!
//! A client's capabilities are first checked against the schema of
//! Firefox's vendor capabilities ([`capabilities`]), then resolved into
//! [`options::FirefoxOptions`]: the binary, the profile source, the command
//! line, environment, logging, preferences, Android settings and the
//! arguments of a bidirectional session.

pub mod android;
pub mod archive;
pub mod args;
pub mod capabilities;
pub mod error;
pub mod json;
pub mod laws;
pub mod options;
pub mod text;

pub use android::AndroidOptions;
pub use capabilities::{FirefoxCapabilities, Validation, VersionError, VersionLookup, VersionResult};
pub use error::{CapsError, ErrorStatus};
pub use json::{Json, Number};
pub use options::{FirefoxOptions, Level, LogOptions, MarionetteSettings, PrefValue, ProfileType};
