//! The settings of one deployment, fixed before the first record is seen.

use vstd::prelude::*;

verus! {

/// Where objects are read from and written to, and what else the
/// deployment was told. A setting that was not given holds `(not set)`.
#[derive(Clone, Debug)]
pub struct Config {
    /// The bucket that converted images are written to.
    pub destination_bucket: String,
    /// The bucket that images are fetched from.
    pub source_bucket: String,
    /// The region of the deployment.
    pub region: String,
    /// The multitenancy flag. It is kept for the record and decides nothing.
    pub multitenant: String,
}

/// A `Config` as plain text.
pub struct ConfigView {
    pub destination_bucket: Seq<char>,
    pub source_bucket: Seq<char>,
    pub region: Seq<char>,
    pub multitenant: Seq<char>,
}

impl View for Config {
    type V = ConfigView;

    open spec fn view(&self) -> ConfigView {
        ConfigView {
            destination_bucket: self.destination_bucket@,
            source_bucket: self.source_bucket@,
            region: self.region@,
            multitenant: self.multitenant@,
        }
    }
}

/// The text that stands for a setting that was not given.
pub open spec fn not_set() -> Seq<char> {
    "(not set)"@
}

/// A setting as it is kept: itself, or the placeholder.
pub open spec fn setting(given: Option<String>) -> Seq<char> {
    match given {
        Some(value) => value@,
        None => not_set(),
    }
}

/// Keeps a setting that was given and puts the placeholder for one that
/// was not.
pub fn setting_or_placeholder(given: Option<String>) -> (kept: String)
    ensures
        kept@ == setting(given),
{
    match given {
        Some(value) => value,
        None => "(not set)".to_owned(),
    }
}

impl Config {
    /// Builds the configuration from what the deployment provides. Nothing
    /// is required: a missing setting is recorded as such, and the requests
    /// that depend on it will fail one by one.
    pub fn from_settings(
        destination_bucket: Option<String>,
        source_bucket: Option<String>,
        region: Option<String>,
        multitenant: Option<String>,
    ) -> (config: Config)
        ensures
            config@ == (ConfigView {
                destination_bucket: setting(destination_bucket),
                source_bucket: setting(source_bucket),
                region: setting(region),
                multitenant: setting(multitenant),
            }),
    {
        Config {
            destination_bucket: setting_or_placeholder(destination_bucket),
            source_bucket: setting_or_placeholder(source_bucket),
            region: setting_or_placeholder(region),
            multitenant: setting_or_placeholder(multitenant),
        }
    }
}

} // verus!
