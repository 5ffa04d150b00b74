//! What the service is started with.
//!
//! Two settings come from the environment, each with a default that is
//! used where the variable is not set. They are read once; this library
//! takes them as plain values.

use vstd::prelude::*;
use crate::text::text_of;

verus! {

/// The variable that names the directory of the scripts.
pub const SCRIPTS_DIRECTORY_VARIABLE: &'static str = "SCRIPTS_DIRECTORY";

/// The variable that names the configuration file.
pub const YAML_PATH_VARIABLE: &'static str = "YAML_PATH";

/// The directory of the scripts where none is set: the working directory.
pub const DEFAULT_SCRIPTS_DIRECTORY: &'static str = ".";

/// The configuration file where none is set: the example file.
pub const DEFAULT_YAML_PATH: &'static str = "./sensormap.example.yml";

/// The path under which the service is mounted.
pub const BASE_PATH: &'static str = "/api/v1";

/// The settings of a run of the service.
#[derive(Clone, Debug, PartialEq, Eq)]
pub struct Settings {
    /// The directory that script names are resolved under.
    pub scripts_directory: String,
    /// The path of the configuration file.
    pub yaml_path: String,
}

/// The mathematical value of [`Settings`].
pub struct SettingsView {
    pub scripts_directory: Seq<char>,
    pub yaml_path: Seq<char>,
}

impl View for Settings {
    type V = SettingsView;

    open spec fn view(&self) -> SettingsView {
        SettingsView { scripts_directory: self.scripts_directory@, yaml_path: self.yaml_path@ }
    }
}

/// A setting: the value that is set, or else the default.
pub open spec fn setting(value: Option<Seq<char>>, default: Seq<char>) -> Seq<char> {
    match value {
        Some(text) => text,
        None => default,
    }
}

impl Settings {
    /// The settings for the values found in the environment, `None`
    /// standing for a variable that is not set.
    pub fn from_environment(scripts_directory: Option<String>, yaml_path: Option<String>) -> (settings:
        Settings)
        ensures
            settings@.scripts_directory == setting(
                text_of(scripts_directory),
                DEFAULT_SCRIPTS_DIRECTORY@,
            ),
            settings@.yaml_path == setting(text_of(yaml_path), DEFAULT_YAML_PATH@),
    {
        let scripts_directory = match scripts_directory {
            Some(directory) => directory,
            None => DEFAULT_SCRIPTS_DIRECTORY.to_owned(),
        };
        let yaml_path = match yaml_path {
            Some(path) => path,
            None => DEFAULT_YAML_PATH.to_owned(),
        };
        Settings { scripts_directory, yaml_path }
    }
}

} // verus!
