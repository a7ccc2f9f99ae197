//! Editor configuration: the color theme the renderer should use.
//!
//! Loading the configuration file is I/O and happens outside this crate;
//! here live the configuration data itself and its default value.
use vstd::prelude::*;
use vstd::string::StringExecFns;

verus! {

/// Editor configuration.
pub struct Config {
    pub theme: ConfigTheme,
}

/// Theme selection: the theme's name, and whether colors should be
/// adjusted for a light background.
pub struct ConfigTheme {
    pub name: String,
    pub light_fix: bool,
}

impl Default for Config {
    /// The configuration used when no configuration file can be read.
    fn default() -> (c: Config)
        ensures
            c.theme.name@ == "gruvbox-dark"@,
            c.theme.light_fix == false,
    {
        Config { theme: ConfigTheme { name: String::from_str("gruvbox-dark"), light_fix: false } }
    }
}

} // verus!
