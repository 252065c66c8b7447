//! Persisted settings, as plain values. Reading and writing the file is left
//! to the caller.

use vstd::prelude::*;
use vstd::string::StringExecFns;

verus! {

/// The dashboard's persisted settings.
#[derive(Debug)]
pub struct Config {
    pub theme_name: String,
    pub is_transparent: bool,
    pub vercel_token: Option<String>,
    pub last_project_id: Option<String>,
    pub last_project_name: Option<String>,
    pub enable_mouse: bool,
    pub stat_period: String,
}

impl Default for Config {
    fn default() -> (r: Config)
        ensures
            r.theme_name@ == "Default"@,
            !r.is_transparent,
            r.vercel_token is None,
            r.last_project_id is None,
            r.last_project_name is None,
            !r.enable_mouse,
            r.stat_period@ == "24h"@,
    {
        Config {
            theme_name: String::from_str("Default"),
            is_transparent: false,
            vercel_token: None,
            last_project_id: None,
            last_project_name: None,
            enable_mouse: false,
            stat_period: String::from_str("24h"),
        }
    }
}

} // verus!
