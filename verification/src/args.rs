//! The client's configuration: where its config, environment and logging
//! files live.

use vstd::prelude::*;

verus! {

/// The client's file locations.
#[derive(Debug)]
pub struct Args {
    pub config: String,
    pub dotenv: String,
    pub log_config: String,
}

impl Default for Args {
    /// The conventional file names, used when the caller names none.
    fn default() -> (r: Self)
        ensures
            r.config@ == "Config.toml"@,
            r.dotenv@ == ".env"@,
            r.log_config@ == "log_config.yml"@,
    {
        Args {
            config: "Config.toml".to_owned(),
            dotenv: ".env".to_owned(),
            log_config: "log_config.yml".to_owned(),
        }
    }
}

} // verus!
