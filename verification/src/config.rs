//! The configuration record and the choice between its two profiles.

use vstd::prelude::*;

verus! {

/// The settings of one profile: where the backend lives, and the key that
/// the deployment carries along.
#[derive(Debug, Clone)]
pub struct AppConfig {
    /// Base of every outbound URL. Never empty in a well-formed record.
    pub backend_url: String,
    /// Carried along for the host; forwarding does not read it.
    pub api_key: String,
}

impl AppConfig {
    /// A record is well-formed when it names a backend at all. Whether the
    /// text is a usable URL is not examined.
    pub open spec fn wf(&self) -> bool {
        self.backend_url@.len() > 0
    }

    /// Builds a record, refusing an empty `backend_url`.
    pub fn new(backend_url: String, api_key: String) -> (made: Option<AppConfig>)
        ensures
            made is Some <==> backend_url@.len() > 0,
            made matches Some(config) ==> config.wf() && config == (AppConfig {
                backend_url,
                api_key,
            }),
    {
        if backend_url.as_str().is_empty() {
            None
        } else {
            Some(AppConfig { backend_url, api_key })
        }
    }
}

/// How the running program was built.
#[derive(Debug, Clone, Copy, PartialEq, Eq)]
pub enum BuildMode {
    Debug,
    Release,
}

/// Both profiles of a configuration source.
#[derive(Debug, Clone)]
pub struct Config {
    pub development: AppConfig,
    pub production: AppConfig,
}

impl Config {
    /// Both profiles are well-formed.
    pub open spec fn wf(&self) -> bool {
        self.development.wf() && self.production.wf()
    }

    /// The profile that a build of the given mode runs with.
    pub open spec fn active(self, mode: BuildMode) -> AppConfig {
        match mode {
            BuildMode::Debug => self.development,
            BuildMode::Release => self.production,
        }
    }

    /// Picks the active profile: `development` for a debug build,
    /// `production` for a release build. The other profile is dropped.
    pub fn select(self, mode: BuildMode) -> (chosen: AppConfig)
        ensures
            chosen == self.active(mode),
            mode == BuildMode::Debug ==> chosen == self.development,
            mode == BuildMode::Release ==> chosen == self.production,
            self.wf() ==> chosen.wf(),
    {
        match mode {
            BuildMode::Debug => self.development,
            BuildMode::Release => self.production,
        }
    }
}

} // verus!
