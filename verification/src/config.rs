//! The configuration of the client, as its file holds it.

use vstd::prelude::*;
use crate::models::presence::{Activity, ActivityView};

verus! {

/// Settings of the calls to the API.
#[derive(Debug, Clone, Copy, PartialEq, Eq, Structural)]
pub struct ApiConfig {
    pub retry_limit: u64,
    pub close_timeout: u64,
}

/// Settings of what is kept secret.
#[derive(Debug)]
pub struct SecurityConfig {
    pub archive_path: String,
}

impl Clone for SecurityConfig {
    fn clone(&self) -> (r: SecurityConfig)
        ensures
            r.archive_path@ == self.archive_path@,
    {
        SecurityConfig { archive_path: self.archive_path.clone() }
    }
}

/// Settings of the status the bot shows.
#[derive(Debug)]
pub struct StatusConfig {
    pub alternate: Vec<Activity>,
    pub interval: u64,
    pub dev: Activity,
    pub maintenance: Activity,
    pub unavailable: Activity,
}

/// The values of the status settings.
pub ghost struct StatusConfigView {
    pub alternate: Seq<ActivityView>,
    pub interval: u64,
    pub dev: ActivityView,
    pub maintenance: ActivityView,
    pub unavailable: ActivityView,
}

/// The values of a list of activities.
pub open spec fn activities_view(s: Seq<Activity>) -> Seq<ActivityView> {
    Seq::new(s.len(), |i: int| s[i]@)
}

impl View for StatusConfig {
    type V = StatusConfigView;

    open spec fn view(&self) -> StatusConfigView {
        StatusConfigView {
            alternate: activities_view(self.alternate@),
            interval: self.interval,
            dev: self.dev@,
            maintenance: self.maintenance@,
            unavailable: self.unavailable@,
        }
    }
}

impl Clone for StatusConfig {
    fn clone(&self) -> (r: StatusConfig)
        ensures
            r@ == self@,
    {
        let mut alternate: Vec<Activity> = Vec::new();
        let mut i: usize = 0;
        while i < self.alternate.len()
            invariant
                i <= self.alternate.len(),
                alternate@.len() == i,
                forall|j: int| 0 <= j < i ==> (#[trigger] alternate@[j])@ == self.alternate@[j]@,
            decreases self.alternate.len() - i,
        {
            alternate.push(self.alternate[i].clone());
            i = i + 1;
        }
        let r = StatusConfig {
            alternate,
            interval: self.interval,
            dev: self.dev.clone(),
            maintenance: self.maintenance.clone(),
            unavailable: self.unavailable.clone(),
        };
        assert(r@.alternate =~= self@.alternate);
        r
    }
}

/// The whole configuration of the client.
#[derive(Debug)]
pub struct Config {
    pub intents: u64,
    pub version: String,
    pub build: String,
    pub langs: String,
    pub dynamic_requests: String,
    pub pid: String,
    pub api: ApiConfig,
    pub security: SecurityConfig,
    pub status: StatusConfig,
}

/// The values of a configuration, its texts taken as characters.
pub ghost struct ConfigView {
    pub intents: u64,
    pub version: Seq<char>,
    pub build: Seq<char>,
    pub langs: Seq<char>,
    pub dynamic_requests: Seq<char>,
    pub pid: Seq<char>,
    pub api: ApiConfig,
    pub archive_path: Seq<char>,
    pub status: StatusConfigView,
}

impl View for Config {
    type V = ConfigView;

    open spec fn view(&self) -> ConfigView {
        ConfigView {
            intents: self.intents,
            version: self.version@,
            build: self.build@,
            langs: self.langs@,
            dynamic_requests: self.dynamic_requests@,
            pid: self.pid@,
            api: self.api,
            archive_path: self.security.archive_path@,
            status: self.status@,
        }
    }
}

impl Clone for Config {
    fn clone(&self) -> (r: Config)
        ensures
            r@ == self@,
    {
        Config {
            intents: self.intents,
            version: self.version.clone(),
            build: self.build.clone(),
            langs: self.langs.clone(),
            dynamic_requests: self.dynamic_requests.clone(),
            pid: self.pid.clone(),
            api: self.api,
            security: self.security.clone(),
            status: self.status.clone(),
        }
    }
}

impl Config {
    /// Takes from a configuration read anew what may change while the client
    /// runs: the intents and the settings of the API. The rest stays.
    pub fn reload_from(&mut self, loaded: &Config)
        ensures
            final(self)@ == (ConfigView { intents: loaded.intents, api: loaded.api, ..old(self)@ }),
    {
        self.intents = loaded.intents;
        self.api = loaded.api;
    }
}

} // verus!
