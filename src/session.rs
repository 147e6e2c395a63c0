//! The session: settings, login, device verification, and what the agent
//! does between and after the synchronisation cycles.

use vstd::prelude::*;
use vstd::string::*;
use crate::action::CycleEnd;

verus! {

/// Seconds between two cycles unless configured otherwise.
pub const DEFAULT_WAIT_SECS: u64 = 120;

/// Minutes a cycle looks back unless configured otherwise.
pub const DEFAULT_SINCE_MINUTES: u64 = 10;

/// The service's host for the login and the suffix of every regional host.
pub open spec fn base_host() -> Seq<char> {
    "rest-prod.immedia-semi.com"@
}

/// The folder clips go to unless configured otherwise.
pub open spec fn default_folder() -> Seq<char> {
    "downloads"@
}

/// What the agent was asked to do.
#[derive(Clone, Debug, PartialEq, Eq)]
pub struct Settings {
    pub email: String,
    pub password: String,
    /// A host used for every call, the login included, instead of the
    /// service's own.
    pub domain: Option<String>,
    pub wait_secs: u64,
    pub since_minutes: u64,
    pub folder: String,
    pub cloud_downloads: bool,
    pub local_downloads: bool,
}

/// An authenticated account context, as the login returned it.
#[derive(Clone, Debug, PartialEq, Eq)]
pub struct Session {
    pub account_id: u64,
    pub client_id: u64,
    pub tier: String,
    pub token: String,
    pub verification_required: bool,
}

/// The settings from the command line's values, with the defaults for those
/// not given. Cloud downloads are on unless disabled; local ones are off
/// unless enabled.
pub fn settings(
    email: String,
    password: String,
    domain: Option<String>,
    wait_secs: Option<u64>,
    since_minutes: Option<u64>,
    folder: Option<String>,
    disable_cloud_downloads: bool,
    enable_local_downloads: bool,
) -> (r: Settings)
    ensures
        r.email == email,
        r.password == password,
        r.domain == domain,
        r.wait_secs == match wait_secs {
            Some(w) => w,
            None => DEFAULT_WAIT_SECS,
        },
        r.since_minutes == match since_minutes {
            Some(s) => s,
            None => DEFAULT_SINCE_MINUTES,
        },
        r.folder@ == match folder {
            Some(f) => f@,
            None => default_folder(),
        },
        r.cloud_downloads == !disable_cloud_downloads,
        r.local_downloads == enable_local_downloads,
{
    let wait_secs = match wait_secs {
        Some(w) => w,
        None => DEFAULT_WAIT_SECS,
    };
    let since_minutes = match since_minutes {
        Some(s) => s,
        None => DEFAULT_SINCE_MINUTES,
    };
    let folder = match folder {
        Some(f) => f,
        None => String::from_str("downloads"),
    };
    Settings {
        email,
        password,
        domain,
        wait_secs,
        since_minutes,
        folder,
        cloud_downloads: !disable_cloud_downloads,
        local_downloads: enable_local_downloads,
    }
}

/// The host of the login call.
pub open spec fn login_host_of(domain: Option<String>) -> Seq<char> {
    match domain {
        Some(d) => d@,
        None => base_host(),
    }
}

/// The host of every call after the login: the configured one, else the
/// account tier's `rest-<tier>.immedia-semi.com`.
pub open spec fn region_host_of(domain: Option<String>, tier: Seq<char>) -> Seq<char> {
    match domain {
        Some(d) => d@,
        None => "rest-"@ + tier + ".immedia-semi.com"@,
    }
}

pub fn login_host(domain: &Option<String>) -> (r: String)
    ensures
        r@ == login_host_of(*domain),
{
    match domain {
        Some(d) => d.clone(),
        None => String::from_str("rest-prod.immedia-semi.com"),
    }
}

pub fn region_host(domain: &Option<String>, tier: &str) -> (r: String)
    ensures
        r@ == region_host_of(*domain, tier@),
{
    match domain {
        Some(d) => d.clone(),
        None => {
            let mut r = String::from_str("rest-");
            r.append(tier);
            r.append(".immedia-semi.com");
            r
        },
    }
}

/// The JSON string literal that serde_json writes for a text.
pub uninterp spec fn json_text_of(s: Seq<char>) -> Seq<char>;

/// Relies on `serde_json::to_string` of a `str`: the quoted, escaped JSON
/// string. Serialising a string into memory does not fail.
#[verifier::external_body]
fn json_text(s: &str) -> (r: String)
    ensures
        r@ == json_text_of(s@),
{
    match serde_json::to_string(s) {
        Ok(t) => t,
        Err(_) => String::new(),
    }
}

/// The login request's body.
pub open spec fn login_body_of(email: Seq<char>, password: Seq<char>, unique_id: Seq<char>) -> Seq<
    char,
> {
    "{\"email\":"@ + json_text_of(email) + ",\"password\":"@ + json_text_of(password)
        + ",\"reauth\":true,\"unique_id\":"@ + json_text_of(unique_id) + "}"@
}

pub fn login_body(email: &str, password: &str, unique_id: &str) -> (r: String)
    ensures
        r@ == login_body_of(email@, password@, unique_id@),
{
    let mut r = String::from_str("{\"email\":");
    let e = json_text(email);
    r.append(e.as_str());
    r.append(",\"password\":");
    let p = json_text(password);
    r.append(p.as_str());
    r.append(",\"reauth\":true,\"unique_id\":");
    let u = json_text(unique_id);
    r.append(u.as_str());
    r.append("}");
    r
}

/// What follows a login attempt.
#[derive(Clone, Copy, Debug, PartialEq, Eq, Structural)]
pub enum LoginNext {
    /// The session is there: verify the device if asked to, then synchronise.
    Proceed,
    /// Try again after this many seconds.
    Retry { delay_secs: u64 },
    /// The credentials were refused at startup: stop the process.
    Exit,
}

/// What follows a login whose response had `status` (`None` where none
/// arrived). A refusal at startup means bad credentials and stops the
/// process; a refusal later on, like a transport failure, is retried after
/// the wait.
pub open spec fn login_next_of(status: Option<u16>, first: bool, wait_secs: u64) -> LoginNext {
    match status {
        Some(code) => if code == 200 {
            LoginNext::Proceed
        } else if first {
            LoginNext::Exit
        } else {
            LoginNext::Retry { delay_secs: wait_secs }
        },
        None => LoginNext::Retry { delay_secs: wait_secs },
    }
}

pub fn after_login(status: Option<u16>, first: bool, wait_secs: u64) -> (r: LoginNext)
    ensures
        r == login_next_of(status, first, wait_secs),
{
    match status {
        Some(code) => {
            if code == 200 {
                LoginNext::Proceed
            } else if first {
                LoginNext::Exit
            } else {
                LoginNext::Retry { delay_secs: wait_secs }
            }
        },
        None => LoginNext::Retry { delay_secs: wait_secs },
    }
}

/// What the agent does next.
#[derive(Clone, Copy, Debug, PartialEq, Eq, Structural)]
pub enum Step {
    /// Run the cloud synchroniser.
    SyncCloud,
    /// Run the local-storage synchroniser.
    SyncLocal,
    /// Sleep this many seconds, then start the next cycle with the session.
    NextCycle { delay_secs: u64 },
    /// Sleep this many seconds, then log in again.
    Relogin { delay_secs: u64 },
    /// Stop the process.
    Stop,
}

/// The part of a cycle that just ended.
#[derive(Clone, Copy, Debug, PartialEq, Eq, Structural)]
pub enum Part {
    /// A session was just established, or the previous cycle's wait is over.
    Start,
    Cloud,
    Local,
}

/// The agent's next step after `part` ended with `end`.
pub open spec fn next_step_of(part: Part, end: CycleEnd, cloud: bool, local: bool, wait_secs: u64) -> Step {
    match end {
        CycleEnd::Reauthenticate => Step::Relogin { delay_secs: wait_secs },
        CycleEnd::Fatal => Step::Stop,
        CycleEnd::Completed => match part {
            Part::Start => if cloud {
                Step::SyncCloud
            } else if local {
                Step::SyncLocal
            } else {
                Step::NextCycle { delay_secs: wait_secs }
            },
            Part::Cloud => if local {
                Step::SyncLocal
            } else {
                Step::NextCycle { delay_secs: wait_secs }
            },
            Part::Local => Step::NextCycle { delay_secs: wait_secs },
        },
    }
}

/// The agent's next step after `part` ended with `end`.
pub fn next_step(part: Part, end: CycleEnd, settings: &Settings) -> (r: Step)
    ensures
        r == next_step_of(
            part,
            end,
            settings.cloud_downloads,
            settings.local_downloads,
            settings.wait_secs,
        ),
{
    let wait = settings.wait_secs;
    match end {
        CycleEnd::Reauthenticate => Step::Relogin { delay_secs: wait },
        CycleEnd::Fatal => Step::Stop,
        CycleEnd::Completed => match part {
            Part::Start => {
                if settings.cloud_downloads {
                    Step::SyncCloud
                } else if settings.local_downloads {
                    Step::SyncLocal
                } else {
                    Step::NextCycle { delay_secs: wait }
                }
            },
            Part::Cloud => {
                if settings.local_downloads {
                    Step::SyncLocal
                } else {
                    Step::NextCycle { delay_secs: wait }
                }
            },
            Part::Local => Step::NextCycle { delay_secs: wait },
        },
    }
}

/// A session lost in the middle of a cycle leads straight to a new login
/// after the wait, whatever part of the cycle lost it; the rest of that cycle
/// is not run.
pub proof fn lemma_expired_session_relogs(part: Part, cloud: bool, local: bool, wait_secs: u64)
    ensures
        next_step_of(part, CycleEnd::Reauthenticate, cloud, local, wait_secs) == (Step::Relogin {
            delay_secs: wait_secs,
        }),
{
}

} // verus!
