//! The server configuration, as read from the JSON configuration file.

use vstd::prelude::*;
use crate::server::alert::AlertConfig;

verus! {

/// A watched repository: a display name and the GitHub API URL of its
/// latest release.
#[derive(Debug, Clone)]
pub struct Repo {
    pub name: String,
    pub url: String,
}

/// Everything the server is configured with.
#[derive(Debug, Clone)]
pub struct ServerConfig {
    /// Value of the `Authorization` header of the GitHub API requests.
    pub github_authorization_token: String,
    /// Directory of the release store.
    pub db_path: String,
    /// Seconds between two checks of a repository.
    pub period: u64,
    /// Seconds to wait after a failed check before the next attempt.
    pub retry_interval: u64,
    pub alert: AlertConfig,
    pub repo_list: Vec<Repo>,
}

/// Name of the store directory inside the home directory.
pub const DB_DIR_NAME: &'static str = ".release-knock";

/// Default seconds between two checks of a repository.
pub const DEFAULT_PERIOD: u64 = 7200;

/// Default seconds to wait after a failed check.
pub const DEFAULT_RETRY_INTERVAL: u64 = 600;

/// `base` with the relative path `component` appended, as `PathBuf::push`
/// appends it on Unix: a `/` goes between them unless `base` is empty or
/// already ends with one.
pub open spec fn join_path(base: Seq<char>, component: Seq<char>) -> Seq<char> {
    if base.len() == 0 || base.last() == '/' {
        base + component
    } else {
        base + seq!['/'] + component
    }
}

/// Appends the relative path `component` to the path `base`.
pub fn join_path_exec(base: &str, component: &str) -> (res: String)
    ensures
        res@ == join_path(base@, component@),
{
    let n = base.unicode_len();
    let mut res = String::from_str(base);
    if n > 0 && base.get_char(n - 1) != '/' {
        proof { reveal_strlit("/"); }
        res.append("/");
    }
    res.append(component);
    res
}

impl ServerConfig {
    /// The configuration used for every field that the file leaves out,
    /// given the user's home directory `home`: no token, the store in
    /// `.release-knock` under `home`, checks every two hours, ten minutes
    /// between retries, no alerts and no repositories.
    pub fn default_for_home(home: &str) -> (c: ServerConfig)
        ensures
            c.github_authorization_token@ == Seq::<char>::empty(),
            c.db_path@ == join_path(home@, DB_DIR_NAME@),
            c.period == DEFAULT_PERIOD,
            c.retry_interval == DEFAULT_RETRY_INTERVAL,
            c.alert.slack.webhook_url@ == Seq::<char>::empty(),
            c.alert.wechat.webhook_url@ == Seq::<char>::empty(),
            c.repo_list@.len() == 0,
    {
        ServerConfig {
            github_authorization_token: String::new(),
            db_path: join_path_exec(home, DB_DIR_NAME),
            period: DEFAULT_PERIOD,
            retry_interval: DEFAULT_RETRY_INTERVAL,
            alert: AlertConfig::default(),
            repo_list: Vec::new(),
        }
    }
}

} // verus!
