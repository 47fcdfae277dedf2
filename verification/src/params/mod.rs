pub mod db;

use vstd::prelude::*;

verus! {

/// `Content-Type` of the Slack webhook request.
pub const SLACK_CONTENT_TYPE: &'static str = "application/json";

/// `Content-Type` of the WeChat webhook request.
pub const WECHAT_CONTENT_TYPE: &'static str = "application/json";

/// Colour bar of the Slack attachment.
pub const SLACK_COLOR: &'static str = "#f2c744";

/// Value of the `X-GitHub-Api-Version` header.
pub const X_GIT_HUB_API_VERSION: &'static str = "2022-11-28";

/// Value of the `Accept` header sent to the GitHub API.
pub const HEADER_ACCEPT: &'static str = "application/vnd.github+json";

/// Capacity of the channel that carries new releases to the alert module.
pub const RELEASE_ALERT_CHANNEL: usize = 32;

/// Timeout, in seconds, of one webhook request.
pub const ALERT_SEND_TIMEOUT: u64 = 5;

/// Number of webhook requests that may be in flight at once.
pub const ALERT_SEND_WORKERS: usize = 4;

/// Highest retry counter for which one more attempt is made within a tick.
pub const WATCH_RETRY: u8 = 1;

/// Timeout, in seconds, of one request to the GitHub API.
pub const WATCH_PULL_TIMEOUT: u64 = 5;

/// `User-Agent` of the requests to the GitHub API.
pub const WATCH_USER_AGENT: &'static str = "masayil";

/// Delay, in seconds, before the first tick of a repository's watch task.
pub const WATCH_FIRST_TICK_DELAY: u64 = 15;

} // verus!
