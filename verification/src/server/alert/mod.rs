pub mod slack;
pub mod wechat;

use vstd::prelude::*;
use crate::common::http::{HttpHeader, headers_view};
use crate::common::text::{decimal, append_decimal};
use crate::params::ALERT_SEND_TIMEOUT;
use crate::params::db::{Release, ReleaseView};

verus! {

/// Where alerts are sent; a provider with an empty webhook URL is off.
#[derive(Debug, Clone)]
pub struct AlertConfig {
    pub slack: slack::AlertProvider,
    pub wechat: wechat::AlertProvider,
}

impl Default for AlertConfig {
    fn default() -> (c: AlertConfig)
        ensures
            c.slack.webhook_url@ == Seq::<char>::empty(),
            c.wechat.webhook_url@ == Seq::<char>::empty(),
    {
        AlertConfig { slack: slack::AlertProvider::default(), wechat: wechat::AlertProvider::default() }
    }
}

/// Asks `reqwest::StatusCode::is_success` whether the status `code` is a
/// success: by its source, exactly the codes from 200 to 299.
/// `StatusCode::from_u16` accepts every code from 100 to 999.
#[verifier::external_body]
pub(crate) fn status_is_success(code: u16) -> (ok: bool)
    requires
        100 <= code < 1000,
    ensures
        ok == (200 <= code < 300),
{
    match reqwest::StatusCode::from_u16(code) {
        Ok(status) => status.is_success(),
        Err(_) => false,
    }
}

/// `prefix`, the status `code` in decimal, and a full stop.
pub(crate) fn status_message(prefix: &str, code: u16) -> (m: String)
    ensures
        m@ == prefix@ + decimal(code as nat) + "."@,
{
    let mut m = String::from_str(prefix);
    append_decimal(&mut m, code as u64);
    m.append(".");
    m
}

/// A webhook service that can be alerted.
#[derive(Debug, Clone, Copy, PartialEq, Eq, Structural)]
pub enum AlertTarget {
    Slack,
    Wechat,
}

/// The services to alert, in the order they are alerted: Slack when its
/// webhook URL is set, then WeChat when its webhook URL is set.
pub open spec fn alert_targets(slack_url: Seq<char>, wechat_url: Seq<char>) -> Seq<AlertTarget> {
    (if slack_url.len() > 0 { seq![AlertTarget::Slack] } else { Seq::empty() })
        + (if wechat_url.len() > 0 { seq![AlertTarget::Wechat] } else { Seq::empty() })
}

/// One webhook request, ready to be posted.
#[derive(Debug, Clone)]
pub struct AlertRequest {
    pub target: AlertTarget,
    pub url: String,
    pub headers: Vec<HttpHeader>,
    pub body: String,
    pub timeout_secs: u64,
}

/// Model of an [`AlertRequest`].
pub struct AlertRequestView {
    pub target: AlertTarget,
    pub url: Seq<char>,
    pub headers: Seq<(Seq<char>, Seq<char>)>,
    pub body: Seq<char>,
    pub timeout_secs: u64,
}

impl View for AlertRequest {
    type V = AlertRequestView;

    open spec fn view(&self) -> AlertRequestView {
        AlertRequestView {
            target: self.target,
            url: self.url@,
            headers: headers_view(self.headers@),
            body: self.body@,
            timeout_secs: self.timeout_secs,
        }
    }
}

/// The request that alerts `target` of the release `r`.
pub open spec fn alert_request(c: AlertConfig, target: AlertTarget, r: ReleaseView) -> AlertRequestView {
    match target {
        AlertTarget::Slack => AlertRequestView {
            target,
            url: c.slack.webhook_url@,
            headers: slack::request_headers(),
            body: slack::request_body(r),
            timeout_secs: ALERT_SEND_TIMEOUT,
        },
        AlertTarget::Wechat => AlertRequestView {
            target,
            url: c.wechat.webhook_url@,
            headers: wechat::request_headers(),
            body: wechat::request_body(r),
            timeout_secs: ALERT_SEND_TIMEOUT,
        },
    }
}

/// Each service is alerted once about a new release when its webhook URL is
/// set, and not at all when it is empty.
pub proof fn lemma_alert_each_configured_service_once(slack_url: Seq<char>, wechat_url: Seq<char>)
    ensures
        alert_targets(slack_url, wechat_url).contains(AlertTarget::Slack) <==> slack_url.len() > 0,
        alert_targets(slack_url, wechat_url).contains(AlertTarget::Wechat) <==> wechat_url.len() > 0,
        alert_targets(slack_url, wechat_url).no_duplicates(),
        alert_targets(slack_url, wechat_url).len() == (if slack_url.len() > 0 { 1nat } else { 0nat })
            + (if wechat_url.len() > 0 { 1nat } else { 0nat }),
{
    let t = alert_targets(slack_url, wechat_url);
    if slack_url.len() > 0 {
        assert(t[0] == AlertTarget::Slack);
    }
    if wechat_url.len() > 0 {
        assert(t[t.len() - 1] == AlertTarget::Wechat);
    }
}

impl AlertTarget {
    /// The outcome of a request to this service answered with the status
    /// `code`: success for a 2xx status, otherwise the service's error text.
    pub fn check_response(&self, code: u16) -> (res: Result<(), String>)
        requires
            100 <= code < 1000,
        ensures
            res is Ok <==> 200 <= code < 300,
            res matches Err(m) ==> m@ == match self {
                AlertTarget::Slack => slack::status_error(code),
                AlertTarget::Wechat => wechat::status_error(code),
            },
    {
        match self {
            AlertTarget::Slack => slack::AlertProvider::check_response(code),
            AlertTarget::Wechat => wechat::AlertProvider::check_response(code),
        }
    }
}

impl AlertConfig {
    /// The services to alert, in order.
    pub fn targets(&self) -> (t: Vec<AlertTarget>)
        ensures
            t@ == alert_targets(self.slack.webhook_url@, self.wechat.webhook_url@),
    {
        let mut t: Vec<AlertTarget> = Vec::new();
        if self.slack.webhook_url.as_str().unicode_len() > 0 {
            t.push(AlertTarget::Slack);
        }
        if self.wechat.webhook_url.as_str().unicode_len() > 0 {
            t.push(AlertTarget::Wechat);
        }
        assert(t@ =~= alert_targets(self.slack.webhook_url@, self.wechat.webhook_url@));
        t
    }

    /// The request that alerts `target` of `release`.
    pub fn request_for(&self, target: AlertTarget, release: &Release) -> (req: AlertRequest)
        ensures
            req@ == alert_request(*self, target, release@),
    {
        match target {
            AlertTarget::Slack => AlertRequest {
                target,
                url: self.slack.webhook_url.clone(),
                headers: slack::AlertProvider::build_http_headers(),
                body: slack::AlertProvider::build_http_body(release.duplicate()),
                timeout_secs: ALERT_SEND_TIMEOUT,
            },
            AlertTarget::Wechat => AlertRequest {
                target,
                url: self.wechat.webhook_url.clone(),
                headers: wechat::AlertProvider::build_http_headers(),
                body: wechat::AlertProvider::build_http_body(release.duplicate()),
                timeout_secs: ALERT_SEND_TIMEOUT,
            },
        }
    }

    /// Every request that one new release sets off: one per service to
    /// alert, in order.
    pub fn alert_requests(&self, release: &Release) -> (reqs: Vec<AlertRequest>)
        ensures
            reqs@.len() == alert_targets(self.slack.webhook_url@, self.wechat.webhook_url@).len(),
            forall|i: int|
                0 <= i < reqs@.len() ==> #[trigger] reqs@[i]@ == alert_request(
                    *self,
                    alert_targets(self.slack.webhook_url@, self.wechat.webhook_url@)[i],
                    release@,
                ),
    {
        let targets = self.targets();
        let mut reqs: Vec<AlertRequest> = Vec::new();
        let n = targets.len();
        for i in 0..n
            invariant
                n == targets@.len(),
                targets@ == alert_targets(self.slack.webhook_url@, self.wechat.webhook_url@),
                reqs@.len() == i,
                forall|j: int|
                    0 <= j < i ==> #[trigger] reqs@[j]@ == alert_request(*self, targets@[j], release@),
        {
            let req = self.request_for(targets[i], release);
            reqs.push(req);
        }
        reqs
    }
}

} // verus!
