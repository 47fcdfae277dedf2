//! Alerts through a Slack incoming webhook.

use vstd::prelude::*;
use crate::common::http::{HttpHeader, header, headers_view};
use crate::common::json::{json_quote, json_string};
use crate::common::text::decimal;
use crate::params::{SLACK_COLOR, SLACK_CONTENT_TYPE};
use crate::params::db::{Release, ReleaseView};
use crate::server::alert::{status_is_success, status_message};

verus! {

/// A Slack incoming webhook; an empty URL means that Slack is not alerted.
#[derive(Debug, Clone)]
pub struct AlertProvider {
    pub webhook_url: String,
}

impl Default for AlertProvider {
    fn default() -> (p: AlertProvider)
        ensures
            p.webhook_url@ == Seq::<char>::empty(),
    {
        AlertProvider { webhook_url: String::new() }
    }
}

/// The markdown text of the alert for `r`.
pub open spec fn message_text(r: ReleaseView) -> Seq<char> {
    "*name:* "@ + r.name + "\n*tag:* "@ + r.detail.tag_name + "\n*release_name:* "@
        + r.detail.release_name + "\n*publish_at:* "@ + r.detail.published_at + "\n*url:* "@
        + r.detail.html_url + "\n"@
}

/// The JSON document posted to the webhook around the message, already
/// written as a JSON string `quoted_message`: one attachment in the alert
/// colour, with a plain-text header block and a markdown section. The other
/// strings of the document need no escaping and stand in it as they are.
pub open spec fn body_around(quoted_message: Seq<char>) -> Seq<char> {
    "{\"attachments\":[{\"blocks\":[{\"text\":{\"text\":\"New Github Release Version\",\"type\":\"plain_text\"},\"type\":\"header\"},{\"text\":{\"text\":"@
        + quoted_message + ",\"type\":\"mrkdwn\"},\"type\":\"section\"}],\"color\":\""@
        + SLACK_COLOR@ + "\"}]}"@
}

/// The JSON document posted to the webhook for `r`.
pub open spec fn request_body(r: ReleaseView) -> Seq<char> {
    body_around(json_string(message_text(r)))
}

/// The Slack alert of every release lists, in this order and whatever the
/// fields hold, the labelled lines name, tag, release name, publish time and
/// URL, each line ending in a line feed; the posted document carries that
/// text, JSON-quoted, as its markdown section.
pub proof fn lemma_slack_message_lists_every_field(r: ReleaseView)
    ensures
        message_text(r) == "*name:* "@ + r.name + "\n*tag:* "@ + r.detail.tag_name + "\n*release_name:* "@
                + r.detail.release_name + "\n*publish_at:* "@ + r.detail.published_at + "\n*url:* "@
                + r.detail.html_url + "\n"@,
        request_body(r) == "{\"attachments\":[{\"blocks\":[{\"text\":{\"text\":\"New Github Release Version\",\"type\":\"plain_text\"},\"type\":\"header\"},{\"text\":{\"text\":"@
            + json_string(
            "*name:* "@ + r.name + "\n*tag:* "@ + r.detail.tag_name + "\n*release_name:* "@
                + r.detail.release_name + "\n*publish_at:* "@ + r.detail.published_at + "\n*url:* "@
                + r.detail.html_url + "\n"@,
        ) + ",\"type\":\"mrkdwn\"},\"type\":\"section\"}],\"color\":\""@ + SLACK_COLOR@ + "\"}]}"@,
{
}

/// The headers of the webhook request.
pub open spec fn request_headers() -> Seq<(Seq<char>, Seq<char>)> {
    seq![("content-type"@, SLACK_CONTENT_TYPE@)]
}

/// The error text for a webhook answer with the status `code`.
pub open spec fn status_error(code: u16) -> Seq<char> {
    "Slack http response code is "@ + decimal(code as nat) + "."@
}

impl AlertProvider {
    /// The headers of the webhook request: the JSON content type.
    pub fn build_http_headers() -> (headers: Vec<HttpHeader>)
        ensures
            headers_view(headers@) == request_headers(),
    {
        let mut headers: Vec<HttpHeader> = Vec::new();
        headers.push(header("content-type", SLACK_CONTENT_TYPE));
        assert(headers_view(headers@) =~= request_headers());
        headers
    }

    /// The markdown text of the alert for `release`.
    pub fn build_message(release: &Release) -> (msg: String)
        ensures
            msg@ == message_text(release@),
    {
        let mut msg = String::from_str("*name:* ");
        msg.append(release.name.as_str());
        msg.append("\n*tag:* ");
        msg.append(release.detail.tag_name.as_str());
        msg.append("\n*release_name:* ");
        msg.append(release.detail.release_name.as_str());
        msg.append("\n*publish_at:* ");
        msg.append(release.detail.published_at.as_str());
        msg.append("\n*url:* ");
        msg.append(release.detail.html_url.as_str());
        msg.append("\n");
        msg
    }

    /// The JSON document around the message `quoted_message`, given as a
    /// JSON string.
    pub fn frame_body(quoted_message: &str) -> (body: String)
        ensures
            body@ == body_around(quoted_message@),
    {
        let mut body = String::from_str(
            "{\"attachments\":[{\"blocks\":[{\"text\":{\"text\":\"New Github Release Version\",\"type\":\"plain_text\"},\"type\":\"header\"},{\"text\":{\"text\":",
        );
        body.append(quoted_message);
        body.append(",\"type\":\"mrkdwn\"},\"type\":\"section\"}],\"color\":\"");
        body.append(SLACK_COLOR);
        body.append("\"}]}");
        body
    }

    /// The JSON body of the webhook request for `release`.
    pub fn build_http_body(release: Release) -> (body: String)
        ensures
            body@ == request_body(release@),
    {
        let msg = Self::build_message(&release);
        let quoted = json_quote(msg.as_str());
        Self::frame_body(quoted.as_str())
    }

    /// The outcome of a webhook request answered with the HTTP status `code`:
    /// success for a 2xx status, otherwise the error naming the status.
    pub fn check_response(code: u16) -> (res: Result<(), String>)
        requires
            100 <= code < 1000,
        ensures
            res is Ok <==> 200 <= code < 300,
            res matches Err(m) ==> m@ == status_error(code),
    {
        if status_is_success(code) {
            Ok(())
        } else {
            Err(status_message("Slack http response code is ", code))
        }
    }
}

} // verus!
