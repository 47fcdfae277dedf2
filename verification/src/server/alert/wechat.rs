//! Alerts through a WeChat Work group robot webhook.

use vstd::prelude::*;
use crate::common::http::{HttpHeader, header, headers_view};
use crate::common::json::{json_quote, json_string};
use crate::common::text::decimal;
use crate::params::WECHAT_CONTENT_TYPE;
use crate::params::db::{Release, ReleaseView};
use crate::server::alert::{status_is_success, status_message};

verus! {

/// A WeChat robot webhook; an empty URL means that WeChat is not alerted.
#[derive(Debug, Clone)]
pub struct AlertProvider {
    pub webhook_url: String,
}

impl Default for AlertProvider {
    fn default() -> (p: AlertProvider)
        ensures
            p.webhook_url@ == Seq::<char>::empty(),
    {
        AlertProvider { webhook_url: String::new() }
    }
}

/// The markdown text of the alert for `r`.
pub open spec fn message_text(r: ReleaseView) -> Seq<char> {
    "**<font color=\"warning\">New Github Release Version</font>**\n> name: <font color=\"info\">"@
        + r.name + "</font>\n> tag: <font color=\"info\">"@ + r.detail.tag_name
        + "</font>\n> release_name: <font color=\"info\">"@ + r.detail.release_name
        + "</font>\n> published_at: <font color=\"info\">"@ + r.detail.published_at
        + "</font>\n> url: <font color=\"info\">"@ + r.detail.html_url + "</font>"@
}

/// The JSON document posted to the webhook around the message, already
/// written as a JSON string `quoted_message`: a markdown message. The
/// message type needs no escaping and stands in it as it is.
pub open spec fn body_around(quoted_message: Seq<char>) -> Seq<char> {
    "{\"markdown\":{\"content\":"@ + quoted_message + "},\"msgtype\":\"markdown\"}"@
}

/// The JSON document posted to the webhook for `r`.
pub open spec fn request_body(r: ReleaseView) -> Seq<char> {
    body_around(json_string(message_text(r)))
}

/// The WeChat alert of every release is the warning header line followed,
/// in this order and whatever the fields hold, by the quoted lines name,
/// tag, release name, publish time and URL; the posted document carries
/// that text, JSON-quoted, as its markdown content.
pub proof fn lemma_wechat_message_lists_every_field(r: ReleaseView)
    ensures
        message_text(r) == "**<font color=\"warning\">New Github Release Version</font>**\n> name: <font color=\"info\">"@
                + r.name + "</font>\n> tag: <font color=\"info\">"@ + r.detail.tag_name
                + "</font>\n> release_name: <font color=\"info\">"@
                + r.detail.release_name
                + "</font>\n> published_at: <font color=\"info\">"@ + r.detail.published_at
                + "</font>\n> url: <font color=\"info\">"@ + r.detail.html_url + "</font>"@,
        request_body(r) == "{\"markdown\":{\"content\":"@ + json_string(
            "**<font color=\"warning\">New Github Release Version</font>**\n> name: <font color=\"info\">"@
                + r.name + "</font>\n> tag: <font color=\"info\">"@ + r.detail.tag_name
                + "</font>\n> release_name: <font color=\"info\">"@
                + r.detail.release_name
                + "</font>\n> published_at: <font color=\"info\">"@ + r.detail.published_at
                + "</font>\n> url: <font color=\"info\">"@ + r.detail.html_url + "</font>"@,
        ) + "},\"msgtype\":\"markdown\"}"@,
{
}

/// The headers of the webhook request.
pub open spec fn request_headers() -> Seq<(Seq<char>, Seq<char>)> {
    seq![("content-type"@, WECHAT_CONTENT_TYPE@)]
}

/// The error text for a webhook answer with the status `code`.
pub open spec fn status_error(code: u16) -> Seq<char> {
    "Wechat http response code is "@ + decimal(code as nat) + "."@
}

impl AlertProvider {
    /// The headers of the webhook request: the JSON content type.
    pub fn build_http_headers() -> (headers: Vec<HttpHeader>)
        ensures
            headers_view(headers@) == request_headers(),
    {
        let mut headers: Vec<HttpHeader> = Vec::new();
        headers.push(header("content-type", WECHAT_CONTENT_TYPE));
        assert(headers_view(headers@) =~= request_headers());
        headers
    }

    /// The markdown text of the alert for `release`.
    pub fn build_message(release: &Release) -> (msg: String)
        ensures
            msg@ == message_text(release@),
    {
        let mut msg = String::from_str(
            "**<font color=\"warning\">New Github Release Version</font>**\n> name: <font color=\"info\">",
        );
        msg.append(release.name.as_str());
        msg.append("</font>\n> tag: <font color=\"info\">");
        msg.append(release.detail.tag_name.as_str());
        msg.append("</font>\n> release_name: <font color=\"info\">");
        msg.append(release.detail.release_name.as_str());
        msg.append("</font>\n> published_at: <font color=\"info\">");
        msg.append(release.detail.published_at.as_str());
        msg.append("</font>\n> url: <font color=\"info\">");
        msg.append(release.detail.html_url.as_str());
        msg.append("</font>");
        msg
    }

    /// The JSON document around the message `quoted_message`, given as a
    /// JSON string.
    pub fn frame_body(quoted_message: &str) -> (body: String)
        ensures
            body@ == body_around(quoted_message@),
    {
        let mut body = String::from_str("{\"markdown\":{\"content\":");
        body.append(quoted_message);
        body.append("},\"msgtype\":\"markdown\"}");
        body
    }

    /// The JSON body of the webhook request for `release`.
    pub fn build_http_body(release: Release) -> (body: String)
        ensures
            body@ == request_body(release@),
    {
        let msg = Self::build_message(&release);
        let quoted = json_quote(msg.as_str());
        Self::frame_body(quoted.as_str())
    }

    /// The outcome of a webhook request answered with the HTTP status `code`:
    /// success for a 2xx status, otherwise the error naming the status.
    pub fn check_response(code: u16) -> (res: Result<(), String>)
        requires
            100 <= code < 1000,
        ensures
            res is Ok <==> 200 <= code < 300,
            res matches Err(m) ==> m@ == status_error(code),
    {
        if status_is_success(code) {
            Ok(())
        } else {
            Err(status_message("Wechat http response code is ", code))
        }
    }
}

} // verus!
