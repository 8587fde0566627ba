//! The WeChat Work provider: where its webhook is, and the body it is sent.

use crate::db::{Release, ReleaseView};
use crate::server::alert::{json_quote, json_string};
use vstd::prelude::*;
use vstd::string::*;

verus! {

/// Mathematical value of an [`AlertProvider`].
pub struct AlertProviderView {
    pub webhook_url: Seq<char>,
}

/// The WeChat Work webhook.  The provider is enabled where the address is
/// not empty.
#[derive(Debug)]
pub struct AlertProvider {
    pub webhook_url: String,
}

impl View for AlertProvider {
    type V = AlertProviderView;

    open spec fn view(&self) -> AlertProviderView {
        AlertProviderView { webhook_url: self.webhook_url@ }
    }
}

impl Clone for AlertProvider {
    fn clone(&self) -> (copy: Self)
        ensures
            copy == *self,
    {
        AlertProvider { webhook_url: self.webhook_url.clone() }
    }
}

impl Default for AlertProvider {
    /// A provider without an address, which is disabled.
    fn default() -> (provider: Self)
        ensures
            provider@.webhook_url == Seq::<char>::empty(),
    {
        AlertProvider { webhook_url: String::new() }
    }
}

/// The text of the message, in the markdown that WeChat Work renders.
pub open spec fn message(release: ReleaseView) -> Seq<char> {
    "**<font color=\"warning\">New Github Release Version</font>**\n> name: <font color=\"info\">"@
        + release.name + "</font>\n> tag: <font color=\"info\">"@ + release.detail.tag_name
        + "</font>\n> release_name: <font color=\"info\">"@ + release.detail.release_name
        + "</font>\n> published_at: <font color=\"info\">"@ + release.detail.published_at
        + "</font>\n> url: <font color=\"info\">"@ + release.detail.html_url + "</font>"@
}

/// The body around the message: a markdown message whose content is
/// `quoted`, the message as a JSON string.
pub open spec fn frame(quoted: Seq<char>) -> Seq<char> {
    "{\"markdown\":{\"content\":"@ + quoted + "},\"msgtype\":\"markdown\"}"@
}

/// The body that is posted to the webhook for a release.
pub open spec fn body(release: ReleaseView) -> Seq<char> {
    frame(json_string(message(release)))
}

impl AlertProvider {
    /// Whether alerts are sent to this provider.
    pub fn is_enabled(&self) -> (enabled: bool)
        ensures
            enabled == (self@.webhook_url.len() > 0),
    {
        !self.webhook_url.as_str().is_empty()
    }

    /// Writes the message for a release.
    pub fn build_message(release: &Release) -> (text: String)
        ensures
            text@ == message(release@),
    {
        let mut text = String::new();
        text.append(
            "**<font color=\"warning\">New Github Release Version</font>**\n> name: <font color=\"info\">",
        );
        text.append(release.name.as_str());
        text.append("</font>\n> tag: <font color=\"info\">");
        text.append(release.detail.tag_name.as_str());
        text.append("</font>\n> release_name: <font color=\"info\">");
        text.append(release.detail.release_name.as_str());
        text.append("</font>\n> published_at: <font color=\"info\">");
        text.append(release.detail.published_at.as_str());
        text.append("</font>\n> url: <font color=\"info\">");
        text.append(release.detail.html_url.as_str());
        text.append("</font>");
        text
    }

    /// Puts the body together around the message, given as a JSON string.
    pub fn build_frame(quoted: &str) -> (text: String)
        ensures
            text@ == frame(quoted@),
    {
        let mut text = String::new();
        text.append("{\"markdown\":{\"content\":");
        text.append(quoted);
        text.append("},\"msgtype\":\"markdown\"}");
        text
    }

    /// Builds the body that is posted to the webhook for a release.
    pub fn build_http_body(release: &Release) -> (text: String)
        ensures
            text@ == body(release@),
    {
        let message = Self::build_message(release);
        let quoted = json_quote(message.as_str());
        Self::build_frame(quoted.as_str())
    }
}

} // verus!
