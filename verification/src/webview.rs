//! Construction-time configuration of embedded webviews, for the Servo
//! backend and for the native (WRY) backend, and the messages a page posts
//! back to the application.

use vstd::prelude::*;
use vstd::string::StringExecFns;

use crate::url_bar::{opt_view, parse_url, parsed_url};

verus! {

/// What a Servo webview loads on startup.
pub enum Content {
    Url(String),
    Html(String),
}

/// The URL a Servo webview starts on: the parsed URL, or for HTML the
/// parsed `data:` URL carrying it; nothing when the parse fails.
pub open spec fn initial_url_spec(c: Content) -> Option<Seq<char>> {
    match c {
        Content::Url(s) => parsed_url(s@),
        Content::Html(h) => parsed_url("data:text/html;charset=utf-8,"@ + h@),
    }
}

impl Default for Content {
    fn default() -> (r: Content)
        ensures
            r matches Content::Url(s) && s@ == "about:blank"@,
    {
        Content::Url(String::from_str("about:blank"))
    }
}

impl Content {
    /// The URL the webview is built with, if the content yields one.
    pub fn initial_url(&self) -> (r: Option<String>)
        ensures
            opt_view(r) == initial_url_spec(*self),
    {
        match self {
            Content::Url(s) => parse_url(s.as_str()),
            Content::Html(html) => {
                let u = String::from_str("data:text/html;charset=utf-8,").concat(html.as_str());
                parse_url(u.as_str())
            },
        }
    }
}

/// Construction-time configuration for a Servo webview.
pub struct WebViewConfig {
    pub content: Content,
}

impl Default for WebViewConfig {
    fn default() -> (r: WebViewConfig)
        ensures
            r.content matches Content::Url(s) && s@ == "about:blank"@,
    {
        WebViewConfig { content: Content::default() }
    }
}

impl WebViewConfig {
    /// Load the given URL on startup.
    pub fn url(self, url: String) -> (r: WebViewConfig)
        ensures
            r.content == Content::Url(url),
    {
        WebViewConfig { content: Content::Url(url) }
    }

    /// Load the given HTML on startup (through a `data:` URL).
    pub fn html(self, html: String) -> (r: WebViewConfig)
        ensures
            r.content == Content::Html(html),
    {
        WebViewConfig { content: Content::Html(html) }
    }
}

/// A message posted by page script through `window.ipc.postMessage()`.
#[derive(Debug, Clone)]
pub struct IpcMessage {
    pub body: String,
}

} // verus!
