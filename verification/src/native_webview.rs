//! Construction-time configuration of a native child-window webview.

use vstd::prelude::*;
use vstd::string::StringExecFns;

verus! {

/// What a native webview loads on startup.
pub enum Content {
    Url(String),
    Html(String),
}

impl Default for Content {
    fn default() -> (r: Content)
        ensures
            r matches Content::Url(s) && s@ == Seq::<char>::empty(),
    {
        Content::Url(String::new())
    }
}

/// Construction-time configuration of a native webview: what it loads,
/// whether it is transparent, whether developer tools are enabled, and the
/// scripts run before each page loads, in order.
pub struct WebViewConfig {
    pub content: Content,
    pub transparent: bool,
    pub devtools: bool,
    pub initialization_scripts: Vec<String>,
}

/// What building a webview consumes from its configuration.
pub struct BuildParams {
    pub content: Content,
    pub transparent: bool,
    pub devtools: bool,
    pub scripts: Vec<String>,
}

impl Default for WebViewConfig {
    fn default() -> (r: WebViewConfig)
        ensures
            r.content matches Content::Url(s) && s@ == Seq::<char>::empty(),
            !r.transparent,
            !r.devtools,
            r.initialization_scripts@.len() == 0,
    {
        WebViewConfig {
            content: Content::default(),
            transparent: false,
            devtools: false,
            initialization_scripts: Vec::new(),
        }
    }
}

impl WebViewConfig {
    /// Load the given URL on startup.
    pub fn url(self, url: String) -> (r: WebViewConfig)
        ensures
            r.content == Content::Url(url),
            r.transparent == self.transparent,
            r.devtools == self.devtools,
            r.initialization_scripts == self.initialization_scripts,
    {
        WebViewConfig { content: Content::Url(url), ..self }
    }

    /// Load the given HTML on startup.
    pub fn html(self, html: String) -> (r: WebViewConfig)
        ensures
            r.content == Content::Html(html),
            r.transparent == self.transparent,
            r.devtools == self.devtools,
            r.initialization_scripts == self.initialization_scripts,
    {
        WebViewConfig { content: Content::Html(html), ..self }
    }

    /// Sets whether the webview is transparent.
    pub fn transparent(self, transparent: bool) -> (r: WebViewConfig)
        ensures
            r.content == self.content,
            r.transparent == transparent,
            r.devtools == self.devtools,
            r.initialization_scripts == self.initialization_scripts,
    {
        WebViewConfig { transparent, ..self }
    }

    /// Sets whether developer tools are enabled.
    pub fn devtools(self, devtools: bool) -> (r: WebViewConfig)
        ensures
            r.content == self.content,
            r.transparent == self.transparent,
            r.devtools == devtools,
            r.initialization_scripts == self.initialization_scripts,
    {
        WebViewConfig { devtools, ..self }
    }

    /// Appends a script run before each page loads.
    pub fn initialization_script(self, script: String) -> (r: WebViewConfig)
        ensures
            r.content == self.content,
            r.transparent == self.transparent,
            r.devtools == self.devtools,
            r.initialization_scripts@ == self.initialization_scripts@.push(script),
    {
        let mut c = self;
        c.initialization_scripts.push(script);
        c
    }

    /// Takes what building the webview consumes: the content and the
    /// scripts are moved out (leaving the defaults behind), the flags copied.
    pub fn take_build_params(&mut self) -> (r: BuildParams)
        ensures
            r.content == old(self).content,
            r.transparent == old(self).transparent,
            r.devtools == old(self).devtools,
            r.scripts == old(self).initialization_scripts,
            final(self).content matches Content::Url(s) && s@ == Seq::<char>::empty(),
            final(self).initialization_scripts@.len() == 0,
            final(self).transparent == old(self).transparent,
            final(self).devtools == old(self).devtools,
    {
        let mut content = Content::default();
        std::mem::swap(&mut content, &mut self.content);
        let mut scripts: Vec<String> = Vec::new();
        std::mem::swap(&mut scripts, &mut self.initialization_scripts);
        BuildParams { content, transparent: self.transparent, devtools: self.devtools, scripts }
    }
}

} // verus!
