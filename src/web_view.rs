use vstd::prelude::*;
use crate::runtime::{Construction, ForeignCall, NativeHandle, Runtime, RuntimeModel};
use crate::window::Window;

verus! {

/// The page a web view shows when nothing else was asked for: a short HTML
/// greeting, as a data URL.
pub const DEFAULT_CONTENT_URL: &'static str = "data:text/html,%3C%21DOCTYPE%20html%3E%3Chtml%20lang%3D%22en%22%3E%3Chead%3E%3Cmeta%20charset%3D%22utf-8%22%3E%3Cmeta%20http-equiv%3D%22X-UA-Compatible%22%20content%3D%22IE%3Dedge%22%3E%3C%2Fhead%3E%3Cbody%3E%3Cp%3EHello%20ZedUI%21%3C%2Fp%3E%3C%2Fbody%3E%3C%2Fhtml%3E";

/// Content that a web view can display.
#[derive(Clone, Debug)]
pub enum Content {
    /// An HTML document.
    Html(String),
    /// The resource at a URL.
    Url(String),
    /// An HTML document held by a foreign string, with a foreign URL that
    /// relative references resolve against.
    HtmlObject { content: usize, base_url: usize },
    /// The resource at a foreign URL.
    UrlObject(usize),
}

/// The call that makes `web_view` display `content`.
pub open spec fn load_call(web_view: usize, content: Content) -> ForeignCall {
    match content {
        Content::Html(html) => ForeignCall::LoadHtml { web_view, html },
        Content::Url(url) => ForeignCall::LoadUrl { web_view, url },
        Content::HtmlObject { content, base_url } => ForeignCall::LoadHtmlObject {
            web_view,
            content,
            base_url,
        },
        Content::UrlObject(url_object) => ForeignCall::LoadUrlObject { web_view, url_object },
    }
}

/// Every foreign object that `content` names is live in `m`.
pub open spec fn content_is_live(m: RuntimeModel, content: Content) -> bool {
    match content {
        Content::HtmlObject { content, base_url } => m.is_live(content) && m.is_live(base_url),
        Content::UrlObject(url) => m.is_live(url),
        _ => true,
    }
}

impl Content {
    /// Displays `html`.
    pub fn html(html: &str) -> (c: Content)
        ensures
            c matches Content::Html(s) && s@ == html@,
    {
        Content::Html(html.to_owned())
    }

    /// Points to `url`.
    pub fn url(url: &str) -> (c: Content)
        ensures
            c matches Content::Url(s) && s@ == url@,
    {
        Content::Url(url.to_owned())
    }

    /// Displays the HTML of the foreign string `content`, relative references
    /// resolving against the foreign URL `base_url`.
    pub fn html_object(content: usize, base_url: usize) -> (c: Content)
        ensures
            c == (Content::HtmlObject { content, base_url }),
    {
        Content::HtmlObject { content, base_url }
    }

    /// Points to the foreign URL `url`.
    pub fn url_object(url: usize) -> (c: Content)
        ensures
            c == Content::UrlObject(url),
    {
        Content::UrlObject(url)
    }

    /// The same content, in a value of its own.
    pub fn duplicate(&self) -> (c: Content)
        ensures
            c == *self,
    {
        match self {
            Content::Html(s) => Content::Html(s.clone()),
            Content::Url(s) => Content::Url(s.clone()),
            Content::HtmlObject { content, base_url } => Content::HtmlObject {
                content: *content,
                base_url: *base_url,
            },
            Content::UrlObject(u) => Content::UrlObject(*u),
        }
    }
}

impl Default for Content {
    fn default() -> (c: Content)
        ensures
            c matches Content::Url(s) && s@ == DEFAULT_CONTENT_URL@,
    {
        Content::url(DEFAULT_CONTENT_URL)
    }
}

/// The error of a web view build.
#[derive(Clone, Copy, Debug, PartialEq, Eq)]
pub enum WebViewBuildError {
    /// The build was attempted off the user interface thread.
    ThreadAffinity,
}

/// A view that displays an HTML document, inside a window.
///
/// It owns one reference to the foreign web view and one to its window. End
/// it with `release`: dropping it keeps both references for good.
#[derive(Debug)]
pub struct WebView {
    handle: NativeHandle,
    window: Window,
}

impl View for WebView {
    type V = (usize, usize);

    /// The web view's reference and its window's.
    closed spec fn view(&self) -> (usize, usize) {
        (self.handle@, self.window@)
    }
}

impl WebView {
    /// A builder with the default configuration.
    pub fn builder() -> (b: WebViewBuilder)
        ensures
            WebViewBuilder::is_default_config(b@),
    {
        WebViewBuilder::new()
    }

    /// Builds a web view with the default configuration inside `window`.
    pub fn new(rt: &mut Runtime, window: &Window, on_ui_thread: bool) -> (r: Result<
        WebView,
        WebViewBuildError,
    >)
        requires
            old(rt).wf(),
            on_ui_thread ==> old(rt)@.counts.len() < usize::MAX,
            on_ui_thread ==> old(rt)@.has_owner(window@),
            on_ui_thread ==> old(rt)@.counts[window@ as int] < usize::MAX,
        ensures
            final(rt).wf(),
            !on_ui_thread ==> r == Err::<WebView, WebViewBuildError>(
                WebViewBuildError::ThreadAffinity,
            ) && final(rt)@ == old(rt)@,
            on_ui_thread ==> r is Ok && exists|c: WebViewConfig|
                WebViewBuilder::is_default_config(c) && final(rt)@ == c.built(old(rt)@, window@),
            r matches Ok(v) ==> v@ == (old(rt)@.counts.len() as usize, window@),
    {
        let builder = Self::builder();
        builder.build(rt, window, on_ui_thread)
    }

    /// Takes over the handles of an existing web view and of its window.
    pub fn from_handles(handle: NativeHandle, window: Window) -> (v: WebView)
        ensures
            v@ == (handle@, window@),
    {
        WebView { handle, window }
    }

    /// The handle to the foreign web view.
    pub fn handle(&self) -> (h: &NativeHandle)
        ensures
            h@ == self@.0,
    {
        &self.handle
    }

    /// The window the web view is in.
    pub fn window(&self) -> (w: &Window)
        ensures
            w@ == self@.1,
    {
        &self.window
    }

    /// A second value for the same web view, with references of its own to
    /// the web view and to its window.
    pub fn clone_in(&self, rt: &mut Runtime) -> (v: WebView)
        requires
            old(rt).wf(),
            old(rt)@.has_owner(self@.0),
            old(rt)@.counts[self@.0 as int] < usize::MAX,
            old(rt)@.retained(self@.0).has_owner(self@.1),
            old(rt)@.retained(self@.0).counts[self@.1 as int] < usize::MAX,
        ensures
            final(rt).wf(),
            final(rt)@ == old(rt)@.retained(self@.0).retained(self@.1),
            v@ == self@,
    {
        let handle = self.handle.clone_in(rt);
        let window = self.window.clone_in(rt);
        WebView { handle, window }
    }

    /// Ends this value, releasing its reference to the web view and then the
    /// one to its window.
    pub fn release(self, rt: &mut Runtime)
        requires
            old(rt).wf(),
            old(rt)@.has_owner(self@.0),
            old(rt)@.released(self@.0).has_owner(self@.1),
        ensures
            final(rt).wf(),
            final(rt)@ == old(rt)@.released(self@.0).released(self@.1),
    {
        self.handle.release(rt);
        self.window.release(rt);
    }

    /// Sets the content displayed.
    pub fn set_content(&self, rt: &mut Runtime, content: &Content)
        requires
            old(rt).wf(),
            old(rt)@.is_live(self@.0),
            content_is_live(old(rt)@, *content),
        ensures
            final(rt).wf(),
            final(rt)@ == old(rt)@.issued(load_call(self@.0, *content)),
    {
        let web_view = self.handle.as_raw();
        let call = match content {
            Content::Html(s) => ForeignCall::LoadHtml { web_view, html: s.clone() },
            Content::Url(s) => ForeignCall::LoadUrl { web_view, url: s.clone() },
            Content::HtmlObject { content, base_url } => ForeignCall::LoadHtmlObject {
                web_view,
                content: *content,
                base_url: *base_url,
            },
            Content::UrlObject(u) => ForeignCall::LoadUrlObject { web_view, url_object: *u },
        };
        rt.issue(call);
    }
}

/// The configuration a web view builder holds.
pub struct WebViewConfig {
    pub content: Content,
    pub ui_delegate: Option<usize>,
    pub nav_delegate: Option<usize>,
}

impl WebViewConfig {
    /// The foreign calls of a successful build inside `window`, the new web
    /// view being `web_view`.
    pub open spec fn build_calls(self, web_view: usize, window: usize) -> Seq<ForeignCall> {
        let ui_calls = match self.ui_delegate {
            Some(delegate) => seq![ForeignCall::SetUiDelegate { web_view, delegate }],
            None => Seq::empty(),
        };
        let nav_calls = match self.nav_delegate {
            Some(delegate) => seq![ForeignCall::SetNavigationDelegate { web_view, delegate }],
            None => Seq::empty(),
        };
        seq![
            ForeignCall::PushPool,
            ForeignCall::Construct { object: web_view, what: Construction::WebView { window } },
        ] + ui_calls + nav_calls + seq![
            ForeignCall::Retain(window),
            load_call(web_view, self.content),
            ForeignCall::PopPool,
        ]
    }

    /// The runtime after a successful build from `m` inside `window`: one new
    /// web view, owned by the value handed back, which also holds a reference
    /// of its own to the window.
    pub open spec fn built(self, m: RuntimeModel, window: usize) -> RuntimeModel {
        let web_view = m.counts.len() as usize;
        RuntimeModel {
            counts: m.counts.push(1).update(window as int, (m.counts[window as int] + 1) as usize),
            calls: m.calls + self.build_calls(web_view, window),
            ..m
        }
    }
}

/// Configures how a web view is constructed.
pub struct WebViewBuilder {
    content: Content,
    ui_delegate: Option<usize>,
    nav_delegate: Option<usize>,
}

impl View for WebViewBuilder {
    type V = WebViewConfig;

    closed spec fn view(&self) -> WebViewConfig {
        WebViewConfig {
            content: self.content,
            ui_delegate: self.ui_delegate,
            nav_delegate: self.nav_delegate,
        }
    }
}

impl Default for WebViewBuilder {
    fn default() -> (b: WebViewBuilder)
        ensures
            WebViewBuilder::is_default_config(b@),
    {
        WebViewBuilder::new()
    }
}

impl WebViewBuilder {
    /// `c` shows the default page and has no delegate.
    pub open spec fn is_default_config(c: WebViewConfig) -> bool {
        &&& c.content matches Content::Url(s) && s@ == DEFAULT_CONTENT_URL@
        &&& c.ui_delegate is None
        &&& c.nav_delegate is None
    }

    /// A builder with the default configuration.
    pub fn new() -> (b: WebViewBuilder)
        ensures
            Self::is_default_config(b@),
    {
        WebViewBuilder { content: Content::default(), ui_delegate: None, nav_delegate: None }
    }

    /// Sets the content to the HTML document `html`.
    pub fn html(&mut self, html: &str) -> (r: &mut Self)
        ensures
            (*r)@.content matches Content::Html(s) && s@ == html@,
            (*r)@.ui_delegate == old(self)@.ui_delegate,
            (*r)@.nav_delegate == old(self)@.nav_delegate,
            *final(self) == *final(r),
    {
        self.content = Content::html(html);
        self
    }

    /// Sets the content to the resource at `url`.
    pub fn url(&mut self, url: &str) -> (r: &mut Self)
        ensures
            (*r)@.content matches Content::Url(s) && s@ == url@,
            (*r)@.ui_delegate == old(self)@.ui_delegate,
            (*r)@.nav_delegate == old(self)@.nav_delegate,
            *final(self) == *final(r),
    {
        self.content = Content::url(url);
        self
    }

    /// Sets the content displayed.
    pub fn content(&mut self, content: Content) -> (r: &mut Self)
        ensures
            (*r)@ == (WebViewConfig { content, ..old(self)@ }),
            *final(self) == *final(r),
    {
        self.content = content;
        self
    }

    /// Sets the object the web view asks about user interface events.
    pub fn ui_delegate(&mut self, delegate: usize) -> (r: &mut Self)
        ensures
            (*r)@ == (WebViewConfig { ui_delegate: Some(delegate), ..old(self)@ }),
            *final(self) == *final(r),
    {
        self.ui_delegate = Some(delegate);
        self
    }

    /// Sets the object the web view asks about navigation.
    pub fn nav_delegate(&mut self, delegate: usize) -> (r: &mut Self)
        ensures
            (*r)@ == (WebViewConfig { nav_delegate: Some(delegate), ..old(self)@ }),
            *final(self) == *final(r),
    {
        self.nav_delegate = Some(delegate);
        self
    }

    /// Constructs the web view inside `window`, on the user interface thread
    /// only.
    ///
    /// `on_ui_thread` tells whether the caller runs on the thread the foreign
    /// runtime designates for user interface objects. Off that thread the
    /// build fails and no foreign call is issued. On it, the web view is built
    /// inside a release pool of its own, its delegates and content are set,
    /// it takes a reference to `window` of its own, and the pool is closed.
    pub fn build(&self, rt: &mut Runtime, window: &Window, on_ui_thread: bool) -> (r: Result<
        WebView,
        WebViewBuildError,
    >)
        requires
            old(rt).wf(),
            on_ui_thread ==> old(rt)@.counts.len() < usize::MAX,
            on_ui_thread ==> old(rt)@.has_owner(window@),
            on_ui_thread ==> old(rt)@.counts[window@ as int] < usize::MAX,
            on_ui_thread ==> content_is_live(old(rt)@, self@.content),
            on_ui_thread ==> (self@.ui_delegate matches Some(d) ==> old(rt)@.is_live(d)),
            on_ui_thread ==> (self@.nav_delegate matches Some(d) ==> old(rt)@.is_live(d)),
        ensures
            final(rt).wf(),
            !on_ui_thread ==> r == Err::<WebView, WebViewBuildError>(
                WebViewBuildError::ThreadAffinity,
            ) && final(rt)@ == old(rt)@,
            on_ui_thread ==> r is Ok && final(rt)@ == self@.built(old(rt)@, window@),
            r matches Ok(v) ==> v@ == (old(rt)@.counts.len() as usize, window@),
    {
        if !on_ui_thread {
            return Err(WebViewBuildError::ThreadAffinity);
        }
        let ghost before = rt@;
        let guard = rt.push_pool();
        let handle = rt.construct(Construction::WebView { window: window.handle().as_raw() });
        let web_view = handle.as_raw();
        match self.ui_delegate {
            Some(delegate) => rt.issue(ForeignCall::SetUiDelegate { web_view, delegate }),
            None => {},
        }
        match self.nav_delegate {
            Some(delegate) => rt.issue(ForeignCall::SetNavigationDelegate { web_view, delegate }),
            None => {},
        }
        let ghost configured = rt@;
        let view = WebView { handle, window: window.clone_in(rt) };
        proof {
            assert(configured.counts =~= before.counts.push(1));
        }
        view.set_content(rt, &self.content);
        let ghost open = rt@;
        rt.pop_pool(guard);
        proof {
            assert(open.pending == before.pending);
            assert(open.marks == before.marks.push(before.pending.len() as usize));
            assert(open.top_pool() =~= Seq::<usize>::empty());
            let after = self@.built(before, window@);
            assert(rt@.counts =~= after.counts);
            assert(rt@.pending =~= before.pending);
            assert(rt@.marks =~= before.marks);
            assert(rt@.calls =~= after.calls);
        }
        Ok(view)
    }
}

} // verus!
