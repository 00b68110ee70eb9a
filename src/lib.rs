//! Lifetime management for handles to objects of a manually reference-counted
//! foreign GUI runtime, and the construction protocol of windows and web views.
//!
//! The foreign runtime is described by a ledger (`Runtime`) that records every
//! foreign call the library issues; each operation on a handle, a release pool
//! or a builder is a verified transition of that ledger. The caller performs
//! the recorded calls against the real platform.

mod runtime;
mod string;
mod web_view;
mod window;

pub use runtime::{
    AutoreleasePool, Construction, ForeignCall, NativeHandle, Runtime, RuntimeModel,
    lemma_clone_then_drop_keeps_first_owner, lemma_owners_and_pool_release_once, occurrences,
    released_times,
};
pub use string::{PlatformString, ZedString};
pub use window::{
    CLOSABLE, DEFAULT_STYLE_MASK, FULL_SIZE_CONTENT_VIEW, MINIATURIZABLE, RESIZABLE, TITLED,
    ThreadAffinityError, Window, WindowBuilder, WindowConfig, full_size_content_view_mask,
    with_full_size_content_view,
};
pub use web_view::{
    Content, DEFAULT_CONTENT_URL, WebView, WebViewBuildError, WebViewBuilder, WebViewConfig,
    content_is_live,
    load_call,
};
