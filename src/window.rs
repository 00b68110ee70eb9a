use vstd::prelude::*;
use crate::runtime::{Construction, ForeignCall, NativeHandle, Runtime, RuntimeModel};
use crate::string::ZedString;

verus! {

/// Style bit: the window has a title bar.
pub const TITLED: u64 = 1;

/// Style bit: the window has a close button.
pub const CLOSABLE: u64 = 2;

/// Style bit: the window has a minimize button.
pub const MINIATURIZABLE: u64 = 4;

/// Style bit: the window can be resized.
pub const RESIZABLE: u64 = 8;

/// Style bit: the content view fills the whole window, under the title bar.
pub const FULL_SIZE_CONTENT_VIEW: u64 = 0x8000;

/// The style of a window built without an explicit style mask: titled,
/// closable, miniaturizable and resizable.
pub const DEFAULT_STYLE_MASK: u64 = 15;

/// `mask` with the full-size content view bit set when `full_size` holds and
/// cleared otherwise; no other bit changes.
pub open spec fn with_full_size_content_view(mask: u64, full_size: bool) -> u64 {
    if full_size {
        mask | FULL_SIZE_CONTENT_VIEW
    } else {
        mask & !FULL_SIZE_CONTENT_VIEW
    }
}

/// The style mask a window is asked to take when the full-size content view
/// is switched on or off; `mask` is its current style mask.
pub fn full_size_content_view_mask(mask: u64, full_size: bool) -> (r: u64)
    ensures
        r == with_full_size_content_view(mask, full_size),
        r & FULL_SIZE_CONTENT_VIEW == (if full_size {
            FULL_SIZE_CONTENT_VIEW
        } else {
            0
        }),
        r & !FULL_SIZE_CONTENT_VIEW == mask & !FULL_SIZE_CONTENT_VIEW,
{
    if full_size {
        let r = mask | FULL_SIZE_CONTENT_VIEW;
        assert(r & 0x8000u64 == 0x8000u64 && r & !0x8000u64 == mask & !0x8000u64) by (bit_vector)
            requires
                r == mask | 0x8000u64,
        ;
        r
    } else {
        let r = mask & !FULL_SIZE_CONTENT_VIEW;
        assert(r & 0x8000u64 == 0 && r & !0x8000u64 == mask & !0x8000u64) by (bit_vector)
            requires
                r == mask & !0x8000u64,
        ;
        r
    }
}

/// The error of a construction or mutation attempted off the thread that the
/// foreign runtime designates for user interface objects.
#[derive(Clone, Copy, Debug, PartialEq, Eq)]
pub struct ThreadAffinityError;

/// A handle to a window.
///
/// It owns one reference to the foreign window; sharing it goes through the
/// runtime, which counts the new reference. End it with `release`: dropping it
/// keeps the reference for good.
#[derive(Debug)]
pub struct Window {
    handle: NativeHandle,
}

impl View for Window {
    type V = usize;

    closed spec fn view(&self) -> usize {
        self.handle@
    }
}

impl Window {
    /// A builder with the default configuration.
    pub fn builder() -> (b: WindowBuilder)
        ensures
            b@ == WindowBuilder::default_config(),
    {
        WindowBuilder::new()
    }

    /// Takes over the handle of an existing window.
    pub fn from_handle(handle: NativeHandle) -> (w: Window)
        ensures
            w@ == handle@,
    {
        Window { handle }
    }

    /// The handle to the foreign window.
    pub fn handle(&self) -> (h: &NativeHandle)
        ensures
            h@ == self@,
    {
        &self.handle
    }

    /// Gives up the window, handing back the handle that owns its reference.
    pub fn into_handle(self) -> (h: NativeHandle)
        ensures
            h@ == self@,
    {
        self.handle
    }

    /// A second handle to the same window.
    pub fn clone_in(&self, rt: &mut Runtime) -> (w: Window)
        requires
            old(rt).wf(),
            old(rt)@.has_owner(self@),
            old(rt)@.counts[self@ as int] < usize::MAX,
        ensures
            final(rt).wf(),
            final(rt)@ == old(rt)@.retained(self@),
            w@ == self@,
    {
        Window { handle: self.handle.clone_in(rt) }
    }

    /// Ends this handle, releasing its reference.
    pub fn release(self, rt: &mut Runtime)
        requires
            old(rt).wf(),
            old(rt)@.has_owner(self@),
        ensures
            final(rt).wf(),
            final(rt)@ == old(rt)@.released(self@),
    {
        self.handle.release(rt);
    }

    /// Sets the displayed title.
    pub fn set_title(&self, rt: &mut Runtime, title: &ZedString)
        requires
            old(rt).wf(),
            old(rt)@.is_live(self@),
            old(rt)@.is_live(title.object()),
        ensures
            final(rt).wf(),
            final(rt)@ == old(rt)@.issued(
                ForeignCall::SetTitle { window: self@, title: title.object() },
            ),
    {
        rt.issue(
            ForeignCall::SetTitle { window: self.handle.as_raw(), title: title.handle().as_raw() },
        );
    }

    /// Sets whether the title bar appears transparent.
    pub fn set_titlebar_appears_transparent(&self, rt: &mut Runtime, transparent: bool)
        requires
            old(rt).wf(),
            old(rt)@.is_live(self@),
        ensures
            final(rt).wf(),
            final(rt)@ == old(rt)@.issued(
                ForeignCall::SetTitlebarTransparent { window: self@, transparent },
            ),
    {
        rt.issue(ForeignCall::SetTitlebarTransparent { window: self.handle.as_raw(), transparent });
    }

    /// Sets the style mask.
    pub fn set_style_mask(&self, rt: &mut Runtime, style_mask: u64)
        requires
            old(rt).wf(),
            old(rt)@.is_live(self@),
        ensures
            final(rt).wf(),
            final(rt)@ == old(rt)@.issued(ForeignCall::SetStyleMask { window: self@, style_mask }),
    {
        rt.issue(ForeignCall::SetStyleMask { window: self.handle.as_raw(), style_mask });
    }

    /// Sets the view that fills the content area.
    pub fn set_content_view(&self, rt: &mut Runtime, view: &NativeHandle)
        requires
            old(rt).wf(),
            old(rt)@.is_live(self@),
            old(rt)@.is_live(view@),
        ensures
            final(rt).wf(),
            final(rt)@ == old(rt)@.issued(ForeignCall::SetContentView { window: self@, view: view@ }),
    {
        rt.issue(ForeignCall::SetContentView { window: self.handle.as_raw(), view: view.as_raw() });
    }

    /// Sets whether the content view fills the whole window; `current_mask`
    /// is the window's style mask as the foreign runtime reports it.
    pub fn set_full_size_content_view(&self, rt: &mut Runtime, current_mask: u64, full_size: bool)
        requires
            old(rt).wf(),
            old(rt)@.is_live(self@),
        ensures
            final(rt).wf(),
            final(rt)@ == old(rt)@.issued(
                ForeignCall::SetStyleMask {
                    window: self@,
                    style_mask: with_full_size_content_view(current_mask, full_size),
                },
            ),
    {
        let style_mask = full_size_content_view_mask(current_mask, full_size);
        rt.issue(ForeignCall::SetStyleMask { window: self.handle.as_raw(), style_mask });
    }

    /// Hides or shows the title bar: the content view fills the window and the
    /// title bar turns transparent, or both are undone. `current_mask` is the
    /// window's style mask as the foreign runtime reports it.
    pub fn set_titlebar_hidden(&self, rt: &mut Runtime, current_mask: u64, hidden: bool)
        requires
            old(rt).wf(),
            old(rt)@.is_live(self@),
        ensures
            final(rt).wf(),
            final(rt)@ == old(rt)@.issued(
                ForeignCall::SetStyleMask {
                    window: self@,
                    style_mask: with_full_size_content_view(current_mask, hidden),
                },
            ).issued(ForeignCall::SetTitlebarTransparent { window: self@, transparent: hidden }),
    {
        self.set_full_size_content_view(rt, current_mask, hidden);
        self.set_titlebar_appears_transparent(rt, hidden);
    }
}

/// The configuration a window builder holds.
pub struct WindowConfig {
    pub style_mask: Option<u64>,
    pub titlebar_hidden: bool,
    pub title: Option<ZedString>,
}

impl WindowConfig {
    /// The style mask the window is built with: the configured mask, or the
    /// default one, with the full-size content view bit added when the title
    /// bar is hidden.
    pub open spec fn effective_style_mask(self) -> u64 {
        let base = match self.style_mask {
            Some(m) => m,
            None => DEFAULT_STYLE_MASK,
        };
        if self.titlebar_hidden {
            base | FULL_SIZE_CONTENT_VIEW
        } else {
            base
        }
    }

    /// The foreign calls of a successful build, the new window being
    /// `window`.
    pub open spec fn build_calls(self, window: usize) -> Seq<ForeignCall> {
        let title_calls = match self.title {
            Some(t) => seq![ForeignCall::SetTitle { window, title: t.object() }],
            None => Seq::empty(),
        };
        let titlebar_calls = if self.titlebar_hidden {
            seq![ForeignCall::SetTitlebarTransparent { window, transparent: true }]
        } else {
            Seq::empty()
        };
        seq![
            ForeignCall::PushPool,
            ForeignCall::Construct {
                object: window,
                what: Construction::Window { style_mask: self.effective_style_mask() },
            },
        ] + title_calls + titlebar_calls + seq![ForeignCall::PopPool]
    }

    /// The runtime after a successful build from `m`: one new window, owned by
    /// the handle handed back, and the calls of `build_calls`.
    pub open spec fn built(self, m: RuntimeModel) -> RuntimeModel {
        RuntimeModel {
            counts: m.counts.push(1),
            calls: m.calls + self.build_calls(m.counts.len() as usize),
            ..m
        }
    }
}

/// Configures how a window is constructed.
pub struct WindowBuilder {
    style_mask: Option<u64>,
    titlebar_hidden: bool,
    title: Option<ZedString>,
}

impl View for WindowBuilder {
    type V = WindowConfig;

    closed spec fn view(&self) -> WindowConfig {
        WindowConfig {
            style_mask: self.style_mask,
            titlebar_hidden: self.titlebar_hidden,
            title: self.title,
        }
    }
}

impl Default for WindowBuilder {
    fn default() -> (b: WindowBuilder)
        ensures
            b@ == WindowBuilder::default_config(),
    {
        WindowBuilder::new()
    }
}

impl WindowBuilder {
    /// No style mask, title bar shown, no title.
    pub open spec fn default_config() -> WindowConfig {
        WindowConfig { style_mask: None, titlebar_hidden: false, title: None }
    }

    /// A builder with the default configuration.
    pub fn new() -> (b: WindowBuilder)
        ensures
            b@ == Self::default_config(),
    {
        WindowBuilder { style_mask: None, titlebar_hidden: false, title: None }
    }

    /// Sets the window title.
    pub fn title(&mut self, title: ZedString) -> (r: &mut Self)
        ensures
            (*r)@ == (WindowConfig { title: Some(title), ..old(self)@ }),
            *final(self) == *final(r),
    {
        self.title = Some(title);
        self
    }

    /// Sets the style mask the window is constructed with; hiding the title
    /// bar still adds the full-size content view bit to it.
    pub fn style_mask(&mut self, mask: u64) -> (r: &mut Self)
        ensures
            (*r)@ == (WindowConfig { style_mask: Some(mask), ..old(self)@ }),
            *final(self) == *final(r),
    {
        self.style_mask = Some(mask);
        self
    }

    /// Sets whether the title bar is hidden: the content view then fills the
    /// window and the title bar is transparent.
    pub fn titlebar_hidden(&mut self, hidden: bool) -> (r: &mut Self)
        ensures
            (*r)@ == (WindowConfig { titlebar_hidden: hidden, ..old(self)@ }),
            *final(self) == *final(r),
    {
        self.titlebar_hidden = hidden;
        self
    }

    /// The style mask the window is constructed with.
    pub fn effective_style_mask(&self) -> (r: u64)
        ensures
            r == self@.effective_style_mask(),
    {
        let base = match self.style_mask {
            Some(m) => m,
            None => TITLED | CLOSABLE | MINIATURIZABLE | RESIZABLE,
        };
        assert(TITLED | CLOSABLE | MINIATURIZABLE | RESIZABLE == DEFAULT_STYLE_MASK) by (bit_vector);
        if self.titlebar_hidden {
            base | FULL_SIZE_CONTENT_VIEW
        } else {
            base
        }
    }

    /// Constructs the window, on the user interface thread only.
    ///
    /// `on_ui_thread` tells whether the caller runs on the thread the foreign
    /// runtime designates for user interface objects. Off that thread the
    /// build fails and no foreign call is issued. On it, the window is built
    /// inside a release pool of its own, its title and title bar are set, and
    /// the pool is closed; the handle handed back owns the one reference of
    /// the new window.
    pub fn build(&self, rt: &mut Runtime, on_ui_thread: bool) -> (r: Result<Window, ThreadAffinityError>)
        requires
            old(rt).wf(),
            on_ui_thread ==> old(rt)@.counts.len() < usize::MAX,
            on_ui_thread ==> (self@.title matches Some(t) ==> old(rt)@.is_live(t.object())),
        ensures
            final(rt).wf(),
            !on_ui_thread ==> r == Err::<Window, ThreadAffinityError>(ThreadAffinityError)
                && final(rt)@ == old(rt)@,
            on_ui_thread ==> r is Ok && final(rt)@ == self@.built(old(rt)@),
            r matches Ok(w) ==> w@ == old(rt)@.counts.len() && final(rt)@.has_owner(w@),
    {
        if !on_ui_thread {
            return Err(ThreadAffinityError);
        }
        let ghost before = rt@;
        let guard = rt.push_pool();
        let style_mask = self.effective_style_mask();
        let handle = rt.construct(Construction::Window { style_mask });
        let window = Window { handle };
        let ghost id = window@;
        match &self.title {
            Some(t) => {
                assert(rt@.counts[t.object() as int] == before.counts[t.object() as int]);
                window.set_title(rt, t)
            },
            None => {},
        }
        if self.titlebar_hidden {
            window.set_titlebar_appears_transparent(rt, true);
        }
        let ghost open = rt@;
        rt.pop_pool(guard);
        proof {
            assert(open.pending == before.pending);
            assert(open.marks == before.marks.push(before.pending.len() as usize));
            assert(open.top_pool() =~= Seq::<usize>::empty());
            assert(open.counts =~= before.counts.push(1));
            assert(rt@.counts =~= before.counts.push(1));
            assert(rt@.pending =~= before.pending);
            assert(rt@.marks =~= before.marks);
            assert(rt@.calls =~= before.calls + self@.build_calls(id));
            assert(rt@ == self@.built(before));
        }
        Ok(window)
    }
}

} // verus!
