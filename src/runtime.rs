use std::marker::PhantomData;
use vstd::prelude::*;

verus! {

/// What a construction call builds.
#[derive(Clone, Debug, PartialEq, Eq)]
pub enum Construction {
    /// A window with the given style mask, over the default content rectangle.
    Window { style_mask: u64 },
    /// A web view attached to the window `window`.
    WebView { window: usize },
    /// A string holding `text`.
    String { text: String },
    /// An object the caller obtained from the platform, taken over with the
    /// one reference the caller holds; nothing is built.
    Existing,
}

/// A call into the foreign object runtime, in the order the library issues it.
///
/// Objects are named by the reference the ledger gave them when they were
/// constructed.
#[derive(Clone, Debug, PartialEq, Eq)]
pub enum ForeignCall {
    /// Builds a new object, handed back with one reference owned by the caller.
    Construct { object: usize, what: Construction },
    /// Increments the reference count of an object.
    Retain(usize),
    /// Decrements the reference count of an object.
    Release(usize),
    /// Defers one decrement of an object to the innermost release pool.
    Autorelease(usize),
    /// Opens a release pool.
    PushPool,
    /// Closes the innermost release pool, releasing what was deferred to it.
    PopPool,
    /// Sets the title of a window to the foreign string `title`.
    SetTitle { window: usize, title: usize },
    /// Sets the style mask of a window.
    SetStyleMask { window: usize, style_mask: u64 },
    /// Sets the view that fills a window's content area.
    SetContentView { window: usize, view: usize },
    /// Sets whether the titlebar of a window appears transparent.
    SetTitlebarTransparent { window: usize, transparent: bool },
    /// Sets the object a web view asks about user interface events.
    SetUiDelegate { web_view: usize, delegate: usize },
    /// Sets the object a web view asks about navigation.
    SetNavigationDelegate { web_view: usize, delegate: usize },
    /// Loads an HTML document into a web view.
    LoadHtml { web_view: usize, html: String },
    /// Loads an HTML document held by a foreign string into a web view,
    /// resolving relative references against a foreign URL.
    LoadHtmlObject { web_view: usize, content: usize, base_url: usize },
    /// Loads the resource at a URL into a web view.
    LoadUrl { web_view: usize, url: String },
    /// Loads the resource at a foreign URL into a web view.
    LoadUrlObject { web_view: usize, url_object: usize },
}

/// Number of times `id` occurs in `s`.
pub open spec fn occurrences(s: Seq<usize>, id: int) -> nat
    decreases s.len(),
{
    if s.len() == 0 {
        0
    } else {
        occurrences(s.drop_last(), id) + if s.last() as int == id {
            1nat
        } else {
            0nat
        }
    }
}

/// The state of the foreign runtime as the library sees it.
pub struct RuntimeModel {
    /// Reference count of each object, indexed by its reference.
    pub counts: Seq<usize>,
    /// Every deferred release, oldest first, over all open pools.
    pub pending: Seq<usize>,
    /// For each open pool, outermost first, where its deferred releases start
    /// in `pending`.
    pub marks: Seq<usize>,
    /// The foreign calls issued so far.
    pub calls: Seq<ForeignCall>,
}

impl RuntimeModel {
    /// `id` names an object that was constructed.
    pub open spec fn is_object(self, id: usize) -> bool {
        id < self.counts.len()
    }

    /// `id` names an object that has not been deallocated.
    pub open spec fn is_live(self, id: usize) -> bool {
        self.is_object(id) && self.counts[id as int] > 0
    }

    /// Number of releases of `id` deferred to open pools.
    pub open spec fn deferred(self, id: usize) -> nat {
        occurrences(self.pending, id as int)
    }

    /// Some reference to `id` is held by an owner, not by a pool.
    pub open spec fn has_owner(self, id: usize) -> bool {
        self.is_object(id) && self.counts[id as int] > self.deferred(id)
    }

    /// The releases deferred to the innermost open pool.
    pub open spec fn top_pool(self) -> Seq<usize> {
        self.pending.subrange(self.marks.last() as int, self.pending.len() as int)
    }

    /// The bookkeeping of the runtime is consistent: no pool holds more
    /// releases of an object than it has references, and pools nest.
    pub open spec fn wf(self) -> bool {
        &&& forall|i: int| 0 <= i < self.pending.len() ==> self.pending[i] < self.counts.len()
        &&& forall|id: int|
            0 <= id < self.counts.len() ==> #[trigger] occurrences(self.pending, id)
                <= self.counts[id]
        &&& forall|i: int, j: int|
            0 <= i <= j < self.marks.len() ==> #[trigger] self.marks[i] <= #[trigger] self.marks[j]
        &&& forall|i: int| 0 <= i < self.marks.len() ==> #[trigger] self.marks[i] <= self.pending.len()
        &&& self.marks.len() == 0 ==> self.pending.len() == 0
        &&& self.marks.len() > 0 ==> self.marks[0] == 0
        &&& self.pending.len() <= usize::MAX
    }

    /// After constructing a new object.
    pub open spec fn constructed(self, what: Construction) -> RuntimeModel {
        RuntimeModel {
            counts: self.counts.push(1),
            calls: self.calls.push(
                ForeignCall::Construct { object: self.counts.len() as usize, what },
            ),
            ..self
        }
    }

    /// After retaining `id`.
    pub open spec fn retained(self, id: usize) -> RuntimeModel {
        RuntimeModel {
            counts: self.counts.update(id as int, (self.counts[id as int] + 1) as usize),
            calls: self.calls.push(ForeignCall::Retain(id)),
            ..self
        }
    }

    /// After releasing `id`.
    pub open spec fn released(self, id: usize) -> RuntimeModel {
        RuntimeModel {
            counts: self.counts.update(id as int, (self.counts[id as int] - 1) as usize),
            calls: self.calls.push(ForeignCall::Release(id)),
            ..self
        }
    }

    /// After deferring a release of `id` to the innermost pool.
    pub open spec fn autoreleased(self, id: usize) -> RuntimeModel {
        RuntimeModel {
            pending: self.pending.push(id),
            calls: self.calls.push(ForeignCall::Autorelease(id)),
            ..self
        }
    }

    /// After opening a pool.
    pub open spec fn pool_pushed(self) -> RuntimeModel {
        RuntimeModel {
            marks: self.marks.push(self.pending.len() as usize),
            calls: self.calls.push(ForeignCall::PushPool),
            ..self
        }
    }

    /// After closing the innermost pool: each object loses one reference for
    /// each release deferred to that pool.
    pub open spec fn pool_popped(self) -> RuntimeModel {
        RuntimeModel {
            counts: Seq::new(
                self.counts.len(),
                |i: int| (self.counts[i] - occurrences(self.top_pool(), i)) as usize,
            ),
            pending: self.pending.take(self.marks.last() as int),
            marks: self.marks.drop_last(),
            calls: self.calls.push(ForeignCall::PopPool),
        }
    }

    /// After a call that changes no reference count and no pool.
    pub open spec fn issued(self, call: ForeignCall) -> RuntimeModel {
        RuntimeModel { calls: self.calls.push(call), ..self }
    }
}

proof fn lemma_occurrences_push(s: Seq<usize>, x: usize, id: int)
    ensures
        occurrences(s.push(x), id) == occurrences(s, id) + if x as int == id {
            1nat
        } else {
            0nat
        },
{
    assert(s.push(x).drop_last() =~= s);
}

proof fn lemma_occurrences_absent(s: Seq<usize>, id: int)
    requires
        forall|i: int| 0 <= i < s.len() ==> s[i] as int != id,
    ensures
        occurrences(s, id) == 0,
    decreases s.len(),
{
    if s.len() > 0 {
        lemma_occurrences_absent(s.drop_last(), id);
    }
}

proof fn lemma_occurrences_split(s: Seq<usize>, k: int, id: int)
    requires
        0 <= k <= s.len(),
    ensures
        occurrences(s, id) == occurrences(s.take(k), id) + occurrences(
            s.subrange(k, s.len() as int),
            id,
        ),
    decreases s.len(),
{
    if k == s.len() {
        assert(s.take(k) =~= s);
        assert(s.subrange(k, s.len() as int) =~= Seq::<usize>::empty());
    } else {
        let d = s.drop_last();
        lemma_occurrences_split(d, k, id);
        assert(d.take(k) =~= s.take(k));
        assert(s.subrange(k, s.len() as int).drop_last() =~= d.subrange(k, d.len() as int));
    }
}

proof fn lemma_occurrences_take_step(s: Seq<usize>, k: int, id: int)
    requires
        0 < k <= s.len(),
    ensures
        occurrences(s.take(k), id) == occurrences(s.take(k - 1), id) + if s[k - 1] as int
            == id {
            1nat
        } else {
            0nat
        },
{
    assert(s.take(k).drop_last() =~= s.take(k - 1));
}

/// The ledger of the foreign runtime: reference counts, deferred releases and
/// the calls issued, in order.
pub struct Runtime {
    counts: Vec<usize>,
    pending: Vec<usize>,
    marks: Vec<usize>,
    calls: Vec<ForeignCall>,
}

impl View for Runtime {
    type V = RuntimeModel;

    closed spec fn view(&self) -> RuntimeModel {
        RuntimeModel {
            counts: self.counts@,
            pending: self.pending@,
            marks: self.marks@,
            calls: self.calls@,
        }
    }
}

impl Runtime {
    /// Bookkeeping is consistent.
    pub open spec fn wf(&self) -> bool {
        self@.wf()
    }

    /// A runtime with no object, no open pool and no call issued.
    pub fn new() -> (r: Runtime)
        ensures
            r.wf(),
            r@.counts.len() == 0,
            r@.pending.len() == 0,
            r@.marks.len() == 0,
            r@.calls.len() == 0,
    {
        Runtime { counts: Vec::new(), pending: Vec::new(), marks: Vec::new(), calls: Vec::new() }
    }

    /// The calls issued so far, oldest first.
    pub fn calls(&self) -> (r: &Vec<ForeignCall>)
        ensures
            r@ == self@.calls,
    {
        &self.calls
    }

    /// Current reference count of `id`.
    pub fn count(&self, id: usize) -> (r: usize)
        requires
            self@.is_object(id),
        ensures
            r == self@.counts[id as int],
    {
        self.counts[id]
    }

    /// Number of releases of `id` deferred to open pools.
    pub fn deferred(&self, id: usize) -> (r: usize)
        requires
            self.wf(),
        ensures
            r == self@.deferred(id),
    {
        let mut n: usize = 0;
        let mut i: usize = 0;
        while i < self.pending.len()
            invariant
                i <= self.pending@.len(),
                n == occurrences(self.pending@.take(i as int), id as int),
                n <= i,
            decreases self.pending@.len() - i,
        {
            proof {
                lemma_occurrences_take_step(self.pending@, i + 1, id as int);
            }
            if self.pending[i] == id {
                n = n + 1;
            }
            i = i + 1;
        }
        proof {
            assert(self.pending@.take(i as int) =~= self.pending@);
        }
        n
    }

    /// Whether some reference to `id` is held by an owner, not by a pool.
    pub fn has_owner(&self, id: usize) -> (r: bool)
        requires
            self.wf(),
        ensures
            r == self@.has_owner(id),
    {
        id < self.counts.len() && self.counts[id] > self.deferred(id)
    }

    /// Number of objects constructed so far.
    pub fn object_count(&self) -> (r: usize)
        ensures
            r == self@.counts.len(),
    {
        self.counts.len()
    }

    /// Number of open pools.
    pub fn depth(&self) -> (r: usize)
        ensures
            r == self@.marks.len(),
    {
        self.marks.len()
    }

    /// Records a call that changes no reference count and no pool.
    pub(crate) fn issue(&mut self, call: ForeignCall)
        requires
            old(self).wf(),
        ensures
            final(self).wf(),
            final(self)@ == old(self)@.issued(call),
    {
        self.calls.push(call);
    }

    /// Takes over an object the caller obtained from the platform, with the
    /// one reference the caller holds; no object is built.
    pub fn adopt(&mut self) -> (h: NativeHandle)
        requires
            old(self).wf(),
            old(self)@.counts.len() < usize::MAX,
        ensures
            final(self).wf(),
            final(self)@ == old(self)@.constructed(Construction::Existing),
            h@ == old(self)@.counts.len(),
            final(self)@.has_owner(h@),
    {
        self.construct(Construction::Existing)
    }

    /// Constructs a new object and hands back the one reference it starts
    /// with. Building windows and web views goes through their builders,
    /// which check the thread first.
    pub(crate) fn construct(&mut self, what: Construction) -> (h: NativeHandle)
        requires
            old(self).wf(),
            old(self)@.counts.len() < usize::MAX,
        ensures
            final(self).wf(),
            final(self)@ == old(self)@.constructed(what),
            h@ == old(self)@.counts.len(),
            final(self)@.has_owner(h@),
    {
        let id = self.counts.len();
        proof {
            assert forall|i: int| 0 <= i < self.pending@.len() implies self.pending@[i] as int
                != id as int by {}
            lemma_occurrences_absent(self.pending@, id as int);
        }
        self.counts.push(1);
        self.calls.push(ForeignCall::Construct { object: id, what });
        NativeHandle { raw: id, thread_local: PhantomData }
    }

    fn retain(&mut self, id: usize)
        requires
            old(self).wf(),
            old(self)@.is_live(id),
            old(self)@.counts[id as int] < usize::MAX,
        ensures
            final(self).wf(),
            final(self)@ == old(self)@.retained(id),
    {
        let c = self.counts[id];
        self.counts.set(id, c + 1);
        self.calls.push(ForeignCall::Retain(id));
    }

    fn release(&mut self, id: usize)
        requires
            old(self).wf(),
            old(self)@.has_owner(id),
        ensures
            final(self).wf(),
            final(self)@ == old(self)@.released(id),
    {
        let c = self.counts[id];
        self.counts.set(id, c - 1);
        self.calls.push(ForeignCall::Release(id));
    }

    /// Opens a release pool; closing it takes the guard handed back.
    pub fn push_pool(&mut self) -> (g: AutoreleasePool)
        requires
            old(self).wf(),
        ensures
            final(self).wf(),
            final(self)@ == old(self)@.pool_pushed(),
            g@ == old(self)@.marks.len(),
    {
        let depth = self.marks.len();
        let start = self.pending.len();
        self.marks.push(start);
        self.calls.push(ForeignCall::PushPool);
        AutoreleasePool { depth, thread_local: PhantomData }
    }

    /// Closes the innermost pool, which `guard` opened: every release deferred
    /// to it takes effect.
    pub fn pop_pool(&mut self, guard: AutoreleasePool)
        requires
            old(self).wf(),
            old(self)@.marks.len() > 0,
            guard@ == old(self)@.marks.len() - 1,
        ensures
            final(self).wf(),
            final(self)@ == old(self)@.pool_popped(),
    {
        let ghost before = self@;
        let start = self.marks.pop().unwrap();
        assert(start == before.marks.last());
        while self.pending.len() > start
            invariant
                start <= self.pending.len() <= before.pending.len(),
                self.pending@ == before.pending.take(self.pending.len() as int),
                self.counts@.len() == before.counts.len(),
                self.marks@ == before.marks.drop_last(),
                self.calls@ == before.calls,
                before.wf(),
                forall|id: int|
                    0 <= id < self.counts@.len() ==> #[trigger] self.counts@[id] + occurrences(
                        before.pending,
                        id,
                    ) == before.counts[id] + occurrences(self.pending@, id),
            decreases self.pending.len(),
        {
            let ghost k = self.pending.len() as int;
            let e = self.pending.pop().unwrap();
            proof {
                assert(before.pending.take(k - 1) =~= self.pending@);
                assert(e == before.pending[k - 1]);
                lemma_occurrences_take_step(before.pending, k, e as int);
                assert(self.counts@[e as int] + occurrences(before.pending, e as int)
                    == before.counts[e as int] + occurrences(before.pending.take(k), e as int));
                assert(occurrences(before.pending, e as int) <= before.counts[e as int]);
            }
            let c = self.counts[e];
            self.counts.set(e, c - 1);
            proof {
                assert forall|id: int| 0 <= id < self.counts@.len() implies #[trigger] self.counts@[id]
                    + occurrences(before.pending, id) == before.counts[id] + occurrences(
                    self.pending@,
                    id,
                ) by {
                    lemma_occurrences_take_step(before.pending, k, id);
                }
            }
        }
        self.calls.push(ForeignCall::PopPool);
        proof {
            let after = before.pool_popped();
            assert forall|id: int| 0 <= id < self.counts@.len() implies #[trigger] self.counts@[id]
                == after.counts[id] by {
                lemma_occurrences_split(before.pending, start as int, id);
            }
            assert(self.counts@ =~= after.counts);
            assert(self@ == after);
            assert forall|id: int| 0 <= id < self.counts@.len() implies #[trigger] occurrences(
                self.pending@,
                id,
            ) <= self.counts@[id] by {}
            assert forall|i: int| 0 <= i < self.pending@.len() implies self.pending@[i]
                < self.counts@.len() by {
                assert(self.pending@[i] == before.pending[i]);
            }
            assert forall|i: int| 0 <= i < self.marks@.len() implies #[trigger] self.marks@[i]
                <= self.pending@.len() by {
                assert(before.marks[i] <= before.marks[before.marks.len() - 1]);
            }
        }
    }
}

/// Owns one reference to a foreign object, for as long as it lives.
///
/// A handle has no `Clone`: sharing it goes through the runtime, which counts
/// the new reference. Nor does it release on drop, since the release is a
/// change of the runtime it belongs to: end each handle with `release` or
/// `autorelease`, or hand its reference on with `into_raw`; one that is merely
/// dropped keeps its reference for good. A handle stays on the thread that
/// made it: it is neither `Send` nor `Sync`.
#[derive(Debug)]
pub struct NativeHandle {
    raw: usize,
    thread_local: PhantomData<std::rc::Rc<()>>,
}

impl View for NativeHandle {
    type V = usize;

    closed spec fn view(&self) -> usize {
        self.raw
    }
}

impl NativeHandle {
    /// Takes over a reference the caller already owns; nothing is retained.
    pub fn wrap(raw: usize) -> (h: NativeHandle)
        ensures
            h@ == raw,
    {
        NativeHandle { raw, thread_local: PhantomData }
    }

    /// Retains `raw` and owns the new reference, leaving the caller's own
    /// reference, or the pool's, in place.
    pub fn retain_wrap(rt: &mut Runtime, raw: usize) -> (h: NativeHandle)
        requires
            old(rt).wf(),
            old(rt)@.is_live(raw),
            old(rt)@.counts[raw as int] < usize::MAX,
        ensures
            final(rt).wf(),
            final(rt)@ == old(rt)@.retained(raw),
            h@ == raw,
    {
        rt.retain(raw);
        NativeHandle { raw, thread_local: PhantomData }
    }

    /// The reference, which stays owned by `self`.
    pub fn as_raw(&self) -> (r: usize)
        ensures
            r == self@,
    {
        self.raw
    }

    /// Gives up ownership: the caller is now responsible for the reference.
    pub fn into_raw(self) -> (r: usize)
        ensures
            r == self@,
    {
        self.raw
    }

    /// A second owner of the same object; its count goes up by one.
    pub fn clone_in(&self, rt: &mut Runtime) -> (h: NativeHandle)
        requires
            old(rt).wf(),
            old(rt)@.has_owner(self@),
            old(rt)@.counts[self@ as int] < usize::MAX,
        ensures
            final(rt).wf(),
            final(rt)@ == old(rt)@.retained(self@),
            h@ == self@,
    {
        rt.retain(self.raw);
        NativeHandle { raw: self.raw, thread_local: PhantomData }
    }

    /// Ends this owner: the count goes down by one, at once.
    pub fn release(self, rt: &mut Runtime)
        requires
            old(rt).wf(),
            old(rt)@.has_owner(self@),
        ensures
            final(rt).wf(),
            final(rt)@ == old(rt)@.released(self@),
    {
        rt.release(self.raw);
    }

    /// Ends this owner when the innermost pool closes; the object stays live
    /// until then.
    pub fn autorelease(self, rt: &mut Runtime) -> (r: usize)
        requires
            old(rt).wf(),
            old(rt)@.marks.len() > 0,
            old(rt)@.has_owner(self@),
        ensures
            final(rt).wf(),
            final(rt)@ == old(rt)@.autoreleased(self@),
            r == self@,
    {
        let ghost before = rt@;
        proof {
            lemma_occurrences_push(before.pending, self.raw, self.raw as int);
            assert forall|id: int| 0 <= id < before.counts.len() implies #[trigger] occurrences(
                before.pending.push(self.raw),
                id,
            ) <= before.counts[id] by {
                lemma_occurrences_push(before.pending, self.raw, id);
            }
        }
        rt.pending.push(self.raw);
        // Reading the length brings in that it fits in a usize.
        let _len = rt.pending.len();
        rt.calls.push(ForeignCall::Autorelease(self.raw));
        self.raw
    }
}

/// An open release pool, at the depth it was opened at.
///
/// Only `Runtime::push_pool` makes one and only `Runtime::pop_pool` takes it,
/// which requires it to be the innermost pool: pools close in the reverse of
/// the order they opened. Dropping a pool does not close it, since closing is
/// a change of the runtime: end each one with `drain` (or `Runtime::pop_pool`),
/// or let `AutoreleasePool::with` open and close it around a body.
#[derive(Debug)]
pub struct AutoreleasePool {
    depth: usize,
    thread_local: PhantomData<std::rc::Rc<()>>,
}

impl View for AutoreleasePool {
    type V = usize;

    closed spec fn view(&self) -> usize {
        self.depth
    }
}

impl AutoreleasePool {
    /// Opens a release pool in `rt`.
    pub fn new(rt: &mut Runtime) -> (p: AutoreleasePool)
        requires
            old(rt).wf(),
        ensures
            final(rt).wf(),
            final(rt)@ == old(rt)@.pool_pushed(),
            p@ == old(rt)@.marks.len(),
    {
        rt.push_pool()
    }

    /// Closes this pool, which must be the innermost one.
    pub fn drain(self, rt: &mut Runtime)
        requires
            old(rt).wf(),
            old(rt)@.marks.len() > 0,
            self@ == old(rt)@.marks.len() - 1,
        ensures
            final(rt).wf(),
            final(rt)@ == old(rt)@.pool_popped(),
    {
        rt.pop_pool(self);
    }

    /// Runs `body` on `rt` inside a pool of its own, closed once `body`
    /// returns: whatever `body` deferred is released then. `body` must leave
    /// the pools as it found them.
    pub fn with<T, F: FnOnce(Runtime) -> (Runtime, T)>(rt: Runtime, body: F) -> (r: (Runtime, T))
        requires
            rt.wf(),
            forall|inner: Runtime|
                inner@ == rt@.pool_pushed() && inner.wf() ==> #[trigger] body.requires((inner,)),
            forall|inner: Runtime, out: (Runtime, T)|
                #[trigger] body.ensures((inner,), out) ==> out.0.wf() && out.0@.marks
                    == inner@.marks,
        ensures
            r.0.wf(),
            exists|inner: Runtime, out: (Runtime, T)|
                inner@ == rt@.pool_pushed() && #[trigger] body.ensures((inner,), out) && r.0@
                    == out.0@.pool_popped() && r.1 == out.1,
    {
        let mut rt = rt;
        let pool = rt.push_pool();
        let ghost inner = rt;
        let (mut out, value) = body(rt);
        let ghost before = out;
        out.pop_pool(pool);
        proof {
            assert(body.ensures((inner,), (before, value)));
        }
        (out, value)
    }
}

/// `m` after `n` owners of `id` have each released their reference.
pub open spec fn released_times(m: RuntimeModel, id: usize, n: nat) -> RuntimeModel
    decreases n,
{
    if n == 0 {
        m
    } else {
        released_times(m, id, (n - 1) as nat).released(id)
    }
}

proof fn lemma_released_times(m: RuntimeModel, id: usize, n: nat)
    requires
        m.wf(),
        m.is_object(id),
        n + m.deferred(id) <= m.counts[id as int],
    ensures
        released_times(m, id, n).wf(),
        released_times(m, id, n).pending == m.pending,
        released_times(m, id, n).marks == m.marks,
        released_times(m, id, n).counts.len() == m.counts.len(),
        released_times(m, id, n).counts[id as int] == m.counts[id as int] - n,
        forall|j: int|
            0 <= j < m.counts.len() && j != id ==> #[trigger] released_times(m, id, n).counts[j]
                == m.counts[j],
    decreases n,
{
    if n > 0 {
        lemma_released_times(m, id, (n - 1) as nat);
    }
}

/// Sharing a handle and then ending the second owner leaves the first one
/// usable: the object stays owned, with the count it had before, and the two
/// calls issued are one retain and one release.
pub proof fn lemma_clone_then_drop_keeps_first_owner(m: RuntimeModel, id: usize)
    requires
        m.wf(),
        m.has_owner(id),
        m.counts[id as int] < usize::MAX,
    ensures
        m.retained(id).has_owner(id),
        m.retained(id).counts[id as int] == m.counts[id as int] + 1,
        m.retained(id).released(id).has_owner(id),
        m.retained(id).released(id).is_live(id),
        m.retained(id).released(id).counts == m.counts,
        m.retained(id).released(id).pending == m.pending,
        m.retained(id).released(id).marks == m.marks,
        m.retained(id).released(id).calls == m.calls.push(ForeignCall::Retain(id)).push(
            ForeignCall::Release(id),
        ),
{
    assert(m.retained(id).released(id).counts =~= m.counts);
}

/// An object whose references are held by `owners` owners and by the
/// innermost pool is deallocated exactly once once all of them are gone: each
/// owner's release finds a reference it owns, the object stays live until the
/// last reference goes, and after the pool closes its count is zero, so no
/// further release can be issued.
pub proof fn lemma_owners_and_pool_release_once(m: RuntimeModel, id: usize, owners: nat)
    requires
        m.wf(),
        m.marks.len() > 0,
        m.is_object(id),
        m.counts[id as int] == owners + m.deferred(id),
        m.deferred(id) == occurrences(m.top_pool(), id as int),
    ensures
        forall|k: nat| k < owners ==> #[trigger] released_times(m, id, k).has_owner(id),
        forall|k: nat| k < owners ==> #[trigger] released_times(m, id, k).is_live(id),
        released_times(m, id, owners).wf(),
        released_times(m, id, owners).marks == m.marks,
        m.deferred(id) > 0 ==> released_times(m, id, owners).is_live(id),
        released_times(m, id, owners).pool_popped().counts[id as int] == 0,
        !released_times(m, id, owners).pool_popped().is_live(id),
        !released_times(m, id, owners).pool_popped().has_owner(id),
{
    assert forall|k: nat| k < owners implies #[trigger] released_times(m, id, k).has_owner(id) by {
        lemma_released_times(m, id, k);
    }
    assert forall|k: nat| k < owners implies #[trigger] released_times(m, id, k).is_live(id) by {
        lemma_released_times(m, id, k);
    }
    lemma_released_times(m, id, owners);
    let r = released_times(m, id, owners);
    assert(r.top_pool() == m.top_pool());
}

} // verus!
