use vstd::prelude::*;
use crate::runtime::{Construction, NativeHandle, Runtime};

verus! {

/// An immutable text value of the targeted platform, equivalent to a UTF-8
/// string, backed by a foreign string it owns one reference to.
///
/// Like every handle it is ended with `release`; the text stays readable
/// through `as_utf8_temp` for as long as the value is borrowed.
#[derive(Debug)]
pub struct ZedString {
    handle: NativeHandle,
    text: String,
}

/// The platform's string type, under the name the platform layer uses.
pub type PlatformString = ZedString;

impl View for ZedString {
    type V = Seq<char>;

    closed spec fn view(&self) -> Seq<char> {
        self.text@
    }
}

impl ZedString {
    /// The text, as the string that holds it.
    pub closed spec fn utf8(&self) -> String {
        self.text
    }

    /// The reference to the foreign string.
    pub closed spec fn object(&self) -> usize {
        self.handle@
    }

    /// The string that holds the text has the text as its view.
    pub proof fn lemma_utf8_view(&self)
        ensures
            self.utf8()@ == self@,
    {
    }

    /// Allocates a new foreign string holding `s`; the value handed back owns
    /// its one reference.
    pub fn from_utf8(rt: &mut Runtime, s: &str) -> (r: Self)
        requires
            old(rt).wf(),
            old(rt)@.counts.len() < usize::MAX,
        ensures
            final(rt).wf(),
            final(rt)@ == old(rt)@.constructed(Construction::String { text: r.utf8() }),
            r@ == s@,
            r.object() == old(rt)@.counts.len(),
            final(rt)@.counts[r.object() as int] == 1,
            final(rt)@.has_owner(r.object()),
    {
        let text = s.to_owned();
        let handle = rt.construct(Construction::String { text: text.clone() });
        ZedString { handle, text }
    }

    /// The handle to the foreign string.
    pub fn handle(&self) -> (h: &NativeHandle)
        ensures
            h@ == self.object(),
    {
        &self.handle
    }

    /// Returns a view of the text that lives as long as the borrow of `self`.
    pub fn as_utf8_temp(&self) -> (r: &str)
        ensures
            r@ == self@,
    {
        self.text.as_str()
    }

    /// Returns `self` encoded as UTF-8, in a buffer of its own.
    pub fn to_utf8(&self) -> (r: String)
        ensures
            r@ == self@,
            r == self.utf8(),
    {
        self.text.clone()
    }

    /// Ends this value, releasing its reference to the foreign string.
    pub fn release(self, rt: &mut Runtime)
        requires
            old(rt).wf(),
            old(rt)@.has_owner(self.object()),
        ensures
            final(rt).wf(),
            final(rt)@ == old(rt)@.released(self.object()),
    {
        self.handle.release(rt);
    }
}

} // verus!
