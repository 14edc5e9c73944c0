use vstd::prelude::*;

use crate::status::{decode_c_string, lossy_utf8, until_nul};

verus! {

/// Size of the scratch buffer that one element of a native string list is
/// copied into.
pub const STRING_BUFFER_LEN: usize = 1024;

/// Where an enumeration stands: the list size once queried, and how many
/// elements were taken.
pub struct StringVectorView {
    pub size: Option<usize>,
    pub index: usize,
    pub ptr: usize,
}

/// The native call that advancing an enumeration needs next.
#[derive(Clone, Copy, Debug, PartialEq, Eq, Structural)]
pub enum VectorStep {
    /// Query the list size (done once, on the first advance).
    QuerySize { ptr: usize },
    /// Copy element `index` into a scratch buffer.
    Fetch { ptr: usize, index: usize },
    /// The list is exhausted; it stays so.
    Done,
}

/// A one-pass enumeration over a native string list.
pub struct UHDStringVector {
    size: Option<usize>,
    index: usize,
    ptr: usize,
}

impl View for UHDStringVector {
    type V = StringVectorView;

    closed spec fn view(&self) -> StringVectorView {
        StringVectorView { size: self.size, index: self.index, ptr: self.ptr }
    }
}

pub open spec fn vector_wf(v: StringVectorView) -> bool {
    match v.size {
        Some(n) => v.index <= n,
        None => v.index == 0,
    }
}

/// The step that advancing from `v` takes.
pub open spec fn step_of(v: StringVectorView) -> VectorStep {
    match v.size {
        None => VectorStep::QuerySize { ptr: v.ptr },
        Some(n) => if v.index < n {
            VectorStep::Fetch { ptr: v.ptr, index: v.index }
        } else {
            VectorStep::Done
        },
    }
}

/// The state after taking one fetched element.
pub open spec fn after_take(v: StringVectorView) -> StringVectorView {
    StringVectorView { index: (v.index + 1) as usize, ..v }
}

/// The state after the `QuerySize` step reported `n` elements.
pub open spec fn after_size(v: StringVectorView, n: usize) -> StringVectorView {
    StringVectorView { size: Some(n), ..v }
}

/// The state of an enumeration over a list of `k` elements after `i` were
/// taken.
pub open spec fn taken(ptr: usize, k: usize, i: usize) -> StringVectorView {
    StringVectorView { size: Some(k), index: i, ptr }
}

impl UHDStringVector {
    /// A fresh enumeration over the native list `ptr`; its size is not
    /// queried yet.
    pub fn new(ptr: usize) -> (r: UHDStringVector)
        ensures
            r@ == (StringVectorView { size: None, index: 0, ptr }),
    {
        UHDStringVector { size: None, index: 0, ptr }
    }

    /// The list handle, for a native call that fills the list.
    pub fn as_mut_ptr(&mut self) -> (r: &mut usize)
        ensures
            *r == old(self)@.ptr,
            final(self)@ == (StringVectorView { ptr: *final(r), ..old(self)@ }),
    {
        &mut self.ptr
    }

    /// The native call that the next advance needs.
    pub fn next_step(&self) -> (r: VectorStep)
        ensures
            r == step_of(self@),
    {
        match self.size {
            None => VectorStep::QuerySize { ptr: self.ptr },
            Some(n) => if self.index < n {
                VectorStep::Fetch { ptr: self.ptr, index: self.index }
            } else {
                VectorStep::Done
            },
        }
    }

    /// Records the size that the `QuerySize` step reported.
    pub fn set_size(&mut self, n: usize)
        requires
            old(self)@.size is None,
            vector_wf(old(self)@),
        ensures
            final(self)@ == after_size(old(self)@, n),
            vector_wf(final(self)@),
    {
        self.size = Some(n);
    }

    /// Takes the element that the `Fetch` step copied into `buf`: the text
    /// before its first NUL, decoded lossily.
    pub fn take(&mut self, buf: &[u8]) -> (r: String)
        requires
            vector_wf(old(self)@),
            step_of(old(self)@) is Fetch,
        ensures
            final(self)@ == after_take(old(self)@),
            vector_wf(final(self)@),
            r@ == lossy_utf8(until_nul(buf@)),
    {
        self.index = self.index + 1;
        decode_c_string(buf)
    }

    /// Gives the list up: the handle to free, however many elements were
    /// taken.
    pub fn release(self) -> (r: usize)
        ensures
            r == self@.ptr,
    {
        self.ptr
    }
}

/// An enumeration over `k` elements, once sized, fetches the elements in
/// index order, one per advance, and then reports `Done` from then on.
pub proof fn lemma_enumeration_order(ptr: usize, k: usize)
    ensures
        step_of(StringVectorView { size: None, index: 0, ptr }) == (VectorStep::QuerySize { ptr }),
        after_size(StringVectorView { size: None, index: 0, ptr }, k) == taken(ptr, k, 0),
        forall|i: usize| i < k ==> step_of(#[trigger] taken(ptr, k, i)) == (VectorStep::Fetch { ptr, index: i }),
        forall|i: usize| i < k ==> after_take(#[trigger] taken(ptr, k, i)) == taken(ptr, k, (i + 1) as usize),
        step_of(taken(ptr, k, k)) == VectorStep::Done,
{
}

/// The state after one advance from `v`; `n` is what the size query answers
/// when that is the step taken.
pub open spec fn advance(v: StringVectorView, n: usize) -> StringVectorView {
    match step_of(v) {
        VectorStep::QuerySize { .. } => after_size(v, n),
        VectorStep::Fetch { .. } => after_take(v),
        VectorStep::Done => v,
    }
}

/// The state after one advance per entry of `answers`, from `v`.
pub open spec fn advance_all(v: StringVectorView, answers: Seq<usize>) -> StringVectorView
    decreases answers.len(),
{
    if answers.len() == 0 {
        v
    } else {
        advance(advance_all(v, answers.drop_last()), answers.last())
    }
}

/// However many advances an enumeration makes, none or past the end
/// included, it stays well formed and keeps the list handle it was made with:
/// `release` then names that handle, for its one free call.
pub proof fn lemma_advances_keep_handle(ptr: usize, answers: Seq<usize>)
    ensures
        advance_all(StringVectorView { size: None, index: 0, ptr }, answers).ptr == ptr,
        vector_wf(advance_all(StringVectorView { size: None, index: 0, ptr }, answers)),
    decreases answers.len(),
{
    if answers.len() > 0 {
        lemma_advances_keep_handle(ptr, answers.drop_last());
    }
}

} // verus!
