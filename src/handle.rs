use vstd::prelude::*;

use crate::error::{SDRError, SDRResult};
use crate::status::{handle_uhd_err, UHD_ERROR_INVALID_DEVICE, UHD_ERROR_NONE};

verus! {

/// Which native resource a handle names; each has its own make and free
/// entry points.
#[derive(Clone, Copy, Debug, PartialEq, Eq, Structural)]
pub enum HandleKind {
    Device,
    TxStreamer,
    RxStreamer,
    RxMetadata,
    TxMetadata,
    StringVector,
}

/// The error that a failed native status `r` turns into, `last_error` being
/// the accessor of the native last-error message.
pub open spec fn translated_error<F: FnOnce() -> String>(r: i32, last_error: F, e: SDRError) -> bool {
    match e {
        SDRError::NotFound => r == UHD_ERROR_INVALID_DEVICE,
        SDRError::Unknown(code, msg) => {
            &&& code == r
            &&& r != UHD_ERROR_NONE
            &&& r != UHD_ERROR_INVALID_DEVICE
            &&& last_error.ensures((), msg)
        },
        _ => false,
    }
}

/// An owned native handle. It cannot be copied: the one owner hands it back
/// through `release` exactly once, for the matching free call.
#[derive(Debug)]
pub struct NativeHandle {
    kind: HandleKind,
    raw: usize,
}

impl View for NativeHandle {
    type V = (HandleKind, usize);

    closed spec fn view(&self) -> (HandleKind, usize) {
        (self.kind, self.raw)
    }
}

/// The handle that `acquire` holds after a make call of `kind` returned the
/// token `raw` with success.
pub open spec fn acquired(kind: HandleKind, raw: usize) -> (HandleKind, usize) {
    (kind, raw)
}

/// The free call that `release` names for the handle `h`.
pub open spec fn free_call_of(h: (HandleKind, usize)) -> HandleCall {
    HandleCall::Free(h.0, h.1)
}

impl NativeHandle {
    /// Takes ownership of the token that a native make call of `kind`
    /// returned with status `status`. On failure no handle is held and the
    /// status is translated.
    pub fn acquire<F: FnOnce() -> String>(kind: HandleKind, status: i32, raw: usize, last_error: F) -> (res:
        SDRResult<NativeHandle>)
        requires
            status != UHD_ERROR_NONE && status != UHD_ERROR_INVALID_DEVICE ==> last_error.requires(()),
        ensures
            match res {
                Ok(h) => status == UHD_ERROR_NONE && h@ == acquired(kind, raw),
                Err(e) => translated_error(status, last_error, e),
            },
    {
        match handle_uhd_err(status, last_error) {
            Ok(()) => Ok(NativeHandle { kind, raw }),
            Err(e) => Err(e),
        }
    }

    pub fn kind(&self) -> (r: HandleKind)
        ensures
            r == self@.0,
    {
        self.kind
    }

    /// The token, to pass to a native call while the handle is held.
    pub fn raw(&self) -> (r: usize)
        ensures
            r == self@.1,
    {
        self.raw
    }

    /// Gives the handle up: the result names the one free call to make.
    pub fn release(self) -> (r: HandleCall)
        ensures
            r == free_call_of(self@),
    {
        HandleCall::Free(self.kind, self.raw)
    }
}

/// A native entry point called on a handle.
#[derive(Clone, Copy, Debug, PartialEq, Eq, Structural)]
pub enum HandleCall {
    Make(HandleKind, usize),
    Free(HandleKind, usize),
}

/// The native calls of a run of acquire-then-release cycles, one for each
/// successful make call in `made` (its kind and the token it returned): the
/// make itself, then the free call that `release` names for the handle that
/// `acquire` made of it.
pub open spec fn cycle_calls(made: Seq<(HandleKind, usize)>) -> Seq<HandleCall>
    decreases made.len(),
{
    if made.len() == 0 {
        Seq::empty()
    } else {
        let h = made.last();
        cycle_calls(made.drop_last()) + seq![HandleCall::Make(h.0, h.1), free_call_of(acquired(h.0, h.1))]
    }
}

pub open spec fn count_makes(calls: Seq<HandleCall>) -> nat
    decreases calls.len(),
{
    if calls.len() == 0 {
        0
    } else {
        count_makes(calls.drop_last()) + if calls.last() is Make { 1nat } else { 0nat }
    }
}

pub open spec fn count_frees(calls: Seq<HandleCall>) -> nat
    decreases calls.len(),
{
    if calls.len() == 0 {
        0
    } else {
        count_frees(calls.drop_last()) + if calls.last() is Free { 1nat } else { 0nat }
    }
}

/// After any number of acquire-then-release cycles the make calls equal the
/// free calls in number, and each free is for the very handle made just
/// before it: none is leaked, none freed twice.
pub proof fn lemma_cycles_balanced(made: Seq<(HandleKind, usize)>)
    ensures
        count_makes(cycle_calls(made)) == made.len(),
        count_frees(cycle_calls(made)) == made.len(),
        cycle_calls(made).len() == 2 * made.len(),
        forall|i: int|
            0 <= i < made.len() ==> {
                &&& cycle_calls(made)[2 * i] == HandleCall::Make(made[i].0, made[i].1)
                &&& cycle_calls(made)[2 * i + 1] == HandleCall::Free(made[i].0, made[i].1)
            },
    decreases made.len(),
{
    if made.len() > 0 {
        let prev = made.drop_last();
        lemma_cycles_balanced(prev);
        let h = made.last();
        let calls = cycle_calls(made);
        let mk = HandleCall::Make(h.0, h.1);
        assert(calls.drop_last() =~= cycle_calls(prev) + seq![mk]);
        assert(calls.drop_last().drop_last() =~= cycle_calls(prev));
        assert(count_makes(calls.drop_last()) == count_makes(cycle_calls(prev)) + 1);
        assert(count_frees(calls.drop_last()) == count_frees(cycle_calls(prev)));
        assert forall|i: int| 0 <= i < made.len() implies {
            &&& cycle_calls(made)[2 * i] == HandleCall::Make(made[i].0, made[i].1)
            &&& cycle_calls(made)[2 * i + 1] == HandleCall::Free(made[i].0, made[i].1)
        } by {
            if i < prev.len() {
                assert(made[i] == prev[i]);
            }
        }
    }
}

} // verus!
