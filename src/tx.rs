use vstd::prelude::*;

use std::marker::PhantomData;

use num::Complex;

use crate::error::{SDRError, SDRResult};
use crate::handle::{HandleKind, NativeHandle};
use crate::sample::{decimal_text, labelled_decimal};

verus! {

/// A transmit streamer of complex samples with components of type `T`.
pub struct TxUHD<T> {
    streamer: NativeHandle,
    sample_num_max: usize,
    _t: PhantomData<T>,
}

/// The one native send call that `send` issues, with the metadata it makes
/// for it.
#[derive(Clone, Copy, Debug, PartialEq, Eq, Structural)]
pub struct TxSend {
    pub streamer: usize,
    pub len: usize,
    pub has_time_spec: bool,
    pub start_of_burst: bool,
    pub end_of_burst: bool,
}

/// The error for a send buffer of `len` samples against a limit of `max`.
pub open spec fn is_too_long_error(e: SDRError, len: nat, max: nat) -> bool {
    match e {
        SDRError::Param { key, value, msg } => {
            &&& key@ == "v"@
            &&& value@ == "len()="@ + decimal_text(len)
            &&& msg@ == "> max: "@ + decimal_text(max)
        },
        _ => false,
    }
}

impl<T> TxUHD<T> {
    /// The native transmit streamer token.
    pub closed spec fn streamer_token(&self) -> usize {
        self.streamer@.1
    }

    /// The most samples one native send call takes; fixed at creation.
    pub closed spec fn max_samples(&self) -> usize {
        self.sample_num_max
    }

    pub closed spec fn wf(&self) -> bool {
        self.streamer@.0 == HandleKind::TxStreamer
    }

    pub(crate) fn from_parts(streamer: NativeHandle, sample_num_max: usize) -> (r: TxUHD<T>)
        requires
            streamer@.0 == HandleKind::TxStreamer,
        ensures
            r.wf(),
            r.streamer_token() == streamer@.1,
            r.max_samples() == sample_num_max,
    {
        TxUHD { streamer, sample_num_max, _t: PhantomData }
    }

    /// The most samples one native send call takes.
    pub fn sample_num_max(&self) -> (r: usize)
        ensures
            r == self.max_samples(),
    {
        self.sample_num_max
    }

    /// The first half of `send`: refuses a buffer longer than
    /// `sample_num_max` with a `Param` error, so that no native call is made
    /// (callers chunk their data themselves); otherwise names the one native
    /// send call, for the whole buffer, with fresh metadata that marks the end
    /// of a burst and carries no time.
    pub fn send_plan(&self, v: &[Complex<T>]) -> (r: SDRResult<TxSend>)
        ensures
            v.len() > self.max_samples() <==> r is Err,
            r matches Err(e) ==> is_too_long_error(e, v.len() as nat, self.max_samples() as nat),
            r matches Ok(s) ==> s == (TxSend {
                streamer: self.streamer_token(),
                len: v.len(),
                has_time_spec: false,
                start_of_burst: false,
                end_of_burst: true,
            }),
    {
        let data_len = v.len();
        if data_len > self.sample_num_max {
            return Err(
                SDRError::Param {
                    key: "v".to_owned(),
                    value: labelled_decimal("len()=", data_len),
                    msg: labelled_decimal("> max: ", self.sample_num_max),
                },
            );
        }
        Ok(
            TxSend {
                streamer: self.streamer.raw(),
                len: data_len,
                has_time_spec: false,
                start_of_burst: false,
                end_of_burst: true,
            },
        )
    }

    /// Gives the streamer up: the handle to free.
    pub fn release(self) -> (r: NativeHandle)
        requires
            self.wf(),
        ensures
            r@ == (HandleKind::TxStreamer, self.streamer_token()),
    {
        self.streamer
    }
}

} // verus!
