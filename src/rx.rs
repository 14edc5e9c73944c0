use vstd::prelude::*;

use std::marker::PhantomData;

use num::Complex;

use crate::error::{SDRError, SDRResult};
use crate::handle::{HandleKind, NativeHandle};

verus! {

/// Receive metadata error code: no error.
pub const RX_METADATA_ERROR_CODE_NONE: i32 = 0x0;

/// Receive metadata error code: no packet arrived before the timeout.
pub const RX_METADATA_ERROR_CODE_TIMEOUT: i32 = 0x1;

/// Receive metadata error code: the host could not keep up with the radio.
pub const RX_METADATA_ERROR_CODE_OVERFLOW: i32 = 0x8;

/// A receive streamer of complex samples with components of type `T`; it
/// holds its streamer and the metadata handle that each receive reports
/// into.
pub struct RxUHD<T> {
    streamer: NativeHandle,
    sample_num_max: usize,
    md: NativeHandle,
    _t: PhantomData<T>,
}

/// The one native receive call that `recv` issues.
#[derive(Clone, Copy, Debug, PartialEq, Eq, Structural)]
pub struct RxRecv {
    pub streamer: usize,
    pub metadata: usize,
    /// The buffer to receive into holds this many samples.
    pub capacity: usize,
    pub one_packet: bool,
}

/// Whether `r` is the outcome of a receive whose native call succeeded with
/// `filled` samples in `buf` and metadata error code `code`.
pub open spec fn is_recv_outcome<T>(
    buf: Seq<Complex<T>>,
    filled: nat,
    code: i32,
    r: SDRResult<Vec<Complex<T>>>,
) -> bool {
    if code == RX_METADATA_ERROR_CODE_NONE {
        r matches Ok(v) && v@ == buf.subrange(0, filled as int)
    } else if code == RX_METADATA_ERROR_CODE_OVERFLOW {
        r matches Err(SDRError::Overflow)
    } else if code == RX_METADATA_ERROR_CODE_TIMEOUT {
        r matches Err(SDRError::TimeOut)
    } else {
        r matches Err(SDRError::Unknown(c, m)) && c == code && m@ == "recv fail: uhd meta"@
    }
}

impl<T> RxUHD<T> {
    pub closed spec fn streamer_token(&self) -> usize {
        self.streamer@.1
    }

    pub closed spec fn metadata_token(&self) -> usize {
        self.md@.1
    }

    /// The most samples one native receive call delivers; fixed at creation.
    pub closed spec fn max_samples(&self) -> usize {
        self.sample_num_max
    }

    pub closed spec fn wf(&self) -> bool {
        &&& self.streamer@.0 == HandleKind::RxStreamer
        &&& self.md@.0 == HandleKind::RxMetadata
    }

    pub(crate) fn from_parts(streamer: NativeHandle, md: NativeHandle, sample_num_max: usize) -> (r: RxUHD<T>)
        requires
            streamer@.0 == HandleKind::RxStreamer,
            md@.0 == HandleKind::RxMetadata,
        ensures
            r.wf(),
            r.streamer_token() == streamer@.1,
            r.metadata_token() == md@.1,
            r.max_samples() == sample_num_max,
    {
        RxUHD { streamer, sample_num_max, md, _t: PhantomData }
    }

    /// The most samples one native receive call delivers.
    pub fn sample_num_max(&self) -> (r: usize)
        ensures
            r == self.max_samples(),
    {
        self.sample_num_max
    }

    /// The first half of `recv`: one native receive into a buffer of exactly
    /// `sample_num_max` samples, not limited to one packet.
    pub fn recv_plan(&self) -> (r: RxRecv)
        ensures
            r == (RxRecv {
                streamer: self.streamer_token(),
                metadata: self.metadata_token(),
                capacity: self.max_samples(),
                one_packet: false,
            }),
    {
        RxRecv {
            streamer: self.streamer.raw(),
            metadata: self.md.raw(),
            capacity: self.sample_num_max,
            one_packet: false,
        }
    }

    /// The second half of `recv`: the native call's translated status, the
    /// number of samples it filled into `buf`, and the error code it left in
    /// the metadata. A failed call passes its error on; otherwise the code
    /// decides: none gives the filled samples, overflow and timeout their own
    /// errors, any other code an `Unknown` error that carries it. The buffer
    /// is dropped on every error.
    pub fn recv_complete(
        &self,
        status: SDRResult<()>,
        filled: usize,
        buf: Vec<Complex<T>>,
        code: i32,
    ) -> (r: SDRResult<Vec<Complex<T>>>)
        requires
            filled <= buf.len(),
        ensures
            match status {
                Err(e) => r == Err::<Vec<Complex<T>>, SDRError>(e),
                Ok(()) => is_recv_outcome(buf@, filled as nat, code, r),
            },
    {
        match status {
            Err(e) => Err(e),
            Ok(()) => {
                if code == RX_METADATA_ERROR_CODE_NONE {
                    let mut buf = buf;
                    buf.truncate(filled);
                    Ok(buf)
                } else if code == RX_METADATA_ERROR_CODE_OVERFLOW {
                    Err(SDRError::Overflow)
                } else if code == RX_METADATA_ERROR_CODE_TIMEOUT {
                    Err(SDRError::TimeOut)
                } else {
                    Err(SDRError::Unknown(code, "recv fail: uhd meta".to_owned()))
                }
            },
        }
    }

    /// Gives the streamer up: its streamer and metadata handles, to free.
    pub fn release(self) -> (r: (NativeHandle, NativeHandle))
        requires
            self.wf(),
        ensures
            r.0@ == (HandleKind::RxStreamer, self.streamer_token()),
            r.1@ == (HandleKind::RxMetadata, self.metadata_token()),
    {
        (self.streamer, self.md)
    }
}

} // verus!
