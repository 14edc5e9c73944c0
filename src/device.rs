use vstd::prelude::*;

use crate::error::{SDRError, SDRResult};
use crate::handle::{HandleKind, NativeHandle};

verus! {

/// The native device behind a `DeviceUHD`: none until the device is opened.
pub struct USRPHandle {
    handle: Option<NativeHandle>,
}

impl View for USRPHandle {
    type V = Option<usize>;

    closed spec fn view(&self) -> Option<usize> {
        match self.handle {
            Some(h) => Some(h@.1),
            None => None,
        }
    }
}

impl USRPHandle {
    pub closed spec fn wf(&self) -> bool {
        match self.handle {
            Some(h) => h@.0 == HandleKind::Device,
            None => true,
        }
    }
}

/// What a caller can observe of a device: its address arguments and, once
/// opened, the native device token.
pub struct DeviceView {
    pub args: Seq<char>,
    pub handle: Option<usize>,
}

/// One device found by enumeration, named by its address arguments.
pub struct DeviceUHD {
    args: String,
    usrp: USRPHandle,
}

impl View for DeviceUHD {
    type V = DeviceView;

    closed spec fn view(&self) -> DeviceView {
        DeviceView { args: self.args@, handle: self.usrp@ }
    }
}

/// Whether an `open` on a device in state `d` has to call the native make
/// entry point.
pub open spec fn open_call_due(d: DeviceView) -> bool {
    d.handle is None
}

/// The device after a make call for it returned the token `h`.
pub open spec fn opened_with(d: DeviceView, h: usize) -> DeviceView {
    DeviceView { args: d.args, handle: Some(h) }
}

/// The state after one `open` whose make call, if one is due, returns `h`.
pub open spec fn after_open(d: DeviceView, h: usize) -> DeviceView {
    if open_call_due(d) {
        opened_with(d, h)
    } else {
        d
    }
}

/// What a control-plane or streaming operation gets from a device: its native
/// token, or `NotOpen` when there is none to call with.
pub open spec fn usrp_of(d: DeviceView) -> SDRResult<usize> {
    match d.handle {
        Some(h) => Ok(h),
        None => Err(SDRError::NotOpen),
    }
}

impl DeviceUHD {
    pub closed spec fn wf(&self) -> bool {
        self.usrp.wf()
    }

    /// An unopened device for the address arguments that enumeration found.
    pub fn from_address(args: String) -> (r: DeviceUHD)
        ensures
            r.wf(),
            r@ == (DeviceView { args: args@, handle: None }),
    {
        DeviceUHD { args, usrp: USRPHandle { handle: None } }
    }

    /// The device as text: its address arguments.
    pub fn to_display(&self) -> (r: String)
        ensures
            r@ == self@.args,
    {
        self.args.clone()
    }

    /// The address arguments that the native make call takes.
    pub fn args(&self) -> (r: &str)
        ensures
            r@ == self@.args,
    {
        self.args.as_str()
    }

    pub fn is_open(&self) -> (r: bool)
        ensures
            r == (self@.handle is Some),
    {
        self.usrp.handle.is_some()
    }

    /// The native device token for one control-plane or streaming call;
    /// `NotOpen` before the device is opened, so that no native call is made.
    pub fn use_usrp(&self) -> (r: SDRResult<usize>)
        ensures
            r == usrp_of(self@),
    {
        match &self.usrp.handle {
            Some(h) => Ok(h.raw()),
            None => Err(SDRError::NotOpen),
        }
    }

    /// The first half of `open`: the address arguments for the native make
    /// call when one is due, `None` when the device is open already (a second
    /// `open` is a no-op, not an error).
    pub fn open_call(&self) -> (r: Option<String>)
        ensures
            r is Some <==> open_call_due(self@),
            r matches Some(a) ==> a@ == self@.args,
    {
        if self.usrp.handle.is_none() {
            Some(self.args.clone())
        } else {
            None
        }
    }

    /// The second half of `open`: stores the device handle that the make call
    /// produced, or hands its error back and leaves the device unopened.
    pub fn open_complete(&mut self, made: SDRResult<NativeHandle>) -> (r: SDRResult<()>)
        requires
            old(self).wf(),
            open_call_due(old(self)@),
            made matches Ok(h) ==> h@.0 == HandleKind::Device,
        ensures
            final(self).wf(),
            match made {
                Ok(h) => r is Ok && final(self)@ == opened_with(old(self)@, h@.1),
                Err(e) => r == Err::<(), SDRError>(e) && final(self)@ == old(self)@,
            },
    {
        match made {
            Ok(h) => {
                self.usrp.handle = Some(h);
                Ok(())
            },
            Err(e) => Err(e),
        }
    }

    /// Gives the device up: the native device handle to free, if it was
    /// opened.
    pub fn release(self) -> (r: Option<NativeHandle>)
        requires
            self.wf(),
        ensures
            r matches Some(h) ==> h@ == (HandleKind::Device, self@.handle->0),
            r is Some <==> self@.handle is Some,
    {
        self.usrp.handle
    }
}

/// The number of native make calls that `open` issues twice in a row: one
/// when the device starts unopened and the first make succeeds.
pub open spec fn makes_for_two_opens(d: DeviceView, h: usize) -> nat {
    (if open_call_due(d) { 1nat } else { 0nat }) + (if open_call_due(after_open(d, h)) { 1nat } else { 0nat })
}

/// Opening an unopened device twice calls the native make entry point exactly
/// once; and before it is opened, every control-plane call fails with
/// `NotOpen` without a native token to call with.
pub proof fn lemma_open_twice_one_make(d: DeviceView, h: usize)
    requires
        d.handle is None,
    ensures
        makes_for_two_opens(d, h) == 1,
        after_open(after_open(d, h), h) == opened_with(d, h),
        usrp_of(d) == Err::<usize, SDRError>(SDRError::NotOpen),
        usrp_of(after_open(d, h)) == Ok::<usize, SDRError>(h),
{
}

} // verus!
