use vstd::prelude::*;

use crate::device::{DeviceUHD, DeviceView};
use crate::error::SDRResult;

verus! {

/// The driver that enumerates the devices the native library can reach.
pub struct DriverUHD {}

impl DriverUHD {
    pub fn new() -> (r: DriverUHD) {
        DriverUHD {}
    }

    /// The address filter of the native find call: every device.
    pub fn find_args(&self) -> (r: &'static str)
        ensures
            r@ == ""@,
    {
        ""
    }

    /// The devices that a find call reported: on success, one unopened device
    /// per address, in the order found; a failed find is passed on.
    pub fn devices_from(&self, found: SDRResult<()>, addresses: Vec<String>) -> (r: SDRResult<Vec<DeviceUHD>>)
        ensures
            match found {
                Err(e) => r == Err::<Vec<DeviceUHD>, _>(e),
                Ok(()) => r matches Ok(ds) && ds.len() == addresses.len() && forall|i: int|
                    0 <= i < ds.len() ==> {
                        &&& (#[trigger] ds[i]).wf()
                        &&& ds[i]@ == (DeviceView { args: addresses[i]@, handle: None })
                    },
            },
    {
        match found {
            Err(e) => Err(e),
            Ok(()) => {
                let mut out: Vec<DeviceUHD> = Vec::new();
                let mut i: usize = 0;
                while i < addresses.len()
                    invariant
                        i <= addresses.len(),
                        out.len() == i,
                        forall|j: int|
                            0 <= j < i ==> {
                                &&& (#[trigger] out[j]).wf()
                                &&& out[j]@ == (DeviceView { args: addresses[j]@, handle: None })
                            },
                    decreases addresses.len() - i,
                {
                    out.push(DeviceUHD::from_address(addresses[i].clone()));
                    i = i + 1;
                }
                Ok(out)
            },
        }
    }
}

} // verus!
