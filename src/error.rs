use vstd::prelude::*;

verus! {

/// Errors reported by the driver layer.
#[derive(Debug, PartialEq, Eq)]
pub enum SDRError {
    /// A native status that has no kind of its own: the status code and the
    /// native library's last-error message.
    Unknown(i32, String),
    /// The device named by the address arguments does not exist.
    NotFound,
    /// The device has not been opened yet.
    NotOpen,
    /// The operation is not supported in this configuration.
    NotSupport(String),
    /// A caller-supplied argument breaks a precondition: which argument, its
    /// offending value and the limit it broke.
    Param { key: String, value: String, msg: String },
    /// A blocking call ran past its deadline.
    TimeOut,
    /// The receive buffer between host and radio overran.
    Overflow,
}

pub type SDRResult<T> = Result<T, SDRError>;

} // verus!
