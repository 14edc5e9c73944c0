//! A driver layer for a software-defined radio's native library: device
//! enumeration, opening, and typed transmit and receive streamers. Every
//! native call is made by the caller; this crate decides which calls are due,
//! in what order, and what their outcomes mean.

pub mod device;
pub mod driver;
pub mod error;
pub mod handle;
pub mod rx;
pub mod sample;
pub mod status;
pub mod stream;
pub mod strings;
pub mod tx;

pub use device::{DeviceUHD, USRPHandle};
pub use driver::DriverUHD;
pub use error::{SDRError, SDRResult};
pub use handle::{HandleKind, NativeHandle};
pub use rx::{RxRecv, RxUHD};
pub use sample::SampleType;
pub use status::{decode_c_string, handle_uhd_err};
pub use stream::{CreateRx, CreateTx, Stage, StreamArgs, StreamBuilder, StreamCall};
pub use strings::{UHDStringVector, VectorStep};
pub use tx::{TxSend, TxUHD};
