use vstd::prelude::*;

use crate::error::{SDRError, SDRResult};

verus! {

/// Native status: success.
pub const UHD_ERROR_NONE: i32 = 0;

/// Native status: no such device.
pub const UHD_ERROR_INVALID_DEVICE: i32 = 1;

/// Translates a native status into a result.
///
/// `last_error` fetches the native library's last-error message; it is
/// called only for a status that maps to `Unknown`, never on success.
pub fn handle_uhd_err<F: FnOnce() -> String>(r: i32, last_error: F) -> (res: SDRResult<()>)
    requires
        r != UHD_ERROR_NONE && r != UHD_ERROR_INVALID_DEVICE ==> last_error.requires(()),
    ensures
        match res {
            Ok(()) => r == UHD_ERROR_NONE,
            Err(SDRError::NotFound) => r == UHD_ERROR_INVALID_DEVICE,
            Err(SDRError::Unknown(code, msg)) => {
                &&& code == r
                &&& r != UHD_ERROR_NONE
                &&& r != UHD_ERROR_INVALID_DEVICE
                &&& last_error.ensures((), msg)
            },
            Err(_) => false,
        },
{
    if r == UHD_ERROR_NONE {
        Ok(())
    } else if r == UHD_ERROR_INVALID_DEVICE {
        Err(SDRError::NotFound)
    } else {
        let msg = last_error();
        Err(SDRError::Unknown(r, msg))
    }
}

/// The bytes of a C string held in a fixed buffer: everything before the
/// first NUL, or the whole buffer when it holds none.
pub open spec fn until_nul(b: Seq<u8>) -> Seq<u8>
    decreases b.len(),
{
    if b.len() == 0 {
        b
    } else if b[0] == 0 {
        Seq::empty()
    } else {
        seq![b[0]] + until_nul(b.drop_first())
    }
}

/// What `String::from_utf8_lossy` makes of a byte sequence.
pub uninterp spec fn lossy_utf8(b: Seq<u8>) -> Seq<char>;

/// Relies on `String::from_utf8_lossy`: decodes the bytes, putting U+FFFD in
/// place of each invalid sequence, and never fails.
#[verifier::external_body]
fn lossy_text(b: &[u8]) -> (r: String)
    ensures
        r@ == lossy_utf8(b@),
{
    String::from_utf8_lossy(b).into_owned()
}

/// The bytes of `buf` before its first NUL (all of it when it has none).
pub fn c_string_bytes(buf: &[u8]) -> (r: Vec<u8>)
    ensures
        r@ == until_nul(buf@),
{
    let mut out: Vec<u8> = Vec::new();
    let mut i: usize = 0;
    assert(buf@.subrange(0, 0) + until_nul(buf@.subrange(0, buf@.len() as int)) =~= until_nul(buf@)) by {
        assert(buf@.subrange(0, buf@.len() as int) =~= buf@);
    }
    while i < buf.len() && buf[i] != 0
        invariant
            i <= buf@.len(),
            out@ == buf@.subrange(0, i as int),
            until_nul(buf@) == out@ + until_nul(buf@.subrange(i as int, buf@.len() as int)),
        decreases buf@.len() - i,
    {
        let ghost rest = buf@.subrange(i as int, buf@.len() as int);
        assert(rest.drop_first() =~= buf@.subrange(i + 1, buf@.len() as int));
        out.push(buf[i]);
        assert(out@ =~= buf@.subrange(0, i + 1));
        assert(until_nul(buf@) == out@ + until_nul(buf@.subrange(i + 1, buf@.len() as int))) by {
            assert(seq![buf@[i as int]] + until_nul(rest.drop_first()) == until_nul(rest));
            vstd::seq_lib::lemma_concat_associative(
                buf@.subrange(0, i as int),
                seq![buf@[i as int]],
                until_nul(rest.drop_first()),
            );
        }
        i = i + 1;
    }
    assert(until_nul(buf@.subrange(i as int, buf@.len() as int)) =~= Seq::<u8>::empty());
    assert(until_nul(buf@) =~= out@);
    out
}

/// Decodes a NUL-terminated string from a fixed-size native buffer, lossily:
/// malformed bytes never make it fail.
pub fn decode_c_string(buf: &[u8]) -> (r: String)
    ensures
        r@ == lossy_utf8(until_nul(buf@)),
{
    let bytes = c_string_bytes(buf);
    lossy_text(bytes.as_slice())
}

} // verus!
