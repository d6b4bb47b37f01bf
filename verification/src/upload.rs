//! Exact buffer uploads: a write counts only if every byte arrived.
use vstd::prelude::*;

verus! {

/// Why an upload did not complete.
#[derive(Clone, Copy, Debug, PartialEq, Eq, Structural)]
pub enum UploadError {
    /// The destination offset does not fit in `usize`.
    OffsetUnsupported,
    /// The device accepted fewer bytes than were written.
    ShortWrite,
    /// The device refused the write with this status.
    Device(i32),
}

/// The buffer offset of an upload as the device takes it.
pub fn write_offset(offset: u64) -> (result: Result<usize, UploadError>)
    ensures
        result is Ok <==> offset <= usize::MAX,
        result matches Ok(o) ==> o == offset,
        result is Err ==> result == Err::<usize, UploadError>(UploadError::OffsetUnsupported),
{
    if offset <= usize::MAX as u64 {
        Ok(offset as usize)
    } else {
        Err(UploadError::OffsetUnsupported)
    }
}

/// The outcome of a device write of `expected` bytes that reported `written`.
pub fn check_written(written: Result<usize, i32>, expected: usize) -> (result: Result<(), UploadError>)
    ensures
        result is Ok <==> written == Ok::<usize, i32>(expected),
        written matches Err(code) ==> result == Err::<(), UploadError>(UploadError::Device(code)),
        written matches Ok(n) && n != expected ==> result == Err::<(), UploadError>(
            UploadError::ShortWrite,
        ),
{
    match written {
        Ok(n) => if n == expected {
            Ok(())
        } else {
            Err(UploadError::ShortWrite)
        },
        Err(code) => Err(UploadError::Device(code)),
    }
}

} // verus!
