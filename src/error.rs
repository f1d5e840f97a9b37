use vstd::prelude::*;

verus! {

/// The source byte of a native status code that marks an error reported by
/// the server while executing a request.
pub const SOURCE_SERVER: u32 = 2;

/// Native status: success.
pub const STATUS_OK: u32 = 0;

/// Native status: a value could not be encoded (library code 4).
pub const STATUS_MESSAGE_ENCODE: u32 = 0x0100_0004;

/// Native status: an index lay outside the valid range (library code 11).
pub const STATUS_INDEX_OUT_OF_BOUNDS: u32 = 0x0100_000B;

/// Native status: a value had the wrong type for its slot (library code 13).
pub const STATUS_INVALID_VALUE_TYPE: u32 = 0x0100_000D;

/// The closed set of errors that this layer reports.
#[derive(Debug, Clone, Copy, PartialEq, Eq, Structural)]
pub enum CassError {
    /// A value cannot be represented in the native type it is bound for.
    EncodingError,
    /// The value's type conflicts with the declared type of its slot.
    TypeMismatch,
    /// The collection was already handed to a statement binder.
    AlreadyBound,
    /// A metadata lookup used an index out of range.
    IndexError,
    /// A row cursor was read while it stood on no row.
    InvalidState,
    /// The server failed the request; the native status code is kept.
    ExecutionError(u32),
    /// A native status code that this layer does not recognise.
    Unknown(u32),
}

/// The source part (top byte) of a native status code.
pub open spec fn status_source(code: u32) -> u32 {
    code / 0x0100_0000
}

/// What a native status code means: `None` for success, else its error.
pub open spec fn status_error(code: u32) -> Option<CassError> {
    if code == STATUS_OK {
        None
    } else if code == STATUS_MESSAGE_ENCODE {
        Some(CassError::EncodingError)
    } else if code == STATUS_INDEX_OUT_OF_BOUNDS {
        Some(CassError::IndexError)
    } else if code == STATUS_INVALID_VALUE_TYPE {
        Some(CassError::TypeMismatch)
    } else if status_source(code) == SOURCE_SERVER {
        Some(CassError::ExecutionError(code))
    } else {
        Some(CassError::Unknown(code))
    }
}

impl CassError {
    /// Maps a native status code onto this layer's errors. The mapping is
    /// total: every code other than success yields exactly one error, and
    /// codes not otherwise known are kept in `Unknown`.
    pub fn build(code: u32) -> (r: Result<(), CassError>)
        ensures
            r == (match status_error(code) {
                None => Ok(()),
                Some(e) => Err(e),
            }),
            r is Ok <==> code == STATUS_OK,
    {
        if code == STATUS_OK {
            Ok(())
        } else if code == STATUS_MESSAGE_ENCODE {
            Err(CassError::EncodingError)
        } else if code == STATUS_INDEX_OUT_OF_BOUNDS {
            Err(CassError::IndexError)
        } else if code == STATUS_INVALID_VALUE_TYPE {
            Err(CassError::TypeMismatch)
        } else if code / 0x0100_0000 == SOURCE_SERVER {
            Err(CassError::ExecutionError(code))
        } else {
            Err(CassError::Unknown(code))
        }
    }
}

} // verus!
