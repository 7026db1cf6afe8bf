//! The typed value buffer exchanged with the system registry, and its
//! conversions to and from plain values. The registry itself — keys, handles
//! and the raw value exchange — is an external collaborator and lives with
//! the host plumbing.

use vstd::prelude::*;

use crate::Error;

verus! {

/// Error code for a registry value whose stored type does not match the
/// requested one.
pub const ERROR_INVALID_DATA: u32 = 13;

/// A registry value as stored: a wide string, raw bytes, or a 32- or 64-bit
/// integer.
#[derive(Clone, PartialEq, Eq, Debug)]
pub enum ValueBuf {
    String(Vec<u16>),
    Binary(Vec<u8>),
    Dword(u32),
    Qword(u64),
}

impl From<u32> for ValueBuf {
    fn from(value: u32) -> (r: ValueBuf) {
        ValueBuf::Dword(value)
    }
}

impl vstd::std_specs::convert::FromSpecImpl<u32> for ValueBuf {
    open spec fn obeys_from_spec() -> bool {
        true
    }

    open spec fn from_spec(value: u32) -> ValueBuf {
        ValueBuf::Dword(value)
    }
}

impl From<u64> for ValueBuf {
    fn from(value: u64) -> (r: ValueBuf) {
        ValueBuf::Qword(value)
    }
}

impl vstd::std_specs::convert::FromSpecImpl<u64> for ValueBuf {
    open spec fn obeys_from_spec() -> bool {
        true
    }

    open spec fn from_spec(value: u64) -> ValueBuf {
        ValueBuf::Qword(value)
    }
}

impl From<bool> for ValueBuf {
    fn from(value: bool) -> (r: ValueBuf) {
        ValueBuf::Qword(
            if value {
                1
            } else {
                0
            },
        )
    }
}

impl vstd::std_specs::convert::FromSpecImpl<bool> for ValueBuf {
    open spec fn obeys_from_spec() -> bool {
        true
    }

    open spec fn from_spec(value: bool) -> ValueBuf {
        ValueBuf::Qword(
            if value {
                1
            } else {
                0
            },
        )
    }
}

impl TryFrom<ValueBuf> for u32 {
    type Error = Error;

    fn try_from(value: ValueBuf) -> (r: Result<u32, Error>) {
        if let ValueBuf::Dword(value) = value {
            Ok(value)
        } else {
            Err(Error { code: ERROR_INVALID_DATA })
        }
    }
}

impl vstd::std_specs::convert::TryFromSpecImpl<ValueBuf> for u32 {
    open spec fn obeys_try_from_spec() -> bool {
        true
    }

    open spec fn try_from_spec(value: ValueBuf) -> Result<u32, Error> {
        match value {
            ValueBuf::Dword(value) => Ok(value),
            _ => Err(Error { code: ERROR_INVALID_DATA }),
        }
    }
}

impl TryFrom<ValueBuf> for u64 {
    type Error = Error;

    fn try_from(value: ValueBuf) -> (r: Result<u64, Error>) {
        if let ValueBuf::Qword(value) = value {
            Ok(value)
        } else {
            Err(Error { code: ERROR_INVALID_DATA })
        }
    }
}

impl vstd::std_specs::convert::TryFromSpecImpl<ValueBuf> for u64 {
    open spec fn obeys_try_from_spec() -> bool {
        true
    }

    open spec fn try_from_spec(value: ValueBuf) -> Result<u64, Error> {
        match value {
            ValueBuf::Qword(value) => Ok(value),
            _ => Err(Error { code: ERROR_INVALID_DATA }),
        }
    }
}

impl TryFrom<ValueBuf> for bool {
    type Error = Error;

    fn try_from(value: ValueBuf) -> (r: Result<bool, Error>) {
        match value {
            ValueBuf::Dword(value) => Ok(value != 0),
            ValueBuf::Qword(value) => Ok(value != 0),
            _ => Err(Error { code: ERROR_INVALID_DATA }),
        }
    }
}

impl vstd::std_specs::convert::TryFromSpecImpl<ValueBuf> for bool {
    open spec fn obeys_try_from_spec() -> bool {
        true
    }

    open spec fn try_from_spec(value: ValueBuf) -> Result<bool, Error> {
        match value {
            ValueBuf::Dword(value) => Ok(value != 0),
            ValueBuf::Qword(value) => Ok(value != 0),
            _ => Err(Error { code: ERROR_INVALID_DATA }),
        }
    }
}

} // verus!
