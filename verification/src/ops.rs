//! Opcodes, status codes and the reserved control code.

use vstd::prelude::*;
use vstd::std_specs::convert::TryFromSpecImpl;

verus! {

/// Status of a response whose payload is the value that was asked for.
pub const STATUS_SUCCESS: u32 = 0;

/// Status of a response whose payload is a serialized application error.
pub const STATUS_ERROR: u32 = 1;

/// The control code that tells the receiver loop to end.
pub const RPC_CTL_RECEIVER_SHUTDOWN: u32 = 0;

/// A number that names no variant of the enum it was converted to.
#[derive(Clone, Copy, Debug, PartialEq, Eq, Structural)]
pub struct TryFromError {
    /// The number that was not recognized.
    pub code: u32,
}

/// The two statuses that a response is expected to carry.
#[derive(Clone, Copy, Debug, PartialEq, Eq, Structural)]
pub enum RespStatus {
    /// The call succeeded.
    Success,
    /// The call failed with an application error.
    Error,
}

/// What the status `code` stands for.
pub open spec fn spec_status(code: u32) -> Result<RespStatus, TryFromError> {
    if code == STATUS_SUCCESS {
        Ok(RespStatus::Success)
    } else if code == STATUS_ERROR {
        Ok(RespStatus::Error)
    } else {
        Err(TryFromError { code })
    }
}

impl RespStatus {
    /// The number that stands for this status on the wire.
    pub open spec fn spec_code(self) -> u32 {
        match self {
            RespStatus::Success => STATUS_SUCCESS,
            RespStatus::Error => STATUS_ERROR,
        }
    }

    /// The number that stands for this status on the wire.
    pub fn code(self) -> (code: u32)
        ensures
            code == self.spec_code(),
    {
        match self {
            RespStatus::Success => STATUS_SUCCESS,
            RespStatus::Error => STATUS_ERROR,
        }
    }
}

impl TryFrom<u32> for RespStatus {
    type Error = TryFromError;

    fn try_from(code: u32) -> (ret: Result<Self, TryFromError>) {
        if code == STATUS_SUCCESS {
            Ok(RespStatus::Success)
        } else if code == STATUS_ERROR {
            Ok(RespStatus::Error)
        } else {
            Err(TryFromError { code })
        }
    }
}

impl TryFromSpecImpl<u32> for RespStatus {
    open spec fn obeys_try_from_spec() -> bool {
        true
    }

    open spec fn try_from_spec(code: u32) -> Result<Self, TryFromError> {
        spec_status(code)
    }
}

/// The serialization path of a request, which its opcode selects.
#[derive(Clone, Copy, Debug, PartialEq, Eq, PartialOrd, Ord, Structural)]
pub enum RpcOps {
    /// The payload is passed through as it is.
    Raw,
    /// The payload is Borsh encoded.
    Borsh,
    /// The payload is Serde encoded.
    Serde,
    /// The payload is in an encoding of the application's own.
    User,
}

/// What the opcode `code` stands for.
pub open spec fn spec_ops(code: u32) -> Result<RpcOps, TryFromError> {
    if code == 0 {
        Ok(RpcOps::Raw)
    } else if code == 1 {
        Ok(RpcOps::Borsh)
    } else if code == 2 {
        Ok(RpcOps::Serde)
    } else if code == 0xff {
        Ok(RpcOps::User)
    } else {
        Err(TryFromError { code })
    }
}

impl RpcOps {
    /// The opcode that stands for this operation on the wire.
    pub open spec fn spec_code(self) -> u32 {
        match self {
            RpcOps::Raw => 0,
            RpcOps::Borsh => 1,
            RpcOps::Serde => 2,
            RpcOps::User => 0xff,
        }
    }

    /// The opcode that stands for this operation on the wire.
    pub fn code(self) -> (code: u32)
        ensures
            code == self.spec_code(),
    {
        match self {
            RpcOps::Raw => 0,
            RpcOps::Borsh => 1,
            RpcOps::Serde => 2,
            RpcOps::User => 0xff,
        }
    }
}

impl TryFrom<u32> for RpcOps {
    type Error = TryFromError;

    fn try_from(code: u32) -> (ret: Result<Self, TryFromError>) {
        if code == 0 {
            Ok(RpcOps::Raw)
        } else if code == 1 {
            Ok(RpcOps::Borsh)
        } else if code == 2 {
            Ok(RpcOps::Serde)
        } else if code == 0xff {
            Ok(RpcOps::User)
        } else {
            Err(TryFromError { code })
        }
    }
}

impl TryFromSpecImpl<u32> for RpcOps {
    open spec fn obeys_try_from_spec() -> bool {
        true
    }

    open spec fn try_from_spec(code: u32) -> Result<Self, TryFromError> {
        spec_ops(code)
    }
}

/// An operation is recognized by its own opcode, and a recognized opcode is
/// that of the operation it stands for.
pub proof fn lemma_ops_round_trip(op: RpcOps, code: u32)
    ensures
        spec_ops(op.spec_code()) matches Ok(found) && found == op,
        spec_ops(code) matches Ok(found) ==> found.spec_code() == code,
{
}

/// A status is recognized by its own number, and a recognized number is that
/// of the status it stands for.
pub proof fn lemma_status_round_trip(status: RespStatus, code: u32)
    ensures
        spec_status(status.spec_code()) matches Ok(found) && found == status,
        spec_status(code) matches Ok(found) ==> found.spec_code() == code,
{
}

} // verus!
