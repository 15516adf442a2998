//! The status of a command: what it means, and what kind of failure it names.
//!
//! The module answers every command with a 32-bit status. Zero is success;
//! anything else becomes an [`Error::Tss2Error`] that carries the status
//! unchanged. The classification into [`ResponseCodeKind`] is informational
//! and never alters what a command returns.
use vstd::prelude::*;

verus! {

/// The status with which the module reports success.
pub const TSS2_RC_SUCCESS: u32 = 0;

/// A code of the module itself fits twelve bits. A status from this value up
/// is not one of them: the software layers above the module mark theirs in the
/// higher bits.
pub const TPM2_RC_LIMIT: u32 = 0x1000;

/// Bit 7 of a module status: set for a format-one code.
pub const TPM2_RC_FMT1: u32 = 0x080;

/// Format-one codes: the error number sits in bits 0 to 5; the bits above bit
/// 7 name the parameter, handle or session at fault.
pub const TPM2_RC_ATTRIBUTES: u32 = 0x082;

pub const TPM2_RC_HANDLE: u32 = 0x08B;

pub const TPM2_RC_AUTH_FAIL: u32 = 0x08E;

pub const TPM2_RC_POLICY_FAIL: u32 = 0x09D;

pub const TPM2_RC_BAD_AUTH: u32 = 0x0A2;

/// Format-zero errors of the current module version.
pub const TPM2_RC_AUTH_TYPE: u32 = 0x124;

pub const TPM2_RC_AUTH_MISSING: u32 = 0x125;

pub const TPM2_RC_POLICY: u32 = 0x126;

/// Format-zero warnings.
pub const TPM2_RC_OBJECT_MEMORY: u32 = 0x902;

pub const TPM2_RC_SESSION_MEMORY: u32 = 0x903;

pub const TPM2_RC_MEMORY: u32 = 0x904;

pub const TPM2_RC_SESSION_HANDLES: u32 = 0x905;

pub const TPM2_RC_OBJECT_HANDLES: u32 = 0x906;

pub const TPM2_RC_REFERENCE_H0: u32 = 0x910;

pub const TPM2_RC_REFERENCE_H6: u32 = 0x916;

pub const TPM2_RC_REFERENCE_S0: u32 = 0x918;

pub const TPM2_RC_REFERENCE_S6: u32 = 0x91E;

/// What a status is about, as far as this layer tells statuses apart.
#[derive(Clone, Copy, Debug, PartialEq, Eq, Structural)]
pub enum ResponseCodeKind {
    /// The command succeeded.
    Success,
    /// An authorization value, session or policy was missing or wrong.
    AuthorizationFailure,
    /// A handle does not name a loaded object or session.
    BadHandle,
    /// The attributes of an object do not allow the command.
    UnsupportedAttributes,
    /// The module ran out of memory or of handle slots.
    ResourceExhaustion,
    /// Any other failure, and every status of a layer above the module.
    Other,
}

/// A status exactly as the module returned it.
#[derive(Clone, Copy, Debug, PartialEq, Eq, Structural)]
pub struct ResponseCode {
    pub raw: u32,
}

/// The kind of a module code from which the index of the parameter, handle or
/// session at fault has been taken out.
pub open spec fn kind_of_base_code(code: int) -> ResponseCodeKind {
    if code == TPM2_RC_AUTH_FAIL || code == TPM2_RC_POLICY_FAIL || code == TPM2_RC_BAD_AUTH
        || code == TPM2_RC_AUTH_TYPE || code == TPM2_RC_AUTH_MISSING || code == TPM2_RC_POLICY {
        ResponseCodeKind::AuthorizationFailure
    } else if code == TPM2_RC_HANDLE || TPM2_RC_REFERENCE_H0 <= code <= TPM2_RC_REFERENCE_H6
        || TPM2_RC_REFERENCE_S0 <= code <= TPM2_RC_REFERENCE_S6 {
        ResponseCodeKind::BadHandle
    } else if code == TPM2_RC_ATTRIBUTES {
        ResponseCodeKind::UnsupportedAttributes
    } else if TPM2_RC_OBJECT_MEMORY <= code <= TPM2_RC_OBJECT_HANDLES {
        ResponseCodeKind::ResourceExhaustion
    } else {
        ResponseCodeKind::Other
    }
}

impl ResponseCode {
    /// Success is the status zero and no other.
    pub open spec fn spec_is_success(&self) -> bool {
        self.raw == TSS2_RC_SUCCESS
    }

    /// A format-one code has bit 7 set.
    pub open spec fn is_format_one(&self) -> bool {
        (self.raw as int / 0x80) % 2 == 1
    }

    /// The code without the index of the parameter, handle or session at
    /// fault: a format-one code keeps bit 7 and its six-bit error number, a
    /// format-zero code is kept whole.
    pub open spec fn base_code(&self) -> int {
        if self.is_format_one() {
            0x80 + self.raw as int % 0x40
        } else {
            self.raw as int
        }
    }

    /// The classification of a status.
    pub open spec fn spec_kind(&self) -> ResponseCodeKind {
        if self.raw == TSS2_RC_SUCCESS {
            ResponseCodeKind::Success
        } else if self.raw >= TPM2_RC_LIMIT {
            ResponseCodeKind::Other
        } else {
            kind_of_base_code(self.base_code())
        }
    }

    /// Whether the status authorizes reading what the command put out.
    #[verifier::when_used_as_spec(spec_is_success)]
    pub fn is_success(&self) -> (success: bool)
        ensures
            success == self.spec_is_success(),
    {
        self.raw == TSS2_RC_SUCCESS
    }

    /// Classifies the status.
    #[verifier::when_used_as_spec(spec_kind)]
    pub fn kind(&self) -> (kind: ResponseCodeKind)
        ensures
            kind == self.spec_kind(),
    {
        let raw: u32 = self.raw;
        if raw == TSS2_RC_SUCCESS {
            return ResponseCodeKind::Success;
        }
        if raw >= TPM2_RC_LIMIT {
            return ResponseCodeKind::Other;
        }
        let format_one: bool = raw & TPM2_RC_FMT1 != 0;
        let code: u32 = if format_one {
            TPM2_RC_FMT1 | (raw & 0x3F)
        } else {
            raw
        };
        assert(code == self.base_code()) by {
            assert((raw & 0x80 != 0) == ((raw / 0x80) % 2 == 1)) by (bit_vector);
            assert(0x80u32 | (raw & 0x3F) == 0x80 + raw % 0x40) by (bit_vector);
        }
        if code == TPM2_RC_AUTH_FAIL || code == TPM2_RC_POLICY_FAIL || code == TPM2_RC_BAD_AUTH
            || code == TPM2_RC_AUTH_TYPE || code == TPM2_RC_AUTH_MISSING || code == TPM2_RC_POLICY {
            ResponseCodeKind::AuthorizationFailure
        } else if code == TPM2_RC_HANDLE || (TPM2_RC_REFERENCE_H0 <= code && code
            <= TPM2_RC_REFERENCE_H6) || (TPM2_RC_REFERENCE_S0 <= code && code
            <= TPM2_RC_REFERENCE_S6) {
            ResponseCodeKind::BadHandle
        } else if code == TPM2_RC_ATTRIBUTES {
            ResponseCodeKind::UnsupportedAttributes
        } else if TPM2_RC_OBJECT_MEMORY <= code && code <= TPM2_RC_OBJECT_HANDLES {
            ResponseCodeKind::ResourceExhaustion
        } else {
            ResponseCodeKind::Other
        }
    }
}

/// Why this layer itself refused, without or after asking the module.
#[derive(Clone, Copy, Debug, PartialEq, Eq, Structural)]
pub enum WrapperErrorKind {
    /// A buffer declares more bytes than its type may hold.
    WrongParamSize,
    /// A native value names no algorithm, key size or mode known here.
    InvalidParam,
    /// The command needs a primary session and none is set.
    MissingAuthSession,
}

/// The single failure value of every operation.
#[derive(Clone, Copy, Debug, PartialEq, Eq, Structural)]
pub enum Error {
    /// This layer refused.
    WrapperError(WrapperErrorKind),
    /// The module answered with a status other than success.
    Tss2Error(ResponseCode),
}

/// What a status means for the command that it ends: nothing to report for
/// success, and otherwise an error that carries the status.
pub open spec fn spec_status_to_result(status: u32) -> Result<(), Error> {
    if status == TSS2_RC_SUCCESS {
        Ok(())
    } else {
        Err(Error::Tss2Error(ResponseCode { raw: status }))
    }
}

/// Turns the status of a command into a result.
pub fn status_to_result(status: u32) -> (result: Result<(), Error>)
    ensures
        result == spec_status_to_result(status),
{
    let code = ResponseCode { raw: status };
    if code.is_success() {
        Ok(())
    } else {
        Err(Error::Tss2Error(code))
    }
}

impl Error {
    /// The status that the module answered with, where the error is the
    /// module's.
    pub open spec fn spec_status(&self) -> Option<u32> {
        match *self {
            Error::Tss2Error(code) => Some(code.raw),
            Error::WrapperError(_) => None,
        }
    }

    /// The status that the module answered with, where the error is the
    /// module's.
    #[verifier::when_used_as_spec(spec_status)]
    pub fn status(&self) -> (status: Option<u32>)
        ensures
            status == self.spec_status(),
    {
        match *self {
            Error::Tss2Error(code) => Some(code.raw),
            Error::WrapperError(_) => None,
        }
    }
}

} // verus!
