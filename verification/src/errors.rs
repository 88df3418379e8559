use vstd::prelude::*;

verus! {

/// The error code a trusted-hardware device reports for a failed call,
/// mirrored as a plain value so that a hardware failure is handed to the
/// caller exactly as the device reported it.
#[derive(Clone, Copy, Debug, PartialEq, Eq, Structural)]
pub enum DeviceErrorCode {
    /// No errors.
    Success,
    /// Input argument(s) invalid.
    InvalidArgument,
    /// Platform-register index out of bounds.
    InvalidIndex,
    /// The response does not correspond to the earlier request.
    InvalidResponse,
    /// The platform register is read-only.
    ReadOnlyIndex,
    /// The request cannot be fulfilled due to missing capabilities.
    InvalidOperation,
    /// The output buffer the device was given is too small.
    BufferTooSmall,
    /// The input handed to the device is too large.
    InputTooLarge,
    /// The device cannot fulfill the request due to internal errors.
    InternalError,
}

/// Error taxonomy of the service.
///
/// Stage failures themselves travel through the pipeline as reason strings
/// and end in a job's `failure_reason`; these variants classify the errors
/// that the library's operations report to their callers.
#[derive(Clone, Copy, Debug, PartialEq, Eq, Structural)]
pub enum Error {
    /// Malformed or invalid request at intake.
    ValidationError,
    /// Authentication failure during authenticated decryption.
    DecryptionError,
    /// Decrypted payload is not valid UTF-8.
    EncodingError,
    /// A pipeline stage's own execution failed.
    StageExecutionError,
    /// A status-store write could not be applied.
    PersistenceError,
    /// The hardware attestation or random-number call failed, with the error
    /// code the device reported.
    DeviceError(DeviceErrorCode),
    /// Precondition violation on a crypto-boundary call.
    InvalidArgument,
    /// The hardware device answered with an unexpected response kind.
    InvalidResponse,
}

#[verifier::external_type_specification]
#[verifier::external_body]
pub struct ExErrorCode(aws_nitro_enclaves_nsm_api::api::ErrorCode);

/// Relies on the error codes of `aws_nitro_enclaves_nsm_api`: each device
/// error code is mirrored one-to-one onto the `DeviceErrorCode` value of the
/// same name, moving nothing else.
#[verifier::external_body]
pub(crate) fn device_error_code(code: aws_nitro_enclaves_nsm_api::api::ErrorCode) -> DeviceErrorCode {
    match code {
        aws_nitro_enclaves_nsm_api::api::ErrorCode::Success => DeviceErrorCode::Success,
        aws_nitro_enclaves_nsm_api::api::ErrorCode::InvalidArgument => DeviceErrorCode::InvalidArgument,
        aws_nitro_enclaves_nsm_api::api::ErrorCode::InvalidIndex => DeviceErrorCode::InvalidIndex,
        aws_nitro_enclaves_nsm_api::api::ErrorCode::InvalidResponse => DeviceErrorCode::InvalidResponse,
        aws_nitro_enclaves_nsm_api::api::ErrorCode::ReadOnlyIndex => DeviceErrorCode::ReadOnlyIndex,
        aws_nitro_enclaves_nsm_api::api::ErrorCode::InvalidOperation => DeviceErrorCode::InvalidOperation,
        aws_nitro_enclaves_nsm_api::api::ErrorCode::BufferTooSmall => DeviceErrorCode::BufferTooSmall,
        aws_nitro_enclaves_nsm_api::api::ErrorCode::InputTooLarge => DeviceErrorCode::InputTooLarge,
        aws_nitro_enclaves_nsm_api::api::ErrorCode::InternalError => DeviceErrorCode::InternalError,
    }
}

} // verus!
