use vstd::prelude::*;

use crate::errors::{device_error_code, DeviceErrorCode, Error};

verus! {

/// What the hardware random-number service answered: random bytes, an error,
/// or an unexpected response kind.
pub enum NsmRandomReply {
    Random(Vec<u8>),
    ErrorReply(DeviceErrorCode),
    Unexpected,
}

/// Relies on `aws_nitro_enclaves_nsm_api::driver::nsm_process_request` with a
/// `GetRandom` request: the device answers with random bytes, an error code
/// (mirrored onto the library's plain value), or some other response kind,
/// which a correct device never sends. The bytes depend on the device, so
/// nothing is assumed about their content or their number.
#[verifier::external_body]
fn nsm_random(fd: i32) -> NsmRandomReply {
    match aws_nitro_enclaves_nsm_api::driver::nsm_process_request(
        fd,
        aws_nitro_enclaves_nsm_api::api::Request::GetRandom,
    ) {
        aws_nitro_enclaves_nsm_api::api::Response::GetRandom { random } =>
            NsmRandomReply::Random(random),
        aws_nitro_enclaves_nsm_api::api::Response::Error(e) =>
            NsmRandomReply::ErrorReply(device_error_code(e)),
        _ => NsmRandomReply::Unexpected,
    }
}

/// Copies random bytes into the caller's buffer without ever growing it:
/// exactly `min(buffer length, random length)` leading bytes are overwritten,
/// the rest of the buffer and its length stay as they were, whatever the
/// device returned.
pub fn copy_random_bytes(buf: &mut Vec<u8>, random: &Vec<u8>) -> (n: usize)
    ensures
        final(buf)@.len() == old(buf)@.len(),
        n == if random@.len() < old(buf)@.len() {
            random@.len() as int
        } else {
            old(buf)@.len() as int
        },
        forall|i: int| 0 <= i < n ==> final(buf)@[i] == random@[i],
        forall|i: int| n <= i < old(buf)@.len() ==> final(buf)@[i] == old(buf)@[i],
{
    let n = if random.len() < buf.len() {
        random.len()
    } else {
        buf.len()
    };
    let mut i: usize = 0;
    while i < n
        invariant
            i <= n,
            n <= buf@.len(),
            n <= random@.len(),
            buf@.len() == old(buf)@.len(),
            forall|j: int| 0 <= j < i ==> buf@[j] == random@[j],
            forall|j: int| i <= j < buf@.len() ==> buf@[j] == old(buf)@[j],
        decreases n - i,
    {
        buf[i] = random[i];
        i = i + 1;
    }
    n
}

/// Turns the hardware random-number service's reply into the operation's
/// result: random bytes are copied into the buffer (never growing it) and
/// their count is returned; a device error is handed on as `DeviceError` with
/// exactly the code the device reported, an unexpected response kind becomes
/// `InvalidResponse`, and on every error the buffer is untouched.
pub fn random_from_reply(buf: &mut Vec<u8>, reply: NsmRandomReply) -> (r: Result<usize, Error>)
    ensures
        final(buf)@.len() == old(buf)@.len(),
        reply is Random ==> {
            let random = reply->Random_0;
            &&& r is Ok
            &&& r->Ok_0 == if random@.len() < old(buf)@.len() {
                random@.len() as int
            } else {
                old(buf)@.len() as int
            }
            &&& forall|i: int| 0 <= i < r->Ok_0 ==> final(buf)@[i] == random@[i]
            &&& forall|i: int| r->Ok_0 <= i < old(buf)@.len() ==> final(buf)@[i] == old(buf)@[i]
        },
        reply is ErrorReply ==> r == Err::<usize, Error>(Error::DeviceError(reply->ErrorReply_0))
            && final(buf)@ == old(buf)@,
        reply is Unexpected ==> r == Err::<usize, Error>(Error::InvalidResponse) && final(buf)@
            == old(buf)@,
{
    match reply {
        NsmRandomReply::Random(random) => Ok(copy_random_bytes(buf, &random)),
        NsmRandomReply::ErrorReply(code) => Err(Error::DeviceError(code)),
        NsmRandomReply::Unexpected => Err(Error::InvalidResponse),
    }
}

/// Secure random bytes from the trusted-hardware device.
///
/// Asks the device for random bytes and copies at most `min(buffer length,
/// bytes returned)` of them into the caller's buffer, reporting how many were
/// written; the buffer's length never changes and the bytes past the reported
/// count keep their old values. Fails with `InvalidArgument` exactly when the
/// device handle is negative or the buffer is empty (the device is then not
/// asked), with `DeviceError` carrying the device's own code when the
/// hardware call errors, and with `InvalidResponse` when the device answers
/// with an unexpected response kind; the buffer is untouched on every error.
pub fn nsm_get_random(fd: i32, buf: &mut Vec<u8>) -> (r: Result<usize, Error>)
    ensures
        final(buf)@.len() == old(buf)@.len(),
        r == Err::<usize, Error>(Error::InvalidArgument) <==> fd < 0 || old(buf)@.len() == 0,
        r is Err ==> final(buf)@ == old(buf)@ && (r->Err_0 == Error::InvalidArgument || r->Err_0
            is DeviceError || r->Err_0 == Error::InvalidResponse),
        r is Ok ==> fd >= 0 && old(buf)@.len() > 0 && r->Ok_0 <= old(buf)@.len() && forall|i: int|
            r->Ok_0 <= i < old(buf)@.len() ==> final(buf)@[i] == old(buf)@[i],
{
    if fd < 0 || buf.len() == 0 {
        return Err(Error::InvalidArgument);
    }
    let reply = nsm_random(fd);
    random_from_reply(buf, reply)
}

} // verus!
