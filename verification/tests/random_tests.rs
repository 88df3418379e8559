use prover_service::{copy_random_bytes, nsm_get_random, random_from_reply, DeviceErrorCode, Error, NsmRandomReply};

#[test]
fn copy_never_grows_the_buffer() {
    let mut buf = vec![0u8; 4];
    let random = vec![9u8, 8, 7, 6, 5, 4, 3, 2, 1, 0];
    let n = copy_random_bytes(&mut buf, &random);
    assert_eq!(n, 4);
    assert_eq!(buf.len(), 4);
    assert_eq!(buf, vec![9u8, 8, 7, 6]);
}

#[test]
fn copy_of_short_randomness_keeps_the_tail() {
    let mut buf = vec![0xffu8; 10];
    let random = vec![1u8, 2, 3];
    let n = copy_random_bytes(&mut buf, &random);
    assert_eq!(n, 3);
    assert_eq!(buf.len(), 10);
    assert_eq!(buf, vec![1u8, 2, 3, 0xff, 0xff, 0xff, 0xff, 0xff, 0xff, 0xff]);
}

#[test]
fn copy_of_empty_randomness_changes_nothing() {
    let mut buf = vec![5u8; 3];
    let random: Vec<u8> = Vec::new();
    let n = copy_random_bytes(&mut buf, &random);
    assert_eq!(n, 0);
    assert_eq!(buf, vec![5u8; 3]);
}

#[test]
fn negative_device_handle_is_invalid_argument() {
    let mut buf = vec![0u8; 8];
    let r = nsm_get_random(-1, &mut buf);
    assert_eq!(r, Err(Error::InvalidArgument));
    assert_eq!(buf, vec![0u8; 8]);
}

#[test]
fn empty_buffer_is_invalid_argument() {
    let mut buf: Vec<u8> = Vec::new();
    let r = nsm_get_random(3, &mut buf);
    assert_eq!(r, Err(Error::InvalidArgument));
    assert!(buf.is_empty());
}

#[test]
fn random_reply_copies_and_reports_the_count() {
    let mut buf = vec![0u8; 4];
    let r = random_from_reply(&mut buf, NsmRandomReply::Random(vec![7u8, 6, 5]));
    assert_eq!(r, Ok(3));
    assert_eq!(buf, vec![7u8, 6, 5, 0]);
}

#[test]
fn random_reply_error_keeps_the_device_code_and_the_buffer() {
    let mut buf = vec![9u8; 2];
    let r = random_from_reply(&mut buf, NsmRandomReply::ErrorReply(DeviceErrorCode::BufferTooSmall));
    assert_eq!(r, Err(Error::DeviceError(DeviceErrorCode::BufferTooSmall)));
    assert_eq!(buf, vec![9u8; 2]);
}

#[test]
fn random_reply_unexpected_kind_is_invalid_response() {
    let mut buf = vec![9u8; 2];
    let r = random_from_reply(&mut buf, NsmRandomReply::Unexpected);
    assert_eq!(r, Err(Error::InvalidResponse));
    assert_eq!(buf, vec![9u8; 2]);
}
