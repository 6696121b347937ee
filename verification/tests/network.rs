use select_chip::network::{
    circuit_version, deadline, found_program, get_vk_hash, is_success, is_transient,
    proof_to_fetch, registration_step, retry_pause, FulfillmentStatus, InvalidVkHash,
    Registration, RpcStatus, StatusError, FIRST_PAUSE_MS, LONGEST_PAUSE_MS, NOT_FOUND,
    UNAVAILABLE,
};

fn status(code: i32) -> RpcStatus {
    RpcStatus { code, message: format!("code {code}") }
}

#[test]
fn vk_hash_is_read_from_prefixed_hex() {
    let text = "0x00112233445566778899aabbccddeeff00112233445566778899AABBCCDDEEFF";
    let hash = get_vk_hash(text).unwrap();
    let half = [
        0x00, 0x11, 0x22, 0x33, 0x44, 0x55, 0x66, 0x77, 0x88, 0x99, 0xaa, 0xbb, 0xcc, 0xdd, 0xee,
        0xff,
    ];
    assert_eq!(&hash[..16], &half[..]);
    assert_eq!(&hash[16..], &half[..]);
}

#[test]
fn vk_hash_takes_either_prefix_or_none() {
    let digits = "000000000000000000000000000000000000000000000000000000000000002a";
    let mut want = [0u8; 32];
    want[31] = 42;
    assert_eq!(get_vk_hash(digits), Ok(want));
    assert_eq!(get_vk_hash(&format!("0x{digits}")), Ok(want));
    assert_eq!(get_vk_hash(&format!("0X{digits}")), Ok(want));
}

#[test]
fn vk_hash_refuses_other_texts() {
    let digits = "000000000000000000000000000000000000000000000000000000000000002a";
    assert_eq!(get_vk_hash(""), Err(InvalidVkHash));
    assert_eq!(get_vk_hash("0x"), Err(InvalidVkHash));
    assert_eq!(get_vk_hash(&digits[1..]), Err(InvalidVkHash));
    assert_eq!(get_vk_hash(&digits[2..]), Err(InvalidVkHash));
    assert_eq!(get_vk_hash(&format!("{digits}00")), Err(InvalidVkHash));
    assert_eq!(get_vk_hash(&format!("0x0x{}", &digits[2..])), Err(InvalidVkHash));
    assert_eq!(get_vk_hash(&format!("1x{digits}")), Err(InvalidVkHash));
    assert_eq!(get_vk_hash(&format!("0x{}g", &digits[1..])), Err(InvalidVkHash));
    assert_eq!(get_vk_hash(&format!("0x{} ", &digits[1..])), Err(InvalidVkHash));
    assert_eq!(get_vk_hash(&format!("0x{}é", &digits[2..])), Err(InvalidVkHash));
}

#[test]
fn proof_is_due_after_the_timeout() {
    assert_eq!(deadline(1_700_000_000, 3600), 1_700_003_600);
    assert_eq!(deadline(0, 0), 0);
    assert_eq!(deadline(u64::MAX - 1, 1), u64::MAX);
}

#[test]
fn circuits_are_named_by_version() {
    assert_eq!(circuit_version("v4.0.0"), "sp1-v4.0.0");
    assert_eq!(circuit_version(""), "sp1-");
}

#[test]
fn http_success_is_two_hundred_to_two_ninety_nine() {
    assert!(!is_success(199));
    assert!(is_success(200));
    assert!(is_success(204));
    assert!(is_success(299));
    assert!(!is_success(300));
    assert!(!is_success(404));
    assert!(!is_success(500));
    assert!(!is_success(0));
}

#[test]
fn statuses_by_number() {
    assert_eq!(FulfillmentStatus::from_i32(0), Some(FulfillmentStatus::Unspecified));
    assert_eq!(FulfillmentStatus::from_i32(1), Some(FulfillmentStatus::Requested));
    assert_eq!(FulfillmentStatus::from_i32(2), Some(FulfillmentStatus::Assigned));
    assert_eq!(FulfillmentStatus::from_i32(3), Some(FulfillmentStatus::Fulfilled));
    assert_eq!(FulfillmentStatus::from_i32(4), Some(FulfillmentStatus::Unfulfillable));
    assert_eq!(FulfillmentStatus::from_i32(5), None);
    assert_eq!(FulfillmentStatus::from_i32(-1), None);
}

#[test]
fn a_fulfilled_request_names_its_proof() {
    let at = "s3://proofs/1".to_string();
    assert_eq!(proof_to_fetch(3, Some(at.clone())), Ok(Some(at.clone())));
    assert_eq!(proof_to_fetch(3, None), Err(StatusError::NoProofUri));
    for pending in [0, 1, 2, 4] {
        assert_eq!(proof_to_fetch(pending, Some(at.clone())), Ok(None));
        assert_eq!(proof_to_fetch(pending, None), Ok(None));
    }
    assert_eq!(proof_to_fetch(9, Some(at)), Err(StatusError::UnknownStatus(9)));
    assert_eq!(proof_to_fetch(-3, None), Err(StatusError::UnknownStatus(-3)));
}

#[test]
fn a_missing_program_is_no_failure() {
    assert_eq!(NOT_FOUND, 5);
    assert_eq!(found_program(Ok::<u8, RpcStatus>(7)), Ok(Some(7)));
    assert_eq!(found_program(Err::<u8, RpcStatus>(status(5))), Ok(None));
    assert_eq!(found_program(Err::<u8, RpcStatus>(status(14))), Err(status(14)));
    assert_eq!(found_program(Err::<u8, RpcStatus>(status(0))), Err(status(0)));
}

#[test]
fn a_known_program_is_not_created_again() {
    assert_eq!(registration_step(&Some(1u8)), Registration::Registered);
    assert_eq!(registration_step(&None::<u8>), Registration::Create);
}

#[test]
fn only_an_unavailable_network_is_tried_again() {
    assert_eq!(UNAVAILABLE, 14);
    assert!(is_transient(&status(14)));
    for code in [0, 1, 2, 3, 4, 5, 13, 15, 16, -1] {
        assert!(!is_transient(&status(code)));
    }
}

#[test]
fn pauses_double_up_to_two_minutes() {
    assert_eq!(FIRST_PAUSE_MS, 1000);
    assert_eq!(LONGEST_PAUSE_MS, 120_000);
    let pauses: Vec<Option<u64>> = (0..11).map(|failures| retry_pause(failures, 0, 1)).collect();
    assert_eq!(
        pauses,
        [1000, 1000, 2000, 4000, 8000, 16000, 32000, 64000, 120_000, 120_000, 120_000]
            .map(Some)
            .to_vec()
    );
    assert_eq!(retry_pause(u32::MAX, 0, 1), Some(120_000));
}

#[test]
fn nothing_is_tried_once_the_time_is_up() {
    assert_eq!(retry_pause(1, 119_999, 120_000), Some(1000));
    assert_eq!(retry_pause(1, 120_000, 120_000), None);
    assert_eq!(retry_pause(3, 120_001, 120_000), None);
    assert_eq!(retry_pause(0, 0, 0), None);
    assert_eq!(retry_pause(5, u64::MAX - 1, u64::MAX), Some(16000));
}
