use vst_host::result_code::{KResult, TResult};

const ALL: [TResult; 8] = [
    TResult::KNoInterface,
    TResult::KResultOk,
    TResult::KResultFalse,
    TResult::KInvalidArgument,
    TResult::KNotImplemented,
    TResult::KInternalError,
    TResult::KNotInititalized,
    TResult::KOutOfMemory,
];

#[test]
fn is_ok_only_for_result_ok() {
    for r in ALL.iter() {
        assert_eq!(r.is_ok(), *r == TResult::KResultOk);
    }
    assert!(TResult::KResultOk.is_ok());
    assert!(!TResult::KResultFalse.is_ok());
}

#[test]
fn codes_have_their_numbers() {
    let numbers: Vec<i32> = ALL.iter().map(|r| r.to_i32()).collect();
    assert_eq!(numbers, vec![-1, 0, 1, 2, 3, 4, 5, 6]);
}

#[test]
fn numbers_read_back_as_codes() {
    for r in ALL.iter() {
        assert_eq!(TResult::from_i32(r.to_i32()), Some(*r));
    }
    assert_eq!(TResult::from_i32(3), Some(TResult::KNotImplemented));
    assert_eq!(TResult::from_i32(7), None);
    assert_eq!(TResult::from_i32(-2), None);
    assert_eq!(TResult::from_i32(i32::MIN), None);
}

#[test]
fn ok_is_the_code_zero() {
    for r in ALL.iter() {
        assert_eq!(r.to_i32() == 0, r.is_ok());
    }
}

#[test]
fn windows_codes_are_read() {
    assert_eq!(KResult::from_i32(-2_147_467_262), Some(KResult::KNoInterface));
    assert_eq!(KResult::from_i32(0), Some(KResult::KResultOk));
    assert_eq!(KResult::from_i32(1), Some(KResult::KResultFalse));
    assert_eq!(KResult::from_i32(-2_147_467_809), Some(KResult::KInvalidArgument));
    assert_eq!(KResult::from_i32(-2_147_467_263), Some(KResult::KNotImplemented));
    assert_eq!(KResult::from_i32(-2_147_467_259), Some(KResult::KInternalError));
    assert_eq!(KResult::from_i32(-2_147_418_113), Some(KResult::KNotInititalized));
    assert_eq!(KResult::from_i32(-2_147_024_882), Some(KResult::KOutOfMemory));
    assert_eq!(KResult::from_i32(-1), None);
    assert_eq!(KResult::from_i32(2), None);
}
