use branchless_test::commands::{
    process_exit_code, towards, ConflictingDirections, ExitCodeOutOfRange, Towards,
};

#[test]
fn direction_flags() {
    assert_eq!(towards(false, false), Ok(None));
    assert_eq!(towards(true, false), Ok(Some(Towards::Oldest)));
    assert_eq!(towards(false, true), Ok(Some(Towards::Newest)));
    assert_eq!(towards(true, true), Err(ConflictingDirections));
    assert_eq!(
        ConflictingDirections.message(),
        "Both --oldest and --newest were set"
    );
}

#[test]
fn exit_codes_of_the_process() {
    assert_eq!(process_exit_code(0), Ok(0));
    assert_eq!(process_exit_code(-1), Ok(-1));
    assert_eq!(process_exit_code(i32::MAX as isize), Ok(i32::MAX));
    assert_eq!(process_exit_code(i32::MIN as isize), Ok(i32::MIN));
    let too_large = i32::MAX as isize + 1;
    assert_eq!(
        process_exit_code(too_large),
        Err(ExitCodeOutOfRange {
            exit_code: too_large
        })
    );
    assert_eq!(
        process_exit_code(too_large).unwrap_err().message(),
        i32::try_from(too_large).unwrap_err().to_string()
    );
}
