use life::{
    CommandReturn, ErrorCode, LifeDriver, ProcessError, ProcessId, SyscallDriver, EXPECTED_DATA,
    MEANING_OF_LIFE,
};

#[test]
fn command_zero_with_zero_argument() {
    let driver = LifeDriver::new();
    assert_eq!(
        driver.command(0, 0, 0, ProcessId::new(1)),
        CommandReturn::SuccessU32(42)
    );
}

#[test]
fn command_zero_ignores_argument() {
    let driver = LifeDriver::new();
    assert_eq!(
        driver.command(0, 999, 0, ProcessId::new(1)),
        CommandReturn::SuccessU32(42)
    );
}

#[test]
fn command_zero_ignores_second_argument_and_caller() {
    let driver = LifeDriver::new();
    for (data, arg2, pid) in [(0, 0, 0), (usize::MAX, 1, 7), (42, usize::MAX, usize::MAX)] {
        assert_eq!(
            driver.command(0, data, arg2, ProcessId::new(pid)),
            CommandReturn::SuccessU32(MEANING_OF_LIFE)
        );
    }
}

#[test]
fn command_one_accepts_42() {
    let driver = LifeDriver::new();
    assert_eq!(
        driver.command(1, 42, 0, ProcessId::new(1)),
        CommandReturn::Success
    );
    assert_eq!(EXPECTED_DATA, 42);
}

#[test]
fn command_one_rejects_other_values() {
    let driver = LifeDriver::new();
    assert_eq!(
        driver.command(1, 7, 0, ProcessId::new(1)),
        CommandReturn::Failure(ErrorCode::InvalidArgument)
    );
    for data in [0, 41, 43, usize::MAX] {
        let r = driver.command(1, data, 42, ProcessId::new(2));
        assert_eq!(r, CommandReturn::Failure(ErrorCode::InvalidArgument));
        assert!(!r.is_success());
    }
}

#[test]
fn other_commands_not_supported() {
    let driver = LifeDriver::new();
    assert_eq!(
        driver.command(2, 0, 0, ProcessId::new(1)),
        CommandReturn::Failure(ErrorCode::NotSupported)
    );
    for cmd in [3, 4, 100, usize::MAX] {
        assert_eq!(
            driver.command(cmd, 42, 42, ProcessId::new(cmd)),
            CommandReturn::Failure(ErrorCode::NotSupported)
        );
    }
}

#[test]
fn allocate_grant_succeeds() {
    let driver = LifeDriver::new();
    assert_eq!(driver.allocate_grant(ProcessId::new(5)), Ok(()));
}

#[test]
fn allocate_grant_repeated_for_many_callers() {
    let driver = LifeDriver::new();
    for pid in [0, 1, 1, 2, usize::MAX, 0] {
        let r: Result<(), ProcessError> = driver.allocate_grant(ProcessId::new(pid));
        assert_eq!(r, Ok(()));
    }
}

#[test]
fn calls_leave_no_trace() {
    let driver = LifeDriver::new();
    let p = ProcessId::new(9);
    let before = driver.command(1, 42, 0, p);
    assert_eq!(driver.command(1, 7, 0, p), CommandReturn::Failure(ErrorCode::InvalidArgument));
    assert_eq!(driver.allocate_grant(p), Ok(()));
    assert_eq!(driver.command(2, 0, 0, p), CommandReturn::Failure(ErrorCode::NotSupported));
    assert_eq!(driver.command(1, 42, 0, p), before);
    let other = LifeDriver::new();
    assert_eq!(other.command(0, 1, 2, ProcessId::new(3)), driver.command(0, 1, 2, p));
}

#[test]
fn command_return_constructors() {
    assert_eq!(CommandReturn::success(), CommandReturn::Success);
    assert_eq!(CommandReturn::success_u32(7), CommandReturn::SuccessU32(7));
    assert_eq!(
        CommandReturn::failure(ErrorCode::Busy),
        CommandReturn::Failure(ErrorCode::Busy)
    );
    assert!(CommandReturn::success().is_success());
    assert!(CommandReturn::success_u32(0).is_success());
    assert_eq!(ProcessId::new(11).id(), 11);
}
