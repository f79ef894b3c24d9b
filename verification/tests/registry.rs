use core_graphics::base::{cg_desc, CGAffineTransform, CGError};

/// The whole table: each condition with its integer and its description.
fn table() -> Vec<(i32, CGError, &'static str)> {
    vec![
        (1000, CGError::kCGErrorFailure, "A general failure occurred."),
        (
            1001,
            CGError::kCGErrorIllegalArgument,
            "One or more of the parameters passed to a function are invalid. Check for NULL pointers.",
        ),
        (
            1002,
            CGError::kCGErrorInvalidConnection,
            "The parameter representing a connection to the window server is invalid.",
        ),
        (
            1003,
            CGError::kCGErrorInvalidContext,
            "The CPSProcessSerNum or context identifier parameter is not valid.",
        ),
        (
            1004,
            CGError::kCGErrorCannotComplete,
            "The requested operation is inappropriate for the parameters passed in, or the current system state.",
        ),
        (
            1005,
            CGError::kCGErrorNameTooLong,
            "A parameter, typically a C string, is too long to be used without truncation.",
        ),
        (
            1006,
            CGError::kCGErrorNotImplemented,
            "Return value from obsolete function stubs present for binary compatibility, but not normally called.",
        ),
        (
            1007,
            CGError::kCGErrorRangeCheck,
            "A parameter passed in has a value that is inappropriate, or which does not map to a useful operation or value.",
        ),
        (
            1008,
            CGError::kCGErrorTypeCheck,
            "A data type or token was encountered that did not match the expected type or token.",
        ),
        (
            1009,
            CGError::kCGErrorNoCurrentPoint,
            "An operation relative to a known point or coordinate could not be done, as there is no known point.",
        ),
        (
            1010,
            CGError::kCGErrorInvalidOperation,
            "The requested operation is not valid for the parameters passed in, or the current system state.",
        ),
        (
            1011,
            CGError::kCGErrorNoneAvailable,
            "The requested operation could not be completed as the indicated resources were not found.",
        ),
        (
            1015,
            CGError::kCGErrorApplicationRequiresNewerSystem,
            "The application requires a newer version of the operating system to run than is currently available.",
        ),
        (
            1016,
            CGError::kCGErrorApplicationNotPermittedToExecute,
            "The application is not permitted to run.",
        ),
        (
            1023,
            CGError::kCGErrorApplicationIncorrectExecutableFormatFound,
            "The application does not have any executable code for the current system.",
        ),
        (
            1024,
            CGError::kCGErrorApplicationIsLaunching,
            "The application is in the process of launching but has not yet checked in with the window server.",
        ),
        (
            1025,
            CGError::kCGErrorApplicationAlreadyRunning,
            "The application being launched was already running and checked in with the window server.",
        ),
        (
            1026,
            CGError::kCGErrorApplicationCanOnlyBeRunInOneSessionAtATime,
            "The application being launched is incompatible with multiple user sessions and is already running in another user session.",
        ),
        (
            1027,
            CGError::kCGErrorClassicApplicationsMustBeLaunchedByClassic,
            "The window server could not launch the application. It must be launched by the Classic environment.",
        ),
        (
            1028,
            CGError::kCGErrorForkFailed,
            "The system was unable to fork a new process to launch the application.",
        ),
        (
            1029,
            CGError::kCGErrorRetryRegistration,
            "The application should retry its registration shortly.",
        ),
    ]
}

#[test]
fn table_has_twenty_one_entries() {
    assert_eq!(table().len(), 21);
}

#[test]
fn from_i32_reads_every_tabulated_code() {
    for (code, err, _) in table() {
        assert_eq!(CGError::from_i32(code), err);
    }
}

#[test]
fn from_i32_reads_general_failure() {
    assert_eq!(CGError::from_i32(1000), CGError::kCGErrorFailure);
}

#[test]
fn from_i32_reads_both_sides_of_each_gap() {
    assert_eq!(CGError::from_i32(1011), CGError::kCGErrorNoneAvailable);
    assert_eq!(
        CGError::from_i32(1015),
        CGError::kCGErrorApplicationRequiresNewerSystem
    );
    assert_eq!(
        CGError::from_i32(1016),
        CGError::kCGErrorApplicationNotPermittedToExecute
    );
    assert_eq!(
        CGError::from_i32(1023),
        CGError::kCGErrorApplicationIncorrectExecutableFormatFound
    );
}

#[test]
fn try_from_i32_reads_every_tabulated_code() {
    for (code, err, _) in table() {
        assert_eq!(CGError::try_from_i32(code), Some(err));
    }
}

#[test]
fn try_from_i32_gives_none_in_the_first_gap() {
    assert_eq!(CGError::try_from_i32(1012), None);
    assert_eq!(CGError::try_from_i32(1013), None);
    assert_eq!(CGError::try_from_i32(1014), None);
}

#[test]
fn try_from_i32_gives_none_in_the_second_gap() {
    let mut code: i32 = 1017;
    while code <= 1022 {
        assert_eq!(CGError::try_from_i32(code), None);
        code += 1;
    }
}

#[test]
fn try_from_i32_gives_none_outside_the_table() {
    assert_eq!(CGError::try_from_i32(-1), None);
    assert_eq!(CGError::try_from_i32(99999), None);
    assert_eq!(CGError::try_from_i32(999), None);
    assert_eq!(CGError::try_from_i32(1030), None);
    assert_eq!(CGError::try_from_i32(1), None);
    assert_eq!(CGError::try_from_i32(-1000), None);
    assert_eq!(CGError::try_from_i32(i32::MIN), None);
    assert_eq!(CGError::try_from_i32(i32::MAX), None);
}

#[test]
fn try_from_i32_does_not_read_zero_as_success() {
    assert_eq!(CGError::kCGErrorSuccess.to_i32(), 0);
    assert_eq!(CGError::try_from_i32(0), None);
}

#[test]
fn try_from_i32_accepts_exactly_the_table() {
    let known: Vec<i32> = table().iter().map(|entry| entry.0).collect();
    let mut code: i32 = 900;
    while code <= 1100 {
        assert_eq!(CGError::try_from_i32(code).is_some(), known.contains(&code));
        code += 1;
    }
}

#[test]
fn desc_gives_every_tabulated_description() {
    for (_, err, text) in table() {
        assert_eq!(err.desc(), text);
    }
}

#[test]
fn desc_of_general_failure() {
    assert_eq!(
        CGError::kCGErrorFailure.desc(),
        "A general failure occurred."
    );
}

#[test]
fn desc_of_success() {
    assert_eq!(
        CGError::kCGErrorSuccess.desc(),
        "The requested operation was completed successfully."
    );
}

#[test]
fn desc_is_never_empty() {
    assert!(!CGError::kCGErrorSuccess.desc().is_empty());
    for (_, err, _) in table() {
        assert!(!err.desc().is_empty());
    }
}

#[test]
fn cg_desc_agrees_with_desc() {
    assert_eq!(
        cg_desc(CGError::kCGErrorSuccess),
        CGError::kCGErrorSuccess.desc()
    );
    for (_, err, text) in table() {
        assert_eq!(cg_desc(err), text);
        assert_eq!(cg_desc(err), err.desc());
    }
}

#[test]
fn to_i32_gives_every_tabulated_code() {
    for (code, err, _) in table() {
        assert_eq!(err.to_i32(), code);
    }
}

#[test]
fn code_round_trips_through_from_i32() {
    for (_, err, _) in table() {
        assert_eq!(CGError::from_i32(err.to_i32()), err);
    }
}

#[test]
fn i32_round_trips_through_to_i32() {
    for (code, _, _) in table() {
        assert_eq!(CGError::from_i32(code).to_i32(), code);
    }
}

#[test]
fn no_two_conditions_share_a_code() {
    let mut all: Vec<CGError> = table().iter().map(|entry| entry.1).collect();
    all.push(CGError::kCGErrorSuccess);
    assert_eq!(all.len(), 22);
    for (i, a) in all.iter().enumerate() {
        for (j, b) in all.iter().enumerate() {
            assert_eq!(a.to_i32() == b.to_i32(), i == j);
            assert_eq!(a == b, i == j);
        }
    }
}

#[test]
fn variants_are_exported_beside_the_type() {
    assert_eq!(core_graphics::base::kCGErrorFailure, CGError::kCGErrorFailure);
    assert_eq!(core_graphics::base::kCGErrorSuccess.to_i32(), 0);
    assert_eq!(core_graphics::base::kCGErrorRetryRegistration.to_i32(), 1029);
}

#[test]
fn conditions_are_copied_freely() {
    let first = CGError::kCGErrorRangeCheck;
    let second = first;
    assert_eq!(first, second);
    assert_eq!(first.desc(), second.desc());
}

#[test]
fn transform_stand_in_holds_nothing() {
    let a: CGAffineTransform = ();
    let b: CGAffineTransform = ();
    assert_eq!(a, b);
    assert_eq!(std::mem::size_of::<CGAffineTransform>(), 0);
}

#[test]
fn platform_double_keeps_every_bit() {
    let stored: libc::c_double = 3.14159;
    let plain: f64 = 3.14159;
    assert_eq!(std::mem::size_of::<libc::c_double>(), 8);
    assert_eq!(stored.to_bits(), plain.to_bits());
    assert_eq!(stored.to_bits(), 0x400921f9f01b866e);
}
