//! The error code registry and the stubbed data types.
//!
//! Two choices are made here on purpose. An integer that the registry does
//! not know is never classified: [`CGError::from_i32`] demands a known one,
//! and [`CGError::try_from_i32`] answers `None` for the rest. And the integer
//! of success, 0, is not among the known ones: success is a condition that
//! callers select, not one that is read back from an integer.

use vstd::prelude::*;

pub use self::CGError::{
    kCGErrorApplicationAlreadyRunning, kCGErrorApplicationCanOnlyBeRunInOneSessionAtATime,
    kCGErrorApplicationIncorrectExecutableFormatFound, kCGErrorApplicationIsLaunching,
    kCGErrorApplicationNotPermittedToExecute, kCGErrorApplicationRequiresNewerSystem,
    kCGErrorCannotComplete, kCGErrorClassicApplicationsMustBeLaunchedByClassic, kCGErrorFailure,
    kCGErrorForkFailed, kCGErrorIllegalArgument, kCGErrorInvalidConnection,
    kCGErrorInvalidContext, kCGErrorInvalidOperation, kCGErrorNameTooLong,
    kCGErrorNoCurrentPoint, kCGErrorNoneAvailable, kCGErrorNotImplemented, kCGErrorRangeCheck,
    kCGErrorRetryRegistration, kCGErrorSuccess, kCGErrorTypeCheck,
};

verus! {

/// Stand-in for the platform's 2D affine transform. It holds none of the six
/// coefficients and offers no operation: it exists so that signatures which
/// name the transform can be written.
pub type CGAffineTransform = ();

/// A condition reported by the graphics subsystem.
///
/// The set is closed. Each variant stands for exactly one integer of the
/// platform's interface, given by [`CGError::code`]; the integers are the
/// platform's own and leave gaps (nothing between 1011 and 1015, nor between
/// 1016 and 1023).
#[allow(non_camel_case_types)]
#[derive(Clone, Copy, Debug, PartialEq, Eq, Structural)]
pub enum CGError {
    kCGErrorSuccess,
    kCGErrorFailure,
    kCGErrorIllegalArgument,
    kCGErrorInvalidConnection,
    kCGErrorInvalidContext,
    kCGErrorCannotComplete,
    kCGErrorNameTooLong,
    kCGErrorNotImplemented,
    kCGErrorRangeCheck,
    kCGErrorTypeCheck,
    kCGErrorNoCurrentPoint,
    kCGErrorInvalidOperation,
    kCGErrorNoneAvailable,
    kCGErrorApplicationRequiresNewerSystem,
    kCGErrorApplicationNotPermittedToExecute,
    kCGErrorApplicationIncorrectExecutableFormatFound,
    kCGErrorApplicationIsLaunching,
    kCGErrorApplicationAlreadyRunning,
    kCGErrorApplicationCanOnlyBeRunInOneSessionAtATime,
    kCGErrorClassicApplicationsMustBeLaunchedByClassic,
    kCGErrorForkFailed,
    kCGErrorRetryRegistration,
}

impl CGError {
    /// The integer that the platform's interface uses for this condition.
    pub open spec fn code(self) -> i32 {
        match self {
            kCGErrorSuccess => 0,
            kCGErrorFailure => 1000,
            kCGErrorIllegalArgument => 1001,
            kCGErrorInvalidConnection => 1002,
            kCGErrorInvalidContext => 1003,
            kCGErrorCannotComplete => 1004,
            kCGErrorNameTooLong => 1005,
            kCGErrorNotImplemented => 1006,
            kCGErrorRangeCheck => 1007,
            kCGErrorTypeCheck => 1008,
            kCGErrorNoCurrentPoint => 1009,
            kCGErrorInvalidOperation => 1010,
            kCGErrorNoneAvailable => 1011,
            kCGErrorApplicationRequiresNewerSystem => 1015,
            kCGErrorApplicationNotPermittedToExecute => 1016,
            kCGErrorApplicationIncorrectExecutableFormatFound => 1023,
            kCGErrorApplicationIsLaunching => 1024,
            kCGErrorApplicationAlreadyRunning => 1025,
            kCGErrorApplicationCanOnlyBeRunInOneSessionAtATime => 1026,
            kCGErrorClassicApplicationsMustBeLaunchedByClassic => 1027,
            kCGErrorForkFailed => 1028,
            kCGErrorRetryRegistration => 1029,
        }
    }

    /// The text that describes this condition, as a sequence of characters.
    pub open spec fn description(self) -> Seq<char> {
        match self {
            kCGErrorSuccess => "The requested operation was completed successfully."@,
            kCGErrorFailure => "A general failure occurred."@,
            kCGErrorIllegalArgument => "One or more of the parameters passed to a function are invalid. Check for NULL pointers."@,
            kCGErrorInvalidConnection => "The parameter representing a connection to the window server is invalid."@,
            kCGErrorInvalidContext => "The CPSProcessSerNum or context identifier parameter is not valid."@,
            kCGErrorCannotComplete => "The requested operation is inappropriate for the parameters passed in, or the current system state."@,
            kCGErrorNameTooLong => "A parameter, typically a C string, is too long to be used without truncation."@,
            kCGErrorNotImplemented => "Return value from obsolete function stubs present for binary compatibility, but not normally called."@,
            kCGErrorRangeCheck => "A parameter passed in has a value that is inappropriate, or which does not map to a useful operation or value."@,
            kCGErrorTypeCheck => "A data type or token was encountered that did not match the expected type or token."@,
            kCGErrorNoCurrentPoint => "An operation relative to a known point or coordinate could not be done, as there is no known point."@,
            kCGErrorInvalidOperation => "The requested operation is not valid for the parameters passed in, or the current system state."@,
            kCGErrorNoneAvailable => "The requested operation could not be completed as the indicated resources were not found."@,
            kCGErrorApplicationRequiresNewerSystem => "The application requires a newer version of the operating system to run than is currently available."@,
            kCGErrorApplicationNotPermittedToExecute => "The application is not permitted to run."@,
            kCGErrorApplicationIncorrectExecutableFormatFound => "The application does not have any executable code for the current system."@,
            kCGErrorApplicationIsLaunching => "The application is in the process of launching but has not yet checked in with the window server."@,
            kCGErrorApplicationAlreadyRunning => "The application being launched was already running and checked in with the window server."@,
            kCGErrorApplicationCanOnlyBeRunInOneSessionAtATime => "The application being launched is incompatible with multiple user sessions and is already running in another user session."@,
            kCGErrorClassicApplicationsMustBeLaunchedByClassic => "The window server could not launch the application. It must be launched by the Classic environment."@,
            kCGErrorForkFailed => "The system was unable to fork a new process to launch the application."@,
            kCGErrorRetryRegistration => "The application should retry its registration shortly."@,
        }
    }

    /// The condition that the integer `val` is read as: the table behind
    /// [`CGError::from_i32`]. It holds every condition but success, whose
    /// integer, 0, is not read as a condition.
    pub open spec fn spec_from_i32(val: i32) -> Option<CGError> {
        match val {
            1000 => Some(kCGErrorFailure),
            1001 => Some(kCGErrorIllegalArgument),
            1002 => Some(kCGErrorInvalidConnection),
            1003 => Some(kCGErrorInvalidContext),
            1004 => Some(kCGErrorCannotComplete),
            1005 => Some(kCGErrorNameTooLong),
            1006 => Some(kCGErrorNotImplemented),
            1007 => Some(kCGErrorRangeCheck),
            1008 => Some(kCGErrorTypeCheck),
            1009 => Some(kCGErrorNoCurrentPoint),
            1010 => Some(kCGErrorInvalidOperation),
            1011 => Some(kCGErrorNoneAvailable),
            1015 => Some(kCGErrorApplicationRequiresNewerSystem),
            1016 => Some(kCGErrorApplicationNotPermittedToExecute),
            1023 => Some(kCGErrorApplicationIncorrectExecutableFormatFound),
            1024 => Some(kCGErrorApplicationIsLaunching),
            1025 => Some(kCGErrorApplicationAlreadyRunning),
            1026 => Some(kCGErrorApplicationCanOnlyBeRunInOneSessionAtATime),
            1027 => Some(kCGErrorClassicApplicationsMustBeLaunchedByClassic),
            1028 => Some(kCGErrorForkFailed),
            1029 => Some(kCGErrorRetryRegistration),
            _ => None,
        }
    }

    /// Gives the text that describes this condition. Every condition has
    /// one, that of success included, and none is empty.
    pub fn desc(self) -> (text: &'static str)
        ensures
            text@ == self.description(),
            text@.len() > 0,
    {
        cg_desc(self)
    }

    /// Gives the integer that the platform's interface uses for this
    /// condition.
    pub fn to_i32(self) -> (val: i32)
        ensures
            val == self.code(),
    {
        match self {
            kCGErrorSuccess => 0,
            kCGErrorFailure => 1000,
            kCGErrorIllegalArgument => 1001,
            kCGErrorInvalidConnection => 1002,
            kCGErrorInvalidContext => 1003,
            kCGErrorCannotComplete => 1004,
            kCGErrorNameTooLong => 1005,
            kCGErrorNotImplemented => 1006,
            kCGErrorRangeCheck => 1007,
            kCGErrorTypeCheck => 1008,
            kCGErrorNoCurrentPoint => 1009,
            kCGErrorInvalidOperation => 1010,
            kCGErrorNoneAvailable => 1011,
            kCGErrorApplicationRequiresNewerSystem => 1015,
            kCGErrorApplicationNotPermittedToExecute => 1016,
            kCGErrorApplicationIncorrectExecutableFormatFound => 1023,
            kCGErrorApplicationIsLaunching => 1024,
            kCGErrorApplicationAlreadyRunning => 1025,
            kCGErrorApplicationCanOnlyBeRunInOneSessionAtATime => 1026,
            kCGErrorClassicApplicationsMustBeLaunchedByClassic => 1027,
            kCGErrorForkFailed => 1028,
            kCGErrorRetryRegistration => 1029,
        }
    }

    /// Reads an integer of the platform's interface as the condition it
    /// stands for. The integer is compared for equality with the entries of
    /// the table and must be one of them. An unknown integer is a fault of
    /// the caller, not an input: callers that cannot rule it out use
    /// [`CGError::try_from_i32`].
    pub fn from_i32(val: i32) -> (err: CGError)
        requires
            Self::spec_from_i32(val) is Some,
        ensures
            Self::spec_from_i32(val) == Some(err),
            err.code() == val,
            err != kCGErrorSuccess,
    {
        match val {
            1000 => kCGErrorFailure,
            1001 => kCGErrorIllegalArgument,
            1002 => kCGErrorInvalidConnection,
            1003 => kCGErrorInvalidContext,
            1004 => kCGErrorCannotComplete,
            1005 => kCGErrorNameTooLong,
            1006 => kCGErrorNotImplemented,
            1007 => kCGErrorRangeCheck,
            1008 => kCGErrorTypeCheck,
            1009 => kCGErrorNoCurrentPoint,
            1010 => kCGErrorInvalidOperation,
            1011 => kCGErrorNoneAvailable,
            1015 => kCGErrorApplicationRequiresNewerSystem,
            1016 => kCGErrorApplicationNotPermittedToExecute,
            1023 => kCGErrorApplicationIncorrectExecutableFormatFound,
            1024 => kCGErrorApplicationIsLaunching,
            1025 => kCGErrorApplicationAlreadyRunning,
            1026 => kCGErrorApplicationCanOnlyBeRunInOneSessionAtATime,
            1027 => kCGErrorClassicApplicationsMustBeLaunchedByClassic,
            1028 => kCGErrorForkFailed,
            1029 => kCGErrorRetryRegistration,
            _ => unreached(),
        }
    }

    /// Reads an integer of the platform's interface as the condition it
    /// stands for, and gives `None` for every integer that the table does
    /// not hold: the gaps, 0, and all that lies outside 1000 to 1029.
    pub fn try_from_i32(val: i32) -> (found: Option<CGError>)
        ensures
            found == Self::spec_from_i32(val),
            found matches Some(err) ==> err.code() == val && err != kCGErrorSuccess,
    {
        let below_gaps = 1000 <= val && val <= 1011;
        let between_gaps = val == 1015 || val == 1016;
        let above_gaps = 1023 <= val && val <= 1029;
        if below_gaps || between_gaps || above_gaps {
            Some(Self::from_i32(val))
        } else {
            None
        }
    }
}

/// Gives the text that describes `err`: the table behind [`CGError::desc`].
pub fn cg_desc(err: CGError) -> (text: &'static str)
    ensures
        text@ == err.description(),
        text@.len() > 0,
{
    proof {
        lemma_description_nonempty(err);
    }
    match err {
        kCGErrorSuccess => "The requested operation was completed successfully.",
        kCGErrorFailure => "A general failure occurred.",
        kCGErrorIllegalArgument => "One or more of the parameters passed to a function are invalid. Check for NULL pointers.",
        kCGErrorInvalidConnection => "The parameter representing a connection to the window server is invalid.",
        kCGErrorInvalidContext => "The CPSProcessSerNum or context identifier parameter is not valid.",
        kCGErrorCannotComplete => "The requested operation is inappropriate for the parameters passed in, or the current system state.",
        kCGErrorNameTooLong => "A parameter, typically a C string, is too long to be used without truncation.",
        kCGErrorNotImplemented => "Return value from obsolete function stubs present for binary compatibility, but not normally called.",
        kCGErrorRangeCheck => "A parameter passed in has a value that is inappropriate, or which does not map to a useful operation or value.",
        kCGErrorTypeCheck => "A data type or token was encountered that did not match the expected type or token.",
        kCGErrorNoCurrentPoint => "An operation relative to a known point or coordinate could not be done, as there is no known point.",
        kCGErrorInvalidOperation => "The requested operation is not valid for the parameters passed in, or the current system state.",
        kCGErrorNoneAvailable => "The requested operation could not be completed as the indicated resources were not found.",
        kCGErrorApplicationRequiresNewerSystem => "The application requires a newer version of the operating system to run than is currently available.",
        kCGErrorApplicationNotPermittedToExecute => "The application is not permitted to run.",
        kCGErrorApplicationIncorrectExecutableFormatFound => "The application does not have any executable code for the current system.",
        kCGErrorApplicationIsLaunching => "The application is in the process of launching but has not yet checked in with the window server.",
        kCGErrorApplicationAlreadyRunning => "The application being launched was already running and checked in with the window server.",
        kCGErrorApplicationCanOnlyBeRunInOneSessionAtATime => "The application being launched is incompatible with multiple user sessions and is already running in another user session.",
        kCGErrorClassicApplicationsMustBeLaunchedByClassic => "The window server could not launch the application. It must be launched by the Classic environment.",
        kCGErrorForkFailed => "The system was unable to fork a new process to launch the application.",
        kCGErrorRetryRegistration => "The application should retry its registration shortly.",
    }
}

/// Every condition's description holds at least one character.
pub proof fn lemma_description_nonempty(err: CGError)
    ensures
        err.description().len() > 0,
{
    reveal_strlit("The requested operation was completed successfully.");
    reveal_strlit("A general failure occurred.");
    reveal_strlit("One or more of the parameters passed to a function are invalid. Check for NULL pointers.");
    reveal_strlit("The parameter representing a connection to the window server is invalid.");
    reveal_strlit("The CPSProcessSerNum or context identifier parameter is not valid.");
    reveal_strlit("The requested operation is inappropriate for the parameters passed in, or the current system state.");
    reveal_strlit("A parameter, typically a C string, is too long to be used without truncation.");
    reveal_strlit("Return value from obsolete function stubs present for binary compatibility, but not normally called.");
    reveal_strlit("A parameter passed in has a value that is inappropriate, or which does not map to a useful operation or value.");
    reveal_strlit("A data type or token was encountered that did not match the expected type or token.");
    reveal_strlit("An operation relative to a known point or coordinate could not be done, as there is no known point.");
    reveal_strlit("The requested operation is not valid for the parameters passed in, or the current system state.");
    reveal_strlit("The requested operation could not be completed as the indicated resources were not found.");
    reveal_strlit("The application requires a newer version of the operating system to run than is currently available.");
    reveal_strlit("The application is not permitted to run.");
    reveal_strlit("The application does not have any executable code for the current system.");
    reveal_strlit("The application is in the process of launching but has not yet checked in with the window server.");
    reveal_strlit("The application being launched was already running and checked in with the window server.");
    reveal_strlit("The application being launched is incompatible with multiple user sessions and is already running in another user session.");
    reveal_strlit("The window server could not launch the application. It must be launched by the Classic environment.");
    reveal_strlit("The system was unable to fork a new process to launch the application.");
    reveal_strlit("The application should retry its registration shortly.");
}

/// Round trip: the integer of every condition but success is read back as
/// that same condition.
pub proof fn lemma_code_round_trip(err: CGError)
    requires
        err != kCGErrorSuccess,
    ensures
        CGError::spec_from_i32(err.code()) == Some(err),
{
}

/// The integer of success is not read as a condition: the table of
/// [`CGError::spec_from_i32`] has no entry for it.
pub proof fn lemma_success_is_not_read()
    ensures
        CGError::spec_from_i32(kCGErrorSuccess.code()) is None,
{
}

/// What an integer is read as has that integer as its code, and is never
/// success.
pub proof fn lemma_read_condition_has_code(val: i32)
    ensures
        CGError::spec_from_i32(val) matches Some(err) ==> {
            &&& err.code() == val
            &&& err != kCGErrorSuccess
        },
{
}

/// An integer is read as a condition exactly when it is the code of a
/// condition other than success. Every other integer is read as none.
pub proof fn lemma_read_exactly_the_codes(val: i32)
    ensures
        CGError::spec_from_i32(val) is Some <==> exists|err: CGError|
            err != kCGErrorSuccess && #[trigger] err.code() == val,
{
    if let Some(err) = CGError::spec_from_i32(val) {
        assert(err != kCGErrorSuccess && err.code() == val);
    }
}

/// The integers that are read as a condition are those from 1000 to 1029
/// outside the two gaps, 1012 to 1014 and 1017 to 1022.
pub proof fn lemma_read_codes_are_in_range(val: i32)
    ensures
        CGError::spec_from_i32(val) is Some <==> {
            ||| 1000 <= val <= 1011
            ||| val == 1015
            ||| val == 1016
            ||| 1023 <= val <= 1029
        },
{
}

/// No two conditions share an integer.
pub proof fn lemma_code_injective(a: CGError, b: CGError)
    requires
        a.code() == b.code(),
    ensures
        a == b,
{
}

/// The transform stand-in carries no data: any two values of it are the same
/// value.
pub proof fn lemma_transform_carries_no_data(a: CGAffineTransform, b: CGAffineTransform)
    ensures
        a == b,
{
}

} // verus!
