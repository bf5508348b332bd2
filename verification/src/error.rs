//! Error codes.

use vstd::prelude::*;

verus! {

/// The largest magnitude of an error number.
pub const MAX_ERRNO: i32 = 4095;

/// The code with which binderfs reports that a file of that name is already there.
pub const EEXIST: i32 = -17;

/// A failure reported by a kernel service, held as its (negative) error number.
#[derive(Clone, Copy, Debug, PartialEq, Eq, Structural)]
pub struct Error {
    pub errno: i32,
}

/// The failure of an allocation.
#[derive(Clone, Copy, Debug, PartialEq, Eq, Structural)]
pub struct AllocError;

impl Error {
    /// Error numbers are negative, so that none of them can be taken for success, and small,
    /// so that C can tell them from addresses.
    pub open spec fn wf(self) -> bool {
        -MAX_ERRNO <= self.errno < 0
    }

    /// The error with this number, if it is one.
    pub fn new(errno: i32) -> (res: Option<Error>)
        ensures
            res == (if -MAX_ERRNO <= errno < 0 {
                Some(Error { errno })
            } else {
                None::<Error>
            }),
            res matches Some(err) ==> err.wf(),
    {
        if -MAX_ERRNO <= errno && errno < 0 {
            Some(Error { errno })
        } else {
            None
        }
    }

    /// The error number that is returned to C.
    pub fn to_errno(self) -> (res: i32)
        ensures
            res == self.errno,
    {
        self.errno
    }
}

/// The return value of a C callback for `result`: 0, or the error number.
pub open spec fn errno_of(result: Result<(), Error>) -> int {
    match result {
        Ok(_) => 0,
        Err(err) => err.errno as int,
    }
}

/// 0 is returned for success and for nothing else, failures are negative and in the range
/// that C takes for errors, and two failures are told apart by what is returned for them.
pub proof fn law_zero_means_success(result: Result<(), Error>, other: Result<(), Error>)
    requires
        result matches Err(err) ==> err.wf(),
        other matches Err(err) ==> err.wf(),
    ensures
        -4095 <= errno_of(result) <= 0,
        result matches Err(err) ==> errno_of(result) == err.errno,
        errno_of(result) == 0 <==> result is Ok,
        errno_of(result) == errno_of(other) ==> result == other,
{
    if result is Ok && other is Ok {
        assert(result->Ok_0 == other->Ok_0);
    }
}

/// The numbers from -4095 to -1, and no others, are errors; an error is returned to C as the
/// number that it was made of.
pub proof fn law_error_keeps_its_number(errno: i32, made: Option<Error>, err: Error, res: i32)
    requires
        call_ensures(Error::new, (errno,), made),
        call_ensures(Error::to_errno, (err,), res),
    ensures
        made is Some <==> -4095 <= errno <= -1,
        made matches Some(e) ==> e.errno == errno,
        made == Some(err) ==> res == errno,
        res == err.errno,
{
}

/// A failure is returned to C as its own number, which is never that of success.
pub proof fn law_failure_is_returned_as_its_number(err: Error)
    ensures
        errno_of(Err(err)) == err.errno,
        errno_of(Ok(())) == 0,
        err.wf() <==> -4095 <= errno_of(Err(err)) <= -1,
{
}

} // verus!
