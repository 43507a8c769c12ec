//! Kernel error codes: an `Error` always holds a negative errno in `[-MAX_ERRNO, -1]`, and an
//! "error pointer" is an address in the top `MAX_ERRNO` values of the address space.

use vstd::prelude::*;
use crate::file::BadFdError;

verus! {

/// Largest errno value the kernel encodes in an error pointer or an `Error`.
pub const MAX_ERRNO: i32 = 4095;

/// No such file or directory.
pub const ENOENT: i32 = 2;

/// Bad file number.
pub const EBADF: i32 = 9;

/// Out of memory.
pub const ENOMEM: i32 = 12;

/// Bad address.
pub const EFAULT: i32 = 14;

/// File exists.
pub const EEXIST: i32 = 17;

/// Invalid argument.
pub const EINVAL: i32 = 22;

/// A kernel error code.
#[derive(Clone, Copy, Debug, PartialEq, Eq, Structural)]
pub struct Error {
    errno: i32,
}

impl Error {
    #[verifier::type_invariant]
    spec fn inv(self) -> bool {
        -MAX_ERRNO <= self.errno < 0
    }

    /// The (negative) errno this error carries.
    pub closed spec fn errno(self) -> int {
        self.errno as int
    }

    /// The error for the positive errno constant `code`.
    pub closed spec fn of_code(code: i32) -> Error {
        Error { errno: (-code) as i32 }
    }

    /// The error for a positive errno constant carries its negation.
    pub broadcast proof fn lemma_of_code(code: i32)
        requires
            0 < code <= MAX_ERRNO,
        ensures
            #[trigger] Error::of_code(code).errno() == -code,
            Error::of_code(code).wf(),
    {
    }

    /// Every error carries an errno in `[-MAX_ERRNO, -1]`.
    pub closed spec fn wf(self) -> bool {
        -MAX_ERRNO <= self.errno < 0
    }

    /// Creates an error from a negative errno. Anything outside `[-MAX_ERRNO, -1]` is not a valid
    /// errno and becomes `EINVAL`.
    pub fn from_errno(errno: i32) -> (r: Error)
        ensures
            r.wf(),
            r.errno() == from_errno_spec(errno),
    {
        if errno < -MAX_ERRNO || errno >= 0 {
            Error { errno: -EINVAL }
        } else {
            Error { errno }
        }
    }

    /// The error for a positive errno constant such as `EBADF`.
    pub fn code(code: i32) -> (r: Error)
        requires
            0 < code <= MAX_ERRNO,
        ensures
            r.wf(),
            r.errno() == -code,
            r == Error::of_code(code),
    {
        Error { errno: -code }
    }

    /// The negative errno, as C callers expect it.
    pub fn to_errno(&self) -> (r: i32)
        ensures
            r == self.errno(),
            -MAX_ERRNO <= r < 0,
    {
        proof {
            use_type_invariant(self);
        }
        self.errno
    }
}

/// The errno `Error::from_errno` keeps for `errno`.
pub open spec fn from_errno_spec(errno: i32) -> int {
    if -MAX_ERRNO <= errno < 0 {
        errno as int
    } else {
        -EINVAL as int
    }
}

/// An error's errno turns back into the same errno, and an error pointer's errno is one
/// `from_errno` keeps.
pub proof fn lemma_errno_roundtrip(e: Error, ptr: usize)
    requires
        e.wf(),
        is_err_ptr_spec(ptr),
    ensures
        from_errno_spec(e.errno() as i32) == e.errno(),
        from_errno_spec((ptr as int - (usize::MAX as int + 1)) as i32) == ptr as int - (
        usize::MAX as int + 1),
{
}

/// Whether an address returned by a C function encodes an error (`IS_ERR`): the top
/// `MAX_ERRNO` values of the address space.
pub open spec fn is_err_ptr_spec(ptr: usize) -> bool {
    ptr as int >= usize::MAX as int + 1 - MAX_ERRNO
}

/// `IS_ERR`.
pub fn is_err_ptr(ptr: usize) -> (r: bool)
    ensures
        r == is_err_ptr_spec(ptr),
{
    ptr >= usize::MAX - 4094
}

/// Turns an address returned by a C function into a `Result`: an error pointer becomes the
/// errno it encodes (`PTR_ERR`), anything else (NULL included) is handed back.
pub fn from_err_ptr(ptr: usize) -> (r: Result<usize, Error>)
    ensures
        is_err_ptr_spec(ptr) <==> r is Err,
        r matches Ok(p) ==> p == ptr,
        r matches Err(e) ==> e.wf() && e.errno() == ptr as int - (usize::MAX as int + 1),
{
    if is_err_ptr(ptr) {
        let errno: i32 = (ptr - (usize::MAX - 4095)) as i32 - 4096;
        Err(Error::from_errno(errno))
    } else {
        Ok(ptr)
    }
}

impl From<BadFdError> for Error {
    /// `EBADF`.
    fn from(_e: BadFdError) -> (r: Error) {
        Error::code(EBADF)
    }
}

impl vstd::std_specs::convert::FromSpecImpl<BadFdError> for Error {
    open spec fn obeys_from_spec() -> bool {
        true
    }

    open spec fn from_spec(v: BadFdError) -> Error {
        Error::of_code(EBADF)
    }
}

} // verus!
