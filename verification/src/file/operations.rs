//! Filling out a `file_operations` table from an implementation of `Operations`, and turning
//! the implementation's results into what the C callers expect.

use vstd::prelude::*;
use super::{File, InitFile, RawFile};
use crate::error::Error;

verus! {

/// The `whence` argument of a seek.
#[derive(PartialEq, Eq, Structural)]
pub struct Whence(pub i32);

/// `Some(t)` if `b`, else `None`.
pub fn then_some<T: Copy>(b: bool, t: T) -> (r: Option<T>)
    ensures
        b ==> r == Some(t),
        !b ==> r is None,
{
    if b {
        Some(t)
    } else {
        None
    }
}

/// What fills the `compat_ioctl` slot.
#[derive(Clone, Copy, PartialEq, Eq, Structural)]
pub enum CompatIoctl {
    /// The slot is empty.
    Empty,
    /// The implementation's own `compat_ioctl`.
    Own,
    /// `compat_ptr_ioctl`, which forwards to `unlocked_ioctl`.
    PtrIoctl,
}

/// Which slots of a `file_operations` table are filled.
#[derive(Clone, Copy, PartialEq, Eq, Structural)]
pub struct VTable {
    /// `open`.
    pub open: bool,
    /// `release`.
    pub release: bool,
    /// `unlocked_ioctl`.
    pub unlocked_ioctl: bool,
    /// `compat_ioctl`.
    pub compat_ioctl: CompatIoctl,
    /// `show_fdinfo`.
    pub show_fdinfo: bool,
}

/// File operations implemented in Rust. Each `HAS_*` constant says whether the implementation
/// provides the operation; an operation it does not provide is never called.
pub trait Operations: Sized {
    /// Private data of an open file.
    type State;

    /// Whether `release` is provided.
    const HAS_RELEASE: bool;
    /// Whether `ioctl` is provided.
    const HAS_IOCTL: bool;
    /// Whether `compat_ioctl` is provided.
    const HAS_COMPAT_IOCTL: bool;
    /// Whether `show_fdinfo` is provided.
    const HAS_SHOW_FDINFO: bool;

    /// Opens a file: the private data it is to hold, or the error `open` fails with.
    fn open(file: &RawFile<()>) -> Result<Self::State, Error>;

    /// Releases a file, before its private data is dropped.
    fn release(file: &File<Self::State>);

    /// Handles an ioctl.
    fn ioctl(file: &File<Self::State>, cmd: u32, arg: usize) -> Result<usize, Error>;

    /// Handles a 32-bit ioctl on a 64-bit kernel.
    fn compat_ioctl(file: &File<Self::State>, cmd: u32, arg: usize) -> Result<usize, Error>;
}

/// The slots filled for an implementation with the given operations.
pub open spec fn vtable_spec(
    has_release: bool,
    state_needs_drop: bool,
    has_ioctl: bool,
    has_compat_ioctl: bool,
    has_show_fdinfo: bool,
) -> VTable {
    VTable {
        open: true,
        release: has_release || state_needs_drop,
        unlocked_ioctl: has_ioctl,
        compat_ioctl: if has_compat_ioctl {
            CompatIoctl::Own
        } else if has_ioctl {
            CompatIoctl::PtrIoctl
        } else {
            CompatIoctl::Empty
        },
        show_fdinfo: has_show_fdinfo,
    }
}

/// Which slots a table has: `open` always; `release` exactly when the implementation provides
/// it or its private data needs dropping, so private data that needs dropping is always
/// released; `unlocked_ioctl` and `show_fdinfo` exactly when provided; `compat_ioctl` filled
/// exactly when `compat_ioctl` or `ioctl` is provided, by the implementation's own when it has
/// one.
pub proof fn lemma_vtable_slots(
    has_release: bool,
    state_needs_drop: bool,
    has_ioctl: bool,
    has_compat_ioctl: bool,
    has_show_fdinfo: bool,
)
    ensures
        ({
            let t = vtable_spec(
                has_release,
                state_needs_drop,
                has_ioctl,
                has_compat_ioctl,
                has_show_fdinfo,
            );
            &&& t.open
            &&& t.release <==> (has_release || state_needs_drop)
            &&& state_needs_drop ==> t.release
            &&& t.unlocked_ioctl <==> has_ioctl
            &&& t.show_fdinfo <==> has_show_fdinfo
            &&& (t.compat_ioctl == CompatIoctl::Own <==> has_compat_ioctl)
            &&& (t.compat_ioctl == CompatIoctl::PtrIoctl <==> (!has_compat_ioctl && has_ioctl))
            &&& (t.compat_ioctl == CompatIoctl::Empty <==> (!has_compat_ioctl && !has_ioctl))
        }),
{
}

/// The slots filled for an implementation with the given operations: `open` always; `release`
/// when provided or when the private data needs dropping; `unlocked_ioctl` and `show_fdinfo`
/// when provided; `compat_ioctl` by the implementation's own when provided, else by
/// `compat_ptr_ioctl` when `ioctl` is provided.
pub fn vtable_slots(
    has_release: bool,
    state_needs_drop: bool,
    has_ioctl: bool,
    has_compat_ioctl: bool,
    has_show_fdinfo: bool,
) -> (r: VTable)
    ensures
        r.open,
        r.release == (has_release || state_needs_drop),
        r.unlocked_ioctl == has_ioctl,
        r.compat_ioctl == (if has_compat_ioctl {
            CompatIoctl::Own
        } else if has_ioctl {
            CompatIoctl::PtrIoctl
        } else {
            CompatIoctl::Empty
        }),
        r.show_fdinfo == has_show_fdinfo,
{
    VTable {
        open: true,
        release: has_release || state_needs_drop,
        unlocked_ioctl: then_some(has_ioctl, ()).is_some(),
        compat_ioctl: if has_compat_ioctl {
            CompatIoctl::Own
        } else if has_ioctl {
            CompatIoctl::PtrIoctl
        } else {
            CompatIoctl::Empty
        },
        show_fdinfo: then_some(has_show_fdinfo, ()).is_some(),
    }
}

/// The table for `T`, whose private data needs dropping when `state_needs_drop`.
pub fn vtable<T: Operations>(state_needs_drop: bool) -> (r: VTable)
    ensures
        r.open,
        r.release == (T::HAS_RELEASE || state_needs_drop),
        r.unlocked_ioctl == T::HAS_IOCTL,
        r.compat_ioctl == (if T::HAS_COMPAT_IOCTL {
            CompatIoctl::Own
        } else if T::HAS_IOCTL {
            CompatIoctl::PtrIoctl
        } else {
            CompatIoctl::Empty
        }),
        r.show_fdinfo == T::HAS_SHOW_FDINFO,
        r == vtable_spec(
            T::HAS_RELEASE,
            state_needs_drop,
            T::HAS_IOCTL,
            T::HAS_COMPAT_IOCTL,
            T::HAS_SHOW_FDINFO,
        ),
{
    vtable_slots(T::HAS_RELEASE, state_needs_drop, T::HAS_IOCTL, T::HAS_COMPAT_IOCTL, T::HAS_SHOW_FDINFO)
}

/// What an ioctl handler hands back to C: the result, reinterpreted as a `long`, or the errno.
pub open spec fn ioctl_return_spec(r: Result<usize, Error>) -> i64 {
    match r {
        Ok(v) => v as i64,
        Err(e) => e.errno() as i64,
    }
}

/// What an ioctl handler hands back to C for the result `r`.
pub fn ioctl_return(r: Result<usize, Error>) -> (ret: i64)
    ensures
        ret == ioctl_return_spec(r),
{
    match r {
        Ok(v) => v as i64,
        Err(e) => e.to_errno() as i64,
    }
}

/// The `unlocked_ioctl` entry: runs `T::ioctl` on the file at `file` and hands back what C
/// expects for its result.
pub fn fops_ioctl<T: Operations>(file: usize, cmd: u32, arg: usize) -> (ret: i64)
    ensures
        exists|f: File<T::State>, r: Result<usize, Error>|
            f.addr() == file && call_ensures(T::ioctl, (&f, cmd, arg), r) && ret
                == ioctl_return_spec(r),
{
    let f: File<T::State> = File::from_raw_file(file);
    let r = T::ioctl(&f, cmd, arg);
    ioctl_return(r)
}

/// The `compat_ioctl` entry: runs `T::compat_ioctl` and hands back what C expects.
pub fn fops_compat_ioctl<T: Operations>(file: usize, cmd: u32, arg: usize) -> (ret: i64)
    ensures
        exists|f: File<T::State>, r: Result<usize, Error>|
            f.addr() == file && call_ensures(T::compat_ioctl, (&f, cmd, arg), r) && ret
                == ioctl_return_spec(r),
{
    let f: File<T::State> = File::from_raw_file(file);
    let r = T::compat_ioctl(&f, cmd, arg);
    ioctl_return(r)
}

/// The `open` entry, after `generic_file_open` returned `generic_ret` for the file being opened:
/// a nonzero `generic_ret` is returned as is and `T::open` is not run; otherwise `T::open` runs
/// and either its error's errno is returned, or the file is handed back with the state it is to
/// hold as private data (the caller stores it and returns `0`).
pub fn fops_open<T: Operations>(generic_ret: i32, file: InitFile<()>) -> (r: Result<
    (InitFile<()>, T::State),
    i32,
>)
    ensures
        generic_ret != 0 ==> r == Err::<(InitFile<()>, T::State), i32>(generic_ret),
        generic_ret == 0 ==> (r matches Err(e) ==> -crate::error::MAX_ERRNO <= e < 0),
        r matches Ok(p) ==> p.0.addr() == file.addr() && p.0.private() == file.private(),
        generic_ret == 0 ==> exists|raw: RawFile<()>, s: Result<T::State, Error>|
            raw.addr() == file.addr() && call_ensures(T::open, (&raw,), s) && match s {
                Ok(st) => (r matches Ok(p) && p.1 == st),
                Err(e) => r == Err::<(InitFile<()>, T::State), i32>(e.errno() as i32),
            },
{
    if generic_ret != 0 {
        return Err(generic_ret);
    }
    let raw = file.as_raw();
    match T::open(&raw) {
        Err(err) => Err(err.to_errno()),
        Ok(state) => Ok((file, state)),
    }
}

/// The end of a successful `open`: the state `T::open` returned, in its foreign form at
/// `state_foreign`, becomes the file's private data. Returns `0` for C, the file, and the
/// previous private data, which the caller releases.
pub fn fops_open_install<T: Operations>(file: InitFile<()>, state_foreign: usize) -> (r: (
    i32,
    InitFile<T::State>,
    usize,
))
    ensures
        r.0 == 0,
        r.1.addr() == file.addr(),
        r.1.private() == state_foreign,
        r.2 == file.private(),
{
    let (file, old) = file.set_private::<T::State>(state_foreign);
    (0, file, old)
}

/// The `release` entry for the file at `file`, whose private data is at `private_data`: runs
/// `T::release` when it is provided, then takes the private data out of the file. Returns `0`
/// for C and the private data, which the caller drops after this returns.
pub fn fops_release<T: Operations>(file: usize, private_data: usize) -> (r: (i32, usize))
    ensures
        r.0 == 0,
        r.1 == private_data,
        T::HAS_RELEASE ==> exists|f: File<T::State>|
            f.addr() == file && call_ensures(T::release, (&f,), ()),
{
    let f: File<T::State> = File::from_raw_file(file);
    if T::HAS_RELEASE {
        T::release(&f);
    }
    (0, private_data)
}

} // verus!
