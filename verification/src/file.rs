//! Files and file descriptors.
//!
//! A C `struct file *` is held as its address. The kinds of file handle differ in what they
//! promise about the file, and carry the type of the file's private data:
//! * `File<P>`: a file that may be shared between threads;
//! * `LocalFile<P>`: a file that may have a light `fdget_pos` reference on the current thread;
//! * `InitFile<P>`: the unique handle to a file being opened, which may change its private data;
//! * `RawFile<P>`: a bare file pointer, which every other kind can be seen as.

use vstd::prelude::*;
use core::marker::PhantomData;
use crate::error::Error;

pub mod operations;
mod sealed;

verus! {

/// Marks private data that is a reference outliving the file (such as driver static data).
pub struct Outlives<T>(PhantomData<T>);

/// Private-data kinds that are references outliving the file.
pub trait OutlivesRef: sealed::Sealed {
    /// What the reference points at.
    type Target;
}

impl<T> sealed::Sealed for Outlives<T> {}

impl<T> OutlivesRef for Outlives<T> {
    type Target = T;
}

/// A file that may be shared between threads.
pub struct File<P> {
    inner: usize,
    phantom: PhantomData<P>,
}

/// A file that may have a light `fdget_pos` reference on the current thread.
pub struct LocalFile<P> {
    inner: usize,
    phantom: PhantomData<P>,
}

/// The unique handle to a file being opened, together with the file's private data.
pub struct InitFile<P> {
    inner: usize,
    private_data: usize,
    phantom: PhantomData<P>,
}

/// A bare file pointer.
pub struct RawFile<P> {
    inner: usize,
    phantom: PhantomData<P>,
}

/// The `EBADF` error, for operations whose only failure is a bad file descriptor.
#[derive(Clone, Copy, PartialEq, Eq, Structural, Debug)]
pub struct BadFdError;

impl BadFdError {
    /// Appends how the error is shown: `EBADF`.
    pub fn fmt(&self, f: &mut Vec<u8>)
        ensures
            final(f)@ == old(f)@ + seq![69u8, 66u8, 65u8, 68u8, 70u8],
    {
        f.push(69);
        f.push(66);
        f.push(65);
        f.push(68);
        f.push(70);
        assert(final(f)@ =~= old(f)@ + seq![69u8, 66u8, 65u8, 68u8, 70u8]);
    }
}

impl<P> RawFile<P> {
    /// Address of the `struct file`.
    pub closed spec fn addr(&self) -> usize {
        self.inner
    }

    /// The file at `ptr`.
    pub fn from_raw_file(ptr: usize) -> (r: Self)
        ensures
            r.addr() == ptr,
    {
        RawFile { inner: ptr, phantom: PhantomData }
    }

    /// Address of the `struct file`.
    pub fn as_ptr(&self) -> (r: usize)
        ensures
            r == self.addr(),
    {
        self.inner
    }
}

impl<P> LocalFile<P> {
    /// Address of the `struct file`.
    pub closed spec fn addr(&self) -> usize {
        self.inner
    }

    /// Completes `fget(fd)` from the address it returned: NULL means the descriptor was bad.
    pub fn fget(raw: usize) -> (r: Result<Self, BadFdError>)
        ensures
            r is Err <==> raw == 0,
            r matches Ok(f) ==> f.addr() == raw,
    {
        if raw == 0 {
            Err(BadFdError)
        } else {
            Ok(LocalFile { inner: raw, phantom: PhantomData })
        }
    }

    /// The file at `ptr`.
    pub fn from_raw_file(ptr: usize) -> (r: Self)
        ensures
            r.addr() == ptr,
    {
        LocalFile { inner: ptr, phantom: PhantomData }
    }

    /// The same file, once the caller knows that no light `fdget_pos` reference to it exists
    /// on the current thread.
    pub fn assume_no_fdget_pos(me: Self) -> (r: File<P>)
        ensures
            r.addr() == me.addr(),
    {
        File { inner: me.inner, phantom: PhantomData }
    }

    /// The file as a bare file pointer.
    pub fn as_raw(&self) -> (r: RawFile<P>)
        ensures
            r.addr() == self.addr(),
    {
        RawFile::from_raw_file(self.inner)
    }
}

impl<P> File<P> {
    /// Address of the `struct file`.
    pub closed spec fn addr(&self) -> usize {
        self.inner
    }

    /// The file at `ptr`.
    pub fn from_raw_file(ptr: usize) -> (r: Self)
        ensures
            r.addr() == ptr,
    {
        File { inner: ptr, phantom: PhantomData }
    }

    /// The file seen as a file that is not known to be shareable.
    pub fn as_local(&self) -> (r: LocalFile<P>)
        ensures
            r.addr() == self.addr(),
    {
        LocalFile::from_raw_file(self.inner)
    }

    /// The file as a bare file pointer.
    pub fn as_raw(&self) -> (r: RawFile<P>)
        ensures
            r.addr() == self.addr(),
    {
        RawFile::from_raw_file(self.inner)
    }
}

impl<P> InitFile<P> {
    /// Address of the `struct file`.
    pub closed spec fn addr(&self) -> usize {
        self.inner
    }

    /// The file's private data pointer.
    pub closed spec fn private(&self) -> usize {
        self.private_data
    }

    /// The file being opened at `ptr`, whose private data pointer is `private_data`.
    pub fn from_raw_file(ptr: usize, private_data: usize) -> (r: Self)
        ensures
            r.addr() == ptr,
            r.private() == private_data,
    {
        InitFile { inner: ptr, private_data, phantom: PhantomData }
    }

    /// Initialisation is over: the file, now shareable.
    pub fn init(self) -> (r: File<P>)
        ensures
            r.addr() == self.addr(),
    {
        File { inner: self.inner, phantom: PhantomData }
    }

    /// The private data pointer.
    pub fn private_data(&self) -> (r: usize)
        ensures
            r == self.private(),
    {
        self.private_data
    }

    /// The file as a bare file pointer.
    pub fn as_raw(&self) -> (r: RawFile<P>)
        ensures
            r.addr() == self.addr(),
    {
        RawFile::from_raw_file(self.inner)
    }

    /// Replaces owned (or unknown) private data by the owned value whose foreign form is at
    /// `val`. Returns the file and the previous private data, which the caller releases.
    pub fn set_private<Q>(self, val: usize) -> (r: (InitFile<Q>, usize))
        ensures
            r.0.addr() == self.addr(),
            r.0.private() == val,
            r.1 == self.private(),
    {
        let old = self.private_data;
        (InitFile { inner: self.inner, private_data: val, phantom: PhantomData }, old)
    }

    /// Replaces owned (or unknown) private data by a reference to `target`, which outlives the
    /// file. Returns the file and the previous private data, which the caller releases.
    pub fn set_private_outlives<Q: OutlivesRef>(self, target: usize) -> (r: (InitFile<Q>, usize))
        ensures
            r.0.addr() == self.addr(),
            r.0.private() == target,
            r.1 == self.private(),
    {
        let old = self.private_data;
        (InitFile { inner: self.inner, private_data: target, phantom: PhantomData }, old)
    }

    /// Replaces a reference that outlives the file by the owned value whose foreign form is at
    /// `val`; nothing is released.
    pub fn overwrite_private<Q>(self, val: usize) -> (r: InitFile<Q>)
        ensures
            r.addr() == self.addr(),
            r.private() == val,
    {
        InitFile { inner: self.inner, private_data: val, phantom: PhantomData }
    }

    /// Replaces a reference that outlives the file by a reference to `target`.
    pub fn overwrite_private_outlives<Q: OutlivesRef>(self, target: usize) -> (r: InitFile<Q>)
        ensures
            r.addr() == self.addr(),
            r.private() == target,
    {
        InitFile { inner: self.inner, private_data: target, phantom: PhantomData }
    }
}

/// A reserved file descriptor of the current task, not yet bound to a file.
pub struct FileDescriptorReservation {
    fd: u32,
}

impl FileDescriptorReservation {
    /// The reserved descriptor.
    pub closed spec fn fd(&self) -> u32 {
        self.fd
    }

    /// Completes a reservation from what `get_unused_fd_flags` returned: a negative value is
    /// the errno of the failure, anything else is the reserved descriptor.
    pub fn get_unused_fd_flags(ret: i32) -> (r: Result<Self, Error>)
        ensures
            r is Err <==> ret < 0,
            r matches Ok(res) ==> res.fd() == ret,
            r matches Err(e) ==> e.wf() && (-crate::error::MAX_ERRNO <= ret ==> e.errno() == ret)
                && (ret < -crate::error::MAX_ERRNO ==> e.errno() == -crate::error::EINVAL),
    {
        if ret < 0 {
            return Err(Error::from_errno(ret));
        }
        Ok(FileDescriptorReservation { fd: ret as u32 })
    }

    /// The reserved descriptor.
    pub fn reserved_fd(&self) -> (r: u32)
        ensures
            r == self.fd(),
    {
        self.fd
    }

    /// Commits the reservation: the descriptor and file address to hand to `fd_install`, which
    /// takes over both the descriptor and the file reference.
    pub fn fd_install<P>(self, file: File<P>) -> (r: (u32, usize))
        ensures
            r.0 == self.fd(),
            r.1 == file.addr(),
    {
        (self.fd, file.inner)
    }

    /// Gives the reservation back: the descriptor to hand to `put_unused_fd`.
    pub fn release(self) -> (r: u32)
        ensures
            r == self.fd(),
    {
        self.fd
    }
}

} // verus!
