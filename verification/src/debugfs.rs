//! DebugFS handles.
//!
//! A `Dir` owns a DebugFS directory entry and keeps its parent's entry alive; a directory whose
//! creation failed is a `Dir` without an entry, and everything created under it is skipped. A
//! `File` owns a file entry and the data the file shows.
//!
//! The entries themselves are made by `debugfs_create_dir` and `debugfs_create_file_full`;
//! here each entry is held as the address those calls returned (`0` for NULL), and the calls
//! are split into what to ask for (`create_parent`, `file_request`) and what to keep from the
//! answer (`new`, `subdir`, `display_file`).

use vstd::prelude::*;
use std::sync::Arc;
use crate::text::dec;

verus! {

/// Permissions of the files `display_file` creates (read-only for everyone).
pub const DISPLAY_FILE_MODE: u16 = 0o444;

/// Owning handle to a DebugFS entry, which keeps its parent entry alive.
pub struct Entry {
    entry: usize,
    parent: Option<Arc<Entry>>,
}

impl Entry {
    /// Address of the entry's `dentry` (NULL or an error pointer when creation failed).
    pub closed spec fn ptr(&self) -> usize {
        self.entry
    }

    /// The parent entry this entry keeps alive.
    pub closed spec fn parent(&self) -> Option<Arc<Entry>> {
        self.parent
    }

    /// Takes ownership of the `dentry` at `entry`, whose parent is `parent`.
    pub fn new(entry: usize, parent: Option<Arc<Entry>>) -> (r: Self)
        ensures
            r.ptr() == entry,
            r.parent() == parent,
    {
        Entry { entry, parent }
    }

    /// A placeholder entry: NULL, without parent.
    pub fn empty() -> (r: Self)
        ensures
            r.ptr() == 0,
            r.parent() is None,
    {
        Entry { entry: 0, parent: None }
    }

    /// Address of the entry's `dentry`.
    pub fn as_ptr(&self) -> (r: usize)
        ensures
            r == self.ptr(),
    {
        self.entry
    }
}

/// Owning handle to a DebugFS directory.
pub struct Dir(Option<Arc<Entry>>);

/// Owning handle to a DebugFS file, and to the data it shows (held as the address of its
/// foreign representation).
pub struct File {
    entry: Entry,
    foreign: ForeignHolder,
}

/// Holder of the data a DebugFS file shows, in its foreign (type-erased) representation.
pub struct ForeignHolder {
    data: usize,
}

/// What `debugfs_create_file_full` is asked for: the parent directory, the file mode, and the
/// foreign representation of the data the file shows (no auxiliary data is passed).
#[derive(Clone, Copy, PartialEq, Eq, Structural)]
pub struct FileRequest {
    /// Address of the parent directory's `dentry`.
    pub parent: usize,
    /// Mode of the file.
    pub mode: u16,
    /// Address of the foreign representation of the file's data.
    pub data: usize,
}

impl ForeignHolder {
    /// Holds the data whose foreign representation is at `data`.
    pub fn new(data: usize) -> (r: Self)
        ensures
            r.data() == data,
    {
        ForeignHolder { data }
    }

    /// Address of the foreign representation.
    pub closed spec fn data(&self) -> usize {
        self.data
    }

    /// Address of the foreign representation, as it is handed to `debugfs_create_file_full`
    /// and to the data's drop hook.
    pub fn as_ptr(&self) -> (r: usize)
        ensures
            r == self.data(),
    {
        self.data
    }
}

impl File {
    /// The file's entry.
    pub closed spec fn entry(&self) -> Entry {
        self.entry
    }

    /// The data the file shows.
    pub closed spec fn foreign(&self) -> ForeignHolder {
        self.foreign
    }

    /// Address of the file's `dentry` (NULL when it was never created).
    pub fn as_ptr(&self) -> (r: usize)
        ensures
            r == self.entry().ptr(),
    {
        self.entry.as_ptr()
    }

    /// Address of the data the file shows.
    pub fn data_ptr(&self) -> (r: usize)
        ensures
            r == self.foreign().data(),
    {
        self.foreign.as_ptr()
    }
}

impl Dir {
    /// The directory's entry; `None` when the directory could not be created.
    pub closed spec fn entry(&self) -> Option<Arc<Entry>> {
        self.0
    }

    /// Where `debugfs_create_dir` must create a directory whose parent is `parent`: `Some(0)`
    /// (NULL) for the root, the parent's `dentry` for a subdirectory, and `None` when the parent
    /// itself could not be created, in which case `debugfs_create_dir` is not called.
    pub fn create_parent(parent: Option<&Dir>) -> (r: Option<usize>)
        ensures
            match parent {
                None => r == Some(0usize),
                Some(d) => match d.entry() {
                    None => r is None,
                    Some(e) => r == Some(e.ptr()),
                },
            },
    {
        match parent {
            None => Some(0),
            Some(Dir(None)) => None,
            Some(Dir(Some(entry))) => Some(entry.as_ptr()),
        }
    }

    /// The directory made by `debugfs_create_dir` under `parent`, which returned `dentry`. A
    /// parent that could not be created yields a directory that could not be created either.
    fn create(parent: Option<&Dir>, dentry: usize) -> (r: Self)
        ensures
            match parent {
                None => r.entry() matches Some(e) && e.ptr() == dentry && e.parent() is None,
                Some(d) => match d.entry() {
                    None => r.entry() is None,
                    Some(p) => r.entry() matches Some(e) && e.ptr() == dentry && e.parent()
                        == Some(p),
                },
            },
    {
        match parent {
            Some(Dir(None)) => Dir(None),
            Some(Dir(Some(entry))) => Dir(Some(Arc::new(Entry::new(dentry, Some(entry.clone()))))),
            None => Dir(Some(Arc::new(Entry::new(dentry, None)))),
        }
    }

    /// The subdirectory of `self` made by `debugfs_create_dir`, which returned `dentry`; a
    /// subdirectory of a directory that could not be created could not be created either.
    pub fn subdir(&self, dentry: usize) -> (r: Self)
        ensures
            match self.entry() {
                None => r.entry() is None,
                Some(p) => r.entry() matches Some(e) && e.ptr() == dentry && e.parent() == Some(p),
            },
    {
        Dir::create(Some(self), dentry)
    }

    /// The root-level directory made by `debugfs_create_dir`, which returned `dentry`.
    pub fn new(dentry: usize) -> (r: Self)
        ensures
            r.entry() matches Some(e) && e.ptr() == dentry && e.parent() is None,
    {
        Dir::create(None, dentry)
    }

    /// What `debugfs_create_file_full` must be asked for to create a file in `self` showing
    /// `data`, or `None` when `self` could not be created, in which case no file is created.
    pub fn file_request(&self, data: &ForeignHolder) -> (r: Option<FileRequest>)
        ensures
            match self.entry() {
                None => r is None,
                Some(p) => r == Some(
                    FileRequest { parent: p.ptr(), mode: DISPLAY_FILE_MODE, data: data.data() },
                ),
            },
    {
        match &self.0 {
            None => None,
            Some(parent) => Some(
                FileRequest { parent: parent.as_ptr(), mode: DISPLAY_FILE_MODE, data: data.as_ptr() },
            ),
        }
    }

    fn create_file(&self, data: ForeignHolder, dentry: usize) -> (r: File)
        ensures
            r.foreign() == data,
            match self.entry() {
                None => r.entry().ptr() == 0 && r.entry().parent() is None,
                Some(p) => r.entry().ptr() == dentry && r.entry().parent() == Some(p),
            },
    {
        let mut file = File { entry: Entry::empty(), foreign: data };
        match &self.0 {
            None => file,
            Some(parent) => {
                file.entry = Entry::new(dentry, Some(parent.clone()));
                file
            },
        }
    }

    /// The file in `self` showing `data`, made by `debugfs_create_file_full`, which returned
    /// `dentry`. In a directory that could not be created the file has no entry (NULL), but it
    /// still owns `data`.
    pub fn display_file(&self, data: ForeignHolder, dentry: usize) -> (r: File)
        ensures
            r.foreign() == data,
            match self.entry() {
                None => r.entry().ptr() == 0 && r.entry().parent() is None,
                Some(p) => r.entry().ptr() == dentry && r.entry().parent() == Some(p),
            },
    {
        self.create_file(data, dentry)
    }
}

/// A value a display file shows: the text its `Display` form produces.
pub trait Show {
    /// The bytes `show` appends.
    spec fn shown(&self) -> Seq<u8>;

    /// Appends the text of `self`.
    fn show(&self, f: &mut Vec<u8>)
        ensures
            final(f)@ == old(f)@ + self.shown(),
    ;
}

/// What one read of a display file showing `data` yields, appended to the file's buffer `seq`.
pub fn display_act<D: Show>(data: &D, seq: &mut Vec<u8>)
    ensures
        final(seq)@ == old(seq)@ + data.shown(),
{
    data.show(seq);
}

impl Show for u8 {
    open spec fn shown(&self) -> Seq<u8> {
        dec(*self as nat)
    }

    fn show(&self, f: &mut Vec<u8>) {
        crate::text::push_dec(f, *self as u64);
    }
}

impl Show for u16 {
    open spec fn shown(&self) -> Seq<u8> {
        dec(*self as nat)
    }

    fn show(&self, f: &mut Vec<u8>) {
        crate::text::push_dec(f, *self as u64);
    }
}

impl Show for u32 {
    open spec fn shown(&self) -> Seq<u8> {
        dec(*self as nat)
    }

    fn show(&self, f: &mut Vec<u8>) {
        crate::text::push_dec(f, *self as u64);
    }
}

impl Show for u64 {
    open spec fn shown(&self) -> Seq<u8> {
        dec(*self as nat)
    }

    fn show(&self, f: &mut Vec<u8>) {
        crate::text::push_dec(f, *self);
    }
}

impl Show for usize {
    open spec fn shown(&self) -> Seq<u8> {
        dec(*self as nat)
    }

    fn show(&self, f: &mut Vec<u8>) {
        crate::text::push_dec(f, *self as u64);
    }
}

/// A C string (its bytes without the NUL), shown with non-printable bytes escaped.
impl Show for Vec<u8> {
    open spec fn shown(&self) -> Seq<u8> {
        crate::text::escape(self@)
    }

    fn show(&self, f: &mut Vec<u8>) {
        crate::text::push_escaped(f, self.as_slice());
    }
}

/// A value that can be rendered into the text a DebugFS file shows: its `Debug` form followed
/// by a newline.
pub trait Render {
    /// The bytes `render` appends.
    spec fn rendered(&self) -> Seq<u8>;

    /// Appends the rendering of `self`.
    fn render(&self, f: &mut Vec<u8>)
        ensures
            final(f)@ == old(f)@ + self.rendered(),
    ;
}

impl Render for u8 {
    open spec fn rendered(&self) -> Seq<u8> {
        dec(*self as nat).push(10u8)
    }

    fn render(&self, f: &mut Vec<u8>) {
        crate::text::push_dec(f, *self as u64);
        f.push(10);
    }
}

impl Render for u16 {
    open spec fn rendered(&self) -> Seq<u8> {
        dec(*self as nat).push(10u8)
    }

    fn render(&self, f: &mut Vec<u8>) {
        crate::text::push_dec(f, *self as u64);
        f.push(10);
    }
}

impl Render for u32 {
    open spec fn rendered(&self) -> Seq<u8> {
        dec(*self as nat).push(10u8)
    }

    fn render(&self, f: &mut Vec<u8>) {
        crate::text::push_dec(f, *self as u64);
        f.push(10);
    }
}

impl Render for u64 {
    open spec fn rendered(&self) -> Seq<u8> {
        dec(*self as nat).push(10u8)
    }

    fn render(&self, f: &mut Vec<u8>) {
        crate::text::push_dec(f, *self);
        f.push(10);
    }
}

impl Render for usize {
    open spec fn rendered(&self) -> Seq<u8> {
        dec(*self as nat).push(10u8)
    }

    fn render(&self, f: &mut Vec<u8>) {
        crate::text::push_dec(f, *self as u64);
        f.push(10);
    }
}

impl Render for bool {
    open spec fn rendered(&self) -> Seq<u8> {
        if *self {
            seq![116u8, 114u8, 117u8, 101u8, 10u8]
        } else {
            seq![102u8, 97u8, 108u8, 115u8, 101u8, 10u8]
        }
    }

    fn render(&self, f: &mut Vec<u8>) {
        if *self {
            f.push(116);
            f.push(114);
            f.push(117);
            f.push(101);
        } else {
            f.push(102);
            f.push(97);
            f.push(108);
            f.push(115);
            f.push(101);
        }
        f.push(10);
        assert(final(f)@ =~= old(f)@ + self.rendered());
    }
}

} // verus!
