//! Files and directories.

use vstd::prelude::*;

pub mod file;
pub mod readdir;

verus! {

/// `statx` mask bit: the size was filled in.
pub const STATX_SIZE: u32 = 0x200;

/// The bits of a file mode that hold the file's type.
pub const MODE_TYPE: u16 = 0xf000;

/// The kind of a file, as a directory entry or a file mode names it.
#[derive(Clone, Copy, Debug, PartialEq, Eq, Structural)]
pub enum FileKind {
    Fifo,
    Character,
    Directory,
    Block,
    Regular,
    Link,
    Socket,
}

/// What `statx` reports about a file, as far as the runtime reads it.
#[derive(Clone, Copy, Debug, PartialEq, Eq, Structural)]
pub struct Statx {
    /// Which fields were filled in.
    pub mask: u32,
    /// The file's type and permissions.
    pub mode: u16,
    /// The size in bytes.
    pub size: u64,
    /// The preferred block size for I/O.
    pub block_size: u32,
}

impl Statx {
    /// The kind of file that the type bits of the mode name, if they name
    /// one.
    pub open spec fn spec_file_type(self) -> Option<FileKind> {
        let bits = self.mode & MODE_TYPE;
        if bits == 0x1000 {
            Some(FileKind::Fifo)
        } else if bits == 0x2000 {
            Some(FileKind::Character)
        } else if bits == 0x4000 {
            Some(FileKind::Directory)
        } else if bits == 0x6000 {
            Some(FileKind::Block)
        } else if bits == 0x8000 {
            Some(FileKind::Regular)
        } else if bits == 0xa000 {
            Some(FileKind::Link)
        } else if bits == 0xc000 {
            Some(FileKind::Socket)
        } else {
            None
        }
    }

    /// The kind of file that the mode names; see [`Statx::spec_file_type`].
    pub fn file_type(&self) -> (kind: Option<FileKind>)
        ensures
            kind == self.spec_file_type(),
    {
        let bits: u16 = self.mode & MODE_TYPE;
        if bits == 0x1000 {
            Some(FileKind::Fifo)
        } else if bits == 0x2000 {
            Some(FileKind::Character)
        } else if bits == 0x4000 {
            Some(FileKind::Directory)
        } else if bits == 0x6000 {
            Some(FileKind::Block)
        } else if bits == 0x8000 {
            Some(FileKind::Regular)
        } else if bits == 0xa000 {
            Some(FileKind::Link)
        } else if bits == 0xc000 {
            Some(FileKind::Socket)
        } else {
            None
        }
    }
}

/// The type of a file, obtained from a file's [`Metadata`].
#[derive(Clone, Copy, Debug, PartialEq, Eq, Structural)]
pub struct FileType(pub FileKind);

impl FileType {
    /// Whether this file is a directory.
    pub fn is_dir(&self) -> (res: bool)
        ensures
            res == (self.0 == FileKind::Directory),
    {
        match self.0 {
            FileKind::Directory => true,
            _ => false,
        }
    }

    /// Whether this file is a regular file.
    pub fn is_file(&self) -> (res: bool)
        ensures
            res == (self.0 == FileKind::Regular),
    {
        match self.0 {
            FileKind::Regular => true,
            _ => false,
        }
    }

    /// Whether this file is a symbolic link.
    pub fn is_symlink(&self) -> (res: bool)
        ensures
            res == (self.0 == FileKind::Link),
    {
        match self.0 {
            FileKind::Link => true,
            _ => false,
        }
    }
}

/// The metadata of a file.
#[derive(Clone, Copy, Debug, PartialEq, Eq, Structural)]
pub struct Metadata(pub Statx);

impl Metadata {
    /// The type of the file. The mode must name one.
    pub fn file_type(&self) -> (file_type: FileType)
        requires
            self.0.spec_file_type().is_some(),
        ensures
            file_type == FileType(self.0.spec_file_type().unwrap()),
    {
        FileType(self.0.file_type().unwrap())
    }

    /// The length of the file. The size must have been filled in.
    pub fn len(&self) -> (len: u64)
        requires
            self.0.mask & STATX_SIZE != 0,
        ensures
            len == self.0.size,
    {
        self.0.size
    }

    /// The length of the file, if the size was filled in.
    pub fn stream_len(&self) -> (len: Option<u64>)
        ensures
            len == if self.0.mask & STATX_SIZE != 0 {
                Some(self.0.size)
            } else {
                None
            },
    {
        if self.0.mask & STATX_SIZE != 0 {
            Some(self.0.size)
        } else {
            None
        }
    }
}

} // verus!
