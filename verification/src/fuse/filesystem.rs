//! The pluggable filesystem backend interface the server delegates to,
//! and the plain values exchanged with it. The server calls this
//! interface; embedders implement it.

use vstd::prelude::*;

use crate::fuse::server::Writer;
use crate::fuse::sys::Attr;
use crate::fuse::sys::InHeader;
use crate::fuse::sys::IoctlIovec;
use crate::fuse::sys::Kstatfs;
use crate::fuse::sys::Reader;
use crate::fuse::sys::RemoveMappingOne;

verus! {

// Feature bits negotiated at init time, as in the kernel init flags.
pub const ASYNC_READ: u64 = 0x1;

pub const POSIX_LOCKS: u64 = 0x2;

pub const FILE_OPS: u64 = 0x4;

pub const ATOMIC_O_TRUNC: u64 = 0x8;

pub const EXPORT_SUPPORT: u64 = 0x10;

pub const BIG_WRITES: u64 = 0x20;

pub const DONT_MASK: u64 = 0x40;

pub const SPLICE_WRITE: u64 = 0x80;

pub const SPLICE_MOVE: u64 = 0x100;

pub const SPLICE_READ: u64 = 0x200;

pub const FLOCK_LOCKS: u64 = 0x400;

pub const HAS_IOCTL_DIR: u64 = 0x800;

pub const AUTO_INVAL_DATA: u64 = 0x1000;

pub const DO_READDIRPLUS: u64 = 0x2000;

pub const READDIRPLUS_AUTO: u64 = 0x4000;

pub const ASYNC_DIO: u64 = 0x8000;

pub const WRITEBACK_CACHE: u64 = 0x10000;

pub const ZERO_MESSAGE_OPEN: u64 = 0x20000;

pub const PARALLEL_DIROPS: u64 = 0x40000;

pub const HANDLE_KILLPRIV: u64 = 0x80000;

pub const POSIX_ACL: u64 = 0x100000;

pub const ABORT_ERROR: u64 = 0x200000;

pub const MAX_PAGES: u64 = 0x400000;

pub const CACHE_SYMLINKS: u64 = 0x800000;

pub const ZERO_MESSAGE_OPENDIR: u64 = 0x1000000;

pub const EXPLICIT_INVAL_DATA: u64 = 0x2000000;

pub const MAP_ALIGNMENT: u64 = 0x4000000;

pub const SUBMOUNTS: u64 = 0x8000000;

pub const HANDLE_KILLPRIV_V2: u64 = 0x10000000;

pub const SETXATTR_EXT: u64 = 0x20000000;

pub const INIT_EXT: u64 = 0x40000000;

pub const SECURITY_CTX: u64 = 0x1_0000_0000;

pub const HAS_INODE_DAX: u64 = 0x2_0000_0000;

/// The feature bits this layer knows; unknown bits from the guest are
/// dropped on decode, as a flags truncation would.
pub const ALL_OPTIONS: u64 = 0x3_ffff_ffff;

/// Options the guest offered or the backend wants, as a mask of the
/// feature bits above.
pub type FsOptions = u64;

/// Additional context from the request envelope for an operation.
#[derive(Copy, Clone, Debug, PartialEq, Eq, Structural)]
pub struct Context {
    pub uid: u32,
    pub gid: u32,
    pub pid: u32,
}

impl Context {
    /// The credentials and pid carried by a request envelope.
    pub fn from(in_header: InHeader) -> (r: Context)
        ensures
            r == (Context { uid: in_header.uid, gid: in_header.gid, pid: in_header.pid }),
    {
        Context { uid: in_header.uid, gid: in_header.gid, pid: in_header.pid }
    }
}

/// The result of a successful name resolution. An inode of 0 is the
/// sentinel for a negative lookup: the name was confirmed absent, and no
/// reference was taken that a later forget would have to balance.
#[derive(Copy, Clone, Debug, PartialEq, Eq, Structural)]
pub struct Entry {
    pub inode: u64,
    pub generation: u64,
    pub attr: Attr,
    pub attr_timeout_sec: u64,
    pub attr_timeout_nsec: u32,
    pub entry_timeout_sec: u64,
    pub entry_timeout_nsec: u32,
}

/// One directory entry handed out by the backend for a readdir call. The
/// offset is an opaque cookie at which a later call can resume; the name
/// holds no NUL bytes.
#[derive(Clone, Debug)]
pub struct DirEntry {
    pub ino: u64,
    pub offset: u64,
    pub type_: u32,
    pub name: Vec<u8>,
}

/// A getxattr reply: either the value, or only its size when the caller
/// asked with a zero-sized buffer.
pub enum GetxattrReply {
    Value(Vec<u8>),
    Count(u32),
}

/// A listxattr reply: either the NUL-joined names, or only their total
/// size when the caller asked with a zero-sized buffer.
pub enum ListxattrReply {
    Names(Vec<u8>),
    Count(u32),
}

/// An ioctl reply: a request that the kernel retry with fetched iovecs,
/// or the finished result.
pub enum IoctlReply {
    Retry { input: Vec<IoctlIovec>, output: Vec<IoctlIovec> },
    Done(Result<Vec<u8>, i32>),
}

/// A memory-mapping capability for DAX: for some transports a region of
/// memory is shared with the FUSE driver so that it can access file
/// contents directly. The driver then asks to map file sections into that
/// region. Errors are OS error codes.
pub trait Mapper {
    /// Maps `size` bytes starting at `file_offset` bytes from within the
    /// file named by `fd` at `mem_offset` bytes from the start of the
    /// shared region with `prot` protections.
    fn map(&self, mem_offset: u64, size: usize, fd: i32, file_offset: u64, prot: u32) -> Result<
        (),
        i32,
    >;

    /// Unmaps `size` bytes at `offset` bytes from the start of the shared
    /// region.
    fn unmap(&self, offset: u64, size: u64) -> Result<(), i32>;
}

/// The filesystem backend: one method per FUSE operation. Errors are OS
/// error codes, reflected negated in the reply header. The server calls
/// this interface but does not implement it.
///
/// Reference-count discipline: every successful lookup-like reply that
/// returns a non-zero inode takes a reference that a later forget must
/// release.
pub trait FileSystem {
    /// The buffer bound as a specification-level value. An implementation
    /// overrides this alongside `max_buffer_size`; the default stands for
    /// impls outside the verified world.
    open spec fn spec_max_buffer_size(&self) -> u32 {
        0
    }

    /// The largest read or write body the backend accepts; also bounds
    /// the request sizes the server will buffer.
    fn max_buffer_size(&self) -> (r: u32)
        ensures
            r == self.spec_max_buffer_size(),
    ;

    fn init(&self, capable: FsOptions) -> Result<FsOptions, i32>;

    fn destroy(&self);

    fn lookup(&self, ctx: Context, parent: u64, name: &Vec<u8>) -> Result<Entry, i32>;

    fn forget(&self, ctx: Context, inode: u64, count: u64);

    fn batch_forget(&self, ctx: Context, requests: Vec<(u64, u64)>);

    fn getattr(&self, ctx: Context, inode: u64, handle: Option<u64>) -> Result<
        (Attr, u64, u32),
        i32,
    >;

    fn setattr(&self, ctx: Context, inode: u64, attr: Attr, handle: Option<u64>, valid: u32)
        -> Result<(Attr, u64, u32), i32>;

    fn readlink(&self, ctx: Context, inode: u64) -> Result<Vec<u8>, i32>;

    fn symlink(
        &self,
        ctx: Context,
        linkname: &Vec<u8>,
        parent: u64,
        name: &Vec<u8>,
        security_ctx: Option<Vec<u8>>,
    ) -> Result<Entry, i32>;

    fn mknod(
        &self,
        ctx: Context,
        parent: u64,
        name: &Vec<u8>,
        mode: u32,
        rdev: u32,
        umask: u32,
        security_ctx: Option<Vec<u8>>,
    ) -> Result<Entry, i32>;

    fn mkdir(
        &self,
        ctx: Context,
        parent: u64,
        name: &Vec<u8>,
        mode: u32,
        umask: u32,
        security_ctx: Option<Vec<u8>>,
    ) -> Result<Entry, i32>;

    fn chromeos_tmpfile(
        &self,
        ctx: Context,
        parent: u64,
        mode: u32,
        umask: u32,
        security_ctx: Option<Vec<u8>>,
    ) -> Result<Entry, i32>;

    fn unlink(&self, ctx: Context, parent: u64, name: &Vec<u8>) -> Result<(), i32>;

    fn rmdir(&self, ctx: Context, parent: u64, name: &Vec<u8>) -> Result<(), i32>;

    fn rename(
        &self,
        ctx: Context,
        olddir: u64,
        oldname: &Vec<u8>,
        newdir: u64,
        newname: &Vec<u8>,
        flags: u32,
    ) -> Result<(), i32>;

    fn link(&self, ctx: Context, inode: u64, newparent: u64, newname: &Vec<u8>) -> Result<
        Entry,
        i32,
    >;

    fn open(&self, ctx: Context, inode: u64, flags: u32) -> Result<(Option<u64>, u32), i32>;

    fn create(
        &self,
        ctx: Context,
        parent: u64,
        name: &Vec<u8>,
        mode: u32,
        flags: u32,
        umask: u32,
        security_ctx: Option<Vec<u8>>,
    ) -> Result<(Entry, Option<u64>, u32), i32>;

    fn atomic_open(
        &self,
        ctx: Context,
        parent: u64,
        name: &Vec<u8>,
        mode: u32,
        flags: u32,
        umask: u32,
        security_ctx: Option<Vec<u8>>,
    ) -> Result<(Entry, Option<u64>, u32), i32>;

    /// Streams up to `size` bytes of file content directly into `w`, the
    /// reply buffer, and returns how many bytes it wrote. The backend only
    /// appends; it never rewrites what the server already encoded.
    fn read(
        &self,
        ctx: Context,
        inode: u64,
        handle: u64,
        w: &mut Writer,
        size: u32,
        offset: u64,
        lock_owner: Option<u64>,
        flags: u32,
    ) -> (res: Result<usize, i32>)
        ensures
            final(w).spec_buf().len() >= old(w).spec_buf().len(),
            final(w).spec_buf().subrange(0, old(w).spec_buf().len() as int) == old(w).spec_buf(),
    ;

    /// Consumes up to `size` bytes of request payload from `r` and writes
    /// them to the file.
    fn write(
        &self,
        ctx: Context,
        inode: u64,
        handle: u64,
        r: &mut Reader,
        size: u32,
        offset: u64,
        lock_owner: Option<u64>,
        delayed_write: bool,
        flags: u32,
    ) -> (res: Result<usize, i32>)
        ensures
            final(r).wf() == old(r).wf(),
            final(r).spec_buf() == old(r).spec_buf(),
            final(r).pos >= old(r).pos,
    ;

    fn statfs(&self, ctx: Context, inode: u64) -> Result<Kstatfs, i32>;

    fn release(
        &self,
        ctx: Context,
        inode: u64,
        flags: u32,
        handle: u64,
        flush: bool,
        flock_release: bool,
        lock_owner: Option<u64>,
    ) -> Result<(), i32>;

    fn fsync(&self, ctx: Context, inode: u64, datasync: bool, handle: u64) -> Result<(), i32>;

    fn setxattr(&self, ctx: Context, inode: u64, name: &Vec<u8>, value: &[u8], flags: u32)
        -> Result<(), i32>;

    fn getxattr(&self, ctx: Context, inode: u64, name: &Vec<u8>, size: u32) -> Result<
        GetxattrReply,
        i32,
    >;

    fn listxattr(&self, ctx: Context, inode: u64, size: u32) -> Result<ListxattrReply, i32>;

    fn removexattr(&self, ctx: Context, inode: u64, name: &Vec<u8>) -> Result<(), i32>;

    fn flush(&self, ctx: Context, inode: u64, handle: u64, lock_owner: u64) -> Result<(), i32>;

    fn opendir(&self, ctx: Context, inode: u64, flags: u32) -> Result<(Option<u64>, u32), i32>;

    /// The finite entry run for one readdir call, restarted at `offset`.
    fn readdir(&self, ctx: Context, inode: u64, handle: u64, size: u32, offset: u64) -> Result<
        Vec<DirEntry>,
        i32,
    >;

    fn releasedir(&self, ctx: Context, inode: u64, flags: u32, handle: u64) -> Result<(), i32>;

    fn fsyncdir(&self, ctx: Context, inode: u64, datasync: bool, handle: u64) -> Result<(), i32>;

    fn getlk(&self) -> Result<(), i32>;

    fn setlk(&self) -> Result<(), i32>;

    fn setlkw(&self) -> Result<(), i32>;

    fn access(&self, ctx: Context, inode: u64, mask: u32) -> Result<(), i32>;

    fn bmap(&self) -> Result<(), i32>;

    fn ioctl(
        &self,
        ctx: Context,
        inode: u64,
        handle: u64,
        flags: u32,
        cmd: u32,
        arg: u64,
        in_size: u32,
        out_size: u32,
        r: &mut Reader,
    ) -> (res: Result<IoctlReply, i32>)
        ensures
            final(r).wf() == old(r).wf(),
            final(r).spec_buf() == old(r).spec_buf(),
            final(r).pos >= old(r).pos,
    ;

    fn poll(&self) -> Result<(), i32>;

    fn notify_reply(&self) -> Result<(), i32>;

    fn fallocate(&self, ctx: Context, inode: u64, handle: u64, mode: u32, offset: u64, length: u64)
        -> Result<(), i32>;

    fn lseek(&self) -> Result<(), i32>;

    fn copy_file_range(
        &self,
        ctx: Context,
        inode_src: u64,
        handle_src: u64,
        offset_src: u64,
        inode_dst: u64,
        handle_dst: u64,
        offset_dst: u64,
        length: u64,
        flags: u64,
    ) -> Result<usize, i32>;

    fn set_up_mapping(
        &self,
        ctx: Context,
        inode: u64,
        handle: u64,
        file_offset: u64,
        mem_offset: u64,
        size: usize,
        prot: u32,
        mapper: &dyn Mapper,
    ) -> Result<(), i32>;

    fn remove_mapping(&self, msgs: &Vec<RemoveMappingOne>, mapper: &dyn Mapper) -> Result<
        (),
        i32,
    >;
}

} // verus!
