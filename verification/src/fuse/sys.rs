//! FUSE wire format: the fixed little-endian request and reply
//! structures, the opcode numbering and the protocol constants, together
//! with a byte-stream reader that decodes the fixed-size structures.

use vstd::prelude::*;

verus! {

pub const KERNEL_VERSION: u32 = 7;

pub const KERNEL_MINOR_VERSION: u32 = 32;

pub const OLDEST_SUPPORTED_KERNEL_MINOR_VERSION: u32 = 27;

/// A `SecctxHeader` whose entry count exceeds this ceiling is treated as
/// an unrelated request extension of the same shape, not as security
/// contexts. This is a wire-compatibility constant of the kernel ABI.
pub const MAX_NR_SECCTX: u32 = 31;

pub const GETATTR_FH: u32 = 1;

pub const FATTR_FH: u32 = 64;

pub const READ_LOCKOWNER: u32 = 2;

pub const WRITE_CACHE: u32 = 1;

pub const WRITE_LOCKOWNER: u32 = 2;

pub const RELEASE_FLUSH: u32 = 1;

pub const RELEASE_FLOCK_UNLOCK: u32 = 2;

pub const IOCTL_RETRY: u32 = 4;

pub const RENAME_FLAG_NOREPLACE: u32 = 1;

pub const RENAME_FLAG_EXCHANGE: u32 = 2;

pub const IOCTL_MAX_IOV: usize = 256;

pub const SETUPMAPPING_FLAG_WRITE: u64 = 1;

pub const SETUPMAPPING_FLAG_READ: u64 = 2;

pub const PROT_READ: u32 = 1;

pub const PROT_WRITE: u32 = 2;

// Errno values reflected, negated, in reply headers.
pub const EIO: i32 = 5;

pub const ENOMEM: i32 = 12;

pub const EINVAL: i32 = 22;

pub const ENOSYS: i32 = 38;

pub const EPROTO: i32 = 71;

pub const EOVERFLOW: i32 = 75;

/// The page size this server advertises during init negotiation.
pub const PAGE_SIZE: u32 = 4096;

/// Decode and transport errors that are local to one request.
#[derive(Debug, PartialEq, Eq, Structural)]
pub enum Error {
    /// A fixed-size structure could not be read from the request.
    DecodeMessage,
    /// The reply could not be encoded; a transport-side code never
    /// produced by the in-memory reply buffer.
    EncodeMessage,
    /// The reply could not be flushed; a transport-side code never
    /// produced by the in-memory reply buffer.
    FlushMessage,
    /// The declared request length disagrees with the bytes present.
    InvalidHeaderLength,
    /// A string component was not NUL-terminated or held interior NULs.
    InvalidCString,
    /// The declared xattr size disagrees with the value present.
    InvalidXattrSize(u32, usize),
    /// A required request component is missing.
    MissingParameter,
    /// An ioctl retry reply named more iovecs than the protocol allows.
    TooManyIovecs(usize, usize),
}

/// The little-endian u16 at `off` in `b`.
pub open spec fn sle16(b: Seq<u8>, off: int) -> u16 {
    (b[off] as u16) | ((b[off + 1] as u16) << 8)
}

/// The little-endian u32 at `off` in `b`.
pub open spec fn sle32(b: Seq<u8>, off: int) -> u32 {
    (b[off] as u32) | ((b[off + 1] as u32) << 8) | ((b[off + 2] as u32) << 16) | ((b[off
        + 3] as u32) << 24)
}

/// The little-endian u64 at `off` in `b`.
pub open spec fn sle64(b: Seq<u8>, off: int) -> u64 {
    (b[off] as u64) | ((b[off + 1] as u64) << 8) | ((b[off + 2] as u64) << 16) | ((b[off
        + 3] as u64) << 24) | ((b[off + 4] as u64) << 32) | ((b[off + 5] as u64) << 40) | ((b[off
        + 6] as u64) << 48) | ((b[off + 7] as u64) << 56)
}

/// The little-endian byte image of a u16.
pub open spec fn le16(x: u16) -> Seq<u8> {
    seq![(x % 256) as u8, ((x / 256) % 256) as u8]
}

/// The little-endian byte image of a u32.
pub open spec fn le32(x: u32) -> Seq<u8> {
    seq![
        (x % 256) as u8,
        ((x / 0x100) % 256) as u8,
        ((x / 0x10000) % 256) as u8,
        ((x / 0x1000000) % 256) as u8,
    ]
}

/// The little-endian byte image of a u64.
pub open spec fn le64(x: u64) -> Seq<u8> {
    seq![
        (x % 256) as u8,
        ((x / 0x100) % 256) as u8,
        ((x / 0x10000) % 256) as u8,
        ((x / 0x1000000) % 256) as u8,
        ((x / 0x1_0000_0000) % 256) as u8,
        ((x / 0x100_0000_0000) % 256) as u8,
        ((x / 0x1_0000_0000_0000) % 256) as u8,
        ((x / 0x100_0000_0000_0000) % 256) as u8,
    ]
}

/// Appends the little-endian bytes of a u16.
pub fn push_le16(out: &mut Vec<u8>, x: u16)
    ensures
        final(out)@ == old(out)@ + le16(x),
{
    out.push((x % 256) as u8);
    out.push(((x / 256) % 256) as u8);
    assert(out@ =~= old(out)@ + le16(x));
}

/// Appends the little-endian bytes of a u32.
pub fn push_le32(out: &mut Vec<u8>, x: u32)
    ensures
        final(out)@ == old(out)@ + le32(x),
{
    out.push((x % 256) as u8);
    out.push(((x / 0x100) % 256) as u8);
    out.push(((x / 0x10000) % 256) as u8);
    out.push(((x / 0x1000000) % 256) as u8);
    assert(out@ =~= old(out)@ + le32(x));
}

/// Appends the little-endian bytes of a u64.
pub fn push_le64(out: &mut Vec<u8>, x: u64)
    ensures
        final(out)@ == old(out)@ + le64(x),
{
    out.push((x % 256) as u8);
    out.push(((x / 0x100) % 256) as u8);
    out.push(((x / 0x10000) % 256) as u8);
    out.push(((x / 0x1000000) % 256) as u8);
    out.push(((x / 0x1_0000_0000) % 256) as u8);
    out.push(((x / 0x100_0000_0000) % 256) as u8);
    out.push(((x / 0x1_0000_0000_0000) % 256) as u8);
    out.push(((x / 0x100_0000_0000_0000) % 256) as u8);
    assert(out@ =~= old(out)@ + le64(x));
}

/// Appends `n` zero bytes.
pub fn push_zeros(out: &mut Vec<u8>, n: usize)
    ensures
        final(out)@ == old(out)@ + Seq::new(n as nat, |i: int| 0u8),
{
    let mut k: usize = 0;
    while k < n
        invariant
            k <= n,
            out@ == old(out)@ + Seq::new(k as nat, |i: int| 0u8),
        decreases n - k,
    {
        out.push(0);
        proof {
            assert(out@ =~= old(out)@ + Seq::new((k + 1) as nat, |i: int| 0u8));
        }
        k = k + 1;
    }
    proof {
        assert(out@ =~= old(out)@ + Seq::new(n as nat, |i: int| 0u8));
    }
}

/// The FUSE operation codes, numbered as in the upstream kernel ABI, with
/// the mapping and atomic-open extension operations above them.
#[derive(Copy, Clone, Debug, PartialEq, Eq, Structural)]
pub enum Opcode {
    Lookup,
    Forget,
    Getattr,
    Setattr,
    Readlink,
    Symlink,
    Mknod,
    Mkdir,
    Unlink,
    Rmdir,
    Rename,
    Link,
    Open,
    Read,
    Write,
    Statfs,
    Release,
    Fsync,
    Setxattr,
    Getxattr,
    Listxattr,
    Removexattr,
    Flush,
    Init,
    Opendir,
    Readdir,
    Releasedir,
    Fsyncdir,
    Getlk,
    Setlk,
    Setlkw,
    Access,
    Create,
    Interrupt,
    Bmap,
    Destroy,
    Ioctl,
    Poll,
    NotifyReply,
    BatchForget,
    Fallocate,
    Readdirplus,
    Rename2,
    Lseek,
    CopyFileRange,
    SetUpMapping,
    RemoveMapping,
    ChromeOsTmpfile,
    OpenAtomic,
}

/// The wire number of an operation.
pub open spec fn opcode_value(op: Opcode) -> u32 {
    match op {
        Opcode::Lookup => 1,
        Opcode::Forget => 2,
        Opcode::Getattr => 3,
        Opcode::Setattr => 4,
        Opcode::Readlink => 5,
        Opcode::Symlink => 6,
        Opcode::Mknod => 8,
        Opcode::Mkdir => 9,
        Opcode::Unlink => 10,
        Opcode::Rmdir => 11,
        Opcode::Rename => 12,
        Opcode::Link => 13,
        Opcode::Open => 14,
        Opcode::Read => 15,
        Opcode::Write => 16,
        Opcode::Statfs => 17,
        Opcode::Release => 18,
        Opcode::Fsync => 20,
        Opcode::Setxattr => 21,
        Opcode::Getxattr => 22,
        Opcode::Listxattr => 23,
        Opcode::Removexattr => 24,
        Opcode::Flush => 25,
        Opcode::Init => 26,
        Opcode::Opendir => 27,
        Opcode::Readdir => 28,
        Opcode::Releasedir => 29,
        Opcode::Fsyncdir => 30,
        Opcode::Getlk => 31,
        Opcode::Setlk => 32,
        Opcode::Setlkw => 33,
        Opcode::Access => 34,
        Opcode::Create => 35,
        Opcode::Interrupt => 36,
        Opcode::Bmap => 37,
        Opcode::Destroy => 38,
        Opcode::Ioctl => 39,
        Opcode::Poll => 40,
        Opcode::NotifyReply => 41,
        Opcode::BatchForget => 42,
        Opcode::Fallocate => 43,
        Opcode::Readdirplus => 44,
        Opcode::Rename2 => 45,
        Opcode::Lseek => 46,
        Opcode::CopyFileRange => 47,
        Opcode::SetUpMapping => 48,
        Opcode::RemoveMapping => 49,
        Opcode::ChromeOsTmpfile => 51,
        Opcode::OpenAtomic => 52,
    }
}

impl Opcode {
    /// The operation for a wire number, if the number names one; an
    /// unknown opcode is answered with ENOSYS, not treated as fatal.
    pub fn n(v: u32) -> (r: Option<Opcode>)
        ensures
            match r {
                Some(op) => opcode_value(op) == v,
                None => forall|op: Opcode| opcode_value(op) != v,
            },
    {
        let r = match v {
            1 => Some(Opcode::Lookup),
            2 => Some(Opcode::Forget),
            3 => Some(Opcode::Getattr),
            4 => Some(Opcode::Setattr),
            5 => Some(Opcode::Readlink),
            6 => Some(Opcode::Symlink),
            8 => Some(Opcode::Mknod),
            9 => Some(Opcode::Mkdir),
            10 => Some(Opcode::Unlink),
            11 => Some(Opcode::Rmdir),
            12 => Some(Opcode::Rename),
            13 => Some(Opcode::Link),
            14 => Some(Opcode::Open),
            15 => Some(Opcode::Read),
            16 => Some(Opcode::Write),
            17 => Some(Opcode::Statfs),
            18 => Some(Opcode::Release),
            20 => Some(Opcode::Fsync),
            21 => Some(Opcode::Setxattr),
            22 => Some(Opcode::Getxattr),
            23 => Some(Opcode::Listxattr),
            24 => Some(Opcode::Removexattr),
            25 => Some(Opcode::Flush),
            26 => Some(Opcode::Init),
            27 => Some(Opcode::Opendir),
            28 => Some(Opcode::Readdir),
            29 => Some(Opcode::Releasedir),
            30 => Some(Opcode::Fsyncdir),
            31 => Some(Opcode::Getlk),
            32 => Some(Opcode::Setlk),
            33 => Some(Opcode::Setlkw),
            34 => Some(Opcode::Access),
            35 => Some(Opcode::Create),
            36 => Some(Opcode::Interrupt),
            37 => Some(Opcode::Bmap),
            38 => Some(Opcode::Destroy),
            39 => Some(Opcode::Ioctl),
            40 => Some(Opcode::Poll),
            41 => Some(Opcode::NotifyReply),
            42 => Some(Opcode::BatchForget),
            43 => Some(Opcode::Fallocate),
            44 => Some(Opcode::Readdirplus),
            45 => Some(Opcode::Rename2),
            46 => Some(Opcode::Lseek),
            47 => Some(Opcode::CopyFileRange),
            48 => Some(Opcode::SetUpMapping),
            49 => Some(Opcode::RemoveMapping),
            51 => Some(Opcode::ChromeOsTmpfile),
            52 => Some(Opcode::OpenAtomic),
            _ => None,
        };
        proof {
            if r is None {
                assert forall|op: Opcode| opcode_value(op) != v by {
                    if opcode_value(op) == v {
                        assert(false);
                    }
                }
            }
        }
        r
    }
}

#[derive(Copy, Clone, Debug, PartialEq, Eq, Structural)]
pub struct InHeader {
    pub len: u32,
    pub opcode: u32,
    pub unique: u64,
    pub nodeid: u64,
    pub uid: u32,
    pub gid: u32,
    pub pid: u32,
    pub padding: u32,
}

pub const IN_HEADER_SIZE: usize = 40;

/// The `InHeader` laid out little-endian at `off` in `b`.
pub open spec fn spec_in_header(b: Seq<u8>, off: int) -> InHeader {
    InHeader {
        len: sle32(b, off + 0),
        opcode: sle32(b, off + 4),
        unique: sle64(b, off + 8),
        nodeid: sle64(b, off + 16),
        uid: sle32(b, off + 24),
        gid: sle32(b, off + 28),
        pid: sle32(b, off + 32),
        padding: sle32(b, off + 36),
    }
}

#[derive(Copy, Clone, Debug, PartialEq, Eq, Structural)]
pub struct ForgetIn {
    pub nlookup: u64,
}

pub const FORGET_IN_SIZE: usize = 8;

/// The `ForgetIn` laid out little-endian at `off` in `b`.
pub open spec fn spec_forget_in(b: Seq<u8>, off: int) -> ForgetIn {
    ForgetIn {
        nlookup: sle64(b, off + 0),
    }
}

#[derive(Copy, Clone, Debug, PartialEq, Eq, Structural)]
pub struct GetattrIn {
    pub flags: u32,
    pub dummy: u32,
    pub fh: u64,
}

pub const GETATTR_IN_SIZE: usize = 16;

/// The `GetattrIn` laid out little-endian at `off` in `b`.
pub open spec fn spec_getattr_in(b: Seq<u8>, off: int) -> GetattrIn {
    GetattrIn {
        flags: sle32(b, off + 0),
        dummy: sle32(b, off + 4),
        fh: sle64(b, off + 8),
    }
}

#[derive(Copy, Clone, Debug, PartialEq, Eq, Structural)]
pub struct SetattrIn {
    pub valid: u32,
    pub padding: u32,
    pub fh: u64,
    pub size: u64,
    pub lock_owner: u64,
    pub atime: u64,
    pub mtime: u64,
    pub ctime: u64,
    pub atimensec: u32,
    pub mtimensec: u32,
    pub ctimensec: u32,
    pub mode: u32,
    pub unused4: u32,
    pub uid: u32,
    pub gid: u32,
    pub unused5: u32,
}

pub const SETATTR_IN_SIZE: usize = 88;

/// The `SetattrIn` laid out little-endian at `off` in `b`.
pub open spec fn spec_setattr_in(b: Seq<u8>, off: int) -> SetattrIn {
    SetattrIn {
        valid: sle32(b, off + 0),
        padding: sle32(b, off + 4),
        fh: sle64(b, off + 8),
        size: sle64(b, off + 16),
        lock_owner: sle64(b, off + 24),
        atime: sle64(b, off + 32),
        mtime: sle64(b, off + 40),
        ctime: sle64(b, off + 48),
        atimensec: sle32(b, off + 56),
        mtimensec: sle32(b, off + 60),
        ctimensec: sle32(b, off + 64),
        mode: sle32(b, off + 68),
        unused4: sle32(b, off + 72),
        uid: sle32(b, off + 76),
        gid: sle32(b, off + 80),
        unused5: sle32(b, off + 84),
    }
}

#[derive(Copy, Clone, Debug, PartialEq, Eq, Structural)]
pub struct MknodIn {
    pub mode: u32,
    pub rdev: u32,
    pub umask: u32,
    pub padding: u32,
}

pub const MKNOD_IN_SIZE: usize = 16;

/// The `MknodIn` laid out little-endian at `off` in `b`.
pub open spec fn spec_mknod_in(b: Seq<u8>, off: int) -> MknodIn {
    MknodIn {
        mode: sle32(b, off + 0),
        rdev: sle32(b, off + 4),
        umask: sle32(b, off + 8),
        padding: sle32(b, off + 12),
    }
}

#[derive(Copy, Clone, Debug, PartialEq, Eq, Structural)]
pub struct MkdirIn {
    pub mode: u32,
    pub umask: u32,
}

pub const MKDIR_IN_SIZE: usize = 8;

/// The `MkdirIn` laid out little-endian at `off` in `b`.
pub open spec fn spec_mkdir_in(b: Seq<u8>, off: int) -> MkdirIn {
    MkdirIn {
        mode: sle32(b, off + 0),
        umask: sle32(b, off + 4),
    }
}

#[derive(Copy, Clone, Debug, PartialEq, Eq, Structural)]
pub struct ChromeOsTmpfileIn {
    pub mode: u32,
    pub umask: u32,
}

pub const CHROME_OS_TMPFILE_IN_SIZE: usize = 8;

/// The `ChromeOsTmpfileIn` laid out little-endian at `off` in `b`.
pub open spec fn spec_chrome_os_tmpfile_in(b: Seq<u8>, off: int) -> ChromeOsTmpfileIn {
    ChromeOsTmpfileIn {
        mode: sle32(b, off + 0),
        umask: sle32(b, off + 4),
    }
}

#[derive(Copy, Clone, Debug, PartialEq, Eq, Structural)]
pub struct RenameIn {
    pub newdir: u64,
}

pub const RENAME_IN_SIZE: usize = 8;

/// The `RenameIn` laid out little-endian at `off` in `b`.
pub open spec fn spec_rename_in(b: Seq<u8>, off: int) -> RenameIn {
    RenameIn {
        newdir: sle64(b, off + 0),
    }
}

#[derive(Copy, Clone, Debug, PartialEq, Eq, Structural)]
pub struct Rename2In {
    pub newdir: u64,
    pub flags: u32,
    pub padding: u32,
}

pub const RENAME2_IN_SIZE: usize = 16;

/// The `Rename2In` laid out little-endian at `off` in `b`.
pub open spec fn spec_rename2_in(b: Seq<u8>, off: int) -> Rename2In {
    Rename2In {
        newdir: sle64(b, off + 0),
        flags: sle32(b, off + 8),
        padding: sle32(b, off + 12),
    }
}

#[derive(Copy, Clone, Debug, PartialEq, Eq, Structural)]
pub struct LinkIn {
    pub oldnodeid: u64,
}

pub const LINK_IN_SIZE: usize = 8;

/// The `LinkIn` laid out little-endian at `off` in `b`.
pub open spec fn spec_link_in(b: Seq<u8>, off: int) -> LinkIn {
    LinkIn {
        oldnodeid: sle64(b, off + 0),
    }
}

#[derive(Copy, Clone, Debug, PartialEq, Eq, Structural)]
pub struct OpenIn {
    pub flags: u32,
    pub unused: u32,
}

pub const OPEN_IN_SIZE: usize = 8;

/// The `OpenIn` laid out little-endian at `off` in `b`.
pub open spec fn spec_open_in(b: Seq<u8>, off: int) -> OpenIn {
    OpenIn {
        flags: sle32(b, off + 0),
        unused: sle32(b, off + 4),
    }
}

#[derive(Copy, Clone, Debug, PartialEq, Eq, Structural)]
pub struct ReadIn {
    pub fh: u64,
    pub offset: u64,
    pub size: u32,
    pub read_flags: u32,
    pub lock_owner: u64,
    pub flags: u32,
    pub padding: u32,
}

pub const READ_IN_SIZE: usize = 40;

/// The `ReadIn` laid out little-endian at `off` in `b`.
pub open spec fn spec_read_in(b: Seq<u8>, off: int) -> ReadIn {
    ReadIn {
        fh: sle64(b, off + 0),
        offset: sle64(b, off + 8),
        size: sle32(b, off + 16),
        read_flags: sle32(b, off + 20),
        lock_owner: sle64(b, off + 24),
        flags: sle32(b, off + 32),
        padding: sle32(b, off + 36),
    }
}

#[derive(Copy, Clone, Debug, PartialEq, Eq, Structural)]
pub struct WriteIn {
    pub fh: u64,
    pub offset: u64,
    pub size: u32,
    pub write_flags: u32,
    pub lock_owner: u64,
    pub flags: u32,
    pub padding: u32,
}

pub const WRITE_IN_SIZE: usize = 40;

/// The `WriteIn` laid out little-endian at `off` in `b`.
pub open spec fn spec_write_in(b: Seq<u8>, off: int) -> WriteIn {
    WriteIn {
        fh: sle64(b, off + 0),
        offset: sle64(b, off + 8),
        size: sle32(b, off + 16),
        write_flags: sle32(b, off + 20),
        lock_owner: sle64(b, off + 24),
        flags: sle32(b, off + 32),
        padding: sle32(b, off + 36),
    }
}

#[derive(Copy, Clone, Debug, PartialEq, Eq, Structural)]
pub struct ReleaseIn {
    pub fh: u64,
    pub flags: u32,
    pub release_flags: u32,
    pub lock_owner: u64,
}

pub const RELEASE_IN_SIZE: usize = 24;

/// The `ReleaseIn` laid out little-endian at `off` in `b`.
pub open spec fn spec_release_in(b: Seq<u8>, off: int) -> ReleaseIn {
    ReleaseIn {
        fh: sle64(b, off + 0),
        flags: sle32(b, off + 8),
        release_flags: sle32(b, off + 12),
        lock_owner: sle64(b, off + 16),
    }
}

#[derive(Copy, Clone, Debug, PartialEq, Eq, Structural)]
pub struct FsyncIn {
    pub fh: u64,
    pub fsync_flags: u32,
    pub padding: u32,
}

pub const FSYNC_IN_SIZE: usize = 16;

/// The `FsyncIn` laid out little-endian at `off` in `b`.
pub open spec fn spec_fsync_in(b: Seq<u8>, off: int) -> FsyncIn {
    FsyncIn {
        fh: sle64(b, off + 0),
        fsync_flags: sle32(b, off + 8),
        padding: sle32(b, off + 12),
    }
}

#[derive(Copy, Clone, Debug, PartialEq, Eq, Structural)]
pub struct SetxattrIn {
    pub size: u32,
    pub flags: u32,
}

pub const SETXATTR_IN_SIZE: usize = 8;

/// The `SetxattrIn` laid out little-endian at `off` in `b`.
pub open spec fn spec_setxattr_in(b: Seq<u8>, off: int) -> SetxattrIn {
    SetxattrIn {
        size: sle32(b, off + 0),
        flags: sle32(b, off + 4),
    }
}

#[derive(Copy, Clone, Debug, PartialEq, Eq, Structural)]
pub struct GetxattrIn {
    pub size: u32,
    pub padding: u32,
}

pub const GETXATTR_IN_SIZE: usize = 8;

/// The `GetxattrIn` laid out little-endian at `off` in `b`.
pub open spec fn spec_getxattr_in(b: Seq<u8>, off: int) -> GetxattrIn {
    GetxattrIn {
        size: sle32(b, off + 0),
        padding: sle32(b, off + 4),
    }
}

#[derive(Copy, Clone, Debug, PartialEq, Eq, Structural)]
pub struct FlushIn {
    pub fh: u64,
    pub unused: u32,
    pub padding: u32,
    pub lock_owner: u64,
}

pub const FLUSH_IN_SIZE: usize = 24;

/// The `FlushIn` laid out little-endian at `off` in `b`.
pub open spec fn spec_flush_in(b: Seq<u8>, off: int) -> FlushIn {
    FlushIn {
        fh: sle64(b, off + 0),
        unused: sle32(b, off + 8),
        padding: sle32(b, off + 12),
        lock_owner: sle64(b, off + 16),
    }
}

#[derive(Copy, Clone, Debug, PartialEq, Eq, Structural)]
pub struct InitIn {
    pub major: u32,
    pub minor: u32,
    pub max_readahead: u32,
    pub flags: u32,
}

pub const INIT_IN_SIZE: usize = 16;

/// The `InitIn` laid out little-endian at `off` in `b`.
pub open spec fn spec_init_in(b: Seq<u8>, off: int) -> InitIn {
    InitIn {
        major: sle32(b, off + 0),
        minor: sle32(b, off + 4),
        max_readahead: sle32(b, off + 8),
        flags: sle32(b, off + 12),
    }
}

#[derive(Copy, Clone, Debug, PartialEq, Eq, Structural)]
pub struct AccessIn {
    pub mask: u32,
    pub padding: u32,
}

pub const ACCESS_IN_SIZE: usize = 8;

/// The `AccessIn` laid out little-endian at `off` in `b`.
pub open spec fn spec_access_in(b: Seq<u8>, off: int) -> AccessIn {
    AccessIn {
        mask: sle32(b, off + 0),
        padding: sle32(b, off + 4),
    }
}

#[derive(Copy, Clone, Debug, PartialEq, Eq, Structural)]
pub struct CreateIn {
    pub flags: u32,
    pub mode: u32,
    pub umask: u32,
    pub padding: u32,
}

pub const CREATE_IN_SIZE: usize = 16;

/// The `CreateIn` laid out little-endian at `off` in `b`.
pub open spec fn spec_create_in(b: Seq<u8>, off: int) -> CreateIn {
    CreateIn {
        flags: sle32(b, off + 0),
        mode: sle32(b, off + 4),
        umask: sle32(b, off + 8),
        padding: sle32(b, off + 12),
    }
}

#[derive(Copy, Clone, Debug, PartialEq, Eq, Structural)]
pub struct IoctlIn {
    pub fh: u64,
    pub flags: u32,
    pub cmd: u32,
    pub arg: u64,
    pub in_size: u32,
    pub out_size: u32,
}

pub const IOCTL_IN_SIZE: usize = 32;

/// The `IoctlIn` laid out little-endian at `off` in `b`.
pub open spec fn spec_ioctl_in(b: Seq<u8>, off: int) -> IoctlIn {
    IoctlIn {
        fh: sle64(b, off + 0),
        flags: sle32(b, off + 8),
        cmd: sle32(b, off + 12),
        arg: sle64(b, off + 16),
        in_size: sle32(b, off + 24),
        out_size: sle32(b, off + 28),
    }
}

#[derive(Copy, Clone, Debug, PartialEq, Eq, Structural)]
pub struct BatchForgetIn {
    pub count: u32,
    pub dummy: u32,
}

pub const BATCH_FORGET_IN_SIZE: usize = 8;

/// The `BatchForgetIn` laid out little-endian at `off` in `b`.
pub open spec fn spec_batch_forget_in(b: Seq<u8>, off: int) -> BatchForgetIn {
    BatchForgetIn {
        count: sle32(b, off + 0),
        dummy: sle32(b, off + 4),
    }
}

#[derive(Copy, Clone, Debug, PartialEq, Eq, Structural)]
pub struct ForgetOne {
    pub nodeid: u64,
    pub nlookup: u64,
}

pub const FORGET_ONE_SIZE: usize = 16;

/// The `ForgetOne` laid out little-endian at `off` in `b`.
pub open spec fn spec_forget_one(b: Seq<u8>, off: int) -> ForgetOne {
    ForgetOne {
        nodeid: sle64(b, off + 0),
        nlookup: sle64(b, off + 8),
    }
}

#[derive(Copy, Clone, Debug, PartialEq, Eq, Structural)]
pub struct FallocateIn {
    pub fh: u64,
    pub offset: u64,
    pub length: u64,
    pub mode: u32,
    pub padding: u32,
}

pub const FALLOCATE_IN_SIZE: usize = 32;

/// The `FallocateIn` laid out little-endian at `off` in `b`.
pub open spec fn spec_fallocate_in(b: Seq<u8>, off: int) -> FallocateIn {
    FallocateIn {
        fh: sle64(b, off + 0),
        offset: sle64(b, off + 8),
        length: sle64(b, off + 16),
        mode: sle32(b, off + 24),
        padding: sle32(b, off + 28),
    }
}

#[derive(Copy, Clone, Debug, PartialEq, Eq, Structural)]
pub struct CopyFileRangeIn {
    pub fh_src: u64,
    pub off_src: u64,
    pub nodeid_dst: u64,
    pub fh_dst: u64,
    pub off_dst: u64,
    pub len: u64,
    pub flags: u64,
}

pub const COPY_FILE_RANGE_IN_SIZE: usize = 56;

/// The `CopyFileRangeIn` laid out little-endian at `off` in `b`.
pub open spec fn spec_copy_file_range_in(b: Seq<u8>, off: int) -> CopyFileRangeIn {
    CopyFileRangeIn {
        fh_src: sle64(b, off + 0),
        off_src: sle64(b, off + 8),
        nodeid_dst: sle64(b, off + 16),
        fh_dst: sle64(b, off + 24),
        off_dst: sle64(b, off + 32),
        len: sle64(b, off + 40),
        flags: sle64(b, off + 48),
    }
}

#[derive(Copy, Clone, Debug, PartialEq, Eq, Structural)]
pub struct SetUpMappingIn {
    pub fh: u64,
    pub foffset: u64,
    pub len: u64,
    pub flags: u64,
    pub moffset: u64,
}

pub const SET_UP_MAPPING_IN_SIZE: usize = 40;

/// The `SetUpMappingIn` laid out little-endian at `off` in `b`.
pub open spec fn spec_set_up_mapping_in(b: Seq<u8>, off: int) -> SetUpMappingIn {
    SetUpMappingIn {
        fh: sle64(b, off + 0),
        foffset: sle64(b, off + 8),
        len: sle64(b, off + 16),
        flags: sle64(b, off + 24),
        moffset: sle64(b, off + 32),
    }
}

#[derive(Copy, Clone, Debug, PartialEq, Eq, Structural)]
pub struct RemoveMappingIn {
    pub count: u32,
}

pub const REMOVE_MAPPING_IN_SIZE: usize = 4;

/// The `RemoveMappingIn` laid out little-endian at `off` in `b`.
pub open spec fn spec_remove_mapping_in(b: Seq<u8>, off: int) -> RemoveMappingIn {
    RemoveMappingIn {
        count: sle32(b, off + 0),
    }
}

#[derive(Copy, Clone, Debug, PartialEq, Eq, Structural)]
pub struct RemoveMappingOne {
    pub moffset: u64,
    pub len: u64,
}

pub const REMOVE_MAPPING_ONE_SIZE: usize = 16;

/// The `RemoveMappingOne` laid out little-endian at `off` in `b`.
pub open spec fn spec_remove_mapping_one(b: Seq<u8>, off: int) -> RemoveMappingOne {
    RemoveMappingOne {
        moffset: sle64(b, off + 0),
        len: sle64(b, off + 8),
    }
}

#[derive(Copy, Clone, Debug, PartialEq, Eq, Structural)]
pub struct SecctxHeader {
    pub size: u32,
    pub nr_secctx: u32,
}

pub const SECCTX_HEADER_SIZE: usize = 8;

/// The `SecctxHeader` laid out little-endian at `off` in `b`.
pub open spec fn spec_secctx_header(b: Seq<u8>, off: int) -> SecctxHeader {
    SecctxHeader {
        size: sle32(b, off + 0),
        nr_secctx: sle32(b, off + 4),
    }
}

#[derive(Copy, Clone, Debug, PartialEq, Eq, Structural)]
pub struct Secctx {
    pub size: u32,
    pub padding: u32,
}

pub const SECCTX_SIZE: usize = 8;

/// The `Secctx` laid out little-endian at `off` in `b`.
pub open spec fn spec_secctx(b: Seq<u8>, off: int) -> Secctx {
    Secctx {
        size: sle32(b, off + 0),
        padding: sle32(b, off + 4),
    }
}

#[derive(Copy, Clone, Debug, PartialEq, Eq, Structural)]
pub struct OutHeader {
    pub len: u32,
    pub error: i32,
    pub unique: u64,
}

pub const OUT_HEADER_SIZE: usize = 16;

/// The little-endian byte image of a `OutHeader`.
#[verifier::opaque]
pub open spec fn spec_out_header_bytes(x: OutHeader) -> Seq<u8> {
    le32(x.len) + le32(x.error as u32) + le64(x.unique)
}

/// Appends the byte image of a `OutHeader`.
pub fn push_out_header(out: &mut Vec<u8>, x: OutHeader)
    ensures
        final(out)@ == old(out)@ + spec_out_header_bytes(x),
{
    push_le32(out, x.len);
    push_le32(out, x.error as u32);
    push_le64(out, x.unique);
    proof {
        reveal(spec_out_header_bytes);
        assert(out@ =~= old(out)@ + spec_out_header_bytes(x));
    }
}

#[derive(Copy, Clone, Debug, PartialEq, Eq, Structural)]
pub struct Attr {
    pub ino: u64,
    pub size: u64,
    pub blocks: u64,
    pub atime: u64,
    pub mtime: u64,
    pub ctime: u64,
    pub atimensec: u32,
    pub mtimensec: u32,
    pub ctimensec: u32,
    pub mode: u32,
    pub nlink: u32,
    pub uid: u32,
    pub gid: u32,
    pub rdev: u32,
    pub blksize: u32,
    pub flags: u32,
}

pub const ATTR_SIZE: usize = 88;

/// The fixed-size fields of an attribute image: the 64-bit values.
pub open spec fn spec_attr_head(x: Attr) -> Seq<u8> {
    le64(x.ino) + le64(x.size) + le64(x.blocks) + le64(x.atime) + le64(x.mtime) + le64(x.ctime)
}

/// The fixed-size fields of an attribute image: the 32-bit values.
pub open spec fn spec_attr_tail(x: Attr) -> Seq<u8> {
    le32(x.atimensec) + le32(x.mtimensec) + le32(x.ctimensec) + le32(x.mode) + le32(x.nlink)
        + le32(x.uid) + le32(x.gid) + le32(x.rdev) + le32(x.blksize) + le32(x.flags)
}

/// The little-endian byte image of a `Attr`.
#[verifier::opaque]
pub open spec fn spec_attr_bytes(x: Attr) -> Seq<u8> {
    spec_attr_head(x) + spec_attr_tail(x)
}

/// Appends the byte image of a `Attr`.
#[verifier::rlimit(100)]
#[verifier::spinoff_prover]
pub fn push_attr(out: &mut Vec<u8>, x: Attr)
    ensures
        final(out)@ == old(out)@ + spec_attr_bytes(x),
{
    let ghost base = out@;
    push_le64(out, x.ino);
    push_le64(out, x.size);
    proof {
        vstd::seq_lib::lemma_concat_associative(base, le64(x.ino), le64(x.size));
    }
    push_le64(out, x.blocks);
    proof {
        vstd::seq_lib::lemma_concat_associative(base, le64(x.ino) + le64(x.size), le64(x.blocks));
    }
    push_le64(out, x.atime);
    proof {
        vstd::seq_lib::lemma_concat_associative(
            base,
            le64(x.ino) + le64(x.size) + le64(x.blocks),
            le64(x.atime),
        );
    }
    push_le64(out, x.mtime);
    proof {
        vstd::seq_lib::lemma_concat_associative(
            base,
            le64(x.ino) + le64(x.size) + le64(x.blocks) + le64(x.atime),
            le64(x.mtime),
        );
    }
    push_le64(out, x.ctime);
    proof {
        vstd::seq_lib::lemma_concat_associative(
            base,
            le64(x.ino) + le64(x.size) + le64(x.blocks) + le64(x.atime) + le64(x.mtime),
            le64(x.ctime),
        );
        assert(out@ == base + spec_attr_head(x));
    }
    let ghost mid = out@;
    push_le32(out, x.atimensec);
    push_le32(out, x.mtimensec);
    proof {
        vstd::seq_lib::lemma_concat_associative(mid, le32(x.atimensec), le32(x.mtimensec));
    }
    push_le32(out, x.ctimensec);
    proof {
        vstd::seq_lib::lemma_concat_associative(
            mid,
            le32(x.atimensec) + le32(x.mtimensec),
            le32(x.ctimensec),
        );
    }
    push_le32(out, x.mode);
    proof {
        vstd::seq_lib::lemma_concat_associative(
            mid,
            le32(x.atimensec) + le32(x.mtimensec) + le32(x.ctimensec),
            le32(x.mode),
        );
    }
    push_le32(out, x.nlink);
    proof {
        vstd::seq_lib::lemma_concat_associative(
            mid,
            le32(x.atimensec) + le32(x.mtimensec) + le32(x.ctimensec) + le32(x.mode),
            le32(x.nlink),
        );
    }
    push_le32(out, x.uid);
    proof {
        vstd::seq_lib::lemma_concat_associative(
            mid,
            le32(x.atimensec) + le32(x.mtimensec) + le32(x.ctimensec) + le32(x.mode) + le32(
                x.nlink,
            ),
            le32(x.uid),
        );
    }
    push_le32(out, x.gid);
    proof {
        vstd::seq_lib::lemma_concat_associative(
            mid,
            le32(x.atimensec) + le32(x.mtimensec) + le32(x.ctimensec) + le32(x.mode) + le32(
                x.nlink,
            ) + le32(x.uid),
            le32(x.gid),
        );
    }
    push_le32(out, x.rdev);
    proof {
        vstd::seq_lib::lemma_concat_associative(
            mid,
            le32(x.atimensec) + le32(x.mtimensec) + le32(x.ctimensec) + le32(x.mode) + le32(
                x.nlink,
            ) + le32(x.uid) + le32(x.gid),
            le32(x.rdev),
        );
    }
    push_le32(out, x.blksize);
    proof {
        vstd::seq_lib::lemma_concat_associative(
            mid,
            le32(x.atimensec) + le32(x.mtimensec) + le32(x.ctimensec) + le32(x.mode) + le32(
                x.nlink,
            ) + le32(x.uid) + le32(x.gid) + le32(x.rdev),
            le32(x.blksize),
        );
    }
    push_le32(out, x.flags);
    proof {
        vstd::seq_lib::lemma_concat_associative(
            mid,
            le32(x.atimensec) + le32(x.mtimensec) + le32(x.ctimensec) + le32(x.mode) + le32(
                x.nlink,
            ) + le32(x.uid) + le32(x.gid) + le32(x.rdev) + le32(x.blksize),
            le32(x.flags),
        );
        assert(out@ == mid + spec_attr_tail(x));
        vstd::seq_lib::lemma_concat_associative(base, spec_attr_head(x), spec_attr_tail(x));
        reveal(spec_attr_bytes);
        assert(out@ == base + spec_attr_bytes(x));
    }
}

#[derive(Copy, Clone, Debug, PartialEq, Eq, Structural)]
pub struct OpenOut {
    pub fh: u64,
    pub open_flags: u32,
    pub padding: u32,
}

pub const OPEN_OUT_SIZE: usize = 16;

/// The little-endian byte image of a `OpenOut`.
#[verifier::opaque]
pub open spec fn spec_open_out_bytes(x: OpenOut) -> Seq<u8> {
    le64(x.fh) + le32(x.open_flags) + le32(x.padding)
}

/// Appends the byte image of a `OpenOut`.
pub fn push_open_out(out: &mut Vec<u8>, x: OpenOut)
    ensures
        final(out)@ == old(out)@ + spec_open_out_bytes(x),
{
    push_le64(out, x.fh);
    push_le32(out, x.open_flags);
    push_le32(out, x.padding);
    proof {
        reveal(spec_open_out_bytes);
        assert(out@ =~= old(out)@ + spec_open_out_bytes(x));
    }
}

#[derive(Copy, Clone, Debug, PartialEq, Eq, Structural)]
pub struct WriteOut {
    pub size: u32,
    pub padding: u32,
}

pub const WRITE_OUT_SIZE: usize = 8;

/// The little-endian byte image of a `WriteOut`.
#[verifier::opaque]
pub open spec fn spec_write_out_bytes(x: WriteOut) -> Seq<u8> {
    le32(x.size) + le32(x.padding)
}

/// Appends the byte image of a `WriteOut`.
pub fn push_write_out(out: &mut Vec<u8>, x: WriteOut)
    ensures
        final(out)@ == old(out)@ + spec_write_out_bytes(x),
{
    push_le32(out, x.size);
    push_le32(out, x.padding);
    proof {
        reveal(spec_write_out_bytes);
        assert(out@ =~= old(out)@ + spec_write_out_bytes(x));
    }
}

#[derive(Copy, Clone, Debug, PartialEq, Eq, Structural)]
pub struct GetxattrOut {
    pub size: u32,
    pub padding: u32,
}

pub const GETXATTR_OUT_SIZE: usize = 8;

/// The little-endian byte image of a `GetxattrOut`.
#[verifier::opaque]
pub open spec fn spec_getxattr_out_bytes(x: GetxattrOut) -> Seq<u8> {
    le32(x.size) + le32(x.padding)
}

/// Appends the byte image of a `GetxattrOut`.
pub fn push_getxattr_out(out: &mut Vec<u8>, x: GetxattrOut)
    ensures
        final(out)@ == old(out)@ + spec_getxattr_out_bytes(x),
{
    push_le32(out, x.size);
    push_le32(out, x.padding);
    proof {
        reveal(spec_getxattr_out_bytes);
        assert(out@ =~= old(out)@ + spec_getxattr_out_bytes(x));
    }
}

#[derive(Copy, Clone, Debug, PartialEq, Eq, Structural)]
pub struct Kstatfs {
    pub blocks: u64,
    pub bfree: u64,
    pub bavail: u64,
    pub files: u64,
    pub ffree: u64,
    pub bsize: u32,
    pub namelen: u32,
    pub frsize: u32,
    pub padding: u32,
}

pub const KSTATFS_SIZE: usize = 56;

/// The little-endian byte image of a `Kstatfs`.
#[verifier::opaque]
pub open spec fn spec_kstatfs_bytes(x: Kstatfs) -> Seq<u8> {
    le64(x.blocks) + le64(x.bfree) + le64(x.bavail) + le64(x.files) + le64(x.ffree) + le32(x.bsize) + le32(x.namelen) + le32(x.frsize) + le32(x.padding)
}

/// Appends the byte image of a `Kstatfs`.
#[verifier::rlimit(100)]
#[verifier::spinoff_prover]
pub fn push_kstatfs(out: &mut Vec<u8>, x: Kstatfs)
    ensures
        final(out)@ == old(out)@ + spec_kstatfs_bytes(x),
{
    push_le64(out, x.blocks);
    push_le64(out, x.bfree);
    push_le64(out, x.bavail);
    push_le64(out, x.files);
    push_le64(out, x.ffree);
    push_le32(out, x.bsize);
    push_le32(out, x.namelen);
    push_le32(out, x.frsize);
    push_le32(out, x.padding);
    proof {
        reveal(spec_kstatfs_bytes);
        assert(out@ =~= old(out)@ + spec_kstatfs_bytes(x));
    }
}

#[derive(Copy, Clone, Debug, PartialEq, Eq, Structural)]
pub struct IoctlOut {
    pub result: i32,
    pub flags: u32,
    pub in_iovs: u32,
    pub out_iovs: u32,
}

pub const IOCTL_OUT_SIZE: usize = 16;

/// The little-endian byte image of a `IoctlOut`.
#[verifier::opaque]
pub open spec fn spec_ioctl_out_bytes(x: IoctlOut) -> Seq<u8> {
    le32(x.result as u32) + le32(x.flags) + le32(x.in_iovs) + le32(x.out_iovs)
}

/// Appends the byte image of a `IoctlOut`.
pub fn push_ioctl_out(out: &mut Vec<u8>, x: IoctlOut)
    ensures
        final(out)@ == old(out)@ + spec_ioctl_out_bytes(x),
{
    push_le32(out, x.result as u32);
    push_le32(out, x.flags);
    push_le32(out, x.in_iovs);
    push_le32(out, x.out_iovs);
    proof {
        reveal(spec_ioctl_out_bytes);
        assert(out@ =~= old(out)@ + spec_ioctl_out_bytes(x));
    }
}

#[derive(Copy, Clone, Debug, PartialEq, Eq, Structural)]
pub struct IoctlIovec {
    pub base: u64,
    pub len: u64,
}

pub const IOCTL_IOVEC_SIZE: usize = 16;

/// The little-endian byte image of a `IoctlIovec`.
#[verifier::opaque]
pub open spec fn spec_ioctl_iovec_bytes(x: IoctlIovec) -> Seq<u8> {
    le64(x.base) + le64(x.len)
}

/// Appends the byte image of a `IoctlIovec`.
pub fn push_ioctl_iovec(out: &mut Vec<u8>, x: IoctlIovec)
    ensures
        final(out)@ == old(out)@ + spec_ioctl_iovec_bytes(x),
{
    push_le64(out, x.base);
    push_le64(out, x.len);
    proof {
        reveal(spec_ioctl_iovec_bytes);
        assert(out@ =~= old(out)@ + spec_ioctl_iovec_bytes(x));
    }
}

#[derive(Copy, Clone, Debug, PartialEq, Eq, Structural)]
pub struct Dirent {
    pub ino: u64,
    pub off: u64,
    pub namelen: u32,
    pub type_: u32,
}

pub const DIRENT_SIZE: usize = 24;

/// The little-endian byte image of a `Dirent`.
#[verifier::opaque]
pub open spec fn spec_dirent_bytes(x: Dirent) -> Seq<u8> {
    le64(x.ino) + le64(x.off) + le32(x.namelen) + le32(x.type_)
}

/// Appends the byte image of a `Dirent`.
pub fn push_dirent(out: &mut Vec<u8>, x: Dirent)
    ensures
        final(out)@ == old(out)@ + spec_dirent_bytes(x),
{
    push_le64(out, x.ino);
    push_le64(out, x.off);
    push_le32(out, x.namelen);
    push_le32(out, x.type_);
    proof {
        reveal(spec_dirent_bytes);
        assert(out@ =~= old(out)@ + spec_dirent_bytes(x));
    }
}

#[derive(Copy, Clone, Debug, PartialEq, Eq, Structural)]
pub struct InitInExt {
    pub flags2: u32,
}

// The extended init block also carries 44 unused bytes on the wire.
pub const INIT_IN_EXT_SIZE: usize = 48;

/// The `InitInExt` laid out little-endian at `off` in `b`.
pub open spec fn spec_init_in_ext(b: Seq<u8>, off: int) -> InitInExt {
    InitInExt { flags2: sle32(b, off) }
}

#[derive(Copy, Clone, Debug, PartialEq, Eq, Structural)]
pub struct EntryOut {
    pub nodeid: u64,
    pub generation: u64,
    pub entry_valid: u64,
    pub attr_valid: u64,
    pub entry_valid_nsec: u32,
    pub attr_valid_nsec: u32,
    pub attr: Attr,
}

pub const ENTRY_OUT_SIZE: usize = 128;

/// The little-endian byte image of an `EntryOut`.
#[verifier::opaque]
pub open spec fn spec_entry_out_bytes(x: EntryOut) -> Seq<u8> {
    le64(x.nodeid) + le64(x.generation) + le64(x.entry_valid) + le64(x.attr_valid) + le32(
        x.entry_valid_nsec,
    ) + le32(x.attr_valid_nsec) + spec_attr_bytes(x.attr)
}

/// Appends the byte image of an `EntryOut`.
pub fn push_entry_out(out: &mut Vec<u8>, x: EntryOut)
    ensures
        final(out)@ == old(out)@ + spec_entry_out_bytes(x),
{
    push_le64(out, x.nodeid);
    push_le64(out, x.generation);
    push_le64(out, x.entry_valid);
    push_le64(out, x.attr_valid);
    push_le32(out, x.entry_valid_nsec);
    push_le32(out, x.attr_valid_nsec);
    push_attr(out, x.attr);
    proof {
        reveal(spec_entry_out_bytes);
        assert(out@ =~= old(out)@ + spec_entry_out_bytes(x));
    }
}

#[derive(Copy, Clone, Debug, PartialEq, Eq, Structural)]
pub struct AttrOut {
    pub attr_valid: u64,
    pub attr_valid_nsec: u32,
    pub dummy: u32,
    pub attr: Attr,
}

pub const ATTR_OUT_SIZE: usize = 104;

/// The little-endian byte image of an `AttrOut`.
#[verifier::opaque]
pub open spec fn spec_attr_out_bytes(x: AttrOut) -> Seq<u8> {
    le64(x.attr_valid) + le32(x.attr_valid_nsec) + le32(x.dummy) + spec_attr_bytes(x.attr)
}

/// Appends the byte image of an `AttrOut`.
pub fn push_attr_out(out: &mut Vec<u8>, x: AttrOut)
    ensures
        final(out)@ == old(out)@ + spec_attr_out_bytes(x),
{
    push_le64(out, x.attr_valid);
    push_le32(out, x.attr_valid_nsec);
    push_le32(out, x.dummy);
    push_attr(out, x.attr);
    proof {
        reveal(spec_attr_out_bytes);
        assert(out@ =~= old(out)@ + spec_attr_out_bytes(x));
    }
}

#[derive(Copy, Clone, Debug, PartialEq, Eq, Structural)]
pub struct InitOut {
    pub major: u32,
    pub minor: u32,
    pub max_readahead: u32,
    pub flags: u32,
    pub max_background: u16,
    pub congestion_threshold: u16,
    pub max_write: u32,
    pub time_gran: u32,
    pub max_pages: u16,
    pub map_alignment: u16,
    pub flags2: u32,
}

// The init reply also carries 28 unused bytes on the wire.
pub const INIT_OUT_SIZE: usize = 64;

/// The little-endian byte image of an `InitOut`.
#[verifier::opaque]
pub open spec fn spec_init_out_bytes(x: InitOut) -> Seq<u8> {
    le32(x.major) + le32(x.minor) + le32(x.max_readahead) + le32(x.flags) + le16(x.max_background)
        + le16(x.congestion_threshold) + le32(x.max_write) + le32(x.time_gran) + le16(x.max_pages)
        + le16(x.map_alignment) + le32(x.flags2) + Seq::new(28nat, |i: int| 0u8)
}

/// Appends the byte image of an `InitOut`.
pub fn push_init_out(out: &mut Vec<u8>, x: InitOut)
    ensures
        final(out)@ == old(out)@ + spec_init_out_bytes(x),
{
    push_le32(out, x.major);
    push_le32(out, x.minor);
    push_le32(out, x.max_readahead);
    push_le32(out, x.flags);
    push_le16(out, x.max_background);
    push_le16(out, x.congestion_threshold);
    push_le32(out, x.max_write);
    push_le32(out, x.time_gran);
    push_le16(out, x.max_pages);
    push_le16(out, x.map_alignment);
    push_le32(out, x.flags2);
    push_zeros(out, 28);
    proof {
        reveal(spec_init_out_bytes);
        assert(out@ =~= old(out)@ + spec_init_out_bytes(x));
    }
}

/// Appends the byte image of a `Kstatfs`, including its spare words.
pub fn push_kstatfs_full(out: &mut Vec<u8>, x: Kstatfs)
    ensures
        final(out)@ == old(out)@ + spec_kstatfs_bytes(x) + Seq::new(24nat, |i: int| 0u8),
{
    push_kstatfs(out, x);
    push_zeros(out, 24);
    assert(out@ =~= old(out)@ + spec_kstatfs_bytes(x) + Seq::new(24nat, |i: int| 0u8));
}

// A Kstatfs reply carries 24 spare bytes after the fields.
pub const KSTATFS_WIRE_SIZE: usize = 80;

/// The init reply image always spans the same 64 bytes.
#[verifier::rlimit(100)]
#[verifier::spinoff_prover]
pub broadcast proof fn lemma_init_out_bytes_len(x: InitOut)
    ensures
        (#[trigger] spec_init_out_bytes(x)).len() == INIT_OUT_SIZE,
{
    reveal(spec_init_out_bytes);
}

/// The entry image always spans the same 128 bytes.
#[verifier::rlimit(100)]
#[verifier::spinoff_prover]
pub broadcast proof fn lemma_entry_out_bytes_len(x: EntryOut)
    ensures
        (#[trigger] spec_entry_out_bytes(x)).len() == ENTRY_OUT_SIZE,
{
    reveal(spec_entry_out_bytes);
    lemma_attr_bytes_len(x.attr);
}


/// The fixed lengths of the opaque wire images.
pub broadcast proof fn lemma_out_header_bytes_len(x: OutHeader)
    ensures
        (#[trigger] spec_out_header_bytes(x)).len() == OUT_HEADER_SIZE,
{
    reveal(spec_out_header_bytes);
}

pub broadcast proof fn lemma_dirent_bytes_len(x: Dirent)
    ensures
        (#[trigger] spec_dirent_bytes(x)).len() == DIRENT_SIZE,
{
    reveal(spec_dirent_bytes);
}

pub broadcast proof fn lemma_ioctl_out_bytes_len(x: IoctlOut)
    ensures
        (#[trigger] spec_ioctl_out_bytes(x)).len() == IOCTL_OUT_SIZE,
{
    reveal(spec_ioctl_out_bytes);
}

pub broadcast proof fn lemma_ioctl_iovec_bytes_len(x: IoctlIovec)
    ensures
        (#[trigger] spec_ioctl_iovec_bytes(x)).len() == IOCTL_IOVEC_SIZE,
{
    reveal(spec_ioctl_iovec_bytes);
}

pub broadcast proof fn lemma_attr_out_bytes_len(x: AttrOut)
    ensures
        (#[trigger] spec_attr_out_bytes(x)).len() == ATTR_OUT_SIZE,
{
    reveal(spec_attr_out_bytes);
    lemma_attr_bytes_len(x.attr);
}

#[verifier::rlimit(100)]
#[verifier::spinoff_prover]
pub broadcast proof fn lemma_kstatfs_bytes_len(x: Kstatfs)
    ensures
        (#[trigger] spec_kstatfs_bytes(x)).len() == KSTATFS_SIZE,
{
    reveal(spec_kstatfs_bytes);
    assert(le64(x.blocks).len() == 8);
    assert(le64(x.bfree).len() == 8);
    assert(le64(x.bavail).len() == 8);
    assert(le64(x.files).len() == 8);
    assert(le64(x.ffree).len() == 8);
    assert(le32(x.bsize).len() == 4);
    assert(le32(x.namelen).len() == 4);
    assert(le32(x.frsize).len() == 4);
    assert(le32(x.padding).len() == 4);
}

pub broadcast proof fn lemma_open_out_bytes_len(x: OpenOut)
    ensures
        (#[trigger] spec_open_out_bytes(x)).len() == OPEN_OUT_SIZE,
{
    reveal(spec_open_out_bytes);
}

pub broadcast proof fn lemma_write_out_bytes_len(x: WriteOut)
    ensures
        (#[trigger] spec_write_out_bytes(x)).len() == WRITE_OUT_SIZE,
{
    reveal(spec_write_out_bytes);
}

pub broadcast proof fn lemma_getxattr_out_bytes_len(x: GetxattrOut)
    ensures
        (#[trigger] spec_getxattr_out_bytes(x)).len() == GETXATTR_OUT_SIZE,
{
    reveal(spec_getxattr_out_bytes);
}


/// The wrapped negation an errno is reflected as in a reply header.
pub open spec fn spec_neg(e: i32) -> i32 {
    if e == i32::MIN {
        i32::MIN
    } else {
        (-e) as i32
    }
}

/// The bytes of an error reply: a bare header carrying the negated errno.
pub open spec fn spec_err_reply(e: i32, unique: u64) -> Seq<u8> {
    spec_out_header_bytes(
        OutHeader { len: OUT_HEADER_SIZE as u32, error: spec_neg(e), unique },
    )
}

/// The bytes of a success reply: a header whose length covers the payload
/// exactly, then the payload.
pub open spec fn spec_ok_reply(payload: Seq<u8>, unique: u64) -> Seq<u8> {
    spec_out_header_bytes(
        OutHeader { len: (OUT_HEADER_SIZE + payload.len()) as u32, error: 0, unique },
    ) + payload
}

/// Exactly one reply for `unique` was appended: a success reply carrying
/// some payload, or an error reply carrying some negated errno.
pub open spec fn spec_some_reply(pre: Seq<u8>, post: Seq<u8>, unique: u64) -> bool {
    (exists|payload: Seq<u8>| post == pre + spec_ok_reply(payload, unique)) || (exists|e: i32|
        post == pre + spec_err_reply(e, unique))
}


/// An appended error reply is headed by the request's identifier.
pub broadcast proof fn lemma_err_reply_replied(pre: Seq<u8>, e: i32, unique: u64)
    ensures
        spec_replied(pre, #[trigger] (pre + spec_err_reply(e, unique)), unique),
{
    let h = OutHeader { len: OUT_HEADER_SIZE as u32, error: spec_neg(e), unique };
    lemma_out_header_bytes_len(h);
    assert(pre + spec_out_header_bytes(h) + Seq::<u8>::empty() =~= pre + spec_err_reply(
        e,
        unique,
    ));
    lemma_out_header_unique(pre, h, Seq::empty());
    assert((pre + spec_err_reply(e, unique)).subrange(0, pre.len() as int) =~= pre);
}

/// An appended success reply is headed by the request's identifier.
pub broadcast proof fn lemma_ok_reply_replied(pre: Seq<u8>, payload: Seq<u8>, unique: u64)
    ensures
        spec_replied(pre, #[trigger] (pre + spec_ok_reply(payload, unique)), unique),
{
    let h = OutHeader { len: (OUT_HEADER_SIZE + payload.len()) as u32, error: 0, unique };
    lemma_out_header_bytes_len(h);
    vstd::seq_lib::lemma_concat_associative(pre, spec_out_header_bytes(h), payload);
    lemma_out_header_unique(pre, h, payload);
    assert((pre + spec_ok_reply(payload, unique)).subrange(0, pre.len() as int) =~= pre);
}

/// A reply appended whole carries the request's identifier in its header.
pub broadcast proof fn lemma_some_reply_replied(pre: Seq<u8>, post: Seq<u8>, unique: u64)
    requires
        #[trigger] spec_some_reply(pre, post, unique),
    ensures
        spec_replied(pre, post, unique),
{
    if exists|payload: Seq<u8>| post == pre + spec_ok_reply(payload, unique) {
        let payload = choose|payload: Seq<u8>| post == pre + spec_ok_reply(payload, unique);
        let h = OutHeader {
            len: (OUT_HEADER_SIZE + payload.len()) as u32,
            error: 0,
            unique,
        };
        lemma_out_header_bytes_len(h);
        vstd::seq_lib::lemma_concat_associative(pre, spec_out_header_bytes(h), payload);
        lemma_out_header_unique(pre, h, payload);
        assert(post.len() >= pre.len() + OUT_HEADER_SIZE);
        assert(post.subrange(0, pre.len() as int) =~= pre);
    } else {
        let e = choose|e: i32| post == pre + spec_err_reply(e, unique);
        let h = OutHeader { len: OUT_HEADER_SIZE as u32, error: spec_neg(e), unique };
        lemma_out_header_bytes_len(h);
        assert(pre + spec_out_header_bytes(h) + Seq::<u8>::empty() =~= pre + spec_err_reply(
            e,
            unique,
        ));
        lemma_out_header_unique(pre, h, Seq::empty());
        assert(sle64(post, pre.len() as int + 8) == unique);
        assert(post.len() >= pre.len() + OUT_HEADER_SIZE);
        assert(post.subrange(0, pre.len() as int) =~= pre);
    }
}

/// Whatever this handler appended, if anything, begins with a reply
/// header carrying the request's identifier.
pub open spec fn spec_replied(pre: Seq<u8>, post: Seq<u8>, unique: u64) -> bool {
    post == pre || (post.len() >= pre.len() + OUT_HEADER_SIZE && post.subrange(
        0,
        pre.len() as int,
    ) == pre && sle64(post, pre.len() as int + 8) == unique)
}

/// The unique field of a reply header parses back from its bytes wherever
/// the header stands.
pub proof fn lemma_out_header_unique(pre: Seq<u8>, h: OutHeader, rest: Seq<u8>)
    ensures
        sle64(pre + spec_out_header_bytes(h) + rest, pre.len() as int + 8) == h.unique,
{
    reveal(spec_out_header_bytes);
    let b = pre + spec_out_header_bytes(h) + rest;
    lemma_out_header_bytes_len(h);
    assert forall|i: int| 0 <= i < 8 implies b[pre.len() as int + 8 + i] == le64(h.unique)[i] by {
        assert(spec_out_header_bytes(h)[8 + i] == le64(h.unique)[i]);
        assert(b[pre.len() + 8 + i] == spec_out_header_bytes(h)[8 + i]);
    }
    lemma_sle64_of_le64(b, pre.len() as int + 8, h.unique);
}

/// The attribute image always spans the same 88 bytes.
#[verifier::rlimit(100)]
#[verifier::spinoff_prover]
pub broadcast proof fn lemma_attr_bytes_len(x: Attr)
    ensures
        (#[trigger] spec_attr_bytes(x)).len() == 88,
{
    reveal(spec_attr_bytes);
    assert(spec_attr_head(x).len() == 48);
    assert(spec_attr_tail(x).len() == 40);
}

/// A positioned reader over the bytes of one request.
pub struct Reader<'a> {
    pub buf: &'a [u8],
    pub pos: usize,
}

impl<'a> Reader<'a> {
    /// The whole request.
    pub open spec fn spec_buf(&self) -> Seq<u8> {
        self.buf@
    }

    /// The bytes not consumed yet.
    pub open spec fn spec_remaining(&self) -> int {
        self.buf@.len() - self.pos
    }

    /// The cursor never passes the end of the request.
    pub open spec fn wf(&self) -> bool {
        self.pos <= self.buf@.len()
    }

    pub fn new(buf: &'a [u8]) -> (r: Reader<'a>)
        ensures
            r.wf(),
            r.spec_buf() == buf@,
            r.pos == 0,
    {
        Reader { buf, pos: 0 }
    }

    /// The number of bytes not consumed yet.
    pub fn remaining(&self) -> (r: usize)
        requires
            self.wf(),
        ensures
            r == self.spec_remaining(),
    {
        self.buf.len() - self.pos
    }

    fn get_u8(&mut self) -> (r: u8)
        requires
            old(self).wf(),
            old(self).spec_remaining() >= 1,
        ensures
            final(self).wf(),
            final(self).buf == old(self).buf,
            final(self).pos == old(self).pos + 1,
            r == old(self).spec_buf()[old(self).pos as int],
    {
        let r = self.buf[self.pos];
        self.pos = self.pos + 1;
        r
    }

    fn get_u16(&mut self) -> (r: u16)
        requires
            old(self).wf(),
            old(self).spec_remaining() >= 2,
        ensures
            final(self).wf(),
            final(self).buf == old(self).buf,
            final(self).pos == old(self).pos + 2,
            r == sle16(old(self).spec_buf(), old(self).pos as int),
    {
        let b = self.buf;
        let p = self.pos;
        let r = (b[p] as u16) | ((b[p + 1] as u16) << 8u16);
        self.pos = p + 2;
        r
    }

    fn get_u32(&mut self) -> (r: u32)
        requires
            old(self).wf(),
            old(self).spec_remaining() >= 4,
        ensures
            final(self).wf(),
            final(self).buf == old(self).buf,
            final(self).pos == old(self).pos + 4,
            r == sle32(old(self).spec_buf(), old(self).pos as int),
    {
        let b = self.buf;
        let p = self.pos;
        let r = (b[p] as u32) | ((b[p + 1] as u32) << 8u32) | ((b[p + 2] as u32) << 16u32) | ((b[p
            + 3] as u32) << 24u32);
        self.pos = p + 4;
        r
    }

    fn get_u64(&mut self) -> (r: u64)
        requires
            old(self).wf(),
            old(self).spec_remaining() >= 8,
        ensures
            final(self).wf(),
            final(self).buf == old(self).buf,
            final(self).pos == old(self).pos + 8,
            r == sle64(old(self).spec_buf(), old(self).pos as int),
    {
        let b = self.buf;
        let p = self.pos;
        let r = (b[p] as u64) | ((b[p + 1] as u64) << 8u64) | ((b[p + 2] as u64) << 16u64) | ((b[p
            + 3] as u64) << 24u64) | ((b[p + 4] as u64) << 32u64) | ((b[p + 5] as u64) << 40u64)
            | ((b[p + 6] as u64) << 48u64) | ((b[p + 7] as u64) << 56u64);
        self.pos = p + 8;
        r
    }

    /// Reads exactly `n` bytes into a fresh vector, or fails without
    /// consuming anything.
    pub fn read_exact_vec(&mut self, n: usize) -> (res: Result<Vec<u8>, Error>)
        requires
            old(self).wf(),
        ensures
            final(self).wf(),
            final(self).buf == old(self).buf,
            match res {
                Ok(v) => old(self).spec_remaining() >= n && v@ == old(self).spec_buf().subrange(
                    old(self).pos as int,
                    old(self).pos + n,
                ) && final(self).pos == old(self).pos + n,
                Err(e) => e == Error::DecodeMessage && old(self).spec_remaining() < n && *final(self) == *old(self),
            },
    {
        if self.buf.len() - self.pos < n {
            return Err(Error::DecodeMessage);
        }
        let blen = self.buf.len();
        let mut v: Vec<u8> = Vec::new();
        let mut k: usize = 0;
        while k < n
            invariant
                self.wf(),
                self.buf == old(self).buf,
                self.pos == old(self).pos,
                k <= n,
                blen == self.buf@.len(),
                self.pos + n <= blen,
                old(self).spec_remaining() >= n,
                v@ == old(self).spec_buf().subrange(old(self).pos as int, old(self).pos + k),
            decreases n - k,
        {
            proof {
                assert(self.pos + k < blen);
            }
            v.push(self.buf[self.pos + k]);
            proof {
                assert(v@ =~= old(self).spec_buf().subrange(
                    old(self).pos as int,
                    old(self).pos + k + 1,
                ));
            }
            k = k + 1;
        }
        self.pos = self.pos + n;
        Ok(v)
    }

    /// Reads an `InitInExt`, which also carries unused bytes, or fails
    /// without consuming anything.
    pub fn read_init_in_ext(&mut self) -> (res: Result<InitInExt, Error>)
        requires
            old(self).wf(),
        ensures
            final(self).wf(),
            final(self).buf == old(self).buf,
            match res {
                Ok(v) => old(self).spec_remaining() >= INIT_IN_EXT_SIZE && v == spec_init_in_ext(
                    old(self).spec_buf(),
                    old(self).pos as int,
                ) && final(self).pos == old(self).pos + INIT_IN_EXT_SIZE,
                Err(e) => e == Error::DecodeMessage && old(self).spec_remaining()
                    < INIT_IN_EXT_SIZE && *final(self) == *old(self),
            },
    {
        if self.buf.len() - self.pos < INIT_IN_EXT_SIZE {
            return Err(Error::DecodeMessage);
        }
        let flags2 = self.get_u32();
        self.pos = self.pos + 44;
        Ok(InitInExt { flags2 })
    }

    /// Reads a `InHeader`, or fails without consuming anything when too
    /// few bytes remain.
    pub fn read_in_header(&mut self) -> (res: Result<InHeader, Error>)
        requires
            old(self).wf(),
        ensures
            final(self).wf(),
            final(self).spec_buf() == old(self).spec_buf(),
            match res {
                Ok(v) => old(self).spec_remaining() >= IN_HEADER_SIZE && v == spec_in_header(
                    old(self).spec_buf(),
                    old(self).pos as int,
                ) && final(self).pos == old(self).pos + IN_HEADER_SIZE,
                Err(e) => e == Error::DecodeMessage && old(self).spec_remaining()
                    < IN_HEADER_SIZE && *final(self) == *old(self),
            },
    {
        if self.buf.len() - self.pos < IN_HEADER_SIZE {
            return Err(Error::DecodeMessage);
        }
        let len = self.get_u32();
        let opcode = self.get_u32();
        let unique = self.get_u64();
        let nodeid = self.get_u64();
        let uid = self.get_u32();
        let gid = self.get_u32();
        let pid = self.get_u32();
        let padding = self.get_u32();
        Ok(InHeader { len, opcode, unique, nodeid, uid, gid, pid, padding })
    }

    /// Reads a `ForgetIn`, or fails without consuming anything when too
    /// few bytes remain.
    pub fn read_forget_in(&mut self) -> (res: Result<ForgetIn, Error>)
        requires
            old(self).wf(),
        ensures
            final(self).wf(),
            final(self).spec_buf() == old(self).spec_buf(),
            match res {
                Ok(v) => old(self).spec_remaining() >= FORGET_IN_SIZE && v == spec_forget_in(
                    old(self).spec_buf(),
                    old(self).pos as int,
                ) && final(self).pos == old(self).pos + FORGET_IN_SIZE,
                Err(e) => e == Error::DecodeMessage && old(self).spec_remaining()
                    < FORGET_IN_SIZE && *final(self) == *old(self),
            },
    {
        if self.buf.len() - self.pos < FORGET_IN_SIZE {
            return Err(Error::DecodeMessage);
        }
        let nlookup = self.get_u64();
        Ok(ForgetIn { nlookup })
    }

    /// Reads a `GetattrIn`, or fails without consuming anything when too
    /// few bytes remain.
    pub fn read_getattr_in(&mut self) -> (res: Result<GetattrIn, Error>)
        requires
            old(self).wf(),
        ensures
            final(self).wf(),
            final(self).spec_buf() == old(self).spec_buf(),
            match res {
                Ok(v) => old(self).spec_remaining() >= GETATTR_IN_SIZE && v == spec_getattr_in(
                    old(self).spec_buf(),
                    old(self).pos as int,
                ) && final(self).pos == old(self).pos + GETATTR_IN_SIZE,
                Err(e) => e == Error::DecodeMessage && old(self).spec_remaining()
                    < GETATTR_IN_SIZE && *final(self) == *old(self),
            },
    {
        if self.buf.len() - self.pos < GETATTR_IN_SIZE {
            return Err(Error::DecodeMessage);
        }
        let flags = self.get_u32();
        let dummy = self.get_u32();
        let fh = self.get_u64();
        Ok(GetattrIn { flags, dummy, fh })
    }

    /// Reads a `SetattrIn`, or fails without consuming anything when too
    /// few bytes remain.
    pub fn read_setattr_in(&mut self) -> (res: Result<SetattrIn, Error>)
        requires
            old(self).wf(),
        ensures
            final(self).wf(),
            final(self).spec_buf() == old(self).spec_buf(),
            match res {
                Ok(v) => old(self).spec_remaining() >= SETATTR_IN_SIZE && v == spec_setattr_in(
                    old(self).spec_buf(),
                    old(self).pos as int,
                ) && final(self).pos == old(self).pos + SETATTR_IN_SIZE,
                Err(e) => e == Error::DecodeMessage && old(self).spec_remaining()
                    < SETATTR_IN_SIZE && *final(self) == *old(self),
            },
    {
        if self.buf.len() - self.pos < SETATTR_IN_SIZE {
            return Err(Error::DecodeMessage);
        }
        let valid = self.get_u32();
        let padding = self.get_u32();
        let fh = self.get_u64();
        let size = self.get_u64();
        let lock_owner = self.get_u64();
        let atime = self.get_u64();
        let mtime = self.get_u64();
        let ctime = self.get_u64();
        let atimensec = self.get_u32();
        let mtimensec = self.get_u32();
        let ctimensec = self.get_u32();
        let mode = self.get_u32();
        let unused4 = self.get_u32();
        let uid = self.get_u32();
        let gid = self.get_u32();
        let unused5 = self.get_u32();
        Ok(SetattrIn { valid, padding, fh, size, lock_owner, atime, mtime, ctime, atimensec, mtimensec, ctimensec, mode, unused4, uid, gid, unused5 })
    }

    /// Reads a `MknodIn`, or fails without consuming anything when too
    /// few bytes remain.
    pub fn read_mknod_in(&mut self) -> (res: Result<MknodIn, Error>)
        requires
            old(self).wf(),
        ensures
            final(self).wf(),
            final(self).spec_buf() == old(self).spec_buf(),
            match res {
                Ok(v) => old(self).spec_remaining() >= MKNOD_IN_SIZE && v == spec_mknod_in(
                    old(self).spec_buf(),
                    old(self).pos as int,
                ) && final(self).pos == old(self).pos + MKNOD_IN_SIZE,
                Err(e) => e == Error::DecodeMessage && old(self).spec_remaining()
                    < MKNOD_IN_SIZE && *final(self) == *old(self),
            },
    {
        if self.buf.len() - self.pos < MKNOD_IN_SIZE {
            return Err(Error::DecodeMessage);
        }
        let mode = self.get_u32();
        let rdev = self.get_u32();
        let umask = self.get_u32();
        let padding = self.get_u32();
        Ok(MknodIn { mode, rdev, umask, padding })
    }

    /// Reads a `MkdirIn`, or fails without consuming anything when too
    /// few bytes remain.
    pub fn read_mkdir_in(&mut self) -> (res: Result<MkdirIn, Error>)
        requires
            old(self).wf(),
        ensures
            final(self).wf(),
            final(self).spec_buf() == old(self).spec_buf(),
            match res {
                Ok(v) => old(self).spec_remaining() >= MKDIR_IN_SIZE && v == spec_mkdir_in(
                    old(self).spec_buf(),
                    old(self).pos as int,
                ) && final(self).pos == old(self).pos + MKDIR_IN_SIZE,
                Err(e) => e == Error::DecodeMessage && old(self).spec_remaining()
                    < MKDIR_IN_SIZE && *final(self) == *old(self),
            },
    {
        if self.buf.len() - self.pos < MKDIR_IN_SIZE {
            return Err(Error::DecodeMessage);
        }
        let mode = self.get_u32();
        let umask = self.get_u32();
        Ok(MkdirIn { mode, umask })
    }

    /// Reads a `ChromeOsTmpfileIn`, or fails without consuming anything when too
    /// few bytes remain.
    pub fn read_chrome_os_tmpfile_in(&mut self) -> (res: Result<ChromeOsTmpfileIn, Error>)
        requires
            old(self).wf(),
        ensures
            final(self).wf(),
            final(self).spec_buf() == old(self).spec_buf(),
            match res {
                Ok(v) => old(self).spec_remaining() >= CHROME_OS_TMPFILE_IN_SIZE && v == spec_chrome_os_tmpfile_in(
                    old(self).spec_buf(),
                    old(self).pos as int,
                ) && final(self).pos == old(self).pos + CHROME_OS_TMPFILE_IN_SIZE,
                Err(e) => e == Error::DecodeMessage && old(self).spec_remaining()
                    < CHROME_OS_TMPFILE_IN_SIZE && *final(self) == *old(self),
            },
    {
        if self.buf.len() - self.pos < CHROME_OS_TMPFILE_IN_SIZE {
            return Err(Error::DecodeMessage);
        }
        let mode = self.get_u32();
        let umask = self.get_u32();
        Ok(ChromeOsTmpfileIn { mode, umask })
    }

    /// Reads a `RenameIn`, or fails without consuming anything when too
    /// few bytes remain.
    pub fn read_rename_in(&mut self) -> (res: Result<RenameIn, Error>)
        requires
            old(self).wf(),
        ensures
            final(self).wf(),
            final(self).spec_buf() == old(self).spec_buf(),
            match res {
                Ok(v) => old(self).spec_remaining() >= RENAME_IN_SIZE && v == spec_rename_in(
                    old(self).spec_buf(),
                    old(self).pos as int,
                ) && final(self).pos == old(self).pos + RENAME_IN_SIZE,
                Err(e) => e == Error::DecodeMessage && old(self).spec_remaining()
                    < RENAME_IN_SIZE && *final(self) == *old(self),
            },
    {
        if self.buf.len() - self.pos < RENAME_IN_SIZE {
            return Err(Error::DecodeMessage);
        }
        let newdir = self.get_u64();
        Ok(RenameIn { newdir })
    }

    /// Reads a `Rename2In`, or fails without consuming anything when too
    /// few bytes remain.
    pub fn read_rename2_in(&mut self) -> (res: Result<Rename2In, Error>)
        requires
            old(self).wf(),
        ensures
            final(self).wf(),
            final(self).spec_buf() == old(self).spec_buf(),
            match res {
                Ok(v) => old(self).spec_remaining() >= RENAME2_IN_SIZE && v == spec_rename2_in(
                    old(self).spec_buf(),
                    old(self).pos as int,
                ) && final(self).pos == old(self).pos + RENAME2_IN_SIZE,
                Err(e) => e == Error::DecodeMessage && old(self).spec_remaining()
                    < RENAME2_IN_SIZE && *final(self) == *old(self),
            },
    {
        if self.buf.len() - self.pos < RENAME2_IN_SIZE {
            return Err(Error::DecodeMessage);
        }
        let newdir = self.get_u64();
        let flags = self.get_u32();
        let padding = self.get_u32();
        Ok(Rename2In { newdir, flags, padding })
    }

    /// Reads a `LinkIn`, or fails without consuming anything when too
    /// few bytes remain.
    pub fn read_link_in(&mut self) -> (res: Result<LinkIn, Error>)
        requires
            old(self).wf(),
        ensures
            final(self).wf(),
            final(self).spec_buf() == old(self).spec_buf(),
            match res {
                Ok(v) => old(self).spec_remaining() >= LINK_IN_SIZE && v == spec_link_in(
                    old(self).spec_buf(),
                    old(self).pos as int,
                ) && final(self).pos == old(self).pos + LINK_IN_SIZE,
                Err(e) => e == Error::DecodeMessage && old(self).spec_remaining()
                    < LINK_IN_SIZE && *final(self) == *old(self),
            },
    {
        if self.buf.len() - self.pos < LINK_IN_SIZE {
            return Err(Error::DecodeMessage);
        }
        let oldnodeid = self.get_u64();
        Ok(LinkIn { oldnodeid })
    }

    /// Reads a `OpenIn`, or fails without consuming anything when too
    /// few bytes remain.
    pub fn read_open_in(&mut self) -> (res: Result<OpenIn, Error>)
        requires
            old(self).wf(),
        ensures
            final(self).wf(),
            final(self).spec_buf() == old(self).spec_buf(),
            match res {
                Ok(v) => old(self).spec_remaining() >= OPEN_IN_SIZE && v == spec_open_in(
                    old(self).spec_buf(),
                    old(self).pos as int,
                ) && final(self).pos == old(self).pos + OPEN_IN_SIZE,
                Err(e) => e == Error::DecodeMessage && old(self).spec_remaining()
                    < OPEN_IN_SIZE && *final(self) == *old(self),
            },
    {
        if self.buf.len() - self.pos < OPEN_IN_SIZE {
            return Err(Error::DecodeMessage);
        }
        let flags = self.get_u32();
        let unused = self.get_u32();
        Ok(OpenIn { flags, unused })
    }

    /// Reads a `ReadIn`, or fails without consuming anything when too
    /// few bytes remain.
    pub fn read_read_in(&mut self) -> (res: Result<ReadIn, Error>)
        requires
            old(self).wf(),
        ensures
            final(self).wf(),
            final(self).spec_buf() == old(self).spec_buf(),
            match res {
                Ok(v) => old(self).spec_remaining() >= READ_IN_SIZE && v == spec_read_in(
                    old(self).spec_buf(),
                    old(self).pos as int,
                ) && final(self).pos == old(self).pos + READ_IN_SIZE,
                Err(e) => e == Error::DecodeMessage && old(self).spec_remaining()
                    < READ_IN_SIZE && *final(self) == *old(self),
            },
    {
        if self.buf.len() - self.pos < READ_IN_SIZE {
            return Err(Error::DecodeMessage);
        }
        let fh = self.get_u64();
        let offset = self.get_u64();
        let size = self.get_u32();
        let read_flags = self.get_u32();
        let lock_owner = self.get_u64();
        let flags = self.get_u32();
        let padding = self.get_u32();
        Ok(ReadIn { fh, offset, size, read_flags, lock_owner, flags, padding })
    }

    /// Reads a `WriteIn`, or fails without consuming anything when too
    /// few bytes remain.
    pub fn read_write_in(&mut self) -> (res: Result<WriteIn, Error>)
        requires
            old(self).wf(),
        ensures
            final(self).wf(),
            final(self).spec_buf() == old(self).spec_buf(),
            match res {
                Ok(v) => old(self).spec_remaining() >= WRITE_IN_SIZE && v == spec_write_in(
                    old(self).spec_buf(),
                    old(self).pos as int,
                ) && final(self).pos == old(self).pos + WRITE_IN_SIZE,
                Err(e) => e == Error::DecodeMessage && old(self).spec_remaining()
                    < WRITE_IN_SIZE && *final(self) == *old(self),
            },
    {
        if self.buf.len() - self.pos < WRITE_IN_SIZE {
            return Err(Error::DecodeMessage);
        }
        let fh = self.get_u64();
        let offset = self.get_u64();
        let size = self.get_u32();
        let write_flags = self.get_u32();
        let lock_owner = self.get_u64();
        let flags = self.get_u32();
        let padding = self.get_u32();
        Ok(WriteIn { fh, offset, size, write_flags, lock_owner, flags, padding })
    }

    /// Reads a `ReleaseIn`, or fails without consuming anything when too
    /// few bytes remain.
    pub fn read_release_in(&mut self) -> (res: Result<ReleaseIn, Error>)
        requires
            old(self).wf(),
        ensures
            final(self).wf(),
            final(self).spec_buf() == old(self).spec_buf(),
            match res {
                Ok(v) => old(self).spec_remaining() >= RELEASE_IN_SIZE && v == spec_release_in(
                    old(self).spec_buf(),
                    old(self).pos as int,
                ) && final(self).pos == old(self).pos + RELEASE_IN_SIZE,
                Err(e) => e == Error::DecodeMessage && old(self).spec_remaining()
                    < RELEASE_IN_SIZE && *final(self) == *old(self),
            },
    {
        if self.buf.len() - self.pos < RELEASE_IN_SIZE {
            return Err(Error::DecodeMessage);
        }
        let fh = self.get_u64();
        let flags = self.get_u32();
        let release_flags = self.get_u32();
        let lock_owner = self.get_u64();
        Ok(ReleaseIn { fh, flags, release_flags, lock_owner })
    }

    /// Reads a `FsyncIn`, or fails without consuming anything when too
    /// few bytes remain.
    pub fn read_fsync_in(&mut self) -> (res: Result<FsyncIn, Error>)
        requires
            old(self).wf(),
        ensures
            final(self).wf(),
            final(self).spec_buf() == old(self).spec_buf(),
            match res {
                Ok(v) => old(self).spec_remaining() >= FSYNC_IN_SIZE && v == spec_fsync_in(
                    old(self).spec_buf(),
                    old(self).pos as int,
                ) && final(self).pos == old(self).pos + FSYNC_IN_SIZE,
                Err(e) => e == Error::DecodeMessage && old(self).spec_remaining()
                    < FSYNC_IN_SIZE && *final(self) == *old(self),
            },
    {
        if self.buf.len() - self.pos < FSYNC_IN_SIZE {
            return Err(Error::DecodeMessage);
        }
        let fh = self.get_u64();
        let fsync_flags = self.get_u32();
        let padding = self.get_u32();
        Ok(FsyncIn { fh, fsync_flags, padding })
    }

    /// Reads a `SetxattrIn`, or fails without consuming anything when too
    /// few bytes remain.
    pub fn read_setxattr_in(&mut self) -> (res: Result<SetxattrIn, Error>)
        requires
            old(self).wf(),
        ensures
            final(self).wf(),
            final(self).spec_buf() == old(self).spec_buf(),
            match res {
                Ok(v) => old(self).spec_remaining() >= SETXATTR_IN_SIZE && v == spec_setxattr_in(
                    old(self).spec_buf(),
                    old(self).pos as int,
                ) && final(self).pos == old(self).pos + SETXATTR_IN_SIZE,
                Err(e) => e == Error::DecodeMessage && old(self).spec_remaining()
                    < SETXATTR_IN_SIZE && *final(self) == *old(self),
            },
    {
        if self.buf.len() - self.pos < SETXATTR_IN_SIZE {
            return Err(Error::DecodeMessage);
        }
        let size = self.get_u32();
        let flags = self.get_u32();
        Ok(SetxattrIn { size, flags })
    }

    /// Reads a `GetxattrIn`, or fails without consuming anything when too
    /// few bytes remain.
    pub fn read_getxattr_in(&mut self) -> (res: Result<GetxattrIn, Error>)
        requires
            old(self).wf(),
        ensures
            final(self).wf(),
            final(self).spec_buf() == old(self).spec_buf(),
            match res {
                Ok(v) => old(self).spec_remaining() >= GETXATTR_IN_SIZE && v == spec_getxattr_in(
                    old(self).spec_buf(),
                    old(self).pos as int,
                ) && final(self).pos == old(self).pos + GETXATTR_IN_SIZE,
                Err(e) => e == Error::DecodeMessage && old(self).spec_remaining()
                    < GETXATTR_IN_SIZE && *final(self) == *old(self),
            },
    {
        if self.buf.len() - self.pos < GETXATTR_IN_SIZE {
            return Err(Error::DecodeMessage);
        }
        let size = self.get_u32();
        let padding = self.get_u32();
        Ok(GetxattrIn { size, padding })
    }

    /// Reads a `FlushIn`, or fails without consuming anything when too
    /// few bytes remain.
    pub fn read_flush_in(&mut self) -> (res: Result<FlushIn, Error>)
        requires
            old(self).wf(),
        ensures
            final(self).wf(),
            final(self).spec_buf() == old(self).spec_buf(),
            match res {
                Ok(v) => old(self).spec_remaining() >= FLUSH_IN_SIZE && v == spec_flush_in(
                    old(self).spec_buf(),
                    old(self).pos as int,
                ) && final(self).pos == old(self).pos + FLUSH_IN_SIZE,
                Err(e) => e == Error::DecodeMessage && old(self).spec_remaining()
                    < FLUSH_IN_SIZE && *final(self) == *old(self),
            },
    {
        if self.buf.len() - self.pos < FLUSH_IN_SIZE {
            return Err(Error::DecodeMessage);
        }
        let fh = self.get_u64();
        let unused = self.get_u32();
        let padding = self.get_u32();
        let lock_owner = self.get_u64();
        Ok(FlushIn { fh, unused, padding, lock_owner })
    }

    /// Reads a `InitIn`, or fails without consuming anything when too
    /// few bytes remain.
    pub fn read_init_in(&mut self) -> (res: Result<InitIn, Error>)
        requires
            old(self).wf(),
        ensures
            final(self).wf(),
            final(self).spec_buf() == old(self).spec_buf(),
            match res {
                Ok(v) => old(self).spec_remaining() >= INIT_IN_SIZE && v == spec_init_in(
                    old(self).spec_buf(),
                    old(self).pos as int,
                ) && final(self).pos == old(self).pos + INIT_IN_SIZE,
                Err(e) => e == Error::DecodeMessage && old(self).spec_remaining()
                    < INIT_IN_SIZE && *final(self) == *old(self),
            },
    {
        if self.buf.len() - self.pos < INIT_IN_SIZE {
            return Err(Error::DecodeMessage);
        }
        let major = self.get_u32();
        let minor = self.get_u32();
        let max_readahead = self.get_u32();
        let flags = self.get_u32();
        Ok(InitIn { major, minor, max_readahead, flags })
    }

    /// Reads a `AccessIn`, or fails without consuming anything when too
    /// few bytes remain.
    pub fn read_access_in(&mut self) -> (res: Result<AccessIn, Error>)
        requires
            old(self).wf(),
        ensures
            final(self).wf(),
            final(self).spec_buf() == old(self).spec_buf(),
            match res {
                Ok(v) => old(self).spec_remaining() >= ACCESS_IN_SIZE && v == spec_access_in(
                    old(self).spec_buf(),
                    old(self).pos as int,
                ) && final(self).pos == old(self).pos + ACCESS_IN_SIZE,
                Err(e) => e == Error::DecodeMessage && old(self).spec_remaining()
                    < ACCESS_IN_SIZE && *final(self) == *old(self),
            },
    {
        if self.buf.len() - self.pos < ACCESS_IN_SIZE {
            return Err(Error::DecodeMessage);
        }
        let mask = self.get_u32();
        let padding = self.get_u32();
        Ok(AccessIn { mask, padding })
    }

    /// Reads a `CreateIn`, or fails without consuming anything when too
    /// few bytes remain.
    pub fn read_create_in(&mut self) -> (res: Result<CreateIn, Error>)
        requires
            old(self).wf(),
        ensures
            final(self).wf(),
            final(self).spec_buf() == old(self).spec_buf(),
            match res {
                Ok(v) => old(self).spec_remaining() >= CREATE_IN_SIZE && v == spec_create_in(
                    old(self).spec_buf(),
                    old(self).pos as int,
                ) && final(self).pos == old(self).pos + CREATE_IN_SIZE,
                Err(e) => e == Error::DecodeMessage && old(self).spec_remaining()
                    < CREATE_IN_SIZE && *final(self) == *old(self),
            },
    {
        if self.buf.len() - self.pos < CREATE_IN_SIZE {
            return Err(Error::DecodeMessage);
        }
        let flags = self.get_u32();
        let mode = self.get_u32();
        let umask = self.get_u32();
        let padding = self.get_u32();
        Ok(CreateIn { flags, mode, umask, padding })
    }

    /// Reads a `IoctlIn`, or fails without consuming anything when too
    /// few bytes remain.
    pub fn read_ioctl_in(&mut self) -> (res: Result<IoctlIn, Error>)
        requires
            old(self).wf(),
        ensures
            final(self).wf(),
            final(self).spec_buf() == old(self).spec_buf(),
            match res {
                Ok(v) => old(self).spec_remaining() >= IOCTL_IN_SIZE && v == spec_ioctl_in(
                    old(self).spec_buf(),
                    old(self).pos as int,
                ) && final(self).pos == old(self).pos + IOCTL_IN_SIZE,
                Err(e) => e == Error::DecodeMessage && old(self).spec_remaining()
                    < IOCTL_IN_SIZE && *final(self) == *old(self),
            },
    {
        if self.buf.len() - self.pos < IOCTL_IN_SIZE {
            return Err(Error::DecodeMessage);
        }
        let fh = self.get_u64();
        let flags = self.get_u32();
        let cmd = self.get_u32();
        let arg = self.get_u64();
        let in_size = self.get_u32();
        let out_size = self.get_u32();
        Ok(IoctlIn { fh, flags, cmd, arg, in_size, out_size })
    }

    /// Reads a `BatchForgetIn`, or fails without consuming anything when too
    /// few bytes remain.
    pub fn read_batch_forget_in(&mut self) -> (res: Result<BatchForgetIn, Error>)
        requires
            old(self).wf(),
        ensures
            final(self).wf(),
            final(self).spec_buf() == old(self).spec_buf(),
            match res {
                Ok(v) => old(self).spec_remaining() >= BATCH_FORGET_IN_SIZE && v == spec_batch_forget_in(
                    old(self).spec_buf(),
                    old(self).pos as int,
                ) && final(self).pos == old(self).pos + BATCH_FORGET_IN_SIZE,
                Err(e) => e == Error::DecodeMessage && old(self).spec_remaining()
                    < BATCH_FORGET_IN_SIZE && *final(self) == *old(self),
            },
    {
        if self.buf.len() - self.pos < BATCH_FORGET_IN_SIZE {
            return Err(Error::DecodeMessage);
        }
        let count = self.get_u32();
        let dummy = self.get_u32();
        Ok(BatchForgetIn { count, dummy })
    }

    /// Reads a `ForgetOne`, or fails without consuming anything when too
    /// few bytes remain.
    pub fn read_forget_one(&mut self) -> (res: Result<ForgetOne, Error>)
        requires
            old(self).wf(),
        ensures
            final(self).wf(),
            final(self).spec_buf() == old(self).spec_buf(),
            match res {
                Ok(v) => old(self).spec_remaining() >= FORGET_ONE_SIZE && v == spec_forget_one(
                    old(self).spec_buf(),
                    old(self).pos as int,
                ) && final(self).pos == old(self).pos + FORGET_ONE_SIZE,
                Err(e) => e == Error::DecodeMessage && old(self).spec_remaining()
                    < FORGET_ONE_SIZE && *final(self) == *old(self),
            },
    {
        if self.buf.len() - self.pos < FORGET_ONE_SIZE {
            return Err(Error::DecodeMessage);
        }
        let nodeid = self.get_u64();
        let nlookup = self.get_u64();
        Ok(ForgetOne { nodeid, nlookup })
    }

    /// Reads a `FallocateIn`, or fails without consuming anything when too
    /// few bytes remain.
    pub fn read_fallocate_in(&mut self) -> (res: Result<FallocateIn, Error>)
        requires
            old(self).wf(),
        ensures
            final(self).wf(),
            final(self).spec_buf() == old(self).spec_buf(),
            match res {
                Ok(v) => old(self).spec_remaining() >= FALLOCATE_IN_SIZE && v == spec_fallocate_in(
                    old(self).spec_buf(),
                    old(self).pos as int,
                ) && final(self).pos == old(self).pos + FALLOCATE_IN_SIZE,
                Err(e) => e == Error::DecodeMessage && old(self).spec_remaining()
                    < FALLOCATE_IN_SIZE && *final(self) == *old(self),
            },
    {
        if self.buf.len() - self.pos < FALLOCATE_IN_SIZE {
            return Err(Error::DecodeMessage);
        }
        let fh = self.get_u64();
        let offset = self.get_u64();
        let length = self.get_u64();
        let mode = self.get_u32();
        let padding = self.get_u32();
        Ok(FallocateIn { fh, offset, length, mode, padding })
    }

    /// Reads a `CopyFileRangeIn`, or fails without consuming anything when too
    /// few bytes remain.
    pub fn read_copy_file_range_in(&mut self) -> (res: Result<CopyFileRangeIn, Error>)
        requires
            old(self).wf(),
        ensures
            final(self).wf(),
            final(self).spec_buf() == old(self).spec_buf(),
            match res {
                Ok(v) => old(self).spec_remaining() >= COPY_FILE_RANGE_IN_SIZE && v == spec_copy_file_range_in(
                    old(self).spec_buf(),
                    old(self).pos as int,
                ) && final(self).pos == old(self).pos + COPY_FILE_RANGE_IN_SIZE,
                Err(e) => e == Error::DecodeMessage && old(self).spec_remaining()
                    < COPY_FILE_RANGE_IN_SIZE && *final(self) == *old(self),
            },
    {
        if self.buf.len() - self.pos < COPY_FILE_RANGE_IN_SIZE {
            return Err(Error::DecodeMessage);
        }
        let fh_src = self.get_u64();
        let off_src = self.get_u64();
        let nodeid_dst = self.get_u64();
        let fh_dst = self.get_u64();
        let off_dst = self.get_u64();
        let len = self.get_u64();
        let flags = self.get_u64();
        Ok(CopyFileRangeIn { fh_src, off_src, nodeid_dst, fh_dst, off_dst, len, flags })
    }

    /// Reads a `SetUpMappingIn`, or fails without consuming anything when too
    /// few bytes remain.
    pub fn read_set_up_mapping_in(&mut self) -> (res: Result<SetUpMappingIn, Error>)
        requires
            old(self).wf(),
        ensures
            final(self).wf(),
            final(self).spec_buf() == old(self).spec_buf(),
            match res {
                Ok(v) => old(self).spec_remaining() >= SET_UP_MAPPING_IN_SIZE && v == spec_set_up_mapping_in(
                    old(self).spec_buf(),
                    old(self).pos as int,
                ) && final(self).pos == old(self).pos + SET_UP_MAPPING_IN_SIZE,
                Err(e) => e == Error::DecodeMessage && old(self).spec_remaining()
                    < SET_UP_MAPPING_IN_SIZE && *final(self) == *old(self),
            },
    {
        if self.buf.len() - self.pos < SET_UP_MAPPING_IN_SIZE {
            return Err(Error::DecodeMessage);
        }
        let fh = self.get_u64();
        let foffset = self.get_u64();
        let len = self.get_u64();
        let flags = self.get_u64();
        let moffset = self.get_u64();
        Ok(SetUpMappingIn { fh, foffset, len, flags, moffset })
    }

    /// Reads a `RemoveMappingIn`, or fails without consuming anything when too
    /// few bytes remain.
    pub fn read_remove_mapping_in(&mut self) -> (res: Result<RemoveMappingIn, Error>)
        requires
            old(self).wf(),
        ensures
            final(self).wf(),
            final(self).spec_buf() == old(self).spec_buf(),
            match res {
                Ok(v) => old(self).spec_remaining() >= REMOVE_MAPPING_IN_SIZE && v == spec_remove_mapping_in(
                    old(self).spec_buf(),
                    old(self).pos as int,
                ) && final(self).pos == old(self).pos + REMOVE_MAPPING_IN_SIZE,
                Err(e) => e == Error::DecodeMessage && old(self).spec_remaining()
                    < REMOVE_MAPPING_IN_SIZE && *final(self) == *old(self),
            },
    {
        if self.buf.len() - self.pos < REMOVE_MAPPING_IN_SIZE {
            return Err(Error::DecodeMessage);
        }
        let count = self.get_u32();
        Ok(RemoveMappingIn { count })
    }

    /// Reads a `RemoveMappingOne`, or fails without consuming anything when too
    /// few bytes remain.
    pub fn read_remove_mapping_one(&mut self) -> (res: Result<RemoveMappingOne, Error>)
        requires
            old(self).wf(),
        ensures
            final(self).wf(),
            final(self).spec_buf() == old(self).spec_buf(),
            match res {
                Ok(v) => old(self).spec_remaining() >= REMOVE_MAPPING_ONE_SIZE && v == spec_remove_mapping_one(
                    old(self).spec_buf(),
                    old(self).pos as int,
                ) && final(self).pos == old(self).pos + REMOVE_MAPPING_ONE_SIZE,
                Err(e) => e == Error::DecodeMessage && old(self).spec_remaining()
                    < REMOVE_MAPPING_ONE_SIZE && *final(self) == *old(self),
            },
    {
        if self.buf.len() - self.pos < REMOVE_MAPPING_ONE_SIZE {
            return Err(Error::DecodeMessage);
        }
        let moffset = self.get_u64();
        let len = self.get_u64();
        Ok(RemoveMappingOne { moffset, len })
    }

    /// Reads a `SecctxHeader`, or fails without consuming anything when too
    /// few bytes remain.
    pub fn read_secctx_header(&mut self) -> (res: Result<SecctxHeader, Error>)
        requires
            old(self).wf(),
        ensures
            final(self).wf(),
            final(self).spec_buf() == old(self).spec_buf(),
            match res {
                Ok(v) => old(self).spec_remaining() >= SECCTX_HEADER_SIZE && v == spec_secctx_header(
                    old(self).spec_buf(),
                    old(self).pos as int,
                ) && final(self).pos == old(self).pos + SECCTX_HEADER_SIZE,
                Err(e) => e == Error::DecodeMessage && old(self).spec_remaining()
                    < SECCTX_HEADER_SIZE && *final(self) == *old(self),
            },
    {
        if self.buf.len() - self.pos < SECCTX_HEADER_SIZE {
            return Err(Error::DecodeMessage);
        }
        let size = self.get_u32();
        let nr_secctx = self.get_u32();
        Ok(SecctxHeader { size, nr_secctx })
    }

    /// Reads a `Secctx`, or fails without consuming anything when too
    /// few bytes remain.
    pub fn read_secctx(&mut self) -> (res: Result<Secctx, Error>)
        requires
            old(self).wf(),
        ensures
            final(self).wf(),
            final(self).spec_buf() == old(self).spec_buf(),
            match res {
                Ok(v) => old(self).spec_remaining() >= SECCTX_SIZE && v == spec_secctx(
                    old(self).spec_buf(),
                    old(self).pos as int,
                ) && final(self).pos == old(self).pos + SECCTX_SIZE,
                Err(e) => e == Error::DecodeMessage && old(self).spec_remaining()
                    < SECCTX_SIZE && *final(self) == *old(self),
            },
    {
        if self.buf.len() - self.pos < SECCTX_SIZE {
            return Err(Error::DecodeMessage);
        }
        let size = self.get_u32();
        let padding = self.get_u32();
        Ok(Secctx { size, padding })
    }

}

/// `post` extends `pre`: bytes already written are never rewritten.
pub open spec fn spec_appended(pre: Seq<u8>, post: Seq<u8>) -> bool {
    post.len() >= pre.len() && post.subrange(0, pre.len() as int) == pre
}

pub broadcast proof fn lemma_appended_refl(b: Seq<u8>)
    ensures
        #[trigger] spec_appended(b, b),
{
    assert(b.subrange(0, b.len() as int) =~= b);
}

pub broadcast proof fn lemma_appended_concat(a: Seq<u8>, x: Seq<u8>)
    ensures
        #[trigger] spec_appended(a, a + x),
{
    assert((a + x).subrange(0, a.len() as int) =~= a);
}

pub broadcast proof fn lemma_appended_trans(a: Seq<u8>, b: Seq<u8>, c: Seq<u8>)
    requires
        #[trigger] spec_appended(a, b),
        #[trigger] spec_appended(b, c),
    ensures
        spec_appended(a, c),
{
    assert(c.subrange(0, b.len() as int).subrange(0, a.len() as int) =~= c.subrange(
        0,
        a.len() as int,
    ));
    assert(c.subrange(0, a.len() as int) =~= a);
}


/// A 32-bit value is recovered from its little-endian bytes.
pub proof fn lemma_sle32_of_le32(b: Seq<u8>, off: int, x: u32)
    requires
        0 <= off,
        off + 4 <= b.len(),
        forall|i: int| 0 <= i < 4 ==> b[off + i] == le32(x)[i],
    ensures
        sle32(b, off) == x,
{
    let b0 = b[off];
    let b1 = b[off + 1];
    let b2 = b[off + 2];
    let b3 = b[off + 3];
    assert(b0 == le32(x)[0]) by {
        assert(b[off + 0] == le32(x)[0]);
    }
    assert(b1 == le32(x)[1]) by {
        assert(b[off + 1] == le32(x)[1]);
    }
    assert(b2 == le32(x)[2]) by {
        assert(b[off + 2] == le32(x)[2]);
    }
    assert(b3 == le32(x)[3]) by {
        assert(b[off + 3] == le32(x)[3]);
    }
    assert(b0 as u32 == x % 256);
    assert(b1 as u32 == (x / 0x100) % 256);
    assert(b2 as u32 == (x / 0x10000) % 256);
    assert(b3 as u32 == (x / 0x1000000) % 256);
    assert((b0 as u32) | ((b1 as u32) << 8) | ((b2 as u32) << 16) | ((b3 as u32) << 24) == x)
        by (bit_vector)
        requires
            b0 as u32 == x % 256,
            b1 as u32 == (x / 0x100) % 256,
            b2 as u32 == (x / 0x10000) % 256,
            b3 as u32 == (x / 0x1000000) % 256,
    ;
}

/// A 64-bit value is recovered from its little-endian bytes.
pub proof fn lemma_sle64_of_le64(b: Seq<u8>, off: int, x: u64)
    requires
        0 <= off,
        off + 8 <= b.len(),
        forall|i: int| 0 <= i < 8 ==> b[off + i] == le64(x)[i],
    ensures
        sle64(b, off) == x,
{
    let b0 = b[off];
    let b1 = b[off + 1];
    let b2 = b[off + 2];
    let b3 = b[off + 3];
    let b4 = b[off + 4];
    let b5 = b[off + 5];
    let b6 = b[off + 6];
    let b7 = b[off + 7];
    assert(b0 == le64(x)[0]) by {
        assert(b[off + 0] == le64(x)[0]);
    }
    assert(b1 == le64(x)[1]) by {
        assert(b[off + 1] == le64(x)[1]);
    }
    assert(b2 == le64(x)[2]) by {
        assert(b[off + 2] == le64(x)[2]);
    }
    assert(b3 == le64(x)[3]) by {
        assert(b[off + 3] == le64(x)[3]);
    }
    assert(b4 == le64(x)[4]) by {
        assert(b[off + 4] == le64(x)[4]);
    }
    assert(b5 == le64(x)[5]) by {
        assert(b[off + 5] == le64(x)[5]);
    }
    assert(b6 == le64(x)[6]) by {
        assert(b[off + 6] == le64(x)[6]);
    }
    assert(b7 == le64(x)[7]) by {
        assert(b[off + 7] == le64(x)[7]);
    }
    assert(b0 as u64 == x % 256);
    assert(b1 as u64 == (x / 0x100) % 256);
    assert(b2 as u64 == (x / 0x10000) % 256);
    assert(b3 as u64 == (x / 0x1000000) % 256);
    assert(b4 as u64 == (x / 0x1_0000_0000) % 256);
    assert(b5 as u64 == (x / 0x100_0000_0000) % 256);
    assert(b6 as u64 == (x / 0x1_0000_0000_0000) % 256);
    assert(b7 as u64 == (x / 0x100_0000_0000_0000) % 256);
    assert((b0 as u64) | ((b1 as u64) << 8) | ((b2 as u64) << 16) | ((b3 as u64) << 24) | ((
    b4 as u64) << 32) | ((b5 as u64) << 40) | ((b6 as u64) << 48) | ((b7 as u64) << 56) == x)
        by (bit_vector)
        requires
            b0 as u64 == x % 256,
            b1 as u64 == (x / 0x100) % 256,
            b2 as u64 == (x / 0x10000) % 256,
            b3 as u64 == (x / 0x1000000) % 256,
            b4 as u64 == (x / 0x1_0000_0000) % 256,
            b5 as u64 == (x / 0x100_0000_0000) % 256,
            b6 as u64 == (x / 0x1_0000_0000_0000) % 256,
            b7 as u64 == (x / 0x100_0000_0000_0000) % 256,
    ;
}

} // verus!
