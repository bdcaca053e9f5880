use std::cell::RefCell;

use vmm_core::fuse::filesystem::Context;
use vmm_core::fuse::filesystem::DirEntry;
use vmm_core::fuse::filesystem::Entry;
use vmm_core::fuse::filesystem::FileSystem;
use vmm_core::fuse::filesystem::GetxattrReply;
use vmm_core::fuse::filesystem::IoctlReply;
use vmm_core::fuse::filesystem::ListxattrReply;
use vmm_core::fuse::filesystem::Mapper;
use vmm_core::fuse::filesystem::WRITEBACK_CACHE;
use vmm_core::fuse::filesystem::HANDLE_KILLPRIV;
use vmm_core::fuse::filesystem::ATOMIC_O_TRUNC;
use vmm_core::fuse::filesystem::ZERO_MESSAGE_OPEN;
use vmm_core::fuse::server::negotiate_options;
use vmm_core::fuse::server::parse_selinux_xattr;
use vmm_core::fuse::server::Server;
use vmm_core::fuse::server::Writer;
use vmm_core::fuse::sys::Attr;
use vmm_core::fuse::sys::Error;
use vmm_core::fuse::sys::IoctlIovec;
use vmm_core::fuse::sys::Kstatfs;
use vmm_core::fuse::sys::Reader;
use vmm_core::fuse::sys::RemoveMappingOne;

const SELINUX_XATTR: &[u8] = b"security.selinux\0";

fn create_secctx(ctxs: &[(&[u8], &[u8])], size_truncation: u32) -> Vec<u8> {
    let nr_secctx = ctxs.len();
    let total_size = (8u32
        + (8 * nr_secctx) as u32
        + ctxs
            .iter()
            .fold(0, |s, &(n, v)| s + n.len() as u32 + v.len() as u32))
    .checked_add(7)
    .map(|l| l & !7)
    .expect("total_size padded to 8-byte boundary")
    .checked_sub(size_truncation)
    .expect("size truncated by bytes < total_size");

    let mut out = Vec::new();
    out.extend_from_slice(&total_size.to_le_bytes());
    out.extend_from_slice(&(nr_secctx as u32).to_le_bytes());
    for (n, v) in ctxs {
        out.extend_from_slice(&(v.len() as u32).to_le_bytes());
        out.extend_from_slice(&0u32.to_le_bytes());
        out.extend_from_slice(n);
        out.extend_from_slice(v);
    }
    out
}

#[test]
fn parse_selinux_xattr_empty() {
    let v: Vec<u8> = vec![];
    let res = parse_selinux_xattr(&v);
    assert_eq!(res.unwrap(), None);
}

#[test]
fn parse_selinux_xattr_basic() {
    let sec_value = b"user_u:object_r:security_type:s0\0";
    let v = create_secctx(&[(SELINUX_XATTR, sec_value)], 0);

    let res = parse_selinux_xattr(&v);
    assert_eq!(res.unwrap(), Some(b"user_u:object_r:security_type:s0".to_vec()));
}

#[test]
fn parse_selinux_xattr_find_attr() {
    let foo_value = b"user_foo:object_foo:foo_type:s0\0";
    let sec_value = b"user_u:object_r:security_type:s0\0";
    let v = create_secctx(
        &[(b"foo\0", foo_value), (SELINUX_XATTR, sec_value)],
        0,
    );

    let res = parse_selinux_xattr(&v);
    assert_eq!(res.unwrap(), Some(b"user_u:object_r:security_type:s0".to_vec()));
}

#[test]
fn parse_selinux_xattr_wrong_attr() {
    // An xattr name that looks similar to security.selinux, but has extra
    // characters: the associated context value must not be returned.
    let invalid_selinux_value = b"user_invalid:object_invalid:invalid_type:s0\0";
    let v = create_secctx(
        &[(b"invalid.security.selinux\0", invalid_selinux_value)],
        0,
    );

    let res = parse_selinux_xattr(&v);
    assert_eq!(res.unwrap(), None);
}

#[test]
fn parse_selinux_xattr_too_short() {
    // When the total size in the header does not encompass the entirety
    // of the associated data, parsing reports the invalid length.
    let foo_value = b"user_foo:object_foo:foo_type:s0\0";
    let sec_value = b"user_u:object_r:security_type:s0\0";
    let v = create_secctx(
        &[(b"foo\0", foo_value), (SELINUX_XATTR, sec_value)],
        8,
    );

    let res = parse_selinux_xattr(&v);
    assert!(matches!(res, Err(Error::InvalidHeaderLength)));
}

// A backend over a fixed directory listing that records forget calls.
struct MockFs {
    entries: Vec<(u64, Vec<u8>)>,
    forgets: RefCell<Vec<(u64, u64)>>,
    want: u64,
}

impl MockFs {
    fn new(entries: Vec<(u64, Vec<u8>)>) -> MockFs {
        MockFs {
            entries,
            forgets: RefCell::new(Vec::new()),
            want: 0,
        }
    }

    fn attr_for(ino: u64) -> Attr {
        Attr {
            ino,
            size: 0,
            blocks: 0,
            atime: 0,
            mtime: 0,
            ctime: 0,
            atimensec: 0,
            mtimensec: 0,
            ctimensec: 0,
            mode: 0o100644,
            nlink: 1,
            uid: 0,
            gid: 0,
            rdev: 0,
            blksize: 4096,
            flags: 0,
        }
    }
}

const ENOENT: i32 = 2;

impl FileSystem for MockFs {
    fn max_buffer_size(&self) -> u32 {
        1 << 20
    }

    fn init(&self, _capable: u64) -> Result<u64, i32> {
        Ok(self.want)
    }

    fn destroy(&self) {}

    fn lookup(&self, _ctx: Context, _parent: u64, name: &Vec<u8>) -> Result<Entry, i32> {
        for (ino, n) in &self.entries {
            if n == name {
                return Ok(Entry {
                    inode: *ino,
                    generation: 1000 + *ino,
                    attr: MockFs::attr_for(*ino),
                    attr_timeout_sec: 1,
                    attr_timeout_nsec: 0,
                    entry_timeout_sec: 1,
                    entry_timeout_nsec: 0,
                });
            }
        }
        Err(ENOENT)
    }

    fn forget(&self, _ctx: Context, inode: u64, count: u64) {
        self.forgets.borrow_mut().push((inode, count));
    }

    fn batch_forget(&self, _ctx: Context, _requests: Vec<(u64, u64)>) {}

    fn getattr(&self, _ctx: Context, inode: u64, _handle: Option<u64>) -> Result<(Attr, u64, u32), i32> {
        Ok((MockFs::attr_for(inode), 1, 0))
    }

    fn setattr(
        &self,
        _ctx: Context,
        inode: u64,
        _attr: Attr,
        _handle: Option<u64>,
        _valid: u32,
    ) -> Result<(Attr, u64, u32), i32> {
        Ok((MockFs::attr_for(inode), 1, 0))
    }

    fn readlink(&self, _ctx: Context, _inode: u64) -> Result<Vec<u8>, i32> {
        Err(ENOENT)
    }

    fn symlink(
        &self,
        _ctx: Context,
        _linkname: &Vec<u8>,
        _parent: u64,
        _name: &Vec<u8>,
        _security_ctx: Option<Vec<u8>>,
    ) -> Result<Entry, i32> {
        Err(ENOENT)
    }

    fn mknod(
        &self,
        _ctx: Context,
        _parent: u64,
        _name: &Vec<u8>,
        _mode: u32,
        _rdev: u32,
        _umask: u32,
        _security_ctx: Option<Vec<u8>>,
    ) -> Result<Entry, i32> {
        Err(ENOENT)
    }

    fn mkdir(
        &self,
        _ctx: Context,
        _parent: u64,
        _name: &Vec<u8>,
        _mode: u32,
        _umask: u32,
        _security_ctx: Option<Vec<u8>>,
    ) -> Result<Entry, i32> {
        Err(ENOENT)
    }

    fn chromeos_tmpfile(
        &self,
        _ctx: Context,
        _parent: u64,
        _mode: u32,
        _umask: u32,
        _security_ctx: Option<Vec<u8>>,
    ) -> Result<Entry, i32> {
        Err(ENOENT)
    }

    fn unlink(&self, _ctx: Context, _parent: u64, _name: &Vec<u8>) -> Result<(), i32> {
        Err(ENOENT)
    }

    fn rmdir(&self, _ctx: Context, _parent: u64, _name: &Vec<u8>) -> Result<(), i32> {
        Err(ENOENT)
    }

    fn rename(
        &self,
        _ctx: Context,
        _olddir: u64,
        _oldname: &Vec<u8>,
        _newdir: u64,
        _newname: &Vec<u8>,
        _flags: u32,
    ) -> Result<(), i32> {
        Err(ENOENT)
    }

    fn link(&self, _ctx: Context, _inode: u64, _newparent: u64, _newname: &Vec<u8>) -> Result<Entry, i32> {
        Err(ENOENT)
    }

    fn open(&self, _ctx: Context, _inode: u64, _flags: u32) -> Result<(Option<u64>, u32), i32> {
        Ok((Some(1), 0))
    }

    fn create(
        &self,
        _ctx: Context,
        _parent: u64,
        _name: &Vec<u8>,
        _mode: u32,
        _flags: u32,
        _umask: u32,
        _security_ctx: Option<Vec<u8>>,
    ) -> Result<(Entry, Option<u64>, u32), i32> {
        Err(ENOENT)
    }

    fn atomic_open(
        &self,
        _ctx: Context,
        _parent: u64,
        _name: &Vec<u8>,
        _mode: u32,
        _flags: u32,
        _umask: u32,
        _security_ctx: Option<Vec<u8>>,
    ) -> Result<(Entry, Option<u64>, u32), i32> {
        Err(ENOENT)
    }

    fn read(
        &self,
        _ctx: Context,
        _inode: u64,
        _handle: u64,
        w: &mut Writer,
        _size: u32,
        _offset: u64,
        _lock_owner: Option<u64>,
        _flags: u32,
    ) -> Result<usize, i32> {
        let data = b"hello";
        w.write_all(data);
        Ok(data.len())
    }

    fn write(
        &self,
        _ctx: Context,
        _inode: u64,
        _handle: u64,
        _r: &mut Reader,
        size: u32,
        _offset: u64,
        _lock_owner: Option<u64>,
        _delayed_write: bool,
        _flags: u32,
    ) -> Result<usize, i32> {
        Ok(size as usize)
    }

    fn statfs(&self, _ctx: Context, _inode: u64) -> Result<Kstatfs, i32> {
        Ok(Kstatfs {
            blocks: 0,
            bfree: 0,
            bavail: 0,
            files: 0,
            ffree: 0,
            bsize: 4096,
            namelen: 255,
            frsize: 4096,
            padding: 0,
        })
    }

    fn release(
        &self,
        _ctx: Context,
        _inode: u64,
        _flags: u32,
        _handle: u64,
        _flush: bool,
        _flock_release: bool,
        _lock_owner: Option<u64>,
    ) -> Result<(), i32> {
        Ok(())
    }

    fn fsync(&self, _ctx: Context, _inode: u64, _datasync: bool, _handle: u64) -> Result<(), i32> {
        Ok(())
    }

    fn setxattr(&self, _ctx: Context, _inode: u64, _name: &Vec<u8>, _value: &[u8], _flags: u32) -> Result<(), i32> {
        Ok(())
    }

    fn getxattr(&self, _ctx: Context, _inode: u64, _name: &Vec<u8>, _size: u32) -> Result<GetxattrReply, i32> {
        Err(ENOENT)
    }

    fn listxattr(&self, _ctx: Context, _inode: u64, _size: u32) -> Result<ListxattrReply, i32> {
        Err(ENOENT)
    }

    fn removexattr(&self, _ctx: Context, _inode: u64, _name: &Vec<u8>) -> Result<(), i32> {
        Err(ENOENT)
    }

    fn flush(&self, _ctx: Context, _inode: u64, _handle: u64, _lock_owner: u64) -> Result<(), i32> {
        Ok(())
    }

    fn opendir(&self, _ctx: Context, _inode: u64, _flags: u32) -> Result<(Option<u64>, u32), i32> {
        Ok((Some(1), 0))
    }

    fn readdir(
        &self,
        _ctx: Context,
        _inode: u64,
        _handle: u64,
        _size: u32,
        offset: u64,
    ) -> Result<Vec<DirEntry>, i32> {
        let mut out = Vec::new();
        for (i, (ino, name)) in self.entries.iter().enumerate() {
            if (i as u64) >= offset {
                out.push(DirEntry {
                    ino: *ino,
                    offset: (i + 1) as u64,
                    type_: 8,
                    name: name.clone(),
                });
            }
        }
        Ok(out)
    }

    fn releasedir(&self, _ctx: Context, _inode: u64, _flags: u32, _handle: u64) -> Result<(), i32> {
        Ok(())
    }

    fn fsyncdir(&self, _ctx: Context, _inode: u64, _datasync: bool, _handle: u64) -> Result<(), i32> {
        Ok(())
    }

    fn getlk(&self) -> Result<(), i32> {
        Err(ENOENT)
    }

    fn setlk(&self) -> Result<(), i32> {
        Err(ENOENT)
    }

    fn setlkw(&self) -> Result<(), i32> {
        Err(ENOENT)
    }

    fn access(&self, _ctx: Context, _inode: u64, _mask: u32) -> Result<(), i32> {
        Ok(())
    }

    fn bmap(&self) -> Result<(), i32> {
        Err(ENOENT)
    }

    fn ioctl(
        &self,
        _ctx: Context,
        _inode: u64,
        _handle: u64,
        _flags: u32,
        _cmd: u32,
        _arg: u64,
        _in_size: u32,
        _out_size: u32,
        _r: &mut Reader,
    ) -> Result<IoctlReply, i32> {
        let _ = IoctlIovec { base: 0, len: 0 };
        Err(ENOENT)
    }

    fn poll(&self) -> Result<(), i32> {
        Err(ENOENT)
    }

    fn notify_reply(&self) -> Result<(), i32> {
        Err(ENOENT)
    }

    fn fallocate(&self, _ctx: Context, _inode: u64, _handle: u64, _mode: u32, _offset: u64, _length: u64) -> Result<(), i32> {
        Ok(())
    }

    fn lseek(&self) -> Result<(), i32> {
        Err(ENOENT)
    }

    fn copy_file_range(
        &self,
        _ctx: Context,
        _inode_src: u64,
        _handle_src: u64,
        _offset_src: u64,
        _inode_dst: u64,
        _handle_dst: u64,
        _offset_dst: u64,
        _length: u64,
        _flags: u64,
    ) -> Result<usize, i32> {
        Err(ENOENT)
    }

    fn set_up_mapping(
        &self,
        _ctx: Context,
        _inode: u64,
        _handle: u64,
        _file_offset: u64,
        _mem_offset: u64,
        _size: usize,
        _prot: u32,
        _mapper: &dyn Mapper,
    ) -> Result<(), i32> {
        Err(ENOENT)
    }

    fn remove_mapping(&self, _msgs: &Vec<RemoveMappingOne>, _mapper: &dyn Mapper) -> Result<(), i32> {
        Err(ENOENT)
    }
}

struct NoMapper;

impl Mapper for NoMapper {
    fn map(&self, _mem_offset: u64, _size: usize, _fd: i32, _file_offset: u64, _prot: u32) -> Result<(), i32> {
        Err(ENOENT)
    }

    fn unmap(&self, _offset: u64, _size: u64) -> Result<(), i32> {
        Err(ENOENT)
    }
}

fn in_header_bytes(len: u32, opcode: u32, unique: u64, nodeid: u64) -> Vec<u8> {
    let mut v = Vec::new();
    v.extend_from_slice(&len.to_le_bytes());
    v.extend_from_slice(&opcode.to_le_bytes());
    v.extend_from_slice(&unique.to_le_bytes());
    v.extend_from_slice(&nodeid.to_le_bytes());
    v.extend_from_slice(&500u32.to_le_bytes()); // uid
    v.extend_from_slice(&501u32.to_le_bytes()); // gid
    v.extend_from_slice(&99u32.to_le_bytes()); // pid
    v.extend_from_slice(&0u32.to_le_bytes()); // padding
    v
}

fn run(server: &Server<MockFs>, request: &[u8]) -> (Result<usize, Error>, Vec<u8>) {
    let mut r = Reader::new(request);
    let mut w = Writer::new();
    let res = server.handle_message(&mut r, &mut w, &NoMapper);
    let bytes = w.bytes().clone();
    (res, bytes)
}

fn reply_header(reply: &[u8]) -> (u32, i32, u64) {
    let len = u32::from_le_bytes(reply[0..4].try_into().unwrap());
    let error = i32::from_le_bytes(reply[4..8].try_into().unwrap());
    let unique = u64::from_le_bytes(reply[8..16].try_into().unwrap());
    (len, error, unique)
}

#[test]
fn unknown_opcode_enosys() {
    let server = Server::new(MockFs::new(vec![]));
    let req = in_header_bytes(40, 9999, 7, 1);
    let (res, reply) = run(&server, &req);
    assert_eq!(res.unwrap(), 16);
    let (len, error, unique) = reply_header(&reply);
    assert_eq!(len, 16);
    assert_eq!(error, -38); // ENOSYS
    assert_eq!(unique, 7);
}

#[test]
fn oversized_request_enomem() {
    // A length field claiming more than header + worst-case body +
    // backend buffer is bounded before any further parsing.
    let server = Server::new(MockFs::new(vec![]));
    let req = in_header_bytes(u32::MAX, 1, 8, 1);
    let (res, reply) = run(&server, &req);
    assert_eq!(res.unwrap(), 16);
    let (len, error, unique) = reply_header(&reply);
    assert_eq!(len, 16);
    assert_eq!(error, -12); // ENOMEM
    assert_eq!(unique, 8);
}

#[test]
fn lookup_undersized_len_is_rejected() {
    // A `len` claiming fewer bytes than the envelope itself fails with
    // the checked-subtraction error and produces no reply bytes; the
    // server never panics on it.
    let server = Server::new(MockFs::new(vec![]));
    let req = in_header_bytes(20, 1, 9, 1); // Lookup
    let (res, reply) = run(&server, &req);
    assert!(matches!(res, Err(Error::InvalidHeaderLength)));
    assert!(reply.is_empty());
}

#[test]
fn init_minor_below_oldest_eproto() {
    let server = Server::new(MockFs::new(vec![]));
    let mut req = in_header_bytes(56, 26, 11, 0); // Init
    req.extend_from_slice(&7u32.to_le_bytes()); // major
    req.extend_from_slice(&5u32.to_le_bytes()); // minor below oldest supported
    req.extend_from_slice(&0u32.to_le_bytes()); // max_readahead
    req.extend_from_slice(&0u32.to_le_bytes()); // flags
    let (res, reply) = run(&server, &req);
    assert_eq!(res.unwrap(), 16);
    let (len, error, unique) = reply_header(&reply);
    assert_eq!(len, 16); // no InitOut body
    assert_eq!(error, -71); // EPROTO
    assert_eq!(unique, 11);
}

#[test]
fn init_writeback_disables_handle_killpriv() {
    let mut fs = MockFs::new(vec![]);
    fs.want = WRITEBACK_CACHE | HANDLE_KILLPRIV;
    let server = Server::new(fs);
    let mut req = in_header_bytes(56, 26, 12, 0); // Init
    req.extend_from_slice(&7u32.to_le_bytes()); // major
    req.extend_from_slice(&32u32.to_le_bytes()); // minor
    req.extend_from_slice(&65536u32.to_le_bytes()); // max_readahead
    let capable: u32 = (WRITEBACK_CACHE | HANDLE_KILLPRIV) as u32;
    req.extend_from_slice(&capable.to_le_bytes()); // flags
    let (res, reply) = run(&server, &req);
    assert_eq!(res.unwrap(), 16 + 64);
    let (len, error, _) = reply_header(&reply);
    assert_eq!(len, 80);
    assert_eq!(error, 0);
    let major = u32::from_le_bytes(reply[16..20].try_into().unwrap());
    let minor = u32::from_le_bytes(reply[20..24].try_into().unwrap());
    let flags = u32::from_le_bytes(reply[28..32].try_into().unwrap());
    assert_eq!(major, 7);
    assert_eq!(minor, 32);
    assert_eq!(flags & WRITEBACK_CACHE as u32, WRITEBACK_CACHE as u32);
    // Write-back caching forces the kill-priv handling off.
    assert_eq!(flags & HANDLE_KILLPRIV as u32, 0);
    // The advertised page count follows max(readahead, write) / page size.
    let max_pages = u16::from_le_bytes(reply[44..46].try_into().unwrap());
    assert_eq!(max_pages as u32, (1u32 << 20) / 4096);
}

fn readdirplus_request(unique: u64, size: u32) -> Vec<u8> {
    let mut req = in_header_bytes(80, 44, unique, 1); // Readdirplus
    req.extend_from_slice(&1u64.to_le_bytes()); // fh
    req.extend_from_slice(&0u64.to_le_bytes()); // offset
    req.extend_from_slice(&size.to_le_bytes()); // size
    req.extend_from_slice(&0u32.to_le_bytes()); // read_flags
    req.extend_from_slice(&0u64.to_le_bytes()); // lock_owner
    req.extend_from_slice(&0u32.to_le_bytes()); // flags
    req.extend_from_slice(&0u32.to_le_bytes()); // padding
    req
}

// One readdirplus record for a 1-byte name: a 128-byte entry, a 24-byte
// dirent header, and the name padded to 8 bytes.
const PLUS_RECORD_SIZE: usize = 128 + 24 + 8;

#[test]
fn readdirplus_round_trip() {
    let server = Server::new(MockFs::new(vec![(42, b"a".to_vec()), (43, b"b".to_vec())]));
    let (res, reply) = run(&server, &readdirplus_request(21, 4096));
    let total = res.unwrap();
    assert_eq!(total, 16 + 2 * PLUS_RECORD_SIZE);
    let (len, error, unique) = reply_header(&reply);
    assert_eq!(len as usize, total);
    assert_eq!(error, 0);
    assert_eq!(unique, 21);

    // Parse both packed records back and recover each entry.
    for (k, (ino, name)) in [(0usize, (42u64, b'a')), (1, (43, b'b'))] {
        let rec = 16 + k * PLUS_RECORD_SIZE;
        let nodeid = u64::from_le_bytes(reply[rec..rec + 8].try_into().unwrap());
        let generation = u64::from_le_bytes(reply[rec + 8..rec + 16].try_into().unwrap());
        assert_eq!(nodeid, ino);
        assert_eq!(generation, 1000 + ino);
        let dino = u64::from_le_bytes(reply[rec + 128..rec + 136].try_into().unwrap());
        let namelen = u32::from_le_bytes(reply[rec + 144..rec + 148].try_into().unwrap());
        let dtype = u32::from_le_bytes(reply[rec + 148..rec + 152].try_into().unwrap());
        assert_eq!(dino, ino);
        assert_eq!(namelen, 1);
        assert_eq!(dtype, 8);
        assert_eq!(reply[rec + 152], name);
    }

    // Both names resolved and both fit: nothing to roll back.
    assert!(server_forgets(&server).is_empty());
}

fn server_forgets(server: &Server<MockFs>) -> Vec<(u64, u64)> {
    // The server owns the mock; peek at its forget log through readdir
    // bookkeeping kept in the backend.
    server_fs(server).forgets.borrow().clone()
}

fn server_fs(server: &Server<MockFs>) -> &MockFs {
    server.filesystem()
}

#[test]
fn readdirplus_rollback_forgets_unpacked_entry() {
    // Three entries, but a buffer budget that holds exactly two records:
    // the third entry's lookup succeeds and then cannot be packed, so its
    // resolved inode must be released exactly once, and the reply holds
    // the first two entries only.
    let server = Server::new(MockFs::new(vec![
        (42, b"a".to_vec()),
        (43, b"b".to_vec()),
        (44, b"c".to_vec()),
    ]));
    let size = (2 * PLUS_RECORD_SIZE) as u32;
    let (res, reply) = run(&server, &readdirplus_request(22, size));
    let total = res.unwrap();
    assert_eq!(total, 16 + 2 * PLUS_RECORD_SIZE);
    let (len, error, _) = reply_header(&reply);
    assert_eq!(len as usize, total);
    assert_eq!(error, 0);

    let first = u64::from_le_bytes(reply[16..24].try_into().unwrap());
    let second =
        u64::from_le_bytes(reply[16 + PLUS_RECORD_SIZE..24 + PLUS_RECORD_SIZE].try_into().unwrap());
    assert_eq!(first, 42);
    assert_eq!(second, 43);

    // The backend's forget path ran exactly once, for the inode that was
    // resolved but could not be packed.
    assert_eq!(server_forgets(&server), vec![(44, 1)]);
}

#[test]
fn read_streams_into_reserved_reply() {
    let server = Server::new(MockFs::new(vec![]));
    let mut req = in_header_bytes(80, 15, 31, 5); // Read
    req.extend_from_slice(&1u64.to_le_bytes()); // fh
    req.extend_from_slice(&0u64.to_le_bytes()); // offset
    req.extend_from_slice(&4096u32.to_le_bytes()); // size
    req.extend_from_slice(&0u32.to_le_bytes()); // read_flags
    req.extend_from_slice(&0u64.to_le_bytes()); // lock_owner
    req.extend_from_slice(&0u32.to_le_bytes()); // flags
    req.extend_from_slice(&0u32.to_le_bytes()); // padding
    let (res, reply) = run(&server, &req);
    assert_eq!(res.unwrap(), 21);
    let (len, error, unique) = reply_header(&reply);
    assert_eq!(len, 21); // header + the 5 streamed bytes
    assert_eq!(error, 0);
    assert_eq!(unique, 31);
    assert_eq!(&reply[16..21], b"hello");
}

#[test]
fn negotiate_zero_message_open_disables_atomic_o_trunc() {
    let capable = ZERO_MESSAGE_OPEN | ATOMIC_O_TRUNC;
    let want = ZERO_MESSAGE_OPEN | ATOMIC_O_TRUNC;
    let enabled = negotiate_options(capable, want);
    assert_eq!(enabled & ZERO_MESSAGE_OPEN, ZERO_MESSAGE_OPEN);
    assert_eq!(enabled & ATOMIC_O_TRUNC, 0);
}

#[test]
fn negotiate_keeps_only_capable_options() {
    // The backend may want more than the guest offered; only the
    // intersection is granted.
    let capable = ATOMIC_O_TRUNC;
    let want = ATOMIC_O_TRUNC | WRITEBACK_CACHE;
    assert_eq!(negotiate_options(capable, want), ATOMIC_O_TRUNC);
}

#[test]
fn short_request_fails_decode() {
    let server = Server::new(MockFs::new(vec![]));
    let req = [0u8; 10]; // shorter than the request envelope
    let (res, reply) = run(&server, &req);
    assert!(matches!(res, Err(Error::DecodeMessage)));
    assert!(reply.is_empty());
}

#[test]
fn unlink_name_without_nul_fails() {
    let server = Server::new(MockFs::new(vec![]));
    let mut req = in_header_bytes(43, 10, 13, 1); // Unlink, 3 name bytes
    req.extend_from_slice(b"abc"); // no NUL terminator
    let (res, reply) = run(&server, &req);
    assert!(matches!(res, Err(Error::InvalidCString)));
    assert!(reply.is_empty());
}

#[test]
fn setxattr_size_mismatch_fails() {
    let server = Server::new(MockFs::new(vec![]));
    // name "n\0" and value "vv", but a declared size of 9.
    let mut req = in_header_bytes(40 + 8 + 4, 21, 14, 1); // Setxattr
    req.extend_from_slice(&9u32.to_le_bytes()); // size
    req.extend_from_slice(&0u32.to_le_bytes()); // flags
    req.extend_from_slice(b"n\0vv");
    let (res, reply) = run(&server, &req);
    assert!(matches!(res, Err(Error::InvalidXattrSize(9, 2))));
    assert!(reply.is_empty());
}

#[test]
fn rename_without_separator_fails() {
    let server = Server::new(MockFs::new(vec![]));
    let mut req = in_header_bytes(40 + 8 + 3, 12, 15, 1); // Rename
    req.extend_from_slice(&2u64.to_le_bytes()); // newdir
    req.extend_from_slice(b"abc"); // no NUL separates old and new name
    let (res, reply) = run(&server, &req);
    assert!(matches!(res, Err(Error::MissingParameter)));
    assert!(reply.is_empty());
}

#[test]
fn read_oversized_size_enomem() {
    // A read claiming more than the backend's buffer bound is answered
    // with ENOMEM before the backend is asked.
    let server = Server::new(MockFs::new(vec![]));
    let mut req = in_header_bytes(80, 15, 33, 5); // Read
    req.extend_from_slice(&1u64.to_le_bytes()); // fh
    req.extend_from_slice(&0u64.to_le_bytes()); // offset
    req.extend_from_slice(&((1u32 << 20) + 1).to_le_bytes()); // size over the bound
    req.extend_from_slice(&0u32.to_le_bytes()); // read_flags
    req.extend_from_slice(&0u64.to_le_bytes()); // lock_owner
    req.extend_from_slice(&0u32.to_le_bytes()); // flags
    req.extend_from_slice(&0u32.to_le_bytes()); // padding
    let (res, reply) = run(&server, &req);
    assert_eq!(res.unwrap(), 16);
    let (len, error, unique) = reply_header(&reply);
    assert_eq!(len, 16);
    assert_eq!(error, -12); // ENOMEM
    assert_eq!(unique, 33);
}
