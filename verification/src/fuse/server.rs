//! The FUSE request dispatcher: decodes one request, delegates to the
//! filesystem backend, and encodes exactly one reply (none for the
//! reply-less operations), converting every malformed input into a
//! negated-errno reply rather than a failure.

use vstd::prelude::*;

use crate::fuse::sys::push_out_header;
use crate::fuse::sys::push_zeros;
use crate::fuse::sys::sle32;
use crate::fuse::sys::Error;
use crate::fuse::sys::OutHeader;
use crate::fuse::sys::Reader;
use crate::fuse::sys::MAX_NR_SECCTX;
use crate::fuse::sys::OUT_HEADER_SIZE;
use crate::fuse::sys::SECCTX_HEADER_SIZE;
use crate::fuse::sys::SECCTX_SIZE;
use crate::fuse::sys::spec_out_header_bytes;
use crate::fuse::sys::spec_appended;
use crate::fuse::sys::spec_replied;
use crate::fuse::sys::lemma_out_header_unique;
use crate::fuse::sys::spec_neg;
use crate::fuse::sys::spec_err_reply;
use crate::fuse::sys::spec_ok_reply;
use crate::fuse::sys::spec_some_reply;
use crate::fuse::sys::lemma_appended_refl;
use crate::fuse::sys::lemma_appended_concat;
use crate::fuse::sys::lemma_appended_trans;
use crate::fuse::sys::lemma_sle32_of_le32;
use crate::fuse::sys::lemma_sle64_of_le64;
use crate::fuse::sys::le32;
use crate::fuse::sys::le64;
use crate::fuse::sys::sle64;
use crate::fuse::sys::push_dirent;
use crate::fuse::sys::push_attr_out;
use crate::fuse::sys::push_entry_out;
use crate::fuse::sys::push_init_out;
use crate::fuse::sys::push_kstatfs_full;
use crate::fuse::sys::spec_dirent_bytes;
use crate::fuse::sys::spec_entry_out_bytes;
use crate::fuse::sys::spec_in_header;
use crate::fuse::sys::spec_init_in;
use crate::fuse::sys::spec_init_in_ext;
use crate::fuse::sys::INIT_OUT_SIZE;
use crate::fuse::sys::spec_read_in;
use crate::fuse::sys::spec_write_in;
use crate::fuse::sys::spec_getxattr_in;
use crate::fuse::sys::spec_setxattr_in;
use crate::fuse::sys::spec_batch_forget_in;
use crate::fuse::sys::spec_forget_one;
use crate::fuse::sys::spec_remove_mapping_in;
use crate::fuse::sys::READ_IN_SIZE;
use crate::fuse::sys::GETATTR_IN_SIZE;
use crate::fuse::sys::SETATTR_IN_SIZE;
use crate::fuse::sys::OPEN_IN_SIZE;
use crate::fuse::sys::RELEASE_IN_SIZE;
use crate::fuse::sys::FSYNC_IN_SIZE;
use crate::fuse::sys::FLUSH_IN_SIZE;
use crate::fuse::sys::ACCESS_IN_SIZE;
use crate::fuse::sys::FALLOCATE_IN_SIZE;
use crate::fuse::sys::COPY_FILE_RANGE_IN_SIZE;
use crate::fuse::sys::BATCH_FORGET_IN_SIZE;
use crate::fuse::sys::REMOVE_MAPPING_IN_SIZE;
use crate::fuse::sys::spec_init_out_bytes;
use crate::fuse::sys::Attr;
use crate::fuse::sys::AttrOut;
use crate::fuse::sys::Dirent;
use crate::fuse::sys::EntryOut;
use crate::fuse::sys::InHeader;
use crate::fuse::sys::InitOut;
use crate::fuse::sys::InitIn;
use crate::fuse::sys::IoctlOut;
use crate::fuse::sys::Opcode;
use crate::fuse::sys::OpenOut;
use crate::fuse::sys::WriteOut;
use crate::fuse::sys::GetxattrOut;
use crate::fuse::sys::opcode_value;
use crate::fuse::sys::DIRENT_SIZE;
use crate::fuse::sys::ENTRY_OUT_SIZE;
use crate::fuse::sys::IN_HEADER_SIZE;
use crate::fuse::sys::INIT_IN_SIZE;
use crate::fuse::sys::WRITE_IN_SIZE;
use crate::fuse::sys::FORGET_ONE_SIZE;
use crate::fuse::sys::FORGET_IN_SIZE;
use crate::fuse::sys::SET_UP_MAPPING_IN_SIZE;
use crate::fuse::sys::spec_set_up_mapping_in;
use crate::fuse::sys::REMOVE_MAPPING_ONE_SIZE;
use crate::fuse::sys::EIO;
use crate::fuse::sys::EINVAL;
use crate::fuse::sys::ENOMEM;
use crate::fuse::sys::ENOSYS;
use crate::fuse::sys::EOVERFLOW;
use crate::fuse::sys::EPROTO;
use crate::fuse::sys::FATTR_FH;
use crate::fuse::sys::GETATTR_FH;
use crate::fuse::sys::READ_LOCKOWNER;
use crate::fuse::sys::WRITE_CACHE;
use crate::fuse::sys::WRITE_LOCKOWNER;
use crate::fuse::sys::RELEASE_FLUSH;
use crate::fuse::sys::RELEASE_FLOCK_UNLOCK;
use crate::fuse::sys::RENAME_FLAG_EXCHANGE;
use crate::fuse::sys::RENAME_FLAG_NOREPLACE;
use crate::fuse::sys::IOCTL_RETRY;
use crate::fuse::sys::IOCTL_MAX_IOV;
use crate::fuse::sys::IOCTL_IN_SIZE;
use crate::fuse::sys::IOCTL_OUT_SIZE;
use crate::fuse::sys::IOCTL_IOVEC_SIZE;
use crate::fuse::sys::push_ioctl_out;
use crate::fuse::sys::push_ioctl_iovec;
use crate::fuse::sys::SETUPMAPPING_FLAG_READ;
use crate::fuse::sys::SETUPMAPPING_FLAG_WRITE;
use crate::fuse::sys::PROT_READ;
use crate::fuse::sys::PROT_WRITE;
use crate::fuse::sys::PAGE_SIZE;
use crate::fuse::sys::push_open_out;
use crate::fuse::sys::push_write_out;
use crate::fuse::sys::push_getxattr_out;
use crate::fuse::sys::IoctlIovec;
use crate::fuse::sys::RemoveMappingOne;
use crate::fuse::sys::MKNOD_IN_SIZE;
use crate::fuse::sys::MKDIR_IN_SIZE;
use crate::fuse::sys::CHROME_OS_TMPFILE_IN_SIZE;
use crate::fuse::sys::RENAME_IN_SIZE;
use crate::fuse::sys::RENAME2_IN_SIZE;
use crate::fuse::sys::LINK_IN_SIZE;
use crate::fuse::sys::SETXATTR_IN_SIZE;
use crate::fuse::sys::GETXATTR_IN_SIZE;
use crate::fuse::sys::CREATE_IN_SIZE;
use crate::fuse::sys::KERNEL_VERSION;
use crate::fuse::sys::KERNEL_MINOR_VERSION;
use crate::fuse::sys::OLDEST_SUPPORTED_KERNEL_MINOR_VERSION;
use crate::fuse::filesystem::Context;
use crate::fuse::filesystem::DirEntry;
use crate::fuse::filesystem::Entry;
use crate::fuse::filesystem::FileSystem;
use crate::fuse::filesystem::GetxattrReply;
use crate::fuse::filesystem::IoctlReply;
use crate::fuse::filesystem::ListxattrReply;
use crate::fuse::filesystem::Mapper;
use crate::fuse::filesystem::ASYNC_READ;
use crate::fuse::filesystem::PARALLEL_DIROPS;
use crate::fuse::filesystem::BIG_WRITES;
use crate::fuse::filesystem::AUTO_INVAL_DATA;
use crate::fuse::filesystem::HANDLE_KILLPRIV;
use crate::fuse::filesystem::ASYNC_DIO;
use crate::fuse::filesystem::HAS_IOCTL_DIR;
use crate::fuse::filesystem::DO_READDIRPLUS;
use crate::fuse::filesystem::READDIRPLUS_AUTO;
use crate::fuse::filesystem::ATOMIC_O_TRUNC;
use crate::fuse::filesystem::MAX_PAGES;
use crate::fuse::filesystem::MAP_ALIGNMENT;
use crate::fuse::filesystem::INIT_EXT;
use crate::fuse::filesystem::WRITEBACK_CACHE;
use crate::fuse::filesystem::ZERO_MESSAGE_OPEN;
use crate::fuse::filesystem::ALL_OPTIONS;

verus! {

broadcast use
    vstd::seq_lib::group_seq_lib_default,
    vstd::seq::group_seq_axioms,
    lemma_appended_refl,
    lemma_appended_concat,
    crate::fuse::sys::lemma_some_reply_replied,
    crate::fuse::sys::lemma_err_reply_replied,
    crate::fuse::sys::lemma_ok_reply_replied,
    crate::fuse::sys::lemma_attr_bytes_len,
    crate::fuse::sys::lemma_entry_out_bytes_len,
    crate::fuse::sys::lemma_init_out_bytes_len,
    crate::fuse::sys::lemma_out_header_bytes_len,
    crate::fuse::sys::lemma_dirent_bytes_len,
    crate::fuse::sys::lemma_ioctl_out_bytes_len,
    crate::fuse::sys::lemma_ioctl_iovec_bytes_len,
    crate::fuse::sys::lemma_attr_out_bytes_len,
    crate::fuse::sys::lemma_kstatfs_bytes_len,
    crate::fuse::sys::lemma_open_out_bytes_len,
    crate::fuse::sys::lemma_write_out_bytes_len,
    crate::fuse::sys::lemma_getxattr_out_bytes_len;

/// The NUL-terminated xattr name whose value is the security context.
pub open spec fn spec_selinux_xattr() -> Seq<u8> {
    seq![
        0x73u8, 0x65u8, 0x63u8, 0x75u8, 0x72u8, 0x69u8, 0x74u8, 0x79u8, 0x2eu8, 0x73u8, 0x65u8,
        0x6cu8, 0x69u8, 0x6eu8, 0x75u8, 0x78u8, 0u8,
    ]
}

/// The reply buffer. The reply is assembled in memory so that a payload
/// can be written first, at an offset past where the header will go, and
/// the header, whose length field depends on the payload, backfilled
/// afterwards; the embedder sends the finished bytes in one transaction.
pub struct Writer {
    buf: Vec<u8>,
}

impl Writer {
    /// The bytes assembled so far.
    pub closed spec fn spec_buf(&self) -> Seq<u8> {
        self.buf@
    }

    pub fn new() -> (r: Writer)
        ensures
            r.spec_buf() == Seq::<u8>::empty(),
    {
        let r = Writer { buf: Vec::new() };
        proof {
            assert(r.spec_buf() =~= Seq::<u8>::empty());
        }
        r
    }

    /// The number of bytes assembled so far.
    pub fn len(&self) -> (r: usize)
        ensures
            r == self.spec_buf().len(),
    {
        self.buf.len()
    }

    /// The assembled reply.
    pub fn bytes(&self) -> (r: &Vec<u8>)
        ensures
            r@ == self.spec_buf(),
    {
        &self.buf
    }

    /// Appends bytes to the reply.
    pub fn write_all(&mut self, data: &[u8])
        ensures
            final(self).spec_buf() == old(self).spec_buf() + data@,
    {
        self.buf.extend_from_slice(data);
    }

    /// Appends `n` zero bytes, reserving room that a header or payload
    /// will be backfilled into.
    pub fn reserve(&mut self, n: usize)
        ensures
            final(self).spec_buf() == old(self).spec_buf() + Seq::new(n as nat, |i: int| 0u8),
    {
        push_zeros(&mut self.buf, n);
    }

    /// Whether the writer can still accept the given amount of data; the
    /// in-memory buffer always can.
    pub fn has_sufficient_buffer(&self, size: u32) -> (r: bool)
        ensures
            r == true,
    {
        let _ = size;
        true
    }

    /// Backfills an `OutHeader` over the 16 reserved bytes at `at`.
    pub fn write_out_header_at(&mut self, at: usize, h: OutHeader)
        requires
            at + OUT_HEADER_SIZE <= old(self).spec_buf().len(),
        ensures
            final(self).spec_buf() == old(self).spec_buf().subrange(0, at as int)
                + spec_out_header_bytes(h) + old(self).spec_buf().skip(at + OUT_HEADER_SIZE),
    {
        let mut hdr: Vec<u8> = Vec::new();
        push_out_header(&mut hdr, h);
        let cap = self.buf.len();
        let mut k: usize = 0;
        while k < OUT_HEADER_SIZE
            invariant
                k <= OUT_HEADER_SIZE,
                hdr@ == spec_out_header_bytes(h),
                hdr@.len() == OUT_HEADER_SIZE,
                cap == self.buf@.len(),
                at + OUT_HEADER_SIZE <= cap,
                self.buf@.len() == old(self).spec_buf().len(),
                forall|m: int|
                    0 <= m < self.buf@.len() ==> #[trigger] self.buf@[m] == (if at <= m < at + k {
                        hdr@[m - at]
                    } else {
                        old(self).spec_buf()[m]
                    }),
            decreases OUT_HEADER_SIZE - k,
        {
            self.buf.set(at + k, hdr[k]);
            k = k + 1;
        }
        proof {
            assert(self.buf@ =~= old(self).spec_buf().subrange(0, at as int)
                + spec_out_header_bytes(h) + old(self).spec_buf().skip(at + OUT_HEADER_SIZE));
        }
    }

    /// Appends an `OutHeader`.
    pub fn write_out_header(&mut self, h: OutHeader)
        ensures
            final(self).spec_buf() == old(self).spec_buf() + spec_out_header_bytes(h),
    {
        push_out_header(&mut self.buf, h);
    }
}

/// Replies with the negated OS error code and a bare header.
pub fn reply_error(e: i32, unique: u64, w: &mut Writer) -> (r: Result<usize, Error>)
    ensures
        final(w).spec_buf() == old(w).spec_buf() + spec_err_reply(e, unique),
        r == Ok::<usize, Error>(OUT_HEADER_SIZE),
{
    let neg: i32 = if e == i32::MIN {
        i32::MIN
    } else {
        -e
    };
    proof {
        assert(neg == spec_neg(e));
    }
    let header = OutHeader { len: OUT_HEADER_SIZE as u32, error: neg, unique };
    w.write_out_header(header);
    Ok(OUT_HEADER_SIZE)
}

/// Replies with a header, an optional fixed-size out structure and an
/// optional trailing blob; the header's length field equals the bytes
/// written. A reply that cannot fit the 32-bit length field fails.
pub fn reply_ok(out: Option<&Vec<u8>>, data: Option<&[u8]>, unique: u64, w: &mut Writer) -> (r:
    Result<usize, Error>)
    ensures
        ({
            let payload = (match out {
                Some(o) => o@,
                None => Seq::<u8>::empty(),
            }) + (match data {
                Some(d) => d@,
                None => Seq::<u8>::empty(),
            });
            &&& final(w).spec_buf() == old(w).spec_buf() + spec_ok_reply(payload, unique)
            &&& r == Ok::<usize, Error>((OUT_HEADER_SIZE + payload.len()) as usize)
        }),
{
    let out_len: usize = match out {
        Some(o) => o.len(),
        None => 0,
    };
    let data_len: usize = match data {
        Some(d) => d.len(),
        None => 0,
    };
    // The length field is 32 bits on the wire; like the transport, a
    // payload beyond it wraps rather than failing the connection.
    let len128: u128 = (OUT_HEADER_SIZE as u128) + (out_len as u128) + (data_len as u128);

    let header = OutHeader {
        len: #[verifier::truncate] (len128 as u32),
        error: 0,
        unique,
    };
    w.write_out_header(header);
    if let Some(o) = out {
        w.write_all(o.as_slice());
    }
    if let Some(d) = data {
        w.write_all(d);
    }
    proof {
        let payload = (match out {
            Some(o) => o@,
            None => Seq::<u8>::empty(),
        }) + (match data {
            Some(d) => d@,
            None => Seq::<u8>::empty(),
        });
        assert(header.len == (OUT_HEADER_SIZE + payload.len()) as u32);
        assert(final(w).spec_buf() =~= old(w).spec_buf() + spec_ok_reply(payload, unique));
    }
    Ok(#[verifier::truncate] (len128 as usize))
}

/// The position of the first NUL at or after `start`.
pub open spec fn spec_first_nul(b: Seq<u8>, start: int) -> Option<int>
    decreases b.len() - start,
{
    if start < 0 || start >= b.len() {
        None
    } else if b[start] == 0 {
        Some(start)
    } else {
        spec_first_nul(b, start + 1)
    }
}

/// Finds the first NUL at or after `start`.
pub fn find_first_nul(b: &[u8], start: usize) -> (r: Option<usize>)
    ensures
        match r {
            Some(p) => Some(p as int) == spec_first_nul(b@, start as int) && start <= p < b@.len()
                && b@[p as int] == 0,
            None => None::<int> == spec_first_nul(b@, start as int),
        },
{
    let mut k: usize = start;
    let blen = b.len();
    while k < blen
        invariant
            start <= k,
            blen == b@.len(),
            spec_first_nul(b@, start as int) == spec_first_nul(b@, k as int),
        decreases blen - k,
    {
        if b[k] == 0 {
            return Some(k);
        }
        k = k + 1;
    }
    None
}

/// A valid NUL-terminated string: nonempty, ends with NUL, and holds no
/// interior NUL.
pub open spec fn spec_valid_cstr(b: Seq<u8>) -> bool {
    b.len() >= 1 && b[b.len() - 1] == 0 && (forall|i: int| 0 <= i < b.len() - 1 ==> b[i] != 0)
}

/// Checks that `buf` is one NUL-terminated string and hands back the
/// bytes before the NUL.
pub fn bytes_to_cstr(buf: &[u8]) -> (r: Result<Vec<u8>, Error>)
    ensures
        match r {
            Ok(v) => spec_valid_cstr(buf@) && v@ == buf@.drop_last(),
            Err(e) => e == Error::InvalidCString && !spec_valid_cstr(buf@),
        },
{
    let n = buf.len();
    if n == 0 {
        return Err(Error::InvalidCString);
    }
    if buf[n - 1] != 0 {
        return Err(Error::InvalidCString);
    }
    let mut v: Vec<u8> = Vec::new();
    let mut k: usize = 0;
    while k < n - 1
        invariant
            n == buf@.len(),
            n >= 1,
            buf@[n - 1] == 0,
            k <= n - 1,
            v@ == buf@.subrange(0, k as int),
            forall|i: int| 0 <= i < k ==> buf@[i] != 0,
        decreases n - 1 - k,
    {
        if buf[k] == 0 {
            return Err(Error::InvalidCString);
        }
        v.push(buf[k]);
        proof {
            assert(v@ =~= buf@.subrange(0, k + 1));
        }
        k = k + 1;
    }
    proof {
        assert(v@ =~= buf@.drop_last());
    }
    Ok(v)
}

/// The scan over the `nr` security-context entries of a block, starting
/// at `pos`, whose header declared `total` padded bytes: the matching
/// value, no match, or the error exactly as the wire rules give it.
pub open spec fn spec_scan_secctx(b: Seq<u8>, pos: int, nr: int, total: int) -> Result<
    Option<Seq<u8>>,
    Error,
>
    decreases nr,
{
    if nr <= 0 {
        if pos + 7 > usize::MAX {
            Err(Error::InvalidHeaderLength)
        } else {
            let padded = ((pos + 7) / 8) * 8;
            if padded != total {
                Err(Error::InvalidHeaderLength)
            } else {
                Ok(None)
            }
        }
    } else if pos + SECCTX_SIZE > b.len() || pos + SECCTX_SIZE > total {
        Err(Error::InvalidHeaderLength)
    } else {
        let esize = sle32(b, pos);
        let p1 = pos + SECCTX_SIZE;
        match spec_first_nul(b, p1) {
            None => if p1 >= b.len() {
                Err(Error::MissingParameter)
            } else {
                Err(Error::InvalidCString)
            },
            Some(n1) => {
                let name = b.subrange(p1, n1 + 1);
                let p2 = n1 + 1;
                match spec_first_nul(b, p2) {
                    None => if p2 >= b.len() {
                        Err(Error::MissingParameter)
                    } else {
                        Err(Error::InvalidCString)
                    },
                    Some(n2) => {
                        let value = b.subrange(p2, n2 + 1);
                        let newpos = n2 + 1;
                        if newpos > total {
                            Err(Error::InvalidHeaderLength)
                        } else if value.len() != esize {
                            Err(Error::InvalidHeaderLength)
                        } else if name == spec_selinux_xattr() {
                            Ok(Some(value.drop_last()))
                        } else {
                            spec_scan_secctx(b, newpos, nr - 1, total)
                        }
                    },
                }
            },
        }
    }
}

/// What parsing a security-context block yields: the `security.selinux`
/// value when one entry names it; no context when the block is empty, the
/// entry count exceeds the ceiling (the block then belongs to an
/// unrelated extension of the same shape), or no entry matches; or the
/// exact decode error.
pub open spec fn spec_parse_selinux(b: Seq<u8>) -> Result<Option<Seq<u8>>, Error> {
    if b.len() == 0 {
        Ok(None)
    } else if b.len() < SECCTX_HEADER_SIZE {
        Err(Error::InvalidHeaderLength)
    } else {
        let total = sle32(b, 0);
        let nr = sle32(b, 4);
        if nr > MAX_NR_SECCTX {
            Ok(None)
        } else {
            spec_scan_secctx(b, SECCTX_HEADER_SIZE as int, nr as int, total as int)
        }
    }
}

/// Parses the security-context block that follows certain request bodies
/// and returns the `security.selinux` value if one is present.
pub fn parse_selinux_xattr(buf: &[u8]) -> (r: Result<Option<Vec<u8>>, Error>)
    ensures
        match r {
            Ok(Some(v)) => spec_parse_selinux(buf@) == Ok::<Option<Seq<u8>>, Error>(Some(v@)),
            Ok(None) => spec_parse_selinux(buf@) == Ok::<Option<Seq<u8>>, Error>(
                None::<Seq<u8>>,
            ),
            Err(e) => spec_parse_selinux(buf@) == Err::<Option<Seq<u8>>, Error>(e),
        },
{
    // Return early if the request was not followed by context information.
    if buf.len() == 0 {
        return Ok(None);
    } else if buf.len() < SECCTX_HEADER_SIZE {
        return Err(Error::InvalidHeaderLength);
    }

    let mut reader = Reader::new(buf);
    let secctx_header = match reader.read_secctx_header() {
        Ok(h) => h,
        Err(_) => {
            return Err(Error::DecodeMessage);
        },
    };

    // A generic request extension shares this header's shape. An entry
    // count above the ceiling means this block holds no security
    // contexts at all.
    if secctx_header.nr_secctx > MAX_NR_SECCTX {
        return Ok(None);
    }

    let total = secctx_header.size;
    let mut cur: usize = SECCTX_HEADER_SIZE;
    let mut remaining = secctx_header.nr_secctx;
    let blen = buf.len();

    while remaining > 0
        invariant
            blen == buf@.len(),
            cur <= blen,
            cur >= SECCTX_HEADER_SIZE,
            spec_parse_selinux(buf@) == spec_scan_secctx(
                buf@,
                cur as int,
                remaining as int,
                total as int,
            ),
        decreases remaining,
    {
        // Each entry: a fixed sub-header, then a NUL-terminated name and
        // a NUL-terminated value.
        if blen - cur < SECCTX_SIZE {
            return Err(Error::InvalidHeaderLength);
        }
        if (total as usize) < SECCTX_SIZE || cur > (total as usize) - SECCTX_SIZE {
            return Err(Error::InvalidHeaderLength);
        }
        let mut r2 = Reader { buf, pos: cur };
        let secctx = match r2.read_secctx() {
            Ok(s) => s,
            Err(_) => {
                return Err(Error::DecodeMessage);
            },
        };
        let p1 = cur + SECCTX_SIZE;

        let n1 = match find_first_nul(buf, p1) {
            Some(n) => n,
            None => {
                if p1 >= blen {
                    return Err(Error::MissingParameter);
                } else {
                    return Err(Error::InvalidCString);
                }
            },
        };
        let p2 = n1 + 1;
        let n2 = match find_first_nul(buf, p2) {
            Some(n) => n,
            None => {
                if p2 >= blen {
                    return Err(Error::MissingParameter);
                } else {
                    return Err(Error::InvalidCString);
                }
            },
        };
        let newpos = n2 + 1;
        proof {
            assert(spec_first_nul(buf@, p1 as int) == Some(n1 as int));
            assert(n1 < buf@.len());
            assert(spec_first_nul(buf@, p2 as int) == Some(n2 as int));
            assert(n2 < buf@.len());
        }

        if newpos > total as usize {
            return Err(Error::InvalidHeaderLength);
        }

        // `Secctx.size` counts the value including its NUL, not the name.
        if newpos - p2 != secctx.size as usize {
            return Err(Error::InvalidHeaderLength);
        }

        // Compare the name against `security.selinux`.
        let selinux: [u8; 17] = [
            0x73,
            0x65,
            0x63,
            0x75,
            0x72,
            0x69,
            0x74,
            0x79,
            0x2e,
            0x73,
            0x65,
            0x6c,
            0x69,
            0x6e,
            0x75,
            0x78,
            0,
        ];
        let mut is_selinux = n1 + 1 - p1 == 17;
        proof {
            assert(selinux@ =~= spec_selinux_xattr());
            if !is_selinux {
                assert(buf@.subrange(p1 as int, n1 + 1).len() != 17);
                assert(buf@.subrange(p1 as int, n1 + 1) != spec_selinux_xattr());
            }
        }
        let mut k: usize = 0;
        while k < 17 && is_selinux
            invariant
                k <= 17,
                p1 <= n1 < buf@.len(),
                selinux@ == spec_selinux_xattr(),
                is_selinux ==> n1 + 1 - p1 == 17 && (forall|i: int|
                    0 <= i < k ==> buf@[p1 + i] == spec_selinux_xattr()[i]),
                !is_selinux ==> buf@.subrange(p1 as int, n1 + 1) != spec_selinux_xattr(),
            decreases 17 - k, (if is_selinux { 1int } else { 0int }),
        {
            if buf[p1 + k] != selinux[k] {
                proof {
                    assert(buf@.subrange(p1 as int, n1 + 1)[k as int] != spec_selinux_xattr()[
                        k as int]);
                }
                is_selinux = false;
            } else {
                k = k + 1;
            }
        }
        proof {
            if is_selinux {
                assert(buf@.subrange(p1 as int, n1 + 1) =~= spec_selinux_xattr());
            }
        }

        if is_selinux {
            let mut value: Vec<u8> = Vec::new();
            let mut k: usize = p2;
            while k < n2
                invariant
                    p2 <= k <= n2,
                    n2 < buf@.len(),
                    value@ == buf@.subrange(p2 as int, k as int),
                decreases n2 - k,
            {
                value.push(buf[k]);
                proof {
                    assert(value@ =~= buf@.subrange(p2 as int, k + 1));
                }
                k = k + 1;
            }
            proof {
                assert(value@ =~= buf@.subrange(p2 as int, n2 + 1).drop_last());
            }
            return Ok(Some(value));
        }

        cur = newpos;
        remaining = remaining - 1;
    }

    // The declared size must equal the cursor padded to an 8-byte
    // boundary; anything else means the header lied about its size.
    let padded = match cur.checked_add(7) {
        Some(c) => (c / 8) * 8,
        None => {
            return Err(Error::InvalidHeaderLength);
        },
    };
    if padded != total as usize {
        return Err(Error::InvalidHeaderLength);
    }

    // No entry named `security.selinux`: a valid block with no label.
    Ok(None)
}




/// What splitting a request tail into one NUL-terminated name and a
/// security-context block yields: success, or the exact decode error.
pub open spec fn spec_name_secctx_check(buf: Seq<u8>) -> Result<(), Error> {
    match spec_first_nul(buf, 0) {
        None => Err(
            if buf.len() == 0 {
                Error::MissingParameter
            } else {
                Error::InvalidCString
            },
        ),
        Some(n1) => match spec_parse_selinux(buf.skip(n1 + 1)) {
            Ok(_) => Ok(()),
            Err(e) => Err(e),
        },
    }
}

/// What splitting a request tail into two NUL-terminated names and a
/// security-context block yields: success, or the exact decode error.
pub open spec fn spec_two_names_secctx_check(buf: Seq<u8>) -> Result<(), Error> {
    match spec_first_nul(buf, 0) {
        None => Err(
            if buf.len() == 0 {
                Error::MissingParameter
            } else {
                Error::InvalidCString
            },
        ),
        Some(n1) => match spec_first_nul(buf, n1 + 1) {
            None => Err(
                if n1 + 1 >= buf.len() {
                    Error::MissingParameter
                } else {
                    Error::InvalidCString
                },
            ),
            Some(n2) => match spec_parse_selinux(buf.skip(n2 + 1)) {
                Ok(_) => Ok(()),
                Err(e) => Err(e),
            },
        },
    }
}

/// The `EntryOut` image of a resolved entry.
pub open spec fn spec_entry_out_from(entry: Entry) -> EntryOut {
    EntryOut {
        nodeid: entry.inode,
        generation: entry.generation,
        entry_valid: entry.entry_timeout_sec,
        attr_valid: entry.attr_timeout_sec,
        entry_valid_nsec: entry.entry_timeout_nsec,
        attr_valid_nsec: entry.attr_timeout_nsec,
        attr: entry.attr,
    }
}

fn entry_out_from(entry: Entry) -> (r: EntryOut)
    ensures
        r == spec_entry_out_from(entry),
{
    EntryOut {
        nodeid: entry.inode,
        generation: entry.generation,
        entry_valid: entry.entry_timeout_sec,
        attr_valid: entry.attr_timeout_sec,
        entry_valid_nsec: entry.entry_timeout_nsec,
        attr_valid_nsec: entry.attr_timeout_nsec,
        attr: entry.attr,
    }
}

#[verifier::rlimit(100)]
fn entry_out_vec(entry: Entry) -> (r: Vec<u8>)
    ensures
        r@ == spec_entry_out_bytes(spec_entry_out_from(entry)),
        r@.len() == ENTRY_OUT_SIZE,
{
    let mut v: Vec<u8> = Vec::new();
    push_entry_out(&mut v, entry_out_from(entry));
    v
}

/// The zero bytes that pad a packed dirent to 8-byte alignment.
pub open spec fn spec_dirent_pad(namelen: int) -> int {
    ((DIRENT_SIZE + namelen + 7) / 8) * 8 - (DIRENT_SIZE + namelen)
}

/// One packed directory entry: the fixed dirent header, the name, and
/// zero padding to an 8-byte boundary.
#[verifier::opaque]
pub open spec fn spec_padded_dirent(d: DirEntry) -> Seq<u8> {
    spec_dirent_bytes(
        Dirent { ino: d.ino, off: d.offset, namelen: d.name@.len() as u32, type_: d.type_ },
    ) + d.name@ + Seq::new(spec_dirent_pad(d.name@.len() as int) as nat, |i: int| 0u8)
}

/// The bytes one readdir or readdirplus record adds to the reply body:
/// for readdirplus, the resolved `EntryOut` precedes the packed dirent.
pub open spec fn spec_dirent_record(d: DirEntry, entry: Option<EntryOut>) -> Seq<u8> {
    (match entry {
        Some(e) => spec_entry_out_bytes(e),
        None => Seq::<u8>::empty(),
    }) + spec_padded_dirent(d)
}

/// Whether one record can be encoded on this platform: the name length
/// fits the dirent's 32-bit field and the padded record length fits
/// `usize`.
pub open spec fn spec_dirent_encodable(d: DirEntry, plus: bool) -> bool {
    &&& d.name@.len() <= u32::MAX
    &&& DIRENT_SIZE + d.name@.len() + 7 <= usize::MAX
    &&& (plus ==> ((DIRENT_SIZE + d.name@.len() + 7) / 8) * 8 + ENTRY_OUT_SIZE <= usize::MAX)
}

/// Serializes one directory entry (preceded by its `EntryOut` for
/// readdirplus) into the reply body. If fewer than the record's bytes
/// remain in the caller's budget, nothing is written and 0 is returned;
/// a name too large to encode fails with EOVERFLOW.
#[verifier::rlimit(100)]
pub fn add_dirent(cursor: &mut Writer, max: usize, d: &DirEntry, entry: Option<EntryOut>) -> (res:
    Result<usize, i32>)
    ensures
        spec_dirent_record(*d, entry).len() >= DIRENT_SIZE,
        ({
            let total = spec_dirent_record(*d, entry).len() as int;
            if !spec_dirent_encodable(*d, entry is Some) {
                res == Err::<usize, i32>(EOVERFLOW) && final(cursor).spec_buf() == old(
                    cursor,
                ).spec_buf()
            } else if max < total {
                res == Ok::<usize, i32>(0) && final(cursor).spec_buf() == old(cursor).spec_buf()
            } else {
                res == Ok::<usize, i32>(total as usize) && final(cursor).spec_buf() == old(
                    cursor,
                ).spec_buf() + spec_dirent_record(*d, entry)
            }
        }),
{
    proof {
        reveal(spec_padded_dirent);
        reveal(crate::fuse::sys::spec_dirent_bytes);
        assert(spec_dirent_record(*d, entry).len() >= DIRENT_SIZE);
    }
    let name_len = d.name.len();
    if name_len > u32::MAX as usize {
        return Err(EOVERFLOW);
    }

    let dirent_len = match DIRENT_SIZE.checked_add(name_len) {
        Some(x) => x,
        None => {
            return Err(EOVERFLOW);
        },
    };
    // Directory entries must be padded to 8-byte alignment. If adding 7
    // causes an overflow, this dirent cannot be properly padded.
    let padded_dirent_len = match dirent_len.checked_add(7) {
        Some(x) => (x / 8) * 8,
        None => {
            return Err(EOVERFLOW);
        },
    };
    let total_len = if entry.is_some() {
        match padded_dirent_len.checked_add(ENTRY_OUT_SIZE) {
            Some(x) => x,
            None => {
                return Err(EOVERFLOW);
            },
        }
    } else {
        padded_dirent_len
    };
    proof {
        assert(spec_dirent_record(*d, entry).len() == total_len) by {
            assert(spec_padded_dirent(*d).len() == padded_dirent_len);
        }
    }

    if max < total_len {
        Ok(0)
    } else {
        let ghost pre = cursor.spec_buf();
        if let Some(e) = entry {
            let mut ebytes: Vec<u8> = Vec::new();
            push_entry_out(&mut ebytes, e);
            cursor.write_all(ebytes.as_slice());
        }

        let dirent = Dirent {
            ino: d.ino,
            off: d.offset,
            namelen: name_len as u32,
            type_: d.type_,
        };
        let mut dbytes: Vec<u8> = Vec::new();
        push_dirent(&mut dbytes, dirent);
        cursor.write_all(dbytes.as_slice());
        cursor.write_all(d.name.as_slice());

        let padding = padded_dirent_len - dirent_len;
        let mut zeros: Vec<u8> = Vec::new();
        push_zeros(&mut zeros, padding);
        cursor.write_all(zeros.as_slice());

        proof {
            assert(cursor.spec_buf() =~= pre + spec_dirent_record(*d, entry));
        }
        Ok(total_len)
    }
}

/// The body a readdir reply packs from `es` under `budget` bytes: the
/// records of the longest prefix that fits, stopped at the first entry
/// that does not; or the overflow error of an entry no platform record
/// can encode, which discards the whole body.
pub open spec fn spec_pack_dirents(es: Seq<DirEntry>, budget: int) -> Result<Seq<u8>, i32>
    decreases es.len(),
{
    if es.len() == 0 {
        Ok(Seq::empty())
    } else if !spec_dirent_encodable(es[0], false) {
        Err(EOVERFLOW)
    } else {
        let rec = spec_dirent_record(es[0], None);
        if budget < rec.len() {
            Ok(Seq::empty())
        } else {
            match spec_pack_dirents(es.skip(1), budget - rec.len()) {
                Ok(rest) => Ok(rec + rest),
                Err(e) => Err(e),
            }
        }
    }
}

/// Packs directory entries into the reply body until the budget runs
/// out, exactly as `spec_pack_dirents` gives it.
pub fn pack_dirents(entries: &Vec<DirEntry>, size: u32, w: &mut Writer) -> (res: Result<
    usize,
    i32,
>)
    ensures
        match spec_pack_dirents(entries@, size as int) {
            Ok(body) => res == Ok::<usize, i32>(body.len() as usize) && final(w).spec_buf() == old(w).spec_buf() + body && body.len() <= size,
            Err(e) => res == Err::<usize, i32>(e) && final(w).spec_buf() == old(w).spec_buf(),
        },
{
    let start = w.len();
    let ghost start_buf = w.spec_buf();
    let ghost mut acc: Seq<u8> = Seq::empty();
    let mut total_written: usize = 0;
    let mut i: usize = 0;
    let mut full = false;
    proof {
        assert(entries@.skip(0) =~= entries@);
        assert(start_buf + acc =~= start_buf);
    }
    while i < entries.len() && !full
        invariant
            i <= entries@.len(),
            total_written <= size,
            acc.len() == total_written,
            start == start_buf.len(),
            start_buf == old(w).spec_buf(),
            w.spec_buf() == start_buf + acc,
            spec_pack_dirents(entries@, size as int) == (if full {
                Ok::<Seq<u8>, i32>(acc)
            } else {
                match spec_pack_dirents(entries@.skip(i as int), size - total_written) {
                    Ok(rest) => Ok::<Seq<u8>, i32>(acc + rest),
                    Err(e) => Err::<Seq<u8>, i32>(e),
                }
            }),
        decreases entries@.len() - i, (if full {
            0int
        } else {
            1int
        }),
    {
        let remaining = (size as usize) - total_written;
        let ghost pre = w.spec_buf();
        proof {
            assert(entries@.skip(i as int)[0] == entries@[i as int]);
            assert(entries@.skip(i as int).skip(1) =~= entries@.skip(i as int + 1));
        }
        match add_dirent(w, remaining, &entries[i], None) {
            Ok(n) => {
                if n == 0 {
                    // No more space left in the buffer.
                    proof {
                        assert(spec_pack_dirents(
                            entries@.skip(i as int),
                            size - total_written,
                        ) == Ok::<Seq<u8>, i32>(Seq::empty()));
                        assert(acc + Seq::<u8>::empty() =~= acc);
                    }
                    full = true;
                } else {
                    proof {
                        let rec = spec_dirent_record(entries@[i as int], None);
                        let b = size - total_written as int;
                        assert(spec_pack_dirents(entries@.skip(i as int), b) == (
                        match spec_pack_dirents(entries@.skip(i as int + 1), b - rec.len()) {
                            Ok(rest) => Ok::<Seq<u8>, i32>(rec + rest),
                            Err(e) => Err::<Seq<u8>, i32>(e),
                        }));
                        if spec_pack_dirents(entries@.skip(i as int + 1), b - rec.len()) is Ok {
                            let rest = spec_pack_dirents(
                                entries@.skip(i as int + 1),
                                b - rec.len(),
                            )->Ok_0;
                            assert(acc + (rec + rest) =~= (acc + rec) + rest);
                        }
                        acc = acc + rec;
                    }
                    total_written = total_written + n;
                    i = i + 1;
                }
            },
            Err(e) => {
                // A name this run cannot encode: discard the partial body
                // and report the error.
                proof {
                    assert(spec_pack_dirents(entries@.skip(i as int), size - total_written)
                        == Err::<Seq<u8>, i32>(EOVERFLOW));
                }
                w.truncate_to(start);
                proof {
                    assert(w.spec_buf() =~= start_buf);
                    assert(spec_pack_dirents(entries@, size as int) == Err::<Seq<u8>, i32>(
                        EOVERFLOW,
                    ));
                }
                return Err(e);
            },
        }
    }
    proof {
        if !full {
            assert(entries@.skip(entries@.len() as int) =~= Seq::<DirEntry>::empty());
        }
        assert(acc + Seq::<u8>::empty() =~= acc);
    }
    Ok(total_written)
}

/// The readdirplus reply body for the looked-up records `items`: each
/// entry's `EntryOut` followed by its packed dirent, in order.
pub open spec fn spec_plus_records(items: Seq<(DirEntry, EntryOut)>) -> Seq<u8>
    decreases items.len(),
{
    if items.len() == 0 {
        Seq::empty()
    } else {
        spec_dirent_record(items[0].0, Some(items[0].1)) + spec_plus_records(items.skip(1))
    }
}

#[verifier::rlimit(100)]
#[verifier::spinoff_prover]
proof fn lemma_plus_records_snoc(items: Seq<(DirEntry, EntryOut)>)
    requires
        items.len() >= 1,
    ensures
        spec_plus_records(items) == spec_plus_records(items.drop_last()) + spec_dirent_record(
            items.last().0,
            Some(items.last().1),
        ),
    decreases items.len(),
{
    if items.len() == 1 {
        assert(items.drop_last() =~= Seq::<(DirEntry, EntryOut)>::empty());
        assert(items.skip(1) =~= Seq::<(DirEntry, EntryOut)>::empty());
        assert(spec_plus_records(items.skip(1)) == Seq::<u8>::empty());
        assert(spec_plus_records(items) == spec_dirent_record(items[0].0, Some(items[0].1))
            + Seq::<u8>::empty());
        assert(spec_dirent_record(items[0].0, Some(items[0].1)) + Seq::<u8>::empty()
            =~= spec_dirent_record(items[0].0, Some(items[0].1)));
        assert(spec_plus_records(items.drop_last()) + spec_dirent_record(
            items.last().0,
            Some(items.last().1),
        ) =~= spec_dirent_record(items[0].0, Some(items[0].1)));
    } else {
        lemma_plus_records_snoc(items.skip(1));
        assert(items.skip(1).drop_last() =~= items.drop_last().skip(1));
        assert(spec_plus_records(items) == spec_dirent_record(items[0].0, Some(items[0].1))
            + spec_plus_records(items.skip(1)));
        assert(spec_plus_records(items.drop_last()) == spec_dirent_record(
            items[0].0,
            Some(items[0].1),
        ) + spec_plus_records(items.drop_last().skip(1)));
        assert(spec_plus_records(items) =~= spec_plus_records(items.drop_last())
            + spec_dirent_record(items.last().0, Some(items.last().1)));
    }
}

// These fuse features are supported by this server by default.
pub const SUPPORTED_INIT_FLAGS: u64 = ASYNC_READ | PARALLEL_DIROPS | BIG_WRITES | AUTO_INVAL_DATA
    | HANDLE_KILLPRIV | ASYNC_DIO | HAS_IOCTL_DIR | DO_READDIRPLUS | READDIRPLUS_AUTO
    | ATOMIC_O_TRUNC | MAX_PAGES | MAP_ALIGNMENT | INIT_EXT;

/// The option set granted to the guest: the intersection of what the
/// guest is capable of with what the backend wants or this server
/// supports, with two forced corrections: handle-kill-priv cannot be kept
/// alongside write-back caching, and atomic truncate-on-open cannot be
/// kept alongside zero-message opens.
pub open spec fn spec_enabled_options(capable: u64, want: u64) -> u64 {
    let enabled = capable & (want | SUPPORTED_INIT_FLAGS);
    let e1 = if enabled & WRITEBACK_CACHE != 0 {
        enabled & !HANDLE_KILLPRIV
    } else {
        enabled
    };
    if e1 & ZERO_MESSAGE_OPEN != 0 {
        e1 & !ATOMIC_O_TRUNC
    } else {
        e1
    }
}

/// The advertised page count: the larger of the readahead and write
/// limits in pages, capped at the 16-bit maximum.
pub open spec fn spec_max_pages(max_readahead: u32, max_write: u32) -> u16 {
    let m = if max_readahead > max_write {
        max_readahead
    } else {
        max_write
    };
    if m / PAGE_SIZE > 0xffff {
        0xffffu16
    } else {
        (m / PAGE_SIZE) as u16
    }
}

/// Computes the option set granted to the guest from what it offered and
/// what the backend wants.
pub fn negotiate_options(capable: u64, want: u64) -> (r: u64)
    ensures
        r == spec_enabled_options(capable, want),
{
    let enabled = capable & (want | SUPPORTED_INIT_FLAGS);
    // HANDLE_KILLPRIV does not work correctly when writeback caching is
    // enabled, so turn it off.
    let enabled = if enabled & WRITEBACK_CACHE != 0 {
        enabled & !HANDLE_KILLPRIV
    } else {
        enabled
    };
    // ATOMIC_O_TRUNC does not work with ZERO_MESSAGE_OPEN.
    if enabled & ZERO_MESSAGE_OPEN != 0 {
        enabled & !ATOMIC_O_TRUNC
    } else {
        enabled
    }
}

/// Computes the page count advertised at init time.
pub fn advertised_max_pages(max_readahead: u32, max_write: u32) -> (r: u16)
    ensures
        r == spec_max_pages(max_readahead, max_write),
{
    let m = if max_readahead > max_write {
        max_readahead
    } else {
        max_write
    };
    if m / PAGE_SIZE > 0xffff {
        0xffff
    } else {
        (m / PAGE_SIZE) as u16
    }
}

/// The init reply sent when negotiation reaches the backend: the
/// server's versions, the granted options, and the advertised limits.
pub open spec fn spec_negotiated_init_out(
    capable: u64,
    want: u64,
    max_readahead: u32,
    max_write: u32,
) -> InitOut {
    let enabled = spec_enabled_options(capable, want);
    InitOut {
        major: KERNEL_VERSION,
        minor: KERNEL_MINOR_VERSION,
        max_readahead,
        flags: enabled as u32,
        max_background: 0xffff,
        congestion_threshold: (((0xffffu16 / 4) * 3) as u16),
        max_write,
        time_gran: 1,
        max_pages: spec_max_pages(max_readahead, max_write),
        map_alignment: 12,
        flags2: (enabled >> 32) as u32,
    }
}

pub struct Server<F: FileSystem> {
    fs: F,
}

impl<F: FileSystem> Server<F> {
    /// The backend this server delegates to.
    pub closed spec fn spec_fs(&self) -> F {
        self.fs
    }

    pub fn new(fs: F) -> (r: Server<F>)
        ensures
            r.spec_fs() == fs,
    {
        Server { fs }
    }

    /// The backend this server delegates to.
    pub fn filesystem(&self) -> (r: &F)
        ensures
            *r == self.spec_fs(),
    {
        &self.fs
    }

    /// Consumes exactly one request from `r` and appends exactly one
    /// reply to `w` (none for the reply-less operations). A request too
    /// short for its envelope fails; an envelope that claims more than
    /// the worst-case body plus the backend's buffer is answered with
    /// ENOMEM before any further parsing bounds allocation; an unknown
    /// opcode is answered with ENOSYS. Each handler's own contract pins
    /// the checked-subtraction rejection of a length field that claims
    /// fewer bytes than its envelope and fixed body, so no length
    /// arithmetic can wrap and no backend method sees a malformed
    /// length.
    #[verifier::rlimit(100)]
    #[verifier::spinoff_prover]
    pub fn handle_message(&self, r: &mut Reader, w: &mut Writer, mapper: &dyn Mapper) -> (res:
        Result<usize, Error>)
        requires
            old(r).wf(),
        ensures
            final(r).wf(),
            spec_appended(old(w).spec_buf(), final(w).spec_buf()),
            ({
                let b = old(r).spec_buf();
                let p = old(r).pos as int;
                if b.len() - p < IN_HEADER_SIZE {
                    res == Err::<usize, Error>(Error::DecodeMessage) && final(w).spec_buf() == old(w).spec_buf()
                } else {
                    let h = spec_in_header(b, p);
                    let bound = IN_HEADER_SIZE + WRITE_IN_SIZE
                        + self.spec_fs().spec_max_buffer_size();
                    &&& ((h.len as int) > bound ==> final(w).spec_buf() == old(w).spec_buf()
                        + spec_err_reply(ENOMEM, h.unique) && res == Ok::<usize, Error>(
                        OUT_HEADER_SIZE,
                    ))
                    &&& ((h.len as int) <= bound && (forall|op: Opcode|
                        opcode_value(op) != h.opcode) ==> final(w).spec_buf() == old(w).spec_buf()
                        + spec_err_reply(ENOSYS, h.unique) && res == Ok::<usize, Error>(
                        OUT_HEADER_SIZE,
                    ))
                    &&& spec_replied(old(w).spec_buf(), final(w).spec_buf(), h.unique)
                    &&& ((h.len as int) <= bound && (h.opcode == opcode_value(Opcode::Forget)
                        || h.opcode == opcode_value(Opcode::Interrupt) || h.opcode
                        == opcode_value(Opcode::Destroy)) ==> final(w).spec_buf() == old(w).spec_buf())
                }
            }),
    {
        let in_header: InHeader = match r.read_in_header() {
            Ok(h) => h,
            Err(e) => {
                return Err(e);
            },
        };

        // Bound memory allocation from the attacker-controlled length
        // field before any further parsing.
        if (in_header.len as u64) > (IN_HEADER_SIZE + WRITE_IN_SIZE) as u64 + (
        self.fs.max_buffer_size() as u64) {
            return reply_error(ENOMEM, in_header.unique, w);
        }
        match Opcode::n(in_header.opcode) {
            Some(Opcode::Lookup) => self.lookup(in_header, r, w),
            Some(Opcode::Forget) => self.forget(in_header, r),  // No reply.
            Some(Opcode::Getattr) => self.getattr(in_header, r, w),
            Some(Opcode::Setattr) => self.setattr(in_header, r, w),
            Some(Opcode::Readlink) => self.readlink(in_header, w),
            Some(Opcode::Symlink) => self.symlink(in_header, r, w),
            Some(Opcode::Mknod) => self.mknod(in_header, r, w),
            Some(Opcode::Mkdir) => self.mkdir(in_header, r, w),
            Some(Opcode::Unlink) => self.unlink(in_header, r, w),
            Some(Opcode::Rmdir) => self.rmdir(in_header, r, w),
            Some(Opcode::Rename) => self.rename(in_header, r, w),
            Some(Opcode::Link) => self.link(in_header, r, w),
            Some(Opcode::Open) => self.open(in_header, r, w),
            Some(Opcode::Read) => self.read(in_header, r, w),
            Some(Opcode::Write) => self.write(in_header, r, w),
            Some(Opcode::Statfs) => self.statfs(in_header, w),
            Some(Opcode::Release) => self.release(in_header, r, w),
            Some(Opcode::Fsync) => self.fsync(in_header, r, w),
            Some(Opcode::Setxattr) => self.setxattr(in_header, r, w),
            Some(Opcode::Getxattr) => self.getxattr(in_header, r, w),
            Some(Opcode::Listxattr) => self.listxattr(in_header, r, w),
            Some(Opcode::Removexattr) => self.removexattr(in_header, r, w),
            Some(Opcode::Flush) => self.flush(in_header, r, w),
            Some(Opcode::Init) => self.init(in_header, r, w),
            Some(Opcode::Opendir) => self.opendir(in_header, r, w),
            Some(Opcode::Readdir) => self.readdir(in_header, r, w),
            Some(Opcode::Releasedir) => self.releasedir(in_header, r, w),
            Some(Opcode::Fsyncdir) => self.fsyncdir(in_header, r, w),
            Some(Opcode::Getlk) => self.getlk(in_header, w),
            Some(Opcode::Setlk) => self.setlk(in_header, w),
            Some(Opcode::Setlkw) => self.setlkw(in_header, w),
            Some(Opcode::Access) => self.access(in_header, r, w),
            Some(Opcode::Create) => self.create(in_header, r, w),
            Some(Opcode::Interrupt) => self.interrupt(in_header),
            Some(Opcode::Bmap) => self.bmap(in_header, w),
            Some(Opcode::Destroy) => self.destroy(),
            Some(Opcode::Ioctl) => self.ioctl(in_header, r, w),
            Some(Opcode::Poll) => self.poll(in_header, w),
            Some(Opcode::NotifyReply) => self.notify_reply(in_header, w),
            Some(Opcode::BatchForget) => self.batch_forget(in_header, r, w),
            Some(Opcode::Fallocate) => self.fallocate(in_header, r, w),
            Some(Opcode::Readdirplus) => self.readdirplus(in_header, r, w),
            Some(Opcode::Rename2) => self.rename2(in_header, r, w),
            Some(Opcode::Lseek) => self.lseek(in_header, w),
            Some(Opcode::CopyFileRange) => self.copy_file_range(in_header, r, w),
            Some(Opcode::ChromeOsTmpfile) => self.chromeos_tmpfile(in_header, r, w),
            Some(Opcode::SetUpMapping) => self.set_up_mapping(in_header, r, w, mapper),
            Some(Opcode::RemoveMapping) => self.remove_mapping(in_header, r, w, mapper),
            Some(Opcode::OpenAtomic) => self.open_atomic(in_header, r, w),
            None => reply_error(ENOSYS, in_header.unique, w),
        }
    }

    #[verifier::rlimit(100)]
    pub fn lookup(&self, in_header: InHeader, r: &mut Reader, w: &mut Writer) -> (res: Result<
        usize,
        Error,
    >)
        requires
            old(r).wf(),
        ensures
            final(r).wf(),
            spec_appended(old(w).spec_buf(), final(w).spec_buf()),
            res is Ok ==> spec_some_reply(old(w).spec_buf(), final(w).spec_buf(), in_header.unique),
            res is Err ==> final(w).spec_buf() == old(w).spec_buf(),
            ({
                let b = old(r).spec_buf();
                let p = old(r).pos as int;
                let namelen = in_header.len - IN_HEADER_SIZE;
                &&& (res == Err::<usize, Error>(Error::InvalidHeaderLength) <==> in_header.len
                    < IN_HEADER_SIZE)
                &&& (res == Err::<usize, Error>(Error::DecodeMessage) <==> in_header.len
                    >= IN_HEADER_SIZE && b.len() - p < namelen)
                &&& (res == Err::<usize, Error>(Error::InvalidCString) <==> in_header.len
                    >= IN_HEADER_SIZE && b.len() - p >= namelen && !spec_valid_cstr(
                    b.subrange(p, p + namelen),
                ))
                &&& (in_header.len >= IN_HEADER_SIZE && b.len() - p >= namelen
                    && spec_valid_cstr(b.subrange(p, p + namelen)) ==> res is Ok)
            }),
    {
        let namelen = match (in_header.len as usize).checked_sub(IN_HEADER_SIZE) {
            Some(n) => n,
            None => {
                return Err(Error::InvalidHeaderLength);
            },
        };

        let buf = match r.read_exact_vec(namelen) {
            Ok(b) => b,
            Err(e) => {
                return Err(e);
            },
        };

        let name = match bytes_to_cstr(buf.as_slice()) {
            Ok(n) => n,
            Err(e) => {
                return Err(e);
            },
        };

        match self.fs.lookup(Context::from(in_header), in_header.nodeid, &name) {
            Ok(entry) => {
                let out = entry_out_vec(entry);
                reply_ok(Some(&out), None, in_header.unique, w)
            },
            Err(e) => reply_error(e, in_header.unique, w),
        }
    }

    pub fn forget(&self, in_header: InHeader, r: &mut Reader) -> (res: Result<usize, Error>)
        requires
            old(r).wf(),
        ensures
            final(r).wf(),
            res is Err <==> old(r).spec_remaining() < FORGET_IN_SIZE,
            res is Err ==> res == Err::<usize, Error>(Error::DecodeMessage),
            res is Ok ==> res == Ok::<usize, Error>(0),
    {
        let f = match r.read_forget_in() {
            Ok(f) => f,
            Err(e) => {
                return Err(e);
            },
        };

        self.fs.forget(Context::from(in_header), in_header.nodeid, f.nlookup);

        // There is no reply for forget messages.
        Ok(0)
    }

    #[verifier::rlimit(100)]
    pub fn getattr(&self, in_header: InHeader, r: &mut Reader, w: &mut Writer) -> (res: Result<
        usize,
        Error,
    >)
        requires
            old(r).wf(),
        ensures
            final(r).wf(),
            spec_appended(old(w).spec_buf(), final(w).spec_buf()),
            res is Ok ==> spec_some_reply(old(w).spec_buf(), final(w).spec_buf(), in_header.unique),
            res is Err <==> old(r).spec_remaining() < GETATTR_IN_SIZE,
            res is Err ==> res == Err::<usize, Error>(Error::DecodeMessage) && final(w).spec_buf()
                == old(w).spec_buf(),
    {
        let g = match r.read_getattr_in() {
            Ok(g) => g,
            Err(e) => {
                return Err(e);
            },
        };

        let handle: Option<u64> = if (g.flags & GETATTR_FH) != 0 {
            Some(g.fh)
        } else {
            None
        };

        match self.fs.getattr(Context::from(in_header), in_header.nodeid, handle) {
            Ok((st, timeout_sec, timeout_nsec)) => {
                let out = AttrOut {
                    attr_valid: timeout_sec,
                    attr_valid_nsec: timeout_nsec,
                    dummy: 0,
                    attr: st,
                };
                let mut ov: Vec<u8> = Vec::new();
                push_attr_out(&mut ov, out);
                reply_ok(Some(&ov), None, in_header.unique, w)
            },
            Err(e) => reply_error(e, in_header.unique, w),
        }
    }

    #[verifier::rlimit(100)]
    pub fn setattr(&self, in_header: InHeader, r: &mut Reader, w: &mut Writer) -> (res: Result<
        usize,
        Error,
    >)
        requires
            old(r).wf(),
        ensures
            final(r).wf(),
            spec_appended(old(w).spec_buf(), final(w).spec_buf()),
            res is Ok ==> spec_some_reply(old(w).spec_buf(), final(w).spec_buf(), in_header.unique),
            res is Err <==> old(r).spec_remaining() < SETATTR_IN_SIZE,
            res is Err ==> res == Err::<usize, Error>(Error::DecodeMessage) && final(w).spec_buf()
                == old(w).spec_buf(),
    {
        let setattr_in = match r.read_setattr_in() {
            Ok(s) => s,
            Err(e) => {
                return Err(e);
            },
        };

        let handle: Option<u64> = if setattr_in.valid & FATTR_FH != 0 {
            Some(setattr_in.fh)
        } else {
            None
        };

        let attr = Attr {
            ino: in_header.nodeid,
            size: setattr_in.size,
            blocks: 0,
            atime: setattr_in.atime,
            mtime: setattr_in.mtime,
            ctime: setattr_in.ctime,
            atimensec: setattr_in.atimensec,
            mtimensec: setattr_in.mtimensec,
            ctimensec: setattr_in.ctimensec,
            mode: setattr_in.mode,
            nlink: 0,
            uid: setattr_in.uid,
            gid: setattr_in.gid,
            rdev: 0,
            blksize: 0,
            flags: 0,
        };

        match self.fs.setattr(
            Context::from(in_header),
            in_header.nodeid,
            attr,
            handle,
            setattr_in.valid,
        ) {
            Ok((st, timeout_sec, timeout_nsec)) => {
                let out = AttrOut {
                    attr_valid: timeout_sec,
                    attr_valid_nsec: timeout_nsec,
                    dummy: 0,
                    attr: st,
                };
                let mut ov: Vec<u8> = Vec::new();
                push_attr_out(&mut ov, out);
                reply_ok(Some(&ov), None, in_header.unique, w)
            },
            Err(e) => reply_error(e, in_header.unique, w),
        }
    }

    #[verifier::rlimit(100)]
    pub fn readlink(&self, in_header: InHeader, w: &mut Writer) -> (res: Result<usize, Error>)
        ensures
            spec_appended(old(w).spec_buf(), final(w).spec_buf()),
            res is Ok ==> spec_some_reply(old(w).spec_buf(), final(w).spec_buf(), in_header.unique),
            res is Err ==> final(w).spec_buf() == old(w).spec_buf(),
    {
        match self.fs.readlink(Context::from(in_header), in_header.nodeid) {
            Ok(linkname) => reply_ok(None, Some(linkname.as_slice()), in_header.unique, w),
            Err(e) => reply_error(e, in_header.unique, w),
        }
    }

    #[verifier::rlimit(100)]
    pub fn symlink(&self, in_header: InHeader, r: &mut Reader, w: &mut Writer) -> (res: Result<
        usize,
        Error,
    >)
        requires
            old(r).wf(),
        ensures
            final(r).wf(),
            spec_appended(old(w).spec_buf(), final(w).spec_buf()),
            res is Ok ==> spec_some_reply(old(w).spec_buf(), final(w).spec_buf(), in_header.unique),
            res is Err ==> final(w).spec_buf() == old(w).spec_buf(),
            ({
                let b = old(r).spec_buf();
                let p = old(r).pos as int;
                let buflen = in_header.len - IN_HEADER_SIZE;
                &&& (in_header.len < IN_HEADER_SIZE ==> res == Err::<usize, Error>(
                    Error::InvalidHeaderLength,
                ))
                &&& (in_header.len >= IN_HEADER_SIZE && b.len() - p < buflen ==> res == Err::<
                    usize,
                    Error,
                >(Error::DecodeMessage))
                &&& (in_header.len >= IN_HEADER_SIZE && b.len() - p >= buflen ==> (
                match spec_two_names_secctx_check(b.subrange(p, p + buflen)) {
                    Ok(_) => res is Ok,
                    Err(e) => res == Err::<usize, Error>(e),
                }))
            }),
    {
        // The name and linkname are encoded one after another and
        // separated by a nul character.
        let len = match (in_header.len as usize).checked_sub(IN_HEADER_SIZE) {
            Some(n) => n,
            None => {
                return Err(Error::InvalidHeaderLength);
            },
        };
        let buf = match r.read_exact_vec(len) {
            Ok(b) => b,
            Err(e) => {
                return Err(e);
            },
        };

        let n1 = match find_first_nul(buf.as_slice(), 0) {
            Some(n) => n,
            None => {
                return Err(if buf.len() == 0 {
                    Error::MissingParameter
                } else {
                    Error::InvalidCString
                });
            },
        };
        let name = vstd::slice::slice_to_vec(vstd::slice::slice_subrange(buf.as_slice(), 0, n1));
        let n2 = match find_first_nul(buf.as_slice(), n1 + 1) {
            Some(n) => n,
            None => {
                return Err(if n1 + 1 >= buf.len() {
                    Error::MissingParameter
                } else {
                    Error::InvalidCString
                });
            },
        };
        let linkname = vstd::slice::slice_to_vec(
            vstd::slice::slice_subrange(buf.as_slice(), n1 + 1, n2),
        );

        let split_pos = n2 + 1;
        let security_ctx = match parse_selinux_xattr(
            vstd::slice::slice_subrange(buf.as_slice(), split_pos, buf.len()),
        ) {
            Ok(s) => s,
            Err(e) => {
                return Err(e);
            },
        };

        match self.fs.symlink(
            Context::from(in_header),
            &linkname,
            in_header.nodeid,
            &name,
            security_ctx,
        ) {
            Ok(entry) => {
                let out = entry_out_vec(entry);
                reply_ok(Some(&out), None, in_header.unique, w)
            },
            Err(e) => reply_error(e, in_header.unique, w),
        }
    }
}


impl Writer {
    /// Discards everything past `n`, rolling an abandoned partial body
    /// back before an error reply replaces it.
    pub fn truncate_to(&mut self, n: usize)
        requires
            n <= old(self).spec_buf().len(),
        ensures
            final(self).spec_buf() == old(self).spec_buf().subrange(0, n as int),
    {
        self.buf.truncate(n);
        proof {
            assert(self.buf@ =~= old(self).spec_buf().subrange(0, n as int));
        }
    }
}

/// Backfills a readdir-style reply header over the bytes reserved at
/// `start` once the body length is known.
fn reply_readdir(len: usize, unique: u64, start: usize, w: &mut Writer) -> (res: Result<
    usize,
    Error,
>)
    requires
        start + OUT_HEADER_SIZE <= old(w).spec_buf().len(),
        len == old(w).spec_buf().len() - start - OUT_HEADER_SIZE,
    ensures
        final(w).spec_buf() == old(w).spec_buf().subrange(0, start as int) + spec_ok_reply(
            old(w).spec_buf().skip(start + OUT_HEADER_SIZE),
            unique,
        ),
        res is Ok,
{
    let out = OutHeader {
        len: #[verifier::truncate] (((OUT_HEADER_SIZE as u128) + (len as u128)) as u32),
        error: 0,
        unique,
    };
    proof {
        assert(out.len == (OUT_HEADER_SIZE + len) as u32);
    }
    w.write_out_header_at(start, out);
    proof {
        assert(final(w).spec_buf() =~= old(w).spec_buf().subrange(0, start as int) + spec_ok_reply(
            old(w).spec_buf().skip(start + OUT_HEADER_SIZE),
            unique,
        ));
    }
    Ok((#[verifier::truncate] (((OUT_HEADER_SIZE as u128) + (len as u128)) as u32)) as usize)
}

fn retry_ioctl(unique: u64, input: Vec<IoctlIovec>, output: Vec<IoctlIovec>, w: &mut Writer) -> (res:
    Result<usize, Error>)
    ensures
        spec_appended(old(w).spec_buf(), final(w).spec_buf()),
        res is Ok ==> spec_some_reply(old(w).spec_buf(), final(w).spec_buf(), unique),
        res is Err ==> final(w).spec_buf() == old(w).spec_buf() && (res->Err_0 matches
            Error::TooManyIovecs(_, _)),
{
    // An overflow in this sum would require more iovec structures than
    // memory can hold.
    if input.len() > IOCTL_MAX_IOV || output.len() > IOCTL_MAX_IOV - input.len() {
        let total = match input.len().checked_add(output.len()) {
            Some(t) => t,
            None => usize::MAX,
        };
        return Err(Error::TooManyIovecs(total, IOCTL_MAX_IOV));
    }

    let out = IoctlOut {
        result: 0,
        flags: IOCTL_RETRY,
        in_iovs: input.len() as u32,
        out_iovs: output.len() as u32,
    };
    let mut payload: Vec<u8> = Vec::new();
    push_ioctl_out(&mut payload, out);
    let mut i: usize = 0;
    while i < input.len()
        invariant
            i <= input@.len(),
            input@.len() <= IOCTL_MAX_IOV,
            payload@.len() == IOCTL_OUT_SIZE + i * IOCTL_IOVEC_SIZE,
        decreases input@.len() - i,
    {
        push_ioctl_iovec(&mut payload, input[i]);
        i = i + 1;
    }
    let mut j: usize = 0;
    while j < output.len()
        invariant
            j <= output@.len(),
            input@.len() <= IOCTL_MAX_IOV,
            output@.len() <= IOCTL_MAX_IOV,
            payload@.len() == IOCTL_OUT_SIZE + input@.len() * IOCTL_IOVEC_SIZE + j
                * IOCTL_IOVEC_SIZE,
        decreases output@.len() - j,
    {
        push_ioctl_iovec(&mut payload, output[j]);
        j = j + 1;
    }
    reply_ok(Some(&payload), None, unique, w)
}

fn finish_ioctl(unique: u64, res: Result<Vec<u8>, i32>, w: &mut Writer) -> (r: Result<
    usize,
    Error,
>)
    ensures
        spec_appended(old(w).spec_buf(), final(w).spec_buf()),
        r is Ok,
        spec_some_reply(old(w).spec_buf(), final(w).spec_buf(), unique),
{
    match res {
        Ok(data) => {
            let out = IoctlOut { result: 0, flags: 0, in_iovs: 0, out_iovs: 0 };
            let mut ov: Vec<u8> = Vec::new();
            push_ioctl_out(&mut ov, out);
            reply_ok(Some(&ov), Some(data.as_slice()), unique, w)
        },
        Err(e) => {
            let neg: i32 = if e == i32::MIN {
                i32::MIN
            } else {
                -e
            };
            let out = IoctlOut { result: neg, flags: 0, in_iovs: 0, out_iovs: 0 };
            let mut ov: Vec<u8> = Vec::new();
            push_ioctl_out(&mut ov, out);
            reply_ok(Some(&ov), None, unique, w)
        },
    }
}

impl<F: FileSystem> Server<F> {
    #[verifier::rlimit(100)]
    pub fn mknod(&self, in_header: InHeader, r: &mut Reader, w: &mut Writer) -> (res: Result<
        usize,
        Error,
    >)
        requires
            old(r).wf(),
        ensures
            final(r).wf(),
            spec_appended(old(w).spec_buf(), final(w).spec_buf()),
            ({
                let b = old(r).spec_buf();
                let p = old(r).pos as int;
                let buflen = in_header.len - IN_HEADER_SIZE - MKNOD_IN_SIZE;
                let bstart = p + MKNOD_IN_SIZE;
                &&& (b.len() - p < MKNOD_IN_SIZE ==> res == Err::<usize, Error>(
                    Error::DecodeMessage,
                ))
                &&& (b.len() - p >= MKNOD_IN_SIZE && in_header.len < IN_HEADER_SIZE + MKNOD_IN_SIZE ==> res
                    == Err::<usize, Error>(Error::InvalidHeaderLength))
                &&& (b.len() - p >= MKNOD_IN_SIZE && in_header.len >= IN_HEADER_SIZE + MKNOD_IN_SIZE && b.len()
                    - bstart < buflen ==> res == Err::<usize, Error>(Error::DecodeMessage))
                &&& (b.len() - p >= MKNOD_IN_SIZE && in_header.len >= IN_HEADER_SIZE + MKNOD_IN_SIZE
                    && b.len() - bstart >= buflen ==> (
                    match spec_name_secctx_check(b.subrange(bstart, bstart + buflen)) {
                        Ok(_) => res is Ok,
                        Err(e) => res == Err::<usize, Error>(e),
                    }
                ))
            }),
            res is Ok ==> spec_some_reply(old(w).spec_buf(), final(w).spec_buf(), in_header.unique),
            res is Err ==> final(w).spec_buf() == old(w).spec_buf(),
    {
        let m = match r.read_mknod_in() {
            Ok(m) => m,
            Err(e) => {
                return Err(e);
            },
        };
        let buflen = match (in_header.len as usize).checked_sub(IN_HEADER_SIZE) {
            Some(n) => match n.checked_sub(MKNOD_IN_SIZE) {
                Some(n2) => n2,
                None => {
                    return Err(Error::InvalidHeaderLength);
                },
            },
            None => {
                return Err(Error::InvalidHeaderLength);
            },
        };
        let buf = match r.read_exact_vec(buflen) {
            Ok(b) => b,
            Err(e) => {
                return Err(e);
            },
        };

        let n1 = match find_first_nul(buf.as_slice(), 0) {
            Some(n) => n,
            None => {
                return Err(if buf.len() == 0 {
                    Error::MissingParameter
                } else {
                    Error::InvalidCString
                });
            },
        };
        let name = vstd::slice::slice_to_vec(vstd::slice::slice_subrange(buf.as_slice(), 0, n1));
        let security_ctx = match parse_selinux_xattr(
            vstd::slice::slice_subrange(buf.as_slice(), n1 + 1, buf.len()),
        ) {
            Ok(s) => s,
            Err(e) => {
                return Err(e);
            },
        };

        match self.fs.mknod(
            Context::from(in_header),
            in_header.nodeid,
            &name,
            m.mode,
            m.rdev,
            m.umask,
            security_ctx,
        ) {
            Ok(entry) => {
                let out = entry_out_vec(entry);
                reply_ok(Some(&out), None, in_header.unique, w)
            },
            Err(e) => reply_error(e, in_header.unique, w),
        }
    }

    #[verifier::rlimit(100)]
    pub fn mkdir(&self, in_header: InHeader, r: &mut Reader, w: &mut Writer) -> (res: Result<
        usize,
        Error,
    >)
        requires
            old(r).wf(),
        ensures
            final(r).wf(),
            spec_appended(old(w).spec_buf(), final(w).spec_buf()),
            ({
                let b = old(r).spec_buf();
                let p = old(r).pos as int;
                let buflen = in_header.len - IN_HEADER_SIZE - MKDIR_IN_SIZE;
                let bstart = p + MKDIR_IN_SIZE;
                &&& (b.len() - p < MKDIR_IN_SIZE ==> res == Err::<usize, Error>(
                    Error::DecodeMessage,
                ))
                &&& (b.len() - p >= MKDIR_IN_SIZE && in_header.len < IN_HEADER_SIZE + MKDIR_IN_SIZE ==> res
                    == Err::<usize, Error>(Error::InvalidHeaderLength))
                &&& (b.len() - p >= MKDIR_IN_SIZE && in_header.len >= IN_HEADER_SIZE + MKDIR_IN_SIZE && b.len()
                    - bstart < buflen ==> res == Err::<usize, Error>(Error::DecodeMessage))
                &&& (b.len() - p >= MKDIR_IN_SIZE && in_header.len >= IN_HEADER_SIZE + MKDIR_IN_SIZE
                    && b.len() - bstart >= buflen ==> (
                    match spec_name_secctx_check(b.subrange(bstart, bstart + buflen)) {
                        Ok(_) => res is Ok,
                        Err(e) => res == Err::<usize, Error>(e),
                    }
                ))
            }),
            res is Ok ==> spec_some_reply(old(w).spec_buf(), final(w).spec_buf(), in_header.unique),
            res is Err ==> final(w).spec_buf() == old(w).spec_buf(),
    {
        let m = match r.read_mkdir_in() {
            Ok(m) => m,
            Err(e) => {
                return Err(e);
            },
        };
        let buflen = match (in_header.len as usize).checked_sub(IN_HEADER_SIZE) {
            Some(n) => match n.checked_sub(MKDIR_IN_SIZE) {
                Some(n2) => n2,
                None => {
                    return Err(Error::InvalidHeaderLength);
                },
            },
            None => {
                return Err(Error::InvalidHeaderLength);
            },
        };
        let buf = match r.read_exact_vec(buflen) {
            Ok(b) => b,
            Err(e) => {
                return Err(e);
            },
        };

        let n1 = match find_first_nul(buf.as_slice(), 0) {
            Some(n) => n,
            None => {
                return Err(if buf.len() == 0 {
                    Error::MissingParameter
                } else {
                    Error::InvalidCString
                });
            },
        };
        let name = vstd::slice::slice_to_vec(vstd::slice::slice_subrange(buf.as_slice(), 0, n1));
        let security_ctx = match parse_selinux_xattr(
            vstd::slice::slice_subrange(buf.as_slice(), n1 + 1, buf.len()),
        ) {
            Ok(s) => s,
            Err(e) => {
                return Err(e);
            },
        };

        match self.fs.mkdir(
            Context::from(in_header),
            in_header.nodeid,
            &name,
            m.mode,
            m.umask,
            security_ctx,
        ) {
            Ok(entry) => {
                let out = entry_out_vec(entry);
                reply_ok(Some(&out), None, in_header.unique, w)
            },
            Err(e) => reply_error(e, in_header.unique, w),
        }
    }

    #[verifier::rlimit(100)]
    pub fn chromeos_tmpfile(&self, in_header: InHeader, r: &mut Reader, w: &mut Writer) -> (res: Result<
        usize,
        Error,
    >)
        requires
            old(r).wf(),
        ensures
            final(r).wf(),
            spec_appended(old(w).spec_buf(), final(w).spec_buf()),
            ({
                let b = old(r).spec_buf();
                let p = old(r).pos as int;
                let buflen = in_header.len - IN_HEADER_SIZE - CHROME_OS_TMPFILE_IN_SIZE;
                let bstart = p + CHROME_OS_TMPFILE_IN_SIZE;
                &&& (b.len() - p < CHROME_OS_TMPFILE_IN_SIZE ==> res == Err::<usize, Error>(
                    Error::DecodeMessage,
                ))
                &&& (b.len() - p >= CHROME_OS_TMPFILE_IN_SIZE && in_header.len < IN_HEADER_SIZE + CHROME_OS_TMPFILE_IN_SIZE ==> res
                    == Err::<usize, Error>(Error::InvalidHeaderLength))
                &&& (b.len() - p >= CHROME_OS_TMPFILE_IN_SIZE && in_header.len >= IN_HEADER_SIZE + CHROME_OS_TMPFILE_IN_SIZE && b.len()
                    - bstart < buflen ==> res == Err::<usize, Error>(Error::DecodeMessage))
                &&& (b.len() - p >= CHROME_OS_TMPFILE_IN_SIZE && in_header.len >= IN_HEADER_SIZE + CHROME_OS_TMPFILE_IN_SIZE
                    && b.len() - bstart >= buflen ==> (
                    match spec_parse_selinux(b.subrange(bstart, bstart + buflen)) {
                        Ok(_) => res is Ok,
                        Err(e) => res == Err::<usize, Error>(e),
                    }
                ))
            }),
            res is Ok ==> spec_some_reply(old(w).spec_buf(), final(w).spec_buf(), in_header.unique),
            res is Err ==> final(w).spec_buf() == old(w).spec_buf(),
    {
        let m = match r.read_chrome_os_tmpfile_in() {
            Ok(m) => m,
            Err(e) => {
                return Err(e);
            },
        };
        let buflen = match (in_header.len as usize).checked_sub(IN_HEADER_SIZE) {
            Some(n) => match n.checked_sub(CHROME_OS_TMPFILE_IN_SIZE) {
                Some(n2) => n2,
                None => {
                    return Err(Error::InvalidHeaderLength);
                },
            },
            None => {
                return Err(Error::InvalidHeaderLength);
            },
        };
        let buf = match r.read_exact_vec(buflen) {
            Ok(b) => b,
            Err(e) => {
                return Err(e);
            },
        };

        let security_ctx = match parse_selinux_xattr(buf.as_slice()) {
            Ok(s) => s,
            Err(e) => {
                return Err(e);
            },
        };

        match self.fs.chromeos_tmpfile(
            Context::from(in_header),
            in_header.nodeid,
            m.mode,
            m.umask,
            security_ctx,
        ) {
            Ok(entry) => {
                let out = entry_out_vec(entry);
                reply_ok(Some(&out), None, in_header.unique, w)
            },
            Err(e) => reply_error(e, in_header.unique, w),
        }
    }

    pub fn unlink(&self, in_header: InHeader, r: &mut Reader, w: &mut Writer) -> (res: Result<
        usize,
        Error,
    >)
        requires
            old(r).wf(),
        ensures
            final(r).wf(),
            spec_appended(old(w).spec_buf(), final(w).spec_buf()),
            res is Ok ==> spec_some_reply(old(w).spec_buf(), final(w).spec_buf(), in_header.unique),
            res is Err ==> final(w).spec_buf() == old(w).spec_buf(),
            ({
                let b = old(r).spec_buf();
                let p = old(r).pos as int;
                let namelen = in_header.len - IN_HEADER_SIZE;
                &&& (res == Err::<usize, Error>(Error::InvalidHeaderLength) <==> in_header.len
                    < IN_HEADER_SIZE)
                &&& (res == Err::<usize, Error>(Error::DecodeMessage) <==> in_header.len
                    >= IN_HEADER_SIZE && b.len() - p < namelen)
                &&& (res == Err::<usize, Error>(Error::InvalidCString) <==> in_header.len
                    >= IN_HEADER_SIZE && b.len() - p >= namelen && !spec_valid_cstr(
                    b.subrange(p, p + namelen),
                ))
                &&& (in_header.len >= IN_HEADER_SIZE && b.len() - p >= namelen
                    && spec_valid_cstr(b.subrange(p, p + namelen)) ==> res is Ok)
            }),
    {
        let namelen = match (in_header.len as usize).checked_sub(IN_HEADER_SIZE) {
            Some(n) => n,
            None => {
                return Err(Error::InvalidHeaderLength);
            },
        };
        let buf = match r.read_exact_vec(namelen) {
            Ok(b) => b,
            Err(e) => {
                return Err(e);
            },
        };
        let name = match bytes_to_cstr(buf.as_slice()) {
            Ok(n) => n,
            Err(e) => {
                return Err(e);
            },
        };

        match self.fs.unlink(Context::from(in_header), in_header.nodeid, &name) {
            Ok(()) => reply_ok(None, None, in_header.unique, w),
            Err(e) => reply_error(e, in_header.unique, w),
        }
    }

    pub fn rmdir(&self, in_header: InHeader, r: &mut Reader, w: &mut Writer) -> (res: Result<
        usize,
        Error,
    >)
        requires
            old(r).wf(),
        ensures
            final(r).wf(),
            spec_appended(old(w).spec_buf(), final(w).spec_buf()),
            res is Ok ==> spec_some_reply(old(w).spec_buf(), final(w).spec_buf(), in_header.unique),
            res is Err ==> final(w).spec_buf() == old(w).spec_buf(),
            ({
                let b = old(r).spec_buf();
                let p = old(r).pos as int;
                let namelen = in_header.len - IN_HEADER_SIZE;
                &&& (res == Err::<usize, Error>(Error::InvalidHeaderLength) <==> in_header.len
                    < IN_HEADER_SIZE)
                &&& (res == Err::<usize, Error>(Error::DecodeMessage) <==> in_header.len
                    >= IN_HEADER_SIZE && b.len() - p < namelen)
                &&& (res == Err::<usize, Error>(Error::InvalidCString) <==> in_header.len
                    >= IN_HEADER_SIZE && b.len() - p >= namelen && !spec_valid_cstr(
                    b.subrange(p, p + namelen),
                ))
                &&& (in_header.len >= IN_HEADER_SIZE && b.len() - p >= namelen
                    && spec_valid_cstr(b.subrange(p, p + namelen)) ==> res is Ok)
            }),
    {
        let namelen = match (in_header.len as usize).checked_sub(IN_HEADER_SIZE) {
            Some(n) => n,
            None => {
                return Err(Error::InvalidHeaderLength);
            },
        };
        let buf = match r.read_exact_vec(namelen) {
            Ok(b) => b,
            Err(e) => {
                return Err(e);
            },
        };
        let name = match bytes_to_cstr(buf.as_slice()) {
            Ok(n) => n,
            Err(e) => {
                return Err(e);
            },
        };

        match self.fs.rmdir(Context::from(in_header), in_header.nodeid, &name) {
            Ok(()) => reply_ok(None, None, in_header.unique, w),
            Err(e) => reply_error(e, in_header.unique, w),
        }
    }

    fn do_rename(
        &self,
        in_header: InHeader,
        msg_size: usize,
        newdir: u64,
        flags: u32,
        r: &mut Reader,
        w: &mut Writer,
    ) -> (res: Result<usize, Error>)
        requires
            old(r).wf(),
        ensures
            final(r).wf(),
            spec_appended(old(w).spec_buf(), final(w).spec_buf()),
            res is Ok ==> spec_some_reply(old(w).spec_buf(), final(w).spec_buf(), in_header.unique),
            res is Err ==> final(w).spec_buf() == old(w).spec_buf(),
            ({
                let b = old(r).spec_buf();
                let p = old(r).pos as int;
                let buflen = in_header.len - IN_HEADER_SIZE - msg_size;
                &&& (in_header.len < IN_HEADER_SIZE + msg_size ==> res == Err::<usize, Error>(
                    Error::InvalidHeaderLength,
                ))
                &&& (in_header.len >= IN_HEADER_SIZE + msg_size && b.len() - p < buflen ==> res
                    == Err::<usize, Error>(Error::DecodeMessage))
                &&& (in_header.len >= IN_HEADER_SIZE + msg_size && b.len() - p >= buflen ==> (
                match spec_first_nul(b.subrange(p, p + buflen), 0) {
                    None => res == Err::<usize, Error>(Error::MissingParameter),
                    Some(n1) => {
                        if !spec_valid_cstr(b.subrange(p, p + buflen).skip(n1 + 1)) {
                            res == Err::<usize, Error>(Error::InvalidCString)
                        } else {
                            res is Ok
                        }
                    },
                }))
            }),
    {
        let buflen = match (in_header.len as usize).checked_sub(IN_HEADER_SIZE) {
            Some(n) => match n.checked_sub(msg_size) {
                Some(n2) => n2,
                None => {
                    return Err(Error::InvalidHeaderLength);
                },
            },
            None => {
                return Err(Error::InvalidHeaderLength);
            },
        };
        let buf = match r.read_exact_vec(buflen) {
            Ok(b) => b,
            Err(e) => {
                return Err(e);
            },
        };

        // The first NUL separates the old name from the new name.
        let n1 = match find_first_nul(buf.as_slice(), 0) {
            Some(n) => n,
            None => {
                return Err(Error::MissingParameter);
            },
        };
        let oldname = vstd::slice::slice_to_vec(vstd::slice::slice_subrange(buf.as_slice(), 0, n1));
        let rest = vstd::slice::slice_subrange(buf.as_slice(), n1 + 1, buf.len());
        let newname = match bytes_to_cstr(rest) {
            Ok(n) => n,
            Err(e) => {
                return Err(e);
            },
        };

        match self.fs.rename(
            Context::from(in_header),
            in_header.nodeid,
            &oldname,
            newdir,
            &newname,
            flags,
        ) {
            Ok(()) => reply_ok(None, None, in_header.unique, w),
            Err(e) => reply_error(e, in_header.unique, w),
        }
    }

    pub fn rename(&self, in_header: InHeader, r: &mut Reader, w: &mut Writer) -> (res: Result<
        usize,
        Error,
    >)
        requires
            old(r).wf(),
        ensures
            final(r).wf(),
            spec_appended(old(w).spec_buf(), final(w).spec_buf()),
            res is Ok ==> spec_some_reply(old(w).spec_buf(), final(w).spec_buf(), in_header.unique),
            res is Err ==> final(w).spec_buf() == old(w).spec_buf(),
            old(r).spec_remaining() < RENAME_IN_SIZE ==> res == Err::<usize, Error>(
                Error::DecodeMessage,
            ),
            ({
                let b = old(r).spec_buf();
                let p = old(r).pos as int;
                let buflen = in_header.len - IN_HEADER_SIZE - RENAME_IN_SIZE;
                let bstart = p + RENAME_IN_SIZE;
                &&& (b.len() - p >= RENAME_IN_SIZE && in_header.len < IN_HEADER_SIZE + RENAME_IN_SIZE ==> res
                    == Err::<usize, Error>(Error::InvalidHeaderLength))
                &&& (b.len() - p >= RENAME_IN_SIZE && in_header.len >= IN_HEADER_SIZE + RENAME_IN_SIZE && b.len()
                    - bstart < buflen ==> res == Err::<usize, Error>(Error::DecodeMessage))
                &&& (b.len() - p >= RENAME_IN_SIZE && in_header.len >= IN_HEADER_SIZE + RENAME_IN_SIZE && b.len()
                    - bstart >= buflen ==> (
                match spec_first_nul(b.subrange(bstart, bstart + buflen), 0) {
                    None => res == Err::<usize, Error>(Error::MissingParameter),
                    Some(n1) => {
                        if !spec_valid_cstr(b.subrange(bstart, bstart + buflen).skip(n1 + 1)) {
                            res == Err::<usize, Error>(Error::InvalidCString)
                        } else {
                            res is Ok
                        }
                    },
                }))
            }),
    {
        let ri = match r.read_rename_in() {
            Ok(x) => x,
            Err(e) => {
                return Err(e);
            },
        };
        self.do_rename(in_header, RENAME_IN_SIZE, ri.newdir, 0, r, w)
    }

    pub fn rename2(&self, in_header: InHeader, r: &mut Reader, w: &mut Writer) -> (res: Result<
        usize,
        Error,
    >)
        requires
            old(r).wf(),
        ensures
            final(r).wf(),
            spec_appended(old(w).spec_buf(), final(w).spec_buf()),
            res is Ok ==> spec_some_reply(old(w).spec_buf(), final(w).spec_buf(), in_header.unique),
            res is Err ==> final(w).spec_buf() == old(w).spec_buf(),
            old(r).spec_remaining() < RENAME2_IN_SIZE ==> res == Err::<usize, Error>(
                Error::DecodeMessage,
            ),
            ({
                let b = old(r).spec_buf();
                let p = old(r).pos as int;
                let buflen = in_header.len - IN_HEADER_SIZE - RENAME2_IN_SIZE;
                let bstart = p + RENAME2_IN_SIZE;
                &&& (b.len() - p >= RENAME2_IN_SIZE && in_header.len < IN_HEADER_SIZE + RENAME2_IN_SIZE ==> res
                    == Err::<usize, Error>(Error::InvalidHeaderLength))
                &&& (b.len() - p >= RENAME2_IN_SIZE && in_header.len >= IN_HEADER_SIZE + RENAME2_IN_SIZE && b.len()
                    - bstart < buflen ==> res == Err::<usize, Error>(Error::DecodeMessage))
                &&& (b.len() - p >= RENAME2_IN_SIZE && in_header.len >= IN_HEADER_SIZE + RENAME2_IN_SIZE && b.len()
                    - bstart >= buflen ==> (
                match spec_first_nul(b.subrange(bstart, bstart + buflen), 0) {
                    None => res == Err::<usize, Error>(Error::MissingParameter),
                    Some(n1) => {
                        if !spec_valid_cstr(b.subrange(bstart, bstart + buflen).skip(n1 + 1)) {
                            res == Err::<usize, Error>(Error::InvalidCString)
                        } else {
                            res is Ok
                        }
                    },
                }))
            }),
    {
        let ri = match r.read_rename2_in() {
            Ok(x) => x,
            Err(e) => {
                return Err(e);
            },
        };
        // Only the exchange and no-replace flags are forwarded.
        let flags = ri.flags & (RENAME_FLAG_EXCHANGE | RENAME_FLAG_NOREPLACE);
        self.do_rename(in_header, RENAME2_IN_SIZE, ri.newdir, flags, r, w)
    }

    #[verifier::rlimit(100)]
    pub fn link(&self, in_header: InHeader, r: &mut Reader, w: &mut Writer) -> (res: Result<
        usize,
        Error,
    >)
        requires
            old(r).wf(),
        ensures
            final(r).wf(),
            spec_appended(old(w).spec_buf(), final(w).spec_buf()),
            res is Ok ==> spec_some_reply(old(w).spec_buf(), final(w).spec_buf(), in_header.unique),
            res is Err ==> final(w).spec_buf() == old(w).spec_buf(),
            ({
                let b = old(r).spec_buf();
                let p = old(r).pos as int;
                let namelen = in_header.len - IN_HEADER_SIZE - LINK_IN_SIZE;
                let nstart = p + LINK_IN_SIZE;
                &&& (b.len() - p < LINK_IN_SIZE ==> res == Err::<usize, Error>(
                    Error::DecodeMessage,
                ))
                &&& (b.len() - p >= LINK_IN_SIZE && in_header.len < IN_HEADER_SIZE + LINK_IN_SIZE
                    ==> res == Err::<usize, Error>(Error::InvalidHeaderLength))
                &&& (b.len() - p >= LINK_IN_SIZE && in_header.len >= IN_HEADER_SIZE + LINK_IN_SIZE
                    && b.len() - nstart < namelen ==> res == Err::<usize, Error>(
                    Error::DecodeMessage,
                ))
                &&& (b.len() - p >= LINK_IN_SIZE && in_header.len >= IN_HEADER_SIZE + LINK_IN_SIZE
                    && b.len() - nstart >= namelen ==> (if !spec_valid_cstr(
                    b.subrange(nstart, nstart + namelen),
                ) {
                    res == Err::<usize, Error>(Error::InvalidCString)
                } else {
                    res is Ok
                }))
            }),
    {
        let li = match r.read_link_in() {
            Ok(x) => x,
            Err(e) => {
                return Err(e);
            },
        };
        let namelen = match (in_header.len as usize).checked_sub(IN_HEADER_SIZE) {
            Some(n) => match n.checked_sub(LINK_IN_SIZE) {
                Some(n2) => n2,
                None => {
                    return Err(Error::InvalidHeaderLength);
                },
            },
            None => {
                return Err(Error::InvalidHeaderLength);
            },
        };
        let buf = match r.read_exact_vec(namelen) {
            Ok(b) => b,
            Err(e) => {
                return Err(e);
            },
        };
        let name = match bytes_to_cstr(buf.as_slice()) {
            Ok(n) => n,
            Err(e) => {
                return Err(e);
            },
        };

        match self.fs.link(Context::from(in_header), li.oldnodeid, in_header.nodeid, &name) {
            Ok(entry) => {
                let out = entry_out_vec(entry);
                reply_ok(Some(&out), None, in_header.unique, w)
            },
            Err(e) => reply_error(e, in_header.unique, w),
        }
    }

    pub fn open(&self, in_header: InHeader, r: &mut Reader, w: &mut Writer) -> (res: Result<
        usize,
        Error,
    >)
        requires
            old(r).wf(),
        ensures
            final(r).wf(),
            spec_appended(old(w).spec_buf(), final(w).spec_buf()),
            res is Ok ==> spec_some_reply(old(w).spec_buf(), final(w).spec_buf(), in_header.unique),
            res is Err <==> old(r).spec_remaining() < OPEN_IN_SIZE,
            res is Err ==> res == Err::<usize, Error>(Error::DecodeMessage) && final(w).spec_buf()
                == old(w).spec_buf(),
    {
        let oi = match r.read_open_in() {
            Ok(x) => x,
            Err(e) => {
                return Err(e);
            },
        };

        match self.fs.open(Context::from(in_header), in_header.nodeid, oi.flags) {
            Ok((handle, opts)) => {
                let out = OpenOut {
                    fh: match handle {
                        Some(h) => h,
                        None => 0,
                    },
                    open_flags: opts,
                    padding: 0,
                };
                let mut ov: Vec<u8> = Vec::new();
                push_open_out(&mut ov, out);
                reply_ok(Some(&ov), None, in_header.unique, w)
            },
            Err(e) => reply_error(e, in_header.unique, w),
        }
    }

    #[verifier::rlimit(100)]
    #[verifier::rlimit(100)]
    pub fn read(&self, in_header: InHeader, r: &mut Reader, w: &mut Writer) -> (res: Result<
        usize,
        Error,
    >)
        requires
            old(r).wf(),
        ensures
            final(r).wf(),
            spec_appended(old(w).spec_buf(), final(w).spec_buf()),
            spec_replied(old(w).spec_buf(), final(w).spec_buf(), in_header.unique),
            res is Err <==> old(r).spec_remaining() < READ_IN_SIZE,
            res is Err ==> res == Err::<usize, Error>(Error::DecodeMessage) && final(w).spec_buf()
                == old(w).spec_buf(),
            ({
                let b = old(r).spec_buf();
                let p = old(r).pos as int;
                b.len() - p >= READ_IN_SIZE ==> ({
                    let ri = spec_read_in(b, p);
                    &&& (ri.size > self.spec_fs().spec_max_buffer_size() ==> final(w).spec_buf() == old(w).spec_buf() + spec_err_reply(ENOMEM, in_header.unique) && res == Ok::<
                        usize,
                        Error,
                    >(OUT_HEADER_SIZE))
                    &&& (ri.size <= self.spec_fs().spec_max_buffer_size() ==> ((exists|e: i32|
                        final(w).spec_buf() == old(w).spec_buf() + #[trigger] spec_err_reply(
                            e,
                            in_header.unique,
                        ) && res == Ok::<usize, Error>(OUT_HEADER_SIZE)) || (exists|n: u32|
                        final(w).spec_buf().len() >= old(w).spec_buf().len() + OUT_HEADER_SIZE
                            && final(w).spec_buf().subrange(
                            old(w).spec_buf().len() as int,
                            old(w).spec_buf().len() + OUT_HEADER_SIZE,
                        ) == #[trigger] spec_out_header_bytes(
                            (OutHeader { len: n, error: 0, unique: in_header.unique }),
                        ) && res == Ok::<usize, Error>(n as usize))))
                })
            }),
    {
        let ri = match r.read_read_in() {
            Ok(x) => x,
            Err(e) => {
                return Err(e);
            },
        };

        if ri.size > self.fs.max_buffer_size() {
            return reply_error(ENOMEM, in_header.unique, w);
        }

        let owner: Option<u64> = if ri.read_flags & READ_LOCKOWNER != 0 {
            Some(ri.lock_owner)
        } else {
            None
        };

        // Reserve space for the header, stream the data after it, and
        // fill the header in only once the body's length is known.
        let start = w.len();
        w.reserve(OUT_HEADER_SIZE);
        match self.fs.read(
            Context::from(in_header),
            in_header.nodeid,
            ri.fh,
            w,
            ri.size,
            ri.offset,
            owner,
            ri.flags,
        ) {
            Ok(count) => {
                let len32 = #[verifier::truncate] (((OUT_HEADER_SIZE as u128) + (count as u128)) as u32);
                let out = OutHeader { len: len32, error: 0, unique: in_header.unique };
                let ghost streamed = w.spec_buf().skip(start + OUT_HEADER_SIZE);
                w.write_out_header_at(start, out);
                proof {
                    assert(w.spec_buf().subrange(0, old(w).spec_buf().len() as int) =~= old(w).spec_buf());
                    assert(w.spec_buf() =~= old(w).spec_buf() + spec_out_header_bytes(out)
                        + streamed);
                    lemma_out_header_unique(old(w).spec_buf(), out, streamed);
                    vstd::seq_lib::lemma_concat_associative(
                        old(w).spec_buf(),
                        spec_out_header_bytes(out),
                        streamed,
                    );
                    crate::fuse::sys::lemma_out_header_bytes_len(out);
                    assert(spec_replied(old(w).spec_buf(), w.spec_buf(), in_header.unique));
                    assert(w.spec_buf().subrange(
                        old(w).spec_buf().len() as int,
                        old(w).spec_buf().len() + OUT_HEADER_SIZE,
                    ) =~= spec_out_header_bytes(out));
                }
                Ok(len32 as usize)
            },
            Err(e) => {
                w.truncate_to(start);
                proof {
                    assert(w.spec_buf() =~= old(w).spec_buf());
                }
                reply_error(e, in_header.unique, w)
            },
        }
    }

    pub fn write(&self, in_header: InHeader, r: &mut Reader, w: &mut Writer) -> (res: Result<
        usize,
        Error,
    >)
        requires
            old(r).wf(),
        ensures
            final(r).wf(),
            spec_appended(old(w).spec_buf(), final(w).spec_buf()),
            res is Ok ==> spec_some_reply(old(w).spec_buf(), final(w).spec_buf(), in_header.unique),
            res is Err <==> old(r).spec_remaining() < WRITE_IN_SIZE,
            res is Err ==> res == Err::<usize, Error>(Error::DecodeMessage) && final(w).spec_buf()
                == old(w).spec_buf(),
            ({
                let b = old(r).spec_buf();
                let p = old(r).pos as int;
                b.len() - p >= WRITE_IN_SIZE && spec_write_in(b, p).size
                    > self.spec_fs().spec_max_buffer_size() ==> final(w).spec_buf() == old(w).spec_buf()
                    + spec_err_reply(ENOMEM, in_header.unique) && res == Ok::<usize, Error>(
                    OUT_HEADER_SIZE,
                )
            }),
    {
        let wi = match r.read_write_in() {
            Ok(x) => x,
            Err(e) => {
                return Err(e);
            },
        };

        if wi.size > self.fs.max_buffer_size() {
            return reply_error(ENOMEM, in_header.unique, w);
        }

        let owner: Option<u64> = if wi.write_flags & WRITE_LOCKOWNER != 0 {
            Some(wi.lock_owner)
        } else {
            None
        };

        let delayed_write = wi.write_flags & WRITE_CACHE != 0;

        match self.fs.write(
            Context::from(in_header),
            in_header.nodeid,
            wi.fh,
            r,
            wi.size,
            wi.offset,
            owner,
            delayed_write,
            wi.flags,
        ) {
            Ok(count) => {
                let out = WriteOut { size: count as u32, padding: 0 };
                let mut ov: Vec<u8> = Vec::new();
                push_write_out(&mut ov, out);
                reply_ok(Some(&ov), None, in_header.unique, w)
            },
            Err(e) => reply_error(e, in_header.unique, w),
        }
    }

    #[verifier::rlimit(100)]
    pub fn statfs(&self, in_header: InHeader, w: &mut Writer) -> (res: Result<usize, Error>)
        ensures
            spec_appended(old(w).spec_buf(), final(w).spec_buf()),
            res is Ok ==> spec_some_reply(old(w).spec_buf(), final(w).spec_buf(), in_header.unique),
            res is Err ==> final(w).spec_buf() == old(w).spec_buf(),
    {
        match self.fs.statfs(Context::from(in_header), in_header.nodeid) {
            Ok(st) => {
                let mut ov: Vec<u8> = Vec::new();
                push_kstatfs_full(&mut ov, st);
                reply_ok(Some(&ov), None, in_header.unique, w)
            },
            Err(e) => reply_error(e, in_header.unique, w),
        }
    }

    pub fn release(&self, in_header: InHeader, r: &mut Reader, w: &mut Writer) -> (res: Result<
        usize,
        Error,
    >)
        requires
            old(r).wf(),
        ensures
            final(r).wf(),
            spec_appended(old(w).spec_buf(), final(w).spec_buf()),
            res is Ok ==> spec_some_reply(old(w).spec_buf(), final(w).spec_buf(), in_header.unique),
            res is Err <==> old(r).spec_remaining() < RELEASE_IN_SIZE,
            res is Err ==> res == Err::<usize, Error>(Error::DecodeMessage) && final(w).spec_buf()
                == old(w).spec_buf(),
    {
        let ri = match r.read_release_in() {
            Ok(x) => x,
            Err(e) => {
                return Err(e);
            },
        };

        let flush = ri.release_flags & RELEASE_FLUSH != 0;
        let flock_release = ri.release_flags & RELEASE_FLOCK_UNLOCK != 0;
        let lock_owner: Option<u64> = if flush || flock_release {
            Some(ri.lock_owner)
        } else {
            None
        };

        match self.fs.release(
            Context::from(in_header),
            in_header.nodeid,
            ri.flags,
            ri.fh,
            flush,
            flock_release,
            lock_owner,
        ) {
            Ok(()) => reply_ok(None, None, in_header.unique, w),
            Err(e) => reply_error(e, in_header.unique, w),
        }
    }

    pub fn fsync(&self, in_header: InHeader, r: &mut Reader, w: &mut Writer) -> (res: Result<
        usize,
        Error,
    >)
        requires
            old(r).wf(),
        ensures
            final(r).wf(),
            spec_appended(old(w).spec_buf(), final(w).spec_buf()),
            res is Ok ==> spec_some_reply(old(w).spec_buf(), final(w).spec_buf(), in_header.unique),
            res is Err <==> old(r).spec_remaining() < FSYNC_IN_SIZE,
            res is Err ==> res == Err::<usize, Error>(Error::DecodeMessage) && final(w).spec_buf()
                == old(w).spec_buf(),
    {
        let fi = match r.read_fsync_in() {
            Ok(x) => x,
            Err(e) => {
                return Err(e);
            },
        };
        let datasync = fi.fsync_flags & 0x1 != 0;

        match self.fs.fsync(Context::from(in_header), in_header.nodeid, datasync, fi.fh) {
            Ok(()) => reply_ok(None, None, in_header.unique, w),
            Err(e) => reply_error(e, in_header.unique, w),
        }
    }

    pub fn setxattr(&self, in_header: InHeader, r: &mut Reader, w: &mut Writer) -> (res: Result<
        usize,
        Error,
    >)
        requires
            old(r).wf(),
        ensures
            final(r).wf(),
            spec_appended(old(w).spec_buf(), final(w).spec_buf()),
            res is Ok ==> spec_some_reply(old(w).spec_buf(), final(w).spec_buf(), in_header.unique),
            res is Err ==> final(w).spec_buf() == old(w).spec_buf(),
            ({
                let b = old(r).spec_buf();
                let p = old(r).pos as int;
                let buflen = in_header.len - IN_HEADER_SIZE - SETXATTR_IN_SIZE;
                let bstart = p + SETXATTR_IN_SIZE;
                &&& (b.len() - p < SETXATTR_IN_SIZE ==> res == Err::<usize, Error>(
                    Error::DecodeMessage,
                ))
                &&& (b.len() - p >= SETXATTR_IN_SIZE && in_header.len < IN_HEADER_SIZE
                    + SETXATTR_IN_SIZE ==> res == Err::<usize, Error>(Error::InvalidHeaderLength))
                &&& (b.len() - p >= SETXATTR_IN_SIZE && in_header.len >= IN_HEADER_SIZE
                    + SETXATTR_IN_SIZE && b.len() - bstart < buflen ==> res == Err::<
                    usize,
                    Error,
                >(Error::DecodeMessage))
                &&& (b.len() - p >= SETXATTR_IN_SIZE && in_header.len >= IN_HEADER_SIZE
                    + SETXATTR_IN_SIZE && b.len() - bstart >= buflen ==> (
                match spec_first_nul(b.subrange(bstart, bstart + buflen), 0) {
                    None => res == Err::<usize, Error>(Error::MissingParameter),
                    Some(n1) => {
                        if spec_setxattr_in(b, p).size != buflen - n1 - 1 {
                            res == Err::<usize, Error>(
                                Error::InvalidXattrSize(
                                    spec_setxattr_in(b, p).size,
                                    (buflen - n1 - 1) as usize,
                                ),
                            )
                        } else {
                            res is Ok
                        }
                    },
                }))
            }),
    {
        let si = match r.read_setxattr_in() {
            Ok(x) => x,
            Err(e) => {
                return Err(e);
            },
        };

        // The name and value are encoded one after another and separated
        // by a NUL character.
        let len = match (in_header.len as usize).checked_sub(IN_HEADER_SIZE) {
            Some(n) => match n.checked_sub(SETXATTR_IN_SIZE) {
                Some(n2) => n2,
                None => {
                    return Err(Error::InvalidHeaderLength);
                },
            },
            None => {
                return Err(Error::InvalidHeaderLength);
            },
        };
        let buf = match r.read_exact_vec(len) {
            Ok(b) => b,
            Err(e) => {
                return Err(e);
            },
        };

        let n1 = match find_first_nul(buf.as_slice(), 0) {
            Some(n) => n,
            None => {
                return Err(Error::MissingParameter);
            },
        };
        let name = vstd::slice::slice_to_vec(vstd::slice::slice_subrange(buf.as_slice(), 0, n1));
        let value = vstd::slice::slice_subrange(buf.as_slice(), n1 + 1, buf.len());

        if si.size as usize != value.len() {
            return Err(Error::InvalidXattrSize(si.size, value.len()));
        }

        match self.fs.setxattr(
            Context::from(in_header),
            in_header.nodeid,
            &name,
            value,
            si.flags,
        ) {
            Ok(()) => reply_ok(None, None, in_header.unique, w),
            Err(e) => reply_error(e, in_header.unique, w),
        }
    }

    pub fn getxattr(&self, in_header: InHeader, r: &mut Reader, w: &mut Writer) -> (res: Result<
        usize,
        Error,
    >)
        requires
            old(r).wf(),
        ensures
            final(r).wf(),
            spec_appended(old(w).spec_buf(), final(w).spec_buf()),
            res is Ok ==> spec_some_reply(old(w).spec_buf(), final(w).spec_buf(), in_header.unique),
            res is Err ==> final(w).spec_buf() == old(w).spec_buf(),
            ({
                let b = old(r).spec_buf();
                let p = old(r).pos as int;
                let namelen = in_header.len - IN_HEADER_SIZE - GETXATTR_IN_SIZE;
                let nstart = p + GETXATTR_IN_SIZE;
                &&& (b.len() - p < GETXATTR_IN_SIZE ==> res == Err::<usize, Error>(
                    Error::DecodeMessage,
                ))
                &&& (b.len() - p >= GETXATTR_IN_SIZE && in_header.len < IN_HEADER_SIZE
                    + GETXATTR_IN_SIZE ==> res == Err::<usize, Error>(Error::InvalidHeaderLength))
                &&& (b.len() - p >= GETXATTR_IN_SIZE && in_header.len >= IN_HEADER_SIZE
                    + GETXATTR_IN_SIZE && b.len() - nstart < namelen ==> res == Err::<
                    usize,
                    Error,
                >(Error::DecodeMessage))
                &&& (b.len() - p >= GETXATTR_IN_SIZE && in_header.len >= IN_HEADER_SIZE
                    + GETXATTR_IN_SIZE && b.len() - nstart >= namelen ==> (if spec_getxattr_in(
                    b,
                    p,
                ).size > self.spec_fs().spec_max_buffer_size() {
                    final(w).spec_buf() == old(w).spec_buf() + spec_err_reply(
                        ENOMEM,
                        in_header.unique,
                    ) && res == Ok::<usize, Error>(OUT_HEADER_SIZE)
                } else if !spec_valid_cstr(b.subrange(nstart, nstart + namelen)) {
                    res == Err::<usize, Error>(Error::InvalidCString)
                } else {
                    res is Ok
                }))
            }),
    {
        let gi = match r.read_getxattr_in() {
            Ok(x) => x,
            Err(e) => {
                return Err(e);
            },
        };

        let namelen = match (in_header.len as usize).checked_sub(IN_HEADER_SIZE) {
            Some(n) => match n.checked_sub(GETXATTR_IN_SIZE) {
                Some(n2) => n2,
                None => {
                    return Err(Error::InvalidHeaderLength);
                },
            },
            None => {
                return Err(Error::InvalidHeaderLength);
            },
        };
        let buf = match r.read_exact_vec(namelen) {
            Ok(b) => b,
            Err(e) => {
                return Err(e);
            },
        };

        if gi.size > self.fs.max_buffer_size() {
            return reply_error(ENOMEM, in_header.unique, w);
        }

        let name = match bytes_to_cstr(buf.as_slice()) {
            Ok(n) => n,
            Err(e) => {
                return Err(e);
            },
        };

        match self.fs.getxattr(Context::from(in_header), in_header.nodeid, &name, gi.size) {
            Ok(GetxattrReply::Value(val)) => reply_ok(
                None,
                Some(val.as_slice()),
                in_header.unique,
                w,
            ),
            Ok(GetxattrReply::Count(count)) => {
                let out = GetxattrOut { size: count, padding: 0 };
                let mut ov: Vec<u8> = Vec::new();
                push_getxattr_out(&mut ov, out);
                reply_ok(Some(&ov), None, in_header.unique, w)
            },
            Err(e) => reply_error(e, in_header.unique, w),
        }
    }

    pub fn listxattr(&self, in_header: InHeader, r: &mut Reader, w: &mut Writer) -> (res: Result<
        usize,
        Error,
    >)
        requires
            old(r).wf(),
        ensures
            final(r).wf(),
            spec_appended(old(w).spec_buf(), final(w).spec_buf()),
            res is Ok ==> spec_some_reply(old(w).spec_buf(), final(w).spec_buf(), in_header.unique),
            res is Err <==> old(r).spec_remaining() < GETXATTR_IN_SIZE,
            res is Err ==> res == Err::<usize, Error>(Error::DecodeMessage) && final(w).spec_buf()
                == old(w).spec_buf(),
            ({
                let b = old(r).spec_buf();
                let p = old(r).pos as int;
                b.len() - p >= GETXATTR_IN_SIZE && spec_getxattr_in(b, p).size
                    > self.spec_fs().spec_max_buffer_size() ==> final(w).spec_buf() == old(w).spec_buf()
                    + spec_err_reply(ENOMEM, in_header.unique) && res == Ok::<usize, Error>(
                    OUT_HEADER_SIZE,
                )
            }),
    {
        let gi = match r.read_getxattr_in() {
            Ok(x) => x,
            Err(e) => {
                return Err(e);
            },
        };

        if gi.size > self.fs.max_buffer_size() {
            return reply_error(ENOMEM, in_header.unique, w);
        }

        match self.fs.listxattr(Context::from(in_header), in_header.nodeid, gi.size) {
            Ok(ListxattrReply::Names(val)) => reply_ok(
                None,
                Some(val.as_slice()),
                in_header.unique,
                w,
            ),
            Ok(ListxattrReply::Count(count)) => {
                let out = GetxattrOut { size: count, padding: 0 };
                let mut ov: Vec<u8> = Vec::new();
                push_getxattr_out(&mut ov, out);
                reply_ok(Some(&ov), None, in_header.unique, w)
            },
            Err(e) => reply_error(e, in_header.unique, w),
        }
    }

    pub fn removexattr(&self, in_header: InHeader, r: &mut Reader, w: &mut Writer) -> (res: Result<
        usize,
        Error,
    >)
        requires
            old(r).wf(),
        ensures
            final(r).wf(),
            spec_appended(old(w).spec_buf(), final(w).spec_buf()),
            res is Ok ==> spec_some_reply(old(w).spec_buf(), final(w).spec_buf(), in_header.unique),
            res is Err ==> final(w).spec_buf() == old(w).spec_buf(),
            ({
                let b = old(r).spec_buf();
                let p = old(r).pos as int;
                let namelen = in_header.len - IN_HEADER_SIZE;
                &&& (res == Err::<usize, Error>(Error::InvalidHeaderLength) <==> in_header.len
                    < IN_HEADER_SIZE)
                &&& (res == Err::<usize, Error>(Error::DecodeMessage) <==> in_header.len
                    >= IN_HEADER_SIZE && b.len() - p < namelen)
                &&& (res == Err::<usize, Error>(Error::InvalidCString) <==> in_header.len
                    >= IN_HEADER_SIZE && b.len() - p >= namelen && !spec_valid_cstr(
                    b.subrange(p, p + namelen),
                ))
                &&& (in_header.len >= IN_HEADER_SIZE && b.len() - p >= namelen
                    && spec_valid_cstr(b.subrange(p, p + namelen)) ==> res is Ok)
            }),
    {
        let namelen = match (in_header.len as usize).checked_sub(IN_HEADER_SIZE) {
            Some(n) => n,
            None => {
                return Err(Error::InvalidHeaderLength);
            },
        };
        let buf = match r.read_exact_vec(namelen) {
            Ok(b) => b,
            Err(e) => {
                return Err(e);
            },
        };
        let name = match bytes_to_cstr(buf.as_slice()) {
            Ok(n) => n,
            Err(e) => {
                return Err(e);
            },
        };

        match self.fs.removexattr(Context::from(in_header), in_header.nodeid, &name) {
            Ok(()) => reply_ok(None, None, in_header.unique, w),
            Err(e) => reply_error(e, in_header.unique, w),
        }
    }

    pub fn flush(&self, in_header: InHeader, r: &mut Reader, w: &mut Writer) -> (res: Result<
        usize,
        Error,
    >)
        requires
            old(r).wf(),
        ensures
            final(r).wf(),
            spec_appended(old(w).spec_buf(), final(w).spec_buf()),
            res is Ok ==> spec_some_reply(old(w).spec_buf(), final(w).spec_buf(), in_header.unique),
            res is Err <==> old(r).spec_remaining() < FLUSH_IN_SIZE,
            res is Err ==> res == Err::<usize, Error>(Error::DecodeMessage) && final(w).spec_buf()
                == old(w).spec_buf(),
    {
        let fi = match r.read_flush_in() {
            Ok(x) => x,
            Err(e) => {
                return Err(e);
            },
        };

        match self.fs.flush(Context::from(in_header), in_header.nodeid, fi.fh, fi.lock_owner) {
            Ok(()) => reply_ok(None, None, in_header.unique, w),
            Err(e) => reply_error(e, in_header.unique, w),
        }
    }

    /// What a completed negotiation leaves in the reply buffer: the
    /// backend's error reflected, or the negotiated init reply for some
    /// option set the backend wanted.
    pub open spec fn spec_init_success_reply(
        pre: Seq<u8>,
        post: Seq<u8>,
        res: Result<usize, Error>,
        unique: u64,
        ii: InitIn,
        flags2: u32,
        maxbuf: u32,
    ) -> bool {
        let capable = ((ii.flags as u64) | ((flags2 as u64) << 32)) & ALL_OPTIONS;
        (exists|e: i32| post == pre + #[trigger] spec_err_reply(e, unique)) || (exists|want: u64|
            post == pre + spec_ok_reply(
                spec_init_out_bytes(
                    #[trigger] spec_negotiated_init_out(capable, want, ii.max_readahead, maxbuf),
                ),
                unique,
            ) && res == Ok::<usize, Error>((OUT_HEADER_SIZE + INIT_OUT_SIZE) as usize))
    }

    /// Reads the extended init flags when offered, asks the backend what
    /// it wants, and sends either the negotiated init reply or the
    /// backend's error.
    #[verifier::rlimit(100)]
    #[verifier::spinoff_prover]
    fn init_negotiation(&self, in_header: InHeader, ii: InitIn, r: &mut Reader, w: &mut Writer)
        -> (res: Result<usize, Error>)
        requires
            old(r).wf(),
        ensures
            final(r).wf(),
            spec_appended(old(w).spec_buf(), final(w).spec_buf()),
            res is Err ==> final(w).spec_buf() == old(w).spec_buf(),
            res is Ok ==> spec_some_reply(old(w).spec_buf(), final(w).spec_buf(), in_header.unique),
            res is Ok ==> Self::spec_init_success_reply(
                old(w).spec_buf(),
                final(w).spec_buf(),
                res,
                in_header.unique,
                ii,
                if (ii.flags as u64) & INIT_EXT != 0 {
                    spec_init_in_ext(old(r).spec_buf(), old(r).pos as int).flags2
                } else {
                    0u32
                },
                self.spec_fs().spec_max_buffer_size(),
            ),
    {
        let flags2: u32 = if (ii.flags as u64) & INIT_EXT != 0 {
            match r.read_init_in_ext() {
                Ok(x) => x.flags2,
                Err(e) => {
                    return Err(e);
                },
            }
        } else {
            0
        };

        let capable: u64 = ((ii.flags as u64) | ((flags2 as u64) << 32)) & ALL_OPTIONS;

        match self.fs.init(capable) {
            Ok(want) => {
                let r2 = self.send_init_success(
                    in_header.unique,
                    ii.max_readahead,
                    capable,
                    want,
                    w,
                );
                proof {
                    let flags2_s: u32 = if (ii.flags as u64) & INIT_EXT != 0 {
                        spec_init_in_ext(old(r).spec_buf(), old(r).pos as int).flags2
                    } else {
                        0u32
                    };
                    assert(flags2_s == flags2);
                    let capable_s = ((ii.flags as u64) | ((flags2_s as u64) << 32)) & ALL_OPTIONS;
                    assert(exists|want2: u64|
                        w.spec_buf() == old(w).spec_buf() + spec_ok_reply(
                            spec_init_out_bytes(
                                #[trigger] spec_negotiated_init_out(
                                    capable_s,
                                    want2,
                                    ii.max_readahead,
                                    self.spec_fs().spec_max_buffer_size(),
                                ),
                            ),
                            in_header.unique,
                        ) && r2 == Ok::<usize, Error>((OUT_HEADER_SIZE + INIT_OUT_SIZE) as usize));
                    assert(Self::spec_init_success_reply(
                        old(w).spec_buf(),
                        w.spec_buf(),
                        r2,
                        in_header.unique,
                        ii,
                        flags2_s,
                        self.spec_fs().spec_max_buffer_size(),
                    ));
                }
                r2
            },
            Err(e) => {
                let r3 = reply_error(e, in_header.unique, w);
                proof {
                    assert(exists|e2: i32|
                        w.spec_buf() == old(w).spec_buf() + #[trigger] spec_err_reply(
                            e2,
                            in_header.unique,
                        ));
                    let flags2_s: u32 = if (ii.flags as u64) & INIT_EXT != 0 {
                        spec_init_in_ext(old(r).spec_buf(), old(r).pos as int).flags2
                    } else {
                        0u32
                    };
                    assert(Self::spec_init_success_reply(
                        old(w).spec_buf(),
                        w.spec_buf(),
                        r3,
                        in_header.unique,
                        ii,
                        flags2_s,
                        self.spec_fs().spec_max_buffer_size(),
                    ));
                }
                r3
            },
        }
    }

    /// Builds and sends the negotiated init reply: the server's versions,
    /// the granted option set and the advertised limits.
    #[verifier::rlimit(100)]
    #[verifier::spinoff_prover]
    fn send_init_success(
        &self,
        unique: u64,
        max_readahead: u32,
        capable: u64,
        want: u64,
        w: &mut Writer,
    ) -> (res: Result<usize, Error>)
        ensures
            final(w).spec_buf() == old(w).spec_buf() + spec_ok_reply(
                spec_init_out_bytes(
                    spec_negotiated_init_out(
                        capable,
                        want,
                        max_readahead,
                        self.spec_fs().spec_max_buffer_size(),
                    ),
                ),
                unique,
            ),
            res == Ok::<usize, Error>((OUT_HEADER_SIZE + INIT_OUT_SIZE) as usize),
    {
        let enabled = negotiate_options(capable, want);
        let max_write = self.fs.max_buffer_size();
        let max_pages = advertised_max_pages(max_readahead, max_write);
        let out = InitOut {
            major: KERNEL_VERSION,
            minor: KERNEL_MINOR_VERSION,
            max_readahead,
            flags: enabled as u32,
            max_background: 0xffff,
            congestion_threshold: (0xffff / 4) * 3,
            max_write,
            time_gran: 1,  // nanoseconds
            max_pages,
            map_alignment: 12,  // log2 of the page size
            flags2: (enabled >> 32) as u32,
        };
        proof {
            assert(out == spec_negotiated_init_out(
                capable,
                want,
                max_readahead,
                self.spec_fs().spec_max_buffer_size(),
            ));
        }
        let mut ov: Vec<u8> = Vec::new();
        push_init_out(&mut ov, out);
        proof {
            assert(ov@.len() == INIT_OUT_SIZE);
        }
        let r2 = reply_ok(Some(&ov), None, unique, w);
        proof {
            assert(ov@ + Seq::<u8>::empty() =~= ov@);
        }
        r2
    }

    #[verifier::rlimit(100)]
    #[verifier::spinoff_prover]
    pub fn init(&self, in_header: InHeader, r: &mut Reader, w: &mut Writer) -> (res: Result<
        usize,
        Error,
    >)
        requires
            old(r).wf(),
        ensures
            final(r).wf(),
            spec_appended(old(w).spec_buf(), final(w).spec_buf()),
            res is Err ==> final(w).spec_buf() == old(w).spec_buf(),
            res is Ok ==> spec_some_reply(old(w).spec_buf(), final(w).spec_buf(), in_header.unique),
            ({
                let b = old(r).spec_buf();
                let p = old(r).pos as int;
                b.len() - p >= INIT_IN_SIZE && spec_init_in(b, p).major < KERNEL_VERSION ==> final(w).spec_buf() == old(w).spec_buf() + spec_err_reply(EPROTO, in_header.unique)
            }),
            ({
                let b = old(r).spec_buf();
                let p = old(r).pos as int;
                b.len() - p >= INIT_IN_SIZE && spec_init_in(b, p).major > KERNEL_VERSION ==> final(w).spec_buf() == old(w).spec_buf() + spec_ok_reply(
                    spec_init_out_bytes(
                        InitOut {
                            major: KERNEL_VERSION,
                            minor: KERNEL_MINOR_VERSION,
                            max_readahead: 0,
                            flags: 0,
                            max_background: 0,
                            congestion_threshold: 0,
                            max_write: 0,
                            time_gran: 0,
                            max_pages: 0,
                            map_alignment: 0,
                            flags2: 0,
                        },
                    ),
                    in_header.unique,
                )
            }),
            ({
                let b = old(r).spec_buf();
                let p = old(r).pos as int;
                b.len() - p >= INIT_IN_SIZE && spec_init_in(b, p).major == KERNEL_VERSION
                    && spec_init_in(b, p).minor < OLDEST_SUPPORTED_KERNEL_MINOR_VERSION ==> final(w).spec_buf() == old(w).spec_buf() + spec_err_reply(EPROTO, in_header.unique)
            }),
            ({
                let b = old(r).spec_buf();
                let p = old(r).pos as int;
                let ii = spec_init_in(b, p);
                b.len() - p >= INIT_IN_SIZE && ii.major == KERNEL_VERSION && ii.minor
                    >= OLDEST_SUPPORTED_KERNEL_MINOR_VERSION && res is Ok
                    ==> Self::spec_init_success_reply(
                    old(w).spec_buf(),
                    final(w).spec_buf(),
                    res,
                    in_header.unique,
                    ii,
                    if (ii.flags as u64) & INIT_EXT != 0 {
                        spec_init_in_ext(b, p + INIT_IN_SIZE).flags2
                    } else {
                        0u32
                    },
                    self.spec_fs().spec_max_buffer_size(),
                )
            }),
    {
        let ii = match r.read_init_in() {
            Ok(x) => x,
            Err(e) => {
                return Err(e);
            },
        };

        if ii.major < KERNEL_VERSION {
            return reply_error(EPROTO, in_header.unique, w);
        }

        if ii.major > KERNEL_VERSION {
            // Wait for the kernel to reply back with a matching major
            // version.
            let out = InitOut {
                major: KERNEL_VERSION,
                minor: KERNEL_MINOR_VERSION,
                max_readahead: 0,
                flags: 0,
                max_background: 0,
                congestion_threshold: 0,
                max_write: 0,
                time_gran: 0,
                max_pages: 0,
                map_alignment: 0,
                flags2: 0,
            };
            let mut ov: Vec<u8> = Vec::new();
            push_init_out(&mut ov, out);
            let r0 = reply_ok(Some(&ov), None, in_header.unique, w);
            proof {
                assert(ov@ + Seq::<u8>::empty() =~= ov@);
            }
            return r0;
        }

        if ii.minor < OLDEST_SUPPORTED_KERNEL_MINOR_VERSION {
            return reply_error(EPROTO, in_header.unique, w);
        }

        let r2 = self.init_negotiation(in_header, ii, r, w);
        proof {
            assert(spec_init_in(old(r).spec_buf(), old(r).pos as int) == ii);
        }
        r2
    }

    pub fn opendir(&self, in_header: InHeader, r: &mut Reader, w: &mut Writer) -> (res: Result<
        usize,
        Error,
    >)
        requires
            old(r).wf(),
        ensures
            final(r).wf(),
            spec_appended(old(w).spec_buf(), final(w).spec_buf()),
            res is Ok ==> spec_some_reply(old(w).spec_buf(), final(w).spec_buf(), in_header.unique),
            res is Err <==> old(r).spec_remaining() < OPEN_IN_SIZE,
            res is Err ==> res == Err::<usize, Error>(Error::DecodeMessage) && final(w).spec_buf()
                == old(w).spec_buf(),
    {
        let oi = match r.read_open_in() {
            Ok(x) => x,
            Err(e) => {
                return Err(e);
            },
        };

        match self.fs.opendir(Context::from(in_header), in_header.nodeid, oi.flags) {
            Ok((handle, opts)) => {
                let out = OpenOut {
                    fh: match handle {
                        Some(h) => h,
                        None => 0,
                    },
                    open_flags: opts,
                    padding: 0,
                };
                let mut ov: Vec<u8> = Vec::new();
                push_open_out(&mut ov, out);
                reply_ok(Some(&ov), None, in_header.unique, w)
            },
            Err(e) => reply_error(e, in_header.unique, w),
        }
    }

    #[verifier::rlimit(100)]
    #[verifier::rlimit(100)]
    pub fn readdir(&self, in_header: InHeader, r: &mut Reader, w: &mut Writer) -> (res: Result<
        usize,
        Error,
    >)
        requires
            old(r).wf(),
        ensures
            final(r).wf(),
            spec_appended(old(w).spec_buf(), final(w).spec_buf()),
            res is Ok ==> spec_some_reply(old(w).spec_buf(), final(w).spec_buf(), in_header.unique),
            res is Err ==> final(w).spec_buf() == old(w).spec_buf(),
            ({
                let b = old(r).spec_buf();
                let p = old(r).pos as int;
                b.len() - p >= READ_IN_SIZE ==> ({
                    let ri = spec_read_in(b, p);
                    &&& (ri.size > self.spec_fs().spec_max_buffer_size() ==> final(w).spec_buf() == old(w).spec_buf() + spec_err_reply(ENOMEM, in_header.unique) && res == Ok::<
                        usize,
                        Error,
                    >(OUT_HEADER_SIZE))
                    &&& (ri.size <= self.spec_fs().spec_max_buffer_size() && res is Ok ==> ((exists|
                        e: i32,
                    |
                        final(w).spec_buf() == old(w).spec_buf() + spec_err_reply(
                            e,
                            in_header.unique,
                        )) || (exists|es: Seq<DirEntry>|
                        #[trigger] spec_pack_dirents(es, ri.size as int) is Ok && final(w).spec_buf() == old(w).spec_buf() + spec_ok_reply(
                            spec_pack_dirents(es, ri.size as int)->Ok_0,
                            in_header.unique,
                        ))))
                })
            }),
    {
        let ri = match r.read_read_in() {
            Ok(x) => x,
            Err(e) => {
                return Err(e);
            },
        };

        if ri.size > self.fs.max_buffer_size() {
            return reply_error(ENOMEM, in_header.unique, w);
        }

        if !w.has_sufficient_buffer(ri.size) {
            return reply_error(ENOMEM, in_header.unique, w);
        }

        // Skip over enough bytes for the header; the body is packed
        // directly after it and the header filled in once the body's
        // length is known.
        let start = w.len();
        w.reserve(OUT_HEADER_SIZE);
        match self.fs.readdir(
            Context::from(in_header),
            in_header.nodeid,
            ri.fh,
            ri.size,
            ri.offset,
        ) {
            Ok(entries) => {
                match pack_dirents(&entries, ri.size, w) {
                    Ok(total_written) => {
                        let r2 = reply_readdir(total_written, in_header.unique, start, w);
                        proof {
                            let body = spec_pack_dirents(entries@, ri.size as int)->Ok_0;
                            assert(w.spec_buf() =~= old(w).spec_buf() + spec_ok_reply(
                                body,
                                in_header.unique,
                            ));
                        }
                        r2
                    },
                    Err(e) => {
                        w.truncate_to(start);
                        proof {
                            assert(w.spec_buf() =~= old(w).spec_buf());
                        }
                        reply_error(e, in_header.unique, w)
                    },
                }
            },
            Err(e) => {
                w.truncate_to(start);
                proof {
                    assert(w.spec_buf() =~= old(w).spec_buf());
                }
                reply_error(e, in_header.unique, w)
            },
        }
    }

    /// Resolves the attributes of one directory entry. The current and
    /// parent directories are never looked up: they are answered with a
    /// negative entry (inode 0) that takes no reference.
    pub fn lookup_dirent_attribute(&self, in_header: &InHeader, dir_entry: &DirEntry) -> (res: Result<
        Entry,
        i32,
    >)
        ensures
            (dir_entry.name@ == seq![0x2eu8] || dir_entry.name@ == seq![0x2eu8, 0x2eu8]) ==> res
                == Ok::<Entry, i32>(
                (Entry {
                    inode: 0,
                    generation: 0,
                    attr: (Attr {
                        ino: dir_entry.ino,
                        size: 0,
                        blocks: 0,
                        atime: 0,
                        mtime: 0,
                        ctime: 0,
                        atimensec: 0,
                        mtimensec: 0,
                        ctimensec: 0,
                        mode: dir_entry.type_,
                        nlink: 0,
                        uid: 0,
                        gid: 0,
                        rdev: 0,
                        blksize: 0,
                        flags: 0,
                    }),
                    attr_timeout_sec: 0,
                    attr_timeout_nsec: 0,
                    entry_timeout_sec: 0,
                    entry_timeout_nsec: 0,
                }),
            ),
    {
        let name = &dir_entry.name;
        let is_dot = name.len() == 1 && *vstd::slice::slice_index_get(name.as_slice(), 0) == 0x2e;
        let is_dotdot = name.len() == 2 && *vstd::slice::slice_index_get(name.as_slice(), 0)
            == 0x2e && *vstd::slice::slice_index_get(name.as_slice(), 1) == 0x2e;
        if is_dot || is_dotdot {
            let attr = Attr {
                ino: dir_entry.ino,
                size: 0,
                blocks: 0,
                atime: 0,
                mtime: 0,
                ctime: 0,
                atimensec: 0,
                mtimensec: 0,
                ctimensec: 0,
                mode: dir_entry.type_,
                nlink: 0,
                uid: 0,
                gid: 0,
                rdev: 0,
                blksize: 0,
                flags: 0,
            };
            Ok(
                Entry {
                    inode: 0,  // Negative entry: no reference was taken.
                    generation: 0,
                    attr,
                    attr_timeout_sec: 0,
                    attr_timeout_nsec: 0,
                    entry_timeout_sec: 0,
                    entry_timeout_nsec: 0,
                },
            )
        } else {
            self.fs.lookup(Context::from(*in_header), in_header.nodeid, name)
        }
    }

    #[verifier::rlimit(100)]
    /// Packs looked-up directory records into the reply body until the
    /// budget runs out: each entry is resolved through the backend, and
    /// one that resolves but cannot be packed has its reference released
    /// again before packing stops. An error with nothing packed yet is
    /// propagated; after the first packed record, errors end the run with
    /// what is there, since failing would leave references unbalanced.
    #[verifier::rlimit(100)]
    fn pack_plus_dirents(
        &self,
        in_header: InHeader,
        entries: &Vec<DirEntry>,
        size: u32,
        w: &mut Writer,
    ) -> (res: Result<usize, i32>)
        ensures
            match res {
                Ok(total) => (exists|items: Seq<(DirEntry, EntryOut)>|
                    (#[trigger] spec_plus_records(items)).len() == total && final(w).spec_buf()
                        == old(w).spec_buf() + spec_plus_records(items)) && total <= size,
                Err(_) => final(w).spec_buf() == old(w).spec_buf(),
            },
    {
        let start = w.len();
        let ghost base = w.spec_buf();
        let ghost mut items: Seq<(DirEntry, EntryOut)> = Seq::empty();
        let mut total_written: usize = 0;
        let mut i: usize = 0;
        proof {
            assert(base + spec_plus_records(items) =~= base);
        }
        while i < entries.len()
            invariant
                i <= entries@.len(),
                total_written <= size,
                start == base.len(),
                base == old(w).spec_buf(),
                spec_plus_records(items).len() == total_written,
                w.spec_buf() == base + spec_plus_records(items),
            decreases entries@.len() - i,
        {
            let dirent = &entries[i];
            match self.lookup_dirent_attribute(&in_header, dirent) {
                Ok(entry) => {
                    let inode = entry.inode;
                    let remaining = (size as usize) - total_written;
                    let eo = entry_out_from(entry);
                    match add_dirent(w, remaining, dirent, Some(eo)) {
                        Ok(n) => {
                            if n == 0 {
                                // No more space left in the buffer, but
                                // the lookup above took a reference that
                                // must be released, or the counts will
                                // not balance.
                                if inode != 0 {
                                    self.fs.forget(Context::from(in_header), inode, 1);
                                }
                                break ;
                            }
                            proof {
                                let rec = spec_dirent_record(entries@[i as int], Some(eo));
                                let items2 = items.push((entries@[i as int], eo));
                                lemma_plus_records_snoc(items2);
                                assert(items2.drop_last() =~= items);
                                vstd::seq_lib::lemma_concat_associative(
                                    base,
                                    spec_plus_records(items),
                                    rec,
                                );
                                items = items2;
                            }
                            total_written = total_written + n;
                        },
                        Err(e) => {
                            if inode != 0 {
                                self.fs.forget(Context::from(in_header), inode, 1);
                            }
                            if total_written == 0 {
                                // Nothing was filled in yet, so the error
                                // can be propagated whole.
                                w.truncate_to(start);
                                proof {
                                    assert(w.spec_buf() =~= base);
                                }
                                return Err(e);
                            }
                            // Entries were already filled in. Failing now
                            // would leave their references unbalanced, so
                            // return what is there.
                            break ;
                        },
                    }
                },
                Err(e) => {
                    if total_written == 0 {
                        w.truncate_to(start);
                        proof {
                            assert(w.spec_buf() =~= base);
                        }
                        return Err(e);
                    }
                    break ;
                },
            }
            i = i + 1;
        }
        Ok(total_written)
    }

    #[verifier::rlimit(100)]
    pub fn readdirplus(&self, in_header: InHeader, r: &mut Reader, w: &mut Writer) -> (res: Result<
        usize,
        Error,
    >)
        requires
            old(r).wf(),
        ensures
            final(r).wf(),
            spec_appended(old(w).spec_buf(), final(w).spec_buf()),
            res is Ok ==> spec_some_reply(old(w).spec_buf(), final(w).spec_buf(), in_header.unique),
            res is Err ==> final(w).spec_buf() == old(w).spec_buf(),
            ({
                let b = old(r).spec_buf();
                let p = old(r).pos as int;
                b.len() - p >= READ_IN_SIZE ==> ({
                    let ri = spec_read_in(b, p);
                    &&& (ri.size > self.spec_fs().spec_max_buffer_size() ==> final(w).spec_buf() == old(w).spec_buf() + spec_err_reply(ENOMEM, in_header.unique) && res == Ok::<
                        usize,
                        Error,
                    >(OUT_HEADER_SIZE))
                    &&& (ri.size <= self.spec_fs().spec_max_buffer_size() && res is Ok ==> ((exists|
                        e: i32,
                    |
                        final(w).spec_buf() == old(w).spec_buf() + spec_err_reply(
                            e,
                            in_header.unique,
                        )) || (exists|items: Seq<(DirEntry, EntryOut)>|
                        final(w).spec_buf() == old(w).spec_buf() + spec_ok_reply(
                            #[trigger] spec_plus_records(items),
                            in_header.unique,
                        ) && spec_plus_records(items).len() <= ri.size)))
                })
            }),
    {
        let ri = match r.read_read_in() {
            Ok(x) => x,
            Err(e) => {
                return Err(e);
            },
        };

        if ri.size > self.fs.max_buffer_size() {
            return reply_error(ENOMEM, in_header.unique, w);
        }

        if !w.has_sufficient_buffer(ri.size) {
            return reply_error(ENOMEM, in_header.unique, w);
        }

        // Skip over enough bytes for the header; the looked-up records
        // are packed after it and the header filled in once the body's
        // length is known.
        let start = w.len();
        w.reserve(OUT_HEADER_SIZE);
        match self.fs.readdir(
            Context::from(in_header),
            in_header.nodeid,
            ri.fh,
            ri.size,
            ri.offset,
        ) {
            Ok(entries) => {
                let ghost before_pack = w.spec_buf();
                match self.pack_plus_dirents(in_header, &entries, ri.size, w) {
                    Ok(total_written) => {
                        let ghost items = choose|items: Seq<(DirEntry, EntryOut)>|
                            (#[trigger] spec_plus_records(items)).len() == total_written
                                && w.spec_buf() == before_pack + spec_plus_records(items);
                        proof {
                            assert(w.spec_buf().skip(start + OUT_HEADER_SIZE)
                                =~= spec_plus_records(items));
                            assert(w.spec_buf().subrange(0, start as int) =~= old(w).spec_buf());
                        }
                        let r2 = reply_readdir(total_written, in_header.unique, start, w);
                        proof {
                            assert(w.spec_buf() =~= old(w).spec_buf() + spec_ok_reply(
                                spec_plus_records(items),
                                in_header.unique,
                            ));
                        }
                        r2
                    },
                    Err(e) => {
                        w.truncate_to(start);
                        proof {
                            assert(w.spec_buf() =~= old(w).spec_buf());
                        }
                        reply_error(e, in_header.unique, w)
                    },
                }
            },
            Err(e) => {
                w.truncate_to(start);
                proof {
                    assert(w.spec_buf() =~= old(w).spec_buf());
                }
                reply_error(e, in_header.unique, w)
            },
        }
    }

    pub fn releasedir(&self, in_header: InHeader, r: &mut Reader, w: &mut Writer) -> (res: Result<
        usize,
        Error,
    >)
        requires
            old(r).wf(),
        ensures
            final(r).wf(),
            spec_appended(old(w).spec_buf(), final(w).spec_buf()),
            res is Ok ==> spec_some_reply(old(w).spec_buf(), final(w).spec_buf(), in_header.unique),
            res is Err <==> old(r).spec_remaining() < RELEASE_IN_SIZE,
            res is Err ==> res == Err::<usize, Error>(Error::DecodeMessage) && final(w).spec_buf()
                == old(w).spec_buf(),
    {
        let ri = match r.read_release_in() {
            Ok(x) => x,
            Err(e) => {
                return Err(e);
            },
        };

        match self.fs.releasedir(Context::from(in_header), in_header.nodeid, ri.flags, ri.fh) {
            Ok(()) => reply_ok(None, None, in_header.unique, w),
            Err(e) => reply_error(e, in_header.unique, w),
        }
    }

    pub fn fsyncdir(&self, in_header: InHeader, r: &mut Reader, w: &mut Writer) -> (res: Result<
        usize,
        Error,
    >)
        requires
            old(r).wf(),
        ensures
            final(r).wf(),
            spec_appended(old(w).spec_buf(), final(w).spec_buf()),
            res is Ok ==> spec_some_reply(old(w).spec_buf(), final(w).spec_buf(), in_header.unique),
            res is Err <==> old(r).spec_remaining() < FSYNC_IN_SIZE,
            res is Err ==> res == Err::<usize, Error>(Error::DecodeMessage) && final(w).spec_buf()
                == old(w).spec_buf(),
    {
        let fi = match r.read_fsync_in() {
            Ok(x) => x,
            Err(e) => {
                return Err(e);
            },
        };
        let datasync = fi.fsync_flags & 0x1 != 0;

        match self.fs.fsyncdir(Context::from(in_header), in_header.nodeid, datasync, fi.fh) {
            Ok(()) => reply_ok(None, None, in_header.unique, w),
            Err(e) => reply_error(e, in_header.unique, w),
        }
    }

    pub fn getlk(&self, in_header: InHeader, w: &mut Writer) -> (res: Result<usize, Error>)
        ensures
            spec_appended(old(w).spec_buf(), final(w).spec_buf()),
            res is Ok,
            final(w).spec_buf() == old(w).spec_buf() || spec_some_reply(
                old(w).spec_buf(),
                final(w).spec_buf(),
                in_header.unique,
            ),
    {
        if let Err(e) = self.fs.getlk() {
            reply_error(e, in_header.unique, w)
        } else {
            Ok(0)
        }
    }

    pub fn setlk(&self, in_header: InHeader, w: &mut Writer) -> (res: Result<usize, Error>)
        ensures
            spec_appended(old(w).spec_buf(), final(w).spec_buf()),
            res is Ok,
            final(w).spec_buf() == old(w).spec_buf() || spec_some_reply(
                old(w).spec_buf(),
                final(w).spec_buf(),
                in_header.unique,
            ),
    {
        if let Err(e) = self.fs.setlk() {
            reply_error(e, in_header.unique, w)
        } else {
            Ok(0)
        }
    }

    pub fn setlkw(&self, in_header: InHeader, w: &mut Writer) -> (res: Result<usize, Error>)
        ensures
            spec_appended(old(w).spec_buf(), final(w).spec_buf()),
            res is Ok,
            final(w).spec_buf() == old(w).spec_buf() || spec_some_reply(
                old(w).spec_buf(),
                final(w).spec_buf(),
                in_header.unique,
            ),
    {
        if let Err(e) = self.fs.setlkw() {
            reply_error(e, in_header.unique, w)
        } else {
            Ok(0)
        }
    }

    pub fn access(&self, in_header: InHeader, r: &mut Reader, w: &mut Writer) -> (res: Result<
        usize,
        Error,
    >)
        requires
            old(r).wf(),
        ensures
            final(r).wf(),
            spec_appended(old(w).spec_buf(), final(w).spec_buf()),
            res is Ok ==> spec_some_reply(old(w).spec_buf(), final(w).spec_buf(), in_header.unique),
            res is Err <==> old(r).spec_remaining() < ACCESS_IN_SIZE,
            res is Err ==> res == Err::<usize, Error>(Error::DecodeMessage) && final(w).spec_buf()
                == old(w).spec_buf(),
    {
        let ai = match r.read_access_in() {
            Ok(x) => x,
            Err(e) => {
                return Err(e);
            },
        };

        match self.fs.access(Context::from(in_header), in_header.nodeid, ai.mask) {
            Ok(()) => reply_ok(None, None, in_header.unique, w),
            Err(e) => reply_error(e, in_header.unique, w),
        }
    }

    #[verifier::rlimit(100)]
    pub fn create(&self, in_header: InHeader, r: &mut Reader, w: &mut Writer) -> (res: Result<
        usize,
        Error,
    >)
        requires
            old(r).wf(),
        ensures
            final(r).wf(),
            spec_appended(old(w).spec_buf(), final(w).spec_buf()),
            ({
                let b = old(r).spec_buf();
                let p = old(r).pos as int;
                let buflen = in_header.len - IN_HEADER_SIZE - CREATE_IN_SIZE;
                let bstart = p + CREATE_IN_SIZE;
                &&& (b.len() - p < CREATE_IN_SIZE ==> res == Err::<usize, Error>(
                    Error::DecodeMessage,
                ))
                &&& (b.len() - p >= CREATE_IN_SIZE && in_header.len < IN_HEADER_SIZE + CREATE_IN_SIZE ==> res
                    == Err::<usize, Error>(Error::InvalidHeaderLength))
                &&& (b.len() - p >= CREATE_IN_SIZE && in_header.len >= IN_HEADER_SIZE + CREATE_IN_SIZE && b.len()
                    - bstart < buflen ==> res == Err::<usize, Error>(Error::DecodeMessage))
                &&& (b.len() - p >= CREATE_IN_SIZE && in_header.len >= IN_HEADER_SIZE + CREATE_IN_SIZE
                    && b.len() - bstart >= buflen ==> (
                    match spec_name_secctx_check(b.subrange(bstart, bstart + buflen)) {
                        Ok(_) => res is Ok,
                        Err(e) => res == Err::<usize, Error>(e),
                    }
                ))
            }),
            res is Ok ==> spec_some_reply(old(w).spec_buf(), final(w).spec_buf(), in_header.unique),
            res is Err ==> final(w).spec_buf() == old(w).spec_buf(),
    {
        let ci = match r.read_create_in() {
            Ok(x) => x,
            Err(e) => {
                return Err(e);
            },
        };

        let buflen = match (in_header.len as usize).checked_sub(IN_HEADER_SIZE) {
            Some(n) => match n.checked_sub(CREATE_IN_SIZE) {
                Some(n2) => n2,
                None => {
                    return Err(Error::InvalidHeaderLength);
                },
            },
            None => {
                return Err(Error::InvalidHeaderLength);
            },
        };
        let buf = match r.read_exact_vec(buflen) {
            Ok(b) => b,
            Err(e) => {
                return Err(e);
            },
        };

        let n1 = match find_first_nul(buf.as_slice(), 0) {
            Some(n) => n,
            None => {
                return Err(if buf.len() == 0 {
                    Error::MissingParameter
                } else {
                    Error::InvalidCString
                });
            },
        };
        let name = vstd::slice::slice_to_vec(vstd::slice::slice_subrange(buf.as_slice(), 0, n1));
        let security_ctx = match parse_selinux_xattr(
            vstd::slice::slice_subrange(buf.as_slice(), n1 + 1, buf.len()),
        ) {
            Ok(s) => s,
            Err(e) => {
                return Err(e);
            },
        };

        match self.fs.create(
            Context::from(in_header),
            in_header.nodeid,
            &name,
            ci.mode,
            ci.flags,
            ci.umask,
            security_ctx,
        ) {
            Ok((entry, handle, opts)) => {
                let entry_out = entry_out_vec(entry);
                let open_out = OpenOut {
                    fh: match handle {
                        Some(h) => h,
                        None => 0,
                    },
                    open_flags: opts,
                    padding: 0,
                };
                let mut oov: Vec<u8> = Vec::new();
                push_open_out(&mut oov, open_out);

                // The reply carries both out structures back to back.
                reply_ok(Some(&entry_out), Some(oov.as_slice()), in_header.unique, w)
            },
            Err(e) => reply_error(e, in_header.unique, w),
        }
    }

    pub fn interrupt(&self, in_header: InHeader) -> (res: Result<usize, Error>) {
        let _ = in_header;
        Ok(0)
    }

    pub fn bmap(&self, in_header: InHeader, w: &mut Writer) -> (res: Result<usize, Error>)
        ensures
            spec_appended(old(w).spec_buf(), final(w).spec_buf()),
            res is Ok,
            final(w).spec_buf() == old(w).spec_buf() || spec_some_reply(
                old(w).spec_buf(),
                final(w).spec_buf(),
                in_header.unique,
            ),
    {
        if let Err(e) = self.fs.bmap() {
            reply_error(e, in_header.unique, w)
        } else {
            Ok(0)
        }
    }

    pub fn destroy(&self) -> (res: Result<usize, Error>) {
        // No reply to this function.
        self.fs.destroy();

        Ok(0)
    }

    pub fn ioctl(&self, in_header: InHeader, r: &mut Reader, w: &mut Writer) -> (res: Result<
        usize,
        Error,
    >)
        requires
            old(r).wf(),
        ensures
            final(r).wf(),
            spec_appended(old(w).spec_buf(), final(w).spec_buf()),
            res is Err ==> final(w).spec_buf() == old(w).spec_buf(),
            res is Ok ==> spec_some_reply(old(w).spec_buf(), final(w).spec_buf(), in_header.unique),
            old(r).spec_remaining() < IOCTL_IN_SIZE ==> res == Err::<usize, Error>(
                Error::DecodeMessage,
            ),
            res is Err ==> (res == Err::<usize, Error>(Error::DecodeMessage)
                && old(r).spec_remaining() < IOCTL_IN_SIZE) || (res->Err_0 matches
                Error::TooManyIovecs(_, _)),
    {
        let ii = match r.read_ioctl_in() {
            Ok(x) => x,
            Err(e) => {
                return Err(e);
            },
        };

        let reply = self.fs.ioctl(
            Context::from(in_header),
            in_header.nodeid,
            ii.fh,
            ii.flags,
            ii.cmd,
            ii.arg,
            ii.in_size,
            ii.out_size,
            r,
        );

        match reply {
            Ok(IoctlReply::Retry { input, output }) => retry_ioctl(
                in_header.unique,
                input,
                output,
                w,
            ),
            Ok(IoctlReply::Done(ioctl_res)) => finish_ioctl(in_header.unique, ioctl_res, w),
            Err(e) => reply_error(e, in_header.unique, w),
        }
    }

    pub fn poll(&self, in_header: InHeader, w: &mut Writer) -> (res: Result<usize, Error>)
        ensures
            spec_appended(old(w).spec_buf(), final(w).spec_buf()),
            res is Ok,
            final(w).spec_buf() == old(w).spec_buf() || spec_some_reply(
                old(w).spec_buf(),
                final(w).spec_buf(),
                in_header.unique,
            ),
    {
        if let Err(e) = self.fs.poll() {
            reply_error(e, in_header.unique, w)
        } else {
            Ok(0)
        }
    }

    pub fn notify_reply(&self, in_header: InHeader, w: &mut Writer) -> (res: Result<usize, Error>)
        ensures
            spec_appended(old(w).spec_buf(), final(w).spec_buf()),
            res is Ok,
            final(w).spec_buf() == old(w).spec_buf() || spec_some_reply(
                old(w).spec_buf(),
                final(w).spec_buf(),
                in_header.unique,
            ),
    {
        if let Err(e) = self.fs.notify_reply() {
            reply_error(e, in_header.unique, w)
        } else {
            Ok(0)
        }
    }

    pub fn batch_forget(&self, in_header: InHeader, r: &mut Reader, w: &mut Writer) -> (res: Result<
        usize,
        Error,
    >)
        requires
            old(r).wf(),
        ensures
            final(r).wf(),
            spec_appended(old(w).spec_buf(), final(w).spec_buf()),
            res is Err ==> res == Err::<usize, Error>(Error::DecodeMessage) && final(w).spec_buf()
                == old(w).spec_buf(),
            final(w).spec_buf() == old(w).spec_buf() || spec_some_reply(
                old(w).spec_buf(),
                final(w).spec_buf(),
                in_header.unique,
            ),
            old(r).spec_remaining() < BATCH_FORGET_IN_SIZE ==> res == Err::<usize, Error>(
                Error::DecodeMessage,
            ),
            ({
                let b = old(r).spec_buf();
                let p = old(r).pos as int;
                let count = spec_batch_forget_in(b, p).count as int;
                b.len() - p >= BATCH_FORGET_IN_SIZE ==> ({
                    &&& (count * FORGET_ONE_SIZE > usize::MAX ==> final(w).spec_buf() == old(w).spec_buf() + spec_err_reply(EOVERFLOW, in_header.unique) && res == Ok::<
                        usize,
                        Error,
                    >(OUT_HEADER_SIZE))
                    &&& (count * FORGET_ONE_SIZE <= usize::MAX && count * FORGET_ONE_SIZE
                        > self.spec_fs().spec_max_buffer_size() ==> final(w).spec_buf() == old(w).spec_buf() + spec_err_reply(ENOMEM, in_header.unique) && res == Ok::<
                        usize,
                        Error,
                    >(OUT_HEADER_SIZE))
                    &&& (count * FORGET_ONE_SIZE <= usize::MAX && count * FORGET_ONE_SIZE
                        <= self.spec_fs().spec_max_buffer_size() && b.len() - p - BATCH_FORGET_IN_SIZE
                        < count * FORGET_ONE_SIZE ==> res == Err::<usize, Error>(
                        Error::DecodeMessage,
                    ))
                    &&& (count * FORGET_ONE_SIZE <= usize::MAX && count * FORGET_ONE_SIZE
                        <= self.spec_fs().spec_max_buffer_size() && b.len() - p - BATCH_FORGET_IN_SIZE
                        >= count * FORGET_ONE_SIZE ==> res == Ok::<usize, Error>(0) && final(w).spec_buf() == old(w).spec_buf())
                })
            }),
    {
        let bi = match r.read_batch_forget_in() {
            Ok(x) => x,
            Err(e) => {
                return Err(e);
            },
        };

        match (bi.count as usize).checked_mul(FORGET_ONE_SIZE) {
            Some(size) => {
                if size > self.fs.max_buffer_size() as usize {
                    return reply_error(ENOMEM, in_header.unique, w);
                }
            },
            None => {
                return reply_error(EOVERFLOW, in_header.unique, w);
            },
        }

        let mut requests: Vec<(u64, u64)> = Vec::new();
        let mut i: u32 = 0;
        while i < bi.count
            invariant
                r.wf(),
                r.spec_buf() == old(r).spec_buf(),
                w.spec_buf() == old(w).spec_buf(),
                i <= bi.count,
                old(r).spec_remaining() >= BATCH_FORGET_IN_SIZE,
                bi == spec_batch_forget_in(old(r).spec_buf(), old(r).pos as int),
                (bi.count as int) * FORGET_ONE_SIZE <= usize::MAX,
                (bi.count as int) * FORGET_ONE_SIZE <= self.spec_fs().spec_max_buffer_size(),
                r.pos == old(r).pos + BATCH_FORGET_IN_SIZE + i * FORGET_ONE_SIZE,
            decreases bi.count - i,
        {
            let f = match r.read_forget_one() {
                Ok(f) => f,
                Err(e) => {
                    proof {
                        assert(old(r).spec_buf().len() - old(r).pos - BATCH_FORGET_IN_SIZE < (
                        bi.count as int) * FORGET_ONE_SIZE);
                    }
                    return Err(e);
                },
            };
            requests.push((f.nodeid, f.nlookup));
            i = i + 1;
        }
        proof {
            assert(old(r).spec_buf().len() - old(r).pos - BATCH_FORGET_IN_SIZE >= (
            bi.count as int) * FORGET_ONE_SIZE);
        }

        self.fs.batch_forget(Context::from(in_header), requests);

        // No reply for forget messages.
        Ok(0)
    }

    pub fn fallocate(&self, in_header: InHeader, r: &mut Reader, w: &mut Writer) -> (res: Result<
        usize,
        Error,
    >)
        requires
            old(r).wf(),
        ensures
            final(r).wf(),
            spec_appended(old(w).spec_buf(), final(w).spec_buf()),
            res is Ok ==> spec_some_reply(old(w).spec_buf(), final(w).spec_buf(), in_header.unique),
            res is Err <==> old(r).spec_remaining() < FALLOCATE_IN_SIZE,
            res is Err ==> res == Err::<usize, Error>(Error::DecodeMessage) && final(w).spec_buf()
                == old(w).spec_buf(),
    {
        let fi = match r.read_fallocate_in() {
            Ok(x) => x,
            Err(e) => {
                return Err(e);
            },
        };

        match self.fs.fallocate(
            Context::from(in_header),
            in_header.nodeid,
            fi.fh,
            fi.mode,
            fi.offset,
            fi.length,
        ) {
            Ok(()) => reply_ok(None, None, in_header.unique, w),
            Err(e) => reply_error(e, in_header.unique, w),
        }
    }

    pub fn lseek(&self, in_header: InHeader, w: &mut Writer) -> (res: Result<usize, Error>)
        ensures
            spec_appended(old(w).spec_buf(), final(w).spec_buf()),
            res is Ok,
            final(w).spec_buf() == old(w).spec_buf() || spec_some_reply(
                old(w).spec_buf(),
                final(w).spec_buf(),
                in_header.unique,
            ),
    {
        if let Err(e) = self.fs.lseek() {
            reply_error(e, in_header.unique, w)
        } else {
            Ok(0)
        }
    }

    pub fn copy_file_range(&self, in_header: InHeader, r: &mut Reader, w: &mut Writer) -> (res: Result<
        usize,
        Error,
    >)
        requires
            old(r).wf(),
        ensures
            final(r).wf(),
            spec_appended(old(w).spec_buf(), final(w).spec_buf()),
            res is Ok ==> spec_some_reply(old(w).spec_buf(), final(w).spec_buf(), in_header.unique),
            res is Err <==> old(r).spec_remaining() < COPY_FILE_RANGE_IN_SIZE,
            res is Err ==> res == Err::<usize, Error>(Error::DecodeMessage) && final(w).spec_buf()
                == old(w).spec_buf(),
    {
        let ci = match r.read_copy_file_range_in() {
            Ok(x) => x,
            Err(e) => {
                return Err(e);
            },
        };

        match self.fs.copy_file_range(
            Context::from(in_header),
            in_header.nodeid,
            ci.fh_src,
            ci.off_src,
            ci.nodeid_dst,
            ci.fh_dst,
            ci.off_dst,
            ci.len,
            ci.flags,
        ) {
            Ok(count) => {
                let out = WriteOut { size: count as u32, padding: 0 };
                let mut ov: Vec<u8> = Vec::new();
                push_write_out(&mut ov, out);
                reply_ok(Some(&ov), None, in_header.unique, w)
            },
            Err(e) => reply_error(e, in_header.unique, w),
        }
    }

    pub fn set_up_mapping(
        &self,
        in_header: InHeader,
        r: &mut Reader,
        w: &mut Writer,
        mapper: &dyn Mapper,
    ) -> (res: Result<usize, Error>)
        requires
            old(r).wf(),
        ensures
            final(r).wf(),
            spec_appended(old(w).spec_buf(), final(w).spec_buf()),
            res is Ok ==> spec_some_reply(old(w).spec_buf(), final(w).spec_buf(), in_header.unique),
            res is Err <==> old(r).spec_remaining() < SET_UP_MAPPING_IN_SIZE,
            res is Err ==> res == Err::<usize, Error>(Error::DecodeMessage) && final(w).spec_buf()
                == old(w).spec_buf(),
            ({
                let b = old(r).spec_buf();
                let p = old(r).pos as int;
                b.len() - p >= SET_UP_MAPPING_IN_SIZE && spec_set_up_mapping_in(b, p).len
                    > usize::MAX ==> final(w).spec_buf() == old(w).spec_buf() + spec_err_reply(
                    EOVERFLOW,
                    in_header.unique,
                ) && res == Ok::<usize, Error>(OUT_HEADER_SIZE)
            }),
    {
        let si = match r.read_set_up_mapping_in() {
            Ok(x) => x,
            Err(e) => {
                return Err(e);
            },
        };

        let mut prot: u32 = 0;
        if si.flags & SETUPMAPPING_FLAG_READ != 0 {
            prot = prot | PROT_READ;
        }
        if si.flags & SETUPMAPPING_FLAG_WRITE != 0 {
            prot = prot | PROT_WRITE;
        }

        if si.len > usize::MAX as u64 {
            return reply_error(EOVERFLOW, in_header.unique, w);
        }
        let size = si.len as usize;

        match self.fs.set_up_mapping(
            Context::from(in_header),
            in_header.nodeid,
            si.fh,
            si.foffset,
            si.moffset,
            size,
            prot,
            mapper,
        ) {
            Ok(()) => reply_ok(None, None, in_header.unique, w),
            Err(e) => reply_error(e, in_header.unique, w),
        }
    }

    pub fn remove_mapping(
        &self,
        in_header: InHeader,
        r: &mut Reader,
        w: &mut Writer,
        mapper: &dyn Mapper,
    ) -> (res: Result<usize, Error>)
        requires
            old(r).wf(),
        ensures
            final(r).wf(),
            spec_appended(old(w).spec_buf(), final(w).spec_buf()),
            res is Ok ==> spec_some_reply(old(w).spec_buf(), final(w).spec_buf(), in_header.unique),
            res is Err ==> res == Err::<usize, Error>(Error::DecodeMessage) && final(w).spec_buf()
                == old(w).spec_buf(),
            old(r).spec_remaining() < REMOVE_MAPPING_IN_SIZE ==> res == Err::<usize, Error>(
                Error::DecodeMessage,
            ),
            ({
                let b = old(r).spec_buf();
                let p = old(r).pos as int;
                let count = spec_remove_mapping_in(b, p).count as int;
                b.len() - p >= REMOVE_MAPPING_IN_SIZE ==> ({
                    let max_entry = PAGE_SIZE / (REMOVE_MAPPING_ONE_SIZE as u32);
                    &&& (count > max_entry ==> final(w).spec_buf() == old(w).spec_buf()
                        + spec_err_reply(EINVAL, in_header.unique) && res == Ok::<usize, Error>(
                        OUT_HEADER_SIZE,
                    ))
                    &&& (count <= max_entry && b.len() - p - REMOVE_MAPPING_IN_SIZE < count
                        * REMOVE_MAPPING_ONE_SIZE ==> res == Err::<usize, Error>(
                        Error::DecodeMessage,
                    ))
                    &&& (count <= max_entry && b.len() - p - REMOVE_MAPPING_IN_SIZE >= count
                        * REMOVE_MAPPING_ONE_SIZE ==> res is Ok)
                })
            }),
    {
        let ri = match r.read_remove_mapping_in() {
            Ok(x) => x,
            Err(e) => {
                return Err(e);
            },
        };

        // The kernel bounds the entry count by how many fit in one page.
        let max_entry = (PAGE_SIZE as usize) / REMOVE_MAPPING_ONE_SIZE;

        if max_entry < ri.count as usize {
            return reply_error(EINVAL, in_header.unique, w);
        }

        let mut msgs: Vec<RemoveMappingOne> = Vec::new();
        let mut i: u32 = 0;
        while i < ri.count
            invariant
                r.wf(),
                r.spec_buf() == old(r).spec_buf(),
                w.spec_buf() == old(w).spec_buf(),
                i <= ri.count,
                ri.count <= PAGE_SIZE / (REMOVE_MAPPING_ONE_SIZE as u32),
                old(r).spec_remaining() >= REMOVE_MAPPING_IN_SIZE,
                ri == spec_remove_mapping_in(old(r).spec_buf(), old(r).pos as int),
                r.pos == old(r).pos + REMOVE_MAPPING_IN_SIZE + i * REMOVE_MAPPING_ONE_SIZE,
            decreases ri.count - i,
        {
            let m = match r.read_remove_mapping_one() {
                Ok(m) => m,
                Err(e) => {
                    proof {
                        assert(old(r).spec_buf().len() - old(r).pos - REMOVE_MAPPING_IN_SIZE < (
                        ri.count as int) * REMOVE_MAPPING_ONE_SIZE);
                    }
                    return Err(e);
                },
            };
            msgs.push(m);
            i = i + 1;
        }
        proof {
            assert(old(r).spec_buf().len() - old(r).pos - REMOVE_MAPPING_IN_SIZE >= (
            ri.count as int) * REMOVE_MAPPING_ONE_SIZE);
        }

        match self.fs.remove_mapping(&msgs, mapper) {
            Ok(()) => reply_ok(None, None, in_header.unique, w),
            Err(e) => reply_error(e, in_header.unique, w),
        }
    }

    #[verifier::rlimit(100)]
    pub fn open_atomic(&self, in_header: InHeader, r: &mut Reader, w: &mut Writer) -> (res: Result<
        usize,
        Error,
    >)
        requires
            old(r).wf(),
        ensures
            final(r).wf(),
            spec_appended(old(w).spec_buf(), final(w).spec_buf()),
            ({
                let b = old(r).spec_buf();
                let p = old(r).pos as int;
                let buflen = in_header.len - IN_HEADER_SIZE - CREATE_IN_SIZE;
                let bstart = p + CREATE_IN_SIZE;
                &&& (b.len() - p < CREATE_IN_SIZE ==> res == Err::<usize, Error>(
                    Error::DecodeMessage,
                ))
                &&& (b.len() - p >= CREATE_IN_SIZE && in_header.len < IN_HEADER_SIZE + CREATE_IN_SIZE ==> res
                    == Err::<usize, Error>(Error::InvalidHeaderLength))
                &&& (b.len() - p >= CREATE_IN_SIZE && in_header.len >= IN_HEADER_SIZE + CREATE_IN_SIZE && b.len()
                    - bstart < buflen ==> res == Err::<usize, Error>(Error::DecodeMessage))
                &&& (b.len() - p >= CREATE_IN_SIZE && in_header.len >= IN_HEADER_SIZE + CREATE_IN_SIZE
                    && b.len() - bstart >= buflen ==> (
                    match spec_name_secctx_check(b.subrange(bstart, bstart + buflen)) {
                        Ok(_) => res is Ok,
                        Err(e) => res == Err::<usize, Error>(e),
                    }
                ))
            }),
            res is Ok ==> spec_some_reply(old(w).spec_buf(), final(w).spec_buf(), in_header.unique),
            res is Err ==> final(w).spec_buf() == old(w).spec_buf(),
    {
        let ci = match r.read_create_in() {
            Ok(x) => x,
            Err(e) => {
                return Err(e);
            },
        };

        let buflen = match (in_header.len as usize).checked_sub(IN_HEADER_SIZE) {
            Some(n) => match n.checked_sub(CREATE_IN_SIZE) {
                Some(n2) => n2,
                None => {
                    return Err(Error::InvalidHeaderLength);
                },
            },
            None => {
                return Err(Error::InvalidHeaderLength);
            },
        };
        let buf = match r.read_exact_vec(buflen) {
            Ok(b) => b,
            Err(e) => {
                return Err(e);
            },
        };

        let n1 = match find_first_nul(buf.as_slice(), 0) {
            Some(n) => n,
            None => {
                return Err(if buf.len() == 0 {
                    Error::MissingParameter
                } else {
                    Error::InvalidCString
                });
            },
        };
        let name = vstd::slice::slice_to_vec(vstd::slice::slice_subrange(buf.as_slice(), 0, n1));
        let security_ctx = match parse_selinux_xattr(
            vstd::slice::slice_subrange(buf.as_slice(), n1 + 1, buf.len()),
        ) {
            Ok(s) => s,
            Err(e) => {
                return Err(e);
            },
        };

        match self.fs.atomic_open(
            Context::from(in_header),
            in_header.nodeid,
            &name,
            ci.mode,
            ci.flags,
            ci.umask,
            security_ctx,
        ) {
            Ok((entry, handle, opts)) => {
                let entry_out = entry_out_vec(entry);
                let open_out = OpenOut {
                    fh: match handle {
                        Some(h) => h,
                        None => 0,
                    },
                    open_flags: opts,
                    padding: 0,
                };
                let mut oov: Vec<u8> = Vec::new();
                push_open_out(&mut oov, open_out);

                // The reply carries both out structures back to back.
                reply_ok(Some(&entry_out), Some(oov.as_slice()), in_header.unique, w)
            },
            Err(e) => reply_error(e, in_header.unique, w),
        }
    }
}


/// Round trip of one packed readdirplus record standing at offset
/// `pre.len()` of a reply body: parsing the encoded bytes recovers the
/// embedded attribute entry's inode and generation, and the dirent's
/// inode, resume offset, type and name. Applied record by record, a whole
/// encoded response parses back to its directory entries.
#[verifier::rlimit(100)]
#[verifier::spinoff_prover]
pub proof fn lemma_dirent_record_round_trip(pre: Seq<u8>, d: DirEntry, e: EntryOut, rest: Seq<u8>)
    requires
        d.name@.len() <= u32::MAX,
    ensures
        ({
            let b = pre + spec_dirent_record(d, Some(e)) + rest;
            let off = pre.len() as int;
            &&& sle64(b, off) == e.nodeid
            &&& sle64(b, off + 8) == e.generation
            &&& sle64(b, off + ENTRY_OUT_SIZE) == d.ino
            &&& sle64(b, off + ENTRY_OUT_SIZE + 8) == d.offset
            &&& sle32(b, off + ENTRY_OUT_SIZE + 16) == d.name@.len()
            &&& sle32(b, off + ENTRY_OUT_SIZE + 20) == d.type_
            &&& b.subrange(
                off + ENTRY_OUT_SIZE + DIRENT_SIZE,
                off + ENTRY_OUT_SIZE + DIRENT_SIZE + d.name@.len(),
            ) == d.name@
        }),
{
    reveal(spec_padded_dirent);
    reveal(crate::fuse::sys::spec_entry_out_bytes);
    reveal(crate::fuse::sys::spec_dirent_bytes);
    let rec = spec_dirent_record(d, Some(e));
    let b = pre + rec + rest;
    let off = pre.len() as int;
    let ebytes = spec_entry_out_bytes(e);
    let dirent = Dirent {
        ino: d.ino,
        off: d.offset,
        namelen: d.name@.len() as u32,
        type_: d.type_,
    };
    let dbytes = spec_dirent_bytes(dirent);
    assert(ebytes.len() == ENTRY_OUT_SIZE);
    assert(dbytes.len() == DIRENT_SIZE);

    assert forall|i: int| 0 <= i < 8 implies b[off + i] == le64(e.nodeid)[i] by {
        assert(b[off + i] == rec[i]);
        assert(rec[i] == ebytes[i]);
    }
    lemma_sle64_of_le64(b, off, e.nodeid);

    assert forall|i: int| 0 <= i < 8 implies b[off + 8 + i] == le64(e.generation)[i] by {
        assert(b[off + 8 + i] == rec[8 + i]);
        assert(rec[8 + i] == ebytes[8 + i]);
    }
    lemma_sle64_of_le64(b, off + 8, e.generation);

    assert forall|i: int| 0 <= i < 8 implies b[off + ENTRY_OUT_SIZE + i] == le64(d.ino)[i] by {
        assert(b[off + ENTRY_OUT_SIZE + i] == rec[ENTRY_OUT_SIZE + i]);
        assert(rec[ENTRY_OUT_SIZE + i] == dbytes[i]);
    }
    lemma_sle64_of_le64(b, off + ENTRY_OUT_SIZE, d.ino);

    assert forall|i: int| 0 <= i < 8 implies b[off + ENTRY_OUT_SIZE + 8 + i] == le64(d.offset)[i]
        by {
        assert(b[off + ENTRY_OUT_SIZE + 8 + i] == rec[ENTRY_OUT_SIZE + 8 + i]);
        assert(rec[ENTRY_OUT_SIZE + 8 + i] == dbytes[8 + i]);
    }
    lemma_sle64_of_le64(b, off + ENTRY_OUT_SIZE + 8, d.offset);

    assert forall|i: int| 0 <= i < 4 implies b[off + ENTRY_OUT_SIZE + 16 + i] == le32(
        dirent.namelen,
    )[i] by {
        assert(b[off + ENTRY_OUT_SIZE + 16 + i] == rec[ENTRY_OUT_SIZE + 16 + i]);
        assert(rec[ENTRY_OUT_SIZE + 16 + i] == dbytes[16 + i]);
    }
    lemma_sle32_of_le32(b, off + ENTRY_OUT_SIZE + 16, dirent.namelen);

    assert forall|i: int| 0 <= i < 4 implies b[off + ENTRY_OUT_SIZE + 20 + i] == le32(d.type_)[i]
        by {
        assert(b[off + ENTRY_OUT_SIZE + 20 + i] == rec[ENTRY_OUT_SIZE + 20 + i]);
        assert(rec[ENTRY_OUT_SIZE + 20 + i] == dbytes[20 + i]);
    }
    lemma_sle32_of_le32(b, off + ENTRY_OUT_SIZE + 20, d.type_);

    assert(b.subrange(
        off + ENTRY_OUT_SIZE + DIRENT_SIZE,
        off + ENTRY_OUT_SIZE + DIRENT_SIZE + d.name@.len(),
    ) =~= d.name@);
}

} // verus!
