//! ACPI objects and their translation into AML (ACPI Machine Language)
//! byte streams, as appended to a DSDT handed to the guest.

use vstd::prelude::*;
use vstd::string::StringSliceAdditionalSpecFns;

verus! {

// AML byte stream defines
pub const ZEROOP: u8 = 0x00;
pub const ONEOP: u8 = 0x01;
pub const NAMEOP: u8 = 0x08;
pub const BYTEPREFIX: u8 = 0x0a;
pub const WORDPREFIX: u8 = 0x0b;
pub const DWORDPREFIX: u8 = 0x0c;
pub const STRINGOP: u8 = 0x0d;
pub const QWORDPREFIX: u8 = 0x0e;
pub const SCOPEOP: u8 = 0x10;
pub const BUFFEROP: u8 = 0x11;
pub const PACKAGEOP: u8 = 0x12;
pub const VARPACKAGEOP: u8 = 0x13;
pub const METHODOP: u8 = 0x14;
pub const DUALNAMEPREFIX: u8 = 0x2e;
pub const MULTINAMEPREFIX: u8 = 0x2f;
pub const NAMECHARBASE: u8 = 0x40;

pub const EXTOPPREFIX: u8 = 0x5b;
pub const MUTEXOP: u8 = 0x01;
pub const CREATEFIELDOP: u8 = 0x13;
pub const ACQUIREOP: u8 = 0x23;
pub const RELEASEOP: u8 = 0x27;
pub const OPREGIONOP: u8 = 0x80;
pub const FIELDOP: u8 = 0x81;
pub const DEVICEOP: u8 = 0x82;
pub const POWERRESOURCEOP: u8 = 0x84;

pub const LOCAL0OP: u8 = 0x60;
pub const ARG0OP: u8 = 0x68;
pub const STOREOP: u8 = 0x70;
pub const ADDOP: u8 = 0x72;
pub const CONCATOP: u8 = 0x73;
pub const SUBTRACTOP: u8 = 0x74;
pub const MULTIPLYOP: u8 = 0x77;
pub const SHIFTLEFTOP: u8 = 0x79;
pub const SHIFTRIGHTOP: u8 = 0x7a;
pub const ANDOP: u8 = 0x7b;
pub const NANDOP: u8 = 0x7c;
pub const OROP: u8 = 0x7d;
pub const NOROP: u8 = 0x7e;
pub const XOROP: u8 = 0x7f;
pub const DEREFOFOP: u8 = 0x83;
pub const CONCATRESOP: u8 = 0x84;
pub const MODOP: u8 = 0x85;
pub const NOTIFYOP: u8 = 0x86;
pub const SIZEOFOP: u8 = 0x87;
pub const INDEXOP: u8 = 0x88;
pub const CREATEDWFIELDOP: u8 = 0x8a;
pub const OBJECTTYPEOP: u8 = 0x8e;
pub const CREATEQWFIELDOP: u8 = 0x8f;
pub const LNOTOP: u8 = 0x92;
pub const LEQUALOP: u8 = 0x93;
pub const LGREATEROP: u8 = 0x94;
pub const LLESSOP: u8 = 0x95;
pub const TOBUFFEROP: u8 = 0x96;
pub const TOINTEGEROP: u8 = 0x99;
pub const TOSTRINGOP: u8 = 0x9c;
pub const MIDOP: u8 = 0x9e;
pub const IFOP: u8 = 0xa0;
pub const ELSEOP: u8 = 0xa1;
pub const WHILEOP: u8 = 0xa2;
pub const RETURNOP: u8 = 0xa4;
pub const ONESOP: u8 = 0xff;

// AML resource data fields
pub const IOPORTDESC: u8 = 0x47;
pub const ENDTAG: u8 = 0x79;
pub const MEMORY32FIXEDDESC: u8 = 0x86;
pub const DWORDADDRSPACEDESC: u8 = 0x87;
pub const WORDADDRSPACEDESC: u8 = 0x88;
pub const EXTIRQDESC: u8 = 0x89;
pub const QWORDADDRSPACEDESC: u8 = 0x8a;

/// Little-endian byte image of a `u16`.
pub open spec fn u16_le(x: u16) -> Seq<u8> {
    seq![(x % 256) as u8, ((x / 256) % 256) as u8]
}

/// Little-endian byte image of a `u32`.
pub open spec fn u32_le(x: u32) -> Seq<u8> {
    seq![
        (x % 256) as u8,
        ((x / 0x100) % 256) as u8,
        ((x / 0x10000) % 256) as u8,
        ((x / 0x1000000) % 256) as u8,
    ]
}

/// Little-endian byte image of a `u64`.
pub open spec fn u64_le(x: u64) -> Seq<u8> {
    seq![
        (x % 256) as u8,
        ((x / 0x100) % 256) as u8,
        ((x / 0x10000) % 256) as u8,
        ((x / 0x1000000) % 256) as u8,
        ((x / 0x1_0000_0000) % 256) as u8,
        ((x / 0x100_0000_0000) % 256) as u8,
        ((x / 0x1_0000_0000_0000) % 256) as u8,
        ((x / 0x100_0000_0000_0000) % 256) as u8,
    ]
}

fn push_u16_le(out: &mut Vec<u8>, x: u16)
    ensures
        final(out)@ == old(out)@ + u16_le(x),
{
    out.push((x % 256) as u8);
    out.push(((x / 256) % 256) as u8);
    assert(out@ =~= old(out)@ + u16_le(x));
}

fn push_u32_le(out: &mut Vec<u8>, x: u32)
    ensures
        final(out)@ == old(out)@ + u32_le(x),
{
    out.push((x % 256) as u8);
    out.push(((x / 0x100) % 256) as u8);
    out.push(((x / 0x10000) % 256) as u8);
    out.push(((x / 0x1000000) % 256) as u8);
    assert(out@ =~= old(out)@ + u32_le(x));
}

fn push_u64_le(out: &mut Vec<u8>, x: u64)
    ensures
        final(out)@ == old(out)@ + u64_le(x),
{
    out.push((x % 256) as u8);
    out.push(((x / 0x100) % 256) as u8);
    out.push(((x / 0x10000) % 256) as u8);
    out.push(((x / 0x1000000) % 256) as u8);
    out.push(((x / 0x1_0000_0000) % 256) as u8);
    out.push(((x / 0x100_0000_0000) % 256) as u8);
    out.push(((x / 0x1_0000_0000_0000) % 256) as u8);
    out.push(((x / 0x100_0000_0000_0000) % 256) as u8);
    assert(out@ =~= old(out)@ + u64_le(x));
}

/*

From the ACPI spec for PkgLength:

"The high 2 bits of the first byte reveal how many follow bytes are in the
PkgLength. If the PkgLength has only one byte, bit 0 through 5 are used to
encode the package length (in other words, values 0-63). If the package
length value is more than 63, more than one byte must be used for the
encoding in which case bit 4 and 5 of the PkgLeadByte are reserved and must
be zero. If the multiple bytes encoding is used, bits 0-3 of the PkgLeadByte
become the least significant 4 bits of the resulting package length value.
The next ByteData will become the next least significant 8 bits of the
resulting value and so on, up to 3 ByteData bytes. Thus, the maximum package
length is 2**28."

*/

/// PkgLength encoding of a payload of `len` bytes; the encoded value counts
/// the length bytes themselves in addition to the payload.
pub open spec fn pkg_len_bytes(len: nat) -> Seq<u8> {
    if len < 63 {
        seq![(len + 1) as u8]
    } else if len < 4094 {
        let l = len + 2;
        seq![(0x40 + l % 16) as u8, ((l / 16) % 256) as u8]
    } else if len < 1048573 {
        let l = len + 3;
        seq![(0x80 + l % 16) as u8, ((l / 16) % 256) as u8, ((l / 4096) % 256) as u8]
    } else {
        let l = len + 4;
        seq![
            (0xc0 + l % 16) as u8,
            ((l / 16) % 256) as u8,
            ((l / 4096) % 256) as u8,
            ((l / 1048576) % 256) as u8,
        ]
    }
}

/// Length encoding of a named field, which does not count the size of the
/// encoded length itself.
pub open spec fn field_len_bytes(len: nat) -> Seq<u8> {
    if len < 63 {
        seq![len as u8]
    } else if len < 4094 {
        seq![(0x40 + len % 16) as u8, ((len / 16) % 256) as u8]
    } else if len < 1048573 {
        seq![(0x80 + len % 16) as u8, ((len / 16) % 256) as u8, ((len / 4096) % 256) as u8]
    } else {
        seq![
            (0xc0 + len % 16) as u8,
            ((len / 16) % 256) as u8,
            ((len / 4096) % 256) as u8,
            ((len / 1048576) % 256) as u8,
        ]
    }
}

/// Appends the PkgLength encoding for a payload of `len` bytes.
pub fn append_pkg_length(out: &mut Vec<u8>, len: usize)
    requires
        len + 4 < 0x1000_0000,
    ensures
        final(out)@ == old(out)@ + pkg_len_bytes(len as nat),
{
    if len < 63 {
        out.push((len + 1) as u8);
    } else if len < 4094 {
        let l = len + 2;
        out.push((0x40 + l % 16) as u8);
        out.push(((l / 16) % 256) as u8);
    } else if len < 1048573 {
        let l = len + 3;
        out.push((0x80 + l % 16) as u8);
        out.push(((l / 16) % 256) as u8);
        out.push(((l / 4096) % 256) as u8);
    } else {
        let l = len + 4;
        out.push((0xc0 + l % 16) as u8);
        out.push(((l / 16) % 256) as u8);
        out.push(((l / 4096) % 256) as u8);
        out.push(((l / 1048576) % 256) as u8);
    }
    assert(out@ =~= old(out)@ + pkg_len_bytes(len as nat));
}

/// Appends a named-field length, which does not count the size of the
/// encoded length itself.
fn append_named_field_length(out: &mut Vec<u8>, len: usize)
    requires
        len < 0x1000_0000,
    ensures
        final(out)@ == old(out)@ + field_len_bytes(len as nat),
{
    if len < 63 {
        out.push(len as u8);
    } else if len < 4094 {
        out.push((0x40 + len % 16) as u8);
        out.push(((len / 16) % 256) as u8);
    } else if len < 1048573 {
        out.push((0x80 + len % 16) as u8);
        out.push(((len / 16) % 256) as u8);
        out.push(((len / 4096) % 256) as u8);
    } else {
        out.push((0xc0 + len % 16) as u8);
        out.push(((len / 16) % 256) as u8);
        out.push(((len / 4096) % 256) as u8);
        out.push(((len / 1048576) % 256) as u8);
    }
    assert(out@ =~= old(out)@ + field_len_bytes(len as nat));
}

/// The trait Aml can be implemented by the ACPI objects to translate
/// themselves into AML raw data, so that the raw data can be added into the
/// ACPI DSDT for the guest.
pub trait Aml {
    /// The AML byte image of this object.
    spec fn aml(&self) -> Seq<u8>;

    /// Whether the object is encodable: its parts are well formed and every
    /// embedded package payload stays below the AML PkgLength ceiling.
    spec fn wf(&self) -> bool;

    /// Translate an ACPI object into AML code and append to the vector
    /// buffer.
    /// * `bytes` - The vector used to append the AML code.
    fn to_aml_bytes(&self, bytes: &mut Vec<u8>)
        requires
            self.wf(),
        ensures
            final(bytes)@ == old(bytes)@ + self.aml(),
    ;
}

/// Concatenation of the AML images of a sequence of objects.
pub open spec fn concat_amls(children: Seq<&dyn Aml>) -> Seq<u8>
    decreases children.len(),
{
    if children.len() == 0 {
        Seq::empty()
    } else {
        children[0].aml() + concat_amls(children.skip(1))
    }
}

/// All objects of a sequence are well formed.
pub open spec fn all_wf(children: Seq<&dyn Aml>) -> bool {
    forall|i: int| 0 <= i < children.len() ==> (#[trigger] children[i]).wf()
}

proof fn lemma_concat_amls_snoc(children: Seq<&dyn Aml>, k: int)
    requires
        0 <= k < children.len(),
    ensures
        concat_amls(children.take(k + 1)) == concat_amls(children.take(k)) + children[k].aml(),
    decreases k,
{
    let pre = children.take(k + 1);
    if k == 0 {
        assert(pre.skip(1) =~= Seq::<&dyn Aml>::empty());
        assert(children.take(0) =~= Seq::<&dyn Aml>::empty());
        assert(pre[0] == children[0]);
        assert(concat_amls(pre.skip(1)) =~= Seq::<u8>::empty());
        assert(concat_amls(pre) == pre[0].aml() + concat_amls(pre.skip(1)));
        assert(concat_amls(pre) =~= children[0].aml());
    } else {
        lemma_concat_amls_snoc(children.skip(1), k - 1);
        assert(pre.skip(1) =~= children.skip(1).take(k));
        assert(children.take(k).skip(1) =~= children.skip(1).take(k - 1));
        assert(concat_amls(children.take(k + 1)) == children[0].aml() + concat_amls(
            children.skip(1).take(k),
        ));
        assert(concat_amls(children.take(k)) == children[0].aml() + concat_amls(
            children.skip(1).take(k - 1),
        ));
        assert(concat_amls(children.take(k + 1)) =~= concat_amls(children.take(k))
            + children[k].aml());
    }
}

/// Appends the AML images of all the given objects, in order.
fn emit_children(children: &Vec<&dyn Aml>, out: &mut Vec<u8>)
    requires
        all_wf(children@),
    ensures
        final(out)@ == old(out)@ + concat_amls(children@),
{
    let ghost start = out@;
    let mut k: usize = 0;
    while k < children.len()
        invariant
            all_wf(children@),
            k <= children@.len(),
            out@ == start + concat_amls(children@.take(k as int)),
        decreases children@.len() - k,
    {
        children[k].to_aml_bytes(out);
        proof {
            lemma_concat_amls_snoc(children@, k as int);
        }
        k = k + 1;
    }
    proof {
        assert(children@.take(children@.len() as int) =~= children@);
    }
}

/// Zero object in ASL.
pub struct Zero {}


impl Aml for Zero {
    open spec fn aml(&self) -> Seq<u8> {
        seq![ZEROOP]
    }

    open spec fn wf(&self) -> bool {
        true
    }

    fn to_aml_bytes(&self, bytes: &mut Vec<u8>) {
        bytes.push(ZEROOP);
        assert(bytes@ =~= old(bytes)@ + self.aml());
    }
}

/// One object in ASL.
pub struct One {}


impl Aml for One {
    open spec fn aml(&self) -> Seq<u8> {
        seq![ONEOP]
    }

    open spec fn wf(&self) -> bool {
        true
    }

    fn to_aml_bytes(&self, bytes: &mut Vec<u8>) {
        bytes.push(ONEOP);
        assert(bytes@ =~= old(bytes)@ + self.aml());
    }
}

/// Ones object represents all bits 1.
pub struct Ones {}


impl Aml for Ones {
    open spec fn aml(&self) -> Seq<u8> {
        seq![ONESOP]
    }

    open spec fn wf(&self) -> bool {
        true
    }

    fn to_aml_bytes(&self, bytes: &mut Vec<u8>) {
        bytes.push(ONESOP);
        assert(bytes@ =~= old(bytes)@ + self.aml());
    }
}

pub type Byte = u8;

/// AML image of an integer: zero and one use their dedicated opcodes, any
/// other value gets the shortest prefixed little-endian form that holds it.
pub open spec fn byte_aml(x: u8) -> Seq<u8> {
    if x == 0 {
        seq![ZEROOP]
    } else if x == 1 {
        seq![ONEOP]
    } else {
        seq![BYTEPREFIX, x]
    }
}

pub open spec fn word_aml(x: u16) -> Seq<u8> {
    if x <= 0xff {
        byte_aml(x as u8)
    } else {
        seq![WORDPREFIX] + u16_le(x)
    }
}

pub open spec fn dword_aml(x: u32) -> Seq<u8> {
    if x <= 0xffff {
        word_aml(x as u16)
    } else {
        seq![DWORDPREFIX] + u32_le(x)
    }
}

pub open spec fn qword_aml(x: u64) -> Seq<u8> {
    if x <= 0xffff_ffff {
        dword_aml(x as u32)
    } else {
        seq![QWORDPREFIX] + u64_le(x)
    }
}

impl Aml for u8 {
    open spec fn aml(&self) -> Seq<u8> {
        byte_aml(*self)
    }

    open spec fn wf(&self) -> bool {
        true
    }

    fn to_aml_bytes(&self, bytes: &mut Vec<u8>) {
        if *self == 0 {
            bytes.push(ZEROOP);
        } else if *self == 1 {
            bytes.push(ONEOP);
        } else {
            bytes.push(BYTEPREFIX);
            bytes.push(*self);
        }
        assert(bytes@ =~= old(bytes)@ + self.aml());
    }
}

pub type Word = u16;

impl Aml for u16 {
    open spec fn aml(&self) -> Seq<u8> {
        word_aml(*self)
    }

    open spec fn wf(&self) -> bool {
        true
    }

    fn to_aml_bytes(&self, bytes: &mut Vec<u8>) {
        if *self <= 0xff {
            (*self as u8).to_aml_bytes(bytes);
        } else {
            bytes.push(WORDPREFIX);
            push_u16_le(bytes, *self);
        }
        assert(bytes@ =~= old(bytes)@ + self.aml());
    }
}

pub type DWord = u32;

impl Aml for u32 {
    open spec fn aml(&self) -> Seq<u8> {
        dword_aml(*self)
    }

    open spec fn wf(&self) -> bool {
        true
    }

    fn to_aml_bytes(&self, bytes: &mut Vec<u8>) {
        if *self <= 0xffff {
            (*self as u16).to_aml_bytes(bytes);
        } else {
            bytes.push(DWORDPREFIX);
            push_u32_le(bytes, *self);
        }
        assert(bytes@ =~= old(bytes)@ + self.aml());
    }
}

pub type QWord = u64;

impl Aml for u64 {
    open spec fn aml(&self) -> Seq<u8> {
        qword_aml(*self)
    }

    open spec fn wf(&self) -> bool {
        true
    }

    fn to_aml_bytes(&self, bytes: &mut Vec<u8>) {
        if *self <= 0xffff_ffff {
            (*self as u32).to_aml_bytes(bytes);
        } else {
            bytes.push(QWORDPREFIX);
            push_u64_le(bytes, *self);
        }
        assert(bytes@ =~= old(bytes)@ + self.aml());
    }
}

pub type Usize = usize;

impl Aml for usize {
    open spec fn aml(&self) -> Seq<u8> {
        qword_aml(*self as u64)
    }

    open spec fn wf(&self) -> bool {
        true
    }

    fn to_aml_bytes(&self, bytes: &mut Vec<u8>) {
        (*self as u64).to_aml_bytes(bytes);
    }
}

/// Whether a namestring begins with the root prefix `\`.
pub open spec fn path_root(bs: Seq<u8>) -> bool {
    bs.len() > 0 && bs[0] == 0x5c
}

/// The namestring with any root prefix removed.
pub open spec fn path_rest(bs: Seq<u8>) -> Seq<u8> {
    if path_root(bs) {
        bs.skip(1)
    } else {
        bs
    }
}

/// Per the ACPI spec, a namestring is name parts of exactly 4 bytes each,
/// separated by `.`, with an optional leading `\`.
pub open spec fn valid_path_name(bs: Seq<u8>) -> bool {
    let rest = path_rest(bs);
    rest.len() % 5 == 4 && (forall|i: int|
        0 <= i < rest.len() ==> ((rest[i] == 0x2e) <==> i % 5 == 4))
}

/// Concatenation of 4-byte name parts.
pub open spec fn concat_parts(parts: Seq<[u8; 4]>) -> Seq<u8>
    decreases parts.len(),
{
    if parts.len() == 0 {
        Seq::empty()
    } else {
        parts[0]@ + concat_parts(parts.skip(1))
    }
}

proof fn lemma_concat_parts_snoc(parts: Seq<[u8; 4]>, k: int)
    requires
        0 <= k < parts.len(),
    ensures
        concat_parts(parts.take(k + 1)) == concat_parts(parts.take(k)) + parts[k]@,
    decreases k,
{
    let pre = parts.take(k + 1);
    if k == 0 {
        assert(pre.skip(1) =~= Seq::<[u8; 4]>::empty());
        assert(parts.take(0) =~= Seq::<[u8; 4]>::empty());
        assert(pre[0] == parts[0]);
        assert(concat_parts(pre.skip(1)) =~= Seq::<u8>::empty());
        assert(concat_parts(pre) == pre[0]@ + concat_parts(pre.skip(1)));
        assert(concat_parts(pre) =~= parts[0]@);
    } else {
        lemma_concat_parts_snoc(parts.skip(1), k - 1);
        assert(pre.skip(1) =~= parts.skip(1).take(k));
        assert(parts.take(k).skip(1) =~= parts.skip(1).take(k - 1));
        assert(concat_parts(parts.take(k + 1)) == parts[0]@ + concat_parts(
            parts.skip(1).take(k),
        ));
        assert(concat_parts(parts.take(k)) == parts[0]@ + concat_parts(
            parts.skip(1).take(k - 1),
        ));
        assert(concat_parts(parts.take(k + 1)) =~= concat_parts(parts.take(k)) + parts[k]@);
    }
}

/// Represents a Namestring used to construct ACPI objects like
/// Name/Device/Method/Scope and so on...
pub struct Path {
    pub root: bool,
    pub name_parts: Vec<[u8; 4]>,
}

impl Path {
    /// Per the ACPI spec, each component of a namestring split by `.` is 4
    /// bytes long, so any other name is not accepted.
    pub fn new(name: &str) -> (r: Path)
        requires
            valid_path_name(name.spec_bytes()),
            path_rest(name.spec_bytes()).len() < 1275,
        ensures
            r.root == path_root(name.spec_bytes()),
            r.name_parts@.len() == (path_rest(name.spec_bytes()).len() + 1) / 5,
            forall|j: int|
                0 <= j < r.name_parts@.len() ==> r.name_parts@[j]@ =~= path_rest(
                    name.spec_bytes(),
                ).subrange(5 * j, 5 * j + 4),
            r.wf(),
    {
        let ghost bs = name.spec_bytes();
        let ghost rest = path_rest(bs);
        let b = name.as_bytes();
        let root = b.len() > 0 && b[0] == 0x5c;
        let off: usize = if root {
            1
        } else {
            0
        };
        let ghost n = (rest.len() + 1) / 5;
        proof {
            assert(rest.len() % 5 == 4);
            assert(rest.len() + 1 == 5 * n);
        }
        let mut name_parts: Vec<[u8; 4]> = Vec::new();
        let mut pos: usize = off;
        while pos < b.len()
            invariant
                b@ == bs,
                valid_path_name(bs),
                rest.len() < 1275,
                rest == path_rest(bs),
                rest.len() + 1 == 5 * n,
                off == if path_root(bs) { 1int } else { 0int },
                b@.len() == off + rest.len(),
                name_parts@.len() <= n,
                pos == off + 5 * name_parts@.len(),
                forall|j: int|
                    0 <= j < name_parts@.len() ==> name_parts@[j]@ =~= rest.subrange(
                        5 * j,
                        5 * j + 4,
                    ),
            decreases b@.len() + 1 - pos,
        {
            proof {
                assert(name_parts@.len() < n);
                assert(pos + 4 <= b@.len());
            }
            let part: [u8; 4] = [b[pos], b[pos + 1], b[pos + 2], b[pos + 3]];
            let ghost k = name_parts@.len() as int;
            name_parts.push(part);
            proof {
                assert(part@ =~= rest.subrange(5 * k, 5 * k + 4));
            }
            pos = pos + 5;
        }
        proof {
            assert(name_parts@.len() == n) by {
                assert(pos == off + 5 * name_parts@.len());
                assert(pos >= b@.len());
                assert(name_parts@.len() <= n);
            }
            assert(1 <= n <= 255);
        }
        Path { root, name_parts }
    }
}

impl Aml for Path {
    open spec fn aml(&self) -> Seq<u8> {
        let prefix: Seq<u8> = if self.root {
            seq![0x5cu8]
        } else {
            Seq::empty()
        };
        let parts = concat_parts(self.name_parts@);
        if self.name_parts@.len() == 1 {
            prefix + parts
        } else if self.name_parts@.len() == 2 {
            prefix + seq![DUALNAMEPREFIX] + parts
        } else {
            prefix + seq![MULTINAMEPREFIX, self.name_parts@.len() as u8] + parts
        }
    }

    open spec fn wf(&self) -> bool {
        1 <= self.name_parts@.len() <= 255
    }

    fn to_aml_bytes(&self, bytes: &mut Vec<u8>) {
        if self.root {
            bytes.push(0x5c);
        }
        let n = self.name_parts.len();
        if n == 1 {
        } else if n == 2 {
            bytes.push(DUALNAMEPREFIX);
        } else {
            bytes.push(MULTINAMEPREFIX);
            bytes.push(n as u8);
        }
        let ghost mid = bytes@;
        let mut k: usize = 0;
        while k < self.name_parts.len()
            invariant
                k <= self.name_parts@.len(),
                bytes@ == mid + concat_parts(self.name_parts@.take(k as int)),
            decreases self.name_parts@.len() - k,
        {
            let part = &self.name_parts[k];
            bytes.push(part[0]);
            bytes.push(part[1]);
            bytes.push(part[2]);
            bytes.push(part[3]);
            proof {
                lemma_concat_parts_snoc(self.name_parts@, k as int);
                assert(self.name_parts@[k as int]@ =~= seq![
                    self.name_parts@[k as int]@[0],
                    self.name_parts@[k as int]@[1],
                    self.name_parts@[k as int]@[2],
                    self.name_parts@[k as int]@[3],
                ]);
            }
            k = k + 1;
        }
        proof {
            assert(self.name_parts@.take(self.name_parts@.len() as int) =~= self.name_parts@);
            assert(bytes@ =~= old(bytes)@ + self.aml());
        }
    }
}

/// Name object; `bytes` is the raw AML data for it.
pub struct Name {
    pub bytes: Vec<u8>,
}

impl Aml for Name {
    open spec fn aml(&self) -> Seq<u8> {
        self.bytes@
    }

    open spec fn wf(&self) -> bool {
        true
    }

    fn to_aml_bytes(&self, bytes: &mut Vec<u8>) {
        bytes.extend_from_slice(self.bytes.as_slice());
    }
}

impl Name {
    /// Create Name object:
    ///
    /// * `path` - The namestring.
    /// * `inner` - AML object contained in this namespace.
    pub fn new(path: Path, inner: &dyn Aml) -> (r: Name)
        requires
            path.wf(),
            inner.wf(),
        ensures
            r.aml() == seq![NAMEOP] + path.aml() + inner.aml(),
            r.wf(),
    {
        let mut bytes: Vec<u8> = Vec::new();
        bytes.push(NAMEOP);
        path.to_aml_bytes(&mut bytes);
        inner.to_aml_bytes(&mut bytes);
        let r = Name { bytes };
        proof {
            assert(r.aml() =~= seq![NAMEOP] + path.aml() + inner.aml());
        }
        r
    }

    /// Create a Field name object.
    ///
    /// * `field_name` - name string
    pub fn new_field_name(field_name: &str) -> (r: Name)
        ensures
            r.aml() == field_name.spec_bytes(),
            r.wf(),
    {
        let bytes = vstd::slice::slice_to_vec(field_name.as_bytes());
        Name { bytes }
    }
}

/// Package object; `children_bytes` is the encoding of the ACPI objects
/// contained in this package, preceded by their count.
pub struct Package {
    pub children_bytes: Vec<u8>,
}

impl Aml for Package {
    open spec fn aml(&self) -> Seq<u8> {
        seq![PACKAGEOP] + pkg_len_bytes(self.children_bytes@.len()) + self.children_bytes@
    }

    open spec fn wf(&self) -> bool {
        self.children_bytes@.len() + 4 < 0x1000_0000
    }

    fn to_aml_bytes(&self, bytes: &mut Vec<u8>) {
        bytes.push(PACKAGEOP);
        append_pkg_length(bytes, self.children_bytes.len());
        bytes.extend_from_slice(self.children_bytes.as_slice());
        assert(bytes@ =~= old(bytes)@ + self.aml());
    }
}

impl Package {
    /// Create Package object:
    pub fn new(children: Vec<&dyn Aml>) -> (r: Package)
        requires
            all_wf(children@),
            children@.len() <= 255,
        ensures
            r.children_bytes@ == seq![children@.len() as u8] + concat_amls(children@),
    {
        let mut bytes: Vec<u8> = Vec::new();
        bytes.push(children.len() as u8);
        emit_children(&children, &mut bytes);
        let r = Package { children_bytes: bytes };
        proof {
            assert(r.children_bytes@ =~= seq![children@.len() as u8] + concat_amls(children@));
        }
        r
    }
}

/// Variable Package Term
pub struct VarPackageTerm<'a> {
    pub data: &'a dyn Aml,
}

impl<'a> Aml for VarPackageTerm<'a> {
    open spec fn aml(&self) -> Seq<u8> {
        seq![VARPACKAGEOP] + pkg_len_bytes(self.data.aml().len()) + self.data.aml()
    }

    open spec fn wf(&self) -> bool {
        self.data.wf() && self.data.aml().len() + 4 < 0x1000_0000
    }

    fn to_aml_bytes(&self, bytes: &mut Vec<u8>) {
        let mut tmp: Vec<u8> = Vec::new();
        self.data.to_aml_bytes(&mut tmp);
        bytes.push(VARPACKAGEOP);
        append_pkg_length(bytes, tmp.len());
        bytes.extend_from_slice(tmp.as_slice());
        assert(bytes@ =~= old(bytes)@ + self.aml());
    }
}

impl<'a> VarPackageTerm<'a> {
    /// Create Variable Package Term
    pub fn new(data: &'a dyn Aml) -> VarPackageTerm<'a> {
        VarPackageTerm { data }
    }
}

/// AML image of a string object: the string opcode, the string's UTF-8
/// bytes and a terminating NUL.
pub open spec fn string_aml(chars: Seq<char>) -> Seq<u8> {
    seq![STRINGOP] + vstd::utf8::encode_utf8(chars) + seq![0u8]
}

fn append_aml_string(data: &mut Vec<u8>, v: &str)
    ensures
        final(data)@ == old(data)@ + string_aml(v@),
{
    data.push(STRINGOP);
    data.extend_from_slice(v.as_bytes());
    data.push(0x0);  // NullChar
    assert(data@ =~= old(data)@ + string_aml(v@));
}

/// implement Aml trait for 'str' so that 'str' can be directly appended to
/// the aml vector
pub type AmlStr = &'static str;

impl Aml for &'static str {
    open spec fn aml(&self) -> Seq<u8> {
        string_aml((*self)@)
    }

    open spec fn wf(&self) -> bool {
        true
    }

    fn to_aml_bytes(&self, bytes: &mut Vec<u8>) {
        append_aml_string(bytes, self);
    }
}

/// implement Aml trait for 'String', to the same purpose as for str
pub type AmlString = String;

impl Aml for String {
    open spec fn aml(&self) -> Seq<u8> {
        string_aml(self@)
    }

    open spec fn wf(&self) -> bool {
        true
    }

    fn to_aml_bytes(&self, bytes: &mut Vec<u8>) {
        append_aml_string(bytes, self.as_str());
    }
}

/// Whether a byte is an ASCII hexadecimal digit.
pub open spec fn is_hex_digit(b: u8) -> bool {
    (0x30 <= b <= 0x39) || (0x41 <= b <= 0x46) || (0x61 <= b <= 0x66)
}

/// The value of an ASCII hexadecimal digit.
pub open spec fn hex_digit_val(b: u8) -> u32 {
    if 0x30 <= b <= 0x39 {
        (b - 0x30) as u32
    } else if 0x41 <= b <= 0x46 {
        (b - 0x41 + 10) as u32
    } else {
        (b - 0x61 + 10) as u32
    }
}

fn hex_digit(b: u8) -> (r: u32)
    requires
        is_hex_digit(b),
    ensures
        r == hex_digit_val(b),
        r <= 15,
{
    if b <= 0x39 {
        (b - 0x30) as u32
    } else if b <= 0x46 {
        (b - 0x41 + 10) as u32
    } else {
        (b - 0x61 + 10) as u32
    }
}

/// The bytes of `x` in reversed order, as a `u32`.
pub open spec fn u32_swap_bytes(x: u32) -> u32 {
    (x << 24) | ((x & 0xff00) << 8) | ((x >> 8) & 0xff00) | (x >> 24)
}

/// The EISA identifier encoded from the seven bytes of an EisaIdString:
/// three letters stored as offsets from `@` in the top bits, four
/// hexadecimal digits below them, with the four result bytes reversed.
pub open spec fn eisa_value(bs: Seq<u8>) -> u32 {
    u32_swap_bytes(
        (((bs[0] - 0x40) as u32) << 26) | (((bs[1] - 0x40) as u32) << 21) | (((bs[2]
            - 0x40) as u32) << 16) | (hex_digit_val(bs[3]) << 12) | (hex_digit_val(bs[4]) << 8) | (
        hex_digit_val(bs[5]) << 4) | hex_digit_val(bs[6]),
    )
}

/// EISAName object; `value` is the encoded u32 EisaIdString.
pub struct EISAName {
    pub value: DWord,
}

impl EISAName {
    /// Per the ACPI spec, the EisaIdString must be a string of the form
    /// UUUNNNN, where U is an uppercase letter and N is a hexadecimal
    /// digit. No asterisks or other characters are allowed in the string.
    pub fn new(name: &str) -> (r: EISAName)
        requires
            name.spec_bytes().len() == 7,
            forall|i: int| 0 <= i < 3 ==> 0x41 <= #[trigger] name.spec_bytes()[i] <= 0x5a,
            forall|i: int| 3 <= i < 7 ==> is_hex_digit(#[trigger] name.spec_bytes()[i]),
        ensures
            r.value == eisa_value(name.spec_bytes()),
    {
        let data = name.as_bytes();

        let v: u32 = (((data[0] - NAMECHARBASE) as u32) << 26) | (((data[1]
            - NAMECHARBASE) as u32) << 21) | (((data[2] - NAMECHARBASE) as u32) << 16) | (hex_digit(
            data[3],
        ) << 12) | (hex_digit(data[4]) << 8) | (hex_digit(data[5]) << 4) | hex_digit(data[6]);

        let value: u32 = (v << 24) | ((v & 0xff00) << 8) | ((v >> 8) & 0xff00) | (v >> 24);

        EISAName { value }
    }
}

impl Aml for EISAName {
    open spec fn aml(&self) -> Seq<u8> {
        dword_aml(self.value)
    }

    open spec fn wf(&self) -> bool {
        true
    }

    fn to_aml_bytes(&self, bytes: &mut Vec<u8>) {
        self.value.to_aml_bytes(bytes);
    }
}

/// ResourceTemplate object; `children` are the resource descriptors in it.
pub struct ResourceTemplate<'a> {
    pub children: Vec<&'a dyn Aml>,
}

impl<'a> ResourceTemplate<'a> {
    /// The buffer contents: the resource descriptors followed by an end
    /// tag and an always-valid zero checksum byte.
    pub open spec fn buffer(&self) -> Seq<u8> {
        concat_amls(self.children@) + seq![ENDTAG, 0u8]
    }

    /// The payload of the outer buffer object: the buffer length as an AML
    /// integer, then the buffer contents.
    pub open spec fn payload(&self) -> Seq<u8> {
        qword_aml(self.buffer().len() as u64) + self.buffer()
    }

    /// Create ResourceTemplate object
    pub fn new(children: Vec<&'a dyn Aml>) -> (r: ResourceTemplate<'a>)
        ensures
            r.children@ == children@,
    {
        ResourceTemplate { children }
    }
}

impl<'a> Aml for ResourceTemplate<'a> {
    open spec fn aml(&self) -> Seq<u8> {
        seq![BUFFEROP] + pkg_len_bytes(self.payload().len()) + self.payload()
    }

    open spec fn wf(&self) -> bool {
        all_wf(self.children@) && self.payload().len() + 4 < 0x1000_0000
    }

    fn to_aml_bytes(&self, bytes: &mut Vec<u8>) {
        let mut buf: Vec<u8> = Vec::new();
        emit_children(&self.children, &mut buf);

        // Mark with end and mark checksum as always valid
        buf.push(ENDTAG);
        buf.push(0);

        // Buffer length is an encoded integer including buffer data
        // and EndTag and checksum byte
        let mut content: Vec<u8> = Vec::new();
        let buffer_length = buf.len();
        buffer_length.to_aml_bytes(&mut content);
        content.append(&mut buf);

        // PkgLength is everything else
        bytes.push(BUFFEROP);
        append_pkg_length(bytes, content.len());
        bytes.extend_from_slice(content.as_slice());
        assert(bytes@ =~= old(bytes)@ + self.aml());
    }
}

/// Memory32Fixed object with read_write accessing type, and the base
/// address/length.
pub struct Memory32Fixed {
    pub read_write: bool,  // true for read & write, false for read only
    pub base: u32,
    pub length: u32,
}

impl Memory32Fixed {
    /// Create Memory32Fixed object.
    pub fn new(read_write: bool, base: u32, length: u32) -> (r: Memory32Fixed)
        ensures
            r.read_write == read_write,
            r.base == base,
            r.length == length,
    {
        Memory32Fixed { read_write, base, length }
    }
}

impl Aml for Memory32Fixed {
    open spec fn aml(&self) -> Seq<u8> {
        seq![MEMORY32FIXEDDESC, 9u8, 0u8, (if self.read_write { 1u8 } else { 0u8 })] + u32_le(
            self.base,
        ) + u32_le(self.length)
    }

    open spec fn wf(&self) -> bool {
        true
    }

    fn to_aml_bytes(&self, bytes: &mut Vec<u8>) {
        bytes.push(MEMORY32FIXEDDESC);  // 32bit Fixed Memory Range Descriptor
        push_u16_le(bytes, 9);

        // 9 bytes of payload
        bytes.push(if self.read_write {
            1
        } else {
            0
        });
        push_u32_le(bytes, self.base);
        push_u32_le(bytes, self.length);
        assert(bytes@ =~= old(bytes)@ + self.aml());
    }
}

#[derive(Copy, Clone)]
pub enum AddressSpaceType {
    Memory,
    IO,
    BusNumber,
}

/// The descriptor byte of an address-space type.
pub open spec fn space_type_value(t: AddressSpaceType) -> u8 {
    match t {
        AddressSpaceType::Memory => 0,
        AddressSpaceType::IO => 1,
        AddressSpaceType::BusNumber => 2,
    }
}

/// AddressSpaceCachable represent cache types for AddressSpace object
#[derive(Copy, Clone)]
pub enum AddressSpaceCachable {
    NotCacheable,
    Cacheable,
    WriteCombining,
    PreFetchable,
}

/// The numeric value of a cache type.
pub open spec fn cacheable_value(c: AddressSpaceCachable) -> u8 {
    match c {
        AddressSpaceCachable::NotCacheable => 0,
        AddressSpaceCachable::Cacheable => 1,
        AddressSpaceCachable::WriteCombining => 2,
        AddressSpaceCachable::PreFetchable => 3,
    }
}

/// AddressSpace structure with type, resource range and flags to
/// construct Memory/IO/BusNumber objects
pub struct AddressSpace<T> {
    pub type_: AddressSpaceType,
    pub min: T,
    pub max: T,
    pub type_flags: u8,
}

/// The common header of an address-space descriptor: the descriptor byte,
/// its payload length, the space type, min/max-fixed generic flags and the
/// type-specific flags.
pub open spec fn addr_space_header(descriptor: u8, length: u16, t: AddressSpaceType, type_flags: u8) -> Seq<
    u8,
> {
    seq![descriptor] + u16_le(length) + seq![space_type_value(t), 0x0cu8, type_flags]
}

impl<T> AddressSpace<T> {
    /// Create DWordMemory/QWordMemory object
    pub fn new_memory(cacheable: AddressSpaceCachable, read_write: bool, min: T, max: T) -> (r:
        AddressSpace<T>)
        ensures
            r.type_ == AddressSpaceType::Memory,
            r.min == min,
            r.max == max,
            r.type_flags == cacheable_value(cacheable) * 2 + (if read_write { 1int } else { 0int }),
    {
        let cv: u8 = match cacheable {
            AddressSpaceCachable::NotCacheable => 0,
            AddressSpaceCachable::Cacheable => 1,
            AddressSpaceCachable::WriteCombining => 2,
            AddressSpaceCachable::PreFetchable => 3,
        };
        let type_flags: u8 = cv * 2 + (if read_write {
            1
        } else {
            0
        });
        AddressSpace { type_: AddressSpaceType::Memory, min, max, type_flags }
    }

    /// Create WordIO/DWordIO/QWordIO object
    pub fn new_io(min: T, max: T) -> (r: AddressSpace<T>)
        ensures
            r.type_ == AddressSpaceType::IO,
            r.min == min,
            r.max == max,
            r.type_flags == 3,  // EntireRange
    {
        AddressSpace { type_: AddressSpaceType::IO, min, max, type_flags: 3 }
    }

    /// Create WordBusNumber object
    pub fn new_bus_number(min: T, max: T) -> (r: AddressSpace<T>)
        ensures
            r.type_ == AddressSpaceType::BusNumber,
            r.min == min,
            r.max == max,
            r.type_flags == 0,
    {
        AddressSpace { type_: AddressSpaceType::BusNumber, min, max, type_flags: 0 }
    }

    fn push_header(&self, bytes: &mut Vec<u8>, descriptor: u8, length: u16)
        ensures
            final(bytes)@ == old(bytes)@ + addr_space_header(
                descriptor,
                length,
                self.type_,
                self.type_flags,
            ),
    {
        bytes.push(descriptor);  // Address Space Descriptor
        push_u16_le(bytes, length);
        bytes.push(
            match self.type_ {
                AddressSpaceType::Memory => 0,
                AddressSpaceType::IO => 1,
                AddressSpaceType::BusNumber => 2,
            },
        );  // type
        bytes.push(0x0c);  // generic flags: Min Fixed | Max Fixed
        bytes.push(self.type_flags);
        assert(bytes@ =~= old(bytes)@ + addr_space_header(
            descriptor,
            length,
            self.type_,
            self.type_flags,
        ));
    }
}

impl Aml for AddressSpace<u16> {
    open spec fn aml(&self) -> Seq<u8> {
        addr_space_header(WORDADDRSPACEDESC, 13, self.type_, self.type_flags) + u16_le(0) + u16_le(
            self.min,
        ) + u16_le(self.max) + u16_le(0) + u16_le((self.max - self.min + 1) as u16)
    }

    open spec fn wf(&self) -> bool {
        self.min <= self.max && self.max - self.min + 1 <= 0xffff
    }

    fn to_aml_bytes(&self, bytes: &mut Vec<u8>) {
        // 3 bytes of header + 5 u16 fields
        self.push_header(bytes, WORDADDRSPACEDESC, 13);

        push_u16_le(bytes, 0);  // Granularity
        push_u16_le(bytes, self.min);  // Min
        push_u16_le(bytes, self.max);  // Max
        push_u16_le(bytes, 0);  // Translation
        let len = self.max - self.min + 1;
        push_u16_le(bytes, len);  // Length
        assert(bytes@ =~= old(bytes)@ + self.aml());
    }
}

impl Aml for AddressSpace<u32> {
    open spec fn aml(&self) -> Seq<u8> {
        addr_space_header(DWORDADDRSPACEDESC, 23, self.type_, self.type_flags) + u32_le(0) + u32_le(
            self.min,
        ) + u32_le(self.max) + u32_le(0) + u32_le((self.max - self.min + 1) as u32)
    }

    open spec fn wf(&self) -> bool {
        self.min <= self.max && self.max - self.min + 1 <= 0xffff_ffff
    }

    fn to_aml_bytes(&self, bytes: &mut Vec<u8>) {
        // 3 bytes of header + 5 u32 fields
        self.push_header(bytes, DWORDADDRSPACEDESC, 23);

        push_u32_le(bytes, 0);  // Granularity
        push_u32_le(bytes, self.min);  // Min
        push_u32_le(bytes, self.max);  // Max
        push_u32_le(bytes, 0);  // Translation
        let len = self.max - self.min + 1;
        push_u32_le(bytes, len);  // Length
        assert(bytes@ =~= old(bytes)@ + self.aml());
    }
}

impl Aml for AddressSpace<u64> {
    open spec fn aml(&self) -> Seq<u8> {
        addr_space_header(QWORDADDRSPACEDESC, 43, self.type_, self.type_flags) + u64_le(0) + u64_le(
            self.min,
        ) + u64_le(self.max) + u64_le(0) + u64_le((self.max - self.min + 1) as u64)
    }

    open spec fn wf(&self) -> bool {
        self.min <= self.max && self.max - self.min + 1 <= 0xffff_ffff_ffff_ffff
    }

    fn to_aml_bytes(&self, bytes: &mut Vec<u8>) {
        // 3 bytes of header + 5 u64 fields
        self.push_header(bytes, QWORDADDRSPACEDESC, 43);

        push_u64_le(bytes, 0);  // Granularity
        push_u64_le(bytes, self.min);  // Min
        push_u64_le(bytes, self.max);  // Max
        push_u64_le(bytes, 0);  // Translation
        let len = self.max - self.min + 1;
        push_u64_le(bytes, len);  // Length
        assert(bytes@ =~= old(bytes)@ + self.aml());
    }
}

/// IO resource object with the IO range, alignment and length
pub struct IO {
    pub min: u16,
    pub max: u16,
    pub alignment: u8,
    pub length: u8,
}

impl IO {
    /// Create IO object
    pub fn new(min: u16, max: u16, alignment: u8, length: u8) -> (r: IO)
        ensures
            r.min == min,
            r.max == max,
            r.alignment == alignment,
            r.length == length,
    {
        IO { min, max, alignment, length }
    }
}

impl Aml for IO {
    open spec fn aml(&self) -> Seq<u8> {
        seq![IOPORTDESC, 1u8] + u16_le(self.min) + u16_le(self.max) + seq![
            self.alignment,
            self.length,
        ]
    }

    open spec fn wf(&self) -> bool {
        true
    }

    fn to_aml_bytes(&self, bytes: &mut Vec<u8>) {
        bytes.push(IOPORTDESC);  // IO Port Descriptor
        bytes.push(1);  // IODecode16
        push_u16_le(bytes, self.min);
        push_u16_le(bytes, self.max);
        bytes.push(self.alignment);
        bytes.push(self.length);
        assert(bytes@ =~= old(bytes)@ + self.aml());
    }
}

/// The flags byte of an extended interrupt descriptor.
pub open spec fn interrupt_flags(
    consumer: bool,
    edge_triggered: bool,
    active_low: bool,
    shared: bool,
) -> u8 {
    (((if shared {
        8int
    } else {
        0int
    }) + (if active_low {
        4int
    } else {
        0int
    }) + (if edge_triggered {
        2int
    } else {
        0int
    }) + (if consumer {
        1int
    } else {
        0int
    })) as u8)
}

/// Interrupt resource object with the interrupt characteristics.
pub struct Interrupt {
    pub consumer: bool,
    pub edge_triggered: bool,
    pub active_low: bool,
    pub shared: bool,
    pub number: u32,
}

impl Interrupt {
    /// Create Interrupt object
    pub fn new(
        consumer: bool,
        edge_triggered: bool,
        active_low: bool,
        shared: bool,
        number: u32,
    ) -> (r: Interrupt)
        ensures
            r.consumer == consumer,
            r.edge_triggered == edge_triggered,
            r.active_low == active_low,
            r.shared == shared,
            r.number == number,
    {
        Interrupt { consumer, edge_triggered, active_low, shared, number }
    }
}

impl Aml for Interrupt {
    open spec fn aml(&self) -> Seq<u8> {
        seq![EXTIRQDESC, 6u8, 0u8, interrupt_flags(
            self.consumer,
            self.edge_triggered,
            self.active_low,
            self.shared,
        ), 1u8] + u32_le(self.number)
    }

    open spec fn wf(&self) -> bool {
        true
    }

    fn to_aml_bytes(&self, bytes: &mut Vec<u8>) {
        bytes.push(EXTIRQDESC);  // Extended IRQ Descriptor
        push_u16_le(bytes, 6);
        let mut flags: u8 = 0;
        if self.shared {
            flags = flags + 8;
        }
        if self.active_low {
            flags = flags + 4;
        }
        if self.edge_triggered {
            flags = flags + 2;
        }
        if self.consumer {
            flags = flags + 1;
        }
        bytes.push(flags);
        bytes.push(1);  // count
        push_u32_le(bytes, self.number);
        assert(bytes@ =~= old(bytes)@ + self.aml());
    }
}

/// Device object with its device name and children objects in it.
pub struct Device<'a> {
    pub path: Path,
    pub children: Vec<&'a dyn Aml>,
}

impl<'a> Device<'a> {
    /// The package payload: the device name then its children.
    pub open spec fn payload(&self) -> Seq<u8> {
        self.path.aml() + concat_amls(self.children@)
    }

    /// Create Device object
    pub fn new(path: Path, children: Vec<&'a dyn Aml>) -> (r: Device<'a>)
        ensures
            r.path == path,
            r.children@ == children@,
    {
        Device { path, children }
    }
}

impl<'a> Aml for Device<'a> {
    open spec fn aml(&self) -> Seq<u8> {
        seq![EXTOPPREFIX, DEVICEOP] + pkg_len_bytes(self.payload().len()) + self.payload()
    }

    open spec fn wf(&self) -> bool {
        self.path.wf() && all_wf(self.children@) && self.payload().len() + 4 < 0x1000_0000
    }

    fn to_aml_bytes(&self, bytes: &mut Vec<u8>) {
        let mut tmp: Vec<u8> = Vec::new();
        self.path.to_aml_bytes(&mut tmp);
        emit_children(&self.children, &mut tmp);

        bytes.push(EXTOPPREFIX);
        bytes.push(DEVICEOP);
        append_pkg_length(bytes, tmp.len());
        bytes.extend_from_slice(tmp.as_slice());
        assert(bytes@ =~= old(bytes)@ + self.aml());
    }
}

/// Scope object with its name and children objects in it.
pub struct Scope<'a> {
    pub path: Path,
    pub children: Vec<&'a dyn Aml>,
}

impl<'a> Scope<'a> {
    /// The package payload: the scope name then its children.
    pub open spec fn payload(&self) -> Seq<u8> {
        self.path.aml() + concat_amls(self.children@)
    }

    /// Create Scope object
    pub fn new(path: Path, children: Vec<&'a dyn Aml>) -> (r: Scope<'a>)
        ensures
            r.path == path,
            r.children@ == children@,
    {
        Scope { path, children }
    }

    /// Create raw bytes representing a Scope from its children in raw bytes
    pub fn raw(path: Path, children: Vec<u8>) -> (r: Vec<u8>)
        requires
            path.wf(),
            path.aml().len() + children@.len() + 4 < 0x1000_0000,
        ensures
            r@ == seq![SCOPEOP] + pkg_len_bytes(path.aml().len() + children@.len()) + path.aml()
                + children@,
    {
        let mut tmp: Vec<u8> = Vec::new();
        path.to_aml_bytes(&mut tmp);
        let mut rest = children;
        tmp.append(&mut rest);

        let mut bytes: Vec<u8> = Vec::new();
        bytes.push(SCOPEOP);
        append_pkg_length(&mut bytes, tmp.len());
        bytes.extend_from_slice(tmp.as_slice());
        proof {
            assert(bytes@ =~= seq![SCOPEOP] + pkg_len_bytes(
                path.aml().len() + children@.len(),
            ) + path.aml() + children@);
        }
        bytes
    }
}

impl<'a> Aml for Scope<'a> {
    open spec fn aml(&self) -> Seq<u8> {
        seq![SCOPEOP] + pkg_len_bytes(self.payload().len()) + self.payload()
    }

    open spec fn wf(&self) -> bool {
        self.path.wf() && all_wf(self.children@) && self.payload().len() + 4 < 0x1000_0000
    }

    fn to_aml_bytes(&self, bytes: &mut Vec<u8>) {
        let mut tmp: Vec<u8> = Vec::new();
        self.path.to_aml_bytes(&mut tmp);
        emit_children(&self.children, &mut tmp);

        bytes.push(SCOPEOP);
        append_pkg_length(bytes, tmp.len());
        bytes.extend_from_slice(tmp.as_slice());
        assert(bytes@ =~= old(bytes)@ + self.aml());
    }
}

/// Method object with its name, children objects, arguments and serialized
/// character.
pub struct Method<'a> {
    pub path: Path,
    pub children: Vec<&'a dyn Aml>,
    pub args: u8,
    pub serialized: bool,
}

impl<'a> Method<'a> {
    /// The method flags byte: the argument count in the low bits and the
    /// serialized flag above them.
    pub open spec fn flags_byte(&self) -> u8 {
        ((self.args % 8) + (if self.serialized {
            8int
        } else {
            0int
        })) as u8
    }

    /// The package payload: the method name, its flags and its body.
    pub open spec fn payload(&self) -> Seq<u8> {
        self.path.aml() + seq![self.flags_byte()] + concat_amls(self.children@)
    }

    /// Create Method object.
    pub fn new(path: Path, args: u8, serialized: bool, children: Vec<&'a dyn Aml>) -> (r: Method<
        'a,
    >)
        ensures
            r.path == path,
            r.args == args,
            r.serialized == serialized,
            r.children@ == children@,
    {
        Method { path, children, args, serialized }
    }
}

impl<'a> Aml for Method<'a> {
    open spec fn aml(&self) -> Seq<u8> {
        seq![METHODOP] + pkg_len_bytes(self.payload().len()) + self.payload()
    }

    open spec fn wf(&self) -> bool {
        self.path.wf() && all_wf(self.children@) && self.payload().len() + 4 < 0x1000_0000
    }

    fn to_aml_bytes(&self, bytes: &mut Vec<u8>) {
        let mut tmp: Vec<u8> = Vec::new();
        self.path.to_aml_bytes(&mut tmp);
        let flags: u8 = (self.args % 8) + (if self.serialized {
            8
        } else {
            0
        });
        tmp.push(flags);
        emit_children(&self.children, &mut tmp);

        bytes.push(METHODOP);
        append_pkg_length(bytes, tmp.len());
        bytes.extend_from_slice(tmp.as_slice());
        assert(bytes@ =~= old(bytes)@ + self.aml());
    }
}

/// FieldAccessType defines the field accessing types.
#[derive(Clone, Copy)]
pub enum FieldAccessType {
    Any,
    Byte,
    Word,
    DWord,
    QWord,
    Buffer,
}

/// The numeric value of a field access type.
pub open spec fn access_type_value(t: FieldAccessType) -> u8 {
    match t {
        FieldAccessType::Any => 0,
        FieldAccessType::Byte => 1,
        FieldAccessType::Word => 2,
        FieldAccessType::DWord => 3,
        FieldAccessType::QWord => 4,
        FieldAccessType::Buffer => 5,
    }
}

/// FieldLockRule defines the rules whether to use the Global Lock.
#[derive(Clone, Copy)]
pub enum FieldLockRule {
    NoLock,
    Lock,
}

/// The numeric value of a lock rule.
pub open spec fn lock_rule_value(r: FieldLockRule) -> u8 {
    match r {
        FieldLockRule::NoLock => 0,
        FieldLockRule::Lock => 1,
    }
}

/// FieldUpdateRule defines the rules to update the field.
#[derive(Clone, Copy)]
pub enum FieldUpdateRule {
    Preserve,
    WriteAsOnes,
    WriteAsZeroes,
}

/// The numeric value of an update rule.
pub open spec fn update_rule_value(r: FieldUpdateRule) -> u8 {
    match r {
        FieldUpdateRule::Preserve => 0,
        FieldUpdateRule::WriteAsOnes => 1,
        FieldUpdateRule::WriteAsZeroes => 2,
    }
}

/// FieldEntry defines a field entry.
pub enum FieldEntry {
    Named([u8; 4], usize),
    Reserved(usize),
}

/// The encoding of one field entry: its name (or a zero byte when
/// reserved) and its bit length.
pub open spec fn field_entry_bytes(e: FieldEntry) -> Seq<u8> {
    match e {
        FieldEntry::Named(name, length) => name@ + field_len_bytes(length as nat),
        FieldEntry::Reserved(length) => seq![0u8] + field_len_bytes(length as nat),
    }
}

/// The bit length of a field entry stays below the length-encoding
/// ceiling.
pub open spec fn field_entry_wf(e: FieldEntry) -> bool {
    match e {
        FieldEntry::Named(_, length) => length < 0x1000_0000,
        FieldEntry::Reserved(length) => length < 0x1000_0000,
    }
}

/// The encoding of a list of field entries.
pub open spec fn field_entries_bytes(es: Seq<FieldEntry>) -> Seq<u8>
    decreases es.len(),
{
    if es.len() == 0 {
        Seq::empty()
    } else {
        field_entry_bytes(es[0]) + field_entries_bytes(es.skip(1))
    }
}

proof fn lemma_field_entries_bytes_snoc(es: Seq<FieldEntry>, k: int)
    requires
        0 <= k < es.len(),
    ensures
        field_entries_bytes(es.take(k + 1)) == field_entries_bytes(es.take(k)) + field_entry_bytes(
            es[k],
        ),
    decreases k,
{
    let pre = es.take(k + 1);
    if k == 0 {
        assert(pre.skip(1) =~= Seq::<FieldEntry>::empty());
        assert(es.take(0) =~= Seq::<FieldEntry>::empty());
        assert(pre[0] == es[0]);
        assert(field_entries_bytes(pre.skip(1)) =~= Seq::<u8>::empty());
        assert(field_entries_bytes(pre) == field_entry_bytes(pre[0]) + field_entries_bytes(
            pre.skip(1),
        ));
        assert(field_entries_bytes(pre) =~= field_entry_bytes(es[0]));
    } else {
        lemma_field_entries_bytes_snoc(es.skip(1), k - 1);
        assert(pre.skip(1) =~= es.skip(1).take(k));
        assert(es.take(k).skip(1) =~= es.skip(1).take(k - 1));
        assert(field_entries_bytes(es.take(k + 1)) == field_entry_bytes(es[0])
            + field_entries_bytes(es.skip(1).take(k)));
        assert(field_entries_bytes(es.take(k)) == field_entry_bytes(es[0]) + field_entries_bytes(
            es.skip(1).take(k - 1),
        ));
        assert(field_entries_bytes(es.take(k + 1)) =~= field_entries_bytes(es.take(k))
            + field_entry_bytes(es[k]));
    }
}

/// Field object with the region name, field entries, access type and
/// update rules.
pub struct Field {
    pub path: Path,
    pub fields: Vec<FieldEntry>,
    pub access_type: FieldAccessType,
    pub lock_rule: FieldLockRule,
    pub update_rule: FieldUpdateRule,
}

impl Field {
    /// The field flags byte: the access type in the low bits, the lock
    /// rule and the update rule above it.
    pub open spec fn flags_byte(&self) -> u8 {
        (access_type_value(self.access_type) + lock_rule_value(self.lock_rule) * 16
            + update_rule_value(self.update_rule) * 32) as u8
    }

    /// The package payload: the region name, the flags and the entries.
    pub open spec fn payload(&self) -> Seq<u8> {
        self.path.aml() + seq![self.flags_byte()] + field_entries_bytes(self.fields@)
    }

    /// Create Field object
    pub fn new(
        path: Path,
        access_type: FieldAccessType,
        lock_rule: FieldLockRule,
        update_rule: FieldUpdateRule,
        fields: Vec<FieldEntry>,
    ) -> (r: Field)
        ensures
            r.path == path,
            r.access_type == access_type,
            r.lock_rule == lock_rule,
            r.update_rule == update_rule,
            r.fields@ == fields@,
    {
        Field { path, access_type, lock_rule, update_rule, fields }
    }
}

impl Aml for Field {
    open spec fn aml(&self) -> Seq<u8> {
        seq![EXTOPPREFIX, FIELDOP] + pkg_len_bytes(self.payload().len()) + self.payload()
    }

    open spec fn wf(&self) -> bool {
        self.path.wf() && (forall|i: int|
            0 <= i < self.fields@.len() ==> field_entry_wf(#[trigger] self.fields@[i]))
            && self.payload().len() + 4 < 0x1000_0000
    }

    fn to_aml_bytes(&self, bytes: &mut Vec<u8>) {
        let mut tmp: Vec<u8> = Vec::new();
        self.path.to_aml_bytes(&mut tmp);

        let at: u8 = match self.access_type {
            FieldAccessType::Any => 0,
            FieldAccessType::Byte => 1,
            FieldAccessType::Word => 2,
            FieldAccessType::DWord => 3,
            FieldAccessType::QWord => 4,
            FieldAccessType::Buffer => 5,
        };
        let lr: u8 = match self.lock_rule {
            FieldLockRule::NoLock => 0,
            FieldLockRule::Lock => 1,
        };
        let ur: u8 = match self.update_rule {
            FieldUpdateRule::Preserve => 0,
            FieldUpdateRule::WriteAsOnes => 1,
            FieldUpdateRule::WriteAsZeroes => 2,
        };
        tmp.push(at + lr * 16 + ur * 32);

        let ghost mid = tmp@;
        let mut k: usize = 0;
        while k < self.fields.len()
            invariant
                forall|i: int|
                    0 <= i < self.fields@.len() ==> field_entry_wf(#[trigger] self.fields@[i]),
                k <= self.fields@.len(),
                tmp@ == mid + field_entries_bytes(self.fields@.take(k as int)),
            decreases self.fields@.len() - k,
        {
            match &self.fields[k] {
                FieldEntry::Named(name, length) => {
                    tmp.push(name[0]);
                    tmp.push(name[1]);
                    tmp.push(name[2]);
                    tmp.push(name[3]);
                    proof {
                        let nm = self.fields@[k as int]->Named_0;
                        assert(nm@ =~= seq![nm@[0], nm@[1], nm@[2], nm@[3]]);
                    }
                    append_named_field_length(&mut tmp, *length);
                },
                FieldEntry::Reserved(length) => {
                    tmp.push(0x0);
                    append_named_field_length(&mut tmp, *length);
                },
            }
            proof {
                lemma_field_entries_bytes_snoc(self.fields@, k as int);
                assert(tmp@ =~= mid + field_entries_bytes(self.fields@.take(k as int + 1)));
            }
            k = k + 1;
        }
        proof {
            assert(self.fields@.take(self.fields@.len() as int) =~= self.fields@);
        }

        bytes.push(EXTOPPREFIX);
        bytes.push(FIELDOP);
        append_pkg_length(bytes, tmp.len());
        bytes.extend_from_slice(tmp.as_slice());
        assert(bytes@ =~= old(bytes)@ + self.aml());
    }
}

/// The space type for an OperationRegion object.
#[derive(Clone, Copy)]
pub enum OpRegionSpace {
    SystemMemory,
    SystemIO,
    PCIConfig,
    EmbeddedControl,
    SMBus,
    SystemCMOS,
    PciBarTarget,
    IPMI,
    GeneralPurposeIO,
    GenericSerialBus,
}

/// The numeric value of an operation-region space type.
pub open spec fn op_region_space_value(s: OpRegionSpace) -> u8 {
    match s {
        OpRegionSpace::SystemMemory => 0,
        OpRegionSpace::SystemIO => 1,
        OpRegionSpace::PCIConfig => 2,
        OpRegionSpace::EmbeddedControl => 3,
        OpRegionSpace::SMBus => 4,
        OpRegionSpace::SystemCMOS => 5,
        OpRegionSpace::PciBarTarget => 6,
        OpRegionSpace::IPMI => 7,
        OpRegionSpace::GeneralPurposeIO => 8,
        OpRegionSpace::GenericSerialBus => 9,
    }
}

/// OperationRegion object with region name, region space type, its offset
/// and length.
pub struct OpRegion<'a> {
    pub path: Path,
    pub space: OpRegionSpace,
    pub offset: &'a dyn Aml,
    pub length: &'a dyn Aml,
}

impl<'a> OpRegion<'a> {
    /// Create OperationRegion object.
    pub fn new(path: Path, space: OpRegionSpace, offset: &'a dyn Aml, length: &'a dyn Aml) -> (r:
        OpRegion<'a>)
        ensures
            r.path == path,
            r.space == space,
    {
        OpRegion { path, space, offset, length }
    }
}

impl<'a> Aml for OpRegion<'a> {
    open spec fn aml(&self) -> Seq<u8> {
        seq![EXTOPPREFIX, OPREGIONOP] + self.path.aml() + seq![op_region_space_value(self.space)]
            + self.offset.aml() + self.length.aml()
    }

    open spec fn wf(&self) -> bool {
        self.path.wf() && self.offset.wf() && self.length.wf()
    }

    fn to_aml_bytes(&self, bytes: &mut Vec<u8>) {
        bytes.push(EXTOPPREFIX);
        bytes.push(OPREGIONOP);

        self.path.to_aml_bytes(bytes);
        bytes.push(
            match self.space {
                OpRegionSpace::SystemMemory => 0,
                OpRegionSpace::SystemIO => 1,
                OpRegionSpace::PCIConfig => 2,
                OpRegionSpace::EmbeddedControl => 3,
                OpRegionSpace::SMBus => 4,
                OpRegionSpace::SystemCMOS => 5,
                OpRegionSpace::PciBarTarget => 6,
                OpRegionSpace::IPMI => 7,
                OpRegionSpace::GeneralPurposeIO => 8,
                OpRegionSpace::GenericSerialBus => 9,
            },
        );
        self.offset.to_aml_bytes(bytes);  // RegionOffset
        self.length.to_aml_bytes(bytes);  // RegionLen
        assert(bytes@ =~= old(bytes)@ + self.aml());
    }
}

/// If object with the if condition (predicate) and the body presented by
/// the if_children objects.
pub struct If<'a> {
    pub predicate: &'a dyn Aml,
    pub if_children: Vec<&'a dyn Aml>,
}

impl<'a> If<'a> {
    /// The package payload: the predicate then the body.
    pub open spec fn payload(&self) -> Seq<u8> {
        self.predicate.aml() + concat_amls(self.if_children@)
    }

    /// Create If object.
    pub fn new(predicate: &'a dyn Aml, if_children: Vec<&'a dyn Aml>) -> (r: If<'a>)
        ensures
            r.if_children@ == if_children@,
    {
        If { predicate, if_children }
    }
}

impl<'a> Aml for If<'a> {
    open spec fn aml(&self) -> Seq<u8> {
        seq![IFOP] + pkg_len_bytes(self.payload().len()) + self.payload()
    }

    open spec fn wf(&self) -> bool {
        self.predicate.wf() && all_wf(self.if_children@) && self.payload().len() + 4 < 0x1000_0000
    }

    fn to_aml_bytes(&self, bytes: &mut Vec<u8>) {
        let mut tmp: Vec<u8> = Vec::new();
        self.predicate.to_aml_bytes(&mut tmp);
        emit_children(&self.if_children, &mut tmp);

        bytes.push(IFOP);
        append_pkg_length(bytes, tmp.len());
        bytes.extend_from_slice(tmp.as_slice());
        assert(bytes@ =~= old(bytes)@ + self.aml());
    }
}

/// Else object
pub struct Else<'a> {
    pub body: Vec<&'a dyn Aml>,
}

impl<'a> Else<'a> {
    /// Create Else object.
    pub fn new(body: Vec<&'a dyn Aml>) -> (r: Else<'a>)
        ensures
            r.body@ == body@,
    {
        Else { body }
    }
}

impl<'a> Aml for Else<'a> {
    open spec fn aml(&self) -> Seq<u8> {
        seq![ELSEOP] + pkg_len_bytes(concat_amls(self.body@).len()) + concat_amls(self.body@)
    }

    open spec fn wf(&self) -> bool {
        all_wf(self.body@) && concat_amls(self.body@).len() + 4 < 0x1000_0000
    }

    fn to_aml_bytes(&self, bytes: &mut Vec<u8>) {
        let mut tmp: Vec<u8> = Vec::new();
        emit_children(&self.body, &mut tmp);

        bytes.push(ELSEOP);
        append_pkg_length(bytes, tmp.len());
        bytes.extend_from_slice(tmp.as_slice());
        assert(bytes@ =~= old(bytes)@ + self.aml());
    }
}

/// Argx object.
pub struct Arg(pub u8);

impl Aml for Arg {
    open spec fn aml(&self) -> Seq<u8> {
        seq![(ARG0OP + self.0) as u8]
    }

    /// Per the ACPI spec, there is a maximum of 7 Argx objects from
    /// Arg0 ~ Arg6. Any other Arg object is not accepted.
    open spec fn wf(&self) -> bool {
        self.0 <= 6
    }

    fn to_aml_bytes(&self, bytes: &mut Vec<u8>) {
        bytes.push(ARG0OP + self.0);
        assert(bytes@ =~= old(bytes)@ + self.aml());
    }
}

/// Localx object.
pub struct Local(pub u8);

impl Aml for Local {
    open spec fn aml(&self) -> Seq<u8> {
        seq![(LOCAL0OP + self.0) as u8]
    }

    /// Per the ACPI spec, there is a maximum of 8 Localx objects from
    /// Local0 ~ Local7. Any other Local object is not accepted.
    open spec fn wf(&self) -> bool {
        self.0 <= 7
    }

    fn to_aml_bytes(&self, bytes: &mut Vec<u8>) {
        bytes.push(LOCAL0OP + self.0);
        assert(bytes@ =~= old(bytes)@ + self.aml());
    }
}

/// Store object with the ACPI object name which can be stored to and
/// the ACPI object value which is to store.
pub struct Store<'a> {
    pub name: &'a dyn Aml,
    pub value: &'a dyn Aml,
}

impl<'a> Store<'a> {
    /// Create Store object.
    pub fn new(name: &'a dyn Aml, value: &'a dyn Aml) -> Store<'a> {
        Store { name, value }
    }
}

impl<'a> Aml for Store<'a> {
    open spec fn aml(&self) -> Seq<u8> {
        seq![STOREOP] + self.value.aml() + self.name.aml()
    }

    open spec fn wf(&self) -> bool {
        self.name.wf() && self.value.wf()
    }

    fn to_aml_bytes(&self, bytes: &mut Vec<u8>) {
        bytes.push(STOREOP);
        self.value.to_aml_bytes(bytes);
        self.name.to_aml_bytes(bytes);
        assert(bytes@ =~= old(bytes)@ + self.aml());
    }
}

/// Mutex object with a mutex name and a synchronization level.
pub struct Mutex {
    pub path: Path,
    pub sync_level: u8,
}

impl Mutex {
    /// Create Mutex object.
    pub fn new(path: Path, sync_level: u8) -> (r: Mutex)
        ensures
            r.path == path,
            r.sync_level == sync_level,
    {
        Mutex { path, sync_level }
    }
}

impl Aml for Mutex {
    open spec fn aml(&self) -> Seq<u8> {
        seq![EXTOPPREFIX, MUTEXOP] + self.path.aml() + seq![self.sync_level]
    }

    open spec fn wf(&self) -> bool {
        self.path.wf()
    }

    fn to_aml_bytes(&self, bytes: &mut Vec<u8>) {
        bytes.push(EXTOPPREFIX);
        bytes.push(MUTEXOP);
        self.path.to_aml_bytes(bytes);
        bytes.push(self.sync_level);
        assert(bytes@ =~= old(bytes)@ + self.aml());
    }
}

/// Acquire object with a Mutex object and timeout value.
pub struct Acquire {
    pub mutex: Path,
    pub timeout: u16,
}

impl Acquire {
    /// Create Acquire object.
    pub fn new(mutex: Path, timeout: u16) -> (r: Acquire)
        ensures
            r.mutex == mutex,
            r.timeout == timeout,
    {
        Acquire { mutex, timeout }
    }
}

impl Aml for Acquire {
    open spec fn aml(&self) -> Seq<u8> {
        seq![EXTOPPREFIX, ACQUIREOP] + self.mutex.aml() + u16_le(self.timeout)
    }

    open spec fn wf(&self) -> bool {
        self.mutex.wf()
    }

    fn to_aml_bytes(&self, bytes: &mut Vec<u8>) {
        bytes.push(EXTOPPREFIX);
        bytes.push(ACQUIREOP);
        self.mutex.to_aml_bytes(bytes);
        push_u16_le(bytes, self.timeout);
        assert(bytes@ =~= old(bytes)@ + self.aml());
    }
}

/// Release object with a Mutex object to release.
pub struct Release {
    pub mutex: Path,
}

impl Release {
    /// Create Release object.
    pub fn new(mutex: Path) -> (r: Release)
        ensures
            r.mutex == mutex,
    {
        Release { mutex }
    }
}

impl Aml for Release {
    open spec fn aml(&self) -> Seq<u8> {
        seq![EXTOPPREFIX, RELEASEOP] + self.mutex.aml()
    }

    open spec fn wf(&self) -> bool {
        self.mutex.wf()
    }

    fn to_aml_bytes(&self, bytes: &mut Vec<u8>) {
        bytes.push(EXTOPPREFIX);
        bytes.push(RELEASEOP);
        self.mutex.to_aml_bytes(bytes);
        assert(bytes@ =~= old(bytes)@ + self.aml());
    }
}

/// Notify object with an object which is to be notified with the value.
pub struct Notify<'a> {
    pub object: &'a dyn Aml,
    pub value: &'a dyn Aml,
}

impl<'a> Notify<'a> {
    /// Create Notify object.
    pub fn new(object: &'a dyn Aml, value: &'a dyn Aml) -> Notify<'a> {
        Notify { object, value }
    }
}

impl<'a> Aml for Notify<'a> {
    open spec fn aml(&self) -> Seq<u8> {
        seq![NOTIFYOP] + self.object.aml() + self.value.aml()
    }

    open spec fn wf(&self) -> bool {
        self.object.wf() && self.value.wf()
    }

    fn to_aml_bytes(&self, bytes: &mut Vec<u8>) {
        bytes.push(NOTIFYOP);
        self.object.to_aml_bytes(bytes);
        self.value.to_aml_bytes(bytes);
        assert(bytes@ =~= old(bytes)@ + self.aml());
    }
}

/// While object with the while condition object (predicate) and
/// the while body objects (while_children).
pub struct While<'a> {
    pub predicate: &'a dyn Aml,
    pub while_children: Vec<&'a dyn Aml>,
}

impl<'a> While<'a> {
    /// The package payload: the predicate then the body.
    pub open spec fn payload(&self) -> Seq<u8> {
        self.predicate.aml() + concat_amls(self.while_children@)
    }

    /// Create While object.
    pub fn new(predicate: &'a dyn Aml, while_children: Vec<&'a dyn Aml>) -> (r: While<'a>)
        ensures
            r.while_children@ == while_children@,
    {
        While { predicate, while_children }
    }
}

impl<'a> Aml for While<'a> {
    open spec fn aml(&self) -> Seq<u8> {
        seq![WHILEOP] + pkg_len_bytes(self.payload().len()) + self.payload()
    }

    open spec fn wf(&self) -> bool {
        self.predicate.wf() && all_wf(self.while_children@) && self.payload().len() + 4
            < 0x1000_0000
    }

    fn to_aml_bytes(&self, bytes: &mut Vec<u8>) {
        let mut tmp: Vec<u8> = Vec::new();
        self.predicate.to_aml_bytes(&mut tmp);
        emit_children(&self.while_children, &mut tmp);

        bytes.push(WHILEOP);
        append_pkg_length(bytes, tmp.len());
        bytes.extend_from_slice(tmp.as_slice());
        assert(bytes@ =~= old(bytes)@ + self.aml());
    }
}

/// Create Field object.
pub struct CreateField<'a> {
    pub name_string: &'a dyn Aml,
    pub source: &'a dyn Aml,
    pub bit_index: &'a dyn Aml,
    pub bit_num: &'a dyn Aml,
}

impl<'a> CreateField<'a> {
    /// Create a CreateField object.
    pub fn new(
        name_string: &'a dyn Aml,
        source: &'a dyn Aml,
        bit_index: &'a dyn Aml,
        bit_num: &'a dyn Aml,
    ) -> CreateField<'a> {
        CreateField { name_string, source, bit_index, bit_num }
    }
}

impl<'a> Aml for CreateField<'a> {
    open spec fn aml(&self) -> Seq<u8> {
        seq![EXTOPPREFIX, CREATEFIELDOP] + self.source.aml() + self.bit_index.aml()
            + self.bit_num.aml() + self.name_string.aml()
    }

    open spec fn wf(&self) -> bool {
        self.name_string.wf() && self.source.wf() && self.bit_index.wf() && self.bit_num.wf()
    }

    fn to_aml_bytes(&self, bytes: &mut Vec<u8>) {
        bytes.push(EXTOPPREFIX);
        bytes.push(CREATEFIELDOP);
        self.source.to_aml_bytes(bytes);
        self.bit_index.to_aml_bytes(bytes);
        self.bit_num.to_aml_bytes(bytes);
        self.name_string.to_aml_bytes(bytes);
        assert(bytes@ =~= old(bytes)@ + self.aml());
    }
}

/// Mid object with the source, index, length, and result objects.
pub struct Mid<'a> {
    pub source: &'a dyn Aml,
    pub index: &'a dyn Aml,
    pub length: &'a dyn Aml,
    pub result: &'a dyn Aml,
}

impl<'a> Mid<'a> {
    /// Create a Mid object.
    pub fn new(
        source: &'a dyn Aml,
        index: &'a dyn Aml,
        length: &'a dyn Aml,
        result: &'a dyn Aml,
    ) -> Mid<'a> {
        Mid { source, index, length, result }
    }
}

impl<'a> Aml for Mid<'a> {
    open spec fn aml(&self) -> Seq<u8> {
        seq![MIDOP] + self.source.aml() + self.index.aml() + self.length.aml() + self.result.aml()
    }

    open spec fn wf(&self) -> bool {
        self.source.wf() && self.index.wf() && self.length.wf() && self.result.wf()
    }

    fn to_aml_bytes(&self, bytes: &mut Vec<u8>) {
        bytes.push(MIDOP);
        self.source.to_aml_bytes(bytes);
        self.index.to_aml_bytes(bytes);
        self.length.to_aml_bytes(bytes);
        self.result.to_aml_bytes(bytes);
        assert(bytes@ =~= old(bytes)@ + self.aml());
    }
}

/// MethodCall object with the method name and parameter objects.
pub struct MethodCall<'a> {
    pub name: Path,
    pub args: Vec<&'a dyn Aml>,
}

impl<'a> MethodCall<'a> {
    /// Create MethodCall object.
    pub fn new(name: Path, args: Vec<&'a dyn Aml>) -> (r: MethodCall<'a>)
        ensures
            r.name == name,
            r.args@ == args@,
    {
        MethodCall { name, args }
    }
}

impl<'a> Aml for MethodCall<'a> {
    open spec fn aml(&self) -> Seq<u8> {
        self.name.aml() + concat_amls(self.args@)
    }

    open spec fn wf(&self) -> bool {
        self.name.wf() && all_wf(self.args@)
    }

    fn to_aml_bytes(&self, bytes: &mut Vec<u8>) {
        self.name.to_aml_bytes(bytes);
        emit_children(&self.args, bytes);
        assert(bytes@ =~= old(bytes)@ + self.aml());
    }
}

/// Buffer object with a TermArg in it.
pub struct BufferTerm<'a> {
    pub data: &'a dyn Aml,
}

impl<'a> BufferTerm<'a> {
    /// Create BufferTerm object.
    pub fn new(data: &'a dyn Aml) -> BufferTerm<'a> {
        BufferTerm { data }
    }
}

impl<'a> Aml for BufferTerm<'a> {
    open spec fn aml(&self) -> Seq<u8> {
        seq![BUFFEROP] + pkg_len_bytes(self.data.aml().len()) + self.data.aml()
    }

    open spec fn wf(&self) -> bool {
        self.data.wf() && self.data.aml().len() + 4 < 0x1000_0000
    }

    fn to_aml_bytes(&self, bytes: &mut Vec<u8>) {
        let mut tmp: Vec<u8> = Vec::new();
        self.data.to_aml_bytes(&mut tmp);

        bytes.push(BUFFEROP);
        append_pkg_length(bytes, tmp.len());
        bytes.extend_from_slice(tmp.as_slice());
        assert(bytes@ =~= old(bytes)@ + self.aml());
    }
}

/// Buffer object with raw data in it.
pub struct BufferData {
    pub data: Vec<u8>,
}

impl BufferData {
    /// The payload of the buffer object: the data length as an AML
    /// integer, then the data bytes.
    pub open spec fn payload(&self) -> Seq<u8> {
        qword_aml(self.data@.len() as u64) + self.data@
    }

    /// Create BufferData object.
    pub fn new(data: Vec<u8>) -> (r: BufferData)
        ensures
            r.data@ == data@,
    {
        BufferData { data }
    }
}

impl Aml for BufferData {
    open spec fn aml(&self) -> Seq<u8> {
        seq![BUFFEROP] + pkg_len_bytes(self.payload().len()) + self.payload()
    }

    open spec fn wf(&self) -> bool {
        self.payload().len() + 4 < 0x1000_0000
    }

    fn to_aml_bytes(&self, bytes: &mut Vec<u8>) {
        let mut tmp: Vec<u8> = Vec::new();
        let data_length = self.data.len();
        data_length.to_aml_bytes(&mut tmp);
        tmp.extend_from_slice(self.data.as_slice());

        bytes.push(BUFFEROP);
        append_pkg_length(bytes, tmp.len());
        bytes.extend_from_slice(tmp.as_slice());
        assert(bytes@ =~= old(bytes)@ + self.aml());
    }
}

/// The byte named by two ASCII hexadecimal digits.
pub open spec fn hex_pair_val(hi: u8, lo: u8) -> u8 {
    (hex_digit_val(hi) * 16 + hex_digit_val(lo)) as u8
}

fn hex2byte(v1: u8, v2: u8) -> (r: u8)
    requires
        is_hex_digit(v1),
        is_hex_digit(v2),
    ensures
        r == hex_pair_val(v1, v2),
{
    let hi = hex_digit(v1);
    let lo = hex_digit(v2);
    (hi * 16 + lo) as u8
}

/// The 16 bytes of a UUID string aabbccdd-eeff-gghh-iijj-kkllmmnnoopp in
/// their wire order: the first three groups little-endian, the last two
/// big-endian.
pub open spec fn uuid_bytes(bs: Seq<u8>) -> Seq<u8> {
    seq![
        hex_pair_val(bs[6], bs[7]),
        hex_pair_val(bs[4], bs[5]),
        hex_pair_val(bs[2], bs[3]),
        hex_pair_val(bs[0], bs[1]),
        hex_pair_val(bs[11], bs[12]),
        hex_pair_val(bs[9], bs[10]),
        hex_pair_val(bs[16], bs[17]),
        hex_pair_val(bs[14], bs[15]),
        hex_pair_val(bs[19], bs[20]),
        hex_pair_val(bs[21], bs[22]),
        hex_pair_val(bs[24], bs[25]),
        hex_pair_val(bs[26], bs[27]),
        hex_pair_val(bs[28], bs[29]),
        hex_pair_val(bs[30], bs[31]),
        hex_pair_val(bs[32], bs[33]),
        hex_pair_val(bs[34], bs[35]),
    ]
}

/// A UUID string: 36 bytes, dashes after the first four groups, ASCII
/// hexadecimal digits everywhere else.
pub open spec fn valid_uuid_name(bs: Seq<u8>) -> bool {
    bs.len() == 36 && (forall|i: int|
        0 <= i < 36 ==> (if i == 8 || i == 13 || i == 18 || i == 23 {
            (#[trigger] bs[i]) == 0x2d
        } else {
            is_hex_digit(bs[i])
        }))
}

/// Uuid object, encoded as a buffer of its 16 bytes.
pub struct Uuid {
    pub name: BufferData,
}

impl Uuid {
    /// Create Uuid object
    /// eg. UUID: aabbccdd-eeff-gghh-iijj-kkllmmnnoopp
    pub fn new(name: &str) -> (r: Uuid)
        requires
            valid_uuid_name(name.spec_bytes()),
        ensures
            r.name.data@ == uuid_bytes(name.spec_bytes()),
            r.wf(),
    {
        let b = name.as_bytes();
        let mut data: Vec<u8> = Vec::new();

        // dd - cc - bb - aa
        data.push(hex2byte(b[6], b[7]));
        data.push(hex2byte(b[4], b[5]));
        data.push(hex2byte(b[2], b[3]));
        data.push(hex2byte(b[0], b[1]));

        // ff - ee
        data.push(hex2byte(b[11], b[12]));
        data.push(hex2byte(b[9], b[10]));

        // hh - gg
        data.push(hex2byte(b[16], b[17]));
        data.push(hex2byte(b[14], b[15]));

        // ii - jj
        data.push(hex2byte(b[19], b[20]));
        data.push(hex2byte(b[21], b[22]));

        // kk - ll - mm - nn - oo - pp
        data.push(hex2byte(b[24], b[25]));
        data.push(hex2byte(b[26], b[27]));
        data.push(hex2byte(b[28], b[29]));
        data.push(hex2byte(b[30], b[31]));
        data.push(hex2byte(b[32], b[33]));
        data.push(hex2byte(b[34], b[35]));

        let r = Uuid { name: BufferData::new(data) };
        proof {
            assert(r.name.data@ =~= uuid_bytes(name.spec_bytes()));
        }
        r
    }
}

impl Aml for Uuid {
    open spec fn aml(&self) -> Seq<u8> {
        self.name.aml()
    }

    open spec fn wf(&self) -> bool {
        self.name.wf()
    }

    fn to_aml_bytes(&self, bytes: &mut Vec<u8>) {
        self.name.to_aml_bytes(bytes)
    }
}

/// Power Resource object; `children` hold the Power Resource methods.
pub struct PowerResource<'a> {
    pub name: Path,
    pub level: u8,
    pub order: u16,
    pub children: Vec<&'a dyn Aml>,
}

impl<'a> PowerResource<'a> {
    /// The package payload: the resource name, the system level, the
    /// resource order and the children.
    pub open spec fn payload(&self) -> Seq<u8> {
        self.name.aml() + seq![self.level] + u16_le(self.order) + concat_amls(self.children@)
    }

    /// Create Power Resource object
    pub fn new(name: Path, level: u8, order: u16, children: Vec<&'a dyn Aml>) -> (r: PowerResource<
        'a,
    >)
        ensures
            r.name == name,
            r.level == level,
            r.order == order,
            r.children@ == children@,
    {
        PowerResource { name, level, order, children }
    }
}

impl<'a> Aml for PowerResource<'a> {
    open spec fn aml(&self) -> Seq<u8> {
        seq![EXTOPPREFIX, POWERRESOURCEOP] + pkg_len_bytes(self.payload().len()) + self.payload()
    }

    open spec fn wf(&self) -> bool {
        self.name.wf() && all_wf(self.children@) && self.payload().len() + 4 < 0x1000_0000
    }

    fn to_aml_bytes(&self, bytes: &mut Vec<u8>) {
        let mut tmp: Vec<u8> = Vec::new();

        // Add name string
        self.name.to_aml_bytes(&mut tmp);
        // Add system level
        tmp.push(self.level);
        // Add Resource Order
        push_u16_le(&mut tmp, self.order);
        // Add child data
        emit_children(&self.children, &mut tmp);

        bytes.push(EXTOPPREFIX);
        bytes.push(POWERRESOURCEOP);
        append_pkg_length(bytes, tmp.len());
        bytes.extend_from_slice(tmp.as_slice());
        assert(bytes@ =~= old(bytes)@ + self.aml());
    }
}

/// Compare object with its right part and left part, which are both ACPI
/// objects.
pub struct Equal<'a> {
    pub right: &'a dyn Aml,
    pub left: &'a dyn Aml,
}

impl<'a> Equal<'a> {
    /// Create the compare object.
    pub fn new(left: &'a dyn Aml, right: &'a dyn Aml) -> Equal<'a> {
        Equal { left, right }
    }
}

impl<'a> Aml for Equal<'a> {
    open spec fn aml(&self) -> Seq<u8> {
        seq![LEQUALOP] + self.left.aml() + self.right.aml()
    }

    open spec fn wf(&self) -> bool {
        self.left.wf() && self.right.wf()
    }

    fn to_aml_bytes(&self, bytes: &mut Vec<u8>) {
        bytes.push(LEQUALOP);
        self.left.to_aml_bytes(bytes);
        self.right.to_aml_bytes(bytes);
        assert(bytes@ =~= old(bytes)@ + self.aml());
    }
}

/// Compare object with its right part and left part, which are both ACPI
/// objects.
pub struct LessThan<'a> {
    pub right: &'a dyn Aml,
    pub left: &'a dyn Aml,
}

impl<'a> LessThan<'a> {
    /// Create the compare object.
    pub fn new(left: &'a dyn Aml, right: &'a dyn Aml) -> LessThan<'a> {
        LessThan { left, right }
    }
}

impl<'a> Aml for LessThan<'a> {
    open spec fn aml(&self) -> Seq<u8> {
        seq![LLESSOP] + self.left.aml() + self.right.aml()
    }

    open spec fn wf(&self) -> bool {
        self.left.wf() && self.right.wf()
    }

    fn to_aml_bytes(&self, bytes: &mut Vec<u8>) {
        bytes.push(LLESSOP);
        self.left.to_aml_bytes(bytes);
        self.right.to_aml_bytes(bytes);
        assert(bytes@ =~= old(bytes)@ + self.aml());
    }
}

/// Compare object with its right part and left part, which are both ACPI
/// objects.
pub struct GreaterThan<'a> {
    pub right: &'a dyn Aml,
    pub left: &'a dyn Aml,
}

impl<'a> GreaterThan<'a> {
    /// Create the compare object.
    pub fn new(left: &'a dyn Aml, right: &'a dyn Aml) -> GreaterThan<'a> {
        GreaterThan { left, right }
    }
}

impl<'a> Aml for GreaterThan<'a> {
    open spec fn aml(&self) -> Seq<u8> {
        seq![LGREATEROP] + self.left.aml() + self.right.aml()
    }

    open spec fn wf(&self) -> bool {
        self.left.wf() && self.right.wf()
    }

    fn to_aml_bytes(&self, bytes: &mut Vec<u8>) {
        bytes.push(LGREATEROP);
        self.left.to_aml_bytes(bytes);
        self.right.to_aml_bytes(bytes);
        assert(bytes@ =~= old(bytes)@ + self.aml());
    }
}

/// Compare object with its right part and left part, which are both ACPI
/// objects.
pub struct NotEqual<'a> {
    pub right: &'a dyn Aml,
    pub left: &'a dyn Aml,
}

impl<'a> NotEqual<'a> {
    /// Create the compare object.
    pub fn new(left: &'a dyn Aml, right: &'a dyn Aml) -> NotEqual<'a> {
        NotEqual { left, right }
    }
}

impl<'a> Aml for NotEqual<'a> {
    open spec fn aml(&self) -> Seq<u8> {
        seq![LNOTOP, LEQUALOP] + self.left.aml() + self.right.aml()
    }

    open spec fn wf(&self) -> bool {
        self.left.wf() && self.right.wf()
    }

    fn to_aml_bytes(&self, bytes: &mut Vec<u8>) {
        bytes.push(LNOTOP);
        bytes.push(LEQUALOP);
        self.left.to_aml_bytes(bytes);
        self.right.to_aml_bytes(bytes);
        assert(bytes@ =~= old(bytes)@ + self.aml());
    }
}

/// Compare object with its right part and left part, which are both ACPI
/// objects.
pub struct GreaterEqual<'a> {
    pub right: &'a dyn Aml,
    pub left: &'a dyn Aml,
}

impl<'a> GreaterEqual<'a> {
    /// Create the compare object.
    pub fn new(left: &'a dyn Aml, right: &'a dyn Aml) -> GreaterEqual<'a> {
        GreaterEqual { left, right }
    }
}

impl<'a> Aml for GreaterEqual<'a> {
    open spec fn aml(&self) -> Seq<u8> {
        seq![LNOTOP, LLESSOP] + self.left.aml() + self.right.aml()
    }

    open spec fn wf(&self) -> bool {
        self.left.wf() && self.right.wf()
    }

    fn to_aml_bytes(&self, bytes: &mut Vec<u8>) {
        bytes.push(LNOTOP);
        bytes.push(LLESSOP);
        self.left.to_aml_bytes(bytes);
        self.right.to_aml_bytes(bytes);
        assert(bytes@ =~= old(bytes)@ + self.aml());
    }
}

/// Compare object with its right part and left part, which are both ACPI
/// objects.
pub struct LessEqual<'a> {
    pub right: &'a dyn Aml,
    pub left: &'a dyn Aml,
}

impl<'a> LessEqual<'a> {
    /// Create the compare object.
    pub fn new(left: &'a dyn Aml, right: &'a dyn Aml) -> LessEqual<'a> {
        LessEqual { left, right }
    }
}

impl<'a> Aml for LessEqual<'a> {
    open spec fn aml(&self) -> Seq<u8> {
        seq![LNOTOP, LGREATEROP] + self.left.aml() + self.right.aml()
    }

    open spec fn wf(&self) -> bool {
        self.left.wf() && self.right.wf()
    }

    fn to_aml_bytes(&self, bytes: &mut Vec<u8>) {
        bytes.push(LNOTOP);
        bytes.push(LGREATEROP);
        self.left.to_aml_bytes(bytes);
        self.right.to_aml_bytes(bytes);
        assert(bytes@ =~= old(bytes)@ + self.aml());
    }
}

/// General operation on an object.
pub struct ObjectType<'a> {
    pub a: &'a dyn Aml,
}

impl<'a> ObjectType<'a> {
    /// Create the object operation.
    pub fn new(a: &'a dyn Aml) -> ObjectType<'a> {
        ObjectType { a }
    }
}

impl<'a> Aml for ObjectType<'a> {
    open spec fn aml(&self) -> Seq<u8> {
        seq![OBJECTTYPEOP] + self.a.aml()
    }

    open spec fn wf(&self) -> bool {
        self.a.wf()
    }

    fn to_aml_bytes(&self, bytes: &mut Vec<u8>) {
        bytes.push(OBJECTTYPEOP);
        self.a.to_aml_bytes(bytes);
        assert(bytes@ =~= old(bytes)@ + self.aml());
    }
}

/// General operation on an object.
pub struct SizeOf<'a> {
    pub a: &'a dyn Aml,
}

impl<'a> SizeOf<'a> {
    /// Create the object operation.
    pub fn new(a: &'a dyn Aml) -> SizeOf<'a> {
        SizeOf { a }
    }
}

impl<'a> Aml for SizeOf<'a> {
    open spec fn aml(&self) -> Seq<u8> {
        seq![SIZEOFOP] + self.a.aml()
    }

    open spec fn wf(&self) -> bool {
        self.a.wf()
    }

    fn to_aml_bytes(&self, bytes: &mut Vec<u8>) {
        bytes.push(SIZEOFOP);
        self.a.to_aml_bytes(bytes);
        assert(bytes@ =~= old(bytes)@ + self.aml());
    }
}

/// General operation on an object.
pub struct Return<'a> {
    pub a: &'a dyn Aml,
}

impl<'a> Return<'a> {
    /// Create the object operation.
    pub fn new(a: &'a dyn Aml) -> Return<'a> {
        Return { a }
    }
}

impl<'a> Aml for Return<'a> {
    open spec fn aml(&self) -> Seq<u8> {
        seq![RETURNOP] + self.a.aml()
    }

    open spec fn wf(&self) -> bool {
        self.a.wf()
    }

    fn to_aml_bytes(&self, bytes: &mut Vec<u8>) {
        bytes.push(RETURNOP);
        self.a.to_aml_bytes(bytes);
        assert(bytes@ =~= old(bytes)@ + self.aml());
    }
}

/// General operation on an object.
pub struct DeRefOf<'a> {
    pub a: &'a dyn Aml,
}

impl<'a> DeRefOf<'a> {
    /// Create the object operation.
    pub fn new(a: &'a dyn Aml) -> DeRefOf<'a> {
        DeRefOf { a }
    }
}

impl<'a> Aml for DeRefOf<'a> {
    open spec fn aml(&self) -> Seq<u8> {
        seq![DEREFOFOP] + self.a.aml()
    }

    open spec fn wf(&self) -> bool {
        self.a.wf()
    }

    fn to_aml_bytes(&self, bytes: &mut Vec<u8>) {
        bytes.push(DEREFOFOP);
        self.a.to_aml_bytes(bytes);
        assert(bytes@ =~= old(bytes)@ + self.aml());
    }
}

/// General operation object with the operands a/b and a target.
pub struct Add<'a> {
    pub a: &'a dyn Aml,
    pub b: &'a dyn Aml,
    pub target: &'a dyn Aml,
}

impl<'a> Add<'a> {
    /// Create the operation object.
    pub fn new(target: &'a dyn Aml, a: &'a dyn Aml, b: &'a dyn Aml) -> Add<'a> {
        Add { target, a, b }
    }
}

impl<'a> Aml for Add<'a> {
    open spec fn aml(&self) -> Seq<u8> {
        seq![ADDOP] + self.a.aml() + self.b.aml() + self.target.aml()
    }

    open spec fn wf(&self) -> bool {
        self.a.wf() && self.b.wf() && self.target.wf()
    }

    fn to_aml_bytes(&self, bytes: &mut Vec<u8>) {
        bytes.push(ADDOP);
        self.a.to_aml_bytes(bytes);
        self.b.to_aml_bytes(bytes);
        self.target.to_aml_bytes(bytes);
        assert(bytes@ =~= old(bytes)@ + self.aml());
    }
}

/// General operation object with the operands a/b and a target.
pub struct Concat<'a> {
    pub a: &'a dyn Aml,
    pub b: &'a dyn Aml,
    pub target: &'a dyn Aml,
}

impl<'a> Concat<'a> {
    /// Create the operation object.
    pub fn new(target: &'a dyn Aml, a: &'a dyn Aml, b: &'a dyn Aml) -> Concat<'a> {
        Concat { target, a, b }
    }
}

impl<'a> Aml for Concat<'a> {
    open spec fn aml(&self) -> Seq<u8> {
        seq![CONCATOP] + self.a.aml() + self.b.aml() + self.target.aml()
    }

    open spec fn wf(&self) -> bool {
        self.a.wf() && self.b.wf() && self.target.wf()
    }

    fn to_aml_bytes(&self, bytes: &mut Vec<u8>) {
        bytes.push(CONCATOP);
        self.a.to_aml_bytes(bytes);
        self.b.to_aml_bytes(bytes);
        self.target.to_aml_bytes(bytes);
        assert(bytes@ =~= old(bytes)@ + self.aml());
    }
}

/// General operation object with the operands a/b and a target.
pub struct Subtract<'a> {
    pub a: &'a dyn Aml,
    pub b: &'a dyn Aml,
    pub target: &'a dyn Aml,
}

impl<'a> Subtract<'a> {
    /// Create the operation object.
    pub fn new(target: &'a dyn Aml, a: &'a dyn Aml, b: &'a dyn Aml) -> Subtract<'a> {
        Subtract { target, a, b }
    }
}

impl<'a> Aml for Subtract<'a> {
    open spec fn aml(&self) -> Seq<u8> {
        seq![SUBTRACTOP] + self.a.aml() + self.b.aml() + self.target.aml()
    }

    open spec fn wf(&self) -> bool {
        self.a.wf() && self.b.wf() && self.target.wf()
    }

    fn to_aml_bytes(&self, bytes: &mut Vec<u8>) {
        bytes.push(SUBTRACTOP);
        self.a.to_aml_bytes(bytes);
        self.b.to_aml_bytes(bytes);
        self.target.to_aml_bytes(bytes);
        assert(bytes@ =~= old(bytes)@ + self.aml());
    }
}

/// General operation object with the operands a/b and a target.
pub struct Multiply<'a> {
    pub a: &'a dyn Aml,
    pub b: &'a dyn Aml,
    pub target: &'a dyn Aml,
}

impl<'a> Multiply<'a> {
    /// Create the operation object.
    pub fn new(target: &'a dyn Aml, a: &'a dyn Aml, b: &'a dyn Aml) -> Multiply<'a> {
        Multiply { target, a, b }
    }
}

impl<'a> Aml for Multiply<'a> {
    open spec fn aml(&self) -> Seq<u8> {
        seq![MULTIPLYOP] + self.a.aml() + self.b.aml() + self.target.aml()
    }

    open spec fn wf(&self) -> bool {
        self.a.wf() && self.b.wf() && self.target.wf()
    }

    fn to_aml_bytes(&self, bytes: &mut Vec<u8>) {
        bytes.push(MULTIPLYOP);
        self.a.to_aml_bytes(bytes);
        self.b.to_aml_bytes(bytes);
        self.target.to_aml_bytes(bytes);
        assert(bytes@ =~= old(bytes)@ + self.aml());
    }
}

/// General operation object with the operands a/b and a target.
pub struct ShiftLeft<'a> {
    pub a: &'a dyn Aml,
    pub b: &'a dyn Aml,
    pub target: &'a dyn Aml,
}

impl<'a> ShiftLeft<'a> {
    /// Create the operation object.
    pub fn new(target: &'a dyn Aml, a: &'a dyn Aml, b: &'a dyn Aml) -> ShiftLeft<'a> {
        ShiftLeft { target, a, b }
    }
}

impl<'a> Aml for ShiftLeft<'a> {
    open spec fn aml(&self) -> Seq<u8> {
        seq![SHIFTLEFTOP] + self.a.aml() + self.b.aml() + self.target.aml()
    }

    open spec fn wf(&self) -> bool {
        self.a.wf() && self.b.wf() && self.target.wf()
    }

    fn to_aml_bytes(&self, bytes: &mut Vec<u8>) {
        bytes.push(SHIFTLEFTOP);
        self.a.to_aml_bytes(bytes);
        self.b.to_aml_bytes(bytes);
        self.target.to_aml_bytes(bytes);
        assert(bytes@ =~= old(bytes)@ + self.aml());
    }
}

/// General operation object with the operands a/b and a target.
pub struct ShiftRight<'a> {
    pub a: &'a dyn Aml,
    pub b: &'a dyn Aml,
    pub target: &'a dyn Aml,
}

impl<'a> ShiftRight<'a> {
    /// Create the operation object.
    pub fn new(target: &'a dyn Aml, a: &'a dyn Aml, b: &'a dyn Aml) -> ShiftRight<'a> {
        ShiftRight { target, a, b }
    }
}

impl<'a> Aml for ShiftRight<'a> {
    open spec fn aml(&self) -> Seq<u8> {
        seq![SHIFTRIGHTOP] + self.a.aml() + self.b.aml() + self.target.aml()
    }

    open spec fn wf(&self) -> bool {
        self.a.wf() && self.b.wf() && self.target.wf()
    }

    fn to_aml_bytes(&self, bytes: &mut Vec<u8>) {
        bytes.push(SHIFTRIGHTOP);
        self.a.to_aml_bytes(bytes);
        self.b.to_aml_bytes(bytes);
        self.target.to_aml_bytes(bytes);
        assert(bytes@ =~= old(bytes)@ + self.aml());
    }
}

/// General operation object with the operands a/b and a target.
pub struct And<'a> {
    pub a: &'a dyn Aml,
    pub b: &'a dyn Aml,
    pub target: &'a dyn Aml,
}

impl<'a> And<'a> {
    /// Create the operation object.
    pub fn new(target: &'a dyn Aml, a: &'a dyn Aml, b: &'a dyn Aml) -> And<'a> {
        And { target, a, b }
    }
}

impl<'a> Aml for And<'a> {
    open spec fn aml(&self) -> Seq<u8> {
        seq![ANDOP] + self.a.aml() + self.b.aml() + self.target.aml()
    }

    open spec fn wf(&self) -> bool {
        self.a.wf() && self.b.wf() && self.target.wf()
    }

    fn to_aml_bytes(&self, bytes: &mut Vec<u8>) {
        bytes.push(ANDOP);
        self.a.to_aml_bytes(bytes);
        self.b.to_aml_bytes(bytes);
        self.target.to_aml_bytes(bytes);
        assert(bytes@ =~= old(bytes)@ + self.aml());
    }
}

/// General operation object with the operands a/b and a target.
pub struct Nand<'a> {
    pub a: &'a dyn Aml,
    pub b: &'a dyn Aml,
    pub target: &'a dyn Aml,
}

impl<'a> Nand<'a> {
    /// Create the operation object.
    pub fn new(target: &'a dyn Aml, a: &'a dyn Aml, b: &'a dyn Aml) -> Nand<'a> {
        Nand { target, a, b }
    }
}

impl<'a> Aml for Nand<'a> {
    open spec fn aml(&self) -> Seq<u8> {
        seq![NANDOP] + self.a.aml() + self.b.aml() + self.target.aml()
    }

    open spec fn wf(&self) -> bool {
        self.a.wf() && self.b.wf() && self.target.wf()
    }

    fn to_aml_bytes(&self, bytes: &mut Vec<u8>) {
        bytes.push(NANDOP);
        self.a.to_aml_bytes(bytes);
        self.b.to_aml_bytes(bytes);
        self.target.to_aml_bytes(bytes);
        assert(bytes@ =~= old(bytes)@ + self.aml());
    }
}

/// General operation object with the operands a/b and a target.
pub struct Or<'a> {
    pub a: &'a dyn Aml,
    pub b: &'a dyn Aml,
    pub target: &'a dyn Aml,
}

impl<'a> Or<'a> {
    /// Create the operation object.
    pub fn new(target: &'a dyn Aml, a: &'a dyn Aml, b: &'a dyn Aml) -> Or<'a> {
        Or { target, a, b }
    }
}

impl<'a> Aml for Or<'a> {
    open spec fn aml(&self) -> Seq<u8> {
        seq![OROP] + self.a.aml() + self.b.aml() + self.target.aml()
    }

    open spec fn wf(&self) -> bool {
        self.a.wf() && self.b.wf() && self.target.wf()
    }

    fn to_aml_bytes(&self, bytes: &mut Vec<u8>) {
        bytes.push(OROP);
        self.a.to_aml_bytes(bytes);
        self.b.to_aml_bytes(bytes);
        self.target.to_aml_bytes(bytes);
        assert(bytes@ =~= old(bytes)@ + self.aml());
    }
}

/// General operation object with the operands a/b and a target.
pub struct Nor<'a> {
    pub a: &'a dyn Aml,
    pub b: &'a dyn Aml,
    pub target: &'a dyn Aml,
}

impl<'a> Nor<'a> {
    /// Create the operation object.
    pub fn new(target: &'a dyn Aml, a: &'a dyn Aml, b: &'a dyn Aml) -> Nor<'a> {
        Nor { target, a, b }
    }
}

impl<'a> Aml for Nor<'a> {
    open spec fn aml(&self) -> Seq<u8> {
        seq![NOROP] + self.a.aml() + self.b.aml() + self.target.aml()
    }

    open spec fn wf(&self) -> bool {
        self.a.wf() && self.b.wf() && self.target.wf()
    }

    fn to_aml_bytes(&self, bytes: &mut Vec<u8>) {
        bytes.push(NOROP);
        self.a.to_aml_bytes(bytes);
        self.b.to_aml_bytes(bytes);
        self.target.to_aml_bytes(bytes);
        assert(bytes@ =~= old(bytes)@ + self.aml());
    }
}

/// General operation object with the operands a/b and a target.
pub struct Xor<'a> {
    pub a: &'a dyn Aml,
    pub b: &'a dyn Aml,
    pub target: &'a dyn Aml,
}

impl<'a> Xor<'a> {
    /// Create the operation object.
    pub fn new(target: &'a dyn Aml, a: &'a dyn Aml, b: &'a dyn Aml) -> Xor<'a> {
        Xor { target, a, b }
    }
}

impl<'a> Aml for Xor<'a> {
    open spec fn aml(&self) -> Seq<u8> {
        seq![XOROP] + self.a.aml() + self.b.aml() + self.target.aml()
    }

    open spec fn wf(&self) -> bool {
        self.a.wf() && self.b.wf() && self.target.wf()
    }

    fn to_aml_bytes(&self, bytes: &mut Vec<u8>) {
        bytes.push(XOROP);
        self.a.to_aml_bytes(bytes);
        self.b.to_aml_bytes(bytes);
        self.target.to_aml_bytes(bytes);
        assert(bytes@ =~= old(bytes)@ + self.aml());
    }
}

/// General operation object with the operands a/b and a target.
pub struct ConcatRes<'a> {
    pub a: &'a dyn Aml,
    pub b: &'a dyn Aml,
    pub target: &'a dyn Aml,
}

impl<'a> ConcatRes<'a> {
    /// Create the operation object.
    pub fn new(target: &'a dyn Aml, a: &'a dyn Aml, b: &'a dyn Aml) -> ConcatRes<'a> {
        ConcatRes { target, a, b }
    }
}

impl<'a> Aml for ConcatRes<'a> {
    open spec fn aml(&self) -> Seq<u8> {
        seq![CONCATRESOP] + self.a.aml() + self.b.aml() + self.target.aml()
    }

    open spec fn wf(&self) -> bool {
        self.a.wf() && self.b.wf() && self.target.wf()
    }

    fn to_aml_bytes(&self, bytes: &mut Vec<u8>) {
        bytes.push(CONCATRESOP);
        self.a.to_aml_bytes(bytes);
        self.b.to_aml_bytes(bytes);
        self.target.to_aml_bytes(bytes);
        assert(bytes@ =~= old(bytes)@ + self.aml());
    }
}

/// General operation object with the operands a/b and a target.
pub struct Mod<'a> {
    pub a: &'a dyn Aml,
    pub b: &'a dyn Aml,
    pub target: &'a dyn Aml,
}

impl<'a> Mod<'a> {
    /// Create the operation object.
    pub fn new(target: &'a dyn Aml, a: &'a dyn Aml, b: &'a dyn Aml) -> Mod<'a> {
        Mod { target, a, b }
    }
}

impl<'a> Aml for Mod<'a> {
    open spec fn aml(&self) -> Seq<u8> {
        seq![MODOP] + self.a.aml() + self.b.aml() + self.target.aml()
    }

    open spec fn wf(&self) -> bool {
        self.a.wf() && self.b.wf() && self.target.wf()
    }

    fn to_aml_bytes(&self, bytes: &mut Vec<u8>) {
        bytes.push(MODOP);
        self.a.to_aml_bytes(bytes);
        self.b.to_aml_bytes(bytes);
        self.target.to_aml_bytes(bytes);
        assert(bytes@ =~= old(bytes)@ + self.aml());
    }
}

/// General operation object with the operands a/b and a target.
pub struct Index<'a> {
    pub a: &'a dyn Aml,
    pub b: &'a dyn Aml,
    pub target: &'a dyn Aml,
}

impl<'a> Index<'a> {
    /// Create the operation object.
    pub fn new(target: &'a dyn Aml, a: &'a dyn Aml, b: &'a dyn Aml) -> Index<'a> {
        Index { target, a, b }
    }
}

impl<'a> Aml for Index<'a> {
    open spec fn aml(&self) -> Seq<u8> {
        seq![INDEXOP] + self.a.aml() + self.b.aml() + self.target.aml()
    }

    open spec fn wf(&self) -> bool {
        self.a.wf() && self.b.wf() && self.target.wf()
    }

    fn to_aml_bytes(&self, bytes: &mut Vec<u8>) {
        bytes.push(INDEXOP);
        self.a.to_aml_bytes(bytes);
        self.b.to_aml_bytes(bytes);
        self.target.to_aml_bytes(bytes);
        assert(bytes@ =~= old(bytes)@ + self.aml());
    }
}

/// General operation object with the operands a/b and a target.
pub struct ToString<'a> {
    pub a: &'a dyn Aml,
    pub b: &'a dyn Aml,
    pub target: &'a dyn Aml,
}

impl<'a> ToString<'a> {
    /// Create the operation object.
    pub fn new(target: &'a dyn Aml, a: &'a dyn Aml, b: &'a dyn Aml) -> ToString<'a> {
        ToString { target, a, b }
    }
}

impl<'a> Aml for ToString<'a> {
    open spec fn aml(&self) -> Seq<u8> {
        seq![TOSTRINGOP] + self.a.aml() + self.b.aml() + self.target.aml()
    }

    open spec fn wf(&self) -> bool {
        self.a.wf() && self.b.wf() && self.target.wf()
    }

    fn to_aml_bytes(&self, bytes: &mut Vec<u8>) {
        bytes.push(TOSTRINGOP);
        self.a.to_aml_bytes(bytes);
        self.b.to_aml_bytes(bytes);
        self.target.to_aml_bytes(bytes);
        assert(bytes@ =~= old(bytes)@ + self.aml());
    }
}

/// General operation object with the operands a/b and a target.
pub struct CreateDWordField<'a> {
    pub a: &'a dyn Aml,
    pub b: &'a dyn Aml,
    pub target: &'a dyn Aml,
}

impl<'a> CreateDWordField<'a> {
    /// Create the operation object.
    pub fn new(target: &'a dyn Aml, a: &'a dyn Aml, b: &'a dyn Aml) -> CreateDWordField<'a> {
        CreateDWordField { target, a, b }
    }
}

impl<'a> Aml for CreateDWordField<'a> {
    open spec fn aml(&self) -> Seq<u8> {
        seq![CREATEDWFIELDOP] + self.a.aml() + self.b.aml() + self.target.aml()
    }

    open spec fn wf(&self) -> bool {
        self.a.wf() && self.b.wf() && self.target.wf()
    }

    fn to_aml_bytes(&self, bytes: &mut Vec<u8>) {
        bytes.push(CREATEDWFIELDOP);
        self.a.to_aml_bytes(bytes);
        self.b.to_aml_bytes(bytes);
        self.target.to_aml_bytes(bytes);
        assert(bytes@ =~= old(bytes)@ + self.aml());
    }
}

/// General operation object with the operands a/b and a target.
pub struct CreateQWordField<'a> {
    pub a: &'a dyn Aml,
    pub b: &'a dyn Aml,
    pub target: &'a dyn Aml,
}

impl<'a> CreateQWordField<'a> {
    /// Create the operation object.
    pub fn new(target: &'a dyn Aml, a: &'a dyn Aml, b: &'a dyn Aml) -> CreateQWordField<'a> {
        CreateQWordField { target, a, b }
    }
}

impl<'a> Aml for CreateQWordField<'a> {
    open spec fn aml(&self) -> Seq<u8> {
        seq![CREATEQWFIELDOP] + self.a.aml() + self.b.aml() + self.target.aml()
    }

    open spec fn wf(&self) -> bool {
        self.a.wf() && self.b.wf() && self.target.wf()
    }

    fn to_aml_bytes(&self, bytes: &mut Vec<u8>) {
        bytes.push(CREATEQWFIELDOP);
        self.a.to_aml_bytes(bytes);
        self.b.to_aml_bytes(bytes);
        self.target.to_aml_bytes(bytes);
        assert(bytes@ =~= old(bytes)@ + self.aml());
    }
}

/// Conversion operation object with the operand a and a target.
pub struct ToBuffer<'a> {
    pub a: &'a dyn Aml,
    pub target: &'a dyn Aml,
}

impl<'a> ToBuffer<'a> {
    /// Create the conversion object.
    pub fn new(target: &'a dyn Aml, a: &'a dyn Aml) -> ToBuffer<'a> {
        ToBuffer { target, a }
    }
}

impl<'a> Aml for ToBuffer<'a> {
    open spec fn aml(&self) -> Seq<u8> {
        seq![TOBUFFEROP] + self.a.aml() + self.target.aml()
    }

    open spec fn wf(&self) -> bool {
        self.a.wf() && self.target.wf()
    }

    fn to_aml_bytes(&self, bytes: &mut Vec<u8>) {
        bytes.push(TOBUFFEROP);
        self.a.to_aml_bytes(bytes);
        self.target.to_aml_bytes(bytes);
        assert(bytes@ =~= old(bytes)@ + self.aml());
    }
}

/// Conversion operation object with the operand a and a target.
pub struct ToInteger<'a> {
    pub a: &'a dyn Aml,
    pub target: &'a dyn Aml,
}

impl<'a> ToInteger<'a> {
    /// Create the conversion object.
    pub fn new(target: &'a dyn Aml, a: &'a dyn Aml) -> ToInteger<'a> {
        ToInteger { target, a }
    }
}

impl<'a> Aml for ToInteger<'a> {
    open spec fn aml(&self) -> Seq<u8> {
        seq![TOINTEGEROP] + self.a.aml() + self.target.aml()
    }

    open spec fn wf(&self) -> bool {
        self.a.wf() && self.target.wf()
    }

    fn to_aml_bytes(&self, bytes: &mut Vec<u8>) {
        bytes.push(TOINTEGEROP);
        self.a.to_aml_bytes(bytes);
        self.target.to_aml_bytes(bytes);
        assert(bytes@ =~= old(bytes)@ + self.aml());
    }
}

} // verus!
