//! The header record of an archive entry, in the cpio format family.
//!
//! Different generations of the format use incompatible header layouts. Each
//! layout is a fixed-size record: a magic field identifying the variant,
//! followed by file metadata fields in a fixed wire order. The variants are:
//!
//! - `OldHeader`: 26 bytes, binary 16-bit fields written least-significant
//!   byte first (the native order of the little-endian machines this codec
//!   targets), magic `0xC7 0x71`;
//! - `OdcHeader`: 76 bytes, zero-padded decimal ASCII fields, magic `"070707"`;
//! - `NewcHeader`: 110 bytes, zero-padded hexadecimal ASCII fields, magic
//!   `"070701"` (or `"070702"` for the checksum sub-variant, which shares the
//!   shape and differs only in the magic).
//!
//! Each variant offers construction of a blank record stamped with its magic,
//! and projection of a record to its exact wire bytes.

use vstd::prelude::*;

verus! {

/// Wire length in bytes of an `OldHeader` record.
pub const OLD_HEADER_LEN: usize = 26;

/// Wire length in bytes of an `OdcHeader` record.
pub const ODC_HEADER_LEN: usize = 76;

/// Wire length in bytes of a `NewcHeader` record, in both its variants.
pub const NEWC_HEADER_LEN: usize = 110;

/// The two bytes of an `OldHeader`'s magic field on the wire
/// (the 16-bit value `0x71C7` in little-endian order).
pub open spec fn old_magic() -> Seq<u8> {
    seq![0xc7u8, 0x71u8]
}

/// The six bytes of an `OdcHeader`'s magic field: the ASCII text `"070707"`.
pub open spec fn odc_magic() -> Seq<u8> {
    seq![0x30u8, 0x37u8, 0x30u8, 0x37u8, 0x30u8, 0x37u8]
}

/// The six bytes of a `NewcHeader`'s magic field: the ASCII text `"070701"`.
pub open spec fn newc_magic() -> Seq<u8> {
    seq![0x30u8, 0x37u8, 0x30u8, 0x37u8, 0x30u8, 0x31u8]
}

/// The six bytes of the checksum sub-variant's magic field:
/// the ASCII text `"070702"`.
pub open spec fn crc_magic() -> Seq<u8> {
    seq![0x30u8, 0x37u8, 0x30u8, 0x37u8, 0x30u8, 0x32u8]
}

/// The two wire bytes of a 16-bit field, least significant byte first.
pub open spec fn u16_le(x: u16) -> Seq<u8> {
    seq![(x % 0x100) as u8, (x / 0x100) as u8]
}

/// Appends the two wire bytes of a 16-bit field to a byte buffer.
fn push_u16_le(v: &mut Vec<u8>, x: u16)
    ensures
        final(v)@ == old(v)@ + u16_le(x),
{
    v.push((x % 0x100) as u8);
    v.push((x / 0x100) as u8);
    proof {
        assert(v@ =~= old(v)@ + u16_le(x));
    }
}

/// Appends a fixed-size byte field to a byte buffer.
fn push_bytes<const N: usize>(v: &mut Vec<u8>, a: &[u8; N])
    ensures
        final(v)@ == old(v)@ + a@,
{
    let mut i: usize = 0;
    while i < N
        invariant
            i <= N,
            v@ == old(v)@ + a@.subrange(0, i as int),
        decreases N - i,
    {
        let b: u8 = a[i];
        v.push(b);
        proof {
            assert(a@.subrange(0, i as int + 1) =~= a@.subrange(0, i as int).push(b));
        }
        i = i + 1;
    }
    proof {
        assert(a@.subrange(0, N as int) =~= a@);
    }
}

/// The wire image of a freshly constructed record: the variant's magic bytes,
/// then zero bytes up to the variant's wire length.
pub open spec fn blank_wire(magic: Seq<u8>, len: nat) -> Seq<u8> {
    magic + Seq::new((len - magic.len()) as nat, |i: int| 0u8)
}

/// Exact-length and zero-fill law of a blank record's wire image: it is
/// exactly `len` bytes, begins with the magic bytes, and every byte after the
/// magic field is zero.
pub proof fn lemma_blank_wire(magic: Seq<u8>, len: nat)
    requires
        magic.len() <= len,
    ensures
        blank_wire(magic, len).len() == len,
        forall|i: int| 0 <= i < magic.len() ==> blank_wire(magic, len)[i] == magic[i],
        forall|i: int| magic.len() <= i < len ==> blank_wire(magic, len)[i] == 0u8,
{
}

/// The capability shared by all header variants: construct a blank record
/// stamped with the variant's magic, and project a record to its wire bytes.
pub trait Header: Sized {
    /// The record's wire image: the exact byte sequence that represents it
    /// on disk.
    spec fn wire(&self) -> Seq<u8>;

    /// The variant's fixed wire length.
    spec fn wire_len() -> nat;

    /// The variant's magic byte sequence, stamped at offset zero.
    spec fn magic_seq() -> Seq<u8>;

    /// Exact-length law: every record of the variant, whatever its field
    /// contents, projects to exactly `wire_len` bytes, and the magic field
    /// fits within them.
    proof fn lemma_wire_len(&self)
        ensures
            self.wire().len() == Self::wire_len(),
            Self::magic_seq().len() <= Self::wire_len(),
    ;

    /// Constructs a blank record: every field zero, except the magic field,
    /// which carries the variant's fixed tag bytes.
    fn new() -> (r: Self)
        ensures
            r.wire() == blank_wire(Self::magic_seq(), Self::wire_len()),
    ;

    /// Projects the record to its wire bytes without altering it.
    fn as_bytes(&self) -> (r: Vec<u8>)
        ensures
            r@ == self.wire(),
    ;
}

/// The oldest layout: thirteen 16-bit binary fields, each written
/// least-significant byte first, 26 bytes in all. Multi-word values
/// (`mtime`, `filesize`) are split into two 16-bit halves.
#[derive(Clone, Copy)]
pub struct OldHeader {
    /// The magic number.
    magic: u16,
    /// The device number from the disk.
    dev: u16,
    /// The inode number from the disk.
    ino: u16,
    /// The file mode.
    mode: u16,
    /// The user id.
    uid: u16,
    /// The group id.
    gid: u16,
    /// The number of links to this file.
    nlink: u16,
    /// The device number associated to block special and character special
    /// entries.
    rdev: u16,
    /// The modification time of this file, split into two 16-bit halves.
    mtime: [u16; 2],
    /// The number of bytes in the pathname which follows the header.
    namesize: u16,
    /// The size of this file, split into two 16-bit halves.
    filesize: [u16; 2],
}

impl Header for OldHeader {
    closed spec fn wire(&self) -> Seq<u8> {
        u16_le(self.magic) + u16_le(self.dev) + u16_le(self.ino) + u16_le(self.mode)
            + u16_le(self.uid) + u16_le(self.gid) + u16_le(self.nlink) + u16_le(self.rdev)
            + u16_le(self.mtime[0]) + u16_le(self.mtime[1]) + u16_le(self.namesize)
            + u16_le(self.filesize[0]) + u16_le(self.filesize[1])
    }

    open spec fn wire_len() -> nat {
        OLD_HEADER_LEN as nat
    }

    open spec fn magic_seq() -> Seq<u8> {
        old_magic()
    }

    proof fn lemma_wire_len(&self) {
    }

    fn new() -> (r: Self) {
        let r = OldHeader {
            magic: 0x71c7,
            dev: 0,
            ino: 0,
            mode: 0,
            uid: 0,
            gid: 0,
            nlink: 0,
            rdev: 0,
            mtime: [0, 0],
            namesize: 0,
            filesize: [0, 0],
        };
        proof {
            assert(r.wire() =~= blank_wire(old_magic(), OLD_HEADER_LEN as nat));
        }
        r
    }

    fn as_bytes(&self) -> (r: Vec<u8>) {
        let mut r: Vec<u8> = Vec::new();
        push_u16_le(&mut r, self.magic);
        push_u16_le(&mut r, self.dev);
        push_u16_le(&mut r, self.ino);
        push_u16_le(&mut r, self.mode);
        push_u16_le(&mut r, self.uid);
        push_u16_le(&mut r, self.gid);
        push_u16_le(&mut r, self.nlink);
        push_u16_le(&mut r, self.rdev);
        push_u16_le(&mut r, self.mtime[0]);
        push_u16_le(&mut r, self.mtime[1]);
        push_u16_le(&mut r, self.namesize);
        push_u16_le(&mut r, self.filesize[0]);
        push_u16_le(&mut r, self.filesize[1]);
        proof {
            assert(r@ =~= self.wire());
        }
        r
    }
}

/// The portable layout: fields stored as zero-padded decimal ASCII text,
/// 6 characters each (11 for `mtime` and `filesize`), 76 bytes in all.
#[derive(Clone, Copy)]
pub struct OdcHeader {
    /// The magic number.
    magic: [u8; 6],
    /// The device number from the disk.
    dev: [u8; 6],
    /// The inode number from the disk.
    ino: [u8; 6],
    /// The file mode.
    mode: [u8; 6],
    /// The user id.
    uid: [u8; 6],
    /// The group id.
    gid: [u8; 6],
    /// The number of links to this file.
    nlink: [u8; 6],
    /// The device number associated to block special and character special
    /// entries.
    rdev: [u8; 6],
    /// The modification time of this file.
    mtime: [u8; 11],
    /// The number of bytes in the pathname which follows the header.
    namesize: [u8; 6],
    /// The size of this file.
    filesize: [u8; 11],
}

impl Header for OdcHeader {
    closed spec fn wire(&self) -> Seq<u8> {
        self.magic@ + self.dev@ + self.ino@ + self.mode@ + self.uid@ + self.gid@
            + self.nlink@ + self.rdev@ + self.mtime@ + self.namesize@ + self.filesize@
    }

    open spec fn wire_len() -> nat {
        ODC_HEADER_LEN as nat
    }

    open spec fn magic_seq() -> Seq<u8> {
        odc_magic()
    }

    proof fn lemma_wire_len(&self) {
    }

    fn new() -> (r: Self) {
        let r = OdcHeader {
            magic: [0x30, 0x37, 0x30, 0x37, 0x30, 0x37],
            dev: [0; 6],
            ino: [0; 6],
            mode: [0; 6],
            uid: [0; 6],
            gid: [0; 6],
            nlink: [0; 6],
            rdev: [0; 6],
            mtime: [0; 11],
            namesize: [0; 6],
            filesize: [0; 11],
        };
        proof {
            assert(r.wire() =~= blank_wire(odc_magic(), ODC_HEADER_LEN as nat));
        }
        r
    }

    fn as_bytes(&self) -> (r: Vec<u8>) {
        let mut r: Vec<u8> = Vec::new();
        push_bytes(&mut r, &self.magic);
        push_bytes(&mut r, &self.dev);
        push_bytes(&mut r, &self.ino);
        push_bytes(&mut r, &self.mode);
        push_bytes(&mut r, &self.uid);
        push_bytes(&mut r, &self.gid);
        push_bytes(&mut r, &self.nlink);
        push_bytes(&mut r, &self.rdev);
        push_bytes(&mut r, &self.mtime);
        push_bytes(&mut r, &self.namesize);
        push_bytes(&mut r, &self.filesize);
        proof {
            assert(r@ =~= self.wire());
        }
        r
    }
}

/// The newest layout: fields stored as zero-padded hexadecimal ASCII text,
/// 8 characters each, 110 bytes in all. Device numbers are split into major
/// and minor fields, and a checksum field closes the record. The checksum
/// sub-variant shares this shape and differs only in its magic.
#[derive(Clone, Copy)]
pub struct NewcHeader {
    /// The magic number.
    magic: [u8; 6],
    /// The inode number from the disk.
    ino: [u8; 8],
    /// The file mode.
    mode: [u8; 8],
    /// The user id.
    uid: [u8; 8],
    /// The group id.
    gid: [u8; 8],
    /// The number of links to this file.
    nlink: [u8; 8],
    /// The modification time of this file.
    mtime: [u8; 8],
    /// The size of this file.
    filesize: [u8; 8],
    /// The device major number from the disk.
    devmajor: [u8; 8],
    /// The device minor number from the disk.
    devminor: [u8; 8],
    /// The device major number for special files.
    rdevmajor: [u8; 8],
    /// The device minor number for special files.
    rdevminor: [u8; 8],
    /// The number of bytes in the pathname which follows the header.
    namesize: [u8; 8],
    /// The checksum.
    check: [u8; 8],
}

impl Header for NewcHeader {
    closed spec fn wire(&self) -> Seq<u8> {
        self.magic@ + self.ino@ + self.mode@ + self.uid@ + self.gid@ + self.nlink@
            + self.mtime@ + self.filesize@ + self.devmajor@ + self.devminor@
            + self.rdevmajor@ + self.rdevminor@ + self.namesize@ + self.check@
    }

    open spec fn wire_len() -> nat {
        NEWC_HEADER_LEN as nat
    }

    open spec fn magic_seq() -> Seq<u8> {
        newc_magic()
    }

    proof fn lemma_wire_len(&self) {
    }

    fn new() -> (r: Self) {
        let r = NewcHeader {
            magic: [0x30, 0x37, 0x30, 0x37, 0x30, 0x31],
            ino: [0; 8],
            mode: [0; 8],
            uid: [0; 8],
            gid: [0; 8],
            nlink: [0; 8],
            mtime: [0; 8],
            filesize: [0; 8],
            devmajor: [0; 8],
            devminor: [0; 8],
            rdevmajor: [0; 8],
            rdevminor: [0; 8],
            namesize: [0; 8],
            check: [0; 8],
        };
        proof {
            assert(r.wire() =~= blank_wire(newc_magic(), NEWC_HEADER_LEN as nat));
        }
        r
    }

    fn as_bytes(&self) -> (r: Vec<u8>) {
        let mut r: Vec<u8> = Vec::new();
        push_bytes(&mut r, &self.magic);
        push_bytes(&mut r, &self.ino);
        push_bytes(&mut r, &self.mode);
        push_bytes(&mut r, &self.uid);
        push_bytes(&mut r, &self.gid);
        push_bytes(&mut r, &self.nlink);
        push_bytes(&mut r, &self.mtime);
        push_bytes(&mut r, &self.filesize);
        push_bytes(&mut r, &self.devmajor);
        push_bytes(&mut r, &self.devminor);
        push_bytes(&mut r, &self.rdevmajor);
        push_bytes(&mut r, &self.rdevminor);
        push_bytes(&mut r, &self.namesize);
        push_bytes(&mut r, &self.check);
        proof {
            assert(r@ =~= self.wire());
        }
        r
    }
}

impl NewcHeader {
    /// Constructs a blank record of the checksum sub-variant: the same shape
    /// as `NewcHeader::new()`, with the sub-variant's magic in its place.
    /// The two constructions are distinct operations; a record never changes
    /// its magic afterwards.
    pub fn new_crc() -> (r: Self)
        ensures
            r.wire() == blank_wire(crc_magic(), NEWC_HEADER_LEN as nat),
    {
        let r = NewcHeader {
            magic: [0x30, 0x37, 0x30, 0x37, 0x30, 0x32],
            ino: [0; 8],
            mode: [0; 8],
            uid: [0; 8],
            gid: [0; 8],
            nlink: [0; 8],
            mtime: [0; 8],
            filesize: [0; 8],
            devmajor: [0; 8],
            devminor: [0; 8],
            rdevmajor: [0; 8],
            rdevminor: [0; 8],
            namesize: [0; 8],
            check: [0; 8],
        };
        proof {
            assert(r.wire() =~= blank_wire(crc_magic(), NEWC_HEADER_LEN as nat));
        }
        r
    }
}

/// The checksum sub-variant shares `NewcHeader`'s shape: the blank wire
/// images of `NewcHeader::new()` and `NewcHeader::new_crc()` have the same
/// length, carry their own magic at offset zero, and agree — both zero — at
/// every offset past the magic field.
pub proof fn lemma_crc_differs_only_in_magic()
    ensures
        blank_wire(crc_magic(), NEWC_HEADER_LEN as nat).len()
            == blank_wire(newc_magic(), NEWC_HEADER_LEN as nat).len(),
        blank_wire(newc_magic(), NEWC_HEADER_LEN as nat).subrange(0, 6) == newc_magic(),
        blank_wire(crc_magic(), NEWC_HEADER_LEN as nat).subrange(0, 6) == crc_magic(),
        forall|i: int|
            6 <= i < NEWC_HEADER_LEN ==> blank_wire(newc_magic(), NEWC_HEADER_LEN as nat)[i]
                == blank_wire(crc_magic(), NEWC_HEADER_LEN as nat)[i],
{
    lemma_blank_wire(newc_magic(), NEWC_HEADER_LEN as nat);
    lemma_blank_wire(crc_magic(), NEWC_HEADER_LEN as nat);
    assert(blank_wire(newc_magic(), NEWC_HEADER_LEN as nat).subrange(0, 6) =~= newc_magic());
    assert(blank_wire(crc_magic(), NEWC_HEADER_LEN as nat).subrange(0, 6) =~= crc_magic());
}

/// Idempotence of projection: projecting one unmutated record twice yields
/// the same bytes, since `as_bytes` returns exactly the record's wire image.
pub proof fn lemma_projection_idempotent<H: Header>(h: &H, b1: Seq<u8>, b2: Seq<u8>)
    requires
        b1 == h.wire(),
        b2 == h.wire(),
    ensures
        b1 == b2,
{
}

/// Duplication law: two records that are equal as values — as a record and
/// its clone are — project to identical bytes.
pub proof fn lemma_duplicates_project_identically<H: Header>(a: &H, b: &H)
    requires
        a == b,
    ensures
        a.wire() == b.wire(),
{
}

} // verus!
