//! Properties that relate several parts of the library: decoding a chunk
//! and writing its fields back out give the same bytes; adding and then
//! deleting a directory leaves a change set that says just that.
use vstd::arithmetic::div_mod::lemma_fundamental_div_mod_converse;
use vstd::prelude::*;

use crate::chunk::add_directory::AddDirectoryChunk;
use crate::chunk::apply_free_space::ApplyFreeSpaceChunk;
use crate::chunk::delete_directory::DeleteDirectoryChunk;
use crate::config::Platform;
use crate::inspection::change_set::changes_of;
use crate::chunk::apply_option::{ApplyOptionChunk, ApplyOptionKind};
use crate::chunk::{body_end, chunk_ok, chunk_size, ZiPatchChunk};
use crate::sqpk::add_data::block_write_len;
use crate::sqpk::delete_data::SqpkDeleteData;
use crate::sqpk::header::{
    SqpkHeader, TargetFile, TargetFileKind, TargetHeaderKind, file_kind_of, header_kind_of,
};
use crate::sqpk::index::{index_kind_of, IndexCommandKind, SqpkIndex};
use crate::sqpk::patch_info::SqpkPatchInfo;
use crate::sqpk::target_info::SqpkTargetInfo;
use crate::config::platform_number;
use crate::sqpk::SqpkCommand;
use crate::util::binary_reader::{be16, be32, be64, le16, le32, le64, signed64};
use crate::util::sqpack_file::{SqpackDatFile, SqpackFile};

verus! {

/// The two big-endian bytes of `v` (below 2^16).
#[verifier::opaque]
pub open spec fn be16_bytes(v: nat) -> Seq<u8> {
    seq![((v / 256) % 256) as u8, (v % 256) as u8]
}

/// The four big-endian bytes of `v` (below 2^32).
#[verifier::opaque]
pub open spec fn be32_bytes(v: nat) -> Seq<u8> {
    be16_bytes(v / 65536) + be16_bytes(v % 65536)
}

/// The eight big-endian bytes of `v` (below 2^64).
#[verifier::opaque]
pub open spec fn be64_bytes(v: nat) -> Seq<u8> {
    be32_bytes(v / 0x1_0000_0000) + be32_bytes(v % 0x1_0000_0000)
}

/// The two little-endian bytes of `v` (below 2^16).
#[verifier::opaque]
pub open spec fn le16_bytes(v: nat) -> Seq<u8> {
    seq![(v % 256) as u8, ((v / 256) % 256) as u8]
}

/// The four little-endian bytes of `v` (below 2^32).
#[verifier::opaque]
pub open spec fn le32_bytes_of(v: nat) -> Seq<u8> {
    le16_bytes(v % 65536) + le16_bytes(v / 65536)
}

/// The eight little-endian bytes of `v` (below 2^64).
#[verifier::opaque]
pub open spec fn le64_bytes(v: nat) -> Seq<u8> {
    le32_bytes_of(v % 0x1_0000_0000) + le32_bytes_of(v / 0x1_0000_0000)
}

/// The 64-bit pattern of `x`.
pub open spec fn unsigned64(x: int) -> nat {
    if x < 0 {
        (x + 0x1_0000_0000_0000_0000) as nat
    } else {
        x as nat
    }
}

/// The eight bytes that identify a pack file.
pub open spec fn encode_id(f: SqpackFile) -> Seq<u8> {
    be16_bytes(f.main_id as nat) + be16_bytes(f.sub_id as nat) + be32_bytes(f.file_id as nat)
}

/// The fields of a block-write command (add-data, expand-data), alignment zeroed.
pub open spec fn encode_block_write(
    target: SqpackFile,
    block_offset: i64,
    block_number: i64,
    block_delete_number: i64,
    data: Seq<u8>,
) -> Seq<u8> {
    seq![0u8, 0u8, 0u8] + encode_id(target) + be32_bytes((block_offset / 128) as nat) + be32_bytes(
        (block_number / 128) as nat,
    ) + be32_bytes((block_delete_number / 128) as nat) + data
}

/// The code of a known file kind.
pub open spec fn file_kind_code(k: TargetFileKind) -> u8 {
    match k {
        TargetFileKind::Dat => 0x44,
        TargetFileKind::Index => 0x49,
    }
}

/// The code of a known header kind.
pub open spec fn header_kind_code(k: TargetHeaderKind) -> u8 {
    match k {
        TargetHeaderKind::Version => 0x56,
        TargetHeaderKind::Index => 0x49,
        TargetHeaderKind::Data => 0x44,
    }
}

/// The identity held by a header command's target.
pub open spec fn target_id(t: TargetFile) -> SqpackFile {
    match t {
        TargetFile::Dat(d) => d.sqpack,
        TargetFile::Index(i) => i.sqpack,
    }
}

/// The fields of an SQPK command after its inner size and code, padding
/// zeroed; empty for the commands this encoding leaves out.
pub open spec fn encode_command_fields(c: SqpkCommand) -> Seq<u8> {
    match c {
        SqpkCommand::AddData(x) => encode_block_write(
            x.target_file.sqpack,
            x.block_offset,
            x.block_number,
            x.block_delete_number,
            x.block_data@,
        ),
        SqpkCommand::ExpandData(x) => encode_block_write(
            x.target_file.sqpack,
            x.block_offset,
            x.block_number,
            x.block_delete_number,
            x.block_data@,
        ),
        SqpkCommand::DeleteData(x) => seq![0u8, 0u8, 0u8] + encode_id(x.target_file.sqpack)
            + be32_bytes((x.block_offset / 128) as nat) + be32_bytes(x.block_number as nat) + seq![
            0u8,
            0u8,
            0u8,
            0u8,
        ],
        SqpkCommand::Header(x) => seq![
            file_kind_code(x.file_kind),
            header_kind_code(x.header_kind),
            0u8,
        ] + encode_id(target_id(x.target_file)) + x.header_data@,
        SqpkCommand::PatchInfo(x) => seq![x.status, x.version, 0u8] + be64_bytes(
            x.install_size as nat,
        ),
        SqpkCommand::Index(x) => seq![
            match x.index_command {
                IndexCommandKind::Add => 0x41u8,
                IndexCommandKind::Delete => 0x44u8,
            },
            if x.is_synonym { 1u8 } else { 0u8 },
            0u8,
        ] + encode_id(x.target_file.sqpack) + be64_bytes(x.file_hash as nat) + be32_bytes(
            x.block_offset as nat,
        ) + be32_bytes(x.block_number as nat),
        SqpkCommand::TargetInfo(x) => seq![0u8, 0u8, 0u8] + be16_bytes(platform_number(x.platform))
            + be16_bytes(0xFFFF) + be16_bytes(if x.is_debug { 1 } else { 0 }) + be16_bytes(
            x.version as nat,
        ) + le64_bytes(x.deleted_data_size as nat) + le64_bytes(x.seek_count as nat),
        _ => Seq::empty(),
    }
}

/// The code of an SQPK command.
pub open spec fn command_code_of(c: SqpkCommand) -> u8 {
    match c {
        SqpkCommand::AddData(_) => 0x41,
        SqpkCommand::DeleteData(_) => 0x44,
        SqpkCommand::ExpandData(_) => 0x45,
        SqpkCommand::File(_) => 0x46,
        SqpkCommand::Header(_) => 0x48,
        SqpkCommand::Index(_) => 0x49,
        SqpkCommand::PatchInfo(_) => 0x58,
        SqpkCommand::TargetInfo(_) => 0x54,
    }
}

/// The body of a chunk of `size` bytes, written from its fields, with every
/// padding and alignment byte zero.
pub open spec fn encode_body(c: ZiPatchChunk, size: nat) -> Seq<u8> {
    match c {
        ZiPatchChunk::ApplyFreeSpace(x) => be64_bytes(unsigned64(x.unknown_field_a as int))
            + be64_bytes(unsigned64(x.unknown_field_b as int)),
        ZiPatchChunk::ApplyOption(x) => be32_bytes(
            match x.option_kind {
                ApplyOptionKind::IgnoreMissing => 1,
                ApplyOptionKind::IgnoreOldMismatch => 2,
                ApplyOptionKind::Unknown => 0,
            },
        ) + seq![0u8, 0u8, 0u8, 0u8] + be32_bytes(if x.option_value { 1 } else { 0 }),
        ZiPatchChunk::Sqpk(x) => be32_bytes(size) + seq![command_code_of(x)]
            + encode_command_fields(x),
        _ => Seq::empty(),
    }
}

/// Whether byte `i` of the body of `c` is padding or alignment, whose value
/// the format leaves open.
pub open spec fn is_padding(c: ZiPatchChunk, i: int) -> bool {
    match c {
        ZiPatchChunk::ApplyOption(_) => 4 <= i < 8,
        ZiPatchChunk::Sqpk(x) => match x {
            SqpkCommand::AddData(_) => 5 <= i < 8,
            SqpkCommand::ExpandData(_) => 5 <= i < 8,
            SqpkCommand::DeleteData(_) => (5 <= i < 8) || (24 <= i < 28),
            SqpkCommand::Header(_) => i == 7,
            SqpkCommand::PatchInfo(_) => i == 7,
            SqpkCommand::Index(_) => i == 7,
            SqpkCommand::TargetInfo(_) => 5 <= i < 8,
            _ => false,
        },
        _ => false,
    }
}

/// Whether writing the chunk's fields back gives its body. Left out are the
/// chunks with a text field (names, paths), the file header, and bodies
/// holding a code that decoding folds into another value: an unknown option
/// or command kind, a region other than -1, a flag other than 0 or 1.
pub open spec fn round_trips(c: ZiPatchChunk, b: Seq<u8>, o: int) -> bool {
    let s = o + 8;
    match c {
        ZiPatchChunk::ApplyFreeSpace(_) => true,
        ZiPatchChunk::ApplyOption(_) => (be32(b, s) == 1 || be32(b, s) == 2) && be32(b, s + 8) <= 1,
        ZiPatchChunk::EndOfFile(_) => true,
        ZiPatchChunk::Sqpk(x) => match x {
            SqpkCommand::AddData(_) => true,
            SqpkCommand::ExpandData(_) => true,
            SqpkCommand::DeleteData(_) => true,
            SqpkCommand::Header(_) => file_kind_of(b[s + 5]) is Some && header_kind_of(b[s
                + 6]) is Some,
            SqpkCommand::PatchInfo(_) => true,
            SqpkCommand::Index(_) => index_kind_of(b[s + 5]) is Some && b[s + 6] <= 1,
            SqpkCommand::TargetInfo(_) => be16(b, s + 10) == 0xFFFF && be16(b, s + 12) <= 1,
            _ => false,
        },
        _ => false,
    }
}

proof fn lemma_be16_bytes(b: Seq<u8>, i: int)
    requires
        0 <= i,
        i + 2 <= b.len(),
    ensures
        be16_bytes(be16(b, i)) == b.subrange(i, i + 2),
{
    reveal(be16_bytes);
    let v = be16(b, i);
    lemma_fundamental_div_mod_converse(v as int, 256, b[i] as int, b[i + 1] as int);
    assert(be16_bytes(v) =~= b.subrange(i, i + 2));
}

proof fn lemma_be32_bytes(b: Seq<u8>, i: int)
    requires
        0 <= i,
        i + 4 <= b.len(),
    ensures
        be32_bytes(be32(b, i)) == b.subrange(i, i + 4),
{
    reveal(be32_bytes);
    let v = be32(b, i);
    lemma_fundamental_div_mod_converse(v as int, 65536, be16(b, i) as int, be16(b, i + 2) as int);
    lemma_be16_bytes(b, i);
    lemma_be16_bytes(b, i + 2);
    assert(be32_bytes(v) =~= b.subrange(i, i + 4));
}

proof fn lemma_be64_bytes(b: Seq<u8>, i: int)
    requires
        0 <= i,
        i + 8 <= b.len(),
    ensures
        be64_bytes(be64(b, i)) == b.subrange(i, i + 8),
{
    reveal(be64_bytes);
    let v = be64(b, i);
    lemma_fundamental_div_mod_converse(
        v as int,
        0x1_0000_0000,
        be32(b, i) as int,
        be32(b, i + 4) as int,
    );
    lemma_be32_bytes(b, i);
    lemma_be32_bytes(b, i + 4);
    assert(be64_bytes(v) =~= b.subrange(i, i + 8));
}

proof fn lemma_le16_bytes(b: Seq<u8>, i: int)
    requires
        0 <= i,
        i + 2 <= b.len(),
    ensures
        le16_bytes(le16(b, i)) == b.subrange(i, i + 2),
{
    reveal(le16_bytes);
    let v = le16(b, i);
    lemma_fundamental_div_mod_converse(v as int, 256, b[i + 1] as int, b[i] as int);
    assert(le16_bytes(v) =~= b.subrange(i, i + 2));
}

proof fn lemma_le32_bytes(b: Seq<u8>, i: int)
    requires
        0 <= i,
        i + 4 <= b.len(),
    ensures
        le32_bytes_of(le32(b, i)) == b.subrange(i, i + 4),
{
    reveal(le32_bytes_of);
    let v = le32(b, i);
    lemma_fundamental_div_mod_converse(v as int, 65536, le16(b, i + 2) as int, le16(b, i) as int);
    lemma_le16_bytes(b, i);
    lemma_le16_bytes(b, i + 2);
    assert(le32_bytes_of(v) =~= b.subrange(i, i + 4));
}

proof fn lemma_le64_bytes(b: Seq<u8>, i: int)
    requires
        0 <= i,
        i + 8 <= b.len(),
    ensures
        le64_bytes(le64(b, i)) == b.subrange(i, i + 8),
{
    reveal(le64_bytes);
    let v = le64(b, i);
    lemma_fundamental_div_mod_converse(
        v as int,
        0x1_0000_0000,
        le32(b, i + 4) as int,
        le32(b, i) as int,
    );
    lemma_le32_bytes(b, i);
    lemma_le32_bytes(b, i + 4);
    assert(le64_bytes(v) =~= b.subrange(i, i + 8));
}

proof fn lemma_rt_index(y: SqpkIndex, b: Seq<u8>, q: int)
    requires
        0 <= q,
        q + 27 <= b.len(),
        y.decoded_from(b, q),
        index_kind_of(b[q]) is Some,
        b[q + 1] <= 1,
    ensures
        ({
            let f = encode_command_fields(SqpkCommand::Index(y));
            &&& f.len() == 27
            &&& f[0] == b[q]
            &&& f[1] == b[q + 1]
            &&& forall|j: int| 3 <= j < 27 ==> f[j] == b[q + j]
        }),
{
    lemma_id_bytes(y.target_file.sqpack, b, q + 3);
    lemma_be64_bytes(b, q + 11);
    lemma_be32_bytes(b, q + 19);
    lemma_be32_bytes(b, q + 23);
    let f = encode_command_fields(SqpkCommand::Index(y));
    assert(f.subrange(3, 27) =~= b.subrange(q + 3, q + 27));
    assert forall|j: int| 3 <= j < 27 implies f[j] == b[q + j] by {
        assert(f.subrange(3, 27)[j - 3] == b.subrange(q + 3, q + 27)[j - 3]);
    }
}

proof fn lemma_rt_target_info(y: SqpkTargetInfo, b: Seq<u8>, q: int)
    requires
        0 <= q,
        q + 27 <= b.len(),
        y.decoded_from(b, q),
        be16(b, q + 5) == 0xFFFF,
        be16(b, q + 7) <= 1,
    ensures
        ({
            let f = encode_command_fields(SqpkCommand::TargetInfo(y));
            &&& f.len() == 27
            &&& forall|j: int| 3 <= j < 27 ==> f[j] == b[q + j]
        }),
{
    lemma_be16_bytes(b, q + 3);
    lemma_be16_bytes(b, q + 5);
    lemma_be16_bytes(b, q + 7);
    lemma_be16_bytes(b, q + 9);
    lemma_le64_bytes(b, q + 11);
    lemma_le64_bytes(b, q + 19);
    let f = encode_command_fields(SqpkCommand::TargetInfo(y));
    assert(f.subrange(3, 27) =~= b.subrange(q + 3, q + 27));
    assert forall|j: int| 3 <= j < 27 implies f[j] == b[q + j] by {
        assert(f.subrange(3, 27)[j - 3] == b.subrange(q + 3, q + 27)[j - 3]);
    }
}

proof fn lemma_id_bytes(f: SqpackFile, b: Seq<u8>, i: int)
    requires
        0 <= i,
        i + 8 <= b.len(),
        f.decoded_from(b, i),
    ensures
        encode_id(f) == b.subrange(i, i + 8),
{
    lemma_be16_bytes(b, i);
    lemma_be16_bytes(b, i + 2);
    lemma_be32_bytes(b, i + 4);
    assert(encode_id(f) =~= b.subrange(i, i + 8));
}

proof fn lemma_signed64(n: nat)
    requires
        n < 0x1_0000_0000_0000_0000,
    ensures
        unsigned64(signed64(n)) == n,
{
}

proof fn lemma_rt_block_write(
    target: SqpackDatFile,
    block_offset: i64,
    block_number: i64,
    block_delete_number: i64,
    data: Seq<u8>,
    b: Seq<u8>,
    q: int,
)
    requires
        0 <= q,
        q + 23 <= b.len(),
        q + block_write_len(b, q) <= b.len(),
        crate::sqpk::add_data::block_write_decoded(
            target,
            block_offset,
            block_number,
            block_delete_number,
            data,
            b,
            q,
        ),
    ensures
        ({
            let f = encode_block_write(target.sqpack, block_offset, block_number,
                block_delete_number, data);
            &&& f.len() == block_write_len(b, q)
            &&& forall|j: int| 3 <= j < f.len() ==> f[j] == b[q + j]
        }),
{
    lemma_id_bytes(target.sqpack, b, q + 3);
    lemma_be32_bytes(b, q + 11);
    lemma_be32_bytes(b, q + 15);
    lemma_be32_bytes(b, q + 19);
    let f = encode_block_write(target.sqpack, block_offset, block_number, block_delete_number,
        data);
    assert(f.subrange(3, f.len() as int) =~= b.subrange(q + 3, q + block_write_len(b, q)));
    assert forall|j: int| 3 <= j < f.len() implies f[j] == b[q + j] by {
        assert(f.subrange(3, f.len() as int)[j - 3] == b.subrange(q + 3, q + block_write_len(b,
            q))[j - 3]);
    }
}

proof fn lemma_rt_delete(y: SqpkDeleteData, b: Seq<u8>, q: int)
    requires
        0 <= q,
        q + 23 <= b.len(),
        y.decoded_from(b, q),
    ensures
        ({
            let f = encode_command_fields(SqpkCommand::DeleteData(y));
            &&& f.len() == 23
            &&& forall|j: int| 3 <= j < 19 ==> f[j] == b[q + j]
        }),
{
    lemma_id_bytes(y.target_file.sqpack, b, q + 3);
    lemma_be32_bytes(b, q + 11);
    lemma_be32_bytes(b, q + 15);
    let f = encode_command_fields(SqpkCommand::DeleteData(y));
    assert(f.subrange(3, 19) =~= b.subrange(q + 3, q + 19));
    assert forall|j: int| 3 <= j < 19 implies f[j] == b[q + j] by {
        assert(f.subrange(3, 19)[j - 3] == b.subrange(q + 3, q + 19)[j - 3]);
    }
}

proof fn lemma_rt_header(y: SqpkHeader, b: Seq<u8>, q: int)
    requires
        0 <= q,
        q + 1035 <= b.len(),
        y.decoded_from(b, q),
        file_kind_of(b[q]) is Some,
        header_kind_of(b[q + 1]) is Some,
    ensures
        ({
            let f = encode_command_fields(SqpkCommand::Header(y));
            &&& f.len() == 1035
            &&& f[0] == b[q]
            &&& f[1] == b[q + 1]
            &&& forall|j: int| 3 <= j < 1035 ==> f[j] == b[q + j]
        }),
{
    lemma_id_bytes(target_id(y.target_file), b, q + 3);
    let f = encode_command_fields(SqpkCommand::Header(y));
    assert(f.subrange(3, 1035) =~= b.subrange(q + 3, q + 1035));
    assert forall|j: int| 3 <= j < 1035 implies f[j] == b[q + j] by {
        assert(f.subrange(3, 1035)[j - 3] == b.subrange(q + 3, q + 1035)[j - 3]);
    }
}

proof fn lemma_rt_patch_info(y: SqpkPatchInfo, b: Seq<u8>, q: int)
    requires
        0 <= q,
        q + 11 <= b.len(),
        y.decoded_from(b, q),
    ensures
        ({
            let f = encode_command_fields(SqpkCommand::PatchInfo(y));
            &&& f.len() == 11
            &&& f[0] == b[q]
            &&& f[1] == b[q + 1]
            &&& forall|j: int| 3 <= j < 11 ==> f[j] == b[q + j]
        }),
{
    lemma_be64_bytes(b, q + 3);
    let f = encode_command_fields(SqpkCommand::PatchInfo(y));
    assert(f.subrange(3, 11) =~= b.subrange(q + 3, q + 11));
    assert forall|j: int| 3 <= j < 11 implies f[j] == b[q + j] by {
        assert(f.subrange(3, 11)[j - 3] == b.subrange(q + 3, q + 11)[j - 3]);
    }
}

proof fn lemma_rt_apfs(x: ApplyFreeSpaceChunk, b: Seq<u8>, s: int)
    requires
        0 <= s,
        s + 16 <= b.len(),
        x.decoded_from(b, s),
    ensures
        encode_body(ZiPatchChunk::ApplyFreeSpace(x), 0) == b.subrange(s, s + 16),
{
    lemma_be64_bytes(b, s);
    lemma_be64_bytes(b, s + 8);
    lemma_signed64(be64(b, s));
    lemma_signed64(be64(b, s + 8));
    assert(encode_body(ZiPatchChunk::ApplyFreeSpace(x), 0) =~= b.subrange(s, s + 16));
}

proof fn lemma_rt_aply(x: ApplyOptionChunk, b: Seq<u8>, s: int)
    requires
        0 <= s,
        s + 12 <= b.len(),
        x.decoded_from(b, s),
        be32(b, s) == 1 || be32(b, s) == 2,
        be32(b, s + 8) <= 1,
    ensures
        ({
            let f = encode_body(ZiPatchChunk::ApplyOption(x), 0);
            &&& f.len() == 12
            &&& forall|j: int| (0 <= j < 4 || 8 <= j < 12) ==> f[j] == b[s + j]
        }),
{
    lemma_be32_bytes(b, s);
    lemma_be32_bytes(b, s + 8);
    let f = encode_body(ZiPatchChunk::ApplyOption(x), 0);
    assert(f.subrange(0, 4) =~= b.subrange(s, s + 4));
    assert(f.subrange(8, 12) =~= b.subrange(s + 8, s + 12));
    assert forall|j: int| (0 <= j < 4 || 8 <= j < 12) implies f[j] == b[s + j] by {
        if j < 4 {
            assert(f.subrange(0, 4)[j] == b.subrange(s, s + 4)[j]);
        } else {
            assert(f.subrange(8, 12)[j - 8] == b.subrange(s + 8, s + 12)[j - 8]);
        }
    }
}

proof fn lemma_signed32_injective(m: nat, n: nat)
    requires
        m < 0x1_0000_0000,
        n < 0x1_0000_0000,
        crate::util::binary_reader::signed32(m) == crate::util::binary_reader::signed32(n),
    ensures
        m == n,
{
}

/// Writing a decoded chunk's fields back gives its body: for a chunk that
/// reads without error and holds no text, its encoding fits in the body and
/// equals it at every place that is not padding.
pub proof fn law_round_trip(b: Seq<u8>, o: int, c: ZiPatchChunk)
    requires
        0 <= o,
        chunk_ok(b, o, b.len() as int),
        c.decoded_from(b, o),
        round_trips(c, b, o),
    ensures
        ({
            let enc = encode_body(c, chunk_size(b, o));
            &&& o + 8 + enc.len() <= body_end(b, o)
            &&& forall|i: int| 0 <= i < enc.len() && !is_padding(c, i) ==> enc[i] == b[o + 8 + i]
        }),
{
    reveal(chunk_ok);
    reveal(ZiPatchChunk::decoded_from);
    let s = o + 8;
    let e = body_end(b, o);
    let enc = encode_body(c, chunk_size(b, o));
    match c {
        ZiPatchChunk::ApplyFreeSpace(x) => {
            lemma_rt_apfs(x, b, s);
            assert forall|i: int| 0 <= i < enc.len() && !is_padding(c, i) implies enc[i] == b[s
                + i] by {
                assert(b.subrange(s, s + 16)[i] == b[s + i]);
            }
        },
        ZiPatchChunk::ApplyOption(x) => {
            lemma_rt_aply(x, b, s);
        },
        ZiPatchChunk::Sqpk(x) => {
            let q = s + 5;
            let size = chunk_size(b, o);
            lemma_be32_bytes(b, s);
            lemma_signed32_injective(be32(b, s), size);
            let head = be32_bytes(size) + seq![command_code_of(x)];
            assert(head.len() == 5);
            assert forall|i: int| 0 <= i < 5 implies head[i] == b[s + i] by {
                if i < 4 {
                    assert(b.subrange(s, s + 4)[i] == b[s + i]);
                }
            }
            let f = encode_command_fields(x);
            assert(enc =~= head + f);
            match x {
                SqpkCommand::AddData(y) => {
                    lemma_rt_block_write(
                        y.target_file,
                        y.block_offset,
                        y.block_number,
                        y.block_delete_number,
                        y.block_data@,
                        b,
                        q,
                    );
                },
                SqpkCommand::ExpandData(y) => {
                    lemma_rt_block_write(
                        y.target_file,
                        y.block_offset,
                        y.block_number,
                        y.block_delete_number,
                        y.block_data@,
                        b,
                        q,
                    );
                },
                SqpkCommand::DeleteData(y) => {
                    lemma_rt_delete(y, b, q);
                },
                SqpkCommand::Header(y) => {
                    lemma_rt_header(y, b, q);
                },
                SqpkCommand::PatchInfo(y) => {
                    lemma_rt_patch_info(y, b, q);
                },
                SqpkCommand::Index(y) => {
                    lemma_rt_index(y, b, q);
                },
                SqpkCommand::TargetInfo(y) => {
                    lemma_rt_target_info(y, b, q);
                },
                _ => {},
            }
            assert forall|i: int| 0 <= i < enc.len() && !is_padding(c, i) implies enc[i] == b[s
                + i] by {
                if i < 5 {
                    assert(enc[i] == head[i]);
                } else {
                    assert(enc[i] == f[i - 5]);
                }
            }
        },
        _ => {},
    }
}

/// A patch that adds a directory and then deletes the same directory
/// changes nothing else: its change set adds the directory, deletes it, and
/// modifies nothing, whatever the platform.
pub proof fn law_directory_add_remove(
    a: AddDirectoryChunk,
    d: DeleteDirectoryChunk,
    platform: Platform,
)
    requires
        a.dir_name@ == d.dir_name@,
    ensures
        ({
            let (added, deleted, modified) = changes_of(
                seq![ZiPatchChunk::AddDirectory(a), ZiPatchChunk::DeleteDirectory(d)],
                platform,
            );
            &&& added.difference(modified) == set![a.dir_name@]
            &&& deleted == set![a.dir_name@]
            &&& modified == Set::<Seq<char>>::empty()
        }),
{
    let both = seq![ZiPatchChunk::AddDirectory(a), ZiPatchChunk::DeleteDirectory(d)];
    let first = seq![ZiPatchChunk::AddDirectory(a)];
    assert(both.drop_last() =~= first);
    assert(first.drop_last() =~= Seq::<ZiPatchChunk>::empty());
    assert(first.last() == ZiPatchChunk::AddDirectory(a));
    assert(both.last() == ZiPatchChunk::DeleteDirectory(d));
    let e = changes_of(Seq::<ZiPatchChunk>::empty(), platform);
    assert(e.0 == Set::<Seq<char>>::empty() && e.1 == Set::<Seq<char>>::empty() && e.2 == Set::<
        Seq<char>,
    >::empty());
    assert(changes_of(first, platform) == (
        e.0 + set![a.dir_name@],
        e.1 + Set::<Seq<char>>::empty(),
        e.2 + Set::<Seq<char>>::empty(),
    ));
    let (a1, d1, m1) = changes_of(first, platform);
    assert(a1 =~= set![a.dir_name@]);
    assert(d1 =~= Set::<Seq<char>>::empty());
    assert(m1 =~= Set::<Seq<char>>::empty());
    let (added, deleted, modified) = changes_of(both, platform);
    assert(added =~= set![a.dir_name@]);
    assert(deleted =~= set![a.dir_name@]);
    assert(modified =~= Set::<Seq<char>>::empty());
    assert(added.difference(modified) =~= set![a.dir_name@]);
}

} // verus!
