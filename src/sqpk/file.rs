use vstd::prelude::*;

use crate::action::PatchAction;
use crate::config::ZiPatchConfig;
use crate::error::ZiPatchError;
use crate::util::binary_reader::{be16, be32, be64, signed64, trim_nul, utf8_lossy};
use crate::util::checksum_reader::ChecksumReader;
use crate::util::compressed_block::{
    block_fits, block_len_at, block_wire_len, SqpkCompressedBlock,
};
use crate::util::sqex_file::{expansion_folder, join, join_path, SqexFile};
use crate::util::digits::{decimal, push_decimal, push_signed, signed_decimal};

verus! {

/// What a file command does.
#[derive(Debug, Clone, Copy, PartialEq, Eq, Structural)]
pub enum OperationKind {
    /// Write a file from compressed blocks (`A`).
    AddFile,
    /// Remove the files of an expansion (`R`).
    RemoveAll,
    /// Remove one file (`D`).
    DeleteFile,
    /// Create a directory tree (`M`).
    MakeDirTree,
}

/// The operation coded by `v`.
pub open spec fn operation_of(v: u8) -> Option<OperationKind> {
    if v == 0x41 {
        Some(OperationKind::AddFile)
    } else if v == 0x52 {
        Some(OperationKind::RemoveAll)
    } else if v == 0x44 {
        Some(OperationKind::DeleteFile)
    } else if v == 0x4D {
        Some(OperationKind::MakeDirTree)
    } else {
        None
    }
}

impl OperationKind {
    /// The variant's name.
    pub open spec fn spec_label(self) -> Seq<char> {
        match self {
            OperationKind::AddFile => "AddFile"@,
            OperationKind::RemoveAll => "RemoveAll"@,
            OperationKind::DeleteFile => "DeleteFile"@,
            OperationKind::MakeDirTree => "MakeDirTree"@,
        }
    }

    /// The variant's name.
    pub fn label(self) -> (r: &'static str)
        ensures
            r@ == self.spec_label(),
    {
        match self {
            OperationKind::AddFile => "AddFile",
            OperationKind::RemoveAll => "RemoveAll",
            OperationKind::DeleteFile => "DeleteFile",
            OperationKind::MakeDirTree => "MakeDirTree",
        }
    }

    /// The operation coded by `value`: `A`, `R`, `D` or `M`.
    pub fn from_u8(value: u8) -> (r: Option<Self>)
        ensures
            r == operation_of(value),
    {
        match value {
            0x41 => Some(OperationKind::AddFile),
            0x52 => Some(OperationKind::RemoveAll),
            0x44 => Some(OperationKind::DeleteFile),
            0x4D => Some(OperationKind::MakeDirTree),
            _ => None,
        }
    }
}

/// What is left of the byte budget once a block of length `block_len` is
/// counted off.
pub open spec fn next_remaining(remaining: int, block_len: int) -> int {
    if block_len > 0 {
        if remaining > block_len {
            remaining - block_len
        } else {
            0
        }
    } else if block_len == 0 {
        remaining
    } else {
        0
    }
}

/// Where the `k`-th block starts, and the budget left before it, when
/// blocks are read from `b[q..]` with budget `remaining`.
pub open spec fn walk(b: Seq<u8>, q: int, remaining: int, k: nat) -> (int, int)
    decreases k,
{
    if k == 0 {
        (q, remaining)
    } else {
        let (q1, r1) = walk(b, q, remaining, (k - 1) as nat);
        (q1 + block_wire_len(b, q1), next_remaining(r1, block_len_at(b, q1)))
    }
}

/// Reading blocks from `b[q..]` with budget `remaining` reads exactly `n`
/// blocks, each within `limit`: blocks are read while budget is left.
pub open spec fn blocks_complete(b: Seq<u8>, q: int, limit: int, remaining: int, n: nat) -> bool {
    &&& forall|i: nat|
        #![trigger walk(b, q, remaining, i)]
        i < n ==> walk(b, q, remaining, i).1 > 0 && block_fits(b, walk(b, q, remaining, i).0, limit)
    &&& walk(b, q, remaining, n).1 <= 0
}

/// The budget of bytes left for the blocks of a file command of
/// `remaining` bytes whose fixed fields and path take `header`.
pub open spec fn block_budget(remaining: int, header: int) -> int {
    if remaining > header {
        remaining - header
    } else {
        0
    }
}

/// Whether the file command at `b[p..]` adds a file: so does an unknown
/// operation code.
pub open spec fn adds_file(b: Seq<u8>, p: int) -> bool {
    0 <= p < b.len() && (operation_of(b[p]) == Some(OperationKind::AddFile)
        || operation_of(b[p]) is None)
}

/// The bytes the fixed fields and the path of a file command at `b[p..]` take.
pub open spec fn file_header_len(b: Seq<u8>, p: int) -> int {
    27 + be32(b, p + 19) as int
}

/// `s` ends with `suffix`.
pub open spec fn ends_with(s: Seq<char>, suffix: Seq<char>) -> bool {
    s.len() >= suffix.len() && s.subrange(s.len() - suffix.len(), s.len() as int) == suffix
}

/// Whether remove-all removes a file of this name: all but `.var` files
/// and the movies `00000.bk2` to `00003.bk2`.
pub open spec fn removable(name: Seq<char>) -> bool {
    !(ends_with(name, ".var"@) || ends_with(name, "00000.bk2"@) || ends_with(name, "00001.bk2"@)
        || ends_with(name, "00002.bk2"@) || ends_with(name, "00003.bk2"@))
}

/// What the blocks of `s` expand to, one after another, if all expand.
pub open spec fn expand_all(s: Seq<SqpkCompressedBlock>) -> Option<Seq<u8>>
    decreases s.len(),
{
    if s.len() == 0 {
        Some(Seq::empty())
    } else {
        match (expand_all(s.drop_last()), s.last().expanded()) {
            (Some(a), Some(d)) => Some(a + d),
            _ => None,
        }
    }
}

proof fn lemma_expand_none(s: Seq<SqpkCompressedBlock>, j: int)
    requires
        0 <= j <= s.len(),
        expand_all(s.subrange(0, j)) is None,
    ensures
        expand_all(s) is None,
    decreases s.len() - j,
{
    if j == s.len() {
        assert(s.subrange(0, j) =~= s);
    } else {
        assert(s.subrange(0, j + 1).drop_last() =~= s.subrange(0, j));
        lemma_expand_none(s, j + 1);
    }
}

fn str_ends_with(s: &str, suffix: &str) -> (r: bool)
    ensures
        r == ends_with(s@, suffix@),
{
    let n = s.unicode_len();
    let m = suffix.unicode_len();
    if m > n {
        return false;
    }
    let mut i: usize = 0;
    while i < m
        invariant
            m <= n,
            n == s@.len(),
            m == suffix@.len(),
            i <= m,
            forall|j: int| 0 <= j < i ==> s@[n - m + j] == suffix@[j],
        decreases m - i,
    {
        if s.get_char(n - m + i) != suffix.get_char(i) {
            assert(s@.subrange(n - m, n as int)[i as int] != suffix@[i as int]);
            return false;
        }
        i = i + 1;
    }
    assert(s@.subrange(n - m, n as int) =~= suffix@);
    true
}

/// The SQPK file command (`F`): adds, removes or makes files and folders.
#[derive(Debug, Clone, PartialEq, Eq)]
pub struct SqpkFile {
    /// What to do (an unknown code reads as add-file).
    pub operation: OperationKind,
    /// Where in the file the added data goes.
    pub file_offset: i64,
    /// Size of the file.
    pub file_size: i64,
    /// The expansion whose files remove-all removes.
    pub expansion_id: u16,
    /// The file or folder, below the installation directory.
    pub target_file: SqexFile,
    /// The data of an added file, in order (add-file only).
    pub compressed_data: Vec<SqpkCompressedBlock>,
}

impl SqpkFile {
    /// `self` holds the fixed fields and the path at `b[p..]`: operation, two
    /// alignment bytes, file offset and size (`i64` BE), path length (`u32`
    /// BE), expansion id (`u16` BE), two padding bytes, the path.
    pub open spec fn header_decoded_from(&self, b: Seq<u8>, p: int) -> bool {
        &&& self.operation == match operation_of(b[p]) {
            Some(k) => k,
            None => OperationKind::AddFile,
        }
        &&& self.file_offset == signed64(be64(b, p + 3))
        &&& self.file_size == signed64(be64(b, p + 11))
        &&& self.expansion_id == be16(b, p + 23)
        &&& self.target_file.relative_path@ == utf8_lossy(
            trim_nul(b.subrange(p + 27, p + file_header_len(b, p))),
        )
    }

    /// A file command can be read at `b[p..]` within `limit`, given a budget
    /// of `remaining_size` bytes.
    pub open spec fn fits(b: Seq<u8>, p: int, limit: int, remaining_size: int) -> bool {
        let q = p + file_header_len(b, p);
        &&& p + 27 <= limit
        &&& q <= limit
        &&& adds_file(b, p) ==> exists|n: nat|
            blocks_complete(b, q, limit, block_budget(remaining_size, file_header_len(b, p)), n)
    }

    /// `self` holds the file command at `b[p..]`, read within `limit` with a
    /// budget of `remaining_size` bytes: its fixed fields, its path, and the
    /// blocks that follow while budget is left.
    pub open spec fn decoded_from(&self, b: Seq<u8>, p: int, limit: int,
        remaining_size: int) -> bool {
        let q = p + file_header_len(b, p);
        let budget = block_budget(remaining_size, file_header_len(b, p));
        &&& self.header_decoded_from(b, p)
        &&& adds_file(b, p) ==> {
            &&& blocks_complete(b, q, limit, budget, self.compressed_data@.len())
            &&& forall|i: int|
                0 <= i < self.compressed_data@.len()
                    ==> #[trigger] self.compressed_data@[i].decoded_from(
                    b,
                    walk(b, q, budget, i as nat).0,
                )
        }
        &&& !adds_file(b, p) ==> self.compressed_data@.len() == 0
    }

    /// Where reading the file command at `b[p..]` stops.
    pub open spec fn end(&self, b: Seq<u8>, p: int, remaining_size: int) -> int {
        let q = p + file_header_len(b, p);
        if adds_file(b, p) {
            walk(b, q, block_budget(remaining_size, file_header_len(b, p)),
                self.compressed_data@.len()).0
        } else {
            q
        }
    }

    /// `SQPK:F:{operation}:{offset}:{size}:{expansion}:{path}`.
    pub open spec fn display(&self) -> Seq<char> {
        "SQPK:F:"@ + self.operation.spec_label() + ":"@ + signed_decimal(self.file_offset as int)
            + ":"@ + signed_decimal(self.file_size as int) + ":"@
            + decimal(self.expansion_id as nat) + ":"@ + self.target_file.relative_path@
    }

    /// `SQPK:F:{operation}:{offset}:{size}:{expansion}:{path}`.
    pub fn to_display_string(&self) -> (r: String)
        ensures
            r@ == self.display(),
    {
        let mut s = String::new();
        s.append("SQPK:F:");
        s.append(self.operation.label());
        s.append(":");
        push_signed(&mut s, self.file_offset as i64);
        s.append(":");
        push_signed(&mut s, self.file_size as i64);
        s.append(":");
        push_decimal(&mut s, self.expansion_id as u64);
        s.append(":");
        s.append(self.target_file.relative_path.as_str());
        assert(s@ =~= self.display());
        s
    }

    /// Decodes the command. Of an add-file command the blocks follow the
    /// path, and are read while the budget `remaining_size` (less the bytes
    /// of the fixed fields and path) is not used up, each block counting its
    /// padded length.
    pub fn read(reader: &mut ChecksumReader, remaining_size: u64) -> (r: Result<
        Self,
        ZiPatchError,
    >)
        requires
            old(reader).wf(),
        ensures
            final(reader).wf(),
            final(reader).bytes() == old(reader).bytes(),
            final(reader).limit() == old(reader).limit(),
            final(reader).crc_start() == old(reader).crc_start(),
            ({
                let b = old(reader).bytes();
                let p = old(reader).pos() as int;
                let l = old(reader).limit() as int;
                &&& r is Ok <==> SqpkFile::fits(b, p, l, remaining_size as int)
                &&& r is Ok ==> r->Ok_0.decoded_from(b, p, l, remaining_size as int)
                    && final(reader).pos() == r->Ok_0.end(b, p, remaining_size as int)
                &&& r is Err ==> r->Err_0 is UnexpectedEof
            }),
    {
        let ghost b = reader.bytes();
        let ghost p = reader.pos() as int;
        let ghost l = reader.limit() as int;
        if reader.read_limit() - reader.position() < 27 {
            return Err(ZiPatchError::UnexpectedEof(reader.position() as u64));
        }
        let operation_byte = reader.read_u8()?;
        let operation = match OperationKind::from_u8(operation_byte) {
            Some(k) => k,
            None => OperationKind::AddFile,
        };
        let _alignment = reader.read_bytes_required(2)?;
        let file_offset = reader.read_i64_be()?;
        let file_size = reader.read_i64_be()?;
        let path_len = reader.read_u32_be()?;
        let expansion_id = reader.read_u16_be()?;
        let _padding = reader.read_bytes_required(2)?;
        let target_file = SqexFile::new(reader.read_fixed_string(path_len as usize)?);
        let header_bytes: u64 = 27 + path_len as u64;
        let mut bytes_remaining = remaining_size.saturating_sub(header_bytes);
        let mut compressed_data: Vec<SqpkCompressedBlock> = Vec::new();
        let ghost q = reader.pos() as int;
        let ghost budget = bytes_remaining as int;
        if operation == OperationKind::AddFile {
            while bytes_remaining > 0
                invariant
                    b == old(reader).bytes(),
                    l == old(reader).limit(),
                    p == old(reader).pos(),
                    q == p + file_header_len(b, p),
                    budget == block_budget(remaining_size as int, file_header_len(b, p)),
                    adds_file(b, p),
                    reader.wf(),
                    reader.bytes() == b,
                    reader.limit() == l,
                    reader.crc_start() == old(reader).crc_start(),
                    walk(b, q, budget, compressed_data@.len()) == (
                        reader.pos() as int,
                        bytes_remaining as int,
                    ),
                    forall|i: nat|
                        #![trigger walk(b, q, budget, i)]
                        i < compressed_data@.len() ==> walk(b, q, budget, i).1 > 0
                            && block_fits(b, walk(b, q, budget, i).0, l),
                    forall|i: int|
                        0 <= i < compressed_data@.len()
                            ==> #[trigger] compressed_data@[i].decoded_from(
                            b,
                            walk(b, q, budget, i as nat).0,
                        ),
                decreases l - reader.pos(),
            {
                let ghost k = compressed_data@.len();
                let ghost before = compressed_data@;
                let block = match SqpkCompressedBlock::read_from(reader) {
                    Ok(block) => block,
                    Err(e) => {
                        proof {
                            assert forall|n: nat| !blocks_complete(b, q, l, budget, n) by {
                                if n <= k {
                                    if n < k {
                                        assert(walk(b, q, budget, n).1 > 0);
                                    }
                                } else {
                                    assert(walk(b, q, budget, k).1 > 0);
                                }
                            }
                        }
                        return Err(e);
                    },
                };
                let block_len = block.compressed_block_length();
                bytes_remaining = if block_len > 0 {
                    bytes_remaining.saturating_sub(block_len as u64)
                } else if block_len == 0 {
                    bytes_remaining
                } else {
                    0
                };
                compressed_data.push(block);
                proof {
                    assert(walk(b, q, budget, (k + 1) as nat) == walk(b, q, budget, k + 1));
                    assert forall|i: nat|
                        #![trigger walk(b, q, budget, i)]
                        i < compressed_data@.len() implies walk(b, q, budget, i).1 > 0
                            && block_fits(b, walk(b, q, budget, i).0, l) by {
                        if i == k {
                        } else {
                            assert(i < k);
                        }
                    }
                    assert forall|i: int| 0 <= i < compressed_data@.len()
                        implies #[trigger] compressed_data@[i].decoded_from(b, walk(b, q, budget,
                            i as nat).0) by {
                        if i < k {
                            assert(compressed_data@[i] == before[i]);
                        }
                    }
                }
            }
            assert(blocks_complete(b, q, l, budget, compressed_data@.len()));
            assert forall|i: int| 0 <= i < compressed_data@.len()
                implies #[trigger] compressed_data@[i].decoded_from(b, walk(b, q, budget,
                    i as nat).0) by {}
        }
        Ok(SqpkFile { operation, file_offset, file_size, expansion_id, target_file,
            compressed_data })
    }

    /// What applying the command under `game_path` yields. Add-file: create
    /// the parent folders, cut the file to nothing when the data starts at
    /// offset 0, then write all the blocks expanded from the file offset;
    /// this fails when a block does not inflate. Remove-all: remove the
    /// files of the expansion's `sqpack` and `movie` folders that may go.
    /// Delete-file: remove the file. Make-dir-tree: create the folder.
    pub open spec fn work(
        &self,
        game_path: Seq<char>,
        r: Result<Vec<PatchAction>, ZiPatchError>,
    ) -> bool {
        let path = join_path(game_path, self.target_file.relative_path@);
        let acts = r->Ok_0@;
        match self.operation {
            OperationKind::AddFile => {
                let data = expand_all(self.compressed_data@);
                &&& r is Ok <==> data is Some
                &&& r is Err ==> r->Err_0 is DecompressionFailed
                &&& r is Ok ==> {
                    &&& acts.len() == if self.file_offset == 0 {
                        3int
                    } else {
                        2int
                    }
                    &&& acts[0] is CreateParentDirs && acts[0]->CreateParentDirs_path@
                        == path
                    &&& self.file_offset == 0 ==> acts[1] is Truncate
                        && acts[1]->Truncate_path@ == path
                    &&& acts.last().is_write(
                        path,
                        (self.file_offset as u64) as int,
                        data->0,
                    )
                }
            },
            OperationKind::RemoveAll => {
                let folder = expansion_folder((self.expansion_id as u8) as nat);
                &&& r is Ok
                &&& acts.len() == 1
                &&& acts[0] is RemoveExpansionFiles
                &&& acts[0]->RemoveExpansionFiles_sqpack_dir@ == join_path(
                    game_path,
                    "sqpack/"@ + folder,
                )
                &&& acts[0]->RemoveExpansionFiles_movie_dir@ == join_path(
                    game_path,
                    "movie/"@ + folder,
                )
            },
            OperationKind::DeleteFile => {
                &&& r is Ok
                &&& acts.len() == 1
                &&& acts[0] is RemoveFile && acts[0]->RemoveFile_path@ == path
            },
            OperationKind::MakeDirTree => {
                &&& r is Ok
                &&& acts.len() == 1
                &&& acts[0].is_create_dir(path)
            },
        }
    }

    /// The work of the command. Add-file: create the parent folders, cut
    /// the file to nothing when the data starts at offset 0, then write all
    /// the blocks expanded, one after another, from the file offset; this
    /// fails when a block does not inflate. Remove-all: remove the files of
    /// the expansion's `sqpack` and `movie` folders that may go. Delete-file:
    /// remove the file. Make-dir-tree: create the folder.
    pub fn apply(&self, config: &mut ZiPatchConfig) -> (r: Result<
        Vec<PatchAction>,
        ZiPatchError,
    >)
        ensures
            *final(config) == *old(config),
            self.work(old(config).game_path@, r),
    {
        let path = self.target_file.resolve_full_path(config.game_path.as_str());
        let mut actions = Vec::new();
        match self.operation {
            OperationKind::AddFile => {
                let data = self.expand_blocks()?;
                actions.push(PatchAction::CreateParentDirs { path: path.clone() });
                if self.file_offset == 0 {
                    actions.push(PatchAction::Truncate { path: path.clone() });
                }
                actions.push(PatchAction::WriteAt { path, offset: self.file_offset as u64, data });
            },
            OperationKind::RemoveAll => {
                let folder = SqexFile::get_expansion_folder(self.expansion_id as u8);
                let mut sqpack = String::from_str("sqpack/");
                sqpack.append(folder.as_str());
                let mut movie = String::from_str("movie/");
                movie.append(folder.as_str());
                actions.push(
                    PatchAction::RemoveExpansionFiles {
                        sqpack_dir: join(config.game_path.as_str(), sqpack.as_str()),
                        movie_dir: join(config.game_path.as_str(), movie.as_str()),
                    },
                );
            },
            OperationKind::DeleteFile => {
                actions.push(PatchAction::RemoveFile { path });
            },
            OperationKind::MakeDirTree => {
                actions.push(PatchAction::CreateDirAll { path });
            },
        }
        Ok(actions)
    }

    /// All the blocks expanded, one after another.
    pub fn expand_blocks(&self) -> (r: Result<Vec<u8>, ZiPatchError>)
        ensures
            r is Ok <==> expand_all(self.compressed_data@) is Some,
            r is Ok ==> r->Ok_0@ == expand_all(self.compressed_data@)->0,
            r is Err ==> r->Err_0 is DecompressionFailed,
    {
        let ghost s = self.compressed_data@;
        let mut data: Vec<u8> = Vec::new();
        let mut i: usize = 0;
        assert(s.subrange(0, 0) =~= Seq::<SqpkCompressedBlock>::empty());
        while i < self.compressed_data.len()
            invariant
                s == self.compressed_data@,
                i <= s.len(),
                expand_all(s.subrange(0, i as int)) == Some(data@),
            decreases s.len() - i,
        {
            assert(s.subrange(0, i + 1).drop_last() =~= s.subrange(0, i as int));
            assert(s.subrange(0, i + 1).last() == s[i as int]);
            let mut d = match self.compressed_data[i].decompress() {
                Ok(d) => d,
                Err(e) => {
                    proof {
                        lemma_expand_none(s, i + 1);
                    }
                    return Err(e);
                },
            };
            data.append(&mut d);
            i = i + 1;
        }
        assert(s.subrange(0, i as int) =~= s);
        Ok(data)
    }

    /// Whether remove-all removes the file at `file_path`: all but `.var`
    /// files and the movies `00000.bk2` to `00003.bk2`.
    pub fn remove_all_filter(file_path: &str) -> (r: bool)
        ensures
            r == removable(file_path@),
    {
        !(str_ends_with(file_path, ".var") || str_ends_with(file_path, "00000.bk2")
            || str_ends_with(file_path, "00001.bk2") || str_ends_with(file_path, "00002.bk2")
            || str_ends_with(file_path, "00003.bk2"))
    }
}

} // verus!
