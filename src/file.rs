//! A whole patch: the signature check, the file header, and passes over the
//! chunks that inspect the patch without applying it.
use vstd::prelude::*;

use crate::chunk::file_header::FileHeaderChunk;
use crate::chunk::{chunk_end, chunk_ok, chunk_tag, ZiPatchChunk, TAG_EOF, TAG_FHDR};
use crate::config::ZiPatchConfig;
use crate::error::ZiPatchError;
use crate::inspection::change_set::{changes_of, ZiPatchChangeSet};
use crate::inspection::command_counts::ZiPatchCommandCounts;
use crate::sqpk::SqpkCommand;
use crate::util::binary_reader::le32;
use crate::util::checksum_reader::ChecksumReader;

verus! {

/// The three little-endian words a patch starts with.
pub const ZIPATCH_MAGIC: [u32; 3] = [0x50495A91, 0x48435441, 0x0A1A0A0D];

/// Where the chunks start: right after the signature.
pub const HEAD_POSITION: usize = 12;

/// `b` starts with the ZiPatch signature.
pub open spec fn magic_ok(b: Seq<u8>) -> bool {
    &&& b.len() >= 12
    &&& le32(b, 0) == 0x50495A91
    &&& le32(b, 4) == 0x48435441
    &&& le32(b, 8) == 0x0A1A0A0D
}

/// Where the `k`-th chunk starts when chunks follow each other from `o`.
pub open spec fn chunk_offset(b: Seq<u8>, o: int, k: nat) -> int
    decreases k,
{
    if k == 0 {
        o
    } else {
        chunk_end(b, chunk_offset(b, o, (k - 1) as nat))
    }
}

/// From `o`, `n` chunks other than the end-of-file chunk read without error.
pub open spec fn before_eof(b: Seq<u8>, o: int, n: nat) -> bool {
    forall|i: nat|
        #![trigger chunk_offset(b, o, i)]
        i < n ==> {
            &&& chunk_ok(b, chunk_offset(b, o, i), b.len() as int)
            &&& chunk_tag(b, chunk_offset(b, o, i)) != TAG_EOF
        }
}

/// From `o`, `n` chunks other than the end-of-file chunk read without
/// error, and then the end-of-file chunk does.
pub open spec fn reads_to_eof(b: Seq<u8>, o: int, n: nat) -> bool {
    &&& before_eof(b, o, n)
    &&& chunk_ok(b, chunk_offset(b, o, n), b.len() as int)
    &&& chunk_tag(b, chunk_offset(b, o, n)) == TAG_EOF
}

/// Once chunk `k` fails to read, the end of the file is not reached.
proof fn lemma_eof_stuck(b: Seq<u8>, o: int, k: nat)
    requires
        before_eof(b, o, k),
        !chunk_ok(b, chunk_offset(b, o, k), b.len() as int),
    ensures
        forall|n: nat| !#[trigger] reads_to_eof(b, o, n),
{
    assert forall|n: nat| !#[trigger] reads_to_eof(b, o, n) by {
        if reads_to_eof(b, o, n) {
            if n > k {
                assert(chunk_ok(b, chunk_offset(b, o, k), b.len() as int));
            }
        }
    }
}

/// The end-of-file chunk is reached at most once.
proof fn lemma_eof_unique(b: Seq<u8>, o: int, n: nat)
    requires
        reads_to_eof(b, o, n),
    ensures
        forall|m: nat| #[trigger] reads_to_eof(b, o, m) ==> m == n,
{
    assert forall|m: nat| #[trigger] reads_to_eof(b, o, m) implies m == n by {
        if m < n {
            assert(chunk_tag(b, chunk_offset(b, o, m)) != TAG_EOF);
        } else if m > n {
            assert(chunk_tag(b, chunk_offset(b, o, n)) != TAG_EOF);
        }
    }
}

/// From `o`, `k` chunks that are neither the file header nor the end of the
/// file read without error.
pub open spec fn skips(b: Seq<u8>, o: int, k: nat) -> bool {
    forall|i: nat|
        #![trigger chunk_offset(b, o, i)]
        i < k ==> {
            &&& chunk_ok(b, chunk_offset(b, o, i), b.len() as int)
            &&& chunk_tag(b, chunk_offset(b, o, i)) != TAG_FHDR
            &&& chunk_tag(b, chunk_offset(b, o, i)) != TAG_EOF
        }
}

/// From `o`, `k` chunks that are neither the file header nor the end of the
/// file read without error, and then the chunk with tag `tag` does.
pub open spec fn reads_to_tag(b: Seq<u8>, o: int, k: nat, tag: nat) -> bool {
    &&& skips(b, o, k)
    &&& chunk_ok(b, chunk_offset(b, o, k), b.len() as int)
    &&& chunk_tag(b, chunk_offset(b, o, k)) == tag
}

/// Once chunk `k` fails to read, neither a file header nor the end of the
/// file is reached.
proof fn lemma_stuck(b: Seq<u8>, o: int, k: nat)
    requires
        skips(b, o, k),
        !chunk_ok(b, chunk_offset(b, o, k), b.len() as int),
    ensures
        forall|j: nat| !#[trigger] reads_to_tag(b, o, j, TAG_FHDR as nat),
        forall|j: nat| !#[trigger] reads_to_tag(b, o, j, TAG_EOF as nat),
{
    assert forall|j: nat| !#[trigger] reads_to_tag(b, o, j, TAG_FHDR as nat) by {
        if reads_to_tag(b, o, j, TAG_FHDR as nat) {
            if j > k {
                assert(chunk_ok(b, chunk_offset(b, o, k), b.len() as int));
            } else if j < k {
                assert(chunk_tag(b, chunk_offset(b, o, j)) != TAG_FHDR);
            }
        }
    }
    assert forall|j: nat| !#[trigger] reads_to_tag(b, o, j, TAG_EOF as nat) by {
        if reads_to_tag(b, o, j, TAG_EOF as nat) {
            if j > k {
                assert(chunk_ok(b, chunk_offset(b, o, k), b.len() as int));
            } else if j < k {
                assert(chunk_tag(b, chunk_offset(b, o, j)) != TAG_EOF);
            }
        }
    }
}

/// The first chunk that is a file header or the end of the file decides:
/// chunk `k`, of tag `t`, is the only one of the two reached.
proof fn lemma_first(b: Seq<u8>, o: int, k: nat, t: nat)
    requires
        reads_to_tag(b, o, k, t),
        t == TAG_FHDR || t == TAG_EOF,
    ensures
        forall|j: nat| #[trigger] reads_to_tag(b, o, j, TAG_FHDR as nat) ==> j == k
            && t == TAG_FHDR,
        forall|j: nat| #[trigger] reads_to_tag(b, o, j, TAG_EOF as nat) ==> j == k && t == TAG_EOF,
{
    assert forall|j: nat| #[trigger] reads_to_tag(b, o, j, TAG_FHDR as nat) implies j == k
        && t == TAG_FHDR by {
        if j < k {
            assert(chunk_tag(b, chunk_offset(b, o, j)) != TAG_FHDR);
        } else if j > k {
            assert(chunk_tag(b, chunk_offset(b, o, k)) != TAG_FHDR);
            assert(chunk_tag(b, chunk_offset(b, o, k)) != TAG_EOF);
        }
    }
    assert forall|j: nat| #[trigger] reads_to_tag(b, o, j, TAG_EOF as nat) implies j == k
        && t == TAG_EOF by {
        if j < k {
            assert(chunk_tag(b, chunk_offset(b, o, j)) != TAG_EOF);
        } else if j > k {
            assert(chunk_tag(b, chunk_offset(b, o, k)) != TAG_FHDR);
            assert(chunk_tag(b, chunk_offset(b, o, k)) != TAG_EOF);
        }
    }
}

/// `chunks` are the chunks read from `o` on, one after another.
pub open spec fn chunks_at(b: Seq<u8>, o: int, chunks: Seq<ZiPatchChunk>) -> bool {
    forall|i: int| 0 <= i < chunks.len() ==> #[trigger] chunks[i].decoded_from(b, chunk_offset(b,
        o, i as nat))
}

/// A number for each kind of chunk the counts tell apart.
pub open spec fn count_class(c: ZiPatchChunk) -> int {
    match c {
        ZiPatchChunk::AddDirectory(_) => 0,
        ZiPatchChunk::DeleteDirectory(_) => 1,
        ZiPatchChunk::Sqpk(SqpkCommand::AddData(_)) => 2,
        ZiPatchChunk::Sqpk(SqpkCommand::DeleteData(_)) => 3,
        ZiPatchChunk::Sqpk(SqpkCommand::ExpandData(_)) => 4,
        ZiPatchChunk::Sqpk(SqpkCommand::Header(_)) => 5,
        ZiPatchChunk::Sqpk(SqpkCommand::File(_)) => 6,
        ZiPatchChunk::FileHeader(_) => 8,
        _ => 7,
    }
}

/// How many of `chunks` are of class `k`.
pub open spec fn count_of(chunks: Seq<ZiPatchChunk>, k: int) -> nat
    decreases chunks.len(),
{
    if chunks.len() == 0 {
        0
    } else {
        count_of(chunks.drop_last(), k) + if count_class(chunks.last()) == k {
            1nat
        } else {
            0nat
        }
    }
}

/// The counts of `chunks`, each taken modulo 2^32. The file header is no
/// command and is not counted.
pub open spec fn counts_of(chunks: Seq<ZiPatchChunk>) -> ZiPatchCommandCounts {
    ZiPatchCommandCounts::spec_with_counts(
        count_of(chunks, 0) as u32,
        count_of(chunks, 1) as u32,
        (chunks.len() - count_of(chunks, 8)) as u32,
        count_of(chunks, 2) as u32,
        count_of(chunks, 3) as u32,
        count_of(chunks, 4) as u32,
        count_of(chunks, 5) as u32,
        count_of(chunks, 6) as u32,
    )
}

/// One more chunk read without error, not the end of the file, extends a
/// run of such chunks.
proof fn lemma_one_more(b: Seq<u8>, prev: Seq<ZiPatchChunk>, c: ZiPatchChunk)
    requires
        chunks_at(b, 12, prev),
        before_eof(b, 12, prev.len()),
        c.decoded_from(b, chunk_offset(b, 12, prev.len())),
        chunk_ok(b, chunk_offset(b, 12, prev.len()), b.len() as int),
        chunk_tag(b, chunk_offset(b, 12, prev.len())) != TAG_EOF,
    ensures
        chunks_at(b, 12, prev.push(c)),
        before_eof(b, 12, prev.len() + 1),
{
    let seen = prev.push(c);
    assert forall|i: int| 0 <= i < seen.len() implies #[trigger] seen[i].decoded_from(
        b,
        chunk_offset(b, 12, i as nat),
    ) by {
        if i < prev.len() {
            assert(seen[i] == prev[i]);
        }
    }
    assert forall|i: nat|
        #![trigger chunk_offset(b, 12, i)]
        i < seen.len() implies {
            &&& chunk_ok(b, chunk_offset(b, 12, i), b.len() as int)
            &&& chunk_tag(b, chunk_offset(b, 12, i)) != TAG_EOF
        } by {
        if i < prev.len() {
        }
    }
}

proof fn lemma_count_bound(chunks: Seq<ZiPatchChunk>, k: int)
    ensures
        count_of(chunks, k) <= chunks.len(),
    decreases chunks.len(),
{
    if chunks.len() > 0 {
        lemma_count_bound(chunks.drop_last(), k);
    }
}

/// A patch held in memory, with its file header.
#[derive(Debug)]
pub struct ZiPatchFile {
    reader: ChecksumReader,
    head_position: usize,
    header: FileHeaderChunk,
}

/// Walks the chunks of a patch from its first one to its end-of-file chunk.
#[derive(Debug)]
pub struct ChunkIterator {
    position: usize,
    done: bool,
}

/// Reads chunks from the reader's position (12) until the file header, and
/// gives it back; the end-of-file chunk coming first is an error.
fn find_header(reader: &mut ChecksumReader) -> (r: Result<FileHeaderChunk, ZiPatchError>)
    requires
        old(reader).wf(),
        old(reader).pos() == 12,
        old(reader).limit() == old(reader).bytes().len(),
    ensures
        final(reader).wf(),
        final(reader).bytes() == old(reader).bytes(),
        final(reader).limit() == old(reader).limit(),
        ({
            let b = old(reader).bytes();
            &&& r is Ok <==> exists|k: nat| reads_to_tag(b, 12, k, TAG_FHDR as nat)
            &&& r is Ok ==> exists|k: nat|
                reads_to_tag(b, 12, k, TAG_FHDR as nat) && #[trigger] ZiPatchChunk::FileHeader(
                    r->Ok_0,
                ).decoded_from(b, chunk_offset(b, 12, k))
            &&& (exists|k: nat| reads_to_tag(b, 12, k, TAG_EOF as nat)) ==> r is Err
                && r->Err_0 is Custom
        }),
{
    let ghost b = reader.bytes();
    let ghost mut k: nat = 0;
    loop
        invariant
            b == old(reader).bytes(),
            b.len() == old(reader).limit(),
            reader.wf(),
            reader.bytes() == b,
            reader.limit() == b.len(),
            reader.pos() == chunk_offset(b, 12, k),
            skips(b, 12, k),
        decreases b.len() - reader.pos(),
    {
        let chunk = match ZiPatchChunk::read_next(reader) {
            Ok(c) => c,
            Err(e) => {
                proof {
                    lemma_stuck(b, 12, k);
                }
                return Err(e);
            },
        };
        if let ZiPatchChunk::FileHeader(header) = chunk {
            proof {
                assert(reads_to_tag(b, 12, k, TAG_FHDR as nat));
                lemma_first(b, 12, k, TAG_FHDR as nat);
            }
            return Ok(header);
        }
        if chunk.is_eof() {
            proof {
                assert(reads_to_tag(b, 12, k, TAG_EOF as nat));
                lemma_first(b, 12, k, TAG_EOF as nat);
            }
            return Err(ZiPatchError::Custom(String::from_str("Could not find FHDR chunk")));
        }
        proof {
            assert(skips(b, 12, k + 1)) by {
                assert forall|i: nat|
                    #![trigger chunk_offset(b, 12, i)]
                    i < k + 1 implies {
                        &&& chunk_ok(b, chunk_offset(b, 12, i), b.len() as int)
                        &&& chunk_tag(b, chunk_offset(b, 12, i)) != TAG_FHDR
                        &&& chunk_tag(b, chunk_offset(b, 12, i)) != TAG_EOF
                    } by {
                    if i < k {
                    }
                }
            }
            k = k + 1;
        }
    }
}

impl ZiPatchFile {
    /// The bytes of the patch.
    pub closed spec fn bytes(&self) -> Seq<u8> {
        self.reader.bytes()
    }

    /// The file header.
    pub closed spec fn spec_header(&self) -> FileHeaderChunk {
        self.header
    }

    pub closed spec fn wf(&self) -> bool {
        &&& self.reader.wf()
        &&& self.reader.limit() == self.reader.bytes().len()
        &&& self.head_position == HEAD_POSITION
        &&& self.reader.bytes().len() >= HEAD_POSITION
    }

    /// Opens the patch held by `data`: checks the signature, then reads
    /// chunks until the file header, which it keeps. It fails when the
    /// signature is wrong, when a chunk before the header does not read, and
    /// when the end-of-file chunk comes first.
    pub fn new(data: Vec<u8>) -> (r: Result<Self, ZiPatchError>)
        ensures
            r is Ok <==> magic_ok(data@) && exists|k: nat| reads_to_tag(data@, 12, k,
                TAG_FHDR as nat),
            r is Ok ==> r->Ok_0.wf() && r->Ok_0.bytes() == data@ && exists|k: nat|
                reads_to_tag(data@, 12, k, TAG_FHDR as nat) && #[trigger] ZiPatchChunk::FileHeader(
                    r->Ok_0.spec_header(),
                ).decoded_from(data@, chunk_offset(data@, 12, k)),
            data@.len() < 12 ==> r == Err::<Self, ZiPatchError>(ZiPatchError::UnexpectedEof(0)),
            data@.len() >= 12 && !magic_ok(data@) ==> r == Err::<Self, ZiPatchError>(
                ZiPatchError::InvalidMagic(
                    [le32(data@, 0) as u32, le32(data@, 4) as u32, le32(data@, 8) as u32],
                ),
            ),
            magic_ok(data@) && (exists|k: nat| reads_to_tag(data@, 12, k, TAG_EOF as nat)) ==> r
                is Err && r->Err_0 is Custom,
    {
        let ghost b = data@;
        let mut reader = ChecksumReader::new(data);
        if reader.read_limit() < HEAD_POSITION {
            return Err(ZiPatchError::UnexpectedEof(0));
        }
        let m0 = reader.read_u32_le()?;
        let m1 = reader.read_u32_le()?;
        let m2 = reader.read_u32_le()?;
        if !(m0 == ZIPATCH_MAGIC[0] && m1 == ZIPATCH_MAGIC[1] && m2 == ZIPATCH_MAGIC[2]) {
            return Err(ZiPatchError::InvalidMagic([m0, m1, m2]));
        }
        let header = find_header(&mut reader)?;
        reader.seek(HEAD_POSITION).unwrap();
        Ok(ZiPatchFile { reader, head_position: HEAD_POSITION, header })
    }

    /// Works out, without touching the disk, which paths the patch adds,
    /// deletes and modifies, with pack files named for the configured
    /// platform. A path both added and modified counts as modified. It fails
    /// when a chunk before the end-of-file chunk does not read.
    pub fn calculate_changed_files(&mut self, config: &ZiPatchConfig) -> (r: Result<
        ZiPatchChangeSet,
        ZiPatchError,
    >)
        requires
            old(self).wf(),
        ensures
            final(self).wf(),
            final(self).bytes() == old(self).bytes(),
            final(self).spec_header() == old(self).spec_header(),
            r is Ok <==> exists|n: nat| reads_to_eof(old(self).bytes(), 12, n),
            r is Ok ==> r->Ok_0.wf() && exists|chunks: Seq<ZiPatchChunk>|
                #![trigger changes_of(chunks, config.platform)]
                {
                    let (a, d, m) = changes_of(chunks, config.platform);
                    &&& reads_to_eof(old(self).bytes(), 12, chunks.len())
                    &&& chunks_at(old(self).bytes(), 12, chunks)
                    &&& r->Ok_0.added_set() == a.difference(m)
                    &&& r->Ok_0.deleted_set() == d
                    &&& r->Ok_0.modified_set() == m
                },
    {
        let ghost b = self.bytes();
        self.reader.seek(self.head_position).unwrap();
        let mut changes = ZiPatchChangeSet::new();
        let ghost mut seen: Seq<ZiPatchChunk> = Seq::empty();
        proof {
            assert(changes.added_set() =~= Set::empty());
            assert(changes.deleted_set() =~= Set::empty());
            assert(changes.modified_set() =~= Set::empty());
        }
        loop
            invariant_except_break
                self.reader.pos() == chunk_offset(b, 12, seen.len()),
            invariant
                b == old(self).bytes(),
                self.wf(),
                self.bytes() == b,
                self.header == old(self).header,
                before_eof(b, 12, seen.len()),
                chunks_at(b, 12, seen),
                changes.wf(),
                changes.added_set() == changes_of(seen, config.platform).0,
                changes.deleted_set() == changes_of(seen, config.platform).1,
                changes.modified_set() == changes_of(seen, config.platform).2,
            ensures
                reads_to_eof(b, 12, seen.len()),
            decreases b.len() - self.reader.pos(),
        {
            let chunk = match ZiPatchChunk::read_next(&mut self.reader) {
                Ok(c) => c,
                Err(e) => {
                    proof {
                        lemma_eof_stuck(b, 12, seen.len());
                    }
                    return Err(e);
                },
            };
            if chunk.is_eof() {
                proof {
                    assert(reads_to_eof(b, 12, seen.len()));
                    lemma_eof_unique(b, 12, seen.len());
                }
                break;
            }
            changes.record_chunk(&chunk, config.platform);
            proof {
                let ghost prev = seen;
                seen = seen.push(chunk);
                assert(seen.drop_last() =~= prev);
                lemma_one_more(b, prev, chunk);
            }
        }
        changes.finish();
        Ok(changes)
    }

    /// Counts the commands of the patch: the chunks before its end-of-file
    /// chunk but the file header, in all and by kind (each count modulo
    /// 2^32). It fails when a chunk before
    /// the end-of-file chunk does not read.
    pub fn calculate_actual_counts(&mut self) -> (r: Result<ZiPatchCommandCounts, ZiPatchError>)
        requires
            old(self).wf(),
        ensures
            final(self).wf(),
            final(self).bytes() == old(self).bytes(),
            final(self).spec_header() == old(self).spec_header(),
            r is Ok <==> exists|n: nat| reads_to_eof(old(self).bytes(), 12, n),
            r is Ok ==> exists|chunks: Seq<ZiPatchChunk>|
                #![trigger counts_of(chunks)]
                {
                    &&& reads_to_eof(old(self).bytes(), 12, chunks.len())
                    &&& chunks_at(old(self).bytes(), 12, chunks)
                    &&& r->Ok_0 == counts_of(chunks)
                },
    {
        let ghost b = self.bytes();
        self.reader.seek(self.head_position).unwrap();
        let mut tally: [u64; 9] = [0, 0, 0, 0, 0, 0, 0, 0, 0];
        let mut total: u64 = 0;
        let ghost mut seen: Seq<ZiPatchChunk> = Seq::empty();
        loop
            invariant_except_break
                self.reader.pos() == chunk_offset(b, 12, seen.len()),
                total <= self.reader.pos(),
            invariant
                b == old(self).bytes(),
                self.wf(),
                self.bytes() == b,
                self.header == old(self).header,
                before_eof(b, 12, seen.len()),
                chunks_at(b, 12, seen),
                total == seen.len(),
                total <= b.len(),
                tally[8] <= total,
                forall|k: int| 0 <= k < 9 ==> #[trigger] tally[k] == count_of(seen, k),
            ensures
                reads_to_eof(b, 12, seen.len()),
            decreases b.len() - self.reader.pos(),
        {
            let chunk = match ZiPatchChunk::read_next(&mut self.reader) {
                Ok(c) => c,
                Err(e) => {
                    proof {
                        lemma_eof_stuck(b, 12, seen.len());
                    }
                    return Err(e);
                },
            };
            if chunk.is_eof() {
                proof {
                    assert(reads_to_eof(b, 12, seen.len()));
                    lemma_eof_unique(b, 12, seen.len());
                }
                break;
            }
            let class: usize = match &chunk {
                ZiPatchChunk::AddDirectory(_) => 0,
                ZiPatchChunk::DeleteDirectory(_) => 1,
                ZiPatchChunk::Sqpk(SqpkCommand::AddData(_)) => 2,
                ZiPatchChunk::Sqpk(SqpkCommand::DeleteData(_)) => 3,
                ZiPatchChunk::Sqpk(SqpkCommand::ExpandData(_)) => 4,
                ZiPatchChunk::Sqpk(SqpkCommand::Header(_)) => 5,
                ZiPatchChunk::Sqpk(SqpkCommand::File(_)) => 6,
                ZiPatchChunk::FileHeader(_) => 8,
                _ => 7,
            };
            proof {
                assert(count_class(chunk) == class);
                lemma_count_bound(seen, class as int);
            }
            assert(tally[class as int] == count_of(seen, class as int));
            tally[class] = tally[class] + 1;
            total = total + 1;
            proof {
                let ghost prev = seen;
                seen = seen.push(chunk);
                assert(seen.drop_last() =~= prev);
                lemma_one_more(b, prev, chunk);
                assert forall|k: int| 0 <= k < 9 implies #[trigger] tally[k] == count_of(seen,
                    k) by {
                    assert(count_of(seen, k) == count_of(prev, k)
                        + if count_class(chunk) == k { 1nat } else { 0nat });
                }
            }
        }
        let counts = ZiPatchCommandCounts::with_counts(
            #[verifier::truncate] (tally[0] as u32),
            #[verifier::truncate] (tally[1] as u32),
            #[verifier::truncate] ((total - tally[8]) as u32),
            #[verifier::truncate] (tally[2] as u32),
            #[verifier::truncate] (tally[3] as u32),
            #[verifier::truncate] (tally[4] as u32),
            #[verifier::truncate] (tally[5] as u32),
            #[verifier::truncate] (tally[6] as u32),
        );
        proof {
            assert(tally[0] == count_of(seen, 0));
            assert(tally[1] == count_of(seen, 1));
            assert(tally[2] == count_of(seen, 2));
            assert(tally[3] == count_of(seen, 3));
            assert(tally[4] == count_of(seen, 4));
            assert(tally[5] == count_of(seen, 5));
            assert(tally[6] == count_of(seen, 6));
            assert(tally[8] == count_of(seen, 8));
            assert(counts == counts_of(seen));
        }
        Ok(counts)
    }

    /// The file header.
    pub fn header(&self) -> (r: &FileHeaderChunk)
        ensures
            *r == self.spec_header(),
    {
        &self.header
    }

    /// A walk over the chunks from the first one.
    pub fn chunks(&self) -> (r: ChunkIterator)
        requires
            self.wf(),
        ensures
            r.position() == HEAD_POSITION,
            !r.is_done(),
    {
        ChunkIterator { position: self.head_position, done: false }
    }
}

impl ChunkIterator {
    /// Where the next chunk starts.
    pub closed spec fn position(&self) -> nat {
        self.position as nat
    }

    /// Whether the walk has ended.
    pub closed spec fn is_done(&self) -> bool {
        self.done
    }

    /// The next chunk of `patch`: `None` once the end-of-file chunk or an
    /// error has been handed out.
    pub fn next(&mut self, patch: &mut ZiPatchFile) -> (r: Option<Result<ZiPatchChunk,
        ZiPatchError>>)
        requires
            old(patch).wf(),
        ensures
            final(patch).wf(),
            final(patch).bytes() == old(patch).bytes(),
            final(patch).spec_header() == old(patch).spec_header(),
            old(self).is_done() ==> r is None && *final(self) == *old(self),
            !old(self).is_done() ==> {
                let b = old(patch).bytes();
                let o = old(self).position() as int;
                &&& r is Some
                &&& r->0 is Ok <==> o <= b.len() && chunk_ok(b, o, b.len() as int)
                &&& r->0 is Ok ==> r->0->Ok_0.decoded_from(b, o) && final(self).position()
                    == chunk_end(b, o) && final(self).is_done() == r->0->Ok_0 is EndOfFile
                &&& r->0 is Err ==> final(self).is_done()
            },
    {
        if self.done {
            return None;
        }
        if let Err(e) = patch.reader.seek(self.position) {
            self.done = true;
            return Some(Err(e));
        }
        match ZiPatchChunk::read_next(&mut patch.reader) {
            Ok(chunk) => {
                self.position = patch.reader.position();
                self.done = chunk.is_eof();
                Some(Ok(chunk))
            },
            Err(e) => {
                self.done = true;
                Some(Err(e))
            },
        }
    }
}

} // verus!
