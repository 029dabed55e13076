use vstd::prelude::*;

use crate::chunk::ZiPatchChunk;
use crate::config::Platform;
use crate::sqpk::file::OperationKind;
use crate::sqpk::header::{target_name, TargetFile};
use crate::sqpk::SqpkCommand;
use crate::util::sqex_file::{expansion_folder, SqexFile};
use crate::util::sqpack_file::dat_name;

verus! {

/// The texts held by `v`, as a set.
pub open spec fn text_set(v: Seq<String>) -> Set<Seq<char>> {
    Set::new(|t: Seq<char>| exists|i: int| 0 <= i < v.len() && #[trigger] v[i]@ == t)
}

/// No text appears twice in `v`.
pub open spec fn distinct_texts(v: Seq<String>) -> bool {
    forall|i: int, j: int| 0 <= i < v.len() && 0 <= j < v.len() && i != j ==> #[trigger] v[i]@
        != #[trigger] v[j]@
}

/// The paths a chunk adds, deletes and modifies, in that order, with pack
/// files named for `platform`.
pub open spec fn chunk_changes(c: ZiPatchChunk, platform: Platform) -> (
    Set<Seq<char>>,
    Set<Seq<char>>,
    Set<Seq<char>>,
) {
    let none = Set::<Seq<char>>::empty();
    match c {
        ZiPatchChunk::AddDirectory(d) => (set![d.dir_name@], none, none),
        ZiPatchChunk::DeleteDirectory(d) => (none, set![d.dir_name@], none),
        ZiPatchChunk::Sqpk(cmd) => match cmd {
            SqpkCommand::Header(h) => (none, none, set![target_name(h.target_file, platform)]),
            SqpkCommand::AddData(a) => (
                none,
                none,
                set![dat_name(a.target_file.sqpack.main_id, a.target_file.sqpack.sub_id,
                    a.target_file.sqpack.file_id, platform)],
            ),
            SqpkCommand::DeleteData(d) => (
                none,
                none,
                set![dat_name(d.target_file.sqpack.main_id, d.target_file.sqpack.sub_id,
                    d.target_file.sqpack.file_id, platform)],
            ),
            SqpkCommand::ExpandData(e) => (
                none,
                none,
                set![dat_name(e.target_file.sqpack.main_id, e.target_file.sqpack.sub_id,
                    e.target_file.sqpack.file_id, platform)],
            ),
            SqpkCommand::File(f) => {
                let path = f.target_file.relative_path@;
                match f.operation {
                    OperationKind::AddFile => if f.file_offset == 0 {
                        (set![path], none, none)
                    } else {
                        (none, none, set![path])
                    },
                    OperationKind::DeleteFile => (none, set![path], none),
                    OperationKind::RemoveAll => {
                        let folder = expansion_folder((f.expansion_id as u8) as nat);
                        (
                            none,
                            set!["sqpack/"@ + folder + "/"@, "movie/"@ + folder + "/"@],
                            none,
                        )
                    },
                    OperationKind::MakeDirTree => (set![path], none, none),
                }
            },
            _ => (none, none, none),
        },
        _ => (none, none, none),
    }
}

/// The paths a run of chunks adds, deletes and modifies, before added paths
/// that are also modified are dropped.
pub open spec fn changes_of(chunks: Seq<ZiPatchChunk>, platform: Platform) -> (
    Set<Seq<char>>,
    Set<Seq<char>>,
    Set<Seq<char>>,
)
    decreases chunks.len(),
{
    if chunks.len() == 0 {
        (Set::empty(), Set::empty(), Set::empty())
    } else {
        let (a, d, m) = changes_of(chunks.drop_last(), platform);
        let (ca, cd, cm) = chunk_changes(chunks.last(), platform);
        (a + ca, d + cd, m + cm)
    }
}

/// The files and folders a patch adds, deletes and modifies.
#[derive(Debug, Clone, PartialEq, Eq)]
pub struct ZiPatchChangeSet {
    /// Paths the patch adds.
    pub added: Vec<String>,
    /// Paths the patch deletes.
    pub deleted: Vec<String>,
    /// Paths the patch modifies.
    pub modified: Vec<String>,
}

fn insert_text(v: &mut Vec<String>, t: String)
    requires
        distinct_texts(old(v)@),
    ensures
        distinct_texts(final(v)@),
        text_set(final(v)@) == text_set(old(v)@).insert(t@),
{
    let mut i: usize = 0;
    while i < v.len()
        invariant
            v@ == old(v)@,
            distinct_texts(v@),
            i <= v@.len(),
            forall|j: int| 0 <= j < i ==> v@[j]@ != t@,
        decreases v@.len() - i,
    {
        if v[i] == t {
            assert(text_set(v@) =~= text_set(v@).insert(t@));
            return;
        }
        i = i + 1;
    }
    let ghost before = v@;
    v.push(t);
    assert(text_set(v@) =~= text_set(before).insert(t@)) by {
        assert forall|x: Seq<char>| text_set(before).insert(t@).contains(x)
            implies text_set(v@).contains(x) by {
            if x == t@ {
                assert(v@[before.len() as int]@ == x);
            } else {
                let k = choose|k: int| 0 <= k < before.len() && #[trigger] before[k]@ == x;
                assert(v@[k]@ == x);
            }
        }
        assert forall|x: Seq<char>| text_set(v@).contains(x)
            implies text_set(before).insert(t@).contains(x) by {
            let k = choose|k: int| 0 <= k < v@.len() && #[trigger] v@[k]@ == x;
            if k < before.len() {
                assert(before[k]@ == x);
            }
        }
    }
}

impl ZiPatchChangeSet {
    /// The added paths, as a set.
    pub open spec fn added_set(&self) -> Set<Seq<char>> {
        text_set(self.added@)
    }

    /// The deleted paths, as a set.
    pub open spec fn deleted_set(&self) -> Set<Seq<char>> {
        text_set(self.deleted@)
    }

    /// The modified paths, as a set.
    pub open spec fn modified_set(&self) -> Set<Seq<char>> {
        text_set(self.modified@)
    }

    /// No list holds a path twice.
    pub open spec fn wf(&self) -> bool {
        distinct_texts(self.added@) && distinct_texts(self.deleted@) && distinct_texts(
            self.modified@,
        )
    }

    /// A change set with nothing in it.
    pub fn new() -> (r: Self)
        ensures
            r.added@.len() == 0,
            r.deleted@.len() == 0,
            r.modified@.len() == 0,
            r.wf(),
    {
        ZiPatchChangeSet { added: Vec::new(), deleted: Vec::new(), modified: Vec::new() }
    }

    /// A change set of the given lists.
    pub fn with_changes(added: Vec<String>, deleted: Vec<String>, modified: Vec<String>) -> (r:
        Self)
        ensures
            r.added@ == added@,
            r.deleted@ == deleted@,
            r.modified@ == modified@,
    {
        ZiPatchChangeSet { added, deleted, modified }
    }

    /// How many paths the three lists hold together.
    pub fn total_changes(&self) -> (r: usize)
        requires
            self.added@.len() + self.deleted@.len() + self.modified@.len() <= usize::MAX,
        ensures
            r == self.added@.len() + self.deleted@.len() + self.modified@.len(),
    {
        self.added.len() + self.deleted.len() + self.modified.len()
    }

    /// Whether all three lists are empty.
    pub fn is_empty(&self) -> (r: bool)
        ensures
            r == (self.added@.len() == 0 && self.deleted@.len() == 0 && self.modified@.len()
                == 0),
    {
        self.added.len() == 0 && self.deleted.len() == 0 && self.modified.len() == 0
    }

    /// Adds what `chunk` adds, deletes and modifies, with pack files named
    /// for `platform`.
    pub fn record_chunk(&mut self, chunk: &ZiPatchChunk, platform: Platform)
        requires
            old(self).wf(),
        ensures
            final(self).wf(),
            ({
                let (a, d, m) = chunk_changes(*chunk, platform);
                &&& final(self).added_set() == old(self).added_set() + a
                &&& final(self).deleted_set() == old(self).deleted_set() + d
                &&& final(self).modified_set() == old(self).modified_set() + m
            }),
    {
        let ghost (a0, d0, m0) = (self.added_set(), self.deleted_set(), self.modified_set());
        match chunk {
            ZiPatchChunk::AddDirectory(adir) => {
                insert_text(&mut self.added, adir.dir_name.clone());
            },
            ZiPatchChunk::DeleteDirectory(deld) => {
                insert_text(&mut self.deleted, deld.dir_name.clone());
            },
            ZiPatchChunk::Sqpk(cmd) => match cmd {
                SqpkCommand::Header(h) => {
                    let name = match &h.target_file {
                        TargetFile::Dat(dat) => dat.get_file_name(platform),
                        TargetFile::Index(idx) => idx.get_file_name(platform),
                    };
                    insert_text(&mut self.modified, name);
                },
                SqpkCommand::AddData(a) => {
                    insert_text(&mut self.modified, a.target_file.get_file_name(platform));
                },
                SqpkCommand::DeleteData(d) => {
                    insert_text(&mut self.modified, d.target_file.get_file_name(platform));
                },
                SqpkCommand::ExpandData(e) => {
                    insert_text(&mut self.modified, e.target_file.get_file_name(platform));
                },
                SqpkCommand::File(f) => match f.operation {
                    OperationKind::AddFile => {
                        if f.file_offset == 0 {
                            insert_text(&mut self.added, f.target_file.relative_path.clone());
                        } else {
                            insert_text(&mut self.modified, f.target_file.relative_path.clone());
                        }
                    },
                    OperationKind::DeleteFile => {
                        insert_text(&mut self.deleted, f.target_file.relative_path.clone());
                    },
                    OperationKind::RemoveAll => {
                        let folder = SqexFile::get_expansion_folder(f.expansion_id as u8);
                        let mut sqpack = String::from_str("sqpack/");
                        sqpack.append(folder.as_str());
                        sqpack.append("/");
                        let mut movie = String::from_str("movie/");
                        movie.append(folder.as_str());
                        movie.append("/");
                        insert_text(&mut self.deleted, sqpack);
                        insert_text(&mut self.deleted, movie);
                    },
                    OperationKind::MakeDirTree => {
                        insert_text(&mut self.added, f.target_file.relative_path.clone());
                    },
                },
                _ => {},
            },
            _ => {},
        }
        proof {
            let (a, d, m) = chunk_changes(*chunk, platform);
            assert(self.added_set() =~= a0 + a);
            assert(self.deleted_set() =~= d0 + d);
            assert(self.modified_set() =~= m0 + m);
        }
    }

    /// Drops from the added paths those that are also modified.
    pub fn finish(&mut self)
        requires
            old(self).wf(),
        ensures
            final(self).wf(),
            final(self).added_set() == old(self).added_set().difference(old(self).modified_set()),
            final(self).deleted@ == old(self).deleted@,
            final(self).modified@ == old(self).modified@,
    {
        let mut kept: Vec<String> = Vec::new();
        let mut i: usize = 0;
        while i < self.added.len()
            invariant
                i <= self.added@.len(),
                distinct_texts(self.added@),
                distinct_texts(kept@),
                text_set(kept@) == text_set(self.added@.subrange(0, i as int)).difference(
                    text_set(self.modified@),
                ),
            decreases self.added@.len() - i,
        {
            let item = self.added[i].clone();
            let mut j: usize = 0;
            let mut found = false;
            while j < self.modified.len()
                invariant
                    j <= self.modified@.len(),
                    found == exists|k: int| 0 <= k < j && #[trigger] self.modified@[k]@ == item@,
                decreases self.modified@.len() - j,
            {
                if self.modified[j] == item {
                    found = true;
                }
                j = j + 1;
            }
            let ghost prev = kept@;
            proof {
                assert(self.added@.subrange(0, i + 1) =~= self.added@.subrange(0,
                    i as int).push(self.added@[i as int]));
                assert(text_set(self.added@.subrange(0, i
                    + 1)) =~= text_set(self.added@.subrange(0, i as int)).insert(item@)) by {
                    let s0 = self.added@.subrange(0, i as int);
                    let s1 = self.added@.subrange(0, i + 1);
                    assert forall|x: Seq<char>| text_set(s1).contains(x)
                        implies text_set(s0).insert(item@).contains(x) by {
                        let k = choose|k: int| 0 <= k < s1.len() && #[trigger] s1[k]@ == x;
                        if k < i {
                            assert(s0[k]@ == x);
                        }
                    }
                    assert forall|x: Seq<char>| text_set(s0).insert(item@).contains(x)
                        implies text_set(s1).contains(x) by {
                        if x == item@ {
                            assert(s1[i as int]@ == x);
                        } else {
                            let k = choose|k: int| 0 <= k < s0.len() && #[trigger] s0[k]@ == x;
                            assert(s1[k]@ == x);
                        }
                    }
                }
                assert(text_set(self.modified@).contains(item@) == found);
            }
            if !found {
                proof {
                    assert forall|k: int| 0 <= k < prev.len()
                        implies #[trigger] prev[k]@ != item@ by {
                        if prev[k]@ == item@ {
                            assert(text_set(prev).contains(item@));
                            let m = choose|m: int| 0 <= m < i
                                && #[trigger] self.added@.subrange(0, i as int)[m]@ == item@;
                            assert(self.added@[m]@ == self.added@[i as int]@);
                        }
                    }
                }
                insert_text(&mut kept, item);
            }
            proof {
                assert(text_set(kept@) =~= text_set(self.added@.subrange(0, i
                    + 1)).difference(text_set(self.modified@)));
            }
            i = i + 1;
        }
        assert(self.added@.subrange(0, i as int) =~= self.added@);
        self.added = kept;
    }
}

} // verus!
