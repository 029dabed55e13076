//! Game files named by a path relative to the installation directory.
use vstd::prelude::*;

use crate::util::digits::{decimal, push_decimal};

verus! {

/// The folder of an expansion: `ffxiv` for the base game, `ex{N}` otherwise.
pub open spec fn expansion_folder(expansion_id: nat) -> Seq<char> {
    if expansion_id == 0 {
        "ffxiv"@
    } else {
        "ex"@ + decimal(expansion_id)
    }
}

/// `rel` taken relative to `base`, with one `/` between them. An empty base
/// leaves `rel` as it is.
pub open spec fn join_path(base: Seq<char>, rel: Seq<char>) -> Seq<char> {
    if base.len() == 0 {
        rel
    } else if base.last() == '/' || (rel.len() > 0 && rel[0] == '/') {
        base + rel
    } else {
        base + "/"@ + rel
    }
}

/// A game file, by its path relative to the installation directory.
#[derive(Debug, Clone, PartialEq, Eq)]
pub struct SqexFile {
    /// The path below the installation directory.
    pub relative_path: String,
}

impl SqexFile {
    /// The file at `relative_path`.
    pub fn new(relative_path: String) -> (r: Self)
        ensures
            r.relative_path@ == relative_path@,
    {
        SqexFile { relative_path }
    }

    /// The file's path below `base_path`.
    pub fn resolve_full_path(&self, base_path: &str) -> (r: String)
        ensures
            r@ == join_path(base_path@, self.relative_path@),
    {
        join(base_path, self.relative_path.as_str())
    }

    /// The folder of expansion `expansion_id`.
    pub fn get_expansion_folder(expansion_id: u8) -> (r: String)
        ensures
            r@ == expansion_folder(expansion_id as nat),
    {
        if expansion_id == 0 {
            String::from_str("ffxiv")
        } else {
            let mut s = String::from_str("ex");
            push_decimal(&mut s, expansion_id as u64);
            s
        }
    }

    /// The relative path, as text.
    pub fn to_display_string(&self) -> (r: String)
        ensures
            r@ == self.relative_path@,
    {
        self.relative_path.clone()
    }
}

/// `rel` taken relative to `base`.
pub fn join(base: &str, rel: &str) -> (r: String)
    ensures
        r@ == join_path(base@, rel@),
{
    let n = base.unicode_len();
    if n == 0 {
        return String::from_str(rel);
    }
    let rel_rooted = rel.unicode_len() > 0 && rel.get_char(0) == '/';
    let mut r = String::from_str(base);
    if !(base.get_char(n - 1) == '/' || rel_rooted) {
        r.append("/");
    }
    r.append(rel);
    r
}

} // verus!
