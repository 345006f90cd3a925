//! The listing of the configured packages: their names in order, and one
//! entry for each.

use crate::artifact::BuildDir;
use crate::config::Config;
use crate::text::texts;
use crate::status::BuildStatus;
use vstd::prelude::*;

verus! {

/// The order of strings: character by character, by code point, a proper
/// prefix before what it is a prefix of.
pub open spec fn text_le(a: Seq<char>, b: Seq<char>) -> bool
    decreases a.len(),
{
    if a.len() == 0 {
        true
    } else if b.len() == 0 {
        false
    } else if a[0] != b[0] {
        (a[0] as u32) < (b[0] as u32)
    } else {
        text_le(a.skip(1), b.skip(1))
    }
}

/// No string comes before an earlier one.
pub open spec fn ascending(names: Seq<Seq<char>>) -> bool {
    forall|i: int, j: int| 0 <= i < j < names.len() ==> text_le(names[i], names[j])
}

/// Trusted: calls the standard library's `sort` on the slice of the vector.
/// It reorders the elements so that none is greater than a later one, and
/// strings compare by their bytes, which is the order of their code points.
#[verifier::external_body]
pub(crate) fn sort_strings(names: &mut Vec<String>)
    ensures
        ascending(texts(final(names)@)),
        texts(final(names)@).to_multiset() == texts(old(names)@).to_multiset(),
{
    names.sort()
}

/// Puts the names of the packages in the order of the listing: ascending,
/// with every name kept as often as it was given.
pub fn sort_names(names: Vec<String>) -> (sorted: Vec<String>)
    ensures
        ascending(texts(sorted@)),
        texts(sorted@).to_multiset() == texts(names@).to_multiset(),
{
    let mut sorted = names;
    sort_strings(&mut sorted);
    sorted
}

/// One line of the listing.
#[derive(Debug)]
pub struct ListEntry {
    /// Whether the package is built; a package without rules is not.
    pub built: bool,
    pub name: String,
    pub version: String,
    pub suffix: String,
    pub repo: String,
}

impl ListEntry {
    /// The mark shown before the name: `[built]` for a built package, nothing
    /// for any other.
    pub fn marker(&self) -> (mark: &'static str)
        ensures
            mark@ == if self.built {
                "[built]"@
            } else {
                ""@
            },
    {
        if self.built {
            "[built]"
        } else {
            ""
        }
    }
}

/// The entry of the package `name`, given its definition and the files of
/// its build directory.
pub fn list_entry(name: &str, config: &Config, dir: &BuildDir) -> (entry: ListEntry)
    ensures
        entry.built == (config@.status(dir@) == BuildStatus::Built),
        entry.name@ == name@,
        entry.version@ == config@.meta.version,
        entry.suffix@ == config@.meta.suffix,
        entry.repo@ == config@.meta.repo,
{
    ListEntry {
        built: config.build_status(dir).is_built(),
        name: String::from_str(name),
        version: config.meta.version.clone(),
        suffix: config.meta.suffix.clone(),
        repo: config.meta.repo.clone(),
    }
}

} // verus!
