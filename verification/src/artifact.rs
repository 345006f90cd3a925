//! Artifacts of a build and their verification against checksum rules.
//!
//! The files of a build directory are handed to the library as a
//! [`BuildDir`]: the contents of the files that exist, by relative path.

use crate::config::{Checksum, ChecksumView};
use crate::digest::{checksum_of_digest, checksum_text, format_digest, sha256, sha256_digest};
use vstd::prelude::*;

verus! {

/// What verifying one rule yields.
#[derive(Debug)]
pub enum Verification {
    /// The artifact does not exist.
    Missing,
    /// The artifact exists and its checksum, carried here, is not the
    /// expected one.
    Mismatch(String),
    /// The artifact exists and has the expected checksum.
    Match,
}

/// The mathematical value of a [`Verification`].
pub ghost enum Outcome {
    Missing,
    Mismatch(Seq<char>),
    Match,
}

impl View for Verification {
    type V = Outcome;

    open spec fn view(&self) -> Outcome {
        match self {
            Verification::Missing => Outcome::Missing,
            Verification::Mismatch(calculated) => Outcome::Mismatch(calculated@),
            Verification::Match => Outcome::Match,
        }
    }
}

impl ChecksumView {
    /// The outcome for an artifact whose contents have the digest `digest`.
    pub open spec fn outcome_of_digest(self, digest: Seq<u8>) -> Outcome {
        let calculated = checksum_of_digest(digest);
        if calculated == self.checksum {
            Outcome::Match
        } else {
            Outcome::Mismatch(calculated)
        }
    }

    /// The outcome for an artifact that is absent (`None`) or has the given
    /// contents.
    pub open spec fn outcome(self, contents: Option<Seq<u8>>) -> Outcome {
        match contents {
            None => Outcome::Missing,
            Some(data) => self.outcome_of_digest(sha256(data)),
        }
    }

    /// The outcome of this rule in a build directory.
    pub open spec fn outcome_in(self, dir: Map<Seq<char>, Seq<u8>>) -> Outcome {
        self.outcome(dir.get(self.path))
    }
}

/// The view of the contents of a file that may be absent.
pub open spec fn contents_view(contents: Option<&[u8]>) -> Option<Seq<u8>> {
    match contents {
        Some(data) => Some(data@),
        None => None,
    }
}

impl Checksum {
    /// Compares the checksum string of `digest` with the expected one,
    /// character by character.
    pub fn compare(&self, digest: &[u8]) -> (v: Verification)
        ensures
            v@ == self@.outcome_of_digest(digest@),
    {
        let calculated = format_digest(digest);
        if calculated == self.checksum {
            Verification::Match
        } else {
            Verification::Mismatch(calculated)
        }
    }

    /// Verifies an artifact given its contents, or `None` where the file does
    /// not exist.
    pub fn verify(&self, contents: Option<&[u8]>) -> (v: Verification)
        ensures
            v@ == self@.outcome(contents_view(contents)),
    {
        match contents {
            None => Verification::Missing,
            Some(data) => {
                let digest = sha256_digest(data);
                self.compare(digest.as_slice())
            },
        }
    }

    /// Verifies this rule against the files of a build directory.
    pub fn verify_in(&self, dir: &BuildDir) -> (v: Verification)
        ensures
            v@ == self@.outcome_in(dir@),
    {
        self.verify(dir.get(&self.path))
    }
}

/// A missing artifact yields `Missing`; one whose checksum string is the
/// expected one yields `Match`; any other yields `Mismatch` with the checksum
/// string of what was found.
pub proof fn outcome_by_cases(rule: ChecksumView, dir: Map<Seq<char>, Seq<u8>>)
    ensures
        !dir.contains_key(rule.path) ==> rule.outcome_in(dir) == Outcome::Missing,
        dir.contains_key(rule.path) && checksum_text(dir[rule.path])
            == rule.checksum ==> rule.outcome_in(dir) == Outcome::Match,
        dir.contains_key(rule.path) && checksum_text(dir[rule.path])
            != rule.checksum ==> rule.outcome_in(dir) == Outcome::Mismatch(
            checksum_text(dir[rule.path]),
        ),
{
}

/// A file of a build directory.
#[derive(Debug)]
pub struct Artifact {
    pub path: String,
    pub contents: Vec<u8>,
}

/// The files that a list of artifacts stands for: a later entry replaces an
/// earlier one with the same path.
pub open spec fn files_map(files: Seq<Artifact>) -> Map<Seq<char>, Seq<u8>>
    decreases files.len(),
{
    if files.len() == 0 {
        Map::empty()
    } else {
        files_map(files.drop_last()).insert(files.last().path@, files.last().contents@)
    }
}

/// The files found in a build directory, by path relative to it.
#[derive(Debug)]
pub struct BuildDir {
    files: Vec<Artifact>,
}

impl View for BuildDir {
    type V = Map<Seq<char>, Seq<u8>>;

    closed spec fn view(&self) -> Map<Seq<char>, Seq<u8>> {
        files_map(self.files@)
    }
}

impl BuildDir {
    /// A build directory without files.
    pub fn new() -> (dir: BuildDir)
        ensures
            dir@ == Map::<Seq<char>, Seq<u8>>::empty(),
    {
        BuildDir { files: Vec::new() }
    }

    /// Records the contents of the file at `path`, in place of what was
    /// recorded for that path before.
    pub fn insert(&mut self, path: String, contents: Vec<u8>)
        ensures
            final(self)@ == old(self)@.insert(path@, contents@),
    {
        self.files.push(Artifact { path, contents });
        proof {
            assert(self.files@.drop_last() =~= old(self).files@);
        }
    }

    /// The contents of the file at `path`, if there is one.
    pub fn get(&self, path: &String) -> (contents: Option<&[u8]>)
        ensures
            contents_view(contents) == self@.get(path@),
    {
        let mut i: usize = self.files.len();
        proof {
            assert(self.files@.take(i as int) =~= self.files@);
        }
        while i > 0
            invariant
                i <= self.files.len(),
                files_map(self.files@).get(path@) == files_map(self.files@.take(i as int)).get(
                    path@,
                ),
            decreases i,
        {
            proof {
                let prefix = self.files@.take(i as int);
                assert(prefix.drop_last() =~= self.files@.take(i - 1));
                assert(prefix.last() == self.files@[i - 1]);
            }
            i = i - 1;
            if self.files[i].path == *path {
                return Some(self.files[i].contents.as_slice());
            }
        }
        None
    }
}

} // verus!
