//! The package definition: where the source lives, which ref is built, the
//! patches, the build command and the checksums expected of the artifacts.

use crate::text::{optional_text, texts};
use vstd::prelude::*;

verus! {

/// One checksum rule: an artifact, by its path relative to the build
/// directory, and the checksum string expected of its contents.
#[derive(Debug)]
pub struct Checksum {
    pub path: String,
    pub checksum: String,
}

/// The mathematical value of a [`Checksum`].
pub ghost struct ChecksumView {
    pub path: Seq<char>,
    pub checksum: Seq<char>,
}

impl View for Checksum {
    type V = ChecksumView;

    open spec fn view(&self) -> ChecksumView {
        ChecksumView { path: self.path@, checksum: self.checksum@ }
    }
}

/// The `meta` section of a package definition.
#[derive(Debug)]
pub struct Meta {
    pub repo: String,
    pub version: String,
    pub suffix: String,
    pub checkout: Option<String>,
    pub patches: Vec<String>,
}

/// The mathematical value of a [`Meta`].
pub ghost struct MetaView {
    pub repo: Seq<char>,
    pub version: Seq<char>,
    pub suffix: Seq<char>,
    pub checkout: Option<Seq<char>>,
    pub patches: Seq<Seq<char>>,
}

impl MetaView {
    /// The ref that is extracted: the explicit one if there is one, else the
    /// letter `v` followed by the version.
    pub open spec fn checkout_ref(self) -> Seq<char> {
        match self.checkout {
            Some(checkout) => checkout,
            None => "v"@ + self.version,
        }
    }

    /// The version handed to the build: the version followed by the suffix.
    pub open spec fn full_version(self) -> Seq<char> {
        self.version + self.suffix
    }
}

impl View for Meta {
    type V = MetaView;

    open spec fn view(&self) -> MetaView {
        MetaView {
            repo: self.repo@,
            version: self.version@,
            suffix: self.suffix@,
            checkout: optional_text(self.checkout),
            patches: texts(self.patches@),
        }
    }
}

/// The `build` section of a package definition.
#[derive(Debug)]
pub struct Build {
    pub cmd: String,
}

/// A package definition.
#[derive(Debug)]
pub struct Config {
    pub meta: Meta,
    pub checksums: Vec<Checksum>,
    pub build: Build,
}

/// The mathematical value of a [`Config`].
pub ghost struct ConfigView {
    pub meta: MetaView,
    pub checksums: Seq<ChecksumView>,
    pub cmd: Seq<char>,
}

/// The views of a sequence of checksum rules.
pub open spec fn rule_views(checksums: Seq<Checksum>) -> Seq<ChecksumView> {
    Seq::new(checksums.len(), |i: int| checksums[i]@)
}

impl View for Config {
    type V = ConfigView;

    open spec fn view(&self) -> ConfigView {
        ConfigView { meta: self.meta@, checksums: rule_views(self.checksums@), cmd: self.build.cmd@ }
    }
}

} // verus!
