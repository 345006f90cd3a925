//! The build status of a package: one value for all its checksum rules.

use crate::artifact::{BuildDir, Outcome, Verification};
use crate::config::{Config, ConfigView};
use vstd::prelude::*;

verus! {

/// Whether the artifacts of a package are there and as expected.
#[derive(Clone, Copy, Debug, PartialEq, Eq, Structural)]
pub enum BuildStatus {
    /// There are rules and every one of them matches.
    Built,
    /// Some rule found its artifact missing or different.
    NotBuilt,
    /// There is no rule, so nothing shows that the package was built.
    Unknown,
}

/// The views of a sequence of verification results.
pub open spec fn outcomes_of(results: Seq<Verification>) -> Seq<Outcome> {
    Seq::new(results.len(), |i: int| results[i]@)
}

/// Every outcome is a match.
pub open spec fn all_match(outcomes: Seq<Outcome>) -> bool {
    forall|i: int| 0 <= i < outcomes.len() ==> #[trigger] outcomes[i] is Match
}

/// The status that a sequence of outcomes, one per rule, amounts to.
pub open spec fn status_of(outcomes: Seq<Outcome>) -> BuildStatus {
    if outcomes.len() == 0 {
        BuildStatus::Unknown
    } else if all_match(outcomes) {
        BuildStatus::Built
    } else {
        BuildStatus::NotBuilt
    }
}

impl ConfigView {
    /// The outcome of every rule in a build directory, in the order of the
    /// rules.
    pub open spec fn outcomes(self, dir: Map<Seq<char>, Seq<u8>>) -> Seq<Outcome> {
        Seq::new(self.checksums.len(), |i: int| self.checksums[i].outcome_in(dir))
    }

    /// The build status of the package in a build directory.
    pub open spec fn status(self, dir: Map<Seq<char>, Seq<u8>>) -> BuildStatus {
        status_of(self.outcomes(dir))
    }
}

impl BuildStatus {
    /// Collapses the results of all rules into one status. Every result is
    /// looked at, also after one that fails.
    pub fn of(results: &Vec<Verification>) -> (status: BuildStatus)
        ensures
            status == status_of(outcomes_of(results@)),
    {
        let mut matching = true;
        let mut i: usize = 0;
        while i < results.len()
            invariant
                i <= results.len(),
                matching == all_match(outcomes_of(results@).take(i as int)),
            decreases results.len() - i,
        {
            let ghost seen = outcomes_of(results@).take(i as int);
            let ghost next = outcomes_of(results@).take(i + 1);
            proof {
                assert(forall|j: int| 0 <= j < i ==> seen[j] == next[j]);
                assert(next[i as int] == results@[i as int]@);
            }
            match results[i] {
                Verification::Match => {},
                _ => {
                    matching = false;
                },
            }
            i = i + 1;
        }
        proof {
            assert(outcomes_of(results@).take(i as int) =~= outcomes_of(results@));
        }
        if results.len() == 0 {
            BuildStatus::Unknown
        } else if matching {
            BuildStatus::Built
        } else {
            BuildStatus::NotBuilt
        }
    }

    /// Whether the status is `Built`.
    pub fn is_built(&self) -> (built: bool)
        ensures
            built == (*self == BuildStatus::Built),
    {
        match self {
            BuildStatus::Built => true,
            _ => false,
        }
    }
}

impl Config {
    /// Verifies every rule against the files of a build directory and
    /// returns the results in the order of the rules.
    pub fn verify_all(&self, dir: &BuildDir) -> (results: Vec<Verification>)
        ensures
            outcomes_of(results@) == self@.outcomes(dir@),
    {
        let mut results: Vec<Verification> = Vec::new();
        let mut i: usize = 0;
        while i < self.checksums.len()
            invariant
                i <= self.checksums.len(),
                results@.len() == i,
                forall|j: int|
                    0 <= j < i ==> (#[trigger] results@[j])@ == self.checksums@[j]@.outcome_in(
                        dir@,
                    ),
            decreases self.checksums.len() - i,
        {
            let result = self.checksums[i].verify_in(dir);
            results.push(result);
            i = i + 1;
        }
        proof {
            assert(outcomes_of(results@) =~= self@.outcomes(dir@));
        }
        results
    }

    /// The build status of the package, given the files of its build
    /// directory.
    pub fn build_status(&self, dir: &BuildDir) -> (status: BuildStatus)
        ensures
            status == self@.status(dir@),
    {
        let results = self.verify_all(dir);
        BuildStatus::of(&results)
    }
}

/// The status is `Unknown` exactly when there is no rule.
pub proof fn unknown_iff_no_rule(config: ConfigView, dir: Map<Seq<char>, Seq<u8>>)
    ensures
        config.status(dir) == BuildStatus::Unknown <==> config.checksums.len() == 0,
{
}

/// With at least one rule, the status is `Built` exactly when every rule
/// yields `Match`, and `NotBuilt` exactly when some rule does not.
pub proof fn built_iff_all_match(config: ConfigView, dir: Map<Seq<char>, Seq<u8>>)
    requires
        config.checksums.len() > 0,
    ensures
        config.status(dir) == BuildStatus::Built <==> (forall|i: int|
            0 <= i < config.checksums.len() ==> #[trigger] config.checksums[i].outcome_in(dir)
                == Outcome::Match),
        config.status(dir) == BuildStatus::NotBuilt <==> (exists|i: int|
            0 <= i < config.checksums.len() && #[trigger] config.checksums[i].outcome_in(dir)
                != Outcome::Match),
{
    let outcomes = config.outcomes(dir);
    assert(forall|i: int|
        0 <= i < config.checksums.len() ==> outcomes[i] == #[trigger] config.checksums[i].outcome_in(
            dir,
        ));
    if all_match(outcomes) {
        assert forall|i: int| 0 <= i < config.checksums.len() implies #[trigger] config.checksums[i].outcome_in(
            dir,
        ) == Outcome::Match by {
            assert(outcomes[i] is Match);
        }
    } else {
        let i = choose|i: int| 0 <= i < outcomes.len() && !(#[trigger] outcomes[i] is Match);
        assert(config.checksums[i].outcome_in(dir) != Outcome::Match);
    }
}

} // verus!
