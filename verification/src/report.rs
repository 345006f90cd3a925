//! What a build run reports of its artifacts: one diagnostic for every rule
//! that does not match, and the error that ends the run if there is any.

use crate::artifact::{BuildDir, Outcome, Verification};
use crate::text::join;
use crate::config::{ChecksumView, Config, ConfigView};
use crate::error::{unit_result_view, RunError, RunErrorView};
use crate::status::all_match;
use vstd::prelude::*;

verus! {

/// What is wrong with one artifact.
#[derive(Debug)]
pub enum Diagnostic {
    /// The artifact at `path` does not exist.
    Missing { path: String },
    /// The artifact at `path` has the checksum `calculated` where `expected`
    /// was configured.
    Mismatch { path: String, calculated: String, expected: String },
}

/// The mathematical value of a [`Diagnostic`].
pub ghost enum DiagnosticView {
    Missing { path: Seq<char> },
    Mismatch { path: Seq<char>, calculated: Seq<char>, expected: Seq<char> },
}

impl View for Diagnostic {
    type V = DiagnosticView;

    open spec fn view(&self) -> DiagnosticView {
        match self {
            Diagnostic::Missing { path } => DiagnosticView::Missing { path: path@ },
            Diagnostic::Mismatch { path, calculated, expected } => DiagnosticView::Mismatch {
                path: path@,
                calculated: calculated@,
                expected: expected@,
            },
        }
    }
}

/// The views of a sequence of diagnostics.
pub open spec fn diagnostics_view(diagnostics: Seq<Diagnostic>) -> Seq<DiagnosticView> {
    Seq::new(diagnostics.len(), |i: int| diagnostics[i]@)
}

/// How the standard library writes a string for debugging: in double quotes,
/// with escapes. Left uninterpreted; [`quoted`] computes it.
pub uninterp spec fn debug_text(text: Seq<char>) -> Seq<char>;

/// Trusted: formats `text` with `{:?}`, that is with the standard library's
/// `Debug` for `str`, whose output depends on the characters of `text` alone.
/// The contract only names the result.
#[verifier::external_body]
pub(crate) fn quoted(text: &str) -> (out: String)
    ensures
        out@ == debug_text(text@),
{
    format!("{:?}", text)
}

impl DiagnosticView {
    /// The line that reports the diagnostic.
    pub open spec fn message(self) -> Seq<char> {
        match self {
            DiagnosticView::Missing { path } => "Missing compiled artifact "@ + debug_text(path),
            DiagnosticView::Mismatch { path, calculated, expected } => "Compiled artifact ("@
                + calculated + ") does not match expected checksum ("@ + expected + ")"@,
        }
    }
}

impl Diagnostic {
    /// The line that reports the diagnostic.
    pub fn message(&self) -> (text: String)
        ensures
            text@ == self@.message(),
    {
        match self {
            Diagnostic::Missing { path } => {
                let name = quoted(path.as_str());
                join("Missing compiled artifact ", name.as_str())
            },
            Diagnostic::Mismatch { path: _, calculated, expected } => {
                let a = join("Compiled artifact (", calculated.as_str());
                let b = join(a.as_str(), ") does not match expected checksum (");
                let c = join(b.as_str(), expected.as_str());
                join(c.as_str(), ")")
            },
        }
    }
}

/// The diagnostic for a rule with the given outcome: none for a match.
pub open spec fn diagnostic_of(rule: ChecksumView, outcome: Outcome) -> Option<DiagnosticView> {
    match outcome {
        Outcome::Missing => Some(DiagnosticView::Missing { path: rule.path }),
        Outcome::Mismatch(calculated) => Some(
            DiagnosticView::Mismatch { path: rule.path, calculated, expected: rule.checksum },
        ),
        Outcome::Match => None,
    }
}

/// The diagnostics of a list of rules in a build directory: one for each
/// rule that does not match, in the order of the rules.
pub open spec fn diagnostics_of(rules: Seq<ChecksumView>, dir: Map<Seq<char>, Seq<u8>>) -> Seq<
    DiagnosticView,
>
    decreases rules.len(),
{
    if rules.len() == 0 {
        Seq::empty()
    } else {
        let before = diagnostics_of(rules.drop_last(), dir);
        match diagnostic_of(rules.last(), rules.last().outcome_in(dir)) {
            Some(diagnostic) => before.push(diagnostic),
            None => before,
        }
    }
}

impl ConfigView {
    /// The diagnostics of the package in a build directory.
    pub open spec fn diagnostics(self, dir: Map<Seq<char>, Seq<u8>>) -> Seq<DiagnosticView> {
        diagnostics_of(self.checksums, dir)
    }
}

impl Config {
    /// Verifies every rule against the files of a build directory and
    /// returns a diagnostic for each that does not match. No rule is left out
    /// because an earlier one failed.
    pub fn diagnose(&self, dir: &BuildDir) -> (diagnostics: Vec<Diagnostic>)
        ensures
            diagnostics_view(diagnostics@) == self@.diagnostics(dir@),
    {
        let mut diagnostics: Vec<Diagnostic> = Vec::new();
        let mut i: usize = 0;
        while i < self.checksums.len()
            invariant
                i <= self.checksums.len(),
                diagnostics_view(diagnostics@) == diagnostics_of(
                    self@.checksums.take(i as int),
                    dir@,
                ),
            decreases self.checksums.len() - i,
        {
            let rule = &self.checksums[i];
            let ghost before = diagnostics_view(diagnostics@);
            proof {
                let prefix = self@.checksums.take(i + 1);
                assert(prefix.drop_last() =~= self@.checksums.take(i as int));
                assert(prefix.last() == rule@);
            }
            match rule.verify_in(dir) {
                Verification::Match => {},
                Verification::Missing => {
                    diagnostics.push(Diagnostic::Missing { path: rule.path.clone() });
                    assert(diagnostics_view(diagnostics@) =~= before.push(
                        DiagnosticView::Missing { path: rule@.path },
                    ));
                },
                Verification::Mismatch(calculated) => {
                    diagnostics.push(
                        Diagnostic::Mismatch {
                            path: rule.path.clone(),
                            calculated,
                            expected: rule.checksum.clone(),
                        },
                    );
                    assert(diagnostics_view(diagnostics@) =~= before.push(
                        DiagnosticView::Mismatch {
                            path: rule@.path,
                            calculated: calculated@,
                            expected: rule@.checksum,
                        },
                    ));
                },
            }
            i = i + 1;
        }
        proof {
            assert(self@.checksums.take(i as int) =~= self@.checksums);
        }
        diagnostics
    }
}

/// Ends the verification of a build run: with any diagnostic the run fails
/// with the checksum error, without one it succeeds.
pub fn conclude(diagnostics: &Vec<Diagnostic>) -> (result: Result<(), RunError>)
    ensures
        unit_result_view(result) == if diagnostics@.len() == 0 {
            Ok::<(), RunErrorView>(())
        } else {
            Err::<(), RunErrorView>(RunErrorView::ChecksumMismatch)
        },
{
    if diagnostics.len() == 0 {
        Ok(())
    } else {
        Err(RunError::ChecksumMismatch)
    }
}

/// There is no diagnostic exactly when every rule matches; in particular
/// there is none for a package without rules.
pub proof fn no_diagnostic_iff_all_match(config: ConfigView, dir: Map<Seq<char>, Seq<u8>>)
    ensures
        config.diagnostics(dir).len() == 0 <==> all_match(config.outcomes(dir)),
    decreases config.checksums.len(),
{
    let rules = config.checksums;
    let outcomes = config.outcomes(dir);
    if rules.len() > 0 {
        let shorter = ConfigView { checksums: rules.drop_last(), ..config };
        no_diagnostic_iff_all_match(shorter, dir);
        let fewer = shorter.outcomes(dir);
        assert(forall|i: int| 0 <= i < fewer.len() ==> fewer[i] == outcomes[i]);
        assert(outcomes[rules.len() - 1] == rules.last().outcome_in(dir));
        if all_match(outcomes) {
            assert(all_match(fewer)) by {
                assert forall|i: int| 0 <= i < fewer.len() implies #[trigger] fewer[i] is Match by {
                    assert(outcomes[i] is Match);
                }
            }
        }
        if config.diagnostics(dir).len() == 0 {
            assert(all_match(fewer));
            assert forall|i: int| 0 <= i < outcomes.len() implies #[trigger] outcomes[i] is Match by {
                if i < fewer.len() {
                    assert(fewer[i] is Match);
                }
            }
        }
    }
}

} // verus!
