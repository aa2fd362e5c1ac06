use vstd::prelude::*;
use vstd::string::StringExecFns;

verus! {

/// The terminal outcome of one record in the batch loop.
#[derive(Clone, Copy, Debug, PartialEq, Eq, Structural)]
pub enum RecordOutcome {
    /// The search resolved the record and the citation was written.
    Saved,
    /// The search resolved the record; the fetch or the write failed.
    SaveFailed,
    /// The search failed, for whatever reason.
    Unresolved,
}

/// The outcome of one record, from whether the search resolved it and
/// whether the resolved citation was fetched and written.
pub fn outcome_of(resolved: bool, saved: bool) -> (r: RecordOutcome)
    ensures
        !resolved ==> r == RecordOutcome::Unresolved,
        resolved && saved ==> r == RecordOutcome::Saved,
        resolved && !saved ==> r == RecordOutcome::SaveFailed,
{
    if !resolved {
        RecordOutcome::Unresolved
    } else if saved {
        RecordOutcome::Saved
    } else {
        RecordOutcome::SaveFailed
    }
}

/// Success and failure counts of a batch run.
#[derive(Clone, Copy, Debug, PartialEq, Eq, Structural)]
pub struct BatchTally {
    pub downloaded: u64,
    pub failed: u64,
}

impl BatchTally {
    /// A tally with nothing counted yet.
    pub fn new() -> (r: Self)
        ensures
            r.downloaded == 0,
            r.failed == 0,
    {
        BatchTally { downloaded: 0, failed: 0 }
    }

    /// Count one record's outcome: a saved record counts as downloaded,
    /// every other outcome — save failure as well as an unresolved
    /// search — as failed; the other counter keeps its value, so one
    /// record's failure never touches the successes already counted.
    pub fn count(&mut self, outcome: RecordOutcome)
        requires
            old(self).downloaded + old(self).failed < u64::MAX,
        ensures
            outcome == RecordOutcome::Saved ==> final(self).downloaded == old(self).downloaded
                + 1 && final(self).failed == old(self).failed,
            outcome != RecordOutcome::Saved ==> final(self).failed == old(self).failed + 1
                && final(self).downloaded == old(self).downloaded,
    {
        match outcome {
            RecordOutcome::Saved => {
                self.downloaded = self.downloaded + 1;
            },
            _ => {
                self.failed = self.failed + 1;
            },
        }
    }
}

/// The name that the filename sanitizer gives to a string.
pub uninterp spec fn sanitized(name: Seq<char>) -> Seq<char>;

/// Relies on `sanitize_filename::sanitize_with_options`, with the
/// options spelled out so that they are the same on every platform:
/// strips characters illegal in filesystem paths, reserved names and
/// trailing dots or spaces, and truncates overlong names; the result
/// then depends on the name alone.
#[verifier::external_body]
fn sanitize_name(name: &str) -> (r: String)
    ensures
        r@ == sanitized(name@),
{
    let options = sanitize_filename::Options { windows: true, truncate: true, replacement: "" };
    sanitize_filename::sanitize_with_options(name, options)
}

/// The output filename of a record: `{author}_{title}.bib`, sanitized.
pub fn output_filename(author: &str, title: &str) -> (r: String)
    ensures
        r@ == sanitized(author@ + "_"@ + title@ + ".bib"@),
{
    let mut name = author.to_owned();
    name.append("_");
    name.append(title);
    name.append(".bib");
    sanitize_name(name.as_str())
}

/// Law: the output filename is a function of the author and title texts
/// alone; duplicate author/title pairs collide to the same name, and a
/// second run over the same input derives the same names again.
pub proof fn lemma_filename_deterministic(
    a1: Seq<char>,
    t1: Seq<char>,
    a2: Seq<char>,
    t2: Seq<char>,
)
    requires
        a1 == a2,
        t1 == t2,
    ensures
        sanitized(a1 + "_"@ + t1 + ".bib"@) == sanitized(a2 + "_"@ + t2 + ".bib"@),
{
}

} // verus!
