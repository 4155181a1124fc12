//! Archive downloads: where each identifier's archive lives, where its
//! file goes, and the end-of-run report over per-identifier outcomes.
//!
//! The HTTP GET and the file write happen outside the library. A file name
//! is a pure function of the identifier, so running the downloader again
//! for an identifier addresses the same file and overwrites it rather than
//! duplicating it. One identifier's failure is isolated: the report simply
//! collects both outcomes, and the run goes on.

use vstd::prelude::*;
use vstd::string::StringExecFns;
use crate::digits::decimal_digits;
use crate::digits::u64_to_decimal;

verus! {

/// The mirror URL holding the archive for `id`.
pub fn archive_url(id: u64) -> (url: String)
    ensures
        url@ == "https://beatconnect.io/b/"@ + decimal_digits(id as nat),
{
    let mut url = String::from_str("https://beatconnect.io/b/");
    let id_part = u64_to_decimal(id);
    url.append(id_part.as_str());
    url
}

/// The file name the archive for `id` is written under.
pub fn archive_file_name(id: u64) -> (name: String)
    ensures
        name@ == decimal_digits(id as nat) + ".osz"@,
{
    let mut name = u64_to_decimal(id);
    name.append(".osz");
    name
}

/// The path of the archive for `id` inside the output directory.
pub fn archive_path(output_dir: &str, id: u64) -> (path: String)
    ensures
        path@ == output_dir@ + "/"@ + decimal_digits(id as nat) + ".osz"@,
{
    let mut path = String::from_str(output_dir);
    path.append("/");
    let id_part = u64_to_decimal(id);
    path.append(id_part.as_str());
    path.append(".osz");
    proof {
        assert(path@ =~= output_dir@ + "/"@ + decimal_digits(id as nat) + ".osz"@);
    }
    path
}

/// Archive file naming is injective: one identifier always goes to the
/// same file name, and two identifiers share a file name only when they
/// are the same identifier. A re-run therefore overwrites an identifier's
/// file instead of duplicating it, and never touches another's.
pub proof fn lemma_archive_file_names_injective(a: u64, b: u64)
    ensures
        (decimal_digits(a as nat) + ".osz"@ == decimal_digits(b as nat) + ".osz"@) <==> a == b,
{
    let da = decimal_digits(a as nat);
    let db = decimal_digits(b as nat);
    if da + ".osz"@ == db + ".osz"@ {
        assert(da.len() == db.len()) by {
            assert((da + ".osz"@).len() == da.len() + ".osz"@.len());
            assert((db + ".osz"@).len() == db.len() + ".osz"@.len());
        }
        assert(da =~= db) by {
            assert forall|i: int| 0 <= i < da.len() implies da[i] == db[i] by {
                assert((da + ".osz"@)[i] == da[i]);
                assert((db + ".osz"@)[i] == db[i]);
            }
        }
        crate::digits::lemma_decimal_digits_injective(a as nat, b as nat);
    }
}

/// A progress line of the form `done/total`.
pub fn progress_line(done_count: u64, total: u64) -> (line: String)
    ensures
        line@ == decimal_digits(done_count as nat) + "/"@ + decimal_digits(total as nat),
{
    let mut line = u64_to_decimal(done_count);
    line.append("/");
    let total_part = u64_to_decimal(total);
    line.append(total_part.as_str());
    proof {
        assert(line@ =~= decimal_digits(done_count as nat) + "/"@ + decimal_digits(
            total as nat,
        ));
    }
    line
}

/// The aggregated outcome of a download run: which identifiers were
/// written and which failed, each in the order recorded.
pub struct DownloadReport {
    succeeded: Vec<u64>,
    failed: Vec<u64>,
}

impl DownloadReport {
    /// The identifiers whose archives were written, in recorded order.
    pub closed spec fn spec_succeeded(&self) -> Seq<u64> {
        self.succeeded@
    }

    /// The identifiers whose downloads failed, in recorded order.
    pub closed spec fn spec_failed(&self) -> Seq<u64> {
        self.failed@
    }

    /// A report with nothing recorded yet.
    pub fn new() -> (r: DownloadReport)
        ensures
            r.spec_succeeded() == Seq::<u64>::empty(),
            r.spec_failed() == Seq::<u64>::empty(),
    {
        DownloadReport { succeeded: Vec::new(), failed: Vec::new() }
    }

    /// Records that the archive for `id` was downloaded and written.
    pub fn record_success(&mut self, id: u64)
        ensures
            final(self).spec_succeeded() == old(self).spec_succeeded().push(id),
            final(self).spec_failed() == old(self).spec_failed(),
    {
        self.succeeded.push(id);
    }

    /// Records that the download for `id` failed; the run goes on.
    pub fn record_failure(&mut self, id: u64)
        ensures
            final(self).spec_succeeded() == old(self).spec_succeeded(),
            final(self).spec_failed() == old(self).spec_failed().push(id),
    {
        self.failed.push(id);
    }

    /// How many archives were written.
    pub fn success_count(&self) -> (n: usize)
        ensures
            n == self.spec_succeeded().len(),
    {
        self.succeeded.len()
    }

    /// How many downloads failed.
    pub fn failure_count(&self) -> (n: usize)
        ensures
            n == self.spec_failed().len(),
    {
        self.failed.len()
    }

    /// The identifiers whose downloads failed, for the end-of-run summary.
    pub fn failed_ids(&self) -> (ids: &Vec<u64>)
        ensures
            ids@ == self.spec_failed(),
    {
        &self.failed
    }

    /// Whether every recorded download succeeded.
    pub fn fully_successful(&self) -> (b: bool)
        ensures
            b <==> self.spec_failed().len() == 0,
    {
        self.failed.len() == 0
    }
}

} // verus!
