//! The favorites paginator: page bodies in, a duplicate-free set of
//! beatmapset identifiers out.
//!
//! The HTTP GET for each page happens outside the library; the `Paginator`
//! is the decision core of that loop. It receives each page's raw
//! identifier list as plain values, accumulates the distinct identifiers,
//! and decides termination: the listing is finished exactly when a page
//! carries fewer raw entries than `PAGE_SIZE`, or when the page cap is
//! reached. The cumulative total is never consulted for termination, since
//! entries repeated across pages can keep it at a multiple of the page size
//! while the listing still continues.

use vstd::prelude::*;
use vstd::string::StringExecFns;
use crate::digits::decimal_digits;
use crate::digits::u64_to_decimal;

verus! {

/// Number of entries requested from the listing endpoint per page.
pub const PAGE_SIZE: u64 = 100;

/// Safety cap on the number of pages fetched in one run, so that a server
/// endlessly returning full pages cannot keep the loop alive forever.
pub const MAX_PAGES: u64 = 10000;

/// Why a favorites page could not be used. A page failure is fatal for the
/// listing: pagination must be contiguous.
#[derive(Clone, Copy, PartialEq, Eq, Structural, Debug)]
pub enum ListError {
    /// The body is not a JSON array of objects each carrying a numeric
    /// `id` member.
    BadPageBody,
}

/// The identifiers of one favorites page body read as a JSON document:
/// `Some` of each array element's `id` member in array order exactly when
/// `body` is a JSON array whose every element is an object with a numeric
/// `id` member, `None` otherwise.
pub uninterp spec fn page_ids_of(body: Seq<u8>) -> Option<Seq<u64>>;

/// Relies on `serde_json::from_slice`, `Value::as_array`, `Value::get` and
/// `Value::as_u64`: parsing is deterministic in the body bytes, and the
/// chain yields every element's `id` member in order exactly when the body
/// is a JSON array whose elements all hold one.
#[verifier::external_body]
fn json_page_ids(body: &[u8]) -> (r: Option<Vec<u64>>)
    ensures
        r matches Some(v) ==> page_ids_of(body@) == Some(v@),
        r is None ==> page_ids_of(body@) is None,
{
    let value: serde_json::Value = serde_json::from_slice(body).ok()?;
    let entries = value.as_array()?;
    let mut ids: Vec<u64> = Vec::with_capacity(entries.len());
    for entry in entries {
        ids.push(entry.get("id")?.as_u64()?);
    }
    Some(ids)
}

/// Turns the extracted optional identifier list into the page's result: a
/// present list is the page's identifiers, an absent one is a listing
/// error.
pub fn ids_from_member(member: Option<Vec<u64>>) -> (r: Result<Vec<u64>, ListError>)
    ensures
        member matches Some(v) ==> (r matches Ok(w) && w@ == v@),
        member is None ==> r == Err::<Vec<u64>, ListError>(ListError::BadPageBody),
{
    match member {
        Some(v) => Ok(v),
        None => Err(ListError::BadPageBody),
    }
}

/// Extracts the raw identifier list from a favorites page body, in array
/// order and with repetitions kept: deduplication is the paginator's job.
pub fn parse_page_body(body: &[u8]) -> (r: Result<Vec<u64>, ListError>)
    ensures
        page_ids_of(body@) matches Some(ids) ==> (r matches Ok(v) && v@ == ids),
        page_ids_of(body@) is None ==> r == Err::<Vec<u64>, ListError>(ListError::BadPageBody),
{
    ids_from_member(json_page_ids(body))
}

/// The listing URL for one page of a user's favorited beatmapsets.
pub fn favorites_url(user_id: u64, offset: u64) -> (url: String)
    ensures
        url@ == "https://osu.ppy.sh/api/v2/users/"@ + decimal_digits(user_id as nat)
            + "/beatmapsets/favourite?limit="@ + decimal_digits(PAGE_SIZE as nat) + "&offset="@
            + decimal_digits(offset as nat),
{
    let mut url = String::from_str("https://osu.ppy.sh/api/v2/users/");
    let user_part = u64_to_decimal(user_id);
    url.append(user_part.as_str());
    url.append("/beatmapsets/favourite?limit=");
    let limit_part = u64_to_decimal(PAGE_SIZE);
    url.append(limit_part.as_str());
    url.append("&offset=");
    let offset_part = u64_to_decimal(offset);
    url.append(offset_part.as_str());
    proof {
        assert(url@ =~= "https://osu.ppy.sh/api/v2/users/"@ + decimal_digits(user_id as nat)
            + "/beatmapsets/favourite?limit="@ + decimal_digits(PAGE_SIZE as nat) + "&offset="@
            + decimal_digits(offset as nat));
    }
    url
}

/// Pushing an element that a duplicate-free sequence does not contain
/// keeps it duplicate-free.
proof fn lemma_push_preserves_no_dup(s: Seq<u64>, x: u64)
    requires
        s.no_duplicates(),
        !s.contains(x),
    ensures
        s.push(x).no_duplicates(),
{
    assert forall|i: int, j: int|
        0 <= i < s.push(x).len() && 0 <= j < s.push(x).len() && i != j implies s.push(x)[i]
        != s.push(x)[j] by {
        if i < s.len() && j < s.len() {
        } else if i == s.len() {
            assert(s.contains(s[j]));
        } else {
            assert(s.contains(s[i]));
        }
    }
}

/// Whether `ids` already holds `x`.
fn contains_id(ids: &Vec<u64>, x: u64) -> (b: bool)
    ensures
        b == ids@.contains(x),
{
    let mut i: usize = 0;
    while i < ids.len()
        invariant
            i <= ids@.len(),
            forall|j: int| 0 <= j < i ==> ids@[j] != x,
        decreases ids@.len() - i,
    {
        if ids[i] == x {
            return true;
        }
        i += 1;
    }
    false
}

/// The state of one favorites listing: the distinct identifiers collected
/// so far, how many pages went into them, the page cap, and whether the
/// listing is finished.
pub struct Paginator {
    ids: Vec<u64>,
    pages: u64,
    cap: u64,
    done: bool,
}

impl Paginator {
    /// The distinct identifiers collected so far, in first-seen order.
    pub closed spec fn spec_ids(&self) -> Seq<u64> {
        self.ids@
    }

    /// How many pages have been processed.
    pub closed spec fn spec_pages(&self) -> u64 {
        self.pages
    }

    /// The cap on pages processed in this listing.
    pub closed spec fn spec_cap(&self) -> u64 {
        self.cap
    }

    /// Whether the listing is finished.
    pub closed spec fn spec_done(&self) -> bool {
        self.done
    }

    /// The collected identifiers are distinct, and the page count stays
    /// under its cap until the listing is finished.
    pub closed spec fn wf(&self) -> bool {
        &&& self.ids@.no_duplicates()
        &&& 1 <= self.cap <= MAX_PAGES
        &&& self.pages <= self.cap
        &&& (!self.done ==> self.pages < self.cap)
    }

    /// The collected identifiers have set semantics: however often an
    /// identifier repeated within or across the pages fed in, it is held
    /// once, so the collection is as long as the set of its elements.
    pub proof fn lemma_ids_form_a_set(&self)
        requires
            self.wf(),
        ensures
            self.spec_ids().to_set().len() == self.spec_ids().len(),
    {
        self.spec_ids().unique_seq_to_set();
    }

    /// A fresh listing with the default page cap.
    pub fn new() -> (p: Paginator)
        ensures
            p.wf(),
            p.spec_ids() == Seq::<u64>::empty(),
            p.spec_pages() == 0,
            p.spec_cap() == MAX_PAGES,
            !p.spec_done(),
    {
        Paginator { ids: Vec::new(), pages: 0, cap: MAX_PAGES, done: false }
    }

    /// A fresh listing with an explicit page cap.
    pub fn with_page_cap(cap: u64) -> (p: Paginator)
        requires
            1 <= cap <= MAX_PAGES,
        ensures
            p.wf(),
            p.spec_ids() == Seq::<u64>::empty(),
            p.spec_pages() == 0,
            p.spec_cap() == cap,
            !p.spec_done(),
    {
        Paginator { ids: Vec::new(), pages: 0, cap, done: false }
    }

    /// Whether the listing is finished.
    pub fn done(&self) -> (b: bool)
        ensures
            b == self.spec_done(),
    {
        self.done
    }

    /// How many pages have been processed, which is also how many page
    /// requests the listing has consumed.
    pub fn pages_processed(&self) -> (n: u64)
        ensures
            n == self.spec_pages(),
    {
        self.pages
    }

    /// The `offset` query parameter for the next page request.
    pub fn next_offset(&self) -> (offset: u64)
        requires
            self.wf(),
            !self.spec_done(),
        ensures
            offset == self.spec_pages() * PAGE_SIZE,
    {
        self.pages * PAGE_SIZE
    }

    /// How many distinct identifiers have been collected.
    pub fn count(&self) -> (n: usize)
        ensures
            n == self.spec_ids().len(),
    {
        self.ids.len()
    }

    /// The distinct identifiers collected so far, in first-seen order.
    pub fn ids(&self) -> (ids: &Vec<u64>)
        ensures
            ids@ == self.spec_ids(),
    {
        &self.ids
    }

    /// Gives up the listing state for the collected identifiers.
    pub fn into_ids(self) -> (ids: Vec<u64>)
        ensures
            ids@ == self.spec_ids(),
    {
        self.ids
    }

    /// Folds one page of raw identifiers into the listing.
    ///
    /// Afterwards the collected identifiers are exactly the old ones
    /// together with the page's, still without duplicates, however often
    /// an identifier repeats within the page or across pages. The listing
    /// is finished exactly when the page carried fewer raw entries than
    /// `PAGE_SIZE` or the page cap is reached; a full page never finishes
    /// it early, whatever the cumulative total.
    #[verifier::loop_isolation(false)]
    pub fn process_page(&mut self, page: &Vec<u64>)
        requires
            old(self).wf(),
            !old(self).spec_done(),
        ensures
            final(self).wf(),
            final(self).spec_ids().no_duplicates(),
            forall|x: u64|
                final(self).spec_ids().contains(x) <==> (old(self).spec_ids().contains(x)
                    || page@.contains(x)),
            final(self).spec_pages() == old(self).spec_pages() + 1,
            final(self).spec_cap() == old(self).spec_cap(),
            (final(self).spec_done() <==> (page@.len() < PAGE_SIZE || old(self).spec_pages() + 1
                == old(self).spec_cap())),
    {
        let ghost prev = self.ids@;
        let mut i: usize = 0;
        while i < page.len()
            invariant
                i <= page@.len(),
                self.ids@.no_duplicates(),
                forall|y: u64| prev.contains(y) ==> self.ids@.contains(y),
                forall|j: int| 0 <= j < i ==> self.ids@.contains(page@[j]),
                forall|y: u64| self.ids@.contains(y) ==> (prev.contains(y) || page@.contains(y)),
                self.pages == old(self).pages,
                self.cap == old(self).cap,
                self.done == old(self).done,
            decreases page@.len() - i,
        {
            let x = page[i];
            let already = contains_id(&self.ids, x);
            let ghost before = self.ids@;
            if !already {
                self.ids.push(x);
                proof {
                    lemma_push_preserves_no_dup(before, x);
                }
            }
            proof {
                assert(self.ids@.contains(x)) by {
                    vstd::seq_lib::lemma_seq_contains_after_push(before, x, x);
                }
                assert forall|y: u64| prev.contains(y) implies self.ids@.contains(y) by {
                    vstd::seq_lib::lemma_seq_contains_after_push(before, x, y);
                }
                assert forall|j: int| 0 <= j < i as int + 1 implies self.ids@.contains(
                    page@[j],
                ) by {
                    vstd::seq_lib::lemma_seq_contains_after_push(before, x, page@[j]);
                }
                assert forall|y: u64|
                    self.ids@.contains(y) implies (prev.contains(y) || page@.contains(y)) by {
                    vstd::seq_lib::lemma_seq_contains_after_push(before, x, y);
                    assert(page@[i as int] == x);
                    assert(page@.contains(x));
                }
            }
            i += 1;
        }
        proof {
            assert forall|y: u64|
                self.ids@.contains(y) <==> (prev.contains(y) || page@.contains(y)) by {
                if page@.contains(y) {
                    let j = choose|j: int| 0 <= j < page@.len() && page@[j] == y;
                    assert(self.ids@.contains(page@[j]));
                }
            }
        }
        self.pages = self.pages + 1;
        if page.len() < PAGE_SIZE as usize {
            self.done = true;
        } else if self.pages == self.cap {
            self.done = true;
        }
    }
}

} // verus!
