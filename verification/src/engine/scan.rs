//! Searching a capture page by page.
use vstd::prelude::*;
use vstd::string::*;

use crate::engine::reading;
use crate::engine::reading::SearchPlan;
use crate::protocol::{SearchMode, SearchOutcome, MAX_SEARCH_SCAN};
use crate::storage::StoredLine;

verus! {

/// How many lines a scan reads at a time.
pub const SCAN_PAGE: u32 = 1000;

/// The lines that answer a query, in order.
pub open spec fn hits_of(mode: SearchMode, query: Seq<char>, lines: Seq<StoredLine>) -> Seq<
    StoredLine,
>
    decreases lines.len(),
{
    if lines.len() == 0 {
        Seq::empty()
    } else {
        let before = hits_of(mode, query, lines.drop_last());
        if reading::hits(mode, query, lines.last().payload@) {
            before.push(lines.last())
        } else {
            before
        }
    }
}

/// The first lines of a sequence, as many as are wanted.
pub open spec fn at_most(lines: Seq<StoredLine>, limit: u32) -> Seq<StoredLine> {
    if lines.len() <= limit {
        lines
    } else {
        lines.take(limit as int)
    }
}

/// How many lines of a page are still examined. A search for a substring has no
/// budget; the others stop after a number of lines.
pub open spec fn examined(mode: SearchMode, scanned: u64, page: nat) -> nat {
    if mode is Substring || scanned + page <= MAX_SEARCH_SCAN {
        page
    } else {
        (MAX_SEARCH_SCAN - scanned) as nat
    }
}

/// A search under way.
#[derive(Debug)]
pub struct Scan {
    /// What was found so far.
    pub results: Vec<StoredLine>,
    /// How many lines were examined, where there is a budget.
    pub scanned: u64,
}

/// How a search goes on.
#[derive(Debug)]
pub enum ScanStep {
    /// Read the next page, behind this line.
    More { after: i64 },
    /// This is what was found.
    Done(SearchOutcome),
}

impl Scan {
    /// The search is within its bounds.
    pub open spec fn wf(self, plan: SearchPlan) -> bool {
        &&& plan.wf()
        &&& self.results@.len() <= plan.limit
        &&& self.scanned <= MAX_SEARCH_SCAN
        &&& plan.mode is Substring ==> self.scanned == 0
    }

    /// A search that has examined nothing yet.
    pub fn new() -> (r: Scan)
        ensures
            r.results@.len() == 0,
            r.scanned == 0,
    {
        Scan { results: Vec::new(), scanned: 0 }
    }

    /// Examine a page of lines: those behind the last one examined, in order.
    /// An empty page is the end of the capture. The search is done when there is
    /// nothing left, when it has found as much as is wanted, or when it has used
    /// up its budget; only then may lines behind have gone unexamined.
    pub fn take(self, plan: &SearchPlan, page: Vec<StoredLine>) -> (r: (Scan, ScanStep))
        requires
            self.wf(*plan),
            plan.limit > 0,
        ensures
            ({
                let n = examined(plan.mode, self.scanned, page@.len());
                let all = at_most(
                    self.results@ + hits_of(plan.mode, plan.query@, page@.take(n as int)),
                    plan.limit,
                );
                match r.1 {
                    ScanStep::Done(outcome) => {
                        &&& page@.len() == 0 || all.len() == plan.limit || n < page@.len()
                        &&& outcome.results@ == all
                        &&& outcome.truncated == (all.len() < plan.limit && n < page@.len())
                    },
                    ScanStep::More { after } => {
                        &&& page@.len() > 0 && all.len() < plan.limit && n == page@.len()
                        &&& r.0.wf(*plan)
                        &&& r.0.results@ == all
                        &&& r.0.scanned == (if plan.mode is Substring {
                            0
                        } else {
                            self.scanned + n
                        })
                        &&& after == page@.last().id
                    },
                }
            }),
    {
        let mut results = self.results;
        let len: u64 = page.len() as u64;
        let counted = !matches!(plan.mode, SearchMode::Substring);
        let n: usize = if counted && len > MAX_SEARCH_SCAN - self.scanned {
            (MAX_SEARCH_SCAN - self.scanned) as usize
        } else {
            page.len()
        };
        let ghost had = results@;
        let ghost all = page@.take(n as int);
        let mut i: usize = 0;
        assert(had + hits_of(plan.mode, plan.query@, all.take(0)) =~= had);
        while i < n && results.len() < plan.limit as usize
            invariant
                i <= n <= page@.len(),
                all == page@.take(n as int),
                plan.wf(),
                results@ == had + hits_of(plan.mode, plan.query@, all.take(i as int)),
                results@.len() <= plan.limit,
            decreases n - i,
        {
            let line = &page[i];
            proof {
                assert(all.take(i + 1).drop_last() =~= all.take(i as int));
                assert(all.take(i + 1).last() == *line);
            }
            if plan.matches(line.payload.as_str()) {
                let ghost before = results@;
                results.push(line.clone());
                assert(results@ =~= before.push(*line));
            }
            assert(results@ =~= had + hits_of(plan.mode, plan.query@, all.take(i + 1)));
            i = i + 1;
        }
        proof {
            lemma_hits_prefix(plan.mode, plan.query@, all, i as int);
            let whole = had + hits_of(plan.mode, plan.query@, all);
            let part = had + hits_of(plan.mode, plan.query@, all.take(i as int));
            if i < n {
                assert(part.len() == plan.limit);
                assert(whole.take(plan.limit as int) =~= part);
            } else {
                assert(all.take(i as int) =~= all);
            }
            if whole.len() == plan.limit {
                assert(whole.take(plan.limit as int) =~= whole);
            }
            assert(results@ =~= at_most(whole, plan.limit));
        }
        let full = results.len() >= plan.limit as usize;
        if page.len() == 0 || full || n < page.len() {
            let truncated = !full && n < page.len();
            (
                Scan { results: Vec::new(), scanned: 0 },
                ScanStep::Done(SearchOutcome { results, truncated }),
            )
        } else {
            let after = page[page.len() - 1].id;
            let scanned = if counted {
                self.scanned + len
            } else {
                0
            };
            (Scan { results, scanned }, ScanStep::More { after })
        }
    }
}

/// What answers a query among the first lines comes first among what answers it
/// at all.
proof fn lemma_hits_prefix(mode: SearchMode, query: Seq<char>, lines: Seq<StoredLine>, k: int)
    requires
        0 <= k <= lines.len(),
    ensures
        hits_of(mode, query, lines.take(k)).len() <= hits_of(mode, query, lines).len(),
        hits_of(mode, query, lines).take(hits_of(mode, query, lines.take(k)).len() as int)
            == hits_of(mode, query, lines.take(k)),
    decreases lines.len() - k,
{
    let part = hits_of(mode, query, lines.take(k));
    let whole = hits_of(mode, query, lines);
    if k == lines.len() {
        assert(lines.take(k) =~= lines);
        assert(whole.take(part.len() as int) =~= part);
    } else {
        let shorter = lines.drop_last();
        assert(shorter.take(k) =~= lines.take(k));
        lemma_hits_prefix(mode, query, shorter, k);
        let before = hits_of(mode, query, shorter);
        assert(whole.take(part.len() as int) =~= before.take(part.len() as int));
    }
}

/// How a capture is cut into pages makes no difference to what a search finds.
pub proof fn the_page_size_makes_no_difference(
    mode: SearchMode,
    query: Seq<char>,
    a: Seq<StoredLine>,
    b: Seq<StoredLine>,
)
    ensures
        hits_of(mode, query, a + b) == hits_of(mode, query, a) + hits_of(mode, query, b),
    decreases b.len(),
{
    if b.len() == 0 {
        assert(a + b =~= a);
        assert(hits_of(mode, query, a) + hits_of(mode, query, b) =~= hits_of(mode, query, a));
    } else {
        let c = b.drop_last();
        the_page_size_makes_no_difference(mode, query, a, c);
        assert((a + b).drop_last() =~= a + c);
        assert((a + b).last() == b.last());
        assert(hits_of(mode, query, a + b) =~= hits_of(mode, query, a) + hits_of(mode, query, b));
    }
}

/// A line is found exactly when it is in the capture and answers the query: no
/// page boundary hides a match.
pub proof fn every_match_is_found(
    mode: SearchMode,
    query: Seq<char>,
    lines: Seq<StoredLine>,
    line: StoredLine,
)
    ensures
        hits_of(mode, query, lines).contains(line) <==> (lines.contains(line) && reading::hits(
            mode,
            query,
            line.payload@,
        )),
    decreases lines.len(),
{
    if lines.len() > 0 {
        let head = lines.drop_last();
        let before = hits_of(mode, query, head);
        let whole = hits_of(mode, query, lines);
        every_match_is_found(mode, query, head, line);
        if whole.contains(line) {
            let k = whole.index_of(line);
            if k < before.len() {
                assert(before[k] == line);
                let j = head.index_of(line);
                assert(lines[j] == line);
            } else {
                assert(lines[lines.len() - 1] == line);
            }
        }
        if lines.contains(line) && reading::hits(mode, query, line.payload@) {
            let j = lines.index_of(line);
            if j < head.len() {
                assert(head[j] == line);
                let k = before.index_of(line);
                assert(whole[k] == line);
            } else {
                assert(whole[before.len() as int] == line);
            }
        }
    }
}

} // verus!
