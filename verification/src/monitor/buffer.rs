//! The lines that a monitor window shows, and the filter on them.
use std::collections::VecDeque;

use vstd::prelude::*;
use vstd::string::*;

use crate::pattern;
use crate::pattern::{compile, is_match};
use crate::storage::StoredLine;
use crate::text;
use crate::text::{chars_of, contains, slice_of, to_lowercase};

verus! {

/// Maximum lines kept in the display buffer.
pub const MAX_DISPLAY_LINES: usize = 100_000;

/// A line in the display buffer.
#[derive(Debug, PartialEq, Eq)]
pub struct DisplayLine {
    pub timestamp: String,
    /// Raw ingestion timestamp, kept so an export of the visible buffer carries
    /// real times instead of blanks.
    pub timestamp_ns: i64,
    pub payload: String,
    pub is_sent: bool,
}

/// The lines that a window shows.
#[derive(Debug)]
pub struct DisplayBuffer {
    lines: VecDeque<DisplayLine>,
    filtered: Vec<usize>,
    filter: String,
    filter_active: bool,
}

/// The lines that a window shows, as a value of the model.
#[verifier::ext_equal]
pub struct BufferView {
    pub lines: Seq<DisplayLine>,
    /// The positions of the lines that pass the filter.
    pub filtered: Seq<usize>,
    pub filter: Seq<char>,
    pub filter_active: bool,
}

impl View for DisplayBuffer {
    type V = BufferView;

    closed spec fn view(&self) -> BufferView {
        BufferView {
            lines: self.lines@,
            filtered: self.filtered@,
            filter: self.filter@,
            filter_active: self.filter_active,
        }
    }
}

// ---------------------------------------------------------------------------
// The filter
// ---------------------------------------------------------------------------

/// The pattern of a filter that is written as `/pattern/`.
pub open spec fn filter_pattern(filter: Seq<char>) -> Option<Seq<char>> {
    if filter.len() > 2 && filter[0] == '/' && filter.last() == '/' {
        Some(filter.subrange(1, filter.len() - 1))
    } else {
        None
    }
}

/// Whether a line passes a filter: it matches the pattern where the filter is
/// one, else it holds the filter, whatever the case.
pub open spec fn passes(filter: Seq<char>, payload: Seq<char>) -> bool {
    match filter_pattern(filter) {
        Some(p) if pattern::pattern_fault(p) is None => pattern::pattern_hits(p, payload),
        _ => text::occurs_in(text::lowercase_of(payload), text::lowercase_of(filter)),
    }
}

/// The positions of the lines that pass a filter.
pub open spec fn hits(lines: Seq<DisplayLine>, filter: Seq<char>) -> Seq<usize>
    decreases lines.len(),
{
    if lines.len() == 0 {
        Seq::empty()
    } else {
        let before = hits(lines.drop_last(), filter);
        if passes(filter, lines.last().payload@) {
            before.push((lines.len() - 1) as usize)
        } else {
            before
        }
    }
}

/// A filter that is ready to be applied.
struct Filter {
    lower: String,
    regex: Option<regex::Regex>,
}

impl Filter {
    spec fn of(self, filter: Seq<char>) -> bool {
        &&& self.lower@ == text::lowercase_of(filter)
        &&& match (self.regex, filter_pattern(filter)) {
            (Some(re), Some(p)) => pattern::pattern_fault(p) is None && pattern::source_of(re) == p,
            (None, Some(p)) => pattern::pattern_fault(p) is Some,
            (None, None) => true,
            (Some(_), None) => false,
        }
    }

    fn new(filter: &str) -> (r: Filter)
        ensures
            r.of(filter@),
    {
        let c = chars_of(filter);
        let regex = if c.len() > 2 && c[0] == '/' && c[c.len() - 1] == '/' {
            let p = slice_of(c.as_slice(), 1, c.len() - 1);
            match compile(p.as_str()) {
                Ok(re) => Some(re),
                Err(_) => None,
            }
        } else {
            None
        };
        Filter { lower: to_lowercase(filter), regex }
    }

    fn lets_through(&self, payload: &str, Ghost(filter): Ghost<Seq<char>>) -> (r: bool)
        requires
            self.of(filter),
        ensures
            r == passes(filter, payload@),
    {
        match &self.regex {
            Some(re) => is_match(re, payload),
            None => contains(to_lowercase(payload).as_str(), self.lower.as_str()),
        }
    }
}

// ---------------------------------------------------------------------------
// The cap
// ---------------------------------------------------------------------------

/// Positions after the first line has left: that of the line is gone, every
/// other is one less.
pub open spec fn moved_up(filtered: Seq<usize>) -> Seq<usize>
    decreases filtered.len(),
{
    if filtered.len() == 0 {
        Seq::empty()
    } else if filtered.last() == 0 {
        moved_up(filtered.drop_last())
    } else {
        moved_up(filtered.drop_last()).push((filtered.last() - 1) as usize)
    }
}

fn move_up(filtered: &Vec<usize>) -> (r: Vec<usize>)
    ensures
        r@ == moved_up(filtered@),
{
    let mut out: Vec<usize> = Vec::new();
    let mut i: usize = 0;
    while i < filtered.len()
        invariant
            i <= filtered.len(),
            out@ == moved_up(filtered@.take(i as int)),
        decreases filtered.len() - i,
    {
        assert(filtered@.take(i + 1).drop_last() =~= filtered@.take(i as int));
        assert(filtered@.take(i + 1).last() == filtered@[i as int]);
        if filtered[i] != 0 {
            out.push(filtered[i] - 1);
        }
        i = i + 1;
    }
    assert(filtered@.take(filtered@.len() as int) =~= filtered@);
    out
}

impl BufferView {
    /// Whether the buffer is within its cap and every position is that of a
    /// line.
    pub open spec fn wf(self) -> bool {
        &&& self.lines.len() <= MAX_DISPLAY_LINES
        &&& forall|i: int| 0 <= i < self.filtered.len() ==> #[trigger] self.filtered[i]
            < self.lines.len()
    }

    /// The buffer with one line more; where it is full, its first line leaves.
    pub open spec fn pushed(self, line: DisplayLine) -> BufferView {
        let lines = self.lines.push(line);
        if lines.len() > MAX_DISPLAY_LINES {
            BufferView { lines: lines.skip(1), filtered: moved_up(self.filtered), ..self }
        } else {
            BufferView { lines, ..self }
        }
    }

    /// The buffer with the filter applied anew.
    pub open spec fn rebuilt(self) -> BufferView {
        BufferView {
            filtered: if self.filter_active && self.filter.len() > 0 {
                hits(self.lines, self.filter)
            } else {
                Seq::empty()
            },
            ..self
        }
    }

    /// The buffer with the filter applied anew, where one is active.
    pub open spec fn refreshed(self) -> BufferView {
        if self.filter_active {
            self.rebuilt()
        } else {
            self
        }
    }

    /// The buffer without lines.
    pub open spec fn cleared(self) -> BufferView {
        BufferView { lines: Seq::empty(), filtered: Seq::empty(), ..self }
    }

    /// The buffer with another filter.
    pub open spec fn filtered_by(self, filter: Seq<char>) -> BufferView {
        BufferView { filter, filter_active: filter.len() > 0, ..self }.rebuilt()
    }

    /// The positions of the lines that are shown.
    pub open spec fn shown(self) -> Seq<usize> {
        if self.filter_active {
            self.filtered
        } else {
            Seq::new(self.lines.len(), |i: int| i as usize)
        }
    }
}

/// The payloads of lines.
pub open spec fn payloads_of(lines: Seq<DisplayLine>) -> Seq<Seq<char>> {
    lines.map_values(|l: DisplayLine| l.payload@)
}

/// Captured lines as they are exported from the display.
pub open spec fn numbered(lines: Seq<DisplayLine>, out: Seq<StoredLine>) -> bool {
    &&& out.len() == lines.len()
    &&& forall|i: int|
        0 <= i < lines.len() ==> (#[trigger] out[i]).id == i + 1 && out[i].timestamp_ns
            == lines[i].timestamp_ns && out[i].payload@ == lines[i].payload@
}

impl DisplayBuffer {
    #[verifier::type_invariant]
    spec fn sound(self) -> bool {
        &&& self.lines@.len() <= MAX_DISPLAY_LINES
        &&& forall|i: int| 0 <= i < self.filtered@.len() ==> #[trigger] self.filtered@[i]
            < self.lines@.len()
    }

    /// A buffer without lines and without a filter.
    pub fn new() -> (r: DisplayBuffer)
        ensures
            r@ == (BufferView {
                lines: Seq::empty(),
                filtered: Seq::empty(),
                filter: Seq::empty(),
                filter_active: false,
            }),
            r@.wf(),
    {
        let r = DisplayBuffer {
            lines: VecDeque::new(),
            filtered: Vec::new(),
            filter: String::new(),
            filter_active: false,
        };
        assert(r@ =~= (BufferView {
            lines: Seq::empty(),
            filtered: Seq::empty(),
            filter: Seq::empty(),
            filter_active: false,
        }));
        r
    }

    /// Push one line into the display buffer, keeping it within its cap.
    pub fn push_display_line(&mut self, line: DisplayLine)
        ensures
            final(self)@ == old(self)@.pushed(line),
            final(self)@.wf(),
    {
        proof {
            use_type_invariant(&*self);
        }
        let ghost before = self@;
        let mut lines: VecDeque<DisplayLine> = VecDeque::new();
        let mut filtered: Vec<usize> = Vec::new();
        std::mem::swap(&mut filtered, &mut self.filtered);
        std::mem::swap(&mut lines, &mut self.lines);
        lines.push_back(line);
        if lines.len() > MAX_DISPLAY_LINES {
            let _ = lines.pop_front();
            filtered = move_up(&filtered);
            proof {
                lemma_moved_up(before.filtered, before.lines.len());
                assert(lines@ =~= before.lines.push(line).skip(1));
            }
        }
        std::mem::swap(&mut lines, &mut self.lines);
        std::mem::swap(&mut filtered, &mut self.filtered);
        assert(self@ =~= before.pushed(line));
    }

    /// Apply the filter anew.
    pub fn rebuild_filter(&mut self)
        ensures
            final(self)@ == old(self)@.rebuilt(),
            final(self)@.wf(),
    {
        proof {
            use_type_invariant(&*self);
        }
        let ghost before = self@;
        if !self.filter_active || self.filter.as_str().is_empty() {
            self.filtered = Vec::new();
            assert(self@ =~= before.rebuilt());
            return;
        }
        let filter = Filter::new(self.filter.as_str());
        let ghost f = self.filter@;
        let mut filtered: Vec<usize> = Vec::new();
        let mut i: usize = 0;
        while i < self.lines.len()
            invariant
                i <= self.lines@.len(),
                self.lines@ == before.lines,
                f == before.filter,
                filter.of(f),
                filtered@ == hits(before.lines.take(i as int), f),
            decreases self.lines@.len() - i,
        {
            proof {
                assert(before.lines.take(i + 1).drop_last() =~= before.lines.take(i as int));
                assert(before.lines.take(i + 1).last() == before.lines[i as int]);
            }
            if filter.lets_through(self.lines[i].payload.as_str(), Ghost(f)) {
                filtered.push(i);
            }
            i = i + 1;
        }
        proof {
            assert(before.lines.take(before.lines.len() as int) =~= before.lines);
            lemma_hits(before.lines, f);
        }
        self.filtered = filtered;
        assert(self@ =~= before.rebuilt());
    }

    /// Apply the filter anew, where one is active.
    pub fn refresh(&mut self)
        ensures
            final(self)@ == old(self)@.refreshed(),
            final(self)@.wf(),
    {
        proof {
            use_type_invariant(&*self);
        }
        if self.filter_active {
            self.rebuild_filter();
        }
    }

    /// Set the filter; an empty one is none.
    pub fn set_filter(&mut self, filter: &str)
        ensures
            final(self)@ == old(self)@.filtered_by(filter@),
            final(self)@.wf(),
    {
        proof {
            use_type_invariant(&*self);
        }
        self.filter = filter.to_owned();
        self.filter_active = !filter.is_empty();
        self.rebuild_filter();
    }

    /// Remove all lines from the display.
    pub fn clear(&mut self)
        ensures
            final(self)@ == old(self)@.cleared(),
            final(self)@.wf(),
    {
        proof {
            use_type_invariant(&*self);
        }
        let ghost before = self@;
        self.filtered = Vec::new();
        self.lines = VecDeque::new();
        assert(self@ =~= before.cleared());
    }

    /// Number of lines in the display.
    pub fn len(&self) -> (r: usize)
        ensures
            r == self@.lines.len(),
    {
        self.lines.len()
    }

    /// Number of lines that pass the filter.
    pub fn matches(&self) -> (r: usize)
        ensures
            r == self@.filtered.len(),
    {
        self.filtered.len()
    }

    /// The line at a position, where there is one.
    pub fn line(&self, i: usize) -> (r: Option<&DisplayLine>)
        ensures
            match r {
                Some(l) => i < self@.lines.len() && *l == self@.lines[i as int],
                None => i >= self@.lines.len(),
            },
    {
        if i < self.lines.len() {
            Some(&self.lines[i])
        } else {
            None
        }
    }

    /// The filter.
    pub fn filter(&self) -> (r: &str)
        ensures
            r@ == self@.filter,
    {
        self.filter.as_str()
    }

    /// Whether a filter is active.
    pub fn filter_active(&self) -> (r: bool)
        ensures
            r == self@.filter_active,
    {
        self.filter_active
    }

    /// The positions of the lines to show, in order.
    pub fn rows(&self) -> (r: Vec<usize>)
        ensures
            r@ == self@.shown(),
            forall|i: int| 0 <= i < r@.len() ==> #[trigger] r@[i] < self@.lines.len(),
    {
        proof {
            use_type_invariant(self);
        }
        let mut out: Vec<usize> = Vec::new();
        if self.filter_active {
            let mut i: usize = 0;
            while i < self.filtered.len()
                invariant
                    i <= self.filtered.len(),
                    out@ == self.filtered@.take(i as int),
                decreases self.filtered.len() - i,
            {
                out.push(self.filtered[i]);
                assert(self.filtered@.take(i + 1) =~= self.filtered@.take(i as int).push(
                    self.filtered@[i as int],
                ));
                i = i + 1;
            }
            assert(out@ =~= self@.shown());
        } else {
            let mut i: usize = 0;
            while i < self.lines.len()
                invariant
                    i <= self.lines@.len(),
                    out@.len() == i,
                    forall|j: int| 0 <= j < i ==> #[trigger] out@[j] == j,
                decreases self.lines@.len() - i,
            {
                out.push(i);
                i = i + 1;
            }
            assert(out@ =~= self@.shown());
        }
        out
    }

    /// All payloads, one per line.
    pub fn all_text(&self) -> (r: String)
        ensures
            r@ == text::joined(payloads_of(self@.lines), "\n"@),
    {
        let mut parts: Vec<String> = Vec::new();
        let mut i: usize = 0;
        while i < self.lines.len()
            invariant
                i <= self.lines@.len(),
                text::texts(parts@) == payloads_of(self.lines@.take(i as int)),
            decreases self.lines@.len() - i,
        {
            let ghost before = parts@;
            parts.push(self.lines[i].payload.clone());
            proof {
                assert(text::texts(parts@) =~= text::texts(before).push(
                    self.lines@[i as int].payload@,
                ));
                assert(payloads_of(self.lines@.take(i + 1)) =~= payloads_of(
                    self.lines@.take(i as int),
                ).push(self.lines@[i as int].payload@));
            }
            i = i + 1;
        }
        assert(self.lines@.take(self.lines@.len() as int) =~= self.lines@);
        text::join(&parts, "\n")
    }

    /// The payload of the latest line, where there is one.
    pub fn latest(&self) -> (r: Option<String>)
        ensures
            match r {
                Some(s) => self@.lines.len() > 0 && s@ == self@.lines.last().payload@,
                None => self@.lines.len() == 0,
            },
    {
        if self.lines.len() == 0 {
            None
        } else {
            Some(self.lines[self.lines.len() - 1].payload.clone())
        }
    }

    /// The lines of the display as records, numbered from one.
    pub fn records(&self) -> (r: Vec<StoredLine>)
        ensures
            numbered(self@.lines, r@),
    {
        proof {
            use_type_invariant(self);
        }
        let mut out: Vec<StoredLine> = Vec::new();
        let mut i: usize = 0;
        while i < self.lines.len()
            invariant
                self.lines@.len() <= MAX_DISPLAY_LINES,
                i <= self.lines@.len(),
                numbered(self.lines@.take(i as int), out@),
            decreases self.lines@.len() - i,
        {
            let line = &self.lines[i];
            out.push(
                StoredLine {
                    id: i as i64 + 1,
                    timestamp_ns: line.timestamp_ns,
                    payload: line.payload.clone(),
                },
            );
            i = i + 1;
        }
        assert(self.lines@.take(self.lines@.len() as int) =~= self.lines@);
        out
    }
}

// ---------------------------------------------------------------------------
// Laws
// ---------------------------------------------------------------------------

proof fn lemma_moved_up(filtered: Seq<usize>, len: nat)
    requires
        forall|i: int| 0 <= i < filtered.len() ==> #[trigger] filtered[i] < len,
    ensures
        forall|i: int| 0 <= i < moved_up(filtered).len() ==> #[trigger] moved_up(filtered)[i] + 1
            < len,
    decreases filtered.len(),
{
    if filtered.len() > 0 {
        let head = filtered.drop_last();
        assert forall|i: int| 0 <= i < head.len() implies #[trigger] head[i] < len by {
            assert(head[i] == filtered[i]);
        }
        lemma_moved_up(head, len);
        assert(filtered.last() == filtered[filtered.len() - 1]);
        let moved = moved_up(filtered);
        assert forall|i: int| 0 <= i < moved.len() implies #[trigger] moved[i] + 1 < len by {
            if i < moved_up(head).len() {
                assert(moved[i] == moved_up(head)[i]);
            }
        }
    }
}

proof fn lemma_hits(lines: Seq<DisplayLine>, filter: Seq<char>)
    requires
        lines.len() <= MAX_DISPLAY_LINES,
    ensures
        forall|i: int| 0 <= i < hits(lines, filter).len() ==> #[trigger] hits(lines, filter)[i]
            < lines.len(),
    decreases lines.len(),
{
    if lines.len() > 0 {
        let head = lines.drop_last();
        lemma_hits(head, filter);
        let all = hits(lines, filter);
        assert forall|i: int| 0 <= i < all.len() implies #[trigger] all[i] < lines.len() by {
            if i < hits(head, filter).len() {
                assert(all[i] == hits(head, filter)[i]);
            }
        }
    }
}

/// The filter shows exactly the lines that pass it: a position is shown if and
/// only if the line there passes.
pub proof fn filter_shows_what_passes(lines: Seq<DisplayLine>, filter: Seq<char>, k: int)
    requires
        0 <= k < lines.len() <= MAX_DISPLAY_LINES,
    ensures
        hits(lines, filter).contains(k as usize) <==> passes(filter, lines[k].payload@),
    decreases lines.len(),
{
    let before = hits(lines.drop_last(), filter);
    let all = hits(lines, filter);
    let last = (lines.len() - 1) as usize;
    lemma_hits(lines.drop_last(), filter);
    if k == last {
        if passes(filter, lines.last().payload@) {
            assert(all[all.len() - 1] == last);
        } else if all.contains(last) {
            let j = choose|j: int| 0 <= j < all.len() && all[j] == last;
            assert(before[j] < lines.drop_last().len());
        }
    } else {
        filter_shows_what_passes(lines.drop_last(), filter, k);
        if before.contains(k as usize) {
            let j = choose|j: int| 0 <= j < before.len() && before[j] == k as usize;
            assert(all[j] == k as usize);
        }
        if all.contains(k as usize) {
            let j = choose|j: int| 0 <= j < all.len() && all[j] == k as usize;
            assert(before[j] == k as usize);
        }
    }
}

/// When the first line leaves a full buffer, the positions go on denoting the
/// lines they denoted.
pub proof fn positions_keep_their_lines(
    lines: Seq<DisplayLine>,
    filtered: Seq<usize>,
    line: DisplayLine,
    k: int,
)
    requires
        0 < lines.len(),
        forall|i: int| 0 <= i < filtered.len() ==> #[trigger] filtered[i] < lines.len(),
        0 <= k < filtered.len(),
        filtered[k] != 0,
    ensures
        exists|j: int|
            0 <= j < moved_up(filtered).len() && lines.push(line).skip(1)[#[trigger] moved_up(
                filtered,
            )[j] as int] == lines[filtered[k] as int],
    decreases filtered.len(),
{
    let moved = moved_up(filtered);
    if k == filtered.len() - 1 {
        let j = moved.len() - 1;
        assert(moved[j] == filtered[k] - 1);
        assert(lines.push(line).skip(1)[moved[j] as int] == lines[filtered[k] as int]);
    } else {
        let head = filtered.drop_last();
        assert forall|i: int| 0 <= i < head.len() implies #[trigger] head[i] < lines.len() by {
            assert(head[i] == filtered[i]);
        }
        positions_keep_their_lines(lines, head, line, k);
        let j = choose|j: int|
            0 <= j < moved_up(head).len() && lines.push(line).skip(1)[#[trigger] moved_up(
                head,
            )[j] as int] == lines[head[k] as int];
        assert(moved[j] == moved_up(head)[j]);
    }
}

/// The buffer never holds more than its cap, and its last line is the one that
/// came last.
pub proof fn buffer_keeps_the_latest(b: BufferView, line: DisplayLine)
    requires
        b.wf(),
    ensures
        b.pushed(line).lines.len() <= MAX_DISPLAY_LINES,
        b.pushed(line).lines.last() == line,
{
}

} // verus!
