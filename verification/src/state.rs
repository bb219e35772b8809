//! What the state database holds between runs: the ports that were open, so that
//! they are opened again, and interface preferences.
use vstd::prelude::*;
use vstd::string::*;

use crate::config::PortConfig;
use crate::text::concat2;

verus! {

/// Errors from the state store.
#[derive(Debug)]
pub enum StateError {
    Sqlite(String),
    Io(String),
    Json(String),
}

impl StateError {
    /// The message of the error.
    pub open spec fn message(self) -> Seq<char> {
        match self {
            StateError::Sqlite(e) => "sqlite error: "@ + e@,
            StateError::Io(e) => "io error: "@ + e@,
            StateError::Json(e) => "json error: "@ + e@,
        }
    }

    /// The message of the error.
    pub fn to_string(&self) -> (r: String)
        ensures
            r@ == self.message(),
    {
        match self {
            StateError::Sqlite(e) => concat2("sqlite error: ", e.as_str()),
            StateError::Io(e) => concat2("io error: ", e.as_str()),
            StateError::Json(e) => concat2("json error: ", e.as_str()),
        }
    }
}

/// A port entry of the state database.
#[derive(Debug, Clone)]
pub struct PortEntry {
    pub name: String,
    pub config: PortConfig,
}

/// The entries that rows stand for: those whose configuration could be read, in
/// the order of the rows. One that could not, because another version wrote it,
/// is passed over rather than keeping the others from being restored.
pub open spec fn readable(rows: Seq<(String, Option<PortConfig>)>) -> Seq<PortEntry>
    decreases rows.len(),
{
    if rows.len() == 0 {
        Seq::empty()
    } else {
        let before = readable(rows.drop_last());
        match rows.last().1 {
            Some(config) => before.push(PortEntry { name: rows.last().0, config }),
            None => before,
        }
    }
}

/// The ports that were active, from the rows of the database. Each row is a name
/// and its configuration, where that could be read.
pub fn active_ports(rows: Vec<(String, Option<PortConfig>)>) -> (r: Vec<PortEntry>)
    ensures
        r@ == readable(rows@),
{
    let mut entries: Vec<PortEntry> = Vec::new();
    let mut i: usize = 0;
    assert(entries@ =~= readable(rows@.take(0)));
    while i < rows.len()
        invariant
            i <= rows@.len(),
            entries@ == readable(rows@.take(i as int)),
        decreases rows@.len() - i,
    {
        proof {
            assert(rows@.take(i + 1).drop_last() =~= rows@.take(i as int));
            assert(rows@.take(i + 1).last() == rows@[i as int]);
        }
        let row = &rows[i];
        match row.1 {
            Some(config) => {
                entries.push(PortEntry { name: row.0.clone(), config });
            },
            None => {},
        }
        i = i + 1;
    }
    assert(rows@.take(rows@.len() as int) =~= rows@);
    entries
}

/// Every port whose row could be read is restored, whatever the other rows hold.
pub proof fn an_unreadable_row_hides_no_other(rows: Seq<(String, Option<PortConfig>)>, i: int)
    requires
        0 <= i < rows.len(),
        rows[i].1 is Some,
    ensures
        readable(rows).contains(PortEntry { name: rows[i].0, config: rows[i].1->0 }),
    decreases rows.len(),
{
    let entry = PortEntry { name: rows[i].0, config: rows[i].1->0 };
    let before = readable(rows.drop_last());
    if i == rows.len() - 1 {
        assert(readable(rows)[before.len() as int] == entry);
    } else {
        assert(rows.drop_last()[i] == rows[i]);
        an_unreadable_row_hides_no_other(rows.drop_last(), i);
        let k = before.index_of(entry);
        assert(readable(rows)[k] == entry);
    }
}

} // verus!
