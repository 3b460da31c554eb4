//! Reconciliation of a target date against the published day index: which
//! id the date gets, and which published files have to be rewritten.

use crate::error::Error;
use crate::error::ErrorModel;
use crate::models::has_date;
use crate::models::highest_id;
use crate::models::index_well_formed;
use crate::models::lemma_highest_id_is_max;
use crate::models::lemma_lookup_first_match;
use crate::models::lookup;
use crate::models::DateEntryModel;
use crate::models::Days;
use crate::text::concat;
use crate::text::str_eq;
use vstd::prelude::*;
use vstd::string::StringExecFns;

verus! {

/// The storage key of the day index.
pub const INDEX_KEY: &'static str = "days.json";

/// The storage key of the pointer to the current day.
pub const TODAY_KEY: &'static str = "today.json";

/// The storage key of the day file of a date.
pub open spec fn day_key_of(date: Seq<char>) -> Seq<char> {
    "days/"@ + date + ".json"@
}

/// The storage key of the day file of a date: `days/<date>.json`.
pub fn day_key(date: &str) -> (r: String)
    ensures
        r@ == day_key_of(date@),
{
    let head = concat("days/", date);
    concat(head.as_str(), ".json")
}

/// The id of a date under an index: the id already issued to the date, or
/// else one more than the largest id issued so far (1 for an empty index),
/// which fails when that is no longer representable.
pub open spec fn resolved_id(entries: Seq<DateEntryModel>, date: Seq<char>) -> Result<
    u32,
    ErrorModel,
> {
    match lookup(entries, date) {
        Some(id) => Ok(id),
        None => if highest_id(entries) >= u32::MAX {
            Err(ErrorModel::Overflow)
        } else {
            Ok((highest_id(entries) + 1) as u32)
        },
    }
}

/// The index after a run for `date` with `id`: unchanged when the date was
/// there, one entry longer when it was not.
pub open spec fn recorded(entries: Seq<DateEntryModel>, date: Seq<char>, id: u32) -> Seq<
    DateEntryModel,
> {
    if has_date(entries, date) {
        entries
    } else {
        entries.push(DateEntryModel { date, id })
    }
}

/// Resolving is idempotent. Once a run for a date has recorded its id, a
/// second run for the date resolves to the same id, finds nothing to add
/// to the index, and leaves the index as it is.
pub proof fn lemma_resolve_id_idempotent(entries: Seq<DateEntryModel>, date: Seq<char>)
    ensures
        resolved_id(entries, date) matches Ok(id) ==> {
            let after = recorded(entries, date, id);
            &&& has_date(after, date)
            &&& resolved_id(after, date) == Ok::<u32, ErrorModel>(id)
            &&& recorded(after, date, id) == after
        },
        has_date(entries, date) ==> resolved_id(entries, date) is Ok && forall|id: u32|
            recorded(entries, date, id) == entries,
{
    lemma_lookup_first_match(entries, date);
    if let Ok(id) = resolved_id(entries, date) {
        let after = recorded(entries, date, id);
        if !has_date(entries, date) {
            lemma_lookup_appended(entries, date, id);
        }
    }
}

/// A date that is new to the index gets one more than the largest id in
/// it, and 1 when the index is empty. That id is larger than every id in
/// the index, so a well-formed index stays well formed when the date is
/// recorded with it.
pub proof fn lemma_new_date_gets_next_id(entries: Seq<DateEntryModel>, date: Seq<char>)
    requires
        !has_date(entries, date),
    ensures
        highest_id(entries) < u32::MAX ==> resolved_id(entries, date) == Ok::<u32, ErrorModel>(
            (highest_id(entries) + 1) as u32,
        ),
        highest_id(entries) >= u32::MAX ==> resolved_id(entries, date) == Err::<u32, ErrorModel>(
            ErrorModel::Overflow,
        ),
        entries.len() == 0 ==> resolved_id(entries, date) == Ok::<u32, ErrorModel>(1u32),
        resolved_id(entries, date) matches Ok(id) ==> {
            &&& forall|i: int| 0 <= i < entries.len() ==> (#[trigger] entries[i]).id < id
            &&& (index_well_formed(entries) ==> index_well_formed(recorded(entries, date, id)))
        },
{
    lemma_lookup_first_match(entries, date);
    lemma_highest_id_is_max(entries);
    if let Ok(id) = resolved_id(entries, date) {
        let after = recorded(entries, date, id);
        if index_well_formed(entries) {
            assert forall|i: int, j: int| 0 <= i < j < after.len() implies (#[trigger] after[i]).date
                != (#[trigger] after[j]).date && after[i].id != after[j].id by {
                assert(after[i] == entries[i]);
                if j < entries.len() {
                    assert(after[j] == entries[j]);
                } else {
                    assert(entries[i].date != date);
                    assert(entries[i].id < id);
                }
            }
        }
    }
}

/// After a new date is appended, looking the date up finds the appended id.
proof fn lemma_lookup_appended(entries: Seq<DateEntryModel>, date: Seq<char>, id: u32)
    requires
        !has_date(entries, date),
    ensures
        lookup(entries.push(DateEntryModel { date, id }), date) == Some(id),
        has_date(entries.push(DateEntryModel { date, id }), date),
{
    let after = entries.push(DateEntryModel { date, id });
    let n = entries.len() as int;
    assert(after[n].date == date);
    assert forall|j: int| 0 <= j < n implies (#[trigger] after[j]).date != date by {
        assert(after[j] == entries[j]);
    }
    assert(crate::models::is_first_match(after, date, n));
    lemma_lookup_first_match(after, date);
}

/// Decides ids and index updates for one run, over the index as it was
/// read at the start of the run.
#[derive(Debug)]
pub struct DayIndexReconciler {
    index: Days,
}

impl DayIndexReconciler {
    /// The entries of the index in hand.
    pub closed spec fn entries(&self) -> Seq<DateEntryModel> {
        self.index.entries()
    }

    /// A reconciler over the given index.
    pub fn new(index: Days) -> (r: Self)
        ensures
            r.entries() == index.entries(),
    {
        DayIndexReconciler { index }
    }

    /// A reconciler over what the attempt to load the index gave: the
    /// loaded index, or an empty one when it could not be read.
    pub fn from_load(loaded: Result<Days, Error>) -> (r: Self)
        ensures
            r.entries() == match loaded {
                Ok(index) => index.entries(),
                Err(_) => Seq::<DateEntryModel>::empty(),
            },
    {
        match loaded {
            Ok(index) => DayIndexReconciler { index },
            Err(_) => DayIndexReconciler { index: Days::new() },
        }
    }

    /// The index in hand.
    pub fn index(&self) -> (r: &Days)
        ensures
            r.entries() == self.entries(),
    {
        &self.index
    }

    /// Hands the index out.
    pub fn into_index(self) -> (r: Days)
        ensures
            r.entries() == self.entries(),
    {
        self.index
    }

    /// The id for the target date: the one already issued to it, or the
    /// next free one.
    pub fn resolve_id(&self, target_date: &str) -> (r: Result<u32, Error>)
        ensures
            match r {
                Ok(id) => resolved_id(self.entries(), target_date@) == Ok::<u32, ErrorModel>(id),
                Err(e) => resolved_id(self.entries(), target_date@) == Err::<u32, ErrorModel>(e@),
            },
    {
        match self.index.find_by_date(target_date) {
            Some(existing) => Ok(existing.id),
            None => {
                let highest: u32 = match self.index.max_id() {
                    Some(m) => m,
                    None => 0,
                };
                if highest == u32::MAX {
                    Err(Error::Overflow)
                } else {
                    Ok(highest + 1)
                }
            },
        }
    }

    /// Whether the index has to be rewritten after a run for the target
    /// date: only when the date is new to it.
    pub fn should_update_index(&self, target_date: &str) -> (r: bool)
        ensures
            r == !has_date(self.entries(), target_date@),
    {
        self.index.find_by_date(target_date).is_none()
    }

    /// Whether the pointer to the current day has to be rewritten: only
    /// when the target date is the current date.
    pub fn should_update_today_pointer(target_date: &str, today: &str) -> (r: bool)
        ensures
            r == (target_date@ == today@),
    {
        str_eq(target_date, today)
    }

    /// Records that the target date was published with `id`. The entry is
    /// added when the date is new; the answer says whether it was, and so
    /// whether the index has to be rewritten.
    pub fn record(&mut self, target_date: &str, id: u32) -> (r: bool)
        ensures
            r == !has_date(old(self).entries(), target_date@),
            final(self).entries() == recorded(old(self).entries(), target_date@, id),
    {
        if self.index.find_by_date(target_date).is_none() {
            self.index.add_day(String::from_str(target_date), id);
            true
        } else {
            false
        }
    }
}

} // verus!
