//! The run of one day as a state machine: the target date, the day index,
//! the generation of the day, and the publication of the day file, the
//! index and the pointer to the current day.
//!
//! The machine decides; its driver performs each [`RunAction`] and reports
//! the outcome as the next [`RunEvent`].

use crate::error::Error;
use crate::error::ErrorModel;
use crate::models::has_date;
use crate::models::DateEntryModel;
use crate::models::Day;
use crate::models::DayModel;
use crate::models::Days;
use crate::reconcile::day_key;
use crate::reconcile::day_key_of;
use crate::reconcile::recorded;
use crate::reconcile::resolved_id;
use crate::reconcile::DayIndexReconciler;
use crate::reconcile::INDEX_KEY;
use crate::reconcile::TODAY_KEY;
use crate::text::concat;
use vstd::prelude::*;
use vstd::string::StringExecFns;

verus! {

/// The content type of every published JSON file.
pub const JSON_CONTENT_TYPE: &'static str = "application/json";

/// Where a run stands.
#[derive(Debug, PartialEq, Eq)]
pub enum RunState {
    /// No target date was given; waiting for the current date.
    ResolvingDate,
    /// Waiting for the published day index.
    LoadingIndex { date: String },
    /// Waiting for the generated day.
    Generating { date: String, id: u32, index: Days },
    /// Waiting for the JSON text of the day.
    EncodingDay { date: String, id: u32, index: Days },
    /// Waiting for the upload of the day file.
    UploadingDay { date: String, id: u32, index: Days, day_json: String },
    /// Waiting for the local copy of the day file.
    WritingLocalCopy { date: String, id: u32, index: Days, day_json: String },
    /// The date was new; waiting for the JSON text of the longer index.
    EncodingIndex { date: String, day_json: String },
    /// Waiting for the upload of the index.
    UploadingIndex { date: String, day_json: String },
    /// Waiting for the current date, to decide on the pointer.
    CheckingToday { date: String, day_json: String },
    /// Waiting for the upload of the pointer to the current day.
    UploadingToday,
    /// The run succeeded.
    Finished,
    /// The run failed.
    Failed,
}

/// Mathematical value of a [`RunState`].
pub enum RunStateModel {
    ResolvingDate,
    LoadingIndex { date: Seq<char> },
    Generating { date: Seq<char>, id: u32, index: Seq<DateEntryModel> },
    EncodingDay { date: Seq<char>, id: u32, index: Seq<DateEntryModel> },
    UploadingDay { date: Seq<char>, id: u32, index: Seq<DateEntryModel>, day_json: Seq<char> },
    WritingLocalCopy { date: Seq<char>, id: u32, index: Seq<DateEntryModel>, day_json: Seq<char> },
    EncodingIndex { date: Seq<char>, day_json: Seq<char> },
    UploadingIndex { date: Seq<char>, day_json: Seq<char> },
    CheckingToday { date: Seq<char>, day_json: Seq<char> },
    UploadingToday,
    Finished,
    Failed,
}

impl View for RunState {
    type V = RunStateModel;

    open spec fn view(&self) -> RunStateModel {
        match self {
            RunState::ResolvingDate => RunStateModel::ResolvingDate,
            RunState::LoadingIndex { date } => RunStateModel::LoadingIndex { date: date@ },
            RunState::Generating { date, id, index } => RunStateModel::Generating {
                date: date@,
                id: *id,
                index: index.entries(),
            },
            RunState::EncodingDay { date, id, index } => RunStateModel::EncodingDay {
                date: date@,
                id: *id,
                index: index.entries(),
            },
            RunState::UploadingDay { date, id, index, day_json } => RunStateModel::UploadingDay {
                date: date@,
                id: *id,
                index: index.entries(),
                day_json: day_json@,
            },
            RunState::WritingLocalCopy {
                date,
                id,
                index,
                day_json,
            } => RunStateModel::WritingLocalCopy {
                date: date@,
                id: *id,
                index: index.entries(),
                day_json: day_json@,
            },
            RunState::EncodingIndex { date, day_json } => RunStateModel::EncodingIndex {
                date: date@,
                day_json: day_json@,
            },
            RunState::UploadingIndex { date, day_json } => RunStateModel::UploadingIndex {
                date: date@,
                day_json: day_json@,
            },
            RunState::CheckingToday { date, day_json } => RunStateModel::CheckingToday {
                date: date@,
                day_json: day_json@,
            },
            RunState::UploadingToday => RunStateModel::UploadingToday,
            RunState::Finished => RunStateModel::Finished,
            RunState::Failed => RunStateModel::Failed,
        }
    }
}

/// What the surroundings of a run reported back.
#[derive(Debug, PartialEq, Eq)]
pub enum RunEvent {
    /// The current local date, as `YYYY-MM-DD`.
    Today(String),
    /// The published day index was read.
    IndexLoaded(Days),
    /// The day was generated.
    DayGenerated(Day),
    /// The JSON text that was asked for.
    Encoded(String),
    /// The store accepted the upload.
    Uploaded,
    /// The local copy was written.
    LocalCopyWritten,
    /// The action that was asked for failed.
    Failed(Error),
}

/// Mathematical value of a [`RunEvent`].
pub enum RunEventModel {
    Today(Seq<char>),
    IndexLoaded(Seq<DateEntryModel>),
    DayGenerated(DayModel),
    Encoded(Seq<char>),
    Uploaded,
    LocalCopyWritten,
    Failed(ErrorModel),
}

impl View for RunEvent {
    type V = RunEventModel;

    open spec fn view(&self) -> RunEventModel {
        match self {
            RunEvent::Today(date) => RunEventModel::Today(date@),
            RunEvent::IndexLoaded(index) => RunEventModel::IndexLoaded(index.entries()),
            RunEvent::DayGenerated(day) => RunEventModel::DayGenerated(day@),
            RunEvent::Encoded(json) => RunEventModel::Encoded(json@),
            RunEvent::Uploaded => RunEventModel::Uploaded,
            RunEvent::LocalCopyWritten => RunEventModel::LocalCopyWritten,
            RunEvent::Failed(e) => RunEventModel::Failed(e@),
        }
    }
}

/// What the driver of a run has to do next.
#[derive(Debug, PartialEq, Eq)]
pub enum RunAction {
    /// Read the current local date.
    AskToday,
    /// Read the published day index.
    LoadIndex,
    /// Generate the day of the date under the id.
    GenerateDay { date: String, id: u32 },
    /// Write the day as JSON text.
    EncodeDay(Day),
    /// Write the index as JSON text.
    EncodeIndex(Days),
    /// Upload the text under the key.
    Upload { key: String, body: String, content_type: String },
    /// Write the text to the local file.
    WriteLocalCopy { path: String, contents: String },
    /// The run is done.
    Finish,
    /// The run failed with this error.
    Fail(Error),
}

/// Mathematical value of a [`RunAction`].
pub enum RunActionModel {
    AskToday,
    LoadIndex,
    GenerateDay { date: Seq<char>, id: u32 },
    EncodeDay(DayModel),
    EncodeIndex(Seq<DateEntryModel>),
    Upload { key: Seq<char>, body: Seq<char>, content_type: Seq<char> },
    WriteLocalCopy { path: Seq<char>, contents: Seq<char> },
    Finish,
    Fail(ErrorModel),
}

impl View for RunAction {
    type V = RunActionModel;

    open spec fn view(&self) -> RunActionModel {
        match self {
            RunAction::AskToday => RunActionModel::AskToday,
            RunAction::LoadIndex => RunActionModel::LoadIndex,
            RunAction::GenerateDay { date, id } => RunActionModel::GenerateDay {
                date: date@,
                id: *id,
            },
            RunAction::EncodeDay(day) => RunActionModel::EncodeDay(day@),
            RunAction::EncodeIndex(index) => RunActionModel::EncodeIndex(index.entries()),
            RunAction::Upload { key, body, content_type } => RunActionModel::Upload {
                key: key@,
                body: body@,
                content_type: content_type@,
            },
            RunAction::WriteLocalCopy { path, contents } => RunActionModel::WriteLocalCopy {
                path: path@,
                contents: contents@,
            },
            RunAction::Finish => RunActionModel::Finish,
            RunAction::Fail(e) => RunActionModel::Fail(e@),
        }
    }
}

/// The local path of a day's JSON copy: the date with `.json`, in the
/// output directory.
pub open spec fn local_copy_path(output_dir: Seq<char>, date: Seq<char>) -> Seq<char> {
    output_dir + "/"@ + date + ".json"@
}

/// The local path of a day's JSON copy.
pub fn local_copy(output_dir: &str, date: &str) -> (r: String)
    ensures
        r@ == local_copy_path(output_dir@, date@),
{
    let path = concat(output_dir, "/");
    let path = concat(path.as_str(), date);
    concat(path.as_str(), ".json")
}

/// The upload of a JSON text under a key.
pub open spec fn json_upload(key: Seq<char>, body: Seq<char>) -> RunActionModel {
    RunActionModel::Upload { key, body, content_type: JSON_CONTENT_TYPE@ }
}

/// The answer to an event that the state does not wait for.
pub open spec fn run_violation() -> (RunStateModel, RunActionModel) {
    (
        RunStateModel::Failed,
        RunActionModel::Fail(ErrorModel::Invariant("unexpected event for the run state"@)),
    )
}

/// What follows once the index is in hand: the date keeps the id that the
/// index holds for it or gets the next free one, and the day is generated
/// under it. An id space that is used up fails the run.
pub open spec fn after_index(date: Seq<char>, index: Seq<DateEntryModel>) -> (
    RunStateModel,
    RunActionModel,
) {
    match resolved_id(index, date) {
        Ok(id) => (
            RunStateModel::Generating { date, id, index },
            RunActionModel::GenerateDay { date, id },
        ),
        Err(e) => (RunStateModel::Failed, RunActionModel::Fail(e)),
    }
}

/// What follows once the target date is known: a dry run goes on with an
/// empty index, any other run loads the published one.
pub open spec fn after_date(dry_run: bool, date: Seq<char>) -> (RunStateModel, RunActionModel) {
    if dry_run {
        after_index(date, Seq::empty())
    } else {
        (RunStateModel::LoadingIndex { date }, RunActionModel::LoadIndex)
    }
}

/// The first state and action of a run: without a target date the current
/// date is asked for.
pub open spec fn run_begin(dry_run: bool, target_date: Option<Seq<char>>) -> (
    RunStateModel,
    RunActionModel,
) {
    match target_date {
        Some(date) => after_date(dry_run, date),
        None => (RunStateModel::ResolvingDate, RunActionModel::AskToday),
    }
}

/// What follows the local copy, written or not: the index is rewritten
/// when the date is new to it, and else the pointer is looked at.
pub open spec fn after_local_copy(
    date: Seq<char>,
    id: u32,
    index: Seq<DateEntryModel>,
    day_json: Seq<char>,
) -> (RunStateModel, RunActionModel) {
    if has_date(index, date) {
        (RunStateModel::CheckingToday { date, day_json }, RunActionModel::AskToday)
    } else {
        (
            RunStateModel::EncodingIndex { date, day_json },
            RunActionModel::EncodeIndex(recorded(index, date, id)),
        )
    }
}

/// What follows the look at the current date: the pointer is rewritten
/// with the day's JSON text when the target date is the current date, and
/// else the run ends.
pub open spec fn after_today(date: Seq<char>, day_json: Seq<char>, today: Seq<char>) -> (
    RunStateModel,
    RunActionModel,
) {
    if date == today {
        (RunStateModel::UploadingToday, json_upload(TODAY_KEY@, day_json))
    } else {
        (RunStateModel::Finished, RunActionModel::Finish)
    }
}

/// The transition function of a run: the state and the action that follow
/// when `event` arrives in `state`.
///
/// An index that cannot be loaded counts as empty, and a local copy that
/// cannot be written is done without. Any other failure ends the run with
/// its error. An event that the state does not wait for, and any event
/// after the end, ends it with an invariant error.
pub open spec fn run_next(
    output_dir: Seq<char>,
    dry_run: bool,
    state: RunStateModel,
    event: RunEventModel,
) -> (RunStateModel, RunActionModel) {
    match (state, event) {
        (RunStateModel::Finished, _) => run_violation(),
        (RunStateModel::Failed, _) => run_violation(),
        (RunStateModel::LoadingIndex { date }, RunEventModel::Failed(_)) => after_index(
            date,
            Seq::empty(),
        ),
        (
            RunStateModel::WritingLocalCopy { date, id, index, day_json },
            RunEventModel::Failed(_),
        ) => after_local_copy(date, id, index, day_json),
        (_, RunEventModel::Failed(error)) => (RunStateModel::Failed, RunActionModel::Fail(error)),
        (RunStateModel::ResolvingDate, RunEventModel::Today(today)) => after_date(dry_run, today),
        (RunStateModel::LoadingIndex { date }, RunEventModel::IndexLoaded(index)) => after_index(
            date,
            index,
        ),
        (RunStateModel::Generating { date, id, index }, RunEventModel::DayGenerated(day)) => (
            RunStateModel::EncodingDay { date, id, index },
            RunActionModel::EncodeDay(day),
        ),
        (RunStateModel::EncodingDay { date, id, index }, RunEventModel::Encoded(json)) => (
            RunStateModel::UploadingDay { date, id, index, day_json: json },
            json_upload(day_key_of(date), json),
        ),
        (RunStateModel::UploadingDay { date, id, index, day_json }, RunEventModel::Uploaded) => (
            RunStateModel::WritingLocalCopy { date, id, index, day_json },
            RunActionModel::WriteLocalCopy {
                path: local_copy_path(output_dir, date),
                contents: day_json,
            },
        ),
        (
            RunStateModel::WritingLocalCopy { date, id, index, day_json },
            RunEventModel::LocalCopyWritten,
        ) => after_local_copy(date, id, index, day_json),
        (RunStateModel::EncodingIndex { date, day_json }, RunEventModel::Encoded(json)) => (
            RunStateModel::UploadingIndex { date, day_json },
            json_upload(INDEX_KEY@, json),
        ),
        (RunStateModel::UploadingIndex { date, day_json }, RunEventModel::Uploaded) => (
            RunStateModel::CheckingToday { date, day_json },
            RunActionModel::AskToday,
        ),
        (RunStateModel::CheckingToday { date, day_json }, RunEventModel::Today(today)) => after_today(
            date,
            day_json,
            today,
        ),
        (RunStateModel::UploadingToday, RunEventModel::Uploaded) => (
            RunStateModel::Finished,
            RunActionModel::Finish,
        ),
        _ => run_violation(),
    }
}

/// The state that a run is in after the events, and the actions that it
/// has given, its first action included.
pub open spec fn run_trace(
    output_dir: Seq<char>,
    dry_run: bool,
    target_date: Option<Seq<char>>,
    events: Seq<RunEventModel>,
) -> (RunStateModel, Seq<RunActionModel>)
    decreases events.len(),
{
    if events.len() == 0 {
        (run_begin(dry_run, target_date).0, seq![run_begin(dry_run, target_date).1])
    } else {
        let before = run_trace(output_dir, dry_run, target_date, events.drop_last());
        let step = run_next(output_dir, dry_run, before.0, events.last());
        (step.0, before.1.push(step.1))
    }
}

/// The uploads among the actions, in order: each with its key and text.
pub open spec fn published(actions: Seq<RunActionModel>) -> Seq<(Seq<char>, Seq<char>)>
    decreases actions.len(),
{
    if actions.len() == 0 {
        Seq::empty()
    } else {
        match actions.last() {
            RunActionModel::Upload { key, body, .. } => published(actions.drop_last()).push(
                (key, body),
            ),
            _ => published(actions.drop_last()),
        }
    }
}

/// Every upload after the first is the index, or the pointer with the
/// text of the first upload.
pub open spec fn follows_day_file(uploads: Seq<(Seq<char>, Seq<char>)>) -> bool {
    forall|i: int|
        1 <= i < uploads.len() ==> (#[trigger] uploads[i]).0 == INDEX_KEY@ || uploads[i] == (
            TODAY_KEY@,
            uploads[0].1,
        )
}

/// The uploads made so far agree with where the run stands.
pub open spec fn publication_agrees(state: RunStateModel, uploads: Seq<(Seq<char>, Seq<char>)>)
    -> bool {
    match state {
        RunStateModel::ResolvingDate => uploads.len() == 0,
        RunStateModel::LoadingIndex { .. } => uploads.len() == 0,
        RunStateModel::Generating { .. } => uploads.len() == 0,
        RunStateModel::EncodingDay { .. } => uploads.len() == 0,
        RunStateModel::UploadingDay { date, day_json, .. } => uploads == seq![
            (day_key_of(date), day_json),
        ],
        RunStateModel::WritingLocalCopy { date, day_json, .. } => uploads == seq![
            (day_key_of(date), day_json),
        ],
        RunStateModel::EncodingIndex { date, day_json } => uploads == seq![
            (day_key_of(date), day_json),
        ],
        RunStateModel::UploadingIndex { date, day_json } => uploads.len() == 2 && uploads[0] == (
            day_key_of(date),
            day_json,
        ) && uploads[1].0 == INDEX_KEY@,
        RunStateModel::CheckingToday { date, day_json } => 1 <= uploads.len() <= 2 && uploads[0]
            == (day_key_of(date), day_json) && (uploads.len() == 2 ==> uploads[1].0
            == INDEX_KEY@),
        RunStateModel::UploadingToday => 2 <= uploads.len() <= 3 && follows_day_file(uploads),
        RunStateModel::Finished => 1 <= uploads.len() <= 3 && follows_day_file(uploads),
        RunStateModel::Failed => uploads.len() <= 3 && follows_day_file(uploads),
    }
}

/// What a run publishes. Whatever events arrive, a run uploads at most
/// three files, a finished run has uploaded at least its day file, and
/// every upload of the pointer to the current day carries exactly the text
/// that the run uploaded first, as its day file.
pub proof fn lemma_pointer_carries_day_file(
    output_dir: Seq<char>,
    dry_run: bool,
    target_date: Option<Seq<char>>,
    events: Seq<RunEventModel>,
)
    ensures
        ({
            let end = run_trace(output_dir, dry_run, target_date, events);
            let uploads = published(end.1);
            &&& publication_agrees(end.0, uploads)
            &&& uploads.len() <= 3
            &&& (end.0 is Finished ==> uploads.len() >= 1)
            &&& forall|i: int|
                1 <= i < uploads.len() && (#[trigger] uploads[i]).0 == TODAY_KEY@ ==> uploads[i].1
                    == uploads[0].1
        }),
    decreases events.len(),
{
    reveal_strlit("days.json");
    reveal_strlit("today.json");
    assert(INDEX_KEY@ != TODAY_KEY@) by {
        assert(INDEX_KEY@[0] == 'd');
        assert(TODAY_KEY@[0] == 't');
    }
    let begin = run_begin(dry_run, target_date);
    if events.len() == 0 {
        let first = seq![begin.1];
        assert(first.drop_last() =~= Seq::<RunActionModel>::empty());
        assert(first.last() == begin.1);
        assert(published(first.drop_last()) =~= Seq::<(Seq<char>, Seq<char>)>::empty());
        assert(!(begin.1 is Upload));
        assert(published(first) =~= Seq::<(Seq<char>, Seq<char>)>::empty());
    } else {
        lemma_pointer_carries_day_file(output_dir, dry_run, target_date, events.drop_last());
        let before = run_trace(output_dir, dry_run, target_date, events.drop_last());
        let step = run_next(output_dir, dry_run, before.0, events.last());
        let actions = before.1.push(step.1);
        let earlier = published(before.1);
        assert(actions.drop_last() =~= before.1);
        assert(actions.last() == step.1);
        let uploads = published(actions);
        match step.1 {
            RunActionModel::Upload { key, body, .. } => {
                assert(uploads == earlier.push((key, body)));
                assert forall|i: int| 0 <= i < earlier.len() implies uploads[i] == earlier[i] by {}
                assert(uploads[earlier.len() as int] == (key, body));
                if earlier.len() == 0 {
                    assert(uploads =~= seq![(key, body)]);
                }
            },
            _ => {
                assert(uploads == earlier);
            },
        }
        match before.0 {
            RunStateModel::UploadingDay { .. } => {
                assert(follows_day_file(earlier));
            },
            RunStateModel::WritingLocalCopy { .. } => {
                assert(follows_day_file(earlier));
            },
            RunStateModel::EncodingIndex { .. } => {
                assert(follows_day_file(earlier));
            },
            RunStateModel::UploadingIndex { .. } => {
                assert(follows_day_file(earlier));
            },
            RunStateModel::CheckingToday { .. } => {
                assert(follows_day_file(earlier));
            },
            _ => {},
        }
        match step.0 {
            RunStateModel::UploadingToday => {
                assert forall|i: int| 1 <= i < uploads.len() implies (#[trigger] uploads[i]).0
                    == INDEX_KEY@ || uploads[i] == (TODAY_KEY@, uploads[0].1) by {
                    if i < earlier.len() {
                        assert(uploads[i] == earlier[i]);
                    }
                }
            },
            RunStateModel::Finished => {
                assert(follows_day_file(uploads));
            },
            RunStateModel::Failed => {
                assert(follows_day_file(uploads));
            },
            _ => {},
        }
        assert(publication_agrees(step.0, uploads));
    }
}

/// The largest number of events that a run can still take.
pub open spec fn run_steps_left(state: RunStateModel) -> nat {
    match state {
        RunStateModel::ResolvingDate => 11,
        RunStateModel::LoadingIndex { .. } => 10,
        RunStateModel::Generating { .. } => 9,
        RunStateModel::EncodingDay { .. } => 8,
        RunStateModel::UploadingDay { .. } => 7,
        RunStateModel::WritingLocalCopy { .. } => 6,
        RunStateModel::EncodingIndex { .. } => 5,
        RunStateModel::UploadingIndex { .. } => 4,
        RunStateModel::CheckingToday { .. } => 3,
        RunStateModel::UploadingToday => 2,
        RunStateModel::Finished => 0,
        RunStateModel::Failed => 0,
    }
}

/// The run has ended.
pub open spec fn run_is_over(state: RunStateModel) -> bool {
    state is Finished || state is Failed
}

/// Every run ends: each event leads to a state with fewer events left,
/// and the last action is given exactly on entering a final state.
pub proof fn lemma_run_ends(
    output_dir: Seq<char>,
    dry_run: bool,
    state: RunStateModel,
    event: RunEventModel,
)
    ensures
        !run_is_over(state) ==> run_steps_left(run_next(output_dir, dry_run, state, event).0)
            < run_steps_left(state),
        run_next(output_dir, dry_run, state, event).1 is Finish <==> run_next(
            output_dir,
            dry_run,
            state,
            event,
        ).0 is Finished,
        run_next(output_dir, dry_run, state, event).1 is Fail <==> run_next(
            output_dir,
            dry_run,
            state,
            event,
        ).0 is Failed,
{
}

/// The pointer to the current day follows the target date. When the
/// current date is the target date, the pointer is rewritten with exactly
/// the JSON text of the day file; for any other date nothing is uploaded
/// and the run ends.
pub proof fn lemma_today_pointer_follows_date(
    output_dir: Seq<char>,
    dry_run: bool,
    date: Seq<char>,
    day_json: Seq<char>,
    today: Seq<char>,
)
    ensures
        ({
            let after = run_next(
                output_dir,
                dry_run,
                RunStateModel::CheckingToday { date, day_json },
                RunEventModel::Today(today),
            );
            &&& today == date ==> after.1 == json_upload(TODAY_KEY@, day_json)
            &&& today != date ==> after.1 == RunActionModel::Finish && after.0
                == RunStateModel::Finished
        }),
{
}

/// The index is rewritten only for a date that is new to it, and then
/// with the date added under its id; for a date that the index holds, the
/// run goes straight on to the pointer.
pub proof fn lemma_index_rewritten_only_for_new_date(
    output_dir: Seq<char>,
    dry_run: bool,
    date: Seq<char>,
    id: u32,
    index: Seq<DateEntryModel>,
    day_json: Seq<char>,
)
    ensures
        ({
            let after = run_next(
                output_dir,
                dry_run,
                RunStateModel::WritingLocalCopy { date, id, index, day_json },
                RunEventModel::LocalCopyWritten,
            );
            &&& has_date(index, date) ==> after.1 == RunActionModel::AskToday
            &&& !has_date(index, date) ==> after.1 == RunActionModel::EncodeIndex(
                index.push(DateEntryModel { date, id }),
            )
        }),
{
}

fn violation() -> (r: (RunState, RunAction))
    ensures
        (r.0@, r.1@) == run_violation(),
{
    (
        RunState::Failed,
        RunAction::Fail(Error::Invariant(String::from_str("unexpected event for the run state"))),
    )
}

fn json_upload_action(key: String, body: String) -> (r: RunAction)
    ensures
        r@ == json_upload(key@, body@),
{
    RunAction::Upload { key, body, content_type: String::from_str(JSON_CONTENT_TYPE) }
}

fn proceed_with_index(date: String, index: Days) -> (r: (RunState, RunAction))
    ensures
        (r.0@, r.1@) == after_index(date@, index.entries()),
{
    let reconciler = DayIndexReconciler::new(index);
    match reconciler.resolve_id(date.as_str()) {
        Ok(id) => {
            let action = RunAction::GenerateDay { date: date.clone(), id };
            (RunState::Generating { date, id, index: reconciler.into_index() }, action)
        },
        Err(e) => (RunState::Failed, RunAction::Fail(e)),
    }
}

fn proceed_with_date(dry_run: bool, date: String) -> (r: (RunState, RunAction))
    ensures
        (r.0@, r.1@) == after_date(dry_run, date@),
{
    if dry_run {
        proceed_with_index(date, Days::new())
    } else {
        (RunState::LoadingIndex { date }, RunAction::LoadIndex)
    }
}

fn proceed_after_local_copy(date: String, id: u32, index: Days, day_json: String) -> (r: (
    RunState,
    RunAction,
))
    ensures
        (r.0@, r.1@) == after_local_copy(date@, id, index.entries(), day_json@),
{
    let mut reconciler = DayIndexReconciler::new(index);
    if reconciler.record(date.as_str(), id) {
        (
            RunState::EncodingIndex { date, day_json },
            RunAction::EncodeIndex(reconciler.into_index()),
        )
    } else {
        (RunState::CheckingToday { date, day_json }, RunAction::AskToday)
    }
}

/// One run under way.
#[derive(Debug)]
pub struct RunMachine {
    output_dir: String,
    dry_run: bool,
    state: RunState,
}

impl RunMachine {
    /// The directory of the local copies.
    pub closed spec fn output_dir(&self) -> Seq<char> {
        self.output_dir@
    }

    /// Whether the run starts from an empty index.
    pub closed spec fn dry_run(&self) -> bool {
        self.dry_run
    }

    /// Where the run stands.
    pub closed spec fn state(&self) -> RunStateModel {
        self.state@
    }

    /// Begins a run for the target date, or for the current date when none
    /// is given, and answers with its first action.
    pub fn begin(target_date: Option<String>, output_dir: String, dry_run: bool) -> (r: (
        Self,
        RunAction,
    ))
        ensures
            r.0.output_dir() == output_dir@,
            r.0.dry_run() == dry_run,
            (r.0.state(), r.1@) == run_begin(
                dry_run,
                match target_date {
                    Some(date) => Some(date@),
                    None => None,
                },
            ),
            r.1@ is Finish <==> r.0.state() is Finished,
            r.1@ is Fail <==> r.0.state() is Failed,
    {
        let (state, action) = match target_date {
            Some(date) => proceed_with_date(dry_run, date),
            None => (RunState::ResolvingDate, RunAction::AskToday),
        };
        (RunMachine { output_dir, dry_run, state }, action)
    }

    /// Where the run stands.
    pub fn current_state(&self) -> (r: &RunState)
        ensures
            r@ == self.state(),
    {
        &self.state
    }

    /// Takes the outcome of the last action and answers with the next one.
    pub fn step(self, event: RunEvent) -> (r: (Self, RunAction))
        ensures
            r.0.output_dir() == self.output_dir(),
            r.0.dry_run() == self.dry_run(),
            (r.0.state(), r.1@) == run_next(
                self.output_dir(),
                self.dry_run(),
                self.state(),
                event@,
            ),
            !run_is_over(self.state()) ==> run_steps_left(r.0.state()) < run_steps_left(
                self.state(),
            ),
            r.1@ is Finish <==> r.0.state() is Finished,
            r.1@ is Fail <==> r.0.state() is Failed,
    {
        proof {
            lemma_run_ends(self.output_dir(), self.dry_run(), self.state(), event@);
        }
        let output_dir = self.output_dir;
        let dry_run = self.dry_run;
        let (state, action) = match (self.state, event) {
            (RunState::Finished, _) => violation(),
            (RunState::Failed, _) => violation(),
            (RunState::LoadingIndex { date }, RunEvent::Failed(_)) => proceed_with_index(
                date,
                Days::new(),
            ),
            (
                RunState::WritingLocalCopy { date, id, index, day_json },
                RunEvent::Failed(_),
            ) => proceed_after_local_copy(date, id, index, day_json),
            (_, RunEvent::Failed(error)) => (RunState::Failed, RunAction::Fail(error)),
            (RunState::ResolvingDate, RunEvent::Today(today)) => proceed_with_date(dry_run, today),
            (RunState::LoadingIndex { date }, RunEvent::IndexLoaded(index)) => proceed_with_index(
                date,
                index,
            ),
            (RunState::Generating { date, id, index }, RunEvent::DayGenerated(day)) => (
                RunState::EncodingDay { date, id, index },
                RunAction::EncodeDay(day),
            ),
            (RunState::EncodingDay { date, id, index }, RunEvent::Encoded(json)) => {
                let action = json_upload_action(day_key(date.as_str()), json.clone());
                (RunState::UploadingDay { date, id, index, day_json: json }, action)
            },
            (RunState::UploadingDay { date, id, index, day_json }, RunEvent::Uploaded) => {
                let action = RunAction::WriteLocalCopy {
                    path: local_copy(output_dir.as_str(), date.as_str()),
                    contents: day_json.clone(),
                };
                (RunState::WritingLocalCopy { date, id, index, day_json }, action)
            },
            (
                RunState::WritingLocalCopy { date, id, index, day_json },
                RunEvent::LocalCopyWritten,
            ) => proceed_after_local_copy(date, id, index, day_json),
            (RunState::EncodingIndex { date, day_json }, RunEvent::Encoded(json)) => (
                RunState::UploadingIndex { date, day_json },
                json_upload_action(String::from_str(INDEX_KEY), json),
            ),
            (RunState::UploadingIndex { date, day_json }, RunEvent::Uploaded) => (
                RunState::CheckingToday { date, day_json },
                RunAction::AskToday,
            ),
            (RunState::CheckingToday { date, day_json }, RunEvent::Today(today)) => {
                if DayIndexReconciler::should_update_today_pointer(date.as_str(), today.as_str()) {
                    (
                        RunState::UploadingToday,
                        json_upload_action(String::from_str(TODAY_KEY), day_json),
                    )
                } else {
                    (RunState::Finished, RunAction::Finish)
                }
            },
            (RunState::UploadingToday, RunEvent::Uploaded) => (
                RunState::Finished,
                RunAction::Finish,
            ),
            _ => violation(),
        };
        (RunMachine { output_dir, dry_run, state }, action)
    }
}

} // verus!
