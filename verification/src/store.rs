//! A settings store as the accessor sees it, and what a read and a patch do
//! to one: the laws of the accessor are stated and proved here.
//!
//! The store of this file is one that answers: where its file is there, it
//! opens, shows its row, and holds after an update what was written into it.
//! A run of an operation goes through the stages of the accessor in their
//! order, on the answers of such a store. [`MemoryStore`] is such a store,
//! and its operations are proved to run as [`read_store`] and
//! [`patch_store`] say.

use vstd::prelude::*;
use crate::accessor::{
    explains, file_exists, is_read_of, plan_row, read_row, Patch, Plan, Row, RowQuery,
};
use crate::error::{ErrorKind, UnlockError};
use crate::json::{json_rendered, JsonMember};
use crate::settings::{blob_of, frame_rate_of, with_frame_rate, Blob, Target, FRAME_RATE_KEY};

verus! {

/// A settings store that answers.
pub struct Store {
    /// Whether a file lies at the store's path.
    pub present: bool,
    /// The row of the settings.
    pub row: Row,
}

/// One access to the store's file.
#[derive(Clone, Copy, PartialEq, Eq, Structural, Debug)]
pub enum Step {
    /// The probe for the file.
    Probe,
    /// The opening of the store and the selection of the row.
    Select,
    /// The update of the row.
    Update,
}

/// How a patch ended where it did not fail.
#[derive(Clone, Copy, PartialEq, Eq, Structural, Debug)]
pub enum Report {
    /// The row held the wanted frame rate already.
    AlreadySet,
    /// The wanted frame rate was written into the row.
    Unlocked,
}

/// A read of the frame rate, from its first step to its last.
pub struct ReadRun {
    /// What the read returned.
    pub outcome: Result<i64, ErrorKind>,
    /// The accesses to the store that were made, in their order.
    pub steps: Seq<Step>,
}

/// A patch of the frame rate, from its first step to its last.
pub struct PatchRun {
    /// How the patch ended.
    pub outcome: Result<Report, ErrorKind>,
    /// The accesses to the store that were made, in their order.
    pub steps: Seq<Step>,
    /// The store as the patch left it.
    pub store: Store,
}

/// The run of a read on `store`: the probe, and where the file is there the
/// selection of the row, of which the frame rate is read.
pub open spec fn read_store(store: Store) -> ReadRun {
    if !store.present {
        ReadRun { outcome: Err(ErrorKind::FileNotFound), steps: seq![Step::Probe] }
    } else {
        ReadRun { outcome: read_row(store.row), steps: seq![Step::Probe, Step::Select] }
    }
}

/// The run of a patch to `target` on `store`: the probe, where the file is
/// there the selection of the row, and where the row holds another frame
/// rate the update, after which the row holds what was written.
pub open spec fn patch_store(store: Store, target: Target) -> PatchRun {
    if !store.present {
        PatchRun { outcome: Err(ErrorKind::FileNotFound), steps: seq![Step::Probe], store }
    } else {
        match plan_row(store.row, target) {
            Err(kind) => PatchRun {
                outcome: Err(kind),
                steps: seq![Step::Probe, Step::Select],
                store,
            },
            Ok(Plan::Keep) => PatchRun {
                outcome: Ok(Report::AlreadySet),
                steps: seq![Step::Probe, Step::Select],
                store,
            },
            Ok(Plan::Write(members)) => PatchRun {
                outcome: Ok(Report::Unlocked),
                steps: seq![Step::Probe, Step::Select, Step::Update],
                store: Store { present: true, row: Row::Held(Blob::Settings(members)) },
            },
        }
    }
}

/// The message that stands for the way a patch to `target` ended.
pub open spec fn report_text(report: Report, target: Target) -> Seq<char> {
    match report {
        Report::AlreadySet => target.already_set_text(),
        Report::Unlocked => target.unlocked_text(),
    }
}

/// What the selection of the row gives on a store that answers and holds
/// `row`.
pub open spec fn selected(row: Option<String>) -> RowQuery {
    match row {
        None => RowQuery::Missing,
        Some(text) => RowQuery::Found(text),
    }
}

/// Whether `res` is the failure of the missing file at `db_path`.
pub open spec fn is_not_found<T>(res: Result<T, UnlockError>, db_path: Seq<char>) -> bool {
    &&& res matches Err(UnlockError::FileNotFound(path))
    &&& path@ == db_path
}

/// Whether `after` and `res` are what a read of the store `before` at
/// `db_path` leaves and returns.
///
/// The store is what it was, with the accesses of the run behind those that
/// were made before. A store that is not to be found gives the failure of
/// the missing file with `db_path`; one that is gives what the read of its
/// row gives.
pub open spec fn is_read_run(
    before: MemoryStore,
    after: MemoryStore,
    db_path: Seq<char>,
    res: Result<i64, UnlockError>,
) -> bool {
    &&& after.present == before.present
    &&& after.row == before.row
    &&& after.accesses@ == before.accesses@ + read_store(before@).steps
    &&& !before.present ==> is_not_found(res, db_path)
    &&& before.present ==> is_read_of(selected(before.row), res)
    &&& match res {
        Ok(rate) => read_store(before@).outcome == Ok::<i64, ErrorKind>(rate),
        Err(error) => read_store(before@).outcome == Err::<i64, ErrorKind>(error.kind_of()),
    }
}

/// Whether `after` and `res` are what a patch to `target` of the store
/// `before` at `db_path` leaves and returns.
///
/// The accesses of the run stand behind those that were made before. Where
/// the run updates the row, the row is then the compact JSON of the blob
/// with the frame rate replaced; everywhere else the row is what it was, to
/// the letter. A store that is not to be found gives the failure of the
/// missing file with `db_path`; every other failure is the one that is
/// reported for the row; success comes with the message of the report.
pub open spec fn is_patch_run(
    before: MemoryStore,
    after: MemoryStore,
    db_path: Seq<char>,
    target: Target,
    res: Result<String, UnlockError>,
) -> bool {
    let run = patch_store(before@, target);
    &&& after@ == run.store
    &&& after.present == before.present
    &&& after.accesses@ == before.accesses@ + run.steps
    &&& run.outcome != Ok::<Report, ErrorKind>(Report::Unlocked) ==> after.row == before.row
    &&& run.outcome == Ok::<Report, ErrorKind>(Report::Unlocked) ==> {
        &&& after.row matches Some(text)
        &&& run.store.row matches Row::Held(Blob::Settings(members))
        &&& text@ == json_rendered(members)
    }
    &&& !before.present ==> is_not_found(res, db_path)
    &&& match res {
        Ok(message) => {
            &&& run.outcome matches Ok(report)
            &&& message@ == report_text(report, target)
        },
        Err(error) => {
            &&& run.outcome == Err::<Report, ErrorKind>(error.kind_of())
            &&& before.present ==> explains(error, selected(before.row))
        },
    }
}

/// A settings store in memory that answers: no file stands behind it, and it
/// takes every update. It runs the stages of the accessor as a program does
/// on a store on disk, and keeps a record of the accesses that were made.
#[derive(Debug, PartialEq, Eq)]
pub struct MemoryStore {
    /// Whether the store is to be found at its path.
    pub present: bool,
    /// The value of the settings row, where the store has the row.
    pub row: Option<String>,
    /// The accesses that were made so far, in their order.
    pub accesses: Vec<Step>,
}

impl View for MemoryStore {
    type V = Store;

    /// The store as the laws see it: of the row's value, what the parser
    /// finds in it.
    open spec fn view(&self) -> Store {
        Store {
            present: self.present,
            row: match self.row {
                None => Row::Missing,
                Some(text) => Row::Held(blob_of(text@)),
            },
        }
    }
}

impl MemoryStore {
    /// A store that is to be found, with this value in its row, and of which
    /// nothing has been asked yet.
    pub fn new(row: Option<String>) -> (store: MemoryStore)
        ensures
            store.present,
            store.row == row,
            store.accesses@ == Seq::<Step>::empty(),
    {
        MemoryStore { present: true, row, accesses: Vec::new() }
    }

    /// A store that is not to be found at its path.
    pub fn absent() -> (store: MemoryStore)
        ensures
            !store.present,
            store.row is None,
            store.accesses@ == Seq::<Step>::empty(),
    {
        MemoryStore { present: false, row: None, accesses: Vec::new() }
    }

    /// Answers the probe for the store's file.
    fn answer_probe(&mut self) -> (found: bool)
        ensures
            found == old(self).present,
            final(self).present == old(self).present,
            final(self).row == old(self).row,
            final(self).accesses@ == old(self).accesses@.push(Step::Probe),
    {
        self.accesses.push(Step::Probe);
        self.present
    }

    /// Answers the selection of the row.
    fn answer_selection(&mut self) -> (query: RowQuery)
        ensures
            query == selected(old(self).row),
            final(self).present == old(self).present,
            final(self).row == old(self).row,
            final(self).accesses@ == old(self).accesses@.push(Step::Select),
    {
        self.accesses.push(Step::Select);
        match &self.row {
            None => RowQuery::Missing,
            Some(text) => RowQuery::Found(text.clone()),
        }
    }

    /// Takes the update of the row.
    fn take_row(&mut self, text: String) -> (written: Result<(), String>)
        ensures
            written is Ok,
            final(self).present == old(self).present,
            final(self).row == Some(text),
            final(self).accesses@ == old(self).accesses@.push(Step::Update),
    {
        self.accesses.push(Step::Update);
        self.row = Some(text);
        Ok(())
    }

    /// Reads the custom frame rate: the probe, then the selection of the
    /// row, then the read of what was selected.
    ///
    /// The store is afterwards what it was.
    pub fn read_current_fps_setting(&mut self, db_path: &str) -> (res: Result<i64, UnlockError>)
        ensures
            is_read_run(*old(self), *final(self), db_path@, res),
    {
        let found = self.answer_probe();
        let access = match file_exists(db_path, found) {
            Ok(access) => access,
            Err(error) => {
                assert(self.accesses@ =~= old(self).accesses@ + read_store(old(self)@).steps);
                return Err(error);
            },
        };
        let query = self.answer_selection();
        assert(self.accesses@ =~= old(self).accesses@ + read_store(old(self)@).steps);
        access.read_current_fps_setting(query)
    }

    /// Patches the custom frame rate to `target`: the probe, then the
    /// selection of the row, then the decision, and where the decision asks
    /// for it the update.
    ///
    /// Where nothing is written, the row is afterwards what it was, to the
    /// letter.
    pub fn apply_frame_rate(&mut self, db_path: &str, target: Target) -> (res: Result<
        String,
        UnlockError,
    >)
        ensures
            is_patch_run(*old(self), *final(self), db_path@, target, res),
    {
        let found = self.answer_probe();
        let access = match file_exists(db_path, found) {
            Ok(access) => access,
            Err(error) => {
                assert(self.accesses@ =~= old(self).accesses@ + patch_store(
                    old(self)@,
                    target,
                ).steps);
                return Err(error);
            },
        };
        let query = self.answer_selection();
        match access.apply_frame_rate(query, target) {
            Ok(Patch::Unchanged(message)) => {
                assert(self.accesses@ =~= old(self).accesses@ + patch_store(
                    old(self)@,
                    target,
                ).steps);
                Ok(message)
            },
            Ok(Patch::Rewrite(text, pending)) => {
                let written = self.take_row(text);
                assert(self.accesses@ =~= old(self).accesses@ + patch_store(
                    old(self)@,
                    target,
                ).steps);
                pending.update_game_quality_setting(written)
            },
            Err(error) => {
                assert(self.accesses@ =~= old(self).accesses@ + patch_store(
                    old(self)@,
                    target,
                ).steps);
                Err(error)
            },
        }
    }

    /// Patches the custom frame rate to 120.
    pub fn unlock_fps(&mut self, db_path: &str) -> (res: Result<String, UnlockError>)
        ensures
            is_patch_run(*old(self), *final(self), db_path@, Target::Fps120, res),
    {
        self.apply_frame_rate(db_path, Target::Fps120)
    }

    /// Patches the custom frame rate to 165.
    pub fn unlock_fps_165(&mut self, db_path: &str) -> (res: Result<String, UnlockError>)
        ensures
            is_patch_run(*old(self), *final(self), db_path@, Target::Fps165, res),
    {
        self.apply_frame_rate(db_path, Target::Fps165)
    }
}

/// The frame rate that `store` holds, where its file is there and its row
/// is a blob with an integer frame rate.
pub open spec fn held_frame_rate(store: Store) -> Option<i64> {
    if store.present {
        match store.row {
            Row::Held(Blob::Settings(members)) => frame_rate_of(members),
            _ => None,
        }
    } else {
        None
    }
}

/// A patch of a store that holds another frame rate than the target's
/// succeeds with one update. Afterwards the row holds the target's frame
/// rate, and every other member of the blob is what it was.
pub proof fn lemma_patch_writes_target(store: Store, members: Map<Seq<char>, JsonMember>, target: Target)
    requires
        store.present,
        store.row == Row::Held(Blob::Settings(members)),
        frame_rate_of(members) is Some,
        frame_rate_of(members) != Some(target.rate()),
    ensures
        patch_store(store, target).outcome == Ok::<Report, ErrorKind>(Report::Unlocked),
        patch_store(store, target).steps == seq![Step::Probe, Step::Select, Step::Update],
        patch_store(store, target).store.present,
        patch_store(store, target).store.row matches Row::Held(Blob::Settings(after))
            && frame_rate_of(after) == Some(target.rate()) && (forall|name: Seq<char>|
            name != FRAME_RATE_KEY@ ==> after.contains_key(name) == members.contains_key(name)
                && after[name] == members[name]),
{
}

/// A patch of a store that holds the target's frame rate already returns the
/// report that says so, updates nothing and leaves the store as it was.
pub proof fn lemma_patch_keeps_target(store: Store, target: Target)
    requires
        held_frame_rate(store) == Some(target.rate()),
    ensures
        patch_store(store, target).outcome == Ok::<Report, ErrorKind>(Report::AlreadySet),
        patch_store(store, target).store == store,
        !patch_store(store, target).steps.contains(Step::Update),
{
    assert(patch_store(store, target).steps =~= seq![Step::Probe, Step::Select]);
}

/// A second patch to the same target finds the frame rate set: the patch is
/// idempotent on the store.
pub proof fn lemma_patch_is_idempotent(store: Store, target: Target)
    requires
        patch_store(store, target).outcome is Ok,
    ensures
        patch_store(patch_store(store, target).store, target).outcome == Ok::<
            Report,
            ErrorKind,
        >(Report::AlreadySet),
        patch_store(patch_store(store, target).store, target).store == patch_store(
            store,
            target,
        ).store,
{
}

/// A store whose file is there and whose row is missing fails a read and a
/// patch as a store, not as a parser, and is left as it was.
pub proof fn lemma_missing_row_is_store_failure(store: Store, target: Target)
    requires
        store.present,
        store.row == Row::Missing,
    ensures
        read_store(store).outcome == Err::<i64, ErrorKind>(ErrorKind::Store),
        patch_store(store, target).outcome == Err::<Report, ErrorKind>(ErrorKind::Store),
        patch_store(store, target).store == store,
{
}

/// A store whose row holds a value that is not JSON fails a read and a
/// patch as a parser, not as a store, and is left as it was.
pub proof fn lemma_malformed_row_is_parse_failure(store: Store, target: Target)
    requires
        store.present,
        store.row matches Row::Held(Blob::Malformed(_)),
    ensures
        read_store(store).outcome == Err::<i64, ErrorKind>(ErrorKind::Parse),
        patch_store(store, target).outcome == Err::<Report, ErrorKind>(ErrorKind::Parse),
        patch_store(store, target).store == store,
{
}

/// A read returns the frame rate that the store holds; after a patch that
/// did not fail, it returns the target's.
pub proof fn lemma_read_after_patch(store: Store, target: Target)
    requires
        patch_store(store, target).outcome is Ok,
    ensures
        read_store(store).outcome is Ok,
        read_store(store).outcome == held_frame_rate(store).ok_or(ErrorKind::Parse),
        read_store(patch_store(store, target).store).outcome == Ok::<i64, ErrorKind>(
            target.rate(),
        ),
{
}

/// Of two patches in a row the later one decides: the store is left as the
/// later patch alone would have left it, with nothing of the earlier target.
pub proof fn lemma_later_patch_wins(store: Store, first: Target, second: Target)
    requires
        held_frame_rate(store) is Some,
    ensures
        patch_store(patch_store(store, first).store, second).store == patch_store(
            store,
            second,
        ).store,
        read_store(patch_store(patch_store(store, first).store, second).store).outcome == Ok::<
            i64,
            ErrorKind,
        >(second.rate()),
{
    let members = store.row->Held_0->Settings_0;
    let once = with_frame_rate(members, second.rate());
    let twice = with_frame_rate(with_frame_rate(members, first.rate()), second.rate());
    assert(twice =~= once);
    if frame_rate_of(members) == Some(second.rate()) {
        assert(once =~= members);
    }
}

/// A read and a patch of a store whose file is not there fail with the
/// failure of the missing file after the probe alone: the store is not
/// opened, and it is left as it was.
pub proof fn lemma_absent_file_is_not_opened(store: Store, target: Target)
    requires
        !store.present,
    ensures
        read_store(store).outcome == Err::<i64, ErrorKind>(ErrorKind::FileNotFound),
        read_store(store).steps == seq![Step::Probe],
        patch_store(store, target).outcome == Err::<Report, ErrorKind>(ErrorKind::FileNotFound),
        patch_store(store, target).steps == seq![Step::Probe],
        patch_store(store, target).store == store,
{
}

} // verus!
