//! The settings store accessor: what a read or a patch of the stored frame
//! rate decides at each stage, given what the program around it found on disk.
//!
//! An operation goes through up to three stages, and the types keep them in
//! order. [`file_exists`] takes the answer of the probe for the store's file
//! and hands out an [`Access`] only where the file is there. The methods of
//! [`Access`] take what the selection of the row gave and either finish or
//! hand out a [`PendingUpdate`] with the text to write. The method of
//! [`PendingUpdate`] takes the store's answer to the update and finishes.

use vstd::prelude::*;
use vstd::string::*;
use crate::error::{ErrorKind, UnlockError};
use crate::json::{json_rendered, JsonMember};
use crate::settings::{
    blob_of, frame_rate_of, needs_patch, with_frame_rate, Blob, GameQualitySetting, Target,
    MISSING_FRAME_RATE,
};

verus! {

/// The statement that selects the value of the settings row.
pub const SELECT_SETTING: &'static str =
    "SELECT value FROM LocalStorage WHERE key = 'GameQualitySetting';";

/// The statement that updates the value of the settings row; its one
/// parameter is the new value.
pub const UPDATE_SETTING: &'static str =
    "UPDATE LocalStorage SET value = ?1 WHERE key = 'GameQualitySetting';";

/// The message of a store whose query found no row.
pub const NO_ROW_MESSAGE: &'static str = "Query returned no rows";

/// What the selection of the settings row gave.
#[derive(Debug, PartialEq, Eq)]
pub enum RowQuery {
    /// The store could not be opened or queried. Carries the store's message.
    Failed(String),
    /// The store answered, and holds no row for the settings.
    Missing,
    /// The value of the row.
    Found(String),
}

/// The settings row of a store that answers.
pub enum Row {
    /// The store holds no row for the settings.
    Missing,
    /// The store holds the row, and this is what the parser finds in it.
    Held(Blob),
}

/// What a patch does to the row.
pub enum Plan {
    /// The row holds the wanted frame rate already: nothing is written.
    Keep,
    /// The row is rewritten to hold these members.
    Write(Map<Seq<char>, JsonMember>),
}

impl RowQuery {
    /// The row that the store showed, where it answered at all.
    pub open spec fn row(self) -> Option<Row> {
        match self {
            RowQuery::Failed(_) => None,
            RowQuery::Missing => Some(Row::Missing),
            RowQuery::Found(text) => Some(Row::Held(blob_of(text@))),
        }
    }
}

/// What a read of the frame rate returns for a row.
pub open spec fn read_row(row: Row) -> Result<i64, ErrorKind> {
    match row {
        Row::Missing => Err(ErrorKind::Store),
        Row::Held(Blob::Malformed(_)) => Err(ErrorKind::Parse),
        Row::Held(Blob::Settings(members)) => match frame_rate_of(members) {
            Some(rate) => Ok(rate),
            None => Err(ErrorKind::Parse),
        },
    }
}

/// What a patch to `target` does to a row.
pub open spec fn plan_row(row: Row, target: Target) -> Result<Plan, ErrorKind> {
    match row {
        Row::Missing => Err(ErrorKind::Store),
        Row::Held(Blob::Malformed(_)) => Err(ErrorKind::Parse),
        Row::Held(Blob::Settings(members)) => match frame_rate_of(members) {
            Some(rate) => if rate == target.rate() {
                Ok(Plan::Keep)
            } else {
                Ok(Plan::Write(with_frame_rate(members, target.rate())))
            },
            None => Err(ErrorKind::Parse),
        },
    }
}

/// Whether `error` is the failure that is reported for what the selection of
/// the row gave: the store's own words for a store that failed, the message
/// of the missing row for a store without the row, the parser's words for
/// a value that is not JSON, and the message of the missing member for JSON
/// without an integer frame rate. Of a row that holds an integer frame rate
/// no failure is reported.
pub open spec fn explains(error: UnlockError, query: RowQuery) -> bool {
    match query {
        RowQuery::Failed(detail) => {
            &&& error matches UnlockError::Store(words)
            &&& words@ == detail@
        },
        RowQuery::Missing => {
            &&& error matches UnlockError::Store(words)
            &&& words@ == NO_ROW_MESSAGE@
        },
        RowQuery::Found(text) => match blob_of(text@) {
            Blob::Malformed(parser_words) => {
                &&& error matches UnlockError::Parse(words)
                &&& words@ == parser_words
            },
            Blob::Settings(members) => {
                &&& frame_rate_of(members) is None
                &&& error matches UnlockError::Parse(words)
                &&& words@ == MISSING_FRAME_RATE@
            },
        },
    }
}

/// Whether `res` is what a read of the frame rate returns for what the
/// selection of the row gave.
pub open spec fn is_read_of(query: RowQuery, res: Result<i64, UnlockError>) -> bool {
    match res {
        Ok(rate) => {
            &&& query.row() matches Some(row)
            &&& read_row(row) == Ok::<i64, ErrorKind>(rate)
        },
        Err(error) => explains(error, query),
    }
}

/// Whether `res` is what a patch to `target` decides for what the selection
/// of the row gave.
///
/// Where the row holds the target's frame rate, nothing is to be written and
/// the message says so. Where it holds another integer, the text to write is
/// the compact JSON of the blob with that one member replaced, the parser
/// reads the text back as that blob, and the pending update is one to
/// `target`.
pub open spec fn is_patch_of(
    query: RowQuery,
    target: Target,
    res: Result<Patch, UnlockError>,
) -> bool {
    match res {
        Ok(Patch::Unchanged(message)) => {
            &&& query.row() matches Some(row)
            &&& plan_row(row, target) == Ok::<Plan, ErrorKind>(Plan::Keep)
            &&& message@ == target.already_set_text()
        },
        Ok(Patch::Rewrite(text, pending)) => {
            &&& query.row() matches Some(row)
            &&& plan_row(row, target) matches Ok(Plan::Write(members))
            &&& text@ == json_rendered(members)
            &&& blob_of(text@) == Blob::Settings(members)
            &&& pending.target() == target
        },
        Err(error) => explains(error, query),
    }
}

/// The right to open the store: its file was found.
#[derive(Debug)]
pub struct Access {
    db_path: String,
}

/// An update of the row that has been asked for and not yet answered.
#[derive(Debug)]
pub struct PendingUpdate {
    target: Target,
}

/// What a patch has decided once the row was read.
#[derive(Debug)]
pub enum Patch {
    /// The row holds the wanted frame rate already. Nothing is to be written;
    /// the message says so.
    Unchanged(String),
    /// The row is to be updated with this text; the store's answer goes to
    /// the pending update.
    Rewrite(String, PendingUpdate),
}

/// Takes the answer of the probe for the store's file.
///
/// The store may be opened only with the [`Access`] that this returns, so a
/// path at which nothing lies fails here, before the store is touched.
pub fn file_exists(db_path: &str, found: bool) -> (res: Result<Access, UnlockError>)
    ensures
        match res {
            Ok(access) => found && access.path() == db_path@,
            Err(error) => {
                &&& !found
                &&& error matches UnlockError::FileNotFound(path)
                &&& path@ == db_path@
            },
        },
{
    if found {
        Ok(Access { db_path: String::from_str(db_path) })
    } else {
        Err(UnlockError::FileNotFound(String::from_str(db_path)))
    }
}

/// Reads the settings blob out of what the selection of the row gave.
///
/// A store that failed, or that has no row, is a failure of the store; a row
/// whose value is not JSON is a failure of the parser.
pub fn read_game_quality_setting(query: RowQuery) -> (res: Result<GameQualitySetting, UnlockError>)
    ensures
        match res {
            Ok(setting) => {
                &&& query matches RowQuery::Found(text)
                &&& blob_of(text@) == Blob::Settings(setting.members())
                &&& setting.within_depth()
            },
            Err(error) => match query {
                RowQuery::Failed(detail) => {
                    &&& error matches UnlockError::Store(words)
                    &&& words@ == detail@
                },
                RowQuery::Missing => {
                    &&& error matches UnlockError::Store(words)
                    &&& words@ == NO_ROW_MESSAGE@
                },
                RowQuery::Found(text) => {
                    &&& blob_of(text@) matches Blob::Malformed(parser_words)
                    &&& error matches UnlockError::Parse(words)
                    &&& words@ == parser_words
                },
            },
        },
{
    match query {
        RowQuery::Failed(detail) => Err(UnlockError::Store(detail)),
        RowQuery::Missing => Err(UnlockError::Store(String::from_str(NO_ROW_MESSAGE))),
        RowQuery::Found(text) => GameQualitySetting::parse(text.as_str()),
    }
}

impl Access {
    /// The path of the store's file.
    pub closed spec fn path(self) -> Seq<char> {
        self.db_path@
    }

    /// The path of the store's file, for the program that opens it.
    pub fn db_path(&self) -> (path: &str)
        ensures
            path@ == self.path(),
    {
        self.db_path.as_str()
    }

    /// Reads the custom frame rate out of what the selection of the row gave.
    pub fn read_current_fps_setting(self, query: RowQuery) -> (res: Result<i64, UnlockError>)
        ensures
            is_read_of(query, res),
    {
        match read_game_quality_setting(query) {
            Ok(setting) => setting.frame_rate(),
            Err(error) => Err(error),
        }
    }

    /// Decides what a patch to `target` does, given what the selection of
    /// the row gave.
    ///
    /// Where the row holds the target's frame rate, nothing is written.
    /// Where it holds another integer, the text to write is the blob with
    /// that one member replaced, and the parser reads the text back as such.
    pub fn apply_frame_rate(self, query: RowQuery, target: Target) -> (res: Result<
        Patch,
        UnlockError,
    >)
        ensures
            is_patch_of(query, target, res),
    {
        let mut setting = match read_game_quality_setting(query) {
            Ok(setting) => setting,
            Err(error) => {
                return Err(error);
            },
        };
        let current = match setting.frame_rate() {
            Ok(rate) => rate,
            Err(error) => {
                return Err(error);
            },
        };
        if needs_patch(current, target) {
            setting.set_frame_rate(target);
            let text = setting.to_text();
            Ok(Patch::Rewrite(text, PendingUpdate { target }))
        } else {
            Ok(Patch::Unchanged(target.already_set_message()))
        }
    }

    /// Decides what a patch to 120 frames per second does.
    pub fn unlock_fps(self, query: RowQuery) -> (res: Result<Patch, UnlockError>)
        ensures
            is_patch_of(query, Target::Fps120, res),
    {
        self.apply_frame_rate(query, Target::Fps120)
    }

    /// Decides what a patch to 165 frames per second does.
    pub fn unlock_fps_165(self, query: RowQuery) -> (res: Result<Patch, UnlockError>)
        ensures
            is_patch_of(query, Target::Fps165, res),
    {
        self.apply_frame_rate(query, Target::Fps165)
    }
}

impl PendingUpdate {
    /// The frame rate that the update writes.
    pub closed spec fn target(self) -> Target {
        self.target
    }

    /// Takes the store's answer to the update and gives the operation's
    /// result: the message of success, or the store's failure.
    pub fn update_game_quality_setting(self, written: Result<(), String>) -> (res: Result<
        String,
        UnlockError,
    >)
        ensures
            match written {
                Ok(_) => {
                    &&& res matches Ok(message)
                    &&& message@ == self.target().unlocked_text()
                },
                Err(detail) => {
                    &&& res matches Err(UnlockError::Store(words))
                    &&& words@ == detail@
                },
            },
    {
        match written {
            Ok(_) => Ok(self.target.unlocked_message()),
            Err(detail) => Err(UnlockError::Store(detail)),
        }
    }
}

} // verus!
