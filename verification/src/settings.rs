//! The settings blob: one JSON object, of which the tool reads and rewrites
//! the custom frame-rate member and nothing else.

use vstd::prelude::*;
use vstd::string::*;
use crate::error::UnlockError;
use crate::json::{
    as_integer, error_text, integer_member, integer_value, json_depth, json_members,
    json_parsed, json_rendered, member, parse, render, set_member, JsonMember,
    JSON_DEPTH_LIMIT,
};

verus! {

/// The name of the member that holds the custom frame rate.
pub const FRAME_RATE_KEY: &'static str = "KeyCustomFrameRate";

/// What is reported of a blob that is JSON but holds no integer under
/// [`FRAME_RATE_KEY`].
pub const MISSING_FRAME_RATE: &'static str = "KeyCustomFrameRate not found or not an integer";

/// A frame rate that the tool can set.
#[derive(Clone, Copy, PartialEq, Eq, Structural, Debug)]
pub enum Target {
    /// 120 frames per second.
    Fps120,
    /// 165 frames per second.
    Fps165,
}

impl Target {
    /// The frame rate that this target stands for.
    pub open spec fn rate(self) -> i64 {
        match self {
            Target::Fps120 => 120i64,
            Target::Fps165 => 165i64,
        }
    }

    /// The frame rate that this target stands for.
    pub fn frame_rate(&self) -> (rate: i64)
        ensures
            rate == self.rate(),
    {
        match self {
            Target::Fps120 => 120,
            Target::Fps165 => 165,
        }
    }

    /// The text that tells the user that nothing had to be written.
    pub open spec fn already_set_text(self) -> Seq<char> {
        match self {
            Target::Fps120 => "FPS is already set to 120. No need to patch."@,
            Target::Fps165 => "FPS is already set to 165. No need to patch."@,
        }
    }

    /// The text that tells the user that the frame rate was written.
    pub open spec fn unlocked_text(self) -> Seq<char> {
        match self {
            Target::Fps120 => "FPS successfully unlocked to 120!"@,
            Target::Fps165 => "FPS successfully unlocked to 165!"@,
        }
    }

    /// The message for a store that holds this frame rate already.
    pub fn already_set_message(&self) -> (text: String)
        ensures
            text@ == self.already_set_text(),
    {
        match self {
            Target::Fps120 => String::from_str("FPS is already set to 120. No need to patch."),
            Target::Fps165 => String::from_str("FPS is already set to 165. No need to patch."),
        }
    }

    /// The message for a store into which this frame rate was written.
    pub fn unlocked_message(&self) -> (text: String)
        ensures
            text@ == self.unlocked_text(),
    {
        match self {
            Target::Fps120 => String::from_str("FPS successfully unlocked to 120!"),
            Target::Fps165 => String::from_str("FPS successfully unlocked to 165!"),
        }
    }

    /// The target that stands for `rate`, if there is one.
    pub fn of_frame_rate(rate: i64) -> (target: Option<Target>)
        ensures
            match target {
                Some(t) => t.rate() == rate,
                None => rate != 120 && rate != 165,
            },
    {
        if rate == 120 {
            Some(Target::Fps120)
        } else if rate == 165 {
            Some(Target::Fps165)
        } else {
            None
        }
    }
}

/// The frame rate that a blob with these members holds, if it holds one.
pub open spec fn frame_rate_of(members: Map<Seq<char>, JsonMember>) -> Option<i64> {
    integer_member(members, FRAME_RATE_KEY@)
}

/// The members of a blob after the frame rate `rate` was written into it.
pub open spec fn with_frame_rate(members: Map<Seq<char>, JsonMember>, rate: i64) -> Map<
    Seq<char>,
    JsonMember,
> {
    members.insert(FRAME_RATE_KEY@, JsonMember::Integer(rate))
}

/// What the parser finds in a stored text.
pub enum Blob {
    /// The text is not JSON; these are the parser's words on it.
    Malformed(Seq<char>),
    /// The text is JSON; these are the members of the value that it holds.
    Settings(Map<Seq<char>, JsonMember>),
}

/// What the parser finds in the text `text`.
pub open spec fn blob_of(text: Seq<char>) -> Blob {
    match json_parsed(text) {
        Ok(members) => Blob::Settings(members),
        Err(words) => Blob::Malformed(words),
    }
}

/// The frame rate that was found under [`FRAME_RATE_KEY`], or the failure
/// that stands for its absence.
pub fn require_frame_rate(found: Option<i64>) -> (res: Result<i64, UnlockError>)
    ensures
        match res {
            Ok(rate) => found == Some(rate),
            Err(error) => {
                &&& found is None
                &&& error matches UnlockError::Parse(detail)
                &&& detail@ == MISSING_FRAME_RATE@
            },
        },
{
    match found {
        Some(rate) => Ok(rate),
        None => Err(UnlockError::Parse(String::from_str(MISSING_FRAME_RATE))),
    }
}

/// Whether a blob that holds the frame rate `current` has to be rewritten to
/// hold the frame rate of `target`.
pub fn needs_patch(current: i64, target: Target) -> (needed: bool)
    ensures
        needed == (current != target.rate()),
{
    current != target.frame_rate()
}

/// The settings blob as the parser has read it.
#[derive(Debug)]
pub struct GameQualitySetting {
    document: serde_json::Value,
}

impl GameQualitySetting {
    /// Whether the blob is no deeper than the parser goes. Every blob that
    /// was read from a text is, and writing a frame rate keeps it so.
    pub closed spec fn within_depth(&self) -> bool {
        json_depth(self.document) < JSON_DEPTH_LIMIT
    }

    /// The members of the blob.
    pub closed spec fn members(&self) -> Map<Seq<char>, JsonMember> {
        json_members(self.document)
    }

    /// Reads a blob from the text of the row.
    ///
    /// Succeeds on every text that is JSON, whatever the JSON holds. Fails
    /// on every other text, with the parser's words.
    pub fn parse(text: &str) -> (res: Result<GameQualitySetting, UnlockError>)
        ensures
            match res {
                Ok(setting) => {
                    &&& blob_of(text@) == Blob::Settings(setting.members())
                    &&& setting.within_depth()
                },
                Err(error) => {
                    &&& blob_of(text@) matches Blob::Malformed(words)
                    &&& error matches UnlockError::Parse(detail)
                    &&& detail@ == words
                },
            },
    {
        match parse(text) {
            Ok(document) => Ok(GameQualitySetting { document }),
            Err(error) => Err(UnlockError::Parse(error_text(&error))),
        }
    }

    /// The custom frame rate that the blob holds.
    ///
    /// Fails where the blob is no object, has no member of that name, or
    /// holds anything but an integer there.
    pub fn frame_rate(&self) -> (res: Result<i64, UnlockError>)
        ensures
            match res {
                Ok(rate) => frame_rate_of(self.members()) == Some(rate),
                Err(error) => {
                    &&& frame_rate_of(self.members()) is None
                    &&& error matches UnlockError::Parse(detail)
                    &&& detail@ == MISSING_FRAME_RATE@
                },
            },
    {
        require_frame_rate(as_integer(member(&self.document, FRAME_RATE_KEY)))
    }

    /// Writes the frame rate of `target` into a blob that holds a frame rate.
    /// No other member changes.
    pub fn set_frame_rate(&mut self, target: Target)
        requires
            frame_rate_of(old(self).members()) is Some,
        ensures
            final(self).members() == with_frame_rate(old(self).members(), target.rate()),
            old(self).within_depth() ==> final(self).within_depth(),
    {
        set_member(&mut self.document, FRAME_RATE_KEY, integer_value(target.frame_rate()));
    }

    /// The blob as compact JSON text, which is what goes back into the row.
    ///
    /// The parser reads the text of a blob that is no deeper than it goes
    /// back to the same members.
    pub fn to_text(&self) -> (text: String)
        requires
            frame_rate_of(self.members()) is Some,
        ensures
            text@ == json_rendered(self.members()),
            self.within_depth() ==> blob_of(text@) == Blob::Settings(self.members()),
    {
        assert(self.members().contains_key(FRAME_RATE_KEY@));
        render(&self.document)
    }
}

} // verus!
