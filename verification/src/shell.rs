//! The presentation shell's state: the last path, the last status and the
//! last frame rate that was read, and how each answer to a button changes
//! them. Drawing the window is left to the program around the library.

use vstd::prelude::*;
use vstd::string::*;
use crate::decimal::{decimal, decimal_text};
use crate::error::UnlockError;
use crate::settings::Target;

verus! {

/// The heading of the window.
pub const APP_TITLE: &'static str = "WuWa Ploom 120 & 165 FPS Unlock";

/// What the user is told to do, one step to a line.
pub const INSTRUCTIONS: &'static str = "
1) Check and set your FPS limit to 60, then close your game.
2) Do not touch FPS or VSync options in-game.
3) You can either automatically find it or browse and choose the file.
";

/// The line above the buttons.
pub const SELECT_PROMPT: &'static str = "Select the SQLite database file:";

/// The button that looks the store up in the registry.
pub const LOCATE_BUTTON: &'static str = "Locate Configuration File";

/// The button that lets the user choose the store.
pub const BROWSE_BUTTON: &'static str = "Browse for Configuration File";

/// The button that patches the frame rate to 120.
pub const SET_120_BUTTON: &'static str = "Set FPS to 120";

/// The button that patches the frame rate to 165.
pub const SET_165_BUTTON: &'static str = "Set FPS to 165";

/// What stands in the status in front of the failure of a lookup in the
/// registry.
pub const LOCATE_FAILED_PREFIX: &'static str = "Error locating game: ";

/// What stands in the status in front of the failure of a read.
pub const READ_FAILED_PREFIX: &'static str = "Error reading FPS setting: ";

/// What stands in the status in front of the failure of a patch.
pub const PATCH_FAILED_PREFIX: &'static str = "Error: ";

/// The heading of the lines that show the frame rate.
pub const CURRENT_FPS_HEADING: &'static str = "Current FPS Setting:";

/// What stands in front of the frame rate in the line that shows it.
pub const CURRENT_FPS_PREFIX: &'static str = "KeyCustomFrameRate: ";

/// What the window keeps between two repaints.
#[derive(Debug)]
pub struct FPSUnlockerApp {
    /// The path of the settings store that was last located or chosen.
    pub db_path: String,
    /// The message of the last operation that left one.
    pub status: String,
    /// The frame rate that was last read, if a read has succeeded.
    pub current_fps: Option<i64>,
}

impl Default for FPSUnlockerApp {
    /// The state of a window that has just been opened: no path, no status,
    /// no frame rate.
    fn default() -> (app: FPSUnlockerApp)
        ensures
            app.db_path@ == Seq::<char>::empty(),
            app.status@ == Seq::<char>::empty(),
            app.current_fps is None,
    {
        FPSUnlockerApp { db_path: String::new(), status: String::new(), current_fps: None }
    }
}

/// The note that is shown under a frame rate that the tool can set: there is
/// nothing to patch.
pub open spec fn frame_rate_note(fps: i64) -> Seq<Seq<char>> {
    if fps == 120 {
        seq![Target::Fps120.already_set_text()]
    } else if fps == 165 {
        seq![Target::Fps165.already_set_text()]
    } else {
        Seq::empty()
    }
}

/// The lines that show the frame rate that was last read: none before the
/// first read; else a heading, the frame rate, and the note where the frame
/// rate is one that the tool can set.
pub open spec fn frame_rate_lines_of(current_fps: Option<i64>) -> Seq<Seq<char>> {
    match current_fps {
        None => Seq::empty(),
        Some(fps) => seq![CURRENT_FPS_HEADING@, CURRENT_FPS_PREFIX@ + decimal_text(fps as int)]
            + frame_rate_note(fps),
    }
}

impl FPSUnlockerApp {
    /// Takes the answer of the locator to the button that looks the store up
    /// in the registry, and says whether the frame rate is to be read next.
    ///
    /// A path becomes the window's path, and the read follows. A failure
    /// goes into the status, and nothing follows.
    pub fn located(&mut self, found: Result<String, UnlockError>) -> (read_next: bool)
        ensures
            final(self).current_fps == old(self).current_fps,
            match found {
                Ok(path) => read_next && final(self).db_path == path && final(self).status == old(self).status,
                Err(error) => !read_next && final(self).db_path == old(self).db_path && final(self).status@ == LOCATE_FAILED_PREFIX@ + error.message_text(),
            },
    {
        match found {
            Ok(path) => {
                self.db_path = path;
                true
            },
            Err(error) => {
                self.status = String::from_str(LOCATE_FAILED_PREFIX).concat(
                    error.message().as_str(),
                );
                false
            },
        }
    }

    /// Takes the answer of the file dialog to the button that lets the user
    /// choose the store, and says whether the frame rate is to be read next.
    ///
    /// A chosen path becomes the window's path, and the read follows. A
    /// dialog that was cancelled changes nothing.
    pub fn browsed(&mut self, picked: Option<String>) -> (read_next: bool)
        ensures
            final(self).current_fps == old(self).current_fps,
            final(self).status == old(self).status,
            match picked {
                Some(path) => read_next && final(self).db_path == path,
                None => !read_next && final(self).db_path == old(self).db_path,
            },
    {
        match picked {
            Some(path) => {
                self.db_path = path;
                true
            },
            None => false,
        }
    }

    /// Takes the result of the read that follows a new path.
    ///
    /// A frame rate becomes the one that the window shows; the status stays.
    /// A failure goes into the status; the frame rate that is shown stays.
    pub fn frame_rate_read(&mut self, result: Result<i64, UnlockError>)
        ensures
            final(self).db_path == old(self).db_path,
            match result {
                Ok(fps) => final(self).current_fps == Some(fps) && final(self).status == old(self).status,
                Err(error) => final(self).current_fps == old(self).current_fps && final(self).status@ == READ_FAILED_PREFIX@ + error.message_text(),
            },
    {
        match result {
            Ok(fps) => {
                self.current_fps = Some(fps);
            },
            Err(error) => {
                self.status = String::from_str(READ_FAILED_PREFIX).concat(
                    error.message().as_str(),
                );
            },
        }
    }

    /// Takes the result of a patch.
    ///
    /// The message of the patch, or its failure, becomes the status. The
    /// path and the frame rate that is shown stay as they are.
    pub fn patched(&mut self, result: Result<String, UnlockError>)
        ensures
            final(self).db_path == old(self).db_path,
            final(self).current_fps == old(self).current_fps,
            match result {
                Ok(message) => final(self).status == message,
                Err(error) => final(self).status@ == PATCH_FAILED_PREFIX@ + error.message_text(),
            },
    {
        match result {
            Ok(message) => {
                self.status = message;
            },
            Err(error) => {
                self.status = String::from_str(PATCH_FAILED_PREFIX).concat(
                    error.message().as_str(),
                );
            },
        }
    }

    /// The lines that show the frame rate that was last read.
    pub fn frame_rate_lines(&self) -> (lines: Vec<String>)
        ensures
            lines.deep_view() == frame_rate_lines_of(self.current_fps),
    {
        let mut lines: Vec<String> = Vec::new();
        match self.current_fps {
            None => {},
            Some(fps) => {
                lines.push(String::from_str(CURRENT_FPS_HEADING));
                lines.push(String::from_str(CURRENT_FPS_PREFIX).concat(decimal(fps).as_str()));
                match Target::of_frame_rate(fps) {
                    Some(target) => {
                        lines.push(target.already_set_message());
                    },
                    None => {},
                }
            },
        }
        assert(lines.deep_view() =~= frame_rate_lines_of(self.current_fps));
        lines
    }
}

} // verus!
