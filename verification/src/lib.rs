//! Frame-rate unlocking for a game's local settings store.
//!
//! The game keeps its quality settings as one JSON object in one row of a
//! key-value table. This library holds every decision of the tool that
//! rewrites the custom frame-rate member of that object: where the store
//! lies, what a read or a patch of the row has to do at each stage, which
//! text is written back, and what the window shows afterwards. Touching the
//! file system, the store and the screen is left to the program around it.

pub mod accessor;
pub mod decimal;
pub mod error;
pub mod json;
pub mod locator;
pub mod settings;
pub mod shell;
pub mod store;
pub mod window;
