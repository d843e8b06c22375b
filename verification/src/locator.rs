//! The locator: where the settings store of an installation lies.

use vstd::prelude::*;
use vstd::string::*;
use crate::error::UnlockError;

verus! {

/// The registry key, under the local machine's root, in which the installer
/// records the game.
pub const UNINSTALL_KEY: &'static str =
    "SOFTWARE\\WOW6432Node\\Microsoft\\Windows\\CurrentVersion\\Uninstall\\KRInstall Wuthering Waves Overseas";

/// The name of the value of [`UNINSTALL_KEY`] that holds the installation's
/// directory.
pub const INSTALL_PATH_VALUE: &'static str = "InstallPath";

/// Where the settings store lies below the installation's directory.
pub const DATABASE_SUBPATH: &'static str =
    "\\Wuthering Waves Game\\Client\\Saved\\LocalStorage\\LocalStorage.db";

/// The path of the settings store, given what the registry holds under
/// [`INSTALL_PATH_VALUE`]: `None` where the key or the value is missing.
///
/// The path is the installation's directory with [`DATABASE_SUBPATH`]
/// behind it. Whether a file lies there is not looked at here.
pub fn get_game_install_path(install_path: Option<String>) -> (res: Result<String, UnlockError>)
    ensures
        match install_path {
            Some(directory) => {
                &&& res matches Ok(path)
                &&& path@ == directory@ + DATABASE_SUBPATH@
            },
            None => res matches Err(UnlockError::Registry),
        },
{
    match install_path {
        Some(directory) => Ok(directory.concat(DATABASE_SUBPATH)),
        None => Err(UnlockError::Registry),
    }
}

} // verus!
