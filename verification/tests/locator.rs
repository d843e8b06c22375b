use fps_unlock::error::UnlockError;
use fps_unlock::locator::{
    get_game_install_path, DATABASE_SUBPATH, INSTALL_PATH_VALUE, UNINSTALL_KEY,
};

#[test]
fn path_is_the_directory_with_the_subpath_behind_it() {
    let path = get_game_install_path(Some("D:\\Games\\Wuthering Waves".to_string()));
    match path {
        Ok(path) => assert_eq!(
            path,
            "D:\\Games\\Wuthering Waves\\Wuthering Waves Game\\Client\\Saved\\LocalStorage\\LocalStorage.db"
        ),
        Err(_) => panic!("a directory was given"),
    }
}

#[test]
fn empty_directory_gives_the_bare_subpath() {
    match get_game_install_path(Some(String::new())) {
        Ok(path) => assert_eq!(path, DATABASE_SUBPATH),
        Err(_) => panic!("a directory was given"),
    }
}

#[test]
fn missing_registry_entry_is_a_registry_failure() {
    match get_game_install_path(None) {
        Err(UnlockError::Registry) => {}
        _ => panic!("nothing was found in the registry"),
    }
}

#[test]
fn registry_names_are_those_of_the_installer() {
    assert_eq!(
        UNINSTALL_KEY,
        "SOFTWARE\\WOW6432Node\\Microsoft\\Windows\\CurrentVersion\\Uninstall\\KRInstall Wuthering Waves Overseas"
    );
    assert_eq!(INSTALL_PATH_VALUE, "InstallPath");
}
