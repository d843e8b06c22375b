use fps_unlock::accessor::{
    file_exists, Patch, RowQuery, NO_ROW_MESSAGE, SELECT_SETTING, UPDATE_SETTING,
};
use fps_unlock::error::{ErrorKind, UnlockError};
use fps_unlock::settings::Target;
use rusqlite::Connection;

// A store in memory stands for the file; `None` stands for a path at which
// nothing lies.

fn store_with(rows: &[(&str, &str)]) -> Connection {
    let conn = Connection::open_in_memory().expect("a store in memory");
    conn.execute("CREATE TABLE LocalStorage (key TEXT PRIMARY KEY, value TEXT)", [])
        .expect("the table");
    for (key, value) in rows {
        conn.execute("INSERT INTO LocalStorage (key, value) VALUES (?1, ?2)", [key, value])
            .expect("a row");
    }
    conn
}

fn select(conn: &Connection) -> RowQuery {
    let mut statement = match conn.prepare(SELECT_SETTING) {
        Ok(statement) => statement,
        Err(error) => return RowQuery::Failed(error.to_string()),
    };
    let mut rows = match statement.query([]) {
        Ok(rows) => rows,
        Err(error) => return RowQuery::Failed(error.to_string()),
    };
    match rows.next() {
        Ok(Some(row)) => match row.get::<usize, String>(0) {
            Ok(value) => RowQuery::Found(value),
            Err(error) => RowQuery::Failed(error.to_string()),
        },
        Ok(None) => RowQuery::Missing,
        Err(error) => RowQuery::Failed(error.to_string()),
    }
}

fn stored(conn: &Connection) -> String {
    match select(conn) {
        RowQuery::Found(value) => value,
        other => panic!("no value: {:?}", other),
    }
}

fn read(store: Option<&Connection>) -> Result<i64, UnlockError> {
    let access = file_exists("LocalStorage.db", store.is_some())?;
    let conn = store.expect("access is given for a file that is there");
    access.read_current_fps_setting(select(conn))
}

fn apply(store: Option<&Connection>, target: Target) -> Result<String, UnlockError> {
    let access = file_exists("LocalStorage.db", store.is_some())?;
    let conn = store.expect("access is given for a file that is there");
    match access.apply_frame_rate(select(conn), target)? {
        Patch::Unchanged(message) => Ok(message),
        Patch::Rewrite(text, pending) => {
            let written = conn
                .execute(UPDATE_SETTING, [text.as_str()])
                .map(|_| ())
                .map_err(|error| error.to_string());
            pending.update_game_quality_setting(written)
        }
    }
}

const BLOB_60: &str = "{\"KeyQuality\":3,\"KeyCustomFrameRate\":60,\"KeyShadow\":{\"on\":true,\"bias\":0.25}}";

#[test]
fn patch_to_120_updates_the_row_and_keeps_the_other_members() {
    let conn = store_with(&[("GameQualitySetting", BLOB_60), ("Other", "untouched")]);
    assert_eq!(apply(Some(&conn), Target::Fps120), Ok("FPS successfully unlocked to 120!".to_string()));
    assert_eq!(
        stored(&conn),
        "{\"KeyCustomFrameRate\":120,\"KeyQuality\":3,\"KeyShadow\":{\"bias\":0.25,\"on\":true}}"
    );
    let other: String = conn
        .query_row("SELECT value FROM LocalStorage WHERE key = 'Other'", [], |row| row.get(0))
        .expect("the other row");
    assert_eq!(other, "untouched");
}

#[test]
fn patch_to_165_updates_the_row_and_keeps_the_other_members() {
    let conn = store_with(&[("GameQualitySetting", BLOB_60)]);
    assert_eq!(apply(Some(&conn), Target::Fps165), Ok("FPS successfully unlocked to 165!".to_string()));
    assert_eq!(
        stored(&conn),
        "{\"KeyCustomFrameRate\":165,\"KeyQuality\":3,\"KeyShadow\":{\"bias\":0.25,\"on\":true}}"
    );
}

#[test]
fn patch_to_the_frame_rate_that_is_set_leaves_the_row_byte_for_byte() {
    let blob = "{ \"KeyCustomFrameRate\" : 120, \"KeyQuality\" : 3 }";
    let conn = store_with(&[("GameQualitySetting", blob)]);
    assert_eq!(
        apply(Some(&conn), Target::Fps120),
        Ok("FPS is already set to 120. No need to patch.".to_string())
    );
    assert_eq!(stored(&conn), blob);

    let blob = "{ \"KeyCustomFrameRate\" : 165, \"KeyQuality\" : 3 }";
    let conn = store_with(&[("GameQualitySetting", blob)]);
    assert_eq!(
        apply(Some(&conn), Target::Fps165),
        Ok("FPS is already set to 165. No need to patch.".to_string())
    );
    assert_eq!(stored(&conn), blob);
}

#[test]
fn second_patch_to_the_same_target_finds_it_set() {
    let conn = store_with(&[("GameQualitySetting", BLOB_60)]);
    assert_eq!(apply(Some(&conn), Target::Fps120), Ok("FPS successfully unlocked to 120!".to_string()));
    let after_first = stored(&conn);
    assert_eq!(
        apply(Some(&conn), Target::Fps120),
        Ok("FPS is already set to 120. No need to patch.".to_string())
    );
    assert_eq!(stored(&conn), after_first);
}

#[test]
fn store_without_the_row_fails_as_a_store() {
    let conn = store_with(&[("Other", "{\"KeyCustomFrameRate\":60}")]);
    match read(Some(&conn)) {
        Err(error) => {
            assert_eq!(error.kind(), ErrorKind::Store);
            assert_eq!(error, UnlockError::Store("Query returned no rows".to_string()));
        }
        Ok(rate) => panic!("read {} from a store without the row", rate),
    }
    match apply(Some(&conn), Target::Fps120) {
        Err(error) => assert_eq!(error.kind(), ErrorKind::Store),
        Ok(message) => panic!("{}", message),
    }
}

#[test]
fn store_without_the_table_fails_as_a_store() {
    let conn = Connection::open_in_memory().expect("a store in memory");
    match read(Some(&conn)) {
        Err(error) => {
            assert_eq!(error.kind(), ErrorKind::Store);
            assert_eq!(error.message(), "Database error: no such table: LocalStorage");
        }
        Ok(rate) => panic!("read {} from an empty store", rate),
    }
}

#[test]
fn row_that_is_not_json_fails_as_a_parser() {
    let conn = store_with(&[("GameQualitySetting", "KeyCustomFrameRate=60")]);
    match read(Some(&conn)) {
        Err(error) => assert_eq!(error.kind(), ErrorKind::Parse),
        Ok(rate) => panic!("read {} from a row that is not JSON", rate),
    }
    match apply(Some(&conn), Target::Fps165) {
        Err(error) => assert_eq!(error.kind(), ErrorKind::Parse),
        Ok(message) => panic!("{}", message),
    }
    assert_eq!(stored(&conn), "KeyCustomFrameRate=60");
}

#[test]
fn row_without_the_member_is_not_given_one() {
    let conn = store_with(&[("GameQualitySetting", "{\"KeyQuality\":3}")]);
    assert_eq!(
        apply(Some(&conn), Target::Fps120),
        Err(UnlockError::Parse("KeyCustomFrameRate not found or not an integer".to_string()))
    );
    assert_eq!(stored(&conn), "{\"KeyQuality\":3}");
}

#[test]
fn read_then_patch_then_read() {
    let conn = store_with(&[("GameQualitySetting", BLOB_60)]);
    assert_eq!(read(Some(&conn)), Ok(60));
    assert!(apply(Some(&conn), Target::Fps120).is_ok());
    assert_eq!(read(Some(&conn)), Ok(120));
    assert!(apply(Some(&conn), Target::Fps165).is_ok());
    assert_eq!(read(Some(&conn)), Ok(165));
}

#[test]
fn patch_to_120_then_to_165_leaves_what_a_patch_to_165_leaves() {
    let both = store_with(&[("GameQualitySetting", BLOB_60)]);
    assert!(apply(Some(&both), Target::Fps120).is_ok());
    assert!(apply(Some(&both), Target::Fps165).is_ok());
    let one = store_with(&[("GameQualitySetting", BLOB_60)]);
    assert!(apply(Some(&one), Target::Fps165).is_ok());
    assert_eq!(stored(&both), stored(&one));
    assert!(!stored(&both).contains("120"));
}

#[test]
fn path_at_which_nothing_lies_fails_before_the_store() {
    assert_eq!(
        read(None),
        Err(UnlockError::FileNotFound("LocalStorage.db".to_string()))
    );
    assert_eq!(
        apply(None, Target::Fps120),
        Err(UnlockError::FileNotFound("LocalStorage.db".to_string()))
    );
    assert_eq!(
        apply(None, Target::Fps165),
        Err(UnlockError::FileNotFound("LocalStorage.db".to_string()))
    );
}

#[test]
fn message_of_the_missing_row_is_the_stores_own() {
    assert_eq!(NO_ROW_MESSAGE, rusqlite::Error::QueryReturnedNoRows.to_string());
}
