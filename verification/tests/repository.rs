use rusqlite::types::Value;
use rusqlite::Connection;
use track_store::submit_isrcs::{submit, SubmitISRCSRequest};
use track_store::track_repository::{
    add_one, add_one_tx, flag_track_last_lyrics, get_isrcs_for_track, get_track_by_id,
    get_track_by_isrc, get_track_by_metadata, get_track_id_by_metadata,
    get_track_id_by_metadata_tx, get_tracks_by_keyword, submit_isrcs,
};

fn lower(s: &str) -> String {
    s.to_lowercase()
}

fn database() -> Connection {
    let conn = Connection::open_in_memory().unwrap();
    conn.execute_batch(
        "CREATE TABLE lyrics (
           id INTEGER PRIMARY KEY,
           plain_lyrics TEXT,
           synced_lyrics TEXT,
           instrumental BOOLEAN
         );
         CREATE TABLE tracks (
           id INTEGER PRIMARY KEY,
           name TEXT, name_lower TEXT,
           artist_name TEXT, artist_name_lower TEXT,
           album_name TEXT, album_name_lower TEXT,
           duration REAL,
           last_lyrics_id INTEGER,
           isrcs TEXT,
           created_at DATETIME, updated_at DATETIME
         );
         CREATE TABLE isrcs (
           isrc TEXT NOT NULL,
           track_id INTEGER NOT NULL,
           UNIQUE (isrc, track_id)
         );
         CREATE TABLE flags (
           id INTEGER PRIMARY KEY,
           lyrics_id INTEGER,
           content TEXT,
           created_at DATETIME
         );
         CREATE VIRTUAL TABLE tracks_fts USING fts5(
           name_lower, artist_name_lower, album_name_lower, isrcs
         );",
    )
    .unwrap();
    conn
}

fn index_for_search(conn: &Connection, id: i64) {
    conn.execute(
        "INSERT INTO tracks_fts (rowid, name_lower, artist_name_lower, album_name_lower, isrcs)
         SELECT t.id, t.name_lower, t.artist_name_lower, t.album_name_lower,
                (SELECT group_concat(isrc, ' ') FROM isrcs WHERE track_id = t.id)
         FROM tracks t WHERE t.id = ?",
        [id],
    )
    .unwrap();
}

fn set_lyrics(conn: &Connection, track_id: i64, plain: &str, instrumental: Option<bool>) {
    conn.execute(
        "INSERT INTO lyrics (plain_lyrics, synced_lyrics, instrumental) VALUES (?, NULL, ?)",
        (plain, instrumental),
    )
    .unwrap();
    let lyrics_id = conn.last_insert_rowid();
    conn.execute("UPDATE tracks SET last_lyrics_id = ? WHERE id = ?", (lyrics_id, track_id))
        .unwrap();
}

#[test]
fn added_track_reads_back_by_id() {
    let mut conn = database();
    let id = add_one(
        "Song Title",
        "The Band",
        "First Record",
        Value::Real(201.5),
        Some(vec!["USAAA0000001".to_string(), "USAAA0000002".to_string()]),
        &lower,
        &mut conn,
    )
    .unwrap();
    let t = get_track_by_id(id, &mut conn).unwrap().unwrap();
    assert_eq!(t.id, id);
    assert_eq!(t.name.as_deref(), Some("Song Title"));
    assert_eq!(t.artist_name.as_deref(), Some("The Band"));
    assert_eq!(t.album_name.as_deref(), Some("First Record"));
    assert_eq!(t.duration, Some(Value::Real(201.5)));
    assert_eq!(
        t.isrcs,
        Some(vec!["USAAA0000001".to_string(), "USAAA0000002".to_string()])
    );
    let lyrics = t.last_lyrics.unwrap();
    assert!(!lyrics.instrumental);
    assert!(lyrics.plain_lyrics.is_none());
    let lowered: String = conn
        .query_row("SELECT name_lower FROM tracks WHERE id = ?", [id], |r| r.get(0))
        .unwrap();
    assert_eq!(lowered, "song title");
}

#[test]
fn unknown_id_reads_none() {
    let mut conn = database();
    assert!(get_track_by_id(42, &mut conn).unwrap().is_none());
}

#[test]
fn missing_table_is_a_database_error() {
    let mut conn = Connection::open_in_memory().unwrap();
    assert!(get_track_by_id(1, &mut conn).is_err());
}

#[test]
fn track_reads_back_by_isrc_with_lyrics() {
    let mut conn = database();
    let id = add_one("A", "B", "C", Value::Real(100.0), Some(vec!["ISRC1".to_string()]), &lower, &mut conn)
        .unwrap();
    set_lyrics(&conn, id, "words", Some(true));
    let t = get_track_by_isrc("ISRC1".to_string(), &mut conn).unwrap().unwrap();
    assert_eq!(t.id, id);
    let lyrics = t.last_lyrics.unwrap();
    assert!(lyrics.instrumental);
    assert_eq!(lyrics.plain_lyrics.as_deref(), Some("words"));
    assert!(get_track_by_isrc("NOPE".to_string(), &mut conn).unwrap().is_none());
}

#[test]
fn duplicate_isrcs_are_recorded_once() {
    let mut conn = database();
    let id = add_one(
        "A",
        "B",
        "C",
        Value::Real(100.0),
        Some(vec!["X".to_string(), "X".to_string()]),
        &lower,
        &mut conn,
    )
    .unwrap();
    submit_isrcs(&["X".to_string(), "Y".to_string()], id, &mut conn).unwrap();
    assert_eq!(get_isrcs_for_track(id, &conn).unwrap(), vec!["X".to_string(), "Y".to_string()]);
}

#[test]
fn finds_id_by_metadata_in_window() {
    let mut conn = database();
    let first = add_one("Song", "Band", "Rec", Value::Real(200.0), None, &lower, &mut conn).unwrap();
    let _second = add_one("Song", "Band", "Rec", Value::Real(201.0), None, &lower, &mut conn).unwrap();
    let found = get_track_id_by_metadata(
        "SONG",
        "band",
        "REC",
        Value::Real(199.0),
        Value::Real(203.0),
        &lower,
        &mut conn,
    )
    .unwrap();
    assert_eq!(found, Some(first));
    let none = get_track_id_by_metadata(
        "Song",
        "Band",
        "Rec",
        Value::Real(300.0),
        Value::Real(304.0),
        &lower,
        &mut conn,
    )
    .unwrap();
    assert_eq!(none, None);
}

#[test]
fn transaction_variants_take_part_in_the_transaction() {
    let mut conn = database();
    {
        let mut tx = conn.transaction().unwrap();
        let id = add_one_tx("T", "A", "R", Value::Real(50.0), Some(vec!["I".to_string()]), &lower, &mut tx)
            .unwrap();
        let found = get_track_id_by_metadata_tx(
            "t",
            "a",
            "r",
            Value::Real(48.0),
            Value::Real(52.0),
            &lower,
            &mut tx,
        )
        .unwrap();
        assert_eq!(found, Some(id));
        tx.rollback().unwrap();
    }
    assert!(get_track_by_id(1, &mut conn).unwrap().is_none());
}

#[test]
fn track_by_metadata_honours_optional_conditions() {
    let mut conn = database();
    let a = add_one("Song", "Band", "One", Value::Real(200.0), None, &lower, &mut conn).unwrap();
    let b = add_one("Song", "Band", "Two", Value::Real(300.0), None, &lower, &mut conn).unwrap();
    let t = get_track_by_metadata("song", "band", None, None, &mut conn).unwrap().unwrap();
    assert_eq!(t.id, a);
    let t = get_track_by_metadata("song", "band", Some("two"), None, &mut conn).unwrap().unwrap();
    assert_eq!(t.id, b);
    let window = Some((Value::Real(298.0), Value::Real(302.0)));
    let t = get_track_by_metadata("song", "band", None, window, &mut conn).unwrap().unwrap();
    assert_eq!(t.id, b);
    assert_eq!(t.isrcs, Some(vec![]));
    let window = Some((Value::Real(298.0), Value::Real(302.0)));
    assert!(get_track_by_metadata("song", "band", Some("one"), window, &mut conn).unwrap().is_none());
}

#[test]
fn keyword_search_without_query_or_name_is_empty() {
    let mut conn = Connection::open_in_memory().unwrap();
    let found = get_tracks_by_keyword(None, None, Some("band"), Some("rec"), Some("I"), &lower, &mut conn)
        .unwrap();
    assert!(found.is_empty());
}

#[test]
fn keyword_search_finds_by_name_query_and_isrc() {
    let mut conn = database();
    let a = add_one("Blue Sky", "Band", "Rec", Value::Real(200.0), Some(vec!["ISRCA".to_string()]), &lower, &mut conn)
        .unwrap();
    let b = add_one("Red Sun", "Other", "Disc", Value::Real(210.0), None, &lower, &mut conn).unwrap();
    index_for_search(&conn, a);
    index_for_search(&conn, b);

    let found = get_tracks_by_keyword(Some("Red"), None, None, None, None, &lower, &mut conn).unwrap();
    assert_eq!(found.len(), 1);
    assert_eq!(found[0].id, b);
    assert_eq!(found[0].isrcs, Some(vec![]));
    assert!(found[0].last_lyrics.is_some());

    let found =
        get_tracks_by_keyword(None, Some("blue sky"), Some("band"), None, None, &lower, &mut conn).unwrap();
    assert_eq!(found.len(), 1);
    assert_eq!(found[0].id, a);
    assert_eq!(found[0].isrcs, Some(vec!["ISRCA".to_string()]));

    let found =
        get_tracks_by_keyword(Some("anything"), None, None, None, Some("ISRCA"), &lower, &mut conn).unwrap();
    assert_eq!(found.len(), 1);
    assert_eq!(found[0].id, a);
}

#[test]
fn flags_the_current_lyrics() {
    let mut conn = database();
    let id = add_one("A", "B", "C", Value::Real(1.0), None, &lower, &mut conn).unwrap();
    set_lyrics(&conn, id, "words", None);
    flag_track_last_lyrics(id, "wrong lyrics", &mut conn).unwrap();
    let (lyrics_id, content): (i64, String) = conn
        .query_row("SELECT lyrics_id, content FROM flags", [], |r| Ok((r.get(0)?, r.get(1)?)))
        .unwrap();
    let last: i64 = conn
        .query_row("SELECT last_lyrics_id FROM tracks WHERE id = ?", [id], |r| r.get(0))
        .unwrap();
    assert_eq!(lyrics_id, last);
    assert_eq!(content, "wrong lyrics");
}

#[test]
fn created_and_updated_times_are_equal() {
    let mut conn = database();
    let id = add_one("A", "B", "C", Value::Real(1.0), None, &lower, &mut conn).unwrap();
    let (c, u): (String, String) = conn
        .query_row("SELECT created_at, updated_at FROM tracks WHERE id = ?", [id], |r| {
            Ok((r.get(0)?, r.get(1)?))
        })
        .unwrap();
    assert_eq!(c, u);
    assert!(c.ends_with("+00:00"));
}

#[test]
fn submitted_request_records_its_isrcs() {
    let mut conn = database();
    let id = add_one("A", "B", "C", Value::Real(1.0), None, &lower, &mut conn).unwrap();
    submit(&SubmitISRCSRequest { isrcs: None, track_id: id }, &mut conn).unwrap();
    assert!(get_isrcs_for_track(id, &conn).unwrap().is_empty());
    let request = SubmitISRCSRequest { isrcs: Some(vec!["Z1".to_string(), "Z2".to_string()]), track_id: id };
    submit(&request, &mut conn).unwrap();
    assert_eq!(get_isrcs_for_track(id, &conn).unwrap(), vec!["Z1".to_string(), "Z2".to_string()]);
}

#[test]
fn integer_duration_reads_as_real() {
    let mut conn = database();
    let id = add_one("A", "B", "C", Value::Integer(180), None, &lower, &mut conn).unwrap();
    let t = get_track_by_id(id, &mut conn).unwrap().unwrap();
    assert_eq!(t.duration, Some(Value::Real(180.0)));
}

#[test]
fn empty_submission_needs_no_table() {
    let mut conn = Connection::open_in_memory().unwrap();
    assert!(submit_isrcs(&[], 9, &mut conn).is_ok());
    assert!(submit(&SubmitISRCSRequest { isrcs: None, track_id: 9 }, &mut conn).is_ok());
    assert!(submit(&SubmitISRCSRequest { isrcs: Some(vec![]), track_id: 9 }, &mut conn).is_ok());
    assert!(submit_isrcs(&["X".to_string()], 9, &mut conn).is_err());
}

#[test]
fn failed_isrc_recording_keeps_the_inserted_track() {
    let mut conn = database();
    conn.execute_batch("DROP TABLE isrcs;").unwrap();
    let r = add_one("A", "B", "C", Value::Real(1.0), Some(vec!["X".to_string()]), &lower, &mut conn);
    assert!(r.is_err());
    let count: i64 = conn.query_row("SELECT count(*) FROM tracks", [], |r| r.get(0)).unwrap();
    assert_eq!(count, 1);
    assert!(add_one("D", "E", "F", Value::Real(1.0), None, &lower, &mut conn).is_ok());
}

#[test]
fn flagging_a_missing_track_is_ok_and_flags_nothing() {
    let mut conn = database();
    flag_track_last_lyrics(404, "nothing here", &mut conn).unwrap();
    let count: i64 = conn.query_row("SELECT count(*) FROM flags", [], |r| r.get(0)).unwrap();
    assert_eq!(count, 0);
}

#[test]
fn reading_isrcs_without_the_table_fails() {
    let conn = Connection::open_in_memory().unwrap();
    assert!(get_isrcs_for_track(1, &conn).is_err());
}
