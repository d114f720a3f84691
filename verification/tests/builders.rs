use rusqlite::types::Value;
use track_store::clock::{now, unix_time};
use track_store::entities::{RepositoryError, SqlParam, TrackRow};
use track_store::queries::{
    flag_statement, id_by_metadata_statement, isrc_insert_statement, isrcs_statement,
    keyword_search_statement, track_by_id_statement, track_by_isrc_statement,
    track_insert_statement, FLAG_LAST_LYRICS_SQL, INSERT_ISRC_SQL, INSERT_TRACK_SQL,
    ISRCS_FOR_TRACK_SQL, TRACK_BY_ID_SQL, TRACK_BY_ISRC_SQL, TRACK_ID_BY_METADATA_SQL,
};
use track_store::track_repository::{first_track_result, tracks_from_rows};

fn text_of(p: &SqlParam) -> &str {
    match p {
        SqlParam::Text(s) => s.as_str(),
        _ => panic!("not a text parameter"),
    }
}

fn row(id: i64) -> TrackRow {
    TrackRow {
        id,
        name: Some(format!("track {}", id)),
        artist_name: None,
        album_name: None,
        duration: None,
        instrumental: None,
        plain_lyrics: None,
        synced_lyrics: None,
    }
}

fn failure() -> rusqlite::Error {
    rusqlite::Error::QueryReturnedNoRows
}

#[test]
fn unix_time_after_the_epoch() {
    assert_eq!(unix_time(Ok((1_700_000_000, 5))), Some((1_700_000_000, 5)));
    assert_eq!(unix_time(Ok((u64::MAX, 0))), None);
}

#[test]
fn unix_time_before_the_epoch() {
    assert_eq!(unix_time(Err((10, 0))), Some((-10, 0)));
    assert_eq!(unix_time(Err((10, 250_000_000))), Some((-11, 750_000_000)));
    assert_eq!(unix_time(Err((u64::MAX, 1))), None);
}

#[test]
fn the_clock_reads_a_storable_time() {
    assert!(now().is_some());
}

#[test]
fn lookup_statements_bind_their_key() {
    let (sql, params) = track_by_id_statement(7);
    assert_eq!(sql, TRACK_BY_ID_SQL);
    assert!(matches!(params[..], [SqlParam::Integer(7)]));
    let (sql, params) = track_by_isrc_statement("GBBKS1500214".to_string());
    assert_eq!(sql, TRACK_BY_ISRC_SQL);
    assert_eq!(params.len(), 1);
    assert_eq!(text_of(&params[0]), "GBBKS1500214");
    let (sql, params) = isrcs_statement(3);
    assert_eq!(sql, ISRCS_FOR_TRACK_SQL);
    assert!(matches!(params[..], [SqlParam::Integer(3)]));
}

#[test]
fn id_by_metadata_statement_normalises_names_in_order() {
    let prep = |s: &str| s.to_lowercase();
    let (sql, params) =
        id_by_metadata_statement("Song", "Band", "Rec", Value::Real(1.0), Value::Real(5.0), &prep);
    assert_eq!(sql, TRACK_ID_BY_METADATA_SQL);
    assert_eq!(params.len(), 5);
    assert_eq!(text_of(&params[0]), "song");
    assert_eq!(text_of(&params[1]), "band");
    assert_eq!(text_of(&params[2]), "rec");
    assert!(matches!(params[3], SqlParam::Raw(Value::Real(d)) if d == 1.0));
    assert!(matches!(params[4], SqlParam::Raw(Value::Real(d)) if d == 5.0));
    assert_eq!(sql.matches('?').count(), params.len());
}

#[test]
fn insert_statement_pairs_names_with_normalised_forms() {
    let prep = |s: &str| s.to_uppercase();
    let at = now().unwrap();
    let (sql, params) = track_insert_statement("a", "b", "c", Value::Real(2.5), at, &prep);
    assert_eq!(sql, INSERT_TRACK_SQL);
    assert_eq!(params.len(), 9);
    let texts: Vec<&str> = params[..6].iter().map(text_of).collect();
    assert_eq!(texts, vec!["a", "A", "b", "B", "c", "C"]);
    assert!(matches!(params[6], SqlParam::Raw(Value::Real(d)) if d == 2.5));
    assert!(matches!(params[7], SqlParam::Timestamp(_)));
    assert!(matches!(params[8], SqlParam::Timestamp(_)));
    assert_eq!(sql.matches('?').count(), params.len());
}

#[test]
fn isrc_and_flag_statements_bind_in_order() {
    let (sql, params) = isrc_insert_statement("X1", 4);
    assert_eq!(sql, INSERT_ISRC_SQL);
    assert_eq!(text_of(&params[0]), "X1");
    assert!(matches!(params[1], SqlParam::Integer(4)));
    let (sql, params) = flag_statement("bad", now().unwrap(), 9);
    assert_eq!(sql, FLAG_LAST_LYRICS_SQL);
    assert_eq!(text_of(&params[0]), "bad");
    assert!(matches!(params[1], SqlParam::Timestamp(_)));
    assert!(matches!(params[2], SqlParam::Integer(9)));
}

#[test]
fn keyword_statement_binds_the_full_text_query() {
    let (sql, params) = keyword_search_statement(false, "isrcs : \"GBBKS1500214\"".to_string());
    assert!(sql.contains("MATCH ? LIMIT 20"));
    assert!(!sql.contains("ORDER BY rank"));
    assert_eq!(params.len(), 1);
    assert_eq!(text_of(&params[0]), "isrcs : \"GBBKS1500214\"");
}

#[test]
fn first_track_result_assembles_or_fails() {
    assert!(matches!(first_track_result(None), Ok(None)));
    let t = first_track_result(Some((row(5), Ok(vec!["I".to_string()])))).unwrap().unwrap();
    assert_eq!(t.id, 5);
    assert_eq!(t.name.as_deref(), Some("track 5"));
    assert_eq!(t.isrcs, Some(vec!["I".to_string()]));
    assert!(!t.last_lyrics.unwrap().instrumental);
    assert!(matches!(
        first_track_result(Some((row(5), Err(failure())))),
        Err(RepositoryError::Database(_))
    ));
}

#[test]
fn tracks_from_rows_keeps_order_and_drops_unread_isrcs() {
    let tracks = tracks_from_rows(
        vec![row(1), row(2), row(3)],
        vec![Ok(vec!["A".to_string()]), Err(failure()), Ok(vec![])],
    );
    let ids: Vec<i64> = tracks.iter().map(|t| t.id).collect();
    assert_eq!(ids, vec![1, 2, 3]);
    assert_eq!(tracks[0].isrcs, Some(vec!["A".to_string()]));
    assert_eq!(tracks[1].isrcs, None);
    assert_eq!(tracks[2].isrcs, Some(vec![]));
    assert!(tracks.iter().all(|t| t.last_lyrics.is_some()));
}
