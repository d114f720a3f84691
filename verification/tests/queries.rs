use rusqlite::types::Value;
use track_store::entities::{track_from_row, SqlParam, TrackRow};
use track_store::queries::{
    keyword_fts_query, keyword_search_is_ranked, keyword_search_sql, metadata_query,
    KEYWORD_JOIN_SQL, KEYWORD_SELECT_SQL, METADATA_SELECT_SQL, RANKED_SEARCH_SQL,
    UNRANKED_SEARCH_SQL,
};
use track_store::submit_isrcs::SubmitISRCSRequest;
use track_store::text::count_words;

fn text_of(p: &SqlParam) -> &str {
    match p {
        SqlParam::Text(s) => s.as_str(),
        _ => panic!("not a text parameter"),
    }
}

#[test]
fn counts_words_separated_by_any_whitespace() {
    assert_eq!(count_words(""), 0);
    assert_eq!(count_words("   "), 0);
    assert_eq!(count_words("one"), 1);
    assert_eq!(count_words("  one two\tthree\n four  "), 4);
    assert_eq!(count_words("a\u{3000}b\u{00A0}c\u{2028}d"), 4);
    assert_eq!(count_words("naïve café"), 2);
}

#[test]
fn counts_words_like_split_whitespace() {
    for s in ["x  y", " \u{85}x\u{1680}y\u{205F}z", "no-space-here", "\u{200B}a b"] {
        assert_eq!(count_words(s), s.split_whitespace().count(), "{:?}", s);
    }
}

#[test]
fn ranks_long_free_text_queries_only() {
    assert!(!keyword_search_is_ranked(Some("one two three"), None, None, None));
    assert!(keyword_search_is_ranked(Some("one two three four"), None, None, None));
    assert!(!keyword_search_is_ranked(Some("a b c"), Some("x y z w v"), None, None));
}

#[test]
fn ranks_track_name_alone_by_its_length() {
    assert!(!keyword_search_is_ranked(None, Some("short name"), None, None));
    assert!(keyword_search_is_ranked(None, Some("a much longer track name"), None, None));
}

#[test]
fn ranks_narrowed_track_name_searches() {
    assert!(keyword_search_is_ranked(None, Some("short"), Some("artist"), None));
    assert!(keyword_search_is_ranked(None, Some("short"), None, Some("album")));
    assert!(keyword_search_is_ranked(None, None, None, None));
}

#[test]
fn builds_ranked_and_unranked_search_sql() {
    let ranked = keyword_search_sql(true);
    assert_eq!(ranked, format!("{}{}{}", KEYWORD_SELECT_SQL, RANKED_SEARCH_SQL, KEYWORD_JOIN_SQL));
    assert!(ranked.contains("ORDER BY rank LIMIT 20"));
    let unranked = keyword_search_sql(false);
    assert_eq!(unranked, format!("{}{}{}", KEYWORD_SELECT_SQL, UNRANKED_SEARCH_SQL, KEYWORD_JOIN_SQL));
    assert!(!unranked.contains("ORDER BY rank"));
    assert_eq!(ranked.matches('?').count(), 1);
    assert_eq!(unranked.matches('?').count(), 1);
}

#[test]
fn isrc_wins_in_full_text_query() {
    let prep = |s: &str| s.to_lowercase();
    let q = keyword_fts_query(Some("Q"), Some("Name"), None, None, Some("USABC1234567"), &prep);
    assert_eq!(q, "isrcs : \"USABC1234567\"");
}

#[test]
fn free_text_is_prepared() {
    let prep = |s: &str| format!("<{}>", s.to_lowercase());
    let q = keyword_fts_query(Some("Hello World"), Some("Name"), Some("Artist"), None, None, &prep);
    assert_eq!(q, "<hello world>");
}

#[test]
fn track_name_is_narrowed_by_artist_and_album() {
    let prep = |s: &str| s.to_string();
    assert_eq!(
        keyword_fts_query(None, Some("song"), None, None, None, &prep),
        "name_lower : \"song\""
    );
    assert_eq!(
        keyword_fts_query(None, Some("song"), Some("band"), Some("record"), None, &prep),
        "name_lower : \"song\" AND artist_name_lower : \"band\" AND album_name_lower : \"record\""
    );
    assert_eq!(
        keyword_fts_query(None, Some("song"), None, Some("record"), None, &prep),
        "name_lower : \"song\" AND album_name_lower : \"record\""
    );
    assert_eq!(keyword_fts_query(None, None, Some("band"), None, None, &prep), "");
}

#[test]
fn metadata_query_with_names_only() {
    let (sql, params) = metadata_query("song", "band", None, None);
    assert_eq!(
        sql,
        format!(
            "{} WHERE tracks.name_lower = ? AND tracks.artist_name_lower = ? ORDER BY tracks.id",
            METADATA_SELECT_SQL
        )
    );
    assert_eq!(params.len(), 2);
    assert_eq!(text_of(&params[0]), "song");
    assert_eq!(text_of(&params[1]), "band");
}

#[test]
fn metadata_query_with_duration_then_album() {
    let window = Some((Value::Real(198.0), Value::Real(202.0)));
    let (sql, params) = metadata_query("song", "band", Some("record"), window);
    assert!(sql.ends_with(
        " WHERE tracks.name_lower = ? AND tracks.artist_name_lower = ? AND tracks.duration >= ? AND tracks.duration <= ? AND tracks.album_name_lower = ? ORDER BY tracks.id"
    ));
    assert_eq!(params.len(), 5);
    assert_eq!(sql.matches('?').count(), params.len());
    assert!(matches!(params[2], SqlParam::Raw(Value::Real(d)) if d == 198.0));
    assert!(matches!(params[3], SqlParam::Raw(Value::Real(d)) if d == 202.0));
    assert_eq!(text_of(&params[4]), "record");
}

#[test]
fn metadata_query_with_album_only() {
    let (sql, params) = metadata_query("song", "band", Some("record"), None);
    assert!(sql.contains("tracks.artist_name_lower = ? AND tracks.album_name_lower = ?"));
    assert_eq!(params.len(), 3);
    assert_eq!(sql.matches('?').count(), 3);
}

#[test]
fn missing_instrumental_flag_reads_as_false() {
    let row = TrackRow {
        id: 7,
        name: Some("Song".to_string()),
        artist_name: None,
        album_name: Some("Record".to_string()),
        duration: Some(Value::Real(200.5)),
        instrumental: None,
        plain_lyrics: Some("la la".to_string()),
        synced_lyrics: None,
    };
    let t = track_from_row(row, None);
    assert_eq!(t.id, 7);
    assert_eq!(t.name.as_deref(), Some("Song"));
    assert_eq!(t.duration, Some(Value::Real(200.5)));
    let lyrics = t.last_lyrics.unwrap();
    assert!(!lyrics.instrumental);
    assert_eq!(lyrics.plain_lyrics.as_deref(), Some("la la"));
    assert!(t.isrcs.is_none());
}

#[test]
fn instrumental_flag_is_kept() {
    let row = TrackRow {
        id: 1,
        name: None,
        artist_name: None,
        album_name: None,
        duration: None,
        instrumental: Some(true),
        plain_lyrics: None,
        synced_lyrics: None,
    };
    let t = track_from_row(row, Some(vec!["X".to_string()]));
    assert!(t.last_lyrics.unwrap().instrumental);
    assert_eq!(t.isrcs, Some(vec!["X".to_string()]));
}

#[test]
fn missing_isrc_list_submits_none() {
    let r = SubmitISRCSRequest { isrcs: None, track_id: 3 };
    assert!(r.isrcs_or_empty().is_empty());
    let r = SubmitISRCSRequest { isrcs: Some(vec!["A".to_string(), "B".to_string()]), track_id: 3 };
    assert_eq!(r.isrcs_or_empty(), &["A".to_string(), "B".to_string()][..]);
}
