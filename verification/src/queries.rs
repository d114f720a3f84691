//! The SQL text of the repository, and the verified builders of the
//! statements whose shape depends on the request.

use vstd::prelude::*;
use rusqlite::types::Value;
use crate::entities::{SqlParam, is_text_param};
use crate::sqlite::{Timestamp, is_select};
use crate::text::{join, join_strs, placeholder_count, views, word_count, count_words, lemma_no_placeholder, lemma_placeholder_count_concat};

verus! {

/// Selects one track, its current lyrics, by the track's id.
pub const TRACK_BY_ID_SQL: &'static str = "SELECT\n  tracks.id,\n  tracks.name,\n  tracks.album_name,\n  tracks.artist_name,\n  tracks.duration,\n  tracks.last_lyrics_id,\n  lyrics.instrumental,\n  lyrics.plain_lyrics,\n  lyrics.synced_lyrics\nFROM\n  tracks\n  LEFT JOIN lyrics ON tracks.last_lyrics_id = lyrics.id\nWHERE\n  tracks.id = ?\n";

/// Selects the first track recorded under an ISRC, with its current lyrics.
pub const TRACK_BY_ISRC_SQL: &'static str = "SELECT\n  tracks.id,\n  tracks.name,\n  tracks.album_name,\n  tracks.artist_name,\n  tracks.duration,\n  tracks.last_lyrics_id,\n  lyrics.instrumental,\n  lyrics.plain_lyrics,\n  lyrics.synced_lyrics\nFROM\n  isrcs\n  JOIN tracks ON isrcs.track_id = tracks.id\n  LEFT JOIN lyrics ON tracks.last_lyrics_id = lyrics.id\nWHERE\n  isrcs.isrc = ?\nLIMIT 1\n";

/// Selects the ids of the tracks whose normalised names match and whose
/// duration lies in a window, lowest id first.
pub const TRACK_ID_BY_METADATA_SQL: &'static str = "SELECT\n  tracks.id\nFROM\n  tracks\nWHERE\n  tracks.name_lower = ?\n  AND tracks.artist_name_lower = ?\n  AND tracks.album_name_lower = ?\n  AND duration >= ?\n  AND duration <= ?\nORDER BY\n  tracks.id\n";

/// The select list and joins of a lookup by metadata; the WHERE clause is
/// built by `metadata_query`.
pub const METADATA_SELECT_SQL: &'static str = "SELECT\n  tracks.id,\n  tracks.name,\n  tracks.artist_name,\n  tracks.album_name,\n  tracks.duration,\n  tracks.last_lyrics_id,\n  tracks.isrcs,\n  lyrics.instrumental,\n  lyrics.plain_lyrics,\n  lyrics.synced_lyrics\nFROM\n  tracks\n  LEFT JOIN lyrics ON tracks.last_lyrics_id = lyrics.id\n";

pub const NAME_CLAUSE: &'static str = "tracks.name_lower = ?";
pub const ARTIST_CLAUSE: &'static str = "tracks.artist_name_lower = ?";
pub const DURATION_MIN_CLAUSE: &'static str = "tracks.duration >= ?";
pub const DURATION_MAX_CLAUSE: &'static str = "tracks.duration <= ?";
pub const ALBUM_CLAUSE: &'static str = "tracks.album_name_lower = ?";

/// The ISRCs recorded for a track.
pub const ISRCS_FOR_TRACK_SQL: &'static str = "SELECT isrc FROM isrcs WHERE track_id = ?";

/// Records an ISRC for a track, unless that pair is already recorded.
pub const INSERT_ISRC_SQL: &'static str = "INSERT OR IGNORE INTO isrcs (isrc, track_id) VALUES (?, ?)";

/// Inserts a track.
pub const INSERT_TRACK_SQL: &'static str = "INSERT INTO tracks (\n  name,\n  name_lower,\n  artist_name,\n  artist_name_lower,\n  album_name,\n  album_name_lower,\n  duration,\n  created_at,\n  updated_at\n)\nVALUES (?, ?, ?, ?, ?, ?, ?, ?, ?)\n";

/// Flags the lyrics that a track currently points at.
pub const FLAG_LAST_LYRICS_SQL: &'static str = "INSERT INTO flags (lyrics_id, content, created_at)\nSELECT last_lyrics_id, ?, ? FROM tracks WHERE id = ?\n";

/// The full-text search, best matches first.
pub const RANKED_SEARCH_SQL: &'static str = "SELECT rowid FROM tracks_fts WHERE tracks_fts MATCH ? ORDER BY rank LIMIT 20";

/// The full-text search, in the order the index yields.
pub const UNRANKED_SEARCH_SQL: &'static str = "SELECT rowid FROM tracks_fts WHERE tracks_fts MATCH ? LIMIT 20";

/// What comes before the full-text search in a keyword search.
pub const KEYWORD_SELECT_SQL: &'static str = "SELECT\n      tracks.id,\n      tracks.name,\n      tracks.artist_name,\n      tracks.album_name,\n      tracks.duration,\n      lyrics.instrumental,\n      lyrics.plain_lyrics,\n      lyrics.synced_lyrics\n    FROM\n      (";

/// What comes after the full-text search in a keyword search.
pub const KEYWORD_JOIN_SQL: &'static str = ") AS search_results\n      LEFT JOIN tracks ON search_results.rowid = tracks.id\n      LEFT JOIN lyrics ON tracks.last_lyrics_id = lyrics.id\n    ";

/// The conditions of a lookup by metadata, in the order they are joined:
/// the track and artist names, then the duration window when there is
/// one, then the album name when there is one.
pub open spec fn metadata_clauses(has_duration: bool, has_album: bool) -> Seq<Seq<char>> {
    seq![NAME_CLAUSE@, ARTIST_CLAUSE@] + (if has_duration {
        seq![DURATION_MIN_CLAUSE@, DURATION_MAX_CLAUSE@]
    } else {
        Seq::empty()
    }) + (if has_album {
        seq![ALBUM_CLAUSE@]
    } else {
        Seq::empty()
    })
}

/// The SQL text of a lookup by metadata.
pub open spec fn metadata_sql(has_duration: bool, has_album: bool) -> Seq<char> {
    METADATA_SELECT_SQL@ + " WHERE "@ + join(metadata_clauses(has_duration, has_album), " AND "@)
        + " ORDER BY tracks.id"@
}

/// The parameters of a lookup by metadata, one for each condition of
/// `metadata_clauses`, in the same order.
pub open spec fn metadata_params(
    params: Seq<SqlParam>,
    track_name_lower: Seq<char>,
    artist_name_lower: Seq<char>,
    album_name_lower: Option<Seq<char>>,
    duration_window: Option<(Value, Value)>,
) -> bool {
    let d: int = if duration_window is Some { 2 } else { 0 };
    &&& params.len() == 2 + d + if album_name_lower is Some { 1int } else { 0 }
    &&& is_text_param(params[0], track_name_lower)
    &&& is_text_param(params[1], artist_name_lower)
    &&& duration_window matches Some((lo, hi)) ==> params[2] == SqlParam::Raw(lo) && params[3]
        == SqlParam::Raw(hi)
    &&& album_name_lower matches Some(a) ==> is_text_param(params[2 + d], a)
}

/// The view of an optional string slice.
pub open spec fn opt_view(o: Option<&str>) -> Option<Seq<char>> {
    match o {
        Some(s) => Some(s@),
        None => None,
    }
}

/// Builds the statement of a lookup by metadata: the names must match, the
/// duration must lie in `duration_window` (lowest, highest) when one is
/// given, and the album name must match when one is given.
pub fn metadata_query(
    track_name_lower: &str,
    artist_name_lower: &str,
    album_name_lower: Option<&str>,
    duration_window: Option<(Value, Value)>,
) -> (r: (String, Vec<SqlParam>))
    ensures
        r.0@ == metadata_sql(duration_window is Some, album_name_lower is Some),
        metadata_params(
            r.1@,
            track_name_lower@,
            artist_name_lower@,
            opt_view(album_name_lower),
            duration_window,
        ),
        placeholder_count(r.0@) == r.1@.len(),
        is_select(r.0@),
        duration_window matches Some((lo, hi)) ==> r.1@.len() >= 4 && r.1@[2] == SqlParam::Raw(lo)
            && r.1@[3] == SqlParam::Raw(hi),
{
    let ghost window = duration_window;
    let has_duration = duration_window.is_some();
    let mut clauses: Vec<&str> = Vec::new();
    clauses.push(NAME_CLAUSE);
    clauses.push(ARTIST_CLAUSE);
    let mut params: Vec<SqlParam> = Vec::new();
    params.push(SqlParam::Text(String::from_str(track_name_lower)));
    params.push(SqlParam::Text(String::from_str(artist_name_lower)));
    if let Some((lo, hi)) = duration_window {
        clauses.push(DURATION_MIN_CLAUSE);
        clauses.push(DURATION_MAX_CLAUSE);
        params.push(SqlParam::Raw(lo));
        params.push(SqlParam::Raw(hi));
    }
    if let Some(album) = album_name_lower {
        clauses.push(ALBUM_CLAUSE);
        params.push(SqlParam::Text(String::from_str(album)));
    }
    assert(views(clauses@) =~= metadata_clauses(has_duration, album_name_lower is Some));
    let where_clause = join_strs(&clauses, " AND ");
    let mut sql = String::from_str(METADATA_SELECT_SQL);
    sql.append(" WHERE ");
    sql.append(where_clause.as_str());
    sql.append(" ORDER BY tracks.id");
    proof {
        reading_statements_are_selects();
        metadata_query_binds_every_placeholder(
            params@,
            track_name_lower@,
            artist_name_lower@,
            opt_view(album_name_lower),
            window,
        );
    }
    (sql, params)
}

/// Joining adds up the placeholders of the parts when the separator holds
/// none.
proof fn lemma_placeholders_of_join(parts: Seq<Seq<char>>, sep: Seq<char>, each: nat)
    requires
        placeholder_count(sep) == 0,
        forall|i: int| 0 <= i < parts.len() ==> placeholder_count(#[trigger] parts[i]) == each,
    ensures
        placeholder_count(join(parts, sep)) == parts.len() * each,
    decreases parts.len(),
{
    if parts.len() > 1 {
        lemma_placeholders_of_join(parts.drop_last(), sep, each);
        lemma_placeholder_count_concat(join(parts.drop_last(), sep), sep);
        lemma_placeholder_count_concat(join(parts.drop_last(), sep) + sep, parts.last());
        assert(parts.len() * each == (parts.len() - 1) * each + each) by (nonlinear_arith);
    } else if parts.len() == 0 {
        assert(placeholder_count(Seq::<char>::empty()) == 0);
    }
}

/// Every `?` placeholder of a lookup by metadata gets a parameter: the
/// statement that `metadata_query` builds holds exactly as many
/// placeholders as it binds parameters, whichever of the optional
/// conditions are present.
pub proof fn metadata_query_binds_every_placeholder(
    params: Seq<SqlParam>,
    track_name_lower: Seq<char>,
    artist_name_lower: Seq<char>,
    album_name_lower: Option<Seq<char>>,
    duration_window: Option<(Value, Value)>,
)
    requires
        metadata_params(params, track_name_lower, artist_name_lower, album_name_lower, duration_window),
    ensures
        placeholder_count(metadata_sql(duration_window is Some, album_name_lower is Some))
            == params.len(),
{
    reveal_strlit("SELECT\n  tracks.id,\n  tracks.name,\n  tracks.artist_name,\n  tracks.album_name,\n  tracks.duration,\n  tracks.last_lyrics_id,\n  tracks.isrcs,\n  lyrics.instrumental,\n  lyrics.plain_lyrics,\n  lyrics.synced_lyrics\nFROM\n  tracks\n  LEFT JOIN lyrics ON tracks.last_lyrics_id = lyrics.id\n");
    reveal_strlit(" WHERE ");
    reveal_strlit(" AND ");
    reveal_strlit(" ORDER BY tracks.id");
    reveal_strlit("tracks.name_lower = ?");
    reveal_strlit("tracks.artist_name_lower = ?");
    reveal_strlit("tracks.duration >= ?");
    reveal_strlit("tracks.duration <= ?");
    reveal_strlit("tracks.album_name_lower = ?");
    let select = METADATA_SELECT_SQL@;
    assert(forall|i: int| 0 <= i < select.len() ==> select[i] != '?');
    lemma_no_placeholder(select);
    lemma_no_placeholder(" WHERE "@);
    lemma_no_placeholder(" AND "@);
    lemma_no_placeholder(" ORDER BY tracks.id"@);
    let has_duration = duration_window is Some;
    let has_album = album_name_lower is Some;
    let clauses = metadata_clauses(has_duration, has_album);
    assert forall|i: int| 0 <= i < clauses.len() implies placeholder_count(#[trigger] clauses[i])
        == 1 by {
        let c = clauses[i];
        assert(c.last() == '?');
        assert(forall|j: int| 0 <= j < c.len() - 1 ==> c.drop_last()[j] != '?');
        lemma_no_placeholder(c.drop_last());
    }
    lemma_placeholders_of_join(clauses, " AND "@, 1);
    let w = join(clauses, " AND "@);
    lemma_placeholder_count_concat(select, " WHERE "@);
    lemma_placeholder_count_concat(select + " WHERE "@, w);
    lemma_placeholder_count_concat(select + " WHERE "@ + w, " ORDER BY tracks.id"@);
}

/// Whether a keyword search ranks its matches: when the free-text query
/// has more than three words; without one, when only a track name is given
/// and it has more than three words; and always when an artist or album
/// name narrows a track name.
pub open spec fn search_is_ranked(
    q: Option<Seq<char>>,
    track_name: Option<Seq<char>>,
    artist_name: Option<Seq<char>>,
    album_name: Option<Seq<char>>,
) -> bool {
    match q {
        Some(query) => word_count(query) > 3,
        None => match (track_name, artist_name, album_name) {
            (Some(name), None, None) => word_count(name) > 3,
            _ => true,
        },
    }
}

/// Decides whether a keyword search ranks its matches.
pub fn keyword_search_is_ranked(
    q: Option<&str>,
    track_name: Option<&str>,
    artist_name: Option<&str>,
    album_name: Option<&str>,
) -> (r: bool)
    ensures
        r == search_is_ranked(
            opt_view(q),
            opt_view(track_name),
            opt_view(artist_name),
            opt_view(album_name),
        ),
{
    match q {
        Some(query) => count_words(query) > 3,
        None => match (track_name, artist_name, album_name) {
            (Some(name), None, None) => count_words(name) > 3,
            _ => true,
        },
    }
}

/// The SQL text of a keyword search.
pub open spec fn keyword_sql(ranked: bool) -> Seq<char> {
    KEYWORD_SELECT_SQL@ + (if ranked {
        RANKED_SEARCH_SQL@
    } else {
        UNRANKED_SEARCH_SQL@
    }) + KEYWORD_JOIN_SQL@
}

/// Builds the SQL text of a keyword search.
pub fn keyword_search_sql(ranked: bool) -> (r: String)
    ensures
        r@ == keyword_sql(ranked),
{
    let mut sql = String::from_str(KEYWORD_SELECT_SQL);
    if ranked {
        sql.append(RANKED_SEARCH_SQL);
    } else {
        sql.append(UNRANKED_SEARCH_SQL);
    }
    sql.append(KEYWORD_JOIN_SQL);
    sql
}

/// `column : "value"`, a full-text condition on one column.
pub open spec fn column_match(column: Seq<char>, value: Seq<char>) -> Seq<char> {
    column + " : \""@ + value + "\""@
}

/// The full-text query of a search by track name, narrowed by artist and
/// album names where they are given.
pub open spec fn track_name_fts(
    track_name: Seq<char>,
    artist_name: Option<Seq<char>>,
    album_name: Option<Seq<char>>,
) -> Seq<char> {
    column_match("name_lower"@, track_name) + (match artist_name {
        Some(a) => " AND "@ + column_match("artist_name_lower"@, a),
        None => Seq::empty(),
    }) + (match album_name {
        Some(a) => " AND "@ + column_match("album_name_lower"@, a),
        None => Seq::empty(),
    })
}

/// `fts` is the full-text query of a keyword search: `isrcs : "…"` when an
/// ISRC is given; else a result of `prepare_input` on the free-text query;
/// else the track name narrowed by the artist and album names given; else
/// empty.
pub open spec fn is_fts_query<F: Fn(&str) -> String>(
    q: Option<&str>,
    track_name: Option<&str>,
    artist_name: Option<&str>,
    album_name: Option<&str>,
    isrc: Option<&str>,
    prepare_input: F,
    fts: String,
) -> bool {
    match isrc {
        Some(i) => fts@ == column_match("isrcs"@, i@),
        None => match q {
            Some(query) => prepare_input.ensures((query,), fts),
            None => match track_name {
                Some(name) => fts@ == track_name_fts(name@, opt_view(artist_name), opt_view(album_name)),
                None => fts@ == Seq::<char>::empty(),
            },
        },
    }
}

/// Appends `column : "value"` to `out`.
fn push_column_match(out: &mut String, column: &str, value: &str)
    ensures
        final(out)@ == old(out)@ + column_match(column@, value@),
{
    out.append(column);
    out.append(" : \"");
    out.append(value);
    out.append("\"");
}

/// Builds the full-text query of a keyword search: an ISRC wins over
/// everything else; else the free-text query, normalised by
/// `prepare_input`; else the track name, narrowed by the artist and album
/// names given; else nothing.
pub fn keyword_fts_query<F: Fn(&str) -> String>(
    q: Option<&str>,
    track_name: Option<&str>,
    artist_name: Option<&str>,
    album_name: Option<&str>,
    isrc: Option<&str>,
    prepare_input: &F,
) -> (r: String)
    requires
        forall|s: &str| prepare_input.requires((s,)),
    ensures
        is_fts_query(q, track_name, artist_name, album_name, isrc, prepare_input, r),
{
    if let Some(isrc) = isrc {
        let mut r = String::new();
        push_column_match(&mut r, "isrcs", isrc);
        assert(r@ == column_match("isrcs"@, isrc@));
        r
    } else if let Some(q) = q {
        let r = prepare_input(q);
        assert(prepare_input.ensures((q,), r));
        r
    } else if let Some(track_name) = track_name {
        let mut r = String::new();
        push_column_match(&mut r, "name_lower", track_name);
        if let Some(artist_name) = artist_name {
            r.append(" AND ");
            push_column_match(&mut r, "artist_name_lower", artist_name);
        }
        if let Some(album_name) = album_name {
            r.append(" AND ");
            push_column_match(&mut r, "album_name_lower", album_name);
        }
        assert(r@ == track_name_fts(track_name@, opt_view(artist_name), opt_view(album_name)));
        r
    } else {
        let r = String::new();
        assert(r@ == Seq::<char>::empty());
        r
    }
}

/// A text whose only `?` stands at position `k` holds one placeholder.
proof fn lemma_single_placeholder(s: Seq<char>, k: int)
    requires
        0 <= k < s.len(),
        s[k] == '?',
        forall|i: int| 0 <= i < s.len() && i != k ==> s[i] != '?',
    ensures
        placeholder_count(s) == 1,
{
    let before = s.take(k);
    let after = s.skip(k + 1);
    assert(s =~= before + seq!['?'] + after);
    assert(forall|i: int| 0 <= i < before.len() ==> before[i] == s[i]);
    assert(forall|i: int| 0 <= i < after.len() ==> after[i] == s[k + 1 + i]);
    lemma_no_placeholder(before);
    lemma_no_placeholder(after);
    assert(placeholder_count(seq!['?']) == 1) by {
        let one = seq!['?'];
        assert(one.drop_last() =~= Seq::<char>::empty());
        assert(placeholder_count(one.drop_last()) == 0);
        assert(one.last() == '?');
    }
    lemma_placeholder_count_concat(before, seq!['?']);
    lemma_placeholder_count_concat(before + seq!['?'], after);
}

/// A keyword search binds exactly one parameter, the full-text query, and
/// its statement holds exactly one `?` placeholder, ranked or not.
pub proof fn keyword_search_binds_its_placeholder(ranked: bool)
    ensures
        placeholder_count(keyword_sql(ranked)) == 1,
{
    reveal_strlit("SELECT\n      tracks.id,\n      tracks.name,\n      tracks.artist_name,\n      tracks.album_name,\n      tracks.duration,\n      lyrics.instrumental,\n      lyrics.plain_lyrics,\n      lyrics.synced_lyrics\n    FROM\n      (");
    reveal_strlit(") AS search_results\n      LEFT JOIN tracks ON search_results.rowid = tracks.id\n      LEFT JOIN lyrics ON tracks.last_lyrics_id = lyrics.id\n    ");
    reveal_strlit("SELECT rowid FROM tracks_fts WHERE tracks_fts MATCH ? ORDER BY rank LIMIT 20");
    reveal_strlit("SELECT rowid FROM tracks_fts WHERE tracks_fts MATCH ? LIMIT 20");
    let head = KEYWORD_SELECT_SQL@;
    let tail = KEYWORD_JOIN_SQL@;
    let search = if ranked { RANKED_SEARCH_SQL@ } else { UNRANKED_SEARCH_SQL@ };
    assert(forall|i: int| 0 <= i < head.len() ==> head[i] != '?');
    assert(forall|i: int| 0 <= i < tail.len() ==> tail[i] != '?');
    lemma_no_placeholder(head);
    lemma_no_placeholder(tail);
    assert(search[52] == '?');
    assert(forall|i: int| 0 <= i < search.len() && i != 52 ==> search[i] != '?');
    lemma_single_placeholder(search, 52);
    lemma_placeholder_count_concat(head, search);
    lemma_placeholder_count_concat(head + search, tail);
}

/// A text holds one placeholder for each of the increasing positions `ps`
/// where it has a `?`, when it has no `?` elsewhere.
proof fn lemma_placeholders_at(s: Seq<char>, ps: Seq<int>)
    requires
        forall|j: int| 0 <= j < ps.len() ==> 0 <= #[trigger] ps[j] < s.len() && s[ps[j]] == '?',
        forall|j: int, l: int| 0 <= j < l < ps.len() ==> ps[j] < ps[l],
        forall|i: int| 0 <= i < s.len() && s[i] == '?' ==> ps.contains(i),
    ensures
        placeholder_count(s) == ps.len(),
    decreases ps.len(),
{
    if ps.len() == 0 {
        assert forall|i: int| 0 <= i < s.len() implies s[i] != '?' by {
            if s[i] == '?' {
                assert(ps.contains(i));
            }
        }
        lemma_no_placeholder(s);
    } else {
        let k = ps.last();
        let before = s.take(k);
        let rest = s.skip(k);
        assert(s =~= before + rest);
        assert forall|i: int| 0 <= i < rest.len() && i != 0 implies rest[i] != '?' by {
            if rest[i] == '?' {
                assert(s[k + i] == '?');
                assert(ps.contains(k + i));
                let j = choose|j: int| 0 <= j < ps.len() && ps[j] == k + i;
                if j < ps.len() - 1 {
                    assert(ps[j] < ps[ps.len() - 1]);
                }
            }
        }
        lemma_single_placeholder(rest, 0);
        let earlier = ps.drop_last();
        assert forall|i: int| 0 <= i < before.len() && before[i] == '?' implies earlier.contains(i) by {
            assert(s[i] == '?');
            assert(ps.contains(i));
            let j = choose|j: int| 0 <= j < ps.len() && ps[j] == i;
            assert(j != ps.len() - 1);
            assert(earlier[j] == i);
        }
        lemma_placeholders_at(before, earlier);
        lemma_placeholder_count_concat(before, rest);
    }
}

/// Each statement with a fixed text holds exactly as many `?`
/// placeholders as the function that runs it binds parameters: one for a
/// lookup by id, by ISRC or of a track's ISRCs, five for an id by
/// metadata (three names and the two bounds of the duration window), two
/// for an ISRC insertion, nine for a track insertion (see
/// `new_track_params`) and three for a flag.
pub proof fn fixed_statements_bind_every_placeholder()
    ensures
        placeholder_count(TRACK_BY_ID_SQL@) == 1,
        placeholder_count(TRACK_BY_ISRC_SQL@) == 1,
        placeholder_count(TRACK_ID_BY_METADATA_SQL@) == 5,
        placeholder_count(ISRCS_FOR_TRACK_SQL@) == 1,
        placeholder_count(INSERT_ISRC_SQL@) == 2,
        placeholder_count(INSERT_TRACK_SQL@) == 9,
        placeholder_count(FLAG_LAST_LYRICS_SQL@) == 3,
{
    reveal_strlit("SELECT\n  tracks.id,\n  tracks.name,\n  tracks.album_name,\n  tracks.artist_name,\n  tracks.duration,\n  tracks.last_lyrics_id,\n  lyrics.instrumental,\n  lyrics.plain_lyrics,\n  lyrics.synced_lyrics\nFROM\n  tracks\n  LEFT JOIN lyrics ON tracks.last_lyrics_id = lyrics.id\nWHERE\n  tracks.id = ?\n");
    assert(forall|i: int| 0 <= i < TRACK_BY_ID_SQL@.len() && i != 281 ==> TRACK_BY_ID_SQL@[i] != '?');
    lemma_single_placeholder(TRACK_BY_ID_SQL@, 281);
    reveal_strlit("SELECT\n  tracks.id,\n  tracks.name,\n  tracks.album_name,\n  tracks.artist_name,\n  tracks.duration,\n  tracks.last_lyrics_id,\n  lyrics.instrumental,\n  lyrics.plain_lyrics,\n  lyrics.synced_lyrics\nFROM\n  isrcs\n  JOIN tracks ON isrcs.track_id = tracks.id\n  LEFT JOIN lyrics ON tracks.last_lyrics_id = lyrics.id\nWHERE\n  isrcs.isrc = ?\nLIMIT 1\n");
    assert(forall|i: int| 0 <= i < TRACK_BY_ISRC_SQL@.len() && i != 325 ==> TRACK_BY_ISRC_SQL@[i] != '?');
    lemma_single_placeholder(TRACK_BY_ISRC_SQL@, 325);
    reveal_strlit("SELECT\n  tracks.id\nFROM\n  tracks\nWHERE\n  tracks.name_lower = ?\n  AND tracks.artist_name_lower = ?\n  AND tracks.album_name_lower = ?\n  AND duration >= ?\n  AND duration <= ?\nORDER BY\n  tracks.id\n");
    lemma_placeholders_at(TRACK_ID_BY_METADATA_SQL@, seq![61, 96, 130, 150, 170]);
    reveal_strlit("SELECT isrc FROM isrcs WHERE track_id = ?");
    assert(forall|i: int| 0 <= i < ISRCS_FOR_TRACK_SQL@.len() && i != 40 ==> ISRCS_FOR_TRACK_SQL@[i] != '?');
    lemma_single_placeholder(ISRCS_FOR_TRACK_SQL@, 40);
    reveal_strlit("INSERT OR IGNORE INTO isrcs (isrc, track_id) VALUES (?, ?)");
    lemma_placeholders_at(INSERT_ISRC_SQL@, seq![53, 56]);
    reveal_strlit("INSERT INTO tracks (\n  name,\n  name_lower,\n  artist_name,\n  artist_name_lower,\n  album_name,\n  album_name_lower,\n  duration,\n  created_at,\n  updated_at\n)\nVALUES (?, ?, ?, ?, ?, ?, ?, ?, ?)\n");
    lemma_placeholders_at(INSERT_TRACK_SQL@, seq![162, 165, 168, 171, 174, 177, 180, 183, 186]);
    reveal_strlit("INSERT INTO flags (lyrics_id, content, created_at)\nSELECT last_lyrics_id, ?, ? FROM tracks WHERE id = ?\n");
    lemma_placeholders_at(FLAG_LAST_LYRICS_SQL@, seq![74, 77, 102]);
}

/// Every statement of the reading path is a SELECT statement.
pub proof fn reading_statements_are_selects()
    ensures
        is_select(TRACK_BY_ID_SQL@),
        is_select(TRACK_BY_ISRC_SQL@),
        is_select(TRACK_ID_BY_METADATA_SQL@),
        is_select(ISRCS_FOR_TRACK_SQL@),
        forall|d: bool, a: bool| #[trigger] is_select(metadata_sql(d, a)),
        forall|ranked: bool| #[trigger] is_select(keyword_sql(ranked)),
{
    reveal_strlit("SELECT\n  tracks.id,\n  tracks.name,\n  tracks.album_name,\n  tracks.artist_name,\n  tracks.duration,\n  tracks.last_lyrics_id,\n  lyrics.instrumental,\n  lyrics.plain_lyrics,\n  lyrics.synced_lyrics\nFROM\n  tracks\n  LEFT JOIN lyrics ON tracks.last_lyrics_id = lyrics.id\nWHERE\n  tracks.id = ?\n");
    reveal_strlit("SELECT\n  tracks.id,\n  tracks.name,\n  tracks.album_name,\n  tracks.artist_name,\n  tracks.duration,\n  tracks.last_lyrics_id,\n  lyrics.instrumental,\n  lyrics.plain_lyrics,\n  lyrics.synced_lyrics\nFROM\n  isrcs\n  JOIN tracks ON isrcs.track_id = tracks.id\n  LEFT JOIN lyrics ON tracks.last_lyrics_id = lyrics.id\nWHERE\n  isrcs.isrc = ?\nLIMIT 1\n");
    reveal_strlit("SELECT\n  tracks.id\nFROM\n  tracks\nWHERE\n  tracks.name_lower = ?\n  AND tracks.artist_name_lower = ?\n  AND tracks.album_name_lower = ?\n  AND duration >= ?\n  AND duration <= ?\nORDER BY\n  tracks.id\n");
    reveal_strlit("SELECT isrc FROM isrcs WHERE track_id = ?");
    reveal_strlit("SELECT\n  tracks.id,\n  tracks.name,\n  tracks.artist_name,\n  tracks.album_name,\n  tracks.duration,\n  tracks.last_lyrics_id,\n  tracks.isrcs,\n  lyrics.instrumental,\n  lyrics.plain_lyrics,\n  lyrics.synced_lyrics\nFROM\n  tracks\n  LEFT JOIN lyrics ON tracks.last_lyrics_id = lyrics.id\n");
    reveal_strlit("SELECT\n      tracks.id,\n      tracks.name,\n      tracks.artist_name,\n      tracks.album_name,\n      tracks.duration,\n      lyrics.instrumental,\n      lyrics.plain_lyrics,\n      lyrics.synced_lyrics\n    FROM\n      (");
    assert forall|d: bool, a: bool| #[trigger] is_select(metadata_sql(d, a)) by {
        let rest = " WHERE "@ + join(metadata_clauses(d, a), " AND "@) + " ORDER BY tracks.id"@;
        assert(metadata_sql(d, a) =~= METADATA_SELECT_SQL@ + rest);
        assert((METADATA_SELECT_SQL@ + rest).take(6) =~= METADATA_SELECT_SQL@.take(6));
    }
    assert forall|ranked: bool| #[trigger] is_select(keyword_sql(ranked)) by {
        let rest = (if ranked { RANKED_SEARCH_SQL@ } else { UNRANKED_SEARCH_SQL@ }) + KEYWORD_JOIN_SQL@;
        assert(keyword_sql(ranked) =~= KEYWORD_SELECT_SQL@ + rest);
        assert((KEYWORD_SELECT_SQL@ + rest).take(6) =~= KEYWORD_SELECT_SQL@.take(6));
    }
}

/// The statement of a lookup by id.
pub fn track_by_id_statement(track_id: i64) -> (r: (&'static str, Vec<SqlParam>))
    ensures
        r.0@ == TRACK_BY_ID_SQL@,
        r.1@ == seq![SqlParam::Integer(track_id)],
        placeholder_count(r.0@) == r.1@.len(),
        is_select(r.0@),
{
    proof {
        reading_statements_are_selects();
        fixed_statements_bind_every_placeholder();
    }
    let mut params: Vec<SqlParam> = Vec::new();
    params.push(SqlParam::Integer(track_id));
    (TRACK_BY_ID_SQL, params)
}

/// The statement of a lookup by ISRC.
pub fn track_by_isrc_statement(isrc: String) -> (r: (&'static str, Vec<SqlParam>))
    ensures
        r.0@ == TRACK_BY_ISRC_SQL@,
        r.1@ == seq![SqlParam::Text(isrc)],
        placeholder_count(r.0@) == r.1@.len(),
        is_select(r.0@),
{
    proof {
        reading_statements_are_selects();
        fixed_statements_bind_every_placeholder();
    }
    let mut params: Vec<SqlParam> = Vec::new();
    params.push(SqlParam::Text(isrc));
    (TRACK_BY_ISRC_SQL, params)
}

/// The statement that reads the ISRCs of a track.
pub fn isrcs_statement(track_id: i64) -> (r: (&'static str, Vec<SqlParam>))
    ensures
        r.0@ == ISRCS_FOR_TRACK_SQL@,
        r.1@ == seq![SqlParam::Integer(track_id)],
        placeholder_count(r.0@) == r.1@.len(),
        is_select(r.0@),
{
    proof {
        reading_statements_are_selects();
        fixed_statements_bind_every_placeholder();
    }
    let mut params: Vec<SqlParam> = Vec::new();
    params.push(SqlParam::Integer(track_id));
    (ISRCS_FOR_TRACK_SQL, params)
}

/// The parameters of a lookup of an id by metadata: the track, artist and
/// album names, each as `prepare_input` normalises it, then the lowest and
/// the highest duration.
pub open spec fn is_id_by_metadata_params<F: Fn(&str) -> String>(
    params: Seq<SqlParam>,
    track_name: &str,
    artist_name: &str,
    album_name: &str,
    duration_min: Value,
    duration_max: Value,
    prepare_input: F,
) -> bool {
    &&& params.len() == 5
    &&& params[0] matches SqlParam::Text(t) && prepare_input.ensures((track_name,), t)
    &&& params[1] matches SqlParam::Text(a) && prepare_input.ensures((artist_name,), a)
    &&& params[2] matches SqlParam::Text(l) && prepare_input.ensures((album_name,), l)
    &&& params[3] == SqlParam::Raw(duration_min)
    &&& params[4] == SqlParam::Raw(duration_max)
}

/// The statement of a lookup of an id by metadata.
pub fn id_by_metadata_statement<F: Fn(&str) -> String>(
    track_name: &str,
    artist_name: &str,
    album_name: &str,
    duration_min: Value,
    duration_max: Value,
    prepare_input: &F,
) -> (r: (&'static str, Vec<SqlParam>))
    requires
        forall|s: &str| prepare_input.requires((s,)),
    ensures
        r.0@ == TRACK_ID_BY_METADATA_SQL@,
        is_id_by_metadata_params(r.1@, track_name, artist_name, album_name, duration_min, duration_max, *prepare_input),
        placeholder_count(r.0@) == r.1@.len(),
        is_select(r.0@),
{
    proof {
        reading_statements_are_selects();
        fixed_statements_bind_every_placeholder();
    }
    let mut params: Vec<SqlParam> = Vec::new();
    params.push(SqlParam::Text(prepare_input(track_name)));
    params.push(SqlParam::Text(prepare_input(artist_name)));
    params.push(SqlParam::Text(prepare_input(album_name)));
    params.push(SqlParam::Raw(duration_min));
    params.push(SqlParam::Raw(duration_max));
    (TRACK_ID_BY_METADATA_SQL, params)
}

/// The parameters of the insertion of a track: each name next to its form
/// normalised by `prepare_input`, then the duration, then `created` as both
/// creation and update time.
pub open spec fn is_track_insert_params<F: Fn(&str) -> String>(
    params: Seq<SqlParam>,
    track_name: &str,
    artist_name: &str,
    album_name: &str,
    duration: Value,
    created: Timestamp,
    prepare_input: F,
) -> bool {
    &&& params.len() == 9
    &&& is_text_param(params[0], track_name@)
    &&& params[1] matches SqlParam::Text(t) && prepare_input.ensures((track_name,), t)
    &&& is_text_param(params[2], artist_name@)
    &&& params[3] matches SqlParam::Text(a) && prepare_input.ensures((artist_name,), a)
    &&& is_text_param(params[4], album_name@)
    &&& params[5] matches SqlParam::Text(l) && prepare_input.ensures((album_name,), l)
    &&& params[6] == SqlParam::Raw(duration)
    &&& params[7] == SqlParam::Timestamp(created)
    &&& params[8] == SqlParam::Timestamp(created)
}

/// The statement of the insertion of a track.
pub fn track_insert_statement<F: Fn(&str) -> String>(
    track_name: &str,
    artist_name: &str,
    album_name: &str,
    duration: Value,
    created: Timestamp,
    prepare_input: &F,
) -> (r: (&'static str, Vec<SqlParam>))
    requires
        forall|s: &str| prepare_input.requires((s,)),
    ensures
        r.0@ == INSERT_TRACK_SQL@,
        is_track_insert_params(r.1@, track_name, artist_name, album_name, duration, created, *prepare_input),
        placeholder_count(r.0@) == r.1@.len(),
{
    proof {
        fixed_statements_bind_every_placeholder();
    }
    let track_name_lower = prepare_input(track_name);
    let artist_name_lower = prepare_input(artist_name);
    let album_name_lower = prepare_input(album_name);
    let mut params: Vec<SqlParam> = Vec::new();
    params.push(SqlParam::Text(String::from_str(track_name)));
    params.push(SqlParam::Text(track_name_lower));
    params.push(SqlParam::Text(String::from_str(artist_name)));
    params.push(SqlParam::Text(artist_name_lower));
    params.push(SqlParam::Text(String::from_str(album_name)));
    params.push(SqlParam::Text(album_name_lower));
    params.push(SqlParam::Raw(duration));
    params.push(SqlParam::Timestamp(created));
    params.push(SqlParam::Timestamp(created));
    (INSERT_TRACK_SQL, params)
}

/// The parameters that record the ISRC `isrc` for the track `track_id`.
pub open spec fn is_isrc_insert_params(params: Seq<SqlParam>, isrc: Seq<char>, track_id: i64) -> bool {
    &&& params.len() == 2
    &&& is_text_param(params[0], isrc)
    &&& params[1] == SqlParam::Integer(track_id)
}

/// The statement that records the ISRC `isrc` for the track `track_id`.
pub fn isrc_insert_statement(isrc: &str, track_id: i64) -> (r: (&'static str, Vec<SqlParam>))
    ensures
        r.0@ == INSERT_ISRC_SQL@,
        is_isrc_insert_params(r.1@, isrc@, track_id),
        placeholder_count(r.0@) == r.1@.len(),
{
    proof {
        fixed_statements_bind_every_placeholder();
    }
    let mut params: Vec<SqlParam> = Vec::new();
    params.push(SqlParam::Text(String::from_str(isrc)));
    params.push(SqlParam::Integer(track_id));
    (INSERT_ISRC_SQL, params)
}

/// The parameters that flag the current lyrics of the track `track_id`
/// with `content` at the time `at`.
pub open spec fn is_flag_params(params: Seq<SqlParam>, content: Seq<char>, at: Timestamp, track_id: i64) -> bool {
    &&& params.len() == 3
    &&& is_text_param(params[0], content)
    &&& params[1] == SqlParam::Timestamp(at)
    &&& params[2] == SqlParam::Integer(track_id)
}

/// The statement that flags the current lyrics of a track.
pub fn flag_statement(content: &str, at: Timestamp, track_id: i64) -> (r: (&'static str, Vec<SqlParam>))
    ensures
        r.0@ == FLAG_LAST_LYRICS_SQL@,
        is_flag_params(r.1@, content@, at, track_id),
        placeholder_count(r.0@) == r.1@.len(),
{
    proof {
        fixed_statements_bind_every_placeholder();
    }
    let mut params: Vec<SqlParam> = Vec::new();
    params.push(SqlParam::Text(String::from_str(content)));
    params.push(SqlParam::Timestamp(at));
    params.push(SqlParam::Integer(track_id));
    (FLAG_LAST_LYRICS_SQL, params)
}

/// The statement of a keyword search: ranked or not, with the full-text
/// query `fts` as its one parameter.
pub fn keyword_search_statement(ranked: bool, fts: String) -> (r: (String, Vec<SqlParam>))
    ensures
        r.0@ == keyword_sql(ranked),
        r.1@ == seq![SqlParam::Text(fts)],
        placeholder_count(r.0@) == r.1@.len(),
        is_select(r.0@),
{
    proof {
        reading_statements_are_selects();
        keyword_search_binds_its_placeholder(ranked);
    }
    let mut params: Vec<SqlParam> = Vec::new();
    params.push(SqlParam::Text(fts));
    (keyword_search_sql(ranked), params)
}

/// The conditions of a lookup by metadata: the track and artist names
/// always; a duration window adds both its lower and its upper bound,
/// after the names, whether or not an album is given; an album adds its
/// condition last, whether or not a window is given.
pub proof fn metadata_conditions_are_independent()
    ensures
        metadata_clauses(false, false) == seq![NAME_CLAUSE@, ARTIST_CLAUSE@],
        forall|has_album: bool| #[trigger] metadata_clauses(true, has_album).take(4)
            == metadata_clauses(false, false) + seq![DURATION_MIN_CLAUSE@, DURATION_MAX_CLAUSE@],
        forall|has_duration: bool| #[trigger] metadata_clauses(has_duration, true)
            == metadata_clauses(has_duration, false).push(ALBUM_CLAUSE@),
        forall|has_duration: bool, has_album: bool| #[trigger] metadata_clauses(has_duration, has_album).len()
            == 2 + (if has_duration { 2int } else { 0 }) + (if has_album { 1int } else { 0 }),
{
    assert(metadata_clauses(false, false) =~= seq![NAME_CLAUSE@, ARTIST_CLAUSE@]);
    assert forall|has_album: bool| #[trigger] metadata_clauses(true, has_album).take(4)
        == metadata_clauses(false, false) + seq![DURATION_MIN_CLAUSE@, DURATION_MAX_CLAUSE@] by {
        assert(metadata_clauses(true, has_album).take(4)
            =~= metadata_clauses(false, false) + seq![DURATION_MIN_CLAUSE@, DURATION_MAX_CLAUSE@]);
    }
    assert forall|has_duration: bool| #[trigger] metadata_clauses(has_duration, true)
        == metadata_clauses(has_duration, false).push(ALBUM_CLAUSE@) by {
        assert(metadata_clauses(has_duration, true) =~= metadata_clauses(has_duration, false).push(ALBUM_CLAUSE@));
    }
}

/// The parameters of a lookup by metadata bind the window's lower and
/// upper bound, in this order, right after the two names, whether or not
/// an album is given; the album name, when given, comes last.
pub proof fn metadata_window_binds_both_bounds(
    params: Seq<SqlParam>,
    track_name_lower: Seq<char>,
    artist_name_lower: Seq<char>,
    album_name_lower: Option<Seq<char>>,
    lo: Value,
    hi: Value,
)
    requires
        metadata_params(params, track_name_lower, artist_name_lower, album_name_lower, Some((lo, hi))),
    ensures
        params.len() == 4 + (if album_name_lower is Some { 1int } else { 0 }),
        params[2] == SqlParam::Raw(lo),
        params[3] == SqlParam::Raw(hi),
        album_name_lower matches Some(a) ==> is_text_param(params[4], a),
{
}

/// The full-text query of a search by track name: the name condition,
/// then the artist condition when an artist is given (whether or not an
/// album is), then the album condition when an album is given.
pub proof fn track_name_fts_conditions(track_name: Seq<char>, artist_name: Seq<char>, album_name: Seq<char>)
    ensures
        track_name_fts(track_name, None, None) == "name_lower : \""@ + track_name + "\""@,
        track_name_fts(track_name, Some(artist_name), None) == track_name_fts(track_name, None, None)
            + " AND artist_name_lower : \""@ + artist_name + "\""@,
        forall|artist: Option<Seq<char>>| #[trigger] track_name_fts(track_name, artist, Some(album_name))
            == track_name_fts(track_name, artist, None) + " AND album_name_lower : \""@ + album_name + "\""@,
{
    reveal_strlit("name_lower");
    reveal_strlit("artist_name_lower");
    reveal_strlit("album_name_lower");
    reveal_strlit(" : \"");
    reveal_strlit("\"");
    reveal_strlit(" AND ");
    reveal_strlit("name_lower : \"");
    reveal_strlit(" AND artist_name_lower : \"");
    reveal_strlit(" AND album_name_lower : \"");
    assert("name_lower"@ + " : \""@ =~= "name_lower : \""@);
    assert(" AND "@ + "artist_name_lower"@ + " : \""@ =~= " AND artist_name_lower : \""@);
    assert(" AND "@ + "album_name_lower"@ + " : \""@ =~= " AND album_name_lower : \""@);
    assert(track_name_fts(track_name, None, None) =~= "name_lower : \""@ + track_name + "\""@);
    assert(track_name_fts(track_name, Some(artist_name), None) =~= track_name_fts(track_name, None, None)
        + " AND artist_name_lower : \""@ + artist_name + "\""@);
    assert forall|artist: Option<Seq<char>>| #[trigger] track_name_fts(track_name, artist, Some(album_name))
        == track_name_fts(track_name, artist, None) + " AND album_name_lower : \""@ + album_name + "\""@ by {
        assert(track_name_fts(track_name, artist, Some(album_name)) =~= track_name_fts(track_name, artist, None)
            + " AND album_name_lower : \""@ + album_name + "\""@);
    }
}

}
