//! Reading and writing tracks.
//!
//! What SQLite hands back depends on what the database holds. The
//! contracts here say which statement each function sends, with which
//! parameters (fixed by the builders of `queries`), how what it hands back
//! is made of what SQLite answered, which statements it sent to change the
//! database and in what order, and which failure an error carries (the
//! records of `sqlite`).

use vstd::prelude::*;
use rusqlite::types::Value;
use rusqlite::{Connection, Rows, Transaction};
use crate::clock::{now, storable, time_of_reading, unix_time_of};
use crate::entities::{RepositoryError, SimpleTrack, SqlParam, TrackRow, track_from_row, track_of_row};
use crate::queries::{
    FLAG_LAST_LYRICS_SQL, INSERT_ISRC_SQL, INSERT_TRACK_SQL, ISRCS_FOR_TRACK_SQL, TRACK_BY_ID_SQL,
    TRACK_BY_ISRC_SQL, TRACK_ID_BY_METADATA_SQL, flag_statement, id_by_metadata_statement,
    is_flag_params, is_fts_query, is_id_by_metadata_params, is_isrc_insert_params,
    is_track_insert_params, isrc_insert_statement, isrcs_statement, keyword_fts_query,
    keyword_search_is_ranked, keyword_search_statement, keyword_sql, metadata_params, metadata_query,
    metadata_sql, opt_view, search_is_ranked, track_by_id_statement, track_by_isrc_statement,
    track_insert_statement,
};
use crate::sqlite::{
    Timestamp, advance, answer_ended, clock_read, column_integer, column_optional_bool,
    column_optional_real, column_optional_text, column_text_at, cursor_on_row, cursor_params,
    cursor_position, cursor_sql, executed, execute_in, execute_on, insert_in, insert_on, inserted,
    is_select, prepare, prepare_failed, query, requests, requests_in, sqlite_failed,
    transaction_connection, utc_at, yielded_integer, yielded_optional_bool, yielded_optional_real,
    yielded_optional_text, yielded_text_at,
};

verus! {

/// Turns an error of SQLite into an error of the repository.
pub fn database<T>(r: Result<T, rusqlite::Error>) -> (out: Result<T, RepositoryError>)
    ensures
        match r {
            Ok(v) => out == Ok::<T, RepositoryError>(v),
            Err(e) => out == Err::<T, RepositoryError>(RepositoryError::Database(e)),
        },
{
    match r {
        Ok(v) => Ok(v),
        Err(e) => Err(RepositoryError::Database(e)),
    }
}

/// Preparing `sql`, or running or reading it with `params`, failed with `e`.
pub open spec fn failed_on(sql: Seq<char>, params: Seq<SqlParam>, e: rusqlite::Error) -> bool {
    prepare_failed(sql, e) || sqlite_failed(sql, params, e)
}

// ---------------------------------------------------------------- reading

/// `row` holds the columns, read by name, of the row at `index` of `sql`
/// run with `params`.
pub open spec fn is_track_row_at(sql: Seq<char>, params: Seq<SqlParam>, index: nat, row: TrackRow) -> bool {
    &&& yielded_optional_bool(sql, params, index, "instrumental"@, row.instrumental)
    &&& yielded_optional_text(sql, params, index, "plain_lyrics"@, row.plain_lyrics)
    &&& yielded_optional_text(sql, params, index, "synced_lyrics"@, row.synced_lyrics)
    &&& yielded_integer(sql, params, index, "id"@, row.id)
    &&& yielded_optional_text(sql, params, index, "name"@, row.name)
    &&& yielded_optional_text(sql, params, index, "artist_name"@, row.artist_name)
    &&& yielded_optional_text(sql, params, index, "album_name"@, row.album_name)
    &&& yielded_optional_real(sql, params, index, "duration"@, row.duration)
}

/// Each field of a track row read from an answer is what SQLite yielded in
/// the column of the same name: `instrumental`, `plain_lyrics`,
/// `synced_lyrics`, `id`, `name`, `artist_name`, `album_name` and
/// `duration`, eight distinct columns.
pub proof fn track_row_fields_come_from_their_columns(sql: Seq<char>, params: Seq<SqlParam>, index: nat, row: TrackRow)
    requires
        is_track_row_at(sql, params, index, row),
    ensures
        yielded_optional_bool(sql, params, index, "instrumental"@, row.instrumental),
        yielded_optional_text(sql, params, index, "plain_lyrics"@, row.plain_lyrics),
        yielded_optional_text(sql, params, index, "synced_lyrics"@, row.synced_lyrics),
        yielded_integer(sql, params, index, "id"@, row.id),
        yielded_optional_text(sql, params, index, "name"@, row.name),
        yielded_optional_text(sql, params, index, "artist_name"@, row.artist_name),
        yielded_optional_text(sql, params, index, "album_name"@, row.album_name),
        yielded_optional_real(sql, params, index, "duration"@, row.duration),
        seq![
            "instrumental"@,
            "plain_lyrics"@,
            "synced_lyrics"@,
            "id"@,
            "name"@,
            "artist_name"@,
            "album_name"@,
            "duration"@,
        ].no_duplicates(),
{
    reveal_strlit("instrumental");
    reveal_strlit("plain_lyrics");
    reveal_strlit("synced_lyrics");
    reveal_strlit("id");
    reveal_strlit("name");
    reveal_strlit("artist_name");
    reveal_strlit("album_name");
    reveal_strlit("duration");
    let names = seq![
        "instrumental"@,
        "plain_lyrics"@,
        "synced_lyrics"@,
        "id"@,
        "name"@,
        "artist_name"@,
        "album_name"@,
        "duration"@,
    ];
    assert(names[0][0] != names[1][0]);
    assert forall|i: int, j: int| 0 <= i < names.len() && 0 <= j < names.len() && i != j implies names[i]
        != names[j] by {
        if i + j != 1 {
            assert(names[i].len() != names[j].len());
        }
    }
}

/// Reads the columns of a track query from the row the cursor stands on:
/// `instrumental`, `plain_lyrics`, `synced_lyrics`, `id`, `name`,
/// `artist_name`, `album_name` and `duration`, in this order; the first
/// column that cannot be read stops the reading.
pub fn read_track_row(rows: &Rows) -> (r: Result<TrackRow, rusqlite::Error>)
    requires
        cursor_on_row(*rows),
    ensures
        r matches Ok(row) ==> is_track_row_at(cursor_sql(*rows), cursor_params(*rows), (cursor_position(*rows) - 1) as nat, row),
        r matches Ok(row) ==> {
            let (sql, params, index) = (cursor_sql(*rows), cursor_params(*rows), (cursor_position(*rows) - 1) as nat);
            &&& yielded_optional_bool(sql, params, index, "instrumental"@, row.instrumental)
            &&& yielded_optional_text(sql, params, index, "plain_lyrics"@, row.plain_lyrics)
            &&& yielded_optional_text(sql, params, index, "synced_lyrics"@, row.synced_lyrics)
            &&& yielded_integer(sql, params, index, "id"@, row.id)
            &&& yielded_optional_text(sql, params, index, "name"@, row.name)
            &&& yielded_optional_text(sql, params, index, "artist_name"@, row.artist_name)
            &&& yielded_optional_text(sql, params, index, "album_name"@, row.album_name)
            &&& yielded_optional_real(sql, params, index, "duration"@, row.duration)
        },
        r matches Err(e) ==> sqlite_failed(cursor_sql(*rows), cursor_params(*rows), e),
{
    let instrumental = match column_optional_bool(rows, "instrumental") {
        Some(v) => v?,
        None => vstd::pervasive::unreached(),
    };
    let plain_lyrics = match column_optional_text(rows, "plain_lyrics") {
        Some(v) => v?,
        None => vstd::pervasive::unreached(),
    };
    let synced_lyrics = match column_optional_text(rows, "synced_lyrics") {
        Some(v) => v?,
        None => vstd::pervasive::unreached(),
    };
    let id = match column_integer(rows, "id") {
        Some(v) => v?,
        None => vstd::pervasive::unreached(),
    };
    let name = match column_optional_text(rows, "name") {
        Some(v) => v?,
        None => vstd::pervasive::unreached(),
    };
    let artist_name = match column_optional_text(rows, "artist_name") {
        Some(v) => v?,
        None => vstd::pervasive::unreached(),
    };
    let album_name = match column_optional_text(rows, "album_name") {
        Some(v) => v?,
        None => vstd::pervasive::unreached(),
    };
    let duration = match column_optional_real(rows, "duration") {
        Some(v) => v?,
        None => vstd::pervasive::unreached(),
    };
    Ok(TrackRow {
        id,
        name,
        artist_name,
        album_name,
        duration,
        instrumental,
        plain_lyrics,
        synced_lyrics,
    })
}

/// `isrcs` is the whole answer, in order, of the statement that reads the
/// ISRCs of the track `track_id`.
pub open spec fn is_isrc_list(track_id: i64, isrcs: Seq<String>) -> bool {
    let sql = ISRCS_FOR_TRACK_SQL@;
    let params = seq![SqlParam::Integer(track_id)];
    &&& answer_ended(sql, params, isrcs.len())
    &&& forall|k: int| 0 <= k < isrcs.len() ==> yielded_text_at(sql, params, k as nat, 0, #[trigger] isrcs[k]@)
}

/// The ISRCs recorded for the track `track_id`, in the order SQLite yields
/// them; the first error stops the reading and is the error handed back.
pub fn get_isrcs_for_track(track_id: i64, conn: &Connection) -> (r: Result<Vec<String>, rusqlite::Error>)
    ensures
        r matches Ok(v) ==> is_isrc_list(track_id, v@),
        r matches Err(e) ==> failed_on(ISRCS_FOR_TRACK_SQL@, seq![SqlParam::Integer(track_id)], e),
{
    let (sql, params) = isrcs_statement(track_id);
    let mut stmt = prepare(conn, sql)?;
    let mut rows = query(&mut stmt, params.as_slice())?;
    let mut isrcs: Vec<String> = Vec::new();
    loop
        invariant_except_break
            cursor_sql(rows) == ISRCS_FOR_TRACK_SQL@,
            cursor_params(rows) == seq![SqlParam::Integer(track_id)],
            cursor_position(rows) == isrcs.len(),
            forall|k: int| 0 <= k < isrcs.len() ==> yielded_text_at(ISRCS_FOR_TRACK_SQL@, seq![SqlParam::Integer(track_id)], k as nat, 0, #[trigger] isrcs@[k]@),
        ensures
            is_isrc_list(track_id, isrcs@),
        decreases usize::MAX - isrcs.len(),
    {
        if !advance(&mut rows)? {
            break;
        }
        let isrc = match column_text_at(&rows, 0) {
            Some(v) => v?,
            None => vstd::pervasive::unreached(),
        };
        isrcs.push(isrc);
    }
    Ok(isrcs)
}

/// What a lookup hands out for the first row it read (with the outcome of
/// reading that track's ISRCs), or for no row: the track assembled from
/// the row and its ISRCs, nothing, or the error that reading the ISRCs
/// met.
pub open spec fn lookup_result(found: Option<(TrackRow, Result<Vec<String>, rusqlite::Error>)>) -> Result<Option<SimpleTrack>, RepositoryError> {
    match found {
        None => Ok(None),
        Some((row, Ok(isrcs))) => Ok(Some(track_of_row(row, Some(isrcs)))),
        Some((_, Err(e))) => Err(RepositoryError::Database(e)),
    }
}

/// Turns the first row of a lookup and the outcome of reading its ISRCs
/// into the lookup's answer.
pub fn first_track_result(found: Option<(TrackRow, Result<Vec<String>, rusqlite::Error>)>) -> (r: Result<Option<SimpleTrack>, RepositoryError>)
    ensures
        r == lookup_result(found),
{
    match found {
        None => Ok(None),
        Some((row, Ok(isrcs))) => Ok(Some(track_from_row(row, Some(isrcs)))),
        Some((_, Err(e))) => Err(RepositoryError::Database(e)),
    }
}

/// `r` is what a lookup by `sql` with `params` hands out: nothing when
/// SQLite answered no row; the track assembled from the first row answered
/// and the whole list of ISRCs read for that row's id; or the error met
/// running the lookup or reading those ISRCs.
pub open spec fn is_lookup_outcome(sql: Seq<char>, params: Seq<SqlParam>, r: Result<Option<SimpleTrack>, RepositoryError>) -> bool {
    match r {
        Ok(None) => answer_ended(sql, params, 0),
        Ok(Some(t)) => exists|row: TrackRow, isrcs: Vec<String>|
            #![trigger track_of_row(row, Some(isrcs))]
            is_track_row_at(sql, params, 0, row) && is_isrc_list(row.id, isrcs@) && t == track_of_row(row, Some(isrcs)),
        Err(RepositoryError::Database(e)) => failed_on(sql, params, e) || exists|row: TrackRow|
            #![trigger is_track_row_at(sql, params, 0, row)]
            is_track_row_at(sql, params, 0, row) && failed_on(ISRCS_FOR_TRACK_SQL@, seq![SqlParam::Integer(row.id)], e),
        Err(RepositoryError::ClockOutOfRange) => false,
    }
}

/// Runs a statement that selects tracks and hands out the first one, with
/// the ISRCs recorded for it.
fn first_track(conn: &Connection, sql: &str, params: &[SqlParam]) -> (r: Result<Option<SimpleTrack>, RepositoryError>)
    requires
        is_select(sql@),
    ensures
        is_lookup_outcome(sql@, params@, r),
{
    let first = {
        let mut stmt = database(prepare(conn, sql))?;
        let mut rows = database(query(&mut stmt, params))?;
        if database(advance(&mut rows))? {
            Some(database(read_track_row(&rows))?)
        } else {
            None
        }
    };
    let ghost first_row = first;
    let found = match first {
        Some(row) => {
            let isrcs = get_isrcs_for_track(row.id, conn);
            Some((row, isrcs))
        },
        None => None,
    };
    let ghost g = found;
    let r = first_track_result(found);
    proof {
        if let Some((row, Ok(isrcs))) = g {
            assert(first_row == Some(row));
            assert(track_of_row(row, Some(isrcs)) == r->Ok_0->Some_0);
        }
        if let Some((row, Err(e))) = g {
            assert(first_row == Some(row));
            assert(is_track_row_at(sql@, params@, 0, row));
        }
    }
    r
}

/// The track with id `track_id`, with its current lyrics and ISRCs, or
/// `None` when there is no such track.
pub fn get_track_by_id(track_id: i64, conn: &mut Connection) -> (r: Result<Option<SimpleTrack>, RepositoryError>)
    ensures
        is_lookup_outcome(TRACK_BY_ID_SQL@, seq![SqlParam::Integer(track_id)], r),
{
    let (sql, params) = track_by_id_statement(track_id);
    first_track(conn, sql, params.as_slice())
}

/// The first track recorded under the ISRC `isrc`, with its current lyrics
/// and ISRCs, or `None` when no track has it.
pub fn get_track_by_isrc(isrc: String, conn: &mut Connection) -> (r: Result<Option<SimpleTrack>, RepositoryError>)
    ensures
        is_lookup_outcome(TRACK_BY_ISRC_SQL@, seq![SqlParam::Text(isrc)], r),
{
    let (sql, params) = track_by_isrc_statement(isrc);
    first_track(conn, sql, params.as_slice())
}

/// `r` is what a lookup of an id by metadata with `params` hands out:
/// nothing when SQLite answered no row; the `id` column of the first row;
/// or the error met running the lookup.
pub open spec fn is_id_outcome(params: Seq<SqlParam>, r: Result<Option<i64>, RepositoryError>) -> bool {
    match r {
        Ok(None) => answer_ended(TRACK_ID_BY_METADATA_SQL@, params, 0),
        Ok(Some(id)) => yielded_integer(TRACK_ID_BY_METADATA_SQL@, params, 0, "id"@, id),
        Err(RepositoryError::Database(e)) => failed_on(TRACK_ID_BY_METADATA_SQL@, params, e),
        Err(RepositoryError::ClockOutOfRange) => false,
    }
}

/// The lowest id of a track whose names, normalised by `prepare_input`,
/// equal those given and whose duration lies between `duration_min` and
/// `duration_max`.
fn track_id_by_metadata<F: Fn(&str) -> String>(
    track_name: &str,
    artist_name: &str,
    album_name: &str,
    duration_min: Value,
    duration_max: Value,
    prepare_input: &F,
    conn: &Connection,
) -> (r: Result<Option<i64>, RepositoryError>)
    requires
        forall|s: &str| prepare_input.requires((s,)),
    ensures
        exists|params: Seq<SqlParam>|
            is_id_by_metadata_params(params, track_name, artist_name, album_name, duration_min, duration_max, *prepare_input)
                && #[trigger] is_id_outcome(params, r),
{
    let (sql, params) = id_by_metadata_statement(track_name, artist_name, album_name, duration_min, duration_max, prepare_input);
    let ghost sent = params@;
    let r = track_id_of_first_row(conn, sql, params.as_slice());
    assert(is_id_outcome(sent, r));
    r
}

/// Runs the lookup of an id by metadata with `params` and hands out the
/// `id` of the first row.
fn track_id_of_first_row(conn: &Connection, sql: &str, params: &[SqlParam]) -> (r: Result<Option<i64>, RepositoryError>)
    requires
        sql@ == TRACK_ID_BY_METADATA_SQL@,
        is_select(sql@),
    ensures
        is_id_outcome(params@, r),
{
    let mut stmt = database(prepare(conn, sql))?;
    let mut rows = database(query(&mut stmt, params))?;
    if database(advance(&mut rows))? {
        match column_integer(&rows, "id") {
            Some(v) => Ok(Some(database(v)?)),
            None => vstd::pervasive::unreached(),
        }
    } else {
        Ok(None)
    }
}

/// The lowest id of a track whose names, normalised by `prepare_input`,
/// equal those given and whose duration lies in the window from
/// `duration_min` to `duration_max`.
pub fn get_track_id_by_metadata<F: Fn(&str) -> String>(
    track_name: &str,
    artist_name: &str,
    album_name: &str,
    duration_min: Value,
    duration_max: Value,
    prepare_input: &F,
    conn: &mut Connection,
) -> (r: Result<Option<i64>, RepositoryError>)
    requires
        forall|s: &str| prepare_input.requires((s,)),
    ensures
        exists|params: Seq<SqlParam>|
            is_id_by_metadata_params(params, track_name, artist_name, album_name, duration_min, duration_max, *prepare_input)
                && #[trigger] is_id_outcome(params, r),
{
    track_id_by_metadata(track_name, artist_name, album_name, duration_min, duration_max, prepare_input, conn)
}

/// `get_track_id_by_metadata` inside the transaction `conn`.
pub fn get_track_id_by_metadata_tx<F: Fn(&str) -> String>(
    track_name: &str,
    artist_name: &str,
    album_name: &str,
    duration_min: Value,
    duration_max: Value,
    prepare_input: &F,
    conn: &mut Transaction,
) -> (r: Result<Option<i64>, RepositoryError>)
    requires
        forall|s: &str| prepare_input.requires((s,)),
    ensures
        exists|params: Seq<SqlParam>|
            is_id_by_metadata_params(params, track_name, artist_name, album_name, duration_min, duration_max, *prepare_input)
                && #[trigger] is_id_outcome(params, r),
{
    let c = transaction_connection(conn);
    track_id_by_metadata(track_name, artist_name, album_name, duration_min, duration_max, prepare_input, c)
}

/// The track with the lowest id whose normalised names equal those given,
/// whose duration lies in `duration_window` (lowest, highest) when one is
/// given and whose normalised album name equals `album_name_lower` when
/// one is given; with its current lyrics and ISRCs.
pub fn get_track_by_metadata(
    track_name_lower: &str,
    artist_name_lower: &str,
    album_name_lower: Option<&str>,
    duration_window: Option<(Value, Value)>,
    conn: &mut Connection,
) -> (r: Result<Option<SimpleTrack>, RepositoryError>)
    ensures
        exists|params: Seq<SqlParam>|
            metadata_params(params, track_name_lower@, artist_name_lower@, opt_view(album_name_lower), duration_window)
                && #[trigger] is_lookup_outcome(metadata_sql(duration_window is Some, album_name_lower is Some), params, r),
{
    let ghost window = duration_window;
    let (sql, params) = metadata_query(track_name_lower, artist_name_lower, album_name_lower, duration_window);
    let r = first_track(conn, sql.as_str(), params.as_slice());
    assert(is_lookup_outcome(metadata_sql(window is Some, album_name_lower is Some), params@, r));
    r
}

/// The ISRC list of a track of a keyword search: the list when it could be
/// read, none when reading it failed.
pub open spec fn isrcs_if_read(r: Result<Vec<String>, rusqlite::Error>) -> Option<Vec<String>> {
    match r {
        Ok(list) => Some(list),
        Err(_) => None,
    }
}

/// The tracks of a keyword search: one for each row, in order, assembled
/// with the ISRCs read for it.
pub open spec fn tracks_of_rows(rows: Seq<TrackRow>, isrcs: Seq<Result<Vec<String>, rusqlite::Error>>) -> Seq<SimpleTrack> {
    Seq::new(rows.len(), |k: int| track_of_row(rows[k], isrcs_if_read(isrcs[k])))
}

/// Assembles the tracks of a keyword search from the rows read and the
/// outcome of reading each row's ISRCs.
pub fn tracks_from_rows(rows: Vec<TrackRow>, isrcs: Vec<Result<Vec<String>, rusqlite::Error>>) -> (v: Vec<SimpleTrack>)
    requires
        rows.len() == isrcs.len(),
    ensures
        v@ == tracks_of_rows(rows@, isrcs@),
{
    let ghost rows0 = rows@;
    let ghost isrcs0 = isrcs@;
    let mut rows = rows;
    let mut isrcs = isrcs;
    let mut tracks: Vec<SimpleTrack> = Vec::new();
    while rows.len() > 0
        invariant
            rows.len() == isrcs.len(),
            tracks.len() + rows.len() == rows0.len(),
            rows@ == rows0.skip(tracks.len() as int),
            isrcs@ == isrcs0.skip(tracks.len() as int),
            rows0.len() == isrcs0.len(),
            tracks@ == tracks_of_rows(rows0, isrcs0).take(tracks.len() as int),
        decreases rows.len(),
    {
        let row = rows.remove(0);
        let list = isrcs.remove(0);
        let ghost n = tracks.len() as int;
        assert(row == rows0[n]);
        assert(list == isrcs0[n]);
        let read = match list {
            Ok(l) => Some(l),
            Err(_) => None,
        };
        tracks.push(track_from_row(row, read));
        assert(rows@ =~= rows0.skip(n + 1));
        assert(isrcs@ =~= isrcs0.skip(n + 1));
        assert(tracks@ =~= tracks_of_rows(rows0, isrcs0).take(n + 1));
    }
    assert(tracks@ =~= tracks_of_rows(rows0, isrcs0));
    tracks
}

/// `rows` is the whole answer, in order, of `sql` run with `params`.
pub open spec fn is_search_answer(sql: Seq<char>, params: Seq<SqlParam>, rows: Seq<TrackRow>) -> bool {
    &&& answer_ended(sql, params, rows.len())
    &&& forall|k: int| 0 <= k < rows.len() ==> is_track_row_at(sql, params, k as nat, #[trigger] rows[k])
}

/// The statement of a keyword search as the arguments decide it: ranked
/// or not.
pub open spec fn keyword_search_sql_of(
    q: Option<&str>,
    track_name: Option<&str>,
    artist_name: Option<&str>,
    album_name: Option<&str>,
) -> Seq<char> {
    keyword_sql(search_is_ranked(opt_view(q), opt_view(track_name), opt_view(artist_name), opt_view(album_name)))
}

/// `r` is what a keyword search hands out: the full-text query `fts` built
/// from the arguments is bound to the statement the arguments decide; on
/// success, the whole answer `rows`, each with the outcome of reading its
/// ISRCs (the whole list when it was read, none when that failed); else
/// the error met running the search.
pub open spec fn is_keyword_outcome<F: Fn(&str) -> String>(
    q: Option<&str>,
    track_name: Option<&str>,
    artist_name: Option<&str>,
    album_name: Option<&str>,
    isrc: Option<&str>,
    prepare_input: F,
    r: Result<Vec<SimpleTrack>, RepositoryError>,
) -> bool {
    exists|fts: String|
        #![trigger is_fts_query(q, track_name, artist_name, album_name, isrc, prepare_input, fts)]
        {
            let sql = keyword_search_sql_of(q, track_name, artist_name, album_name);
            let params = seq![SqlParam::Text(fts)];
            &&& is_fts_query(q, track_name, artist_name, album_name, isrc, prepare_input, fts)
            &&& match r {
                Ok(v) => exists|rows: Seq<TrackRow>, isrcs: Seq<Result<Vec<String>, rusqlite::Error>>|
                    #![trigger tracks_of_rows(rows, isrcs)]
                    {
                        &&& is_search_answer(sql, params, rows)
                        &&& rows.len() == isrcs.len()
                        &&& forall|k: int| 0 <= k < rows.len() ==> (#[trigger] isrcs[k] matches Ok(l) ==> is_isrc_list(rows[k].id, l@))
                        &&& v@ == tracks_of_rows(rows, isrcs)
                    },
                Err(RepositoryError::Database(e)) => failed_on(sql, params, e),
                Err(RepositoryError::ClockOutOfRange) => false,
            }
        }
}

/// Searches tracks by keyword: at most twenty, each with its current
/// lyrics and, when they could be read, its ISRCs. Without a free-text
/// query and without a track name there is nothing to search for, and the
/// answer is empty.
pub fn get_tracks_by_keyword<F: Fn(&str) -> String>(
    q: Option<&str>,
    track_name: Option<&str>,
    artist_name: Option<&str>,
    album_name: Option<&str>,
    isrc: Option<&str>,
    prepare_input: &F,
    conn: &mut Connection,
) -> (r: Result<Vec<SimpleTrack>, RepositoryError>)
    requires
        forall|s: &str| prepare_input.requires((s,)),
    ensures
        q is None && track_name is None ==> (r matches Ok(v) && v.len() == 0),
        q is Some || track_name is Some ==> is_keyword_outcome(
            q,
            track_name,
            artist_name,
            album_name,
            isrc,
            *prepare_input,
            r,
        ),
{
    if q.is_none() && track_name.is_none() {
        return Ok(Vec::new());
    }
    let ranked = keyword_search_is_ranked(q, track_name, artist_name, album_name);
    let fts_query = keyword_fts_query(q, track_name, artist_name, album_name, isrc, prepare_input);
    let ghost fts = fts_query;
    let (sql, params) = keyword_search_statement(ranked, fts_query);
    let ghost sql_text = keyword_sql(ranked);
    let ghost sent = seq![SqlParam::Text(fts)];
    assert(is_fts_query(q, track_name, artist_name, album_name, isrc, *prepare_input, fts));
    let found = match search_rows(conn, sql.as_str(), params.as_slice()) {
        Ok(found) => found,
        Err(e) => {
            assert(is_keyword_outcome(q, track_name, artist_name, album_name, isrc, *prepare_input, Err::<Vec<SimpleTrack>, RepositoryError>(e)));
            return Err(e);
        },
    };
    let mut isrcs: Vec<Result<Vec<String>, rusqlite::Error>> = Vec::new();
    let mut i: usize = 0;
    while i < found.len()
        invariant
            i <= found.len(),
            isrcs.len() == i,
            forall|k: int| 0 <= k < i ==> (#[trigger] isrcs@[k] matches Ok(l) ==> is_isrc_list(found@[k].id, l@)),
        decreases found.len() - i,
    {
        let list = get_isrcs_for_track(found[i].id, conn);
        isrcs.push(list);
        i = i + 1;
    }
    let ghost rows = found@;
    let ghost lists = isrcs@;
    let tracks = tracks_from_rows(found, isrcs);
    assert(tracks@ == tracks_of_rows(rows, lists));
    let r = Ok::<Vec<SimpleTrack>, RepositoryError>(tracks);
    assert(is_keyword_outcome(q, track_name, artist_name, album_name, isrc, *prepare_input, r));
    r
}

/// Runs a search statement and reads its whole answer.
fn search_rows(conn: &Connection, sql: &str, params: &[SqlParam]) -> (r: Result<Vec<TrackRow>, RepositoryError>)
    requires
        is_select(sql@),
    ensures
        r matches Ok(rows) ==> is_search_answer(sql@, params@, rows@),
        r matches Err(e) ==> e matches RepositoryError::Database(d) && failed_on(sql@, params@, d),
{
    let mut stmt = database(prepare(conn, sql))?;
    let mut rows = database(query(&mut stmt, params))?;
    let mut found: Vec<TrackRow> = Vec::new();
    loop
        invariant_except_break
            cursor_sql(rows) == sql@,
            cursor_params(rows) == params@,
            cursor_position(rows) == found.len(),
            forall|k: int| 0 <= k < found.len() ==> is_track_row_at(sql@, params@, k as nat, #[trigger] found@[k]),
        ensures
            is_search_answer(sql@, params@, found@),
        decreases usize::MAX - found.len(),
    {
        if !database(advance(&mut rows))? {
            break;
        }
        let track_row = database(read_track_row(&rows))?;
        found.push(track_row);
    }
    Ok(found)
}

// ---------------------------------------------------------------- writing

/// A statement sent to change the database, with its parameters.
pub type Request = (Seq<char>, Seq<SqlParam>);

/// `after` is `before` with further requests appended.
pub open spec fn extends(before: Seq<Request>, after: Seq<Request>) -> bool {
    &&& before.len() <= after.len()
    &&& after.take(before.len() as int) =~= before
}

/// The requests appended to `before` to make `after`.
pub open spec fn appended(before: Seq<Request>, after: Seq<Request>) -> Seq<Request> {
    after.skip(before.len() as int)
}

/// `req` records the ISRC `isrc` for the track `track_id`.
pub open spec fn is_isrc_request(req: Request, isrc: Seq<char>, track_id: i64) -> bool {
    req.0 == INSERT_ISRC_SQL@ && is_isrc_insert_params(req.1, isrc, track_id)
}

/// SQLite ran the request `req`.
pub open spec fn ran(req: Request) -> bool {
    exists|changed: nat| executed(req.0, req.1, changed)
}

/// `sent` are the requests that recording `isrcs` for `track_id` sent, in
/// order, and `r` its outcome: on success one request for each ISRC, each
/// run; on failure the requests for the ISRCs up to the one that failed,
/// those before it run, and the error SQLite reported for it.
pub open spec fn isrcs_recording(isrcs: Seq<String>, track_id: i64, sent: Seq<Request>, r: Result<(), RepositoryError>) -> bool {
    &&& sent.len() <= isrcs.len()
    &&& forall|k: int| 0 <= k < sent.len() ==> is_isrc_request(#[trigger] sent[k], isrcs[k]@, track_id)
    &&& match r {
        Ok(()) => sent.len() == isrcs.len() && forall|k: int| 0 <= k < sent.len() ==> ran(#[trigger] sent[k]),
        Err(RepositoryError::Database(e)) => {
            &&& 0 < sent.len()
            &&& forall|k: int| 0 <= k < sent.len() - 1 ==> ran(#[trigger] sent[k])
            &&& sqlite_failed(sent.last().0, sent.last().1, e)
        },
        Err(RepositoryError::ClockOutOfRange) => false,
    }
}

/// Records each of `isrcs`, in order, for the track `track_id` on `conn`;
/// pairs that are already recorded are left as they are. The first error
/// stops the recording.
fn record_isrcs(isrcs: &[String], track_id: i64, conn: &mut Connection) -> (r: Result<(), RepositoryError>)
    ensures
        extends(requests(*old(conn)), requests(*final(conn))),
        isrcs_recording(isrcs@, track_id, appended(requests(*old(conn)), requests(*final(conn))), r),
{
    let ghost before = requests(*conn);
    assert(requests(*conn).take(before.len() as int) =~= before);
    assert(appended(before, requests(*conn)) =~= Seq::<Request>::empty());
    let mut i: usize = 0;
    while i < isrcs.len()
        invariant
            i <= isrcs.len(),
            before == requests(*old(conn)),
            extends(before, requests(*conn)),
            appended(before, requests(*conn)).len() == i,
            forall|k: int| 0 <= k < i ==> is_isrc_request(#[trigger] appended(before, requests(*conn))[k], isrcs@[k]@, track_id),
            forall|k: int| 0 <= k < i ==> ran(#[trigger] appended(before, requests(*conn))[k]),
        decreases isrcs.len() - i,
    {
        let ghost prior = requests(*conn);
        let (sql, params) = isrc_insert_statement(isrcs[i].as_str(), track_id);
        let outcome = execute_on(conn, sql, params.as_slice());
        proof {
            assert(appended(before, requests(*conn)) =~= appended(before, prior).push((sql@, params@)));
            assert(requests(*conn).take(before.len() as int) =~= prior.take(before.len() as int));
        }
        match outcome {
            Ok(changed) => {
                assert(executed(sql@, params@, changed as nat));
                assert(ran((sql@, params@))) by {
                    let req = (sql@, params@);
                    assert(executed(req.0, req.1, changed as nat));
                }
            },
            Err(e) => {
                assert(extends(before, requests(*conn)));
                return Err(RepositoryError::Database(e));
            },
        }
        i = i + 1;
    }
    Ok(())
}

/// `record_isrcs` inside the transaction `tx`.
fn record_isrcs_in(isrcs: &[String], track_id: i64, tx: &mut Transaction) -> (r: Result<(), RepositoryError>)
    ensures
        extends(requests_in(*old(tx)), requests_in(*final(tx))),
        isrcs_recording(isrcs@, track_id, appended(requests_in(*old(tx)), requests_in(*final(tx))), r),
{
    let ghost before = requests_in(*tx);
    assert(requests_in(*tx).take(before.len() as int) =~= before);
    assert(appended(before, requests_in(*tx)) =~= Seq::<Request>::empty());
    let mut i: usize = 0;
    while i < isrcs.len()
        invariant
            i <= isrcs.len(),
            before == requests_in(*old(tx)),
            extends(before, requests_in(*tx)),
            appended(before, requests_in(*tx)).len() == i,
            forall|k: int| 0 <= k < i ==> is_isrc_request(#[trigger] appended(before, requests_in(*tx))[k], isrcs@[k]@, track_id),
            forall|k: int| 0 <= k < i ==> ran(#[trigger] appended(before, requests_in(*tx))[k]),
        decreases isrcs.len() - i,
    {
        let ghost prior = requests_in(*tx);
        let (sql, params) = isrc_insert_statement(isrcs[i].as_str(), track_id);
        let outcome = execute_in(tx, sql, params.as_slice());
        proof {
            assert(appended(before, requests_in(*tx)) =~= appended(before, prior).push((sql@, params@)));
            assert(requests_in(*tx).take(before.len() as int) =~= prior.take(before.len() as int));
        }
        match outcome {
            Ok(changed) => {
                assert(executed(sql@, params@, changed as nat));
                assert(ran((sql@, params@))) by {
                    let req = (sql@, params@);
                    assert(executed(req.0, req.1, changed as nat));
                }
            },
            Err(e) => {
                assert(extends(before, requests_in(*tx)));
                return Err(RepositoryError::Database(e));
            },
        }
        i = i + 1;
    }
    Ok(())
}

/// `at` is the UTC time of a reading of the system clock.
pub open spec fn is_clock_time(at: Timestamp) -> bool {
    exists|since: Result<(u64, u32), (u64, u32)>|
        #![trigger clock_read(since), unix_time_of(since)]
        clock_read(since) && (unix_time_of(since) matches Some((s, n)) && at == utc_at(s, n))
}

/// The system clock was read at a time too far from 1970 to be stored.
pub open spec fn clock_unstorable() -> bool {
    exists|since: Result<(u64, u32), (u64, u32)>| #[trigger] clock_read(since) && !storable(since)
}

/// The ISRCs an insertion records: the list given, or none.
pub open spec fn isrcs_given(isrcs: Option<Vec<String>>) -> Seq<String> {
    match isrcs {
        Some(list) => list@,
        None => Seq::empty(),
    }
}

/// `sent` are the requests that adding a track sent, in order, and `r` its
/// outcome: when the clock cannot be stored, nothing is sent. Else the
/// insertion of the track (its names, their forms normalised by
/// `prepare_input`, its duration and the clock time as creation and update
/// time) is sent first; if SQLite fails it, nothing follows and its error
/// is handed back; else the ISRCs are recorded for the new row's id as
/// `isrcs_recording` says, and that id is handed back when all were.
pub open spec fn track_adding<F: Fn(&str) -> String>(
    track_name: &str,
    artist_name: &str,
    album_name: &str,
    duration: Value,
    isrcs: Option<Vec<String>>,
    prepare_input: F,
    sent: Seq<Request>,
    r: Result<i64, RepositoryError>,
) -> bool {
    match r {
        Err(RepositoryError::ClockOutOfRange) => sent.len() == 0 && clock_unstorable(),
        _ => {
            &&& sent.len() >= 1
            &&& sent[0].0 == INSERT_TRACK_SQL@
            &&& exists|created: Timestamp|
                #![trigger is_track_insert_params(sent[0].1, track_name, artist_name, album_name, duration, created, prepare_input)]
                is_clock_time(created) && is_track_insert_params(sent[0].1, track_name, artist_name, album_name, duration, created, prepare_input)
            &&& match r {
                Ok(id) => inserted(sent[0].0, sent[0].1, id) && isrcs_recording(isrcs_given(isrcs), id, sent.skip(1), Ok(())),
                Err(RepositoryError::Database(e)) => {
                    ||| sent.len() == 1 && sqlite_failed(sent[0].0, sent[0].1, e)
                    ||| exists|id: i64| #[trigger] inserted(sent[0].0, sent[0].1, id)
                        && isrcs_recording(isrcs_given(isrcs), id, sent.skip(1), Err(RepositoryError::Database(e)))
                },
                Err(RepositoryError::ClockOutOfRange) => false,
            }
        },
    }
}

/// Reads the clock for the time a row is created or flagged.
fn current_time() -> (r: Result<Timestamp, RepositoryError>)
    ensures
        r matches Ok(at) ==> is_clock_time(at),
        r matches Err(e) ==> e is ClockOutOfRange && clock_unstorable(),
{
    match now() {
        Some(t) => Ok(t),
        None => Err(RepositoryError::ClockOutOfRange),
    }
}

/// Inserts a track on `conn` with its names, their forms normalised by
/// `prepare_input`, its duration and the current time, then records its
/// ISRCs; hands back the id of the new track.
fn insert_track<F: Fn(&str) -> String>(
    track_name: &str,
    artist_name: &str,
    album_name: &str,
    duration: Value,
    isrcs: Option<Vec<String>>,
    prepare_input: &F,
    conn: &mut Connection,
) -> (r: Result<i64, RepositoryError>)
    requires
        forall|s: &str| prepare_input.requires((s,)),
    ensures
        extends(requests(*old(conn)), requests(*final(conn))),
        track_adding(track_name, artist_name, album_name, duration, isrcs, *prepare_input, appended(requests(*old(conn)), requests(*final(conn))), r),
{
    let ghost before = requests(*conn);
    let ghost list = isrcs;
    let ghost given = isrcs_given(isrcs);
    let created = match current_time() {
        Ok(t) => t,
        Err(e) => {
            assert(requests(*conn).take(before.len() as int) =~= before);
            assert(appended(before, requests(*conn)) =~= Seq::<Request>::empty());
            return Err(e);
        },
    };
    let (sql, params) = track_insert_statement(track_name, artist_name, album_name, duration, created, prepare_input);
    let ghost first = (sql@, params@);
    let inserted_row = insert_on(conn, sql, params.as_slice());
    let ghost after_insert = requests(*conn);
    assert(appended(before, after_insert) =~= seq![first]);
    assert(after_insert.take(before.len() as int) =~= before);
    let row_id = match inserted_row {
        Ok(id) => id,
        Err(e) => {
            return Err(RepositoryError::Database(e));
        },
    };
    let recorded = match isrcs {
        Some(isrcs) => record_isrcs(isrcs.as_slice(), row_id, conn),
        None => Ok(()),
    };
    proof {
        let all = appended(before, requests(*conn));
        let later = appended(after_insert, requests(*conn));
        assert(requests(*conn).take(before.len() as int) =~= before);
        assert(all =~= seq![first] + later);
        assert(all.skip(1) =~= later);
        assert(all[0] == first);
        if list is None {
            assert(later =~= Seq::<Request>::empty());
        }
        assert(is_clock_time(created));
        assert(is_track_insert_params(all[0].1, track_name, artist_name, album_name, duration, created, *prepare_input));
        assert(inserted(all[0].0, all[0].1, row_id));
        assert(isrcs_recording(isrcs_given(list), row_id, all.skip(1), recorded));
    }
    match recorded {
        Ok(()) => Ok(row_id),
        Err(e) => Err(e),
    }
}

/// `insert_track` inside the transaction `tx`.
fn insert_track_in<F: Fn(&str) -> String>(
    track_name: &str,
    artist_name: &str,
    album_name: &str,
    duration: Value,
    isrcs: Option<Vec<String>>,
    prepare_input: &F,
    tx: &mut Transaction,
) -> (r: Result<i64, RepositoryError>)
    requires
        forall|s: &str| prepare_input.requires((s,)),
    ensures
        extends(requests_in(*old(tx)), requests_in(*final(tx))),
        track_adding(track_name, artist_name, album_name, duration, isrcs, *prepare_input, appended(requests_in(*old(tx)), requests_in(*final(tx))), r),
{
    let ghost before = requests_in(*tx);
    let ghost list = isrcs;
    let created = match current_time() {
        Ok(t) => t,
        Err(e) => {
            assert(requests_in(*tx).take(before.len() as int) =~= before);
            assert(appended(before, requests_in(*tx)) =~= Seq::<Request>::empty());
            return Err(e);
        },
    };
    let (sql, params) = track_insert_statement(track_name, artist_name, album_name, duration, created, prepare_input);
    let ghost first = (sql@, params@);
    let inserted_row = insert_in(tx, sql, params.as_slice());
    let ghost after_insert = requests_in(*tx);
    assert(appended(before, after_insert) =~= seq![first]);
    assert(after_insert.take(before.len() as int) =~= before);
    let row_id = match inserted_row {
        Ok(id) => id,
        Err(e) => {
            return Err(RepositoryError::Database(e));
        },
    };
    let recorded = match isrcs {
        Some(isrcs) => record_isrcs_in(isrcs.as_slice(), row_id, tx),
        None => Ok(()),
    };
    proof {
        let all = appended(before, requests_in(*tx));
        let later = appended(after_insert, requests_in(*tx));
        assert(requests_in(*tx).take(before.len() as int) =~= before);
        assert(all =~= seq![first] + later);
        assert(all.skip(1) =~= later);
        assert(all[0] == first);
        if list is None {
            assert(later =~= Seq::<Request>::empty());
        }
        assert(is_clock_time(created));
        assert(is_track_insert_params(all[0].1, track_name, artist_name, album_name, duration, created, *prepare_input));
        assert(inserted(all[0].0, all[0].1, row_id));
        assert(isrcs_recording(isrcs_given(list), row_id, all.skip(1), recorded));
    }
    match recorded {
        Ok(()) => Ok(row_id),
        Err(e) => Err(e),
    }
}

/// Inserts a track and records its ISRCs; hands back the new track's id.
pub fn add_one<F: Fn(&str) -> String>(
    track_name: &str,
    artist_name: &str,
    album_name: &str,
    duration: Value,
    isrcs: Option<Vec<String>>,
    prepare_input: &F,
    conn: &mut Connection,
) -> (r: Result<i64, RepositoryError>)
    requires
        forall|s: &str| prepare_input.requires((s,)),
    ensures
        extends(requests(*old(conn)), requests(*final(conn))),
        track_adding(track_name, artist_name, album_name, duration, isrcs, *prepare_input, appended(requests(*old(conn)), requests(*final(conn))), r),
{
    insert_track(track_name, artist_name, album_name, duration, isrcs, prepare_input, conn)
}

/// `add_one` inside the transaction `conn`.
pub fn add_one_tx<F: Fn(&str) -> String>(
    track_name: &str,
    artist_name: &str,
    album_name: &str,
    duration: Value,
    isrcs: Option<Vec<String>>,
    prepare_input: &F,
    conn: &mut Transaction,
) -> (r: Result<i64, RepositoryError>)
    requires
        forall|s: &str| prepare_input.requires((s,)),
    ensures
        extends(requests_in(*old(conn)), requests_in(*final(conn))),
        track_adding(track_name, artist_name, album_name, duration, isrcs, *prepare_input, appended(requests_in(*old(conn)), requests_in(*final(conn))), r),
{
    insert_track_in(track_name, artist_name, album_name, duration, isrcs, prepare_input, conn)
}

/// `sent` are the requests that flagging the lyrics of `track_id` with
/// `content` sent, and `r` its outcome: nothing when the clock cannot be
/// stored; else the flag statement with the content, the clock time and
/// the track id, and `Ok` exactly when SQLite ran it (whether or not it
/// changed a row), else the error SQLite reported.
pub open spec fn lyrics_flagging(content: Seq<char>, track_id: i64, sent: Seq<Request>, r: Result<(), RepositoryError>) -> bool {
    match r {
        Err(RepositoryError::ClockOutOfRange) => sent.len() == 0 && clock_unstorable(),
        _ => {
            &&& sent.len() == 1
            &&& sent[0].0 == FLAG_LAST_LYRICS_SQL@
            &&& exists|at: Timestamp| #[trigger] is_flag_params(sent[0].1, content, at, track_id) && is_clock_time(at)
            &&& match r {
                Ok(()) => ran(sent[0]),
                Err(RepositoryError::Database(e)) => sqlite_failed(sent[0].0, sent[0].1, e),
                Err(RepositoryError::ClockOutOfRange) => false,
            }
        },
    }
}

/// Flags the lyrics that the track `track_id` currently points at, with
/// `content` and the current time.
pub fn flag_track_last_lyrics(track_id: i64, content: &str, conn: &mut Connection) -> (r: Result<(), RepositoryError>)
    ensures
        extends(requests(*old(conn)), requests(*final(conn))),
        lyrics_flagging(content@, track_id, appended(requests(*old(conn)), requests(*final(conn))), r),
{
    let ghost before = requests(*conn);
    let flagged_at = match current_time() {
        Ok(t) => t,
        Err(e) => {
            assert(requests(*conn).take(before.len() as int) =~= before);
            assert(appended(before, requests(*conn)) =~= Seq::<Request>::empty());
            return Err(e);
        },
    };
    let (sql, params) = flag_statement(content, flagged_at, track_id);
    let outcome = execute_on(conn, sql, params.as_slice());
    assert(appended(before, requests(*conn)) =~= seq![(sql@, params@)]);
    assert(requests(*conn).take(before.len() as int) =~= before);
    assert(is_flag_params(params@, content@, flagged_at, track_id));
    match outcome {
        Ok(changed) => {
            assert(ran((sql@, params@))) by {
                let req = (sql@, params@);
                assert(executed(req.0, req.1, changed as nat));
            }
            Ok(())
        },
        Err(e) => Err(RepositoryError::Database(e)),
    }
}

/// Records each of `isrcs`, in order, for the track `track_id`; pairs that
/// are already recorded are left as they are. With no ISRCs there is
/// nothing to send to the database, and the answer is `Ok`.
pub fn submit_isrcs(isrcs: &[String], track_id: i64, conn: &mut Connection) -> (r: Result<(), RepositoryError>)
    ensures
        isrcs@.len() == 0 ==> r is Ok,
        extends(requests(*old(conn)), requests(*final(conn))),
        isrcs_recording(isrcs@, track_id, appended(requests(*old(conn)), requests(*final(conn))), r),
{
    record_isrcs(isrcs, track_id, conn)
}

}
