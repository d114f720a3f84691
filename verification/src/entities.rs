//! The values that the repository reads from and hands to the database.

use vstd::prelude::*;
use crate::sqlite::Timestamp;
use rusqlite::types::Value;

verus! {

/// The lyrics that a track currently points at.
#[derive(Debug, PartialEq)]
pub struct SimpleLyrics {
    pub plain_lyrics: Option<String>,
    pub synced_lyrics: Option<String>,
    pub instrumental: bool,
}

/// A track as the repository hands it out. The duration is the SQLite
/// REAL value stored for the track.
#[derive(Debug, PartialEq)]
pub struct SimpleTrack {
    pub id: i64,
    pub name: Option<String>,
    pub artist_name: Option<String>,
    pub album_name: Option<String>,
    pub duration: Option<Value>,
    pub last_lyrics: Option<SimpleLyrics>,
    pub isrcs: Option<Vec<String>>,
}

/// The columns of one row of a track query, as read.
#[derive(Debug, PartialEq)]
pub struct TrackRow {
    pub id: i64,
    pub name: Option<String>,
    pub artist_name: Option<String>,
    pub album_name: Option<String>,
    pub duration: Option<Value>,
    pub instrumental: Option<bool>,
    pub plain_lyrics: Option<String>,
    pub synced_lyrics: Option<String>,
}

/// A parameter bound to a `?` placeholder of a statement.
pub enum SqlParam {
    Integer(i64),
    Text(String),
    /// A value that reaches the library already as a SQLite value (such as
    /// a REAL duration bound).
    Raw(Value),
    /// A time, stored as SQLite stores a UTC timestamp.
    Timestamp(Timestamp),
}

/// The errors of the repository.
#[derive(Debug)]
pub enum RepositoryError {
    /// SQLite refused a statement or a row could not be read.
    Database(rusqlite::Error),
    /// The system clock reads a time too far from 1970 to be stored.
    ClockOutOfRange,
}

/// A text parameter that holds `s`.
pub open spec fn is_text_param(p: SqlParam, s: Seq<char>) -> bool {
    p matches SqlParam::Text(t) && t@ == s
}

/// The lyrics part of a track read from `row`: a missing `instrumental`
/// flag counts as `false`.
pub open spec fn lyrics_of_row(row: TrackRow) -> SimpleLyrics {
    SimpleLyrics {
        plain_lyrics: row.plain_lyrics,
        synced_lyrics: row.synced_lyrics,
        instrumental: match row.instrumental {
            Some(b) => b,
            None => false,
        },
    }
}

/// The track assembled from a row and the ISRCs found for it.
pub open spec fn track_of_row(row: TrackRow, isrcs: Option<Vec<String>>) -> SimpleTrack {
    SimpleTrack {
        id: row.id,
        name: row.name,
        artist_name: row.artist_name,
        album_name: row.album_name,
        duration: row.duration,
        last_lyrics: Some(lyrics_of_row(row)),
        isrcs: isrcs,
    }
}

/// Assembles the track of `row` with `isrcs`.
pub fn track_from_row(row: TrackRow, isrcs: Option<Vec<String>>) -> (t: SimpleTrack)
    ensures
        t == track_of_row(row, isrcs),
        t.id == row.id,
        t.name == row.name,
        t.artist_name == row.artist_name,
        t.album_name == row.album_name,
        t.duration == row.duration,
        t.isrcs == isrcs,
        t.last_lyrics is Some,
        t.last_lyrics->Some_0.plain_lyrics == row.plain_lyrics,
        t.last_lyrics->Some_0.synced_lyrics == row.synced_lyrics,
        row.instrumental matches Some(b) ==> t.last_lyrics->Some_0.instrumental == b,
        row.instrumental is None ==> !t.last_lyrics->Some_0.instrumental,
{
    let instrumental = match row.instrumental {
        Some(b) => b,
        None => false,
    };
    let last_lyrics = SimpleLyrics {
        plain_lyrics: row.plain_lyrics,
        synced_lyrics: row.synced_lyrics,
        instrumental,
    };
    SimpleTrack {
        id: row.id,
        name: row.name,
        artist_name: row.artist_name,
        album_name: row.album_name,
        duration: row.duration,
        last_lyrics: Some(last_lyrics),
        isrcs,
    }
}

/// A track assembled from a row keeps the row's columns: its id, names
/// and duration are the row's, the ISRCs are those given, and its lyrics
/// hold the row's plain and synced lyrics and the row's instrumental flag
/// as stored, `false` only where the row holds none.
pub proof fn track_of_row_keeps_row_columns(row: TrackRow, isrcs: Option<Vec<String>>)
    ensures
        track_of_row(row, isrcs).id == row.id,
        track_of_row(row, isrcs).name == row.name,
        track_of_row(row, isrcs).artist_name == row.artist_name,
        track_of_row(row, isrcs).album_name == row.album_name,
        track_of_row(row, isrcs).duration == row.duration,
        track_of_row(row, isrcs).isrcs == isrcs,
        track_of_row(row, isrcs).last_lyrics matches Some(l) && l.plain_lyrics == row.plain_lyrics
            && l.synced_lyrics == row.synced_lyrics,
        row.instrumental matches Some(b) ==> track_of_row(row, isrcs).last_lyrics->Some_0.instrumental == b,
        row.instrumental is None ==> !track_of_row(row, isrcs).last_lyrics->Some_0.instrumental,
{
}

}
