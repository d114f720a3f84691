//! Recording the ISRCs that a client submits for a track.

use vstd::prelude::*;
use rusqlite::Connection;
use crate::entities::RepositoryError;
use crate::sqlite::requests;
use crate::track_repository::{appended, extends, isrcs_recording, submit_isrcs};

verus! {

/// A request to record ISRCs for a track; a missing list records none.
pub struct SubmitISRCSRequest {
    pub isrcs: Option<Vec<String>>,
    pub track_id: i64,
}

impl SubmitISRCSRequest {
    /// The ISRCs of the request, none when the list is missing.
    pub open spec fn submitted(&self) -> Seq<String> {
        match self.isrcs {
            Some(v) => v@,
            None => Seq::empty(),
        }
    }

    /// The submitted ISRCs: the list given, or an empty one.
    pub fn isrcs_or_empty(&self) -> (r: &[String])
        ensures
            r@ == self.submitted(),
            self.isrcs matches Some(v) ==> r@ == v@,
            self.isrcs is None ==> r@.len() == 0,
    {
        match &self.isrcs {
            Some(v) => v.as_slice(),
            None => &[],
        }
    }
}

/// Records the ISRCs of `request` for its track, in order; a request
/// without ISRCs (a missing or empty list) succeeds without touching the
/// database.
pub fn submit(request: &SubmitISRCSRequest, conn: &mut Connection) -> (r: Result<(), RepositoryError>)
    ensures
        request.submitted().len() == 0 ==> r is Ok,
        extends(requests(*old(conn)), requests(*final(conn))),
        isrcs_recording(request.submitted(), request.track_id, appended(requests(*old(conn)), requests(*final(conn))), r),
{
    submit_isrcs(request.isrcs_or_empty(), request.track_id, conn)
}

/// The ISRCs submitted with a request are exactly its list, every one of
/// them in order, and none when it has no list.
pub proof fn submitted_isrcs_are_the_list(request: SubmitISRCSRequest)
    ensures
        request.isrcs matches Some(v) ==> request.submitted() == v@,
        request.isrcs is None ==> request.submitted().len() == 0,
{
}

}
