use vstd::prelude::*;

verus! {

/// A session of an action-centre event, as the service sends it.
#[derive(Debug)]
pub struct ActionCentreEventSession {
    pub campus_name: String,
    pub finish: String,
    pub instance_id: String,
    pub location_comments: String,
    pub start: String,
}

/// Represents a session within an event.
#[derive(Debug)]
pub struct Session {
    /// The name of the campus where the session takes place.
    pub campus_name: String,
    /// The finish time of the session.
    pub finish: String,
    /// The instance ID of the session.
    pub instance_id: String,
    /// Comments regarding the location of the session.
    pub location_comments: String,
    /// The start time of the session.
    pub start: String,
}

pub open spec fn session_of(s: ActionCentreEventSession) -> Session {
    Session {
        campus_name: s.campus_name,
        finish: s.finish,
        instance_id: s.instance_id,
        location_comments: s.location_comments,
        start: s.start,
    }
}

/// The sessions of an event, in the order the service sent them.
pub fn sessions_from_rows(rows: Vec<ActionCentreEventSession>) -> (r: Vec<Session>)
    ensures
        r@ == rows@.map_values(|s: ActionCentreEventSession| session_of(s)),
{
    let mut out: Vec<Session> = Vec::new();
    for s in it: rows.into_iter()
        invariant
            it.seq() == rows@,
            out@ == rows@.take(it.index() as int).map_values(
                |s: ActionCentreEventSession| session_of(s),
            ),
    {
        out.push(
            Session {
                campus_name: s.campus_name,
                finish: s.finish,
                instance_id: s.instance_id,
                location_comments: s.location_comments,
                start: s.start,
            },
        );
    }
    assert(rows@.take(rows@.len() as int) =~= rows@);
    out
}

/// All events of a student: the past ones first, then the upcoming ones, each
/// list in the order the service sent it.
pub fn past_then_upcoming<T>(past: Vec<T>, upcoming: Vec<T>) -> (r: Vec<T>)
    ensures
        r@ == past@ + upcoming@,
{
    let mut all = past;
    let mut rest = upcoming;
    all.append(&mut rest);
    all
}

} // verus!
