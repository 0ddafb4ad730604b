//! The shared record of one logical connection.

use vstd::prelude::*;

verus! {

/// Picks the later of the last observed sequence number and a newly observed
/// one, so that the recorded value only ever advances.
pub open spec fn updated_sequence(last: Option<u64>, seen: Option<u64>) -> Option<u64> {
    match seen {
        Option::None => last,
        Option::Some(n) => match last {
            Option::None => Option::Some(n),
            Option::Some(m) => if n > m {
                Option::Some(n)
            } else {
                Option::Some(m)
            },
        },
    }
}

/// State of the current session: identity, resumability, and the last
/// observed event sequence number. It outlives any single transport
/// connection; that is what makes a resume possible.
pub struct Session {
    /// Session identifier; empty until the first ready payload arrives.
    pub id: String,
    /// Whether the server still allows this session to be resumed.
    pub resumable: bool,
    /// Last event sequence number observed, if any.
    pub last_sequence: Option<u64>,
}

impl Session {
    /// A fresh session: no identity, optimistically resumable, nothing seen.
    pub fn new() -> (s: Session)
        ensures
            s.id@ == Seq::<char>::empty(),
            s.resumable,
            s.last_sequence is None,
    {
        Session { id: String::new(), resumable: true, last_sequence: None }
    }

    /// Replace the session identifier (done once per successful identify).
    pub fn set_id(&mut self, id: String)
        ensures
            *final(self) == (Session { id, ..*old(self) }),
    {
        self.id = id;
    }

    /// The current session identifier.
    pub fn id(&self) -> (r: String)
        ensures
            r == self.id,
    {
        self.id.clone()
    }

    /// Record whether the server still allows a resume.
    pub fn set_resumable(&mut self, b: bool)
        ensures
            *final(self) == (Session { resumable: b, ..*old(self) }),
    {
        self.resumable = b;
    }

    /// Whether the next reconnect may attempt a resume.
    pub fn is_resumable(&self) -> (r: bool)
        ensures
            r == self.resumable,
    {
        self.resumable
    }

    /// Record an observed sequence number; the stored value only advances.
    pub fn observe_sequence(&mut self, seen: u64)
        ensures
            *final(self) == (Session {
                last_sequence: updated_sequence(old(self).last_sequence, Some(seen)),
                ..*old(self)
            }),
    {
        match self.last_sequence {
            None => {
                self.last_sequence = Some(seen);
            }
            Some(m) => {
                if seen > m {
                    self.last_sequence = Some(seen);
                }
            }
        }
    }
}

} // verus!
