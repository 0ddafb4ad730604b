//! Per-bucket admission policy of the REST transport.
//!
//! Each logical resource key owns one bucket holding the remaining call
//! budget and the deadline at which that budget resets. A request is admitted
//! immediately unless its own bucket is exhausted with the deadline still in
//! the future, in which case it waits until exactly that deadline. Buckets
//! are created lazily on the first server response for a key and never
//! destroyed; requests on different keys never wait on each other.

use vstd::prelude::*;

verus! {

/// The rate-limit accounting of one resource key.
#[derive(Clone, Copy, Debug, PartialEq, Eq, Structural)]
pub struct Bucket {
    /// Calls still admitted before the deadline.
    pub remaining: u64,
    /// Time (milliseconds) at which the budget resets.
    pub reset_at: u64,
}

/// What the admission policy tells one caller to do.
#[derive(Clone, Copy, Debug, PartialEq, Eq, Structural)]
pub enum Admission {
    /// Issue the request now.
    Proceed,
    /// Suspend until the given time, then issue the request.
    Wait(u64),
}

/// The admission decision of one bucket at one instant.
pub open spec fn bucket_admission(b: Bucket, now: u64) -> Admission {
    if b.remaining > 0 {
        Admission::Proceed
    } else if now >= b.reset_at {
        Admission::Proceed
    } else {
        Admission::Wait(b.reset_at)
    }
}

/// The admission decision for a key: a key without a bucket yet (no server
/// accounting seen) proceeds at once.
pub open spec fn spec_admission(m: Map<Seq<char>, Bucket>, key: Seq<char>, now: u64) -> Admission {
    if m.contains_key(key) {
        bucket_admission(m[key], now)
    } else {
        Admission::Proceed
    }
}

struct BucketEntry {
    key: String,
    bucket: Bucket,
}

/// The abstract contents of a bucket list: key views to buckets.
spec fn entries_map(s: Seq<BucketEntry>) -> Map<Seq<char>, Bucket>
    decreases s.len(),
{
    if s.len() == 0 {
        Map::empty()
    } else {
        entries_map(s.drop_last()).insert(s.last().key@, s.last().bucket)
    }
}

spec fn unique_keys(s: Seq<BucketEntry>) -> bool {
    forall|i: int, j: int| 0 <= i < j < s.len() ==> s[i].key@ != s[j].key@
}

proof fn lemma_entries_map_index(s: Seq<BucketEntry>, i: int)
    requires
        unique_keys(s),
        0 <= i < s.len(),
    ensures
        entries_map(s).contains_key(s[i].key@),
        entries_map(s)[s[i].key@] == s[i].bucket,
    decreases s.len(),
{
    if i == s.len() - 1 {
    } else {
        assert(s.drop_last()[i] == s[i]);
        lemma_entries_map_index(s.drop_last(), i);
    }
}

proof fn lemma_entries_map_absent(s: Seq<BucketEntry>, key: Seq<char>)
    requires
        forall|i: int| 0 <= i < s.len() ==> s[i].key@ != key,
    ensures
        !entries_map(s).contains_key(key),
    decreases s.len(),
{
    if s.len() > 0 {
        lemma_entries_map_absent(s.drop_last(), key);
    }
}

proof fn lemma_entries_map_update(s: Seq<BucketEntry>, i: int, e: BucketEntry)
    requires
        unique_keys(s),
        0 <= i < s.len(),
        e.key@ == s[i].key@,
    ensures
        entries_map(s.update(i, e)) =~= entries_map(s).insert(e.key@, e.bucket),
    decreases s.len(),
{
    if i == s.len() - 1 {
        assert(s.update(i, e).drop_last() =~= s.drop_last());
        assert(s.update(i, e).last() == e);
    } else {
        assert(s.update(i, e).drop_last() =~= s.drop_last().update(i, e));
        assert(s.update(i, e).last() == s.last());
        lemma_entries_map_update(s.drop_last(), i, e);
    }
}

/// The bucket table of the rate-limited transport.
pub struct RateLimiter {
    entries: Vec<BucketEntry>,
}

impl View for RateLimiter {
    type V = Map<Seq<char>, Bucket>;

    closed spec fn view(&self) -> Map<Seq<char>, Bucket> {
        entries_map(self.entries@)
    }
}

impl RateLimiter {
    /// Internal consistency: one entry per key.
    pub closed spec fn wf(&self) -> bool {
        unique_keys(self.entries@)
    }

    /// An empty bucket table.
    pub fn new() -> (r: RateLimiter)
        ensures
            r.wf(),
            r@ == Map::<Seq<char>, Bucket>::empty(),
    {
        RateLimiter { entries: Vec::new() }
    }

    fn find(&self, key: &String) -> (r: Option<usize>)
        requires
            self.wf(),
        ensures
            match r {
                Option::Some(i) => i < self.entries@.len() && self.entries@[i as int].key@
                    == key@ && self@.contains_key(key@) && self@[key@]
                    == self.entries@[i as int].bucket,
                Option::None => !self@.contains_key(key@),
            },
    {
        let mut i: usize = 0;
        while i < self.entries.len()
            invariant
                self.wf(),
                i <= self.entries@.len(),
                forall|j: int| 0 <= j < i ==> self.entries@[j].key@ != key@,
            decreases self.entries@.len() - i,
        {
            if self.entries[i].key == *key {
                proof {
                    lemma_entries_map_index(self.entries@, i as int);
                }
                return Some(i);
            }
            i = i + 1;
        }
        proof {
            lemma_entries_map_absent(self.entries@, key@);
        }
        None
    }

    /// Decide whether a request on `key` may be issued at time `now`, and if
    /// not, until when it must suspend. Consults no bucket but the key's own.
    pub fn admission_for(&self, key: &String, now: u64) -> (a: Admission)
        requires
            self.wf(),
        ensures
            a == spec_admission(self@, key@, now),
    {
        match self.find(key) {
            None => Admission::Proceed,
            Some(i) => {
                let b = self.entries[i].bucket;
                if b.remaining > 0 {
                    Admission::Proceed
                } else if now >= b.reset_at {
                    Admission::Proceed
                } else {
                    Admission::Wait(b.reset_at)
                }
            }
        }
    }

    /// Store the budget and reset deadline the server reported for `key`,
    /// creating the bucket on first use.
    pub fn record_response(&mut self, key: &String, remaining: u64, reset_at: u64)
        requires
            old(self).wf(),
        ensures
            final(self).wf(),
            final(self)@ == old(self)@.insert(key@, Bucket { remaining, reset_at }),
    {
        let b = Bucket { remaining, reset_at };
        match self.find(key) {
            Some(i) => {
                let ghost pre = self.entries@;
                self.entries[i] = BucketEntry { key: key.clone(), bucket: b };
                proof {
                    assert(unique_keys(self.entries@));
                    lemma_entries_map_update(pre, i as int, self.entries@[i as int]);
                }
            }
            None => {
                let ghost pre = self.entries@;
                self.entries.push(BucketEntry { key: key.clone(), bucket: b });
                proof {
                    assert forall|j: int| 0 <= j < pre.len() implies pre[j].key@ != key@ by {
                        if pre[j].key@ == key@ {
                            lemma_entries_map_index(pre, j);
                        }
                    }
                    assert(self.entries@.drop_last() =~= pre);
                    assert forall|p: int, q: int|
                        0 <= p < q < self.entries@.len() implies self.entries@[p].key@
                        != self.entries@[q].key@ by {
                        if q < pre.len() {
                            assert(self.entries@[p] == pre[p] && self.entries@[q] == pre[q]);
                        } else {
                            assert(self.entries@[p] == pre[p]);
                        }
                    }
                }
            }
        }
    }

    /// Debit one call locally from the key's bucket, for servers that expose
    /// no accounting on a response; an absent bucket or an empty budget is
    /// left as it is.
    pub fn consume_local(&mut self, key: &String)
        requires
            old(self).wf(),
        ensures
            final(self).wf(),
            final(self)@ == if old(self)@.contains_key(key@) && old(self)@[key@].remaining > 0 {
                old(self)@.insert(
                    key@,
                    Bucket {
                        remaining: (old(self)@[key@].remaining - 1) as u64,
                        reset_at: old(self)@[key@].reset_at,
                    },
                )
            } else {
                old(self)@
            },
    {
        match self.find(key) {
            Some(i) => {
                let b = self.entries[i].bucket;
                if b.remaining > 0 {
                    let ghost pre = self.entries@;
                    self.entries[i] = BucketEntry {
                        key: key.clone(),
                        bucket: Bucket { remaining: b.remaining - 1, reset_at: b.reset_at },
                    };
                    proof {
                        assert(unique_keys(self.entries@));
                        lemma_entries_map_update(pre, i as int, self.entries@[i as int]);
                        assert(final(self)@ =~= old(self)@.insert(
                            key@,
                            Bucket {
                                remaining: (old(self)@[key@].remaining - 1) as u64,
                                reset_at: old(self)@[key@].reset_at,
                            },
                        ));
                    }
                }
            }
            None => {}
        }
    }
}

/// Where one request stands in the rate-limit retry protocol.
#[derive(Clone, Copy, Debug, PartialEq, Eq, Structural)]
pub enum RequestPhase {
    /// The request has not been rejected yet.
    FirstAttempt,
    /// The request was rejected once and is being retried.
    Retrying,
}

/// What a caller must do after a server rate-limit rejection.
#[derive(Clone, Copy, Debug, PartialEq, Eq, Structural)]
pub enum RequestStep {
    /// Back off for the server-given delay, then send the request once more.
    BackoffThenRetry(u64),
    /// Give up: a second consecutive rejection surfaces as an error.
    FailRateLimited,
}

/// Decide what follows a server rate-limit rejection: the first rejection is
/// retried once after the server-given delay; the second is surfaced to the
/// caller.
pub fn on_rate_limit_rejection(phase: RequestPhase, retry_after: u64) -> (s: RequestStep)
    ensures
        phase is FirstAttempt ==> s == RequestStep::BackoffThenRetry(retry_after),
        phase is Retrying ==> s == RequestStep::FailRateLimited,
{
    match phase {
        RequestPhase::FirstAttempt => RequestStep::BackoffThenRetry(retry_after),
        RequestPhase::Retrying => RequestStep::FailRateLimited,
    }
}

/// An exhausted bucket holds a request until exactly its reset deadline, and
/// admits it at or after that deadline.
pub proof fn lemma_exhausted_bucket_waits(
    m: Map<Seq<char>, Bucket>,
    key: Seq<char>,
    now: u64,
    t: u64,
)
    requires
        m.contains_key(key),
        m[key].remaining == 0,
    ensures
        now < m[key].reset_at ==> spec_admission(m, key, now) == Admission::Wait(m[key].reset_at),
        t >= m[key].reset_at ==> spec_admission(m, key, t) == Admission::Proceed,
{
}

/// Admission consults only the caller's own bucket: changing one key's
/// bucket neither delays nor frees a request on a different key, however
/// exhausted either bucket is.
pub proof fn lemma_buckets_independent(
    m: Map<Seq<char>, Bucket>,
    touched: Seq<char>,
    key: Seq<char>,
    b: Bucket,
    now: u64,
)
    requires
        touched != key,
    ensures
        spec_admission(m.insert(touched, b), key, now) == spec_admission(m, key, now),
{
}

} // verus!
