//! A bounded first-in-first-out queue of chat requests that wait for a model to
//! become available (for instance during a model switch).

use vstd::prelude::*;
use std::collections::VecDeque;
use std::time::{Duration, Instant};

verus! {

#[verifier::external_type_specification]
#[verifier::external_body]
pub struct ExInstant(Instant);

/// Calls `Instant::now`: a reading of the monotonic clock; nothing is promised of it.
#[verifier::external_body]
fn instant_now() -> Instant {
    Instant::now()
}

/// Calls `Instant::elapsed`: the time passed since `since`, read from the clock;
/// nothing is promised of it.
#[verifier::external_body]
fn instant_elapsed(since: &Instant) -> Duration {
    since.elapsed()
}

/// Calls `Duration::as_nanos`: the total number of whole nanoseconds in `d`. That number
/// is not stated here, as `Duration` is opaque to the proofs.
#[verifier::external_body]
fn duration_as_nanos(d: &Duration) -> u128 {
    d.as_nanos()
}

/// Whether a wait of `waited_nanos` nanoseconds is longer than a timeout of
/// `timeout_nanos` nanoseconds.
pub fn exceeds_timeout(waited_nanos: u128, timeout_nanos: u128) -> (r: bool)
    ensures
        r == (waited_nanos > timeout_nanos),
{
    waited_nanos > timeout_nanos
}

/// `r` is the answer to "has more than `timeout` passed since `since`" for some reading of
/// the clock: a reading of the time elapsed since `since` and the timeout, both taken in
/// whole nanoseconds, with `r` true exactly when the first exceeds the second.
pub closed spec fn reading_exceeds(since: Instant, timeout: Duration, r: bool) -> bool {
    exists|waited: Duration, waited_nanos: u128, timeout_nanos: u128|
        #![trigger call_ensures(instant_elapsed, (&since,), waited), call_ensures(duration_as_nanos, (&waited,), waited_nanos), call_ensures(duration_as_nanos, (&timeout,), timeout_nanos)]
        call_ensures(instant_elapsed, (&since,), waited) && call_ensures(
            duration_as_nanos,
            (&waited,),
            waited_nanos,
        ) && call_ensures(duration_as_nanos, (&timeout,), timeout_nanos) && r == (waited_nanos
            > timeout_nanos)
}

/// Errors that can occur when queuing requests.
#[derive(Clone, Copy, Debug, PartialEq, Eq, Structural)]
pub enum QueueError {
    /// The queue already holds its maximum number of requests.
    QueueFull,
    /// The request waited in the queue for longer than the timeout.
    Timeout,
}

impl QueueError {
    /// The human-readable description of the error.
    pub fn message(&self) -> (m: &'static str)
        ensures
            m@ == (match self {
                QueueError::QueueFull => "Request queue is full"@,
                QueueError::Timeout => "Request timed out in queue"@,
            }),
    {
        match self {
            QueueError::QueueFull => "Request queue is full",
            QueueError::Timeout => "Request timed out in queue",
        }
    }
}

/// A request queued for processing once its model is available. `R` is the chat request
/// itself and `Tx` the channel on which the response is sent back.
pub struct QueuedRequest<R, Tx> {
    /// Correlation ID for diagnostics and mailbox storage.
    pub request_id: String,
    /// The model this request is for.
    pub model: String,
    /// The chat completion request.
    pub request: R,
    /// When the request was queued.
    pub queued_at: Instant,
    /// Sender for the response.
    pub response_tx: Option<Tx>,
    /// Whether this is a streaming request.
    pub is_streaming: bool,
}

impl<R, Tx> QueuedRequest<R, Tx> {
    /// Create a new queued request, stamped with the current time. `stream` is the
    /// request's `stream` field: the request streams only when it is `Some(true)`.
    pub fn new(
        request_id: String,
        model: String,
        request: R,
        stream: Option<bool>,
        response_tx: Option<Tx>,
    ) -> (q: Self)
        ensures
            q.request_id == request_id,
            q.model == model,
            q.request == request,
            q.response_tx == response_tx,
            q.is_streaming == (stream == Some(true)),
    {
        let is_streaming = match stream {
            Some(s) => s,
            None => false,
        };
        QueuedRequest {
            request_id,
            model,
            request,
            queued_at: instant_now(),
            response_tx,
            is_streaming,
        }
    }

    /// Whether this request has waited for longer than `timeout`: the time elapsed since
    /// it was queued and the timeout, both in nanoseconds, compared by `exceeds_timeout`.
    /// The elapsed time is a reading of the clock, so the contract states the answer over
    /// that reading: it is true exactly when the reading of the time since `queued_at`
    /// exceeds the timeout.
    pub fn is_timed_out(&self, timeout: Duration) -> (r: bool)
        ensures
            reading_exceeds(self.queued_at, timeout, r),
    {
        let waited = instant_elapsed(&self.queued_at);
        let waited_nanos = duration_as_nanos(&waited);
        let timeout_nanos = duration_as_nanos(&timeout);
        exceeds_timeout(waited_nanos, timeout_nanos)
    }
}

/// The elements of `s` whose flag (`flags`, indexed by position) equals `want`, in order.
pub open spec fn flagged<T>(s: Seq<T>, flags: Seq<bool>, want: bool) -> Seq<T>
    decreases s.len(),
{
    if s.len() == 0 {
        Seq::empty()
    } else {
        let prev = flagged(s.drop_last(), flags, want);
        if flags[s.len() - 1] == want {
            prev.push(s.last())
        } else {
            prev
        }
    }
}

/// The queue contents after an enqueue of `r` into a queue `q` of capacity `cap`: the
/// request joins the back when there is room and is refused otherwise.
pub open spec fn after_enqueue<T>(q: Seq<T>, cap: nat, r: T) -> Seq<T> {
    if q.len() < cap {
        q.push(r)
    } else {
        q
    }
}

/// The queue contents after enqueuing each of `rs` in turn.
pub open spec fn after_enqueue_all<T>(q: Seq<T>, cap: nat, rs: Seq<T>) -> Seq<T>
    decreases rs.len(),
{
    if rs.len() == 0 {
        q
    } else {
        after_enqueue(after_enqueue_all(q, cap, rs.drop_last()), cap, rs.last())
    }
}

/// Selecting by flag never yields more elements than there are.
pub proof fn lemma_flagged_len<T>(s: Seq<T>, flags: Seq<bool>, want: bool)
    ensures
        flagged(s, flags, want).len() <= s.len(),
        flagged(s, flags, true).len() + flagged(s, flags, false).len() == s.len(),
    decreases s.len(),
{
    if s.len() > 0 {
        lemma_flagged_len(s.drop_last(), flags, want);
    }
}

/// Queue for managing requests during model switches.
pub struct RequestQueue<R, Tx> {
    inner: VecDeque<QueuedRequest<R, Tx>>,
    max_size: usize,
    timeout: Duration,
}

impl<R, Tx> View for RequestQueue<R, Tx> {
    type V = Seq<QueuedRequest<R, Tx>>;

    /// The queued requests, front first.
    closed spec fn view(&self) -> Seq<QueuedRequest<R, Tx>> {
        self.inner@
    }
}

impl<R, Tx> RequestQueue<R, Tx> {
    /// The queue never holds more than its maximum number of requests.
    #[verifier::type_invariant]
    closed spec fn bounded(&self) -> bool {
        self.inner@.len() <= self.max_size
    }

    /// The maximum number of requests the queue holds.
    pub closed spec fn capacity(&self) -> nat {
        self.max_size as nat
    }

    /// How long a request may wait before `remove_timed_out` takes it out.
    pub closed spec fn timeout_spec(&self) -> Duration {
        self.timeout
    }

    /// Create a new, empty request queue.
    pub fn new(max_size: usize, timeout: Duration) -> (q: Self)
        ensures
            q@ == Seq::<QueuedRequest<R, Tx>>::empty(),
            q.capacity() == max_size,
            q.timeout_spec() == timeout,
    {
        RequestQueue { inner: VecDeque::new(), max_size, timeout }
    }

    /// Enqueue a request at the back. Fails with `QueueFull`, dropping the request and
    /// leaving the queue unchanged, when the queue already holds `max_size` requests.
    pub fn enqueue(&mut self, req: QueuedRequest<R, Tx>) -> (r: Result<(), QueueError>)
        ensures
            final(self).capacity() == old(self).capacity(),
            final(self).timeout_spec() == old(self).timeout_spec(),
            final(self)@.len() <= final(self).capacity(),
            final(self)@ == after_enqueue(old(self)@, old(self).capacity(), req),
            old(self)@.len() >= old(self).capacity() ==> r == Err::<(), QueueError>(
                QueueError::QueueFull,
            ) && final(self)@ == old(self)@,
            old(self)@.len() < old(self).capacity() ==> r == Ok::<(), QueueError>(())
                && final(self)@ == old(self)@.push(req),
    {
        proof {
            use_type_invariant(&*self);
        }
        if self.inner.len() >= self.max_size {
            return Err(QueueError::QueueFull);
        }
        let mut inner = VecDeque::new();
        std::mem::swap(&mut inner, &mut self.inner);
        inner.push_back(req);
        self.inner = inner;
        Ok(())
    }

    /// Dequeue the request at the front, or `None` when the queue is empty.
    pub fn dequeue(&mut self) -> (r: Option<QueuedRequest<R, Tx>>)
        ensures
            final(self).capacity() == old(self).capacity(),
            final(self).timeout_spec() == old(self).timeout_spec(),
            old(self)@.len() == 0 ==> r is None && final(self)@ == old(self)@,
            old(self)@.len() > 0 ==> r == Some(old(self)@[0]) && final(self)@ == old(
                self,
            )@.drop_first(),
    {
        proof {
            use_type_invariant(&*self);
        }
        let mut inner = VecDeque::new();
        std::mem::swap(&mut inner, &mut self.inner);
        let r = inner.pop_front();
        proof {
            if old(self)@.len() > 0 {
                assert(inner@ =~= old(self)@.drop_first());
            }
        }
        self.inner = inner;
        r
    }

    /// Take every request out of the queue, front first.
    pub fn drain(&mut self) -> (all: Vec<QueuedRequest<R, Tx>>)
        ensures
            final(self).capacity() == old(self).capacity(),
            final(self).timeout_spec() == old(self).timeout_spec(),
            all@ == old(self)@,
            final(self)@ == Seq::<QueuedRequest<R, Tx>>::empty(),
    {
        proof {
            use_type_invariant(&*self);
        }
        let mut all: Vec<QueuedRequest<R, Tx>> = Vec::new();
        let mut inner = VecDeque::new();
        std::mem::swap(&mut inner, &mut self.inner);
        let ghost orig = inner@;
        while inner.len() > 0
            invariant
                all@ + inner@ == orig,
            decreases inner@.len(),
        {
            let ghost before = inner@;
            match inner.pop_front() {
                Some(x) => {
                    proof {
                        assert(before =~= seq![x] + inner@);
                    }
                    all.push(x);
                },
                None => {},
            }
        }
        assert(all@ =~= orig);
        all
    }

    /// Take out the requests whose flag in `remove` is set, keeping the others in order.
    /// `remove[i]` is the flag of the request at position `i`.
    pub fn remove_flagged(&mut self, remove: &Vec<bool>) -> (removed: Vec<QueuedRequest<R, Tx>>)
        requires
            remove@.len() == old(self)@.len(),
        ensures
            final(self).capacity() == old(self).capacity(),
            final(self).timeout_spec() == old(self).timeout_spec(),
            removed@ == flagged(old(self)@, remove@, true),
            final(self)@ == flagged(old(self)@, remove@, false),
    {
        proof {
            use_type_invariant(&*self);
        }
        let mut inner = VecDeque::new();
        std::mem::swap(&mut inner, &mut self.inner);
        let ghost orig = inner@;
        let n = inner.len();
        let mut removed: Vec<QueuedRequest<R, Tx>> = Vec::new();
        let mut kept: VecDeque<QueuedRequest<R, Tx>> = VecDeque::new();
        let mut k: usize = 0;
        assert(orig.take(0) =~= Seq::<QueuedRequest<R, Tx>>::empty());
        while k < n
            invariant
                n == orig.len(),
                remove@.len() == n,
                k <= n,
                inner@ == orig.skip(k as int),
                removed@ == flagged(orig.take(k as int), remove@, true),
                kept@ == flagged(orig.take(k as int), remove@, false),
            decreases n - k,
        {
            let ghost before = inner@;
            let x = match inner.pop_front() {
                Some(x) => x,
                None => {
                    assert(false);
                    return removed;
                },
            };
            proof {
                assert(orig.take(k + 1).drop_last() =~= orig.take(k as int));
                assert(orig.take(k + 1).last() == x);
                assert(inner@ =~= orig.skip(k + 1));
            }
            if remove[k] {
                removed.push(x);
            } else {
                kept.push_back(x);
            }
            k = k + 1;
        }
        proof {
            assert(orig.take(n as int) =~= orig);
            lemma_flagged_len(orig, remove@, false);
        }
        self.inner = kept;
        removed
    }

    /// Remove the requests that have waited for longer than the queue's timeout and return
    /// them, front first; the others stay in order. Which requests have timed out depends
    /// on the clock.
    pub fn remove_timed_out(&mut self) -> (removed: Vec<QueuedRequest<R, Tx>>)
        ensures
            final(self).capacity() == old(self).capacity(),
            final(self).timeout_spec() == old(self).timeout_spec(),
            exists|flags: Seq<bool>|
                #![trigger flagged(old(self)@, flags, true)]
                flags.len() == old(self)@.len() && removed@ == flagged(old(self)@, flags, true)
                    && final(self)@ == flagged(old(self)@, flags, false) && forall|i: int|
                    0 <= i < flags.len() ==> call_ensures(
                        QueuedRequest::<R, Tx>::is_timed_out,
                        (&old(self)@[i], old(self).timeout_spec()),
                        #[trigger] flags[i],
                    ),
    {
        let n = self.inner.len();
        let mut flags: Vec<bool> = Vec::new();
        let mut i: usize = 0;
        while i < n
            invariant
                n == self.inner@.len(),
                i <= n,
                flags@.len() == i,
                *self == *old(self),
                forall|j: int|
                    0 <= j < i ==> call_ensures(
                        QueuedRequest::<R, Tx>::is_timed_out,
                        (&self.inner@[j], self.timeout),
                        #[trigger] flags@[j],
                    ),
            decreases n - i,
        {
            let t = self.inner[i].is_timed_out(self.timeout);
            flags.push(t);
            i = i + 1;
        }
        self.remove_flagged(&flags)
    }

    /// The current number of queued requests.
    pub fn len(&self) -> (n: usize)
        ensures
            n == self@.len(),
    {
        self.inner.len()
    }

    /// Whether the queue is empty.
    pub fn is_empty(&self) -> (b: bool)
        ensures
            b == (self@.len() == 0),
    {
        self.inner.len() == 0
    }

    /// The maximum queue size.
    pub fn max_size(&self) -> (m: usize)
        ensures
            m == self.capacity(),
    {
        self.max_size
    }
}

/// Requests leave in the order they entered: enqueuing requests into a queue that has
/// room for all of them appends them, in order, behind the requests already waiting, and
/// the queue never exceeds its capacity.
pub proof fn lemma_fifo_order<T>(q: Seq<T>, cap: nat, rs: Seq<T>)
    requires
        q.len() + rs.len() <= cap,
    ensures
        after_enqueue_all(q, cap, rs) == q + rs,
    decreases rs.len(),
{
    if rs.len() > 0 {
        lemma_fifo_order(q, cap, rs.drop_last());
        assert(q + rs =~= (q + rs.drop_last()).push(rs.last()));
    } else {
        assert(q + rs =~= q);
    }
}

/// Enqueuing never takes a queue beyond its capacity.
pub proof fn lemma_enqueue_bounded<T>(q: Seq<T>, cap: nat, rs: Seq<T>)
    requires
        q.len() <= cap,
    ensures
        after_enqueue_all(q, cap, rs).len() <= cap,
    decreases rs.len(),
{
    if rs.len() > 0 {
        lemma_enqueue_bounded(q, cap, rs.drop_last());
    }
}

/// Removing timed-out requests loses and duplicates nothing: the removed requests and the
/// remaining ones together are exactly the requests that were queued.
pub proof fn lemma_timeout_sweep_partition<T>(s: Seq<T>, flags: Seq<bool>)
    ensures
        flagged(s, flags, true).to_multiset().add(flagged(s, flags, false).to_multiset())
            == s.to_multiset(),
    decreases s.len(),
{
    broadcast use vstd::multiset::group_multiset_axioms;
    broadcast use vstd::seq_lib::group_to_multiset_ensures;
    if s.len() > 0 {
        lemma_timeout_sweep_partition(s.drop_last(), flags);
        assert(s =~= s.drop_last().push(s.last()));
        assert(flagged(s, flags, true).to_multiset().add(flagged(s, flags, false).to_multiset())
            =~= s.to_multiset());
    } else {
        assert(flagged(s, flags, true).to_multiset().add(flagged(s, flags, false).to_multiset())
            =~= s.to_multiset());
    }
}

/// The timeout sweep follows each request's own check: every request it removes is one
/// whose check at its own position said it timed out, and every request it keeps is one
/// whose check said it did not.
pub proof fn lemma_sweep_follows_own_flags<T>(s: Seq<T>, flags: Seq<bool>, want: bool)
    requires
        flags.len() == s.len(),
    ensures
        forall|k: int|
            0 <= k < flagged(s, flags, want).len() ==> exists|i: int|
                0 <= i < s.len() && flags[i] == want && #[trigger] flagged(s, flags, want)[k]
                    == s[i],
    decreases s.len(),
{
    if s.len() > 0 {
        let prev = flagged(s.drop_last(), flags, want);
        lemma_sweep_follows_own_flags(s.drop_last(), flags.drop_last(), want);
        lemma_flagged_prefix_flags(s.drop_last(), flags, flags.drop_last(), want);
        assert forall|k: int| 0 <= k < flagged(s, flags, want).len() implies exists|i: int|
            0 <= i < s.len() && flags[i] == want && #[trigger] flagged(s, flags, want)[k]
                == s[i] by {
            if k < prev.len() {
                let i = choose|i: int|
                    0 <= i < s.drop_last().len() && flags.drop_last()[i] == want
                        && #[trigger] prev[k] == s.drop_last()[i];
                assert(flags[i] == flags.drop_last()[i]);
                assert(s[i] == s.drop_last()[i]);
                assert(flagged(s, flags, want)[k] == s[i]);
            } else {
                assert(flags[s.len() - 1] == want);
                assert(flagged(s, flags, want)[k] == s[s.len() - 1]);
            }
        }
    }
}

/// `flagged` reads only the flags of the positions it covers.
proof fn lemma_flagged_prefix_flags<T>(s: Seq<T>, f1: Seq<bool>, f2: Seq<bool>, want: bool)
    requires
        forall|i: int| 0 <= i < s.len() ==> f1[i] == f2[i],
    ensures
        flagged(s, f1, want) == flagged(s, f2, want),
    decreases s.len(),
{
    if s.len() > 0 {
        lemma_flagged_prefix_flags(s.drop_last(), f1, f2, want);
    }
}

} // verus!
