//! The search for a port that can be bound, within a half-open range.
//!
//! The search starts at a random port of the range and walks the range
//! upwards, wrapping around from the end back to the start. Binding itself is
//! I/O and is done by the caller: it tells the search, port by port, whether
//! the bind succeeded, and the search answers what to do next.
use vstd::prelude::*;
use rand::Rng;

verus! {

/// A half-open range of ports: `(start, end)`, `start` included, `end` excluded.
pub type PortRange = (u16, u16);

/// Offset into the range, relative to `start`, of the attempt numbered `k`
/// when the first attempt was at offset `first_offset` and the range holds
/// `span` ports. Valid for `0 <= k <= span`: one step past the last port of
/// the range wraps around to its first.
pub open spec fn attempt_offset(first_offset: int, k: int, span: int) -> int {
    if first_offset + k < span {
        first_offset + k
    } else {
        first_offset + k - span
    }
}

/// The port tried at attempt `k` (counted from 0) by a search over
/// `[start, end)` that began at `first`.
pub open spec fn port_tried(start: int, end: int, first: int, k: int) -> int {
    start + attempt_offset(first - start, k, end - start)
}

/// The abstract state of a search.
pub struct PortSearchView {
    pub start: u16,
    pub end: u16,
    pub first: u16,
    /// The port to try now.
    pub port: u16,
    /// How many ports have been tried and refused so far.
    pub attempts: nat,
}

impl PortSearchView {
    /// The number of ports in the range.
    pub open spec fn span(self) -> int {
        self.end - self.start
    }

    /// A search over a non-empty range, which has made at most `span`
    /// refused attempts and whose current port is the one its order gives.
    pub open spec fn valid(self) -> bool {
        &&& self.start < self.end
        &&& self.start <= self.first < self.end
        &&& self.attempts <= self.span()
        &&& self.port == port_tried(self.start as int, self.end as int, self.first as int, self.attempts as int)
    }

    /// The port this search tries at attempt `k`.
    pub open spec fn port_at(self, k: int) -> int {
        port_tried(self.start as int, self.end as int, self.first as int, k)
    }

    /// What reporting the outcome of binding the current port does: the
    /// next state and the answer.
    pub open spec fn step(self, bound: bool) -> (PortSearchView, SearchStep) {
        if bound {
            (self, SearchStep::Found(self.port))
        } else if self.attempts >= self.span() {
            (self, SearchStep::Exhausted)
        } else {
            let next = PortSearchView {
                start: self.start,
                end: self.end,
                first: self.first,
                port: self.port_at(self.attempts + 1int) as u16,
                attempts: self.attempts + 1,
            };
            (next, SearchStep::Retry(next.port))
        }
    }

    /// Whether `p` was tried and refused before the current attempt.
    pub open spec fn refused(self, p: int) -> bool {
        exists|k: int|
            0 <= k < self.attempts && #[trigger] port_tried(self.start as int, self.end as int, self.first as int, k) == p
    }
}

/// What the caller is to do after reporting the outcome of a bind.
#[derive(PartialEq, Eq, Structural, Debug, Clone, Copy)]
pub enum SearchStep {
    /// The port bound: the search is over and this is its result.
    Found(u16),
    /// Every port of the range was refused: the search failed.
    Exhausted,
    /// Try this port next.
    Retry(u16),
}

/// A search for a free port. Its state holds the range, the port it started
/// at, the port to try now and how many tries it has left.
pub struct PortSearch {
    start: u16,
    end: u16,
    first: u16,
    port: u16,
    tries_left: u16,
}

impl View for PortSearch {
    type V = PortSearchView;

    closed spec fn view(&self) -> PortSearchView {
        PortSearchView {
            start: self.start,
            end: self.end,
            first: self.first,
            port: self.port,
            attempts: ((self.end - self.start) - self.tries_left) as nat,
        }
    }
}

/// Calls `rand::Rng::gen_range(low, high)` on the thread-local generator of
/// `rand::thread_rng`. Of its result the contract states only what the
/// documentation promises of every outcome: it lies in `[low, high)`. The
/// generator panics when `low >= high`, hence the `requires`; that the
/// operating system's entropy source fails when the thread-local generator
/// is first seeded, which also panics, is not stated.
#[verifier::external_body]
fn random_port_between(low: u16, high: u16) -> (port: u16)
    requires
        low < high,
    ensures
        low <= port < high,
{
    rand::thread_rng().gen_range(low, high)
}

/// Whether `port` is a value that a random draw from `[low, high)` can give:
/// the draw is made with exactly these bounds.
pub closed spec fn drawn_between(low: u16, high: u16, port: u16) -> bool {
    call_ensures(random_port_between, (low, high), port)
}

/// A port drawn from `[low, high)` lies in that range.
pub proof fn lemma_drawn_in_range(low: u16, high: u16, port: u16)
    requires
        drawn_between(low, high, port),
    ensures
        low <= port < high,
{
}

impl PortSearch {
    #[verifier::type_invariant]
    spec fn inv(self) -> bool {
        &&& self.start < self.end
        &&& self.tries_left <= self.end - self.start
        &&& self@.valid()
    }

    /// A search over `range` that tries `first` first.
    pub fn new(range: PortRange, first: u16) -> (search: Self)
        requires
            range.0 < range.1,
            range.0 <= first < range.1,
        ensures
            search@ == (PortSearchView {
                start: range.0,
                end: range.1,
                first,
                port: first,
                attempts: 0,
            }),
            search@.valid(),
    {
        let (start, end) = range;
        PortSearch { start, end, first, port: first, tries_left: end - start }
    }

    /// A search over `range` that starts at a port drawn at random from it.
    pub fn random(range: PortRange) -> (search: Self)
        requires
            range.0 < range.1,
        ensures
            search@.start == range.0,
            search@.end == range.1,
            search@.port == search@.first,
            search@.attempts == 0,
            search@.valid(),
            drawn_between(range.0, range.1, search@.first),
    {
        let first = random_port_between(range.0, range.1);
        Self::new(range, first)
    }

    /// The port to try now.
    pub fn port(&self) -> (port: u16)
        ensures
            port == self@.port,
    {
        self.port
    }

    /// Reports whether binding the current port succeeded, and answers what
    /// comes next: the port itself when it bound; otherwise the next port of
    /// the range, wrapping around, while tries are left; and failure once
    /// every port of the range has been refused.
    pub fn advance(&mut self, bound: bool) -> (step: SearchStep)
        ensures
            final(self)@.valid(),
            (final(self)@, step) == old(self)@.step(bound),
            bound ==> step == SearchStep::Found(old(self)@.port) && final(self)@ == old(self)@,
            !bound && old(self)@.attempts == old(self)@.span() ==> step == SearchStep::Exhausted
                && final(self)@ == old(self)@,
            !bound && old(self)@.attempts < old(self)@.span() ==> step == SearchStep::Retry(final(self)@.port)
                && final(self)@.attempts == old(self)@.attempts + 1,
            step is Exhausted ==> forall|p: int|
                old(self)@.start <= p < old(self)@.end ==> #[trigger] final(self)@.refused(p),
    {
        proof {
            use_type_invariant(&*self);
        }
        if bound {
            return SearchStep::Found(self.port);
        }
        if self.tries_left == 0 {
            proof {
                let v = self@;
                assert forall|p: int| v.start <= p < v.end implies #[trigger] v.refused(p) by {
                    lemma_every_port_tried(v.start as int, v.end as int, v.first as int, p);
                    let k = choose|k: int|
                        0 <= k < v.end - v.start && #[trigger] port_tried(v.start as int, v.end as int, v.first as int, k) == p;
                    assert(port_tried(v.start as int, v.end as int, v.first as int, k) == p);
                }
            }
            return SearchStep::Exhausted;
        }
        let next = if self.port + 1 == self.end {
            self.start
        } else {
            self.port + 1
        };
        *self = PortSearch {
            start: self.start,
            end: self.end,
            first: self.first,
            port: next,
            tries_left: self.tries_left - 1,
        };
        SearchStep::Retry(next)
    }
}

/// Every port that a search tries lies in its range.
pub proof fn lemma_tried_port_in_range(start: int, end: int, first: int, k: int)
    requires
        start <= first < end,
        0 <= k <= end - start,
    ensures
        start <= port_tried(start, end, first, k) < end,
{
}

/// Every port of the range is tried within the first `end - start`
/// attempts of a search, wherever in the range it began.
pub proof fn lemma_every_port_tried(start: int, end: int, first: int, p: int)
    requires
        start <= first < end,
        start <= p < end,
    ensures
        exists|k: int| 0 <= k < end - start && #[trigger] port_tried(start, end, first, k) == p,
{
    let k = if p >= first {
        p - first
    } else {
        (end - start) - (first - p)
    };
    assert(port_tried(start, end, first, k) == p);
}

/// The first `end - start` attempts of a search try pairwise different
/// ports.
pub proof fn lemma_no_port_tried_twice(start: int, end: int, first: int, i: int, j: int)
    requires
        start <= first < end,
        0 <= i < j < end - start,
    ensures
        port_tried(start, end, first, i) != port_tried(start, end, first, j),
{
}

/// The last attempt of a search, numbered `end - start`, tries the port the
/// search began with again.
pub proof fn lemma_last_attempt_retries_first(start: int, end: int, first: int)
    requires
        start <= first < end,
    ensures
        port_tried(start, end, first, end - start) == first,
{
}

/// Where a search from state `v` ends when binding a port succeeds exactly
/// for the ports in `free`: the answer that is not `Retry`.
pub open spec fn search_outcome(v: PortSearchView, free: spec_fn(int) -> bool) -> SearchStep
    decreases v.span() - v.attempts,
{
    if free(v.port as int) || v.attempts >= v.span() {
        v.step(free(v.port as int)).1
    } else {
        search_outcome(v.step(false).0, free)
    }
}

proof fn lemma_search_outcome_from(v: PortSearchView, free: spec_fn(int) -> bool)
    requires
        v.valid(),
        forall|j: int| 0 <= j < v.attempts ==> !free(#[trigger] v.port_at(j)),
    ensures
        search_outcome(v, free) is Found || search_outcome(v, free) is Exhausted,
        search_outcome(v, free) matches SearchStep::Found(p) ==> free(p as int) && exists|k: int|
            v.attempts <= k <= v.span() && #[trigger] v.port_at(k) == p && forall|j: int|
                0 <= j < k ==> !free(#[trigger] v.port_at(j)),
        search_outcome(v, free) is Exhausted ==> forall|j: int| 0 <= j <= v.span() ==> !free(#[trigger] v.port_at(j)),
    decreases v.span() - v.attempts,
{
    if free(v.port as int) {
        assert(v.port_at(v.attempts as int) == v.port);
    } else if v.attempts >= v.span() {
        assert(v.port_at(v.attempts as int) == v.port);
    } else {
        let next = v.step(false).0;
        lemma_tried_port_in_range(v.start as int, v.end as int, v.first as int, v.attempts + 1int);
        assert(next.valid());
        assert forall|j: int| 0 <= j < next.attempts implies !free(#[trigger] next.port_at(j)) by {
            assert(next.port_at(j) == v.port_at(j));
            if j == v.attempts {
                assert(v.port_at(j) == v.port);
            }
        }
        lemma_search_outcome_from(next, free);
        if let SearchStep::Found(p) = search_outcome(next, free) {
            let k = choose|k: int|
                next.attempts <= k <= next.span() && #[trigger] next.port_at(k) == p && forall|j: int|
                    0 <= j < k ==> !free(#[trigger] next.port_at(j));
            assert(v.port_at(k) == p);
            assert forall|j: int| 0 <= j < k implies !free(#[trigger] v.port_at(j)) by {
                assert(next.port_at(j) == v.port_at(j));
            }
        }
        if search_outcome(next, free) is Exhausted {
            assert forall|j: int| 0 <= j <= v.span() implies !free(#[trigger] v.port_at(j)) by {
                assert(next.port_at(j) == v.port_at(j));
            }
        }
    }
}

/// A search that is fed the true outcome of each bind ends with the first
/// port, in its order of trying, that binds; and it fails exactly when no
/// port of the range binds.
pub proof fn lemma_search_finds_first_free(v: PortSearchView, free: spec_fn(int) -> bool)
    requires
        v.valid(),
        v.attempts == 0,
    ensures
        search_outcome(v, free) is Found || search_outcome(v, free) is Exhausted,
        search_outcome(v, free) is Exhausted <==> forall|p: int| v.start <= p < v.end ==> !#[trigger] free(p),
        search_outcome(v, free) matches SearchStep::Found(p) ==> {
            &&& free(p as int)
            &&& v.start <= p < v.end
            &&& exists|k: int|
                0 <= k < v.span() && #[trigger] v.port_at(k) == p && forall|j: int|
                    0 <= j < k ==> !free(#[trigger] v.port_at(j))
        },
{
    lemma_search_outcome_from(v, free);
    if let SearchStep::Found(p) = search_outcome(v, free) {
        let k = choose|k: int|
            0 <= k <= v.span() && #[trigger] v.port_at(k) == p && forall|j: int|
                0 <= j < k ==> !free(#[trigger] v.port_at(j));
        lemma_tried_port_in_range(v.start as int, v.end as int, v.first as int, k);
        if k == v.span() {
            assert(v.port_at(v.span()) == v.first);
            assert(v.port_at(0) == v.first);
            assert(!free(v.port_at(0)));
            assert(false);
        }
        assert(!(forall|q: int| v.start <= q < v.end ==> !#[trigger] free(q)));
    }
    if search_outcome(v, free) is Exhausted {
        assert forall|p: int| v.start <= p < v.end implies !#[trigger] free(p) by {
            lemma_every_port_tried(v.start as int, v.end as int, v.first as int, p);
            let k = choose|k: int| 0 <= k < v.end - v.start && #[trigger] port_tried(v.start as int, v.end as int, v.first as int, k) == p;
            assert(v.port_at(k) == p);
        }
    }
}

} // verus!
