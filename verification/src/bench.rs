//! The decisions of the benchmark client: which lock method a run calls,
//! and the span of the `say_hello` counter values that the run observed.
use vstd::prelude::*;
use crate::rpc::RpcMethod;

verus! {

/// Which lock the server takes in the calls that a benchmark run makes
/// beside its `say_hello` calls.
#[allow(non_camel_case_types)]
#[derive(PartialEq, Eq, Structural, Debug, Clone, Copy)]
pub enum LockMode {
    STD_MUTEX,
    TOKIO_MUTEX,
}

impl LockMode {
    /// The RPC method that takes this lock.
    pub fn method(&self) -> (method: RpcMethod)
        ensures
            *self == LockMode::STD_MUTEX ==> method == RpcMethod::CallWithStdLock,
            *self == LockMode::TOKIO_MUTEX ==> method == RpcMethod::CallWithTokioLock,
    {
        match self {
            LockMode::STD_MUTEX => RpcMethod::CallWithStdLock,
            LockMode::TOKIO_MUTEX => RpcMethod::CallWithTokioLock,
        }
    }
}

/// The smallest value of `s`; `u64::MAX` when `s` is empty.
pub open spec fn lowest(s: Seq<u64>) -> u64
    decreases s.len(),
{
    if s.len() == 0 {
        u64::MAX
    } else if s.last() < lowest(s.drop_last()) {
        s.last()
    } else {
        lowest(s.drop_last())
    }
}

/// The largest value of `s`; `0` when `s` is empty.
pub open spec fn highest(s: Seq<u64>) -> u64
    decreases s.len(),
{
    if s.len() == 0 {
        0
    } else if s.last() > highest(s.drop_last()) {
        s.last()
    } else {
        highest(s.drop_last())
    }
}

/// `lowest` is the minimum of a non-empty sequence: a value of it that no
/// value of it is below.
pub proof fn lemma_lowest_is_minimum(s: Seq<u64>)
    requires
        s.len() > 0,
    ensures
        s.contains(lowest(s)),
        forall|i: int| 0 <= i < s.len() ==> lowest(s) <= #[trigger] s[i],
    decreases s.len(),
{
    if s.len() > 1 {
        lemma_lowest_is_minimum(s.drop_last());
        assert forall|i: int| 0 <= i < s.len() implies lowest(s) <= #[trigger] s[i] by {
            if i < s.len() - 1 {
                assert(s[i] == s.drop_last()[i]);
            }
        }
        if lowest(s) != s.last() {
            let j = choose|j: int| 0 <= j < s.drop_last().len() && s.drop_last()[j] == lowest(s.drop_last());
            assert(s[j] == lowest(s));
        } else {
            assert(s[s.len() - 1] == lowest(s));
        }
    } else {
        assert(lowest(s.drop_last()) == u64::MAX);
        assert(s[0] == lowest(s));
    }
}

/// `highest` is the maximum of a non-empty sequence: a value of it that no
/// value of it is above.
pub proof fn lemma_highest_is_maximum(s: Seq<u64>)
    requires
        s.len() > 0,
    ensures
        s.contains(highest(s)),
        forall|i: int| 0 <= i < s.len() ==> #[trigger] s[i] <= highest(s),
    decreases s.len(),
{
    if s.len() > 1 {
        lemma_highest_is_maximum(s.drop_last());
        assert forall|i: int| 0 <= i < s.len() implies #[trigger] s[i] <= highest(s) by {
            if i < s.len() - 1 {
                assert(s[i] == s.drop_last()[i]);
            }
        }
        if highest(s) != s.last() {
            let j = choose|j: int| 0 <= j < s.drop_last().len() && s.drop_last()[j] == highest(s.drop_last());
            assert(s[j] == highest(s));
        } else {
            assert(s[s.len() - 1] == highest(s));
        }
    } else {
        assert(highest(s.drop_last()) == 0);
        assert(s[0] == highest(s));
    }
}

/// The lowest and highest `say_hello` counter values observed in a run.
/// Its view is the sequence of values observed, in order.
pub struct CounterSpan {
    start_counter: u64,
    highest_counter: u64,
    observed: Ghost<Seq<u64>>,
}

impl View for CounterSpan {
    type V = Seq<u64>;

    closed spec fn view(&self) -> Seq<u64> {
        self.observed@
    }
}

impl CounterSpan {
    #[verifier::type_invariant]
    spec fn inv(self) -> bool {
        &&& self.start_counter == lowest(self.observed@)
        &&& self.highest_counter == highest(self.observed@)
    }

    /// A span that has observed nothing yet.
    pub fn new() -> (span: Self)
        ensures
            span@ == Seq::<u64>::empty(),
    {
        CounterSpan { start_counter: u64::MAX, highest_counter: u64::MIN, observed: Ghost(Seq::empty()) }
    }

    /// Takes in one counter value from a response.
    pub fn observe(&mut self, response_counter: u64)
        ensures
            final(self)@ == old(self)@.push(response_counter),
    {
        proof {
            use_type_invariant(&*self);
        }
        let ghost next = self.observed@.push(response_counter);
        proof {
            assert(next.drop_last() =~= self.observed@);
        }
        let start_counter = if response_counter < self.start_counter {
            response_counter
        } else {
            self.start_counter
        };
        let highest_counter = if response_counter > self.highest_counter {
            response_counter
        } else {
            self.highest_counter
        };
        *self = CounterSpan { start_counter, highest_counter, observed: Ghost(next) };
    }

    /// The lowest value observed so far (`u64::MAX` before any).
    pub fn start_counter(&self) -> (counter: u64)
        ensures
            counter == lowest(self@),
    {
        proof {
            use_type_invariant(self);
        }
        self.start_counter
    }

    /// The highest value observed so far (`0` before any).
    pub fn highest_counter(&self) -> (counter: u64)
        ensures
            counter == highest(self@),
    {
        proof {
            use_type_invariant(self);
        }
        self.highest_counter
    }

    /// How far the counter advanced over the run: the highest observed
    /// value minus the lowest.
    pub fn counter_diff(&self) -> (diff: u64)
        requires
            self@.len() > 0,
        ensures
            diff == highest(self@) - lowest(self@),
    {
        proof {
            use_type_invariant(self);
            lemma_lowest_is_minimum(self@);
            lemma_highest_is_maximum(self@);
            assert(lowest(self@) <= self@[0] <= highest(self@));
        }
        self.highest_counter - self.start_counter
    }
}

} // verus!
