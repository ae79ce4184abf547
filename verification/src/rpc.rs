//! The RPC service: its settings, the methods it offers and their replies,
//! the routing of the HTTP middleware in front of it, and the value that a
//! transaction send leaves in the sender's slot.
use vstd::prelude::*;

verus! {

/// Worker threads of the RPC runtime.
pub const RPC_THREADS: usize = 5;

/// Niceness adjustment asked for the RPC threads.
pub const RPC_NICENESS_ADJ: i8 = 0;

/// Largest request body the server accepts: 50 KiB.
pub const MAX_REQUEST_BODY_SIZE: usize = 50 * 1024;

/// Port the service listens on.
pub const RPC_PORT: u16 = 21212;

/// How long, in seconds, browsers may cache the answer to a CORS preflight.
pub const CORS_MAX_AGE: u32 = 86400;

/// Value each transaction sender slot holds when the service starts.
pub const INITIAL_SENDER_VALUE: u32 = 100;

/// Value that sending a transaction stores in the sender slot.
pub const SENT_TRANSACTION_VALUE: u32 = 42;

/// HTTP status of the answer to a health check.
pub const HEALTH_STATUS: u16 = 200;

/// A transaction handed to the sender. It carries no data yet.
pub struct TransactionInfo {}

/// The value guarded by one of the transaction sender locks.
pub struct TransactionSlot {
    pub value: u32,
}

impl TransactionSlot {
    /// A slot holding the initial sender value.
    pub fn new() -> (slot: Self)
        ensures
            slot.value == INITIAL_SENDER_VALUE,
    {
        TransactionSlot { value: INITIAL_SENDER_VALUE }
    }

    /// Stores `value` and gives back the value held before.
    pub fn replace(&mut self, value: u32) -> (previous: u32)
        ensures
            previous == old(self).value,
            final(self).value == value,
    {
        let previous = self.value;
        self.value = value;
        previous
    }

    /// Records that a transaction was sent: stores the sent-transaction
    /// value and gives back the value held before.
    pub fn record_send(&mut self) -> (previous: u32)
        ensures
            previous == old(self).value,
            final(self).value == SENT_TRANSACTION_VALUE,
    {
        self.replace(SENT_TRANSACTION_VALUE)
    }
}

/// The methods that the RPC service offers.
#[derive(PartialEq, Eq, Structural, Debug, Clone, Copy)]
pub enum RpcMethod {
    /// Counts the calls made so far and answers with the count.
    SayHello,
    /// Sends a transaction under a lock of the standard library.
    CallWithStdLock,
    /// Sends a transaction under an asynchronous lock.
    CallWithTokioLock,
    /// Answers at once.
    BurnSomeCpuCycles,
}

impl RpcMethod {
    /// The name under which the method is called.
    pub open spec fn spec_name(self) -> Seq<char> {
        match self {
            RpcMethod::SayHello => "say_hello"@,
            RpcMethod::CallWithStdLock => "call_with_stdlock"@,
            RpcMethod::CallWithTokioLock => "call_with_tokiolock"@,
            RpcMethod::BurnSomeCpuCycles => "burn_some_cpu_cycles"@,
        }
    }

    /// The name under which the method is called.
    pub fn name(&self) -> (name: &'static str)
        ensures
            name@ == self.spec_name(),
    {
        match self {
            RpcMethod::SayHello => "say_hello",
            RpcMethod::CallWithStdLock => "call_with_stdlock",
            RpcMethod::CallWithTokioLock => "call_with_tokiolock",
            RpcMethod::BurnSomeCpuCycles => "burn_some_cpu_cycles",
        }
    }

    /// The method called by `name`, if the service offers one.
    pub open spec fn spec_from_name(name: Seq<char>) -> Option<RpcMethod> {
        if name == "say_hello"@ {
            Some(RpcMethod::SayHello)
        } else if name == "call_with_stdlock"@ {
            Some(RpcMethod::CallWithStdLock)
        } else if name == "call_with_tokiolock"@ {
            Some(RpcMethod::CallWithTokioLock)
        } else if name == "burn_some_cpu_cycles"@ {
            Some(RpcMethod::BurnSomeCpuCycles)
        } else {
            None
        }
    }

    /// The method called by `name`, if the service offers one.
    pub fn from_name(name: &str) -> (method: Option<RpcMethod>)
        ensures
            method == Self::spec_from_name(name@),
            forall|m: RpcMethod| method == Some(m) <==> name@ == #[trigger] m.spec_name(),
    {
        proof {
            lemma_only_exact_names(name@);
        }
        let wanted = name.to_owned();
        let candidates = [
            RpcMethod::SayHello,
            RpcMethod::CallWithStdLock,
            RpcMethod::CallWithTokioLock,
            RpcMethod::BurnSomeCpuCycles,
        ];
        let mut i: usize = 0;
        while i < 4
            invariant
                0 <= i <= 4,
                candidates@ == seq![
                    RpcMethod::SayHello,
                    RpcMethod::CallWithStdLock,
                    RpcMethod::CallWithTokioLock,
                    RpcMethod::BurnSomeCpuCycles,
                ],
                forall|j: int| 0 <= j < i ==> candidates@[j].spec_name() != name@,
                wanted@ == name@,
            decreases 4 - i,
        {
            let candidate = candidates[i];
            let candidate_name = candidate.name().to_owned();
            if candidate_name == wanted {
                proof {
                    lemma_name_round_trip(candidate);
                    lemma_only_exact_names(name@);
                }
                return Some(candidate);
            }
            i = i + 1;
        }
        assert(candidates@[0].spec_name() != name@);
        assert(candidates@[1].spec_name() != name@);
        assert(candidates@[2].spec_name() != name@);
        assert(candidates@[3].spec_name() != name@);
        None
    }
}

/// Each method is found again by its name.
pub proof fn lemma_name_round_trip(m: RpcMethod)
    ensures
        RpcMethod::spec_from_name(m.spec_name()) == Some(m),
{
    reveal_strlit("say_hello");
    reveal_strlit("call_with_stdlock");
    reveal_strlit("call_with_tokiolock");
    reveal_strlit("burn_some_cpu_cycles");
    assert("say_hello"@.len() == 9);
    assert("call_with_stdlock"@.len() == 17);
    assert("call_with_tokiolock"@.len() == 19);
    assert("burn_some_cpu_cycles"@.len() == 20);
}

/// A name calls a method exactly when it is that method's name, letter for
/// letter: any other text, a prefix of a name among them, calls no method.
pub proof fn lemma_only_exact_names(name: Seq<char>)
    ensures
        forall|m: RpcMethod| RpcMethod::spec_from_name(name) == Some(m) <==> name == #[trigger] m.spec_name(),
        RpcMethod::spec_from_name(name) is None <==> forall|m: RpcMethod| name != #[trigger] m.spec_name(),
{
    assert forall|m: RpcMethod| RpcMethod::spec_from_name(name) == Some(m) <==> name == #[trigger] m.spec_name() by {
        lemma_name_round_trip(m);
        if let Some(found) = RpcMethod::spec_from_name(name) {
            lemma_name_round_trip(found);
            if found != m {
                lemma_method_names_distinct(found, m);
            }
            // the method found is the one whose name the text is
            assert(name == found.spec_name()) by {
                reveal_strlit("say_hello");
                reveal_strlit("call_with_stdlock");
                reveal_strlit("call_with_tokiolock");
                reveal_strlit("burn_some_cpu_cycles");
            }
        }
    }
    if RpcMethod::spec_from_name(name) is None {
        assert forall|m: RpcMethod| name != #[trigger] m.spec_name() by {
            lemma_name_round_trip(m);
        }
    } else {
        let found = RpcMethod::spec_from_name(name)->0;
        assert(name == found.spec_name());
    }
}

/// No two methods of the service share a name, so a name calls at most one
/// method.
pub proof fn lemma_method_names_distinct(a: RpcMethod, b: RpcMethod)
    requires
        a != b,
    ensures
        a.spec_name() != b.spec_name(),
{
    reveal_strlit("say_hello");
    reveal_strlit("call_with_stdlock");
    reveal_strlit("call_with_tokiolock");
    reveal_strlit("burn_some_cpu_cycles");
    assert("say_hello"@.len() == 9);
    assert("call_with_stdlock"@.len() == 17);
    assert("call_with_tokiolock"@.len() == 19);
    assert("burn_some_cpu_cycles"@.len() == 20);
    // the four names differ in length
}

/// The answer to `say_hello` when `previous` calls were counted before this
/// one: the count including this call.
pub fn say_hello_reply(previous: i64) -> (reply: i64)
    requires
        previous < i64::MAX,
    ensures
        reply == previous + 1,
{
    previous + 1
}

/// The answer to both lock methods.
pub fn lock_call_reply() -> (reply: String)
    ensures
        reply@ == "locked for x ms"@,
{
    "locked for x ms".to_owned()
}

/// The answer to `burn_some_cpu_cycles`.
pub fn burn_reply() -> (reply: String)
    ensures
        reply@ == "ashes"@,
{
    "ashes".to_owned()
}

/// What the HTTP middleware does with a request.
#[derive(PartialEq, Eq, Debug)]
pub enum MiddlewareAction {
    /// Hand the request on to the RPC handler without logging it.
    Proceed,
    /// Log the request's URI, then hand it on to the RPC handler.
    ProceedAndLog,
    /// Answer the request directly with this status and body.
    Respond { status: u16, body: String },
}

/// The middleware in front of the RPC handler.
pub struct RpcRequestMiddleware {}

impl RpcRequestMiddleware {
    pub fn new() -> (middleware: Self) {
        RpcRequestMiddleware {}
    }

    /// Routes a request by the path of its URI: the root goes on to the RPC
    /// handler unlogged; `/health` is answered with status 200 and a fixed
    /// body; any other path is logged and goes on to the RPC handler.
    pub fn on_request(&self, path: &str) -> (action: MiddlewareAction)
        ensures
            path@ == "/"@ ==> action == MiddlewareAction::Proceed,
            path@ == "/health"@ ==> (action matches MiddlewareAction::Respond { status, body }
                && status == HEALTH_STATUS && body@ == "health_check_notimplemented"@),
            path@ != "/"@ && path@ != "/health"@ ==> action == MiddlewareAction::ProceedAndLog,
    {
        proof {
            reveal_strlit("/");
            reveal_strlit("/health");
            assert("/"@.len() != "/health"@.len());
        }
        let path = path.to_owned();
        let root = "/".to_owned();
        let health = "/health".to_owned();
        if path == root {
            MiddlewareAction::Proceed
        } else if path == health {
            MiddlewareAction::Respond {
                status: HEALTH_STATUS,
                body: "health_check_notimplemented".to_owned(),
            }
        } else {
            MiddlewareAction::ProceedAndLog
        }
    }
}

} // verus!
