//! The peer-client interface: one connected remote instance of this service.

use vstd::prelude::*;

verus! {

/// Errors a peer call surfaces to the orchestrator. `E` is the transport's
/// own error type, folded into `InternalClientError`.
#[derive(Debug)]
pub enum ClientError<E> {
    BadRequest(String),
    ServiceUnavailable,
    InternalClientError(E),
    InternalServerError,
}

/// One remote chain-capable peer. What a peer answers is its own affair, so
/// the methods promise nothing about the values that come back; the
/// orchestrator states what it does with every possible answer.
pub trait Client: Sized {
    type E;

    /// A stable identifier of the peer, for logging and selection.
    fn get_url(&self) -> String;

    /// A cheap liveness probe of the peer.
    fn health(&mut self) -> Result<(), ClientError<Self::E>>;

    /// Ask the peer to extend `word_chain` by `count + 1` further hops
    /// (`count` is passed pre-decremented by the caller).
    fn chain(&mut self, word_chain: Vec<String>, count: u32) -> Result<
        Vec<String>,
        ClientError<Self::E>,
    >;
}

/// How often a failed connection attempt is retried before giving up.
pub const MAX_RETRIES: u8 = 10;

/// Seconds to wait between two connection attempts.
pub const RETRY_DELAY_SECS: u64 = 5;

/// The connection ceiling: the first attempt plus one per retry.
pub open spec fn max_connect_attempts() -> nat {
    MAX_RETRIES as nat + 1
}

/// What the retry policy tells the connecting loop to do after an attempt.
#[derive(Debug, PartialEq, Eq)]
pub enum RetryStep {
    /// The attempt succeeded; keep the connection.
    Connected,
    /// The attempt failed, but attempts remain: wait the fixed delay, retry.
    RetryAfterDelay,
    /// The attempt failed and the ceiling is reached: fail with a
    /// connection error carrying the target address.
    GiveUp,
}

/// The bounded retry policy for establishing a peer connection: a fixed
/// number of evenly spaced attempts, no backoff, no jitter. The loop that
/// opens the transport connection drives this machine with the outcome of
/// each attempt and obeys the step it returns.
pub struct ConnectRetry {
    attempts_made: u8,
}

impl ConnectRetry {
    /// How many attempts have been made so far.
    pub closed spec fn attempts(&self) -> nat {
        self.attempts_made as nat
    }

    /// Whether the policy still allows an attempt.
    pub open spec fn can_attempt(&self) -> bool {
        self.attempts() < max_connect_attempts()
    }

    pub fn new() -> (s: ConnectRetry)
        ensures
            s.attempts() == 0,
    {
        ConnectRetry { attempts_made: 0 }
    }

    /// Record the outcome of one attempt and decide what follows: success
    /// connects; failure retries while attempts remain and gives up on the
    /// ceiling.
    pub fn record_attempt(&mut self, success: bool) -> (step: RetryStep)
        requires
            old(self).can_attempt(),
        ensures
            final(self).attempts() == old(self).attempts() + 1,
            success ==> step == RetryStep::Connected,
            !success ==> (step == RetryStep::RetryAfterDelay
                <==> final(self).attempts() < max_connect_attempts()),
            !success ==> (step == RetryStep::GiveUp
                <==> final(self).attempts() == max_connect_attempts()),
    {
        self.attempts_made = self.attempts_made + 1;
        if success {
            RetryStep::Connected
        } else if self.attempts_made < MAX_RETRIES + 1 {
            RetryStep::RetryAfterDelay
        } else {
            RetryStep::GiveUp
        }
    }
}

/// The result of driving the retry policy against a sequence of attempt
/// outcomes (`outcomes[i]` tells whether attempt `i` would succeed), with
/// `allowed` attempts permitted: `Some(n)` means the connection stands after
/// `n` attempts; `None` means every permitted attempt failed, `allowed`
/// attempts were made, and the connection is given up.
pub open spec fn connect_result(outcomes: Seq<bool>, allowed: nat) -> Option<nat>
    decreases allowed,
{
    if allowed == 0 || outcomes.len() == 0 {
        None
    } else if outcomes[0] {
        Some(1)
    } else {
        match connect_result(outcomes.drop_first(), (allowed - 1) as nat) {
            Some(n) => Some((n + 1) as nat),
            None => None,
        }
    }
}

/// A target that fails its first `k` attempts and then accepts, with `k`
/// below the ceiling, is connected on attempt `k + 1`: within the ceiling,
/// and without the policy giving up early.
pub proof fn lemma_retry_eventual_success(outcomes: Seq<bool>, k: int)
    requires
        0 <= k < max_connect_attempts(),
        k < outcomes.len(),
        forall|i: int| 0 <= i < k ==> !outcomes[i],
        outcomes[k],
    ensures
        connect_result(outcomes, max_connect_attempts()) == Some((k + 1) as nat),
        k + 1 <= max_connect_attempts(),
{
    lemma_retry_success_general(outcomes, k, max_connect_attempts());
}

/// A target that never accepts a connection exhausts the policy: every
/// permitted attempt is made and the connection is given up.
pub proof fn lemma_retry_exhaustion(outcomes: Seq<bool>)
    requires
        forall|i: int| 0 <= i < outcomes.len() ==> !outcomes[i],
    ensures
        connect_result(outcomes, max_connect_attempts()) is None,
{
    lemma_retry_exhaustion_general(outcomes, max_connect_attempts());
}

proof fn lemma_retry_success_general(outcomes: Seq<bool>, k: int, allowed: nat)
    requires
        0 <= k < allowed,
        k < outcomes.len(),
        forall|i: int| 0 <= i < k ==> !outcomes[i],
        outcomes[k],
    ensures
        connect_result(outcomes, allowed) == Some((k + 1) as nat),
    decreases allowed,
{
    if k > 0 {
        assert(!outcomes[0]);
        let rest = outcomes.drop_first();
        assert(forall|i: int| 0 <= i < k - 1 ==> rest[i] == outcomes[i + 1] && !rest[i]);
        assert(rest[k - 1] == outcomes[k]);
        lemma_retry_success_general(rest, k - 1, (allowed - 1) as nat);
    }
}

proof fn lemma_retry_exhaustion_general(outcomes: Seq<bool>, allowed: nat)
    requires
        forall|i: int| 0 <= i < outcomes.len() ==> !outcomes[i],
    ensures
        connect_result(outcomes, allowed) is None,
    decreases allowed,
{
    if allowed > 0 && outcomes.len() > 0 {
        assert(!outcomes[0]);
        let rest = outcomes.drop_first();
        assert(forall|i: int| 0 <= i < rest.len() ==> rest[i] == outcomes[i + 1] && !rest[i]);
        lemma_retry_exhaustion_general(rest, (allowed - 1) as nat);
    }
}

} // verus!
