//! What providers' live connections have in common: retry delays, commands
//! that arrive while a connection is down, and the texts of failures.

use vstd::prelude::*;

use crate::error::{Error, ErrorView};
use crate::session::options::ReconnectPolicy;
use crate::table::Pair;
use crate::text::join;

verus! {

/// Calls `fastrand::u64` with the range `0..=bound`: a number drawn from it,
/// so never above `bound`.
#[verifier::external_body]
fn random_up_to(bound: u64) -> (r: u64)
    ensures
        r <= bound,
{
    fastrand::u64(0..=bound)
}

/// The retry ladder of a connection.
#[derive(Clone, Copy, Debug, PartialEq, Eq, Structural)]
pub struct Backoff {
    pub current_ms: u64,
    pub policy: ReconnectPolicy,
}

/// The step after `ms` on the ladder: twice as long, up to the limit.
pub open spec fn next_backoff(ms: int, max: int) -> int {
    if ms * 2 <= max {
        ms * 2
    } else {
        max
    }
}

impl Backoff {
    /// Whether the next step of the ladder can be computed.
    pub open spec fn can_double(self) -> bool {
        self.current_ms * 2 <= u64::MAX
    }

    pub fn new(policy: ReconnectPolicy) -> (r: Backoff)
        ensures
            r == (Backoff { current_ms: policy.initial_backoff_ms, policy }),
    {
        Backoff { current_ms: policy.initial_backoff_ms, policy }
    }

    /// Back to the first step.
    pub fn reset(&mut self)
        ensures
            *final(self) == (Backoff {
                current_ms: old(self).policy.initial_backoff_ms,
                ..*old(self)
            }),
    {
        self.current_ms = self.policy.initial_backoff_ms;
    }

    /// The delay before the next attempt, without jitter, and on to the next
    /// step.
    pub fn fixed_delay(&mut self) -> (delay_ms: u64)
        requires
            old(self).can_double(),
        ensures
            delay_ms == old(self).current_ms,
            final(self).policy == old(self).policy,
            final(self).current_ms == next_backoff(
                old(self).current_ms as int,
                old(self).policy.max_backoff_ms as int,
            ),
    {
        let delay: u64 = self.current_ms;
        let doubled: u64 = self.current_ms * 2;
        self.current_ms =
        if doubled <= self.policy.max_backoff_ms {
            doubled
        } else {
            self.policy.max_backoff_ms
        };
        delay
    }

    /// The delay before the next attempt, and on to the next step. With
    /// jitter it is drawn from everything up to the step, so that connections
    /// which failed together do not retry together.
    pub fn delay(&mut self) -> (delay_ms: u64)
        requires
            old(self).can_double(),
        ensures
            delay_ms <= old(self).current_ms,
            !old(self).policy.jitter ==> delay_ms == old(self).current_ms,
            final(self).policy == old(self).policy,
            final(self).current_ms == next_backoff(
                old(self).current_ms as int,
                old(self).policy.max_backoff_ms as int,
            ),
    {
        let full: u64 = self.fixed_delay();
        if self.policy.jitter {
            random_up_to(full)
        } else {
            full
        }
    }
}

/// The step after `n` failures in a row.
pub open spec fn ladder(initial: int, max: int, n: nat) -> int
    decreases n,
{
    if n == 0 {
        initial
    } else {
        next_backoff(ladder(initial, max, (n - 1) as nat), max)
    }
}

/// Delays never shrink on the way up and never pass the limit, which they
/// reach and keep.
pub proof fn law_backoff_climbs_to_its_limit(initial: int, max: int, n: nat)
    requires
        0 <= initial <= max,
    ensures
        initial <= ladder(initial, max, n) <= max,
        ladder(initial, max, n) <= ladder(initial, max, n + 1),
        ladder(initial, max, n) == max ==> ladder(initial, max, n + 1) == max,
    decreases n,
{
    if n > 0 {
        law_backoff_climbs_to_its_limit(initial, max, (n - 1) as nat);
    }
}

/// A command to a live connection.
#[derive(Debug)]
pub enum LiveCommand {
    Subscribe(Pair),
    Unsubscribe(Pair),
    Close,
    /// The handle is gone.
    HandleDropped,
}

/// What becomes of a command while there is no connection.
#[derive(Debug)]
pub enum WhileDown {
    /// Answer with the error and go on.
    Refuse(Error),
    /// Acknowledge and exit.
    AckAndExit,
    Exit,
}

/// A failure that the provider reports.
pub open spec fn provider_failure(provider: Seq<char>, message: Seq<char>) -> ErrorView {
    ErrorView::Provider { provider, message }
}

/// Decide a command while there is no connection: subscription changes fail
/// at once with `reason` rather than wait.
pub fn while_down(provider: &str, reason: &str, cmd: &LiveCommand) -> (r: WhileDown)
    ensures
        match cmd {
            LiveCommand::Subscribe(_) => r is Refuse && r->Refuse_0@ == provider_failure(
                provider@,
                reason@,
            ),
            LiveCommand::Unsubscribe(_) => r is Refuse && r->Refuse_0@ == provider_failure(
                provider@,
                reason@,
            ),
            LiveCommand::Close => r is AckAndExit,
            LiveCommand::HandleDropped => r is Exit,
        },
{
    match cmd {
        LiveCommand::Close => WhileDown::AckAndExit,
        LiveCommand::HandleDropped => WhileDown::Exit,
        _ => WhileDown::Refuse(
            Error::Provider { provider: provider.to_owned(), message: reason.to_owned() },
        ),
    }
}

/// Decide a command that arrives during the delay before a retry. A refused
/// one cuts the delay short.
pub fn while_retrying(provider: &str, cmd: &LiveCommand) -> (r: WhileDown)
    ensures
        match cmd {
            LiveCommand::Close => r is AckAndExit,
            LiveCommand::HandleDropped => r is Exit,
            _ => r is Refuse && r->Refuse_0@ == provider_failure(
                provider@,
                "provider is reconnecting"@,
            ),
        },
{
    while_down(provider, "provider is reconnecting", cmd)
}

/// The error of a failed provider call: the call's name, then what it said.
pub fn call_failed(provider: &str, call: &str, said: &str) -> (r: Error)
    ensures
        r@ == provider_failure(provider@, call@ + ": "@ + said@),
{
    let head = join(call, ": ");
    Error::Provider { provider: provider.to_owned(), message: join(head.as_str(), said) }
}

/// The texts with an arrow between each two.
pub open spec fn chained(parts: Seq<String>) -> Seq<char>
    decreases parts.len(),
{
    if parts.len() == 0 {
        seq![]
    } else if parts.len() == 1 {
        parts[0]@
    } else {
        chained(parts.drop_last()) + " -> "@ + parts.last()@
    }
}

/// The texts of an error and of its causes as one line, outermost first.
pub fn error_chain(parts: &Vec<String>) -> (r: String)
    ensures
        r@ == chained(parts@),
{
    let mut out = String::new();
    let mut k: usize = 0;
    proof {
        assert(out@ =~= chained(parts@.take(0)));
    }
    while k < parts.len()
        invariant
            0 <= k <= parts@.len(),
            out@ == chained(parts@.take(k as int)),
        decreases parts@.len() - k,
    {
        proof {
            assert(parts@.take(k as int + 1).drop_last() =~= parts@.take(k as int));
            assert(parts@.take(k as int + 1).last() == parts@[k as int]);
        }
        if k == 0 {
            out = parts[k].clone();
        } else {
            out = join(out.as_str(), " -> ");
            out = join(out.as_str(), parts[k].as_str());
        }
        k += 1;
    }
    proof {
        assert(parts@.take(k as int) =~= parts@);
    }
    out
}

/// Each retry waits twice as long as the one before, up to the limit.
pub proof fn law_retries_wait_twice_as_long(initial: int, max: int, n: nat)
    requires
        0 <= initial <= max,
    ensures
        ladder(initial, max, 0) == initial,
        ladder(initial, max, n + 1) == if 2 * ladder(initial, max, n) > max {
            max
        } else {
            2 * ladder(initial, max, n)
        },
{
}

/// A failure names the provider and the message under their own names.
pub proof fn law_failures_name_the_provider(provider: Seq<char>, message: Seq<char>)
    ensures
        provider_failure(provider, message) is Provider,
        provider_failure(provider, message)->Provider_provider == provider,
        provider_failure(provider, message)->Provider_message == message,
{
}

/// A chain of causes names each of them, the outermost first.
pub proof fn law_chains_name_every_cause(parts: Seq<String>, cause: String)
    requires
        parts.len() > 0,
    ensures
        chained(seq![cause]) == cause@,
        chained(parts.push(cause)) == chained(parts) + " -> "@ + cause@,
{
    assert(parts.push(cause).drop_last() =~= parts);
}

} // verus!
