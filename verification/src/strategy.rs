//! Sequences of waits between reconnection attempts, and the standard one.

use crate::duration::{duration_nanos, secs_as_nanos, wait_nanos};
use std::time::Duration;
use vstd::prelude::*;

verus! {

/// A lazy sequence of waits, drawn one at a time and never rewound. It may
/// go on forever.
pub trait RetrySequence {
    /// The wait, in nanoseconds, that comes out after `skipped` further draws;
    /// `None` where the sequence has ended by then.
    spec fn upcoming(&self, skipped: nat) -> Option<nat>;

    /// A sequence that has ended yields nothing afterwards.
    proof fn lemma_ended_for_good(&self, skipped: nat)
        requires
            self.upcoming(skipped) is None,
        ensures
            self.upcoming(skipped + 1) is None,
    ;

    /// Draws the next wait, or `None` once the sequence has ended.
    fn next(&mut self) -> (wait: Option<Duration>)
        ensures
            wait_nanos(wait) == old(self).upcoming(0),
            forall|skipped: nat| final(self).upcoming(skipped) == old(self).upcoming(skipped + 1),
    ;
}

/// A list of waits handed out in order, followed either by the end of the
/// sequence or by one wait repeated forever.
pub struct DurationIterator {
    initial_attempts: Vec<Duration>,
    drawn: usize,
    repeat: Option<Duration>,
}

impl DurationIterator {
    #[verifier::type_invariant]
    spec fn well_formed(&self) -> bool {
        self.drawn <= self.initial_attempts.len()
    }

    /// The sequence that hands out `initial_attempts` in order and then ends.
    pub fn ending(initial_attempts: Vec<Duration>) -> (retries: Self)
        ensures
            forall|skipped: nat|
                retries.upcoming(skipped) == (if skipped < initial_attempts.len() {
                    Some(duration_nanos(initial_attempts[skipped as int]))
                } else {
                    None
                }),
    {
        DurationIterator { initial_attempts, drawn: 0, repeat: None }
    }

    /// The sequence that hands out `initial_attempts` in order and then
    /// `repeat` forever.
    pub fn repeating(initial_attempts: Vec<Duration>, repeat: Duration) -> (retries: Self)
        ensures
            forall|skipped: nat|
                retries.upcoming(skipped) == Some(
                    if skipped < initial_attempts.len() {
                        duration_nanos(initial_attempts[skipped as int])
                    } else {
                        duration_nanos(repeat)
                    },
                ),
    {
        DurationIterator { initial_attempts, drawn: 0, repeat: Some(repeat) }
    }
}

impl RetrySequence for DurationIterator {
    closed spec fn upcoming(&self, skipped: nat) -> Option<nat> {
        if self.drawn + skipped < self.initial_attempts.len() {
            Some(duration_nanos(self.initial_attempts[self.drawn + skipped]))
        } else {
            wait_nanos(self.repeat)
        }
    }

    proof fn lemma_ended_for_good(&self, skipped: nat) {
    }

    fn next(&mut self) -> (wait: Option<Duration>) {
        proof {
            use_type_invariant(&*self);
        }
        if self.drawn < self.initial_attempts.len() {
            let wait = self.initial_attempts[self.drawn];
            self.drawn = self.drawn + 1;
            Some(wait)
        } else {
            self.repeat
        }
    }
}

/// The waits of the standard strategy before it settles, in whole seconds.
pub open spec fn standard_initial_secs() -> Seq<nat> {
    seq![5, 10, 20, 30, 40, 50, 60, 120, 300, 600, 1200]
}

/// The wait that the standard strategy settles on, in whole seconds: half an
/// hour.
pub open spec fn standard_steady_secs() -> nat {
    1800
}

/// The wait of the standard strategy before the attempt numbered `attempt`
/// (from 0), in whole seconds.
pub open spec fn standard_wait_secs(attempt: nat) -> nat {
    if attempt < standard_initial_secs().len() {
        standard_initial_secs()[attempt as int]
    } else {
        standard_steady_secs()
    }
}

/// Whether `retries` stands at the start of the standard strategy.
pub open spec fn is_standard_strategy<S: RetrySequence>(retries: &S) -> bool {
    forall|attempt: nat| #[trigger]
        retries.upcoming(attempt) == Some(secs_as_nanos(standard_wait_secs(attempt)))
}

/// Starts the standard strategy: waits that grow from five seconds to twenty
/// minutes over eleven attempts, and half an hour before every attempt after
/// those. It never ends.
pub fn get_standard_reconnect_strategy() -> (retries: DurationIterator)
    ensures
        is_standard_strategy(&retries),
{
    let initial_attempts: Vec<Duration> = vec![
        Duration::from_secs(5),
        Duration::from_secs(10),
        Duration::from_secs(20),
        Duration::from_secs(30),
        Duration::from_secs(40),
        Duration::from_secs(50),
        Duration::from_secs(60),
        Duration::from_secs(60 * 2),
        Duration::from_secs(60 * 5),
        Duration::from_secs(60 * 10),
        Duration::from_secs(60 * 20),
    ];

    let repeat = Duration::from_secs(60 * 30);

    DurationIterator::repeating(initial_attempts, repeat)
}

/// What can be turned into a sequence of waits: a sequence itself, or a plain
/// list of waits.
pub trait IntoRetrySequence {
    type Sequence: RetrySequence;

    /// The wait, in nanoseconds, that the sequence made of this value yields
    /// after `skipped` draws; `None` where it has ended by then.
    spec fn waits(&self, skipped: nat) -> Option<nat>;

    /// Makes the sequence, standing at its start.
    fn into_sequence(self) -> (retries: Self::Sequence)
        ensures
            forall|skipped: nat| retries.upcoming(skipped) == self.waits(skipped),
    ;
}

/// A sequence turns into itself, at the place where it stands.
impl<S: RetrySequence> IntoRetrySequence for S {
    type Sequence = S;

    open spec fn waits(&self, skipped: nat) -> Option<nat> {
        self.upcoming(skipped)
    }

    fn into_sequence(self) -> (retries: S) {
        self
    }
}

/// A list of waits turns into the sequence that hands them out in order and
/// then ends.
impl IntoRetrySequence for Vec<Duration> {
    type Sequence = DurationIterator;

    open spec fn waits(&self, skipped: nat) -> Option<nat> {
        if skipped < self.len() {
            Some(duration_nanos(self[skipped as int]))
        } else {
            None
        }
    }

    fn into_sequence(self) -> (retries: DurationIterator) {
        DurationIterator::ending(self)
    }
}

/// What starts a fresh sequence of waits each time it is asked: one sequence
/// for one run of reconnection attempts.
pub trait RetriesGenerator: Send + Sync {
    type Sequence: RetrySequence;

    /// Whether the generator may be asked.
    spec fn ready(&self) -> bool;

    /// Whether `retries` is a sequence that the generator may start.
    spec fn generates(&self, retries: &Self::Sequence) -> bool;

    /// Starts a sequence. It shares nothing with those started before.
    fn generate(&self) -> (retries: Self::Sequence)
        requires
            self.ready(),
        ensures
            self.generates(&retries),
    ;
}

/// The generator of the standard strategy.
pub struct StandardStrategy;

impl RetriesGenerator for StandardStrategy {
    type Sequence = DurationIterator;

    open spec fn ready(&self) -> bool {
        true
    }

    open spec fn generates(&self, retries: &DurationIterator) -> bool {
        is_standard_strategy(retries)
    }

    fn generate(&self) -> (retries: DurationIterator) {
        get_standard_reconnect_strategy()
    }
}

/// Any function without arguments that threads may share, and that returns a
/// sequence of waits or a list of them, is a generator: each sequence it
/// generates is made of what one call of the function returned. Who holds the
/// function itself may as well call it and turn the result into a sequence
/// directly.
impl<F, IN> RetriesGenerator for F where F: Fn() -> IN + Send + Sync, IN: IntoRetrySequence {
    type Sequence = IN::Sequence;

    open spec fn ready(&self) -> bool {
        call_requires(*self, ())
    }

    open spec fn generates(&self, retries: &IN::Sequence) -> bool {
        exists|made: IN|
            call_ensures(*self, (), made) && forall|skipped: nat|
                retries.upcoming(skipped) == made.waits(skipped)
    }

    fn generate(&self) -> (retries: IN::Sequence) {
        self().into_sequence()
    }
}

/// Draws up to `count` waits from `retries` and returns them in order. Fewer
/// come back only where the sequence ends first.
pub fn take<S: RetrySequence>(retries: &mut S, count: usize) -> (waits: Vec<Duration>)
    ensures
        waits.len() <= count,
        forall|i: nat|
            #![trigger waits[i as int]]
            #![trigger old(retries).upcoming(i)]
            i < waits.len() ==> old(retries).upcoming(i) == Some(duration_nanos(waits[i as int])),
        waits.len() < count ==> old(retries).upcoming(waits.len() as nat) is None,
        forall|skipped: nat|
            final(retries).upcoming(skipped) == old(retries).upcoming(
                (waits.len() + skipped) as nat,
            ),
{
    let mut waits: Vec<Duration> = Vec::new();
    let mut ended = false;
    while waits.len() < count && !ended
        invariant
            waits.len() <= count,
            forall|i: nat|
                #![trigger waits[i as int]]
                #![trigger old(retries).upcoming(i)]
                i < waits.len() ==> old(retries).upcoming(i) == Some(
                    duration_nanos(waits[i as int]),
                ),
            ended ==> waits.len() < count && old(retries).upcoming(waits.len() as nat) is None,
            forall|skipped: nat|
                retries.upcoming(skipped) == old(retries).upcoming(
                    (waits.len() + skipped) as nat,
                ),
        decreases count - waits.len() + (if ended { 0int } else { 1int }),
    {
        let ghost before = *retries;
        match retries.next() {
            Some(wait) => {
                waits.push(wait);
            },
            None => {
                ended = true;
                proof {
                    assert forall|skipped: nat|
                        retries.upcoming(skipped) == old(retries).upcoming(
                            (waits.len() + skipped) as nat,
                        ) by {
                        lemma_ended_from(&before, 0, skipped + 1);
                        lemma_ended_from(&before, 0, skipped);
                    }
                }
            },
        }
    }
    waits
}

/// Once a sequence has ended after `skipped` draws, it has ended after any
/// number of draws beyond those.
pub proof fn lemma_ended_from<S: RetrySequence>(retries: &S, skipped: nat, further: nat)
    requires
        retries.upcoming(skipped) is None,
    ensures
        retries.upcoming(skipped + further) is None,
    decreases further,
{
    if further > 0 {
        lemma_ended_from(retries, skipped, (further - 1) as nat);
        retries.lemma_ended_for_good((skipped + further - 1) as nat);
    }
}

/// A sequence at the start of the standard strategy never ends: its first
/// eleven waits are 5, 10, 20, 30, 40, 50 and 60 seconds, then 2, 5, 10 and 20
/// minutes, and every wait after those is half an hour.
pub proof fn lemma_standard_strategy_waits<S: RetrySequence>(retries: &S, attempt: nat)
    requires
        is_standard_strategy(retries),
    ensures
        attempt < 11 ==> retries.upcoming(attempt) == Some(
            secs_as_nanos(seq![5nat, 10, 20, 30, 40, 50, 60, 120, 300, 600, 1200][attempt as int]),
        ),
        attempt >= 11 ==> retries.upcoming(attempt) == Some(secs_as_nanos(1800)),
{
}

/// Two sequences that the standard strategy generates hold the same waits,
/// and drawing from one does not move the other: after `first_draws` draws
/// from the first and `second_draws` from the second, each goes on from its
/// own place in the strategy.
pub proof fn lemma_standard_sequences_independent(
    first_start: &DurationIterator,
    first: &DurationIterator,
    first_draws: nat,
    second_start: &DurationIterator,
    second: &DurationIterator,
    second_draws: nat,
)
    requires
        StandardStrategy.generates(first_start),
        StandardStrategy.generates(second_start),
        forall|skipped: nat| first.upcoming(skipped) == first_start.upcoming(first_draws + skipped),
        forall|skipped: nat|
            second.upcoming(skipped) == second_start.upcoming(second_draws + skipped),
    ensures
        forall|attempt: nat| first_start.upcoming(attempt) == second_start.upcoming(attempt),
        forall|skipped: nat|
            first.upcoming(skipped) == Some(
                secs_as_nanos(standard_wait_secs(first_draws + skipped)),
            ),
        forall|skipped: nat|
            second.upcoming(skipped) == Some(
                secs_as_nanos(standard_wait_secs(second_draws + skipped)),
            ),
{
}

} // verus!
