//! Reading from a channel, message after message.
use crate::connections::PeerInfo;
use crate::context::{message_of, Incoming, Message};
use crate::effect::Effect;
use crate::network_state::{handled_effects, NetworkState};
use vstd::prelude::*;

verus! {

/// An attempt to read a message: what has come in, whether the session has handled it without an
/// error if it was a message, and the state in which that was met. Other things may have happened
/// since the attempt before.
pub struct Attempt<E, F> {
    pub state: NetworkState,
    pub incoming: Incoming<E, F>,
    pub accepted: bool,
}

impl<E, F> Attempt<E, F> {
    /// Whether a message has been read and handled.
    pub open spec fn is_handled(self) -> bool {
        self.incoming is Message && self.accepted
    }

    /// The messages that the session has been given: the one that has come in, or none.
    pub open spec fn given(self) -> Seq<Message> {
        match message_of(self.incoming) {
            Some(message) => seq![message],
            None => Seq::empty(),
        }
    }

    /// State after the attempt.
    pub open spec fn after(self, channel: PeerInfo) -> NetworkState {
        if self.is_handled() {
            self.state
        } else {
            self.state.closed(channel.id)
        }
    }

    /// What is to be done after the attempt.
    pub open spec fn effects(self, channel: PeerInfo) -> Seq<Effect> {
        if self.is_handled() {
            handled_effects(channel)
        } else {
            self.state.closed_with_error_effects(channel.id)
        }
    }

    /// Whether another attempt is to be made.
    pub open spec fn goes_on(self, channel: PeerInfo) -> bool {
        self.effects(channel).contains(Effect::ReadMessage { peer: channel.id })
    }
}

/// How many attempts are made to read from a channel, if these are the outcomes that one attempt
/// after another would have.
pub open spec fn attempts_made<E, F>(channel: PeerInfo, attempts: Seq<Attempt<E, F>>) -> nat
    decreases attempts.len(),
{
    if attempts.len() == 0 {
        0
    } else if attempts[0].goes_on(channel) {
        1 + attempts_made(channel, attempts.drop_first())
    } else {
        1
    }
}

/// What attempts to read from a channel have done, in turn.
pub open spec fn effects_of_attempts<E, F>(
    channel: PeerInfo,
    attempts: Seq<Attempt<E, F>>,
) -> Seq<Effect>
    decreases attempts.len(),
{
    if attempts.len() == 0 {
        Seq::empty()
    } else {
        attempts[0].effects(channel) + effects_of_attempts(channel, attempts.drop_first())
    }
}

/// The messages that the session of a channel has been given in some attempts, in turn.
pub open spec fn given_in_attempts<E, F>(attempts: Seq<Attempt<E, F>>) -> Seq<Message>
    decreases attempts.len(),
{
    if attempts.len() == 0 {
        Seq::empty()
    } else {
        attempts[0].given() + given_in_attempts(attempts.drop_first())
    }
}

/// The messages that came in at each of the first `many` attempts.
pub open spec fn messages_read<E, F>(attempts: Seq<Attempt<E, F>>, many: nat) -> Seq<Message> {
    Seq::new(many, |i: int| message_of(attempts[i].incoming)->0)
}

/// Noting a node as used and reading on, so many times.
pub open spec fn handled_times(channel: PeerInfo, many: nat) -> Seq<Effect>
    decreases many,
{
    if many == 0 {
        Seq::empty()
    } else {
        handled_effects(channel) + handled_times(channel, (many - 1) as nat)
    }
}

/// Another attempt is made just after a message that has been handled.
proof fn lemma_goes_on<E, F>(attempt: Attempt<E, F>, channel: PeerInfo)
    ensures
        attempt.goes_on(channel) <==> attempt.is_handled(),
{
    let next = Effect::ReadMessage { peer: channel.id };
    if attempt.is_handled() {
        assert(attempt.effects(channel)[1] == next);
    } else {
        let effects = attempt.state.closed_with_error_effects(channel.id);
        assert forall|i: int| 0 <= i < effects.len() implies effects[i] != next by {}
    }
}

/// Reading from a channel goes on from message to message up to the first failure, which is the
/// last attempt. The session is given the messages in the order in which they came in, each once,
/// the one at which it fails included if it fails at a message; for each one that is handled the
/// node is noted as used once and the next is read; the failure closes the channel with an error,
/// and nothing is done after it.
pub proof fn law_reading_ends_with_the_first_failure<E, F>(
    channel: PeerInfo,
    attempts: Seq<Attempt<E, F>>,
    handled: nat,
)
    requires
        handled < attempts.len(),
        forall|i: int| 0 <= i < handled ==> (#[trigger] attempts[i]).is_handled(),
        !attempts[handled as int].is_handled(),
    ensures
        ({
            let failure = attempts[handled as int];
            let made = attempts.take(attempts_made(channel, attempts) as int);
            &&& attempts_made(channel, attempts) == handled + 1
            &&& given_in_attempts(made) == messages_read(
                attempts,
                handled + if failure.incoming is Message {
                    1nat
                } else {
                    0nat
                },
            )
            &&& effects_of_attempts(channel, made) == handled_times(channel, handled)
                + failure.state.closed_with_error_effects(channel.id)
            &&& failure.after(channel) == failure.state.closed(channel.id)
        }),
    decreases attempts.len(),
{
    let rest = attempts.drop_first();
    let failure = attempts[handled as int];
    let many = handled + if failure.incoming is Message {
        1nat
    } else {
        0nat
    };
    let made = attempts.take(handled as int + 1);
    lemma_goes_on(attempts[0], channel);
    if handled == 0 {
        assert(made.drop_first() =~= Seq::<Attempt<E, F>>::empty());
        assert(given_in_attempts(made.drop_first()) =~= Seq::<Message>::empty());
        assert(given_in_attempts(made) =~= messages_read(attempts, many));
        assert(effects_of_attempts(channel, made.drop_first()) =~= Seq::<Effect>::empty());
        assert(effects_of_attempts(channel, made) =~= handled_times(channel, 0)
            + failure.state.closed_with_error_effects(channel.id));
    } else {
        assert forall|i: int| 0 <= i < handled - 1 implies (#[trigger] rest[i]).is_handled() by {
            assert(rest[i] == attempts[i + 1]);
        }
        assert(attempts[0].is_handled());
        law_reading_ends_with_the_first_failure(channel, rest, (handled - 1) as nat);
        assert(made.drop_first() =~= rest.take(handled as int));
        assert(given_in_attempts(made) =~= messages_read(attempts, many));
        assert(effects_of_attempts(channel, made) =~= handled_times(channel, handled)
            + failure.state.closed_with_error_effects(channel.id));
    }
}

/// As long as every message is handled, reading goes on: the session is given the messages in the
/// order in which they came in, each once, and for each the node is noted as used once and the
/// next is read.
pub proof fn law_reading_goes_on_without_failure<E, F>(
    channel: PeerInfo,
    attempts: Seq<Attempt<E, F>>,
)
    requires
        forall|i: int| 0 <= i < attempts.len() ==> (#[trigger] attempts[i]).is_handled(),
    ensures
        attempts_made(channel, attempts) == attempts.len(),
        given_in_attempts(attempts) == messages_read(attempts, attempts.len()),
        effects_of_attempts(channel, attempts) == handled_times(channel, attempts.len()),
    decreases attempts.len(),
{
    if attempts.len() > 0 {
        let rest = attempts.drop_first();
        lemma_goes_on(attempts[0], channel);
        assert forall|i: int| 0 <= i < rest.len() implies (#[trigger] rest[i]).is_handled() by {
            assert(rest[i] == attempts[i + 1]);
        }
        assert(attempts[0].is_handled());
        law_reading_goes_on_without_failure(channel, rest);
        assert(given_in_attempts(attempts) =~= messages_read(attempts, attempts.len()));
    } else {
        assert(given_in_attempts(attempts) =~= messages_read(attempts, 0));
    }
}

} // verus!
