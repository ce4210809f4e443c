//! The three entry points through which a host drives the game.
//!
//! A `Pebbles` value holds the one game of a host. It starts out empty,
//! is filled by `init`, and from then on is changed by `handle` and read
//! by `state`. The host delivers one message at a time and hands over the
//! random draws that the message may need.

use vstd::prelude::*;
use crate::error::GameError;
use crate::game::spec_init;
use crate::messages::{GameState, PebblesAction, PebblesEvent, PebblesInit, Player};
use crate::random::RandomSource;

verus! {

/// The largest number of draws that one message can take: one to decide
/// who opens a new game, and one for a random move of the program.
pub const MAX_DRAWS_PER_MESSAGE: usize = 2;

/// What the host sends back after `init` or `handle`.
#[derive(Clone, Copy, Debug, PartialEq, Eq, Structural)]
pub enum Reply {
    /// A game was created, by `init` or by a restart.
    Initiated,
    /// The outcome of a turn or of a concession.
    Event(PebblesEvent),
    /// The message was refused and the game is as it was.
    Rejected(GameError),
}

impl Reply {
    /// The text that `text` returns, for the replies that are sent as
    /// text.
    pub open spec fn spec_text(self) -> Option<Seq<char>> {
        match self {
            Reply::Initiated => Some("Game initiated!"@),
            Reply::Event(_) => None,
            Reply::Rejected(fault) => Some(fault.spec_message()),
        }
    }

    /// The sentence to send for an acknowledgement or a refusal. An event
    /// is sent as a value and has no text.
    pub fn text(&self) -> (text: Option<&'static str>)
        ensures
            text is Some <==> self.spec_text() is Some,
            text matches Some(t) ==> self.spec_text() == Some(t@),
    {
        match self {
            Reply::Initiated => Some("Game initiated!"),
            Reply::Event(_) => None,
            Reply::Rejected(fault) => Some(fault.message()),
        }
    }
}

/// A message that a host delivers to the game.
#[derive(Clone, Copy, Debug, PartialEq, Eq, Structural)]
pub enum Inbound {
    /// The message that creates the game.
    Init(PebblesInit),
    /// A message to the running game.
    Handle(PebblesAction),
}

/// Where a host stands after a trace of messages.
pub struct Run {
    /// The game, if one has been created.
    pub state: Option<GameState>,
    /// The reply to each message, in order.
    pub replies: Seq<Reply>,
    /// The draws that have not been taken.
    pub draws: Seq<u32>,
}

/// The reply that reports the result of a turn.
pub open spec fn turn_reply(result: Result<PebblesEvent, GameError>) -> Reply {
    match result {
        Ok(event) => Reply::Event(event),
        Err(fault) => Reply::Rejected(fault),
    }
}

/// The reply that reports the result of creating a game.
pub open spec fn init_reply(result: Result<(), GameError>) -> Reply {
    match result {
        Ok(_) => Reply::Initiated,
        Err(fault) => Reply::Rejected(fault),
    }
}

/// The parameters carried by a restart.
pub open spec fn restart_config(action: PebblesAction) -> PebblesInit
    recommends
        action is Restart,
{
    PebblesInit {
        difficulty: action->difficulty,
        pebbles_count: action->pebbles_count,
        max_pebbles_per_turn: action->max_pebbles_per_turn,
    }
}

/// `init` on a host whose game is `state`: the game afterwards, the reply
/// and the draws left over. A game is created once; where one exists
/// already, the message is refused.
pub open spec fn spec_on_init(
    state: Option<GameState>,
    cfg: PebblesInit,
    draws: Seq<u32>,
) -> (Option<GameState>, Reply, Seq<u32>) {
    if state is Some {
        (state, Reply::Rejected(GameError::AlreadyInitialized), draws)
    } else {
        match spec_init(cfg, draws) {
            (Ok(game), rest) => (Some(game), Reply::Initiated, rest),
            (Err(fault), rest) => (None, Reply::Rejected(fault), rest),
        }
    }
}

/// `handle` on a host whose game is `state`: the game afterwards, the
/// reply and the draws left over. Where no game exists, the message is
/// refused.
pub open spec fn spec_on_handle(
    state: Option<GameState>,
    action: PebblesAction,
    draws: Seq<u32>,
) -> (Option<GameState>, Reply, Seq<u32>) {
    match state {
        None => (None, Reply::Rejected(GameError::NotInitialized), draws),
        Some(game) => match action {
            PebblesAction::Turn(n) => {
                let (next, result, rest) = game.spec_turn(n, draws);
                (Some(next), turn_reply(result), rest)
            },
            PebblesAction::GiveUp => (
                Some(game.spec_reset()),
                Reply::Event(PebblesEvent::Won(Player::Program)),
                draws,
            ),
            PebblesAction::Restart { .. } => {
                let (next, result, rest) = game.spec_restart(restart_config(action), draws);
                (Some(next), init_reply(result), rest)
            },
        },
    }
}

/// Delivering one message: the game afterwards, the reply and the draws
/// left over.
pub open spec fn spec_deliver(
    state: Option<GameState>,
    message: Inbound,
    draws: Seq<u32>,
) -> (Option<GameState>, Reply, Seq<u32>) {
    match message {
        Inbound::Init(cfg) => spec_on_init(state, cfg, draws),
        Inbound::Handle(action) => spec_on_handle(state, action, draws),
    }
}

/// Delivering a trace of messages, one after the other, each drawing
/// from what the ones before it left.
pub open spec fn spec_run(state: Option<GameState>, messages: Seq<Inbound>, draws: Seq<u32>) -> Run
    decreases messages.len(),
{
    if messages.len() == 0 {
        Run { state, replies: Seq::empty(), draws }
    } else {
        let (next, reply, rest) = spec_deliver(state, messages[0], draws);
        let tail = spec_run(next, messages.skip(1), rest);
        Run { state: tail.state, replies: seq![reply] + tail.replies, draws: tail.draws }
    }
}

/// A trace that is cut in two gives the same run as its two parts
/// delivered one after the other.
pub proof fn lemma_run_splits(
    state: Option<GameState>,
    messages: Seq<Inbound>,
    draws: Seq<u32>,
    cut: int,
)
    requires
        0 <= cut <= messages.len(),
    ensures
        ({
            let head = spec_run(state, messages.take(cut), draws);
            let tail = spec_run(head.state, messages.skip(cut), head.draws);
            spec_run(state, messages, draws) == (Run {
                state: tail.state,
                replies: head.replies + tail.replies,
                draws: tail.draws,
            })
        }),
    decreases cut,
{
    let head = spec_run(state, messages.take(cut), draws);
    let tail = spec_run(head.state, messages.skip(cut), head.draws);
    if cut == 0 {
        assert(messages.skip(0) == messages);
        assert(head.replies + tail.replies == tail.replies);
    } else {
        let (next, reply, rest) = spec_deliver(state, messages[0], draws);
        assert(messages.take(cut)[0] == messages[0]);
        assert(messages.take(cut).skip(1) == messages.skip(1).take(cut - 1));
        assert(messages.skip(1).skip(cut - 1) == messages.skip(cut));
        lemma_run_splits(next, messages.skip(1), rest, cut - 1);
        let inner = spec_run(next, messages.skip(1).take(cut - 1), rest);
        assert(head.replies == seq![reply] + inner.replies);
        assert(seq![reply] + (inner.replies + tail.replies) == (seq![reply] + inner.replies)
            + tail.replies);
    }
}

/// The one game of a host. Its view is the record of the game, or `None`
/// before the game has been created.
#[derive(Debug)]
pub struct Pebbles {
    game: Option<GameState>,
}

impl View for Pebbles {
    type V = Option<GameState>;

    closed spec fn view(&self) -> Option<GameState> {
        self.game
    }
}

impl Pebbles {
    #[verifier::type_invariant]
    spec fn inv(self) -> bool {
        self.game matches Some(game) ==> game.wf()
    }

    /// A host that has no game yet.
    pub fn new() -> (host: Pebbles)
        ensures
            host@ is None,
    {
        Pebbles { game: None }
    }

    /// Creates the game from `cfg`. Faulty parameters, a missing draw and
    /// a second creation are refused and leave the host as it was.
    pub fn init(&mut self, cfg: PebblesInit, rng: &mut RandomSource) -> (reply: Reply)
        ensures
            (final(self)@, reply, final(rng)@) == spec_on_init(old(self)@, cfg, old(rng)@),
            final(self)@ matches Some(game) ==> game.wf(),
            reply is Rejected ==> final(self)@ == old(self)@,
            !cfg.valid() ==> reply is Rejected,
            cfg.pebbles_count <= cfg.max_pebbles_per_turn ==> reply is Rejected,
            old(self)@ is Some ==> reply == Reply::Rejected(GameError::AlreadyInitialized),
    {
        proof {
            use_type_invariant(&*self);
        }
        if self.game.is_some() {
            return Reply::Rejected(GameError::AlreadyInitialized);
        }
        match GameState::init(cfg, rng) {
            Ok(game) => {
                self.game = Some(game);
                Reply::Initiated
            },
            Err(fault) => Reply::Rejected(fault),
        }
    }

    /// Applies the user's action to the game. Before the game has been
    /// created every action is refused.
    pub fn handle(&mut self, action: PebblesAction, rng: &mut RandomSource) -> (reply: Reply)
        ensures
            (final(self)@, reply, final(rng)@) == spec_on_handle(old(self)@, action, old(rng)@),
            final(self)@ matches Some(game) ==> game.wf(),
            reply is Rejected ==> final(self)@ == old(self)@,
            old(self)@ is None ==> reply == Reply::Rejected(GameError::NotInitialized),
    {
        proof {
            use_type_invariant(&*self);
        }
        let mut game: GameState = match self.game {
            Some(game) => game,
            None => {
                return Reply::Rejected(GameError::NotInitialized);
            },
        };
        let reply = match action {
            PebblesAction::Turn(n) => match game.handle_turn(n, rng) {
                Ok(event) => Reply::Event(event),
                Err(fault) => Reply::Rejected(fault),
            },
            PebblesAction::GiveUp => Reply::Event(game.handle_giveup()),
            PebblesAction::Restart { difficulty, pebbles_count, max_pebbles_per_turn } => {
                let cfg = PebblesInit { difficulty, pebbles_count, max_pebbles_per_turn };
                match game.handle_restart(cfg, rng) {
                    Ok(_) => Reply::Initiated,
                    Err(fault) => Reply::Rejected(fault),
                }
            },
        };
        self.game = Some(game);
        reply
    }

    /// Delivers one message to the entry point it is meant for.
    pub fn deliver(&mut self, message: Inbound, rng: &mut RandomSource) -> (reply: Reply)
        ensures
            (final(self)@, reply, final(rng)@) == spec_deliver(old(self)@, message, old(rng)@),
            final(self)@ matches Some(game) ==> game.wf(),
            reply is Rejected ==> final(self)@ == old(self)@,
    {
        match message {
            Inbound::Init(cfg) => self.init(cfg, rng),
            Inbound::Handle(action) => self.handle(action, rng),
        }
    }

    /// Delivers a trace of messages in order and collects the replies.
    pub fn run(&mut self, messages: &Vec<Inbound>, rng: &mut RandomSource) -> (replies: Vec<Reply>)
        ensures
            spec_run(old(self)@, messages@, old(rng)@) == (Run {
                state: final(self)@,
                replies: replies@,
                draws: final(rng)@,
            }),
            final(self)@ matches Some(game) ==> game.wf(),
    {
        let mut replies: Vec<Reply> = Vec::new();
        let mut done: usize = 0;
        proof {
            use_type_invariant(&*self);
            assert(messages@.take(0) == Seq::<Inbound>::empty());
        }
        while done < messages.len()
            invariant
                done <= messages.len(),
                spec_run(old(self)@, messages@.take(done as int), old(rng)@) == (Run {
                    state: self@,
                    replies: replies@,
                    draws: rng@,
                }),
                self@ matches Some(game) ==> game.wf(),
            decreases messages.len() - done,
        {
            let ghost before = (self@, rng@, replies@);
            let reply = self.deliver(messages[done], rng);
            replies.push(reply);
            proof {
                let prefix = messages@.take(done + 1);
                assert(prefix.take(done as int) == messages@.take(done as int));
                assert(prefix.skip(done as int) == seq![messages@[done as int]]);
                lemma_run_splits(old(self)@, prefix, old(rng)@, done as int);
                let last = spec_run(before.0, seq![messages@[done as int]], before.1);
                assert(last == (Run { state: self@, replies: seq![reply], draws: rng@ })) by {
                    reveal_with_fuel(spec_run, 2);
                    assert(seq![reply] + Seq::<Reply>::empty() == seq![reply]);
                }
                assert(before.2 + seq![reply] == replies@);
            }
            done = done + 1;
        }
        proof {
            assert(messages@.take(done as int) == messages@);
        }
        replies
    }

    /// A copy of the record of the game, or a refusal before the game has
    /// been created.
    pub fn state(&self) -> (snapshot: Result<GameState, GameError>)
        ensures
            self@ matches Some(game) ==> snapshot == Ok::<GameState, GameError>(game) && game.wf(),
            self@ is None ==> snapshot == Err::<GameState, GameError>(GameError::NotInitialized),
    {
        proof {
            use_type_invariant(self);
        }
        match self.game {
            Some(game) => Ok(game),
            None => Err(GameError::NotInitialized),
        }
    }
}

} // verus!
