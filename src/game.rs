use vstd::prelude::*;

use crate::channel::{ChannelError, CommandChannel, EventChannel, enqueue};
use crate::messages::{Command, Event, GameSnapshot, initial_snapshot};

verus! {

/// A session just established: connected, nobody in the lobby yet.
pub open spec fn fresh_session() -> GameSnapshot {
    GameSnapshot { connected: true, friend_in_lobby: false, friend_ready: false }
}

/// Lobby and readiness only have meaning inside a session.
pub open spec fn consistent(s: GameSnapshot) -> bool {
    !s.connected ==> !s.friend_in_lobby && !s.friend_ready
}

/// The state after the game layer applies one command. Friend updates outside
/// a session are no-ops; a forced disconnect ends the session and forgets the
/// lobby.
pub open spec fn apply_command(s: GameSnapshot, c: Command) -> GameSnapshot {
    match c {
        Command::SetFriendInLobby(b) => if s.connected {
            GameSnapshot { connected: s.connected, friend_in_lobby: b, friend_ready: s.friend_ready }
        } else {
            s
        },
        Command::SetFriendReady(b) => if s.connected {
            GameSnapshot { connected: s.connected, friend_in_lobby: s.friend_in_lobby, friend_ready: b }
        } else {
            s
        },
        Command::ForceDisconnect => initial_snapshot(),
    }
}

/// The state after applying `cs` in order.
pub open spec fn apply_commands(s: GameSnapshot, cs: Seq<Command>) -> GameSnapshot
    decreases cs.len(),
{
    if cs.len() == 0 {
        s
    } else {
        apply_command(apply_commands(s, cs.drop_last()), cs.last())
    }
}

/// The state after the network is switched on or off.
pub open spec fn toggle(s: GameSnapshot) -> GameSnapshot {
    if s.connected {
        initial_snapshot()
    } else {
        fresh_session()
    }
}

/// Applying a command twice in a row has the same effect as applying it once.
pub proof fn lemma_command_idempotent(s: GameSnapshot, c: Command)
    ensures
        apply_command(apply_command(s, c), c) == apply_command(s, c),
{
}

/// Draining in two ticks applies the same as draining both batches at once.
pub proof fn lemma_ticks_compose(s: GameSnapshot, first: Seq<Command>, second: Seq<Command>)
    ensures
        apply_commands(apply_commands(s, first), second) == apply_commands(s, first + second),
    decreases second.len(),
{
    if second.len() == 0 {
        assert(first + second == first);
    } else {
        lemma_ticks_compose(s, first, second.drop_last());
        assert((first + second).drop_last() == first + second.drop_last());
    }
}

/// No command reconnects: from the default snapshot every command sequence
/// leaves it unchanged.
pub proof fn lemma_commands_keep_disconnected(cs: Seq<Command>)
    ensures
        apply_commands(initial_snapshot(), cs) == initial_snapshot(),
    decreases cs.len(),
{
    if cs.len() > 0 {
        lemma_commands_keep_disconnected(cs.drop_last());
    }
}

/// Once a forced disconnect is applied, whatever commands follow, in the same
/// tick or in later ones, leave the game disconnected with the lobby empty and
/// the friend not ready, until the network is switched on again.
pub proof fn lemma_disconnect_is_sticky(
    s: GameSnapshot,
    before: Seq<Command>,
    after: Seq<Command>,
)
    ensures
        apply_commands(apply_commands(s, before.push(Command::ForceDisconnect)), after)
            == initial_snapshot(),
        !apply_commands(apply_commands(s, before.push(Command::ForceDisconnect)), after).connected,
        !apply_commands(apply_commands(s, before.push(Command::ForceDisconnect)), after).friend_ready,
{
    assert(before.push(Command::ForceDisconnect).drop_last() == before);
    lemma_commands_keep_disconnected(after);
}

/// The game layer's authoritative state. Only the game layer mutates it; the
/// story layer sees copies through `current`.
pub struct GameState {
    snapshot: GameSnapshot,
}

impl View for GameState {
    type V = GameSnapshot;

    closed spec fn view(&self) -> GameSnapshot {
        self.snapshot
    }
}

impl GameState {
    /// No game in progress: the default snapshot.
    pub fn new() -> (r: Self)
        ensures
            r@ == initial_snapshot(),
            consistent(r@),
    {
        GameState { snapshot: GameSnapshot::default() }
    }

    /// A copy of present truth. Never fails.
    pub fn current(&self) -> (r: GameSnapshot)
        ensures
            r == self@,
    {
        GameSnapshot {
            connected: self.snapshot.connected,
            friend_in_lobby: self.snapshot.friend_in_lobby,
            friend_ready: self.snapshot.friend_ready,
        }
    }

    /// Applies one command requested by the story layer.
    pub fn apply(&mut self, command: Command)
        ensures
            final(self)@ == apply_command(old(self)@, command),
            consistent(old(self)@) ==> consistent(final(self)@),
    {
        match command {
            Command::SetFriendInLobby(b) => {
                if self.snapshot.connected {
                    self.snapshot.friend_in_lobby = b;
                }
            },
            Command::SetFriendReady(b) => {
                if self.snapshot.connected {
                    self.snapshot.friend_ready = b;
                }
            },
            Command::ForceDisconnect => {
                self.snapshot = GameSnapshot::default();
            },
        }
    }

    /// Applies the commands in the order given.
    pub fn apply_all(&mut self, commands: &Vec<Command>)
        ensures
            final(self)@ == apply_commands(old(self)@, commands@),
            consistent(old(self)@) ==> consistent(final(self)@),
    {
        let mut i: usize = 0;
        while i < commands.len()
            invariant
                i <= commands@.len(),
                self@ == apply_commands(old(self)@, commands@.take(i as int)),
                consistent(old(self)@) ==> consistent(self@),
            decreases commands@.len() - i,
        {
            assert(commands@.take(i + 1).drop_last() == commands@.take(i as int));
            self.apply(commands[i]);
            i = i + 1;
        }
        assert(commands@.take(i as int) == commands@);
    }

    /// One processing tick: drains every pending command and applies them in
    /// the order they were requested. `ChannelClosed`, with nothing applied,
    /// once the story layer has torn the channel down.
    pub fn tick(&mut self, commands: &mut CommandChannel) -> (r: Result<(), ChannelError>)
        requires
            old(commands).wf(),
        ensures
            final(commands).wf(),
            final(commands).pending() == Seq::<Command>::empty(),
            final(commands).spec_is_closed() == old(commands).spec_is_closed(),
            final(commands).spec_policy() == old(commands).spec_policy(),
            old(commands).spec_is_closed() ==> r == Err::<(), ChannelError>(ChannelError::ChannelClosed)
                && final(self)@ == old(self)@,
            !old(commands).spec_is_closed() ==> r == Ok::<(), ChannelError>(())
                && final(self)@ == apply_commands(old(self)@, old(commands).pending()),
            consistent(old(self)@) ==> consistent(final(self)@),
    {
        match commands.drain() {
            Ok(batch) => {
                self.apply_all(&batch);
                Ok(())
            },
            Err(e) => Err(e),
        }
    }

    /// Switches the network on or off and tells the story layer. The switch
    /// happens whether or not the event can be delivered.
    pub fn toggle_network(&mut self, events: &mut EventChannel) -> (r: Result<(), ChannelError>)
        requires
            old(events).wf(),
        ensures
            final(self)@ == toggle(old(self)@),
            consistent(final(self)@),
            final(events).wf(),
            final(events).spec_policy() == old(events).spec_policy(),
            final(events).spec_is_closed() == old(events).spec_is_closed(),
            old(events).spec_is_closed() ==> r == Err::<(), ChannelError>(ChannelError::ChannelClosed)
                && final(events).pending() == old(events).pending(),
            !old(events).spec_is_closed() ==> r == Ok::<(), ChannelError>(())
                && final(events).pending() == enqueue(
                    old(events).pending(),
                    old(events).spec_policy(),
                    Event::NetworkToggled,
                ),
    {
        if self.snapshot.connected {
            self.snapshot = GameSnapshot::default();
        } else {
            self.snapshot = GameSnapshot { connected: true, friend_in_lobby: false, friend_ready: false };
        }
        events.emit(Event::NetworkToggled)
    }
}

/// The snapshot provider: a copy of the state when there is one, else the
/// default snapshot. Never an error.
pub fn current_or_default(state: Option<&GameState>) -> (r: GameSnapshot)
    ensures
        r == match state {
            Some(g) => g@,
            None => initial_snapshot(),
        },
{
    match state {
        Some(g) => g.current(),
        None => GameSnapshot::default(),
    }
}

} // verus!
