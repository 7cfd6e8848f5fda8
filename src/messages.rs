use vstd::prelude::*;

verus! {

/// A point-in-time copy of the game's authoritative state, read by the story
/// layer. Holding one never gives access to the live state.
#[derive(Debug, Clone, Copy, PartialEq, Eq, Structural)]
pub struct GameSnapshot {
    /// Whether a network session is established.
    pub connected: bool,
    /// Whether the friend is present in the lobby.
    pub friend_in_lobby: bool,
    /// Whether the friend is marked ready.
    pub friend_ready: bool,
}

/// The snapshot that means "nothing known yet": not connected, lobby empty.
pub open spec fn initial_snapshot() -> GameSnapshot {
    GameSnapshot { connected: false, friend_in_lobby: false, friend_ready: false }
}

impl Default for GameSnapshot {
    fn default() -> (r: Self)
        ensures
            r == initial_snapshot(),
    {
        GameSnapshot { connected: false, friend_in_lobby: false, friend_ready: false }
    }
}

/// Events emitted by the game/menu layer and consumed by the chat/story layer.
///
/// These are "moments" that tell the story engine when to re-evaluate and what
/// just happened, without requiring the story to reconstruct full state from
/// an event history (it can read `GameSnapshot` for current truth).
#[derive(Debug, Clone, Copy, PartialEq, Eq, Structural)]
pub enum Event {
    Started,
    NetworkToggled,
}

/// Events emitted by the chat/story layer and consumed by the game/menu layer.
///
/// These are actions the story wants to trigger in the game. Keep them semantic
/// and minimal; add variants only when the story truly needs to cause an effect.
#[derive(Debug, Clone, Copy, PartialEq, Eq, Structural)]
pub enum Command {
    SetFriendInLobby(bool),
    SetFriendReady(bool),
    ForceDisconnect,
}

} // verus!
