use story_bridge::channel::{Channel, ChannelError, CommandChannel, EventChannel};
use story_bridge::game::{current_or_default, GameState};
use story_bridge::messages::{Command, Event, GameSnapshot};

fn connected_game() -> GameState {
    let mut g = GameState::new();
    let mut ev: EventChannel = Channel::new();
    assert_eq!(g.toggle_network(&mut ev), Ok(()));
    g
}

#[test]
fn default_snapshot_is_empty_and_disconnected() {
    let s = GameSnapshot::default();
    assert!(!s.connected);
    assert!(!s.friend_in_lobby);
    assert!(!s.friend_ready);
}

#[test]
fn current_before_any_activity_is_default() {
    let g = GameState::new();
    assert_eq!(g.current(), GameSnapshot::default());
}

#[test]
fn current_or_default_without_state_is_default() {
    assert_eq!(current_or_default(None), GameSnapshot::default());
    let g = connected_game();
    assert!(current_or_default(Some(&g)).connected);
}

#[test]
fn set_friend_in_lobby_twice_equals_once() {
    let mut once = connected_game();
    once.apply(Command::SetFriendInLobby(true));
    let mut twice = connected_game();
    twice.apply(Command::SetFriendInLobby(true));
    twice.apply(Command::SetFriendInLobby(true));
    assert!(once.current().friend_in_lobby);
    assert_eq!(once.current(), twice.current());
}

#[test]
fn friend_commands_apply_inside_a_session() {
    let mut g = connected_game();
    g.apply(Command::SetFriendInLobby(true));
    g.apply(Command::SetFriendReady(true));
    assert_eq!(
        g.current(),
        GameSnapshot { connected: true, friend_in_lobby: true, friend_ready: true }
    );
    g.apply(Command::SetFriendReady(false));
    assert_eq!(
        g.current(),
        GameSnapshot { connected: true, friend_in_lobby: true, friend_ready: false }
    );
}

#[test]
fn friend_commands_without_session_are_no_ops() {
    let mut g = GameState::new();
    g.apply(Command::SetFriendInLobby(true));
    g.apply(Command::SetFriendReady(true));
    assert_eq!(g.current(), GameSnapshot::default());
}

#[test]
fn ready_after_force_disconnect_has_no_effect() {
    let mut g = connected_game();
    let mut cmd: CommandChannel = Channel::new();
    assert_eq!(cmd.request(Command::SetFriendInLobby(true)), Ok(()));
    assert_eq!(cmd.request(Command::ForceDisconnect), Ok(()));
    assert_eq!(g.tick(&mut cmd), Ok(()));
    assert!(!g.current().connected);

    assert_eq!(cmd.request(Command::SetFriendReady(true)), Ok(()));
    assert_eq!(g.tick(&mut cmd), Ok(()));
    let s = g.current();
    assert!(!s.connected);
    assert!(!s.friend_ready);
    assert!(!s.friend_in_lobby);
}

#[test]
fn force_disconnect_twice_equals_once() {
    let mut g = connected_game();
    g.apply(Command::SetFriendInLobby(true));
    g.apply(Command::ForceDisconnect);
    let once = g.current();
    g.apply(Command::ForceDisconnect);
    assert_eq!(g.current(), once);
    assert_eq!(once, GameSnapshot::default());
}

#[test]
fn tick_applies_in_request_order() {
    let mut g = connected_game();
    let mut cmd: CommandChannel = Channel::new();
    assert_eq!(cmd.request(Command::SetFriendReady(true)), Ok(()));
    assert_eq!(cmd.request(Command::SetFriendReady(false)), Ok(()));
    assert_eq!(cmd.request(Command::SetFriendInLobby(true)), Ok(()));
    assert_eq!(g.tick(&mut cmd), Ok(()));
    assert_eq!(
        g.current(),
        GameSnapshot { connected: true, friend_in_lobby: true, friend_ready: false }
    );
    assert_eq!(cmd.len(), 0);
}

#[test]
fn apply_all_applies_in_order() {
    let mut g = connected_game();
    g.apply_all(&vec![Command::SetFriendInLobby(false), Command::SetFriendInLobby(true)]);
    assert!(g.current().friend_in_lobby);
    g.apply_all(&vec![]);
    assert!(g.current().friend_in_lobby);
}

#[test]
fn tick_on_closed_channel_applies_nothing() {
    let mut g = connected_game();
    let mut cmd: CommandChannel = Channel::new();
    assert_eq!(cmd.request(Command::SetFriendInLobby(true)), Ok(()));
    assert_eq!(cmd.request(Command::ForceDisconnect), Ok(()));
    cmd.close();
    let before = g.current();
    assert_eq!(g.tick(&mut cmd), Err(ChannelError::ChannelClosed));
    assert_eq!(g.current(), before);
    assert!(g.current().connected);
    assert!(!g.current().friend_in_lobby);
}

#[test]
fn tick_on_closed_empty_channel_reports_closure() {
    let mut g = connected_game();
    let mut cmd: CommandChannel = Channel::new();
    cmd.close();
    assert_eq!(g.tick(&mut cmd), Err(ChannelError::ChannelClosed));
    assert!(g.current().connected);
}

#[test]
fn toggle_network_switches_and_resets_the_lobby() {
    let mut g = GameState::new();
    let mut ev: EventChannel = Channel::new();
    assert_eq!(g.toggle_network(&mut ev), Ok(()));
    assert_eq!(
        g.current(),
        GameSnapshot { connected: true, friend_in_lobby: false, friend_ready: false }
    );
    g.apply(Command::SetFriendInLobby(true));
    assert_eq!(g.toggle_network(&mut ev), Ok(()));
    assert_eq!(g.current(), GameSnapshot::default());
    assert_eq!(ev.drain(), Ok(vec![Event::NetworkToggled, Event::NetworkToggled]));
}

#[test]
fn toggle_network_on_closed_channel_still_switches() {
    let mut g = GameState::new();
    let mut ev: EventChannel = Channel::new();
    ev.close();
    assert_eq!(g.toggle_network(&mut ev), Err(ChannelError::ChannelClosed));
    assert!(g.current().connected);
    assert_eq!(ev.next(), Err(ChannelError::ChannelClosed));
}

#[test]
fn start_then_network_toggle_scenario() {
    let mut g = GameState::new();
    let mut ev: EventChannel = Channel::new();

    assert_eq!(ev.emit(Event::Started), Ok(()));
    assert_eq!(ev.next(), Ok(Some(Event::Started)));
    assert_eq!(ev.next(), Ok(None));
    assert_eq!(g.current(), GameSnapshot::default());

    assert_eq!(g.toggle_network(&mut ev), Ok(()));
    assert_eq!(ev.next(), Ok(Some(Event::NetworkToggled)));
    assert_eq!(ev.next(), Ok(None));
    assert!(g.current().connected);
}

#[test]
fn snapshot_is_a_copy() {
    let mut g = connected_game();
    let before = g.current();
    g.apply(Command::SetFriendInLobby(true));
    assert!(!before.friend_in_lobby);
    assert!(g.current().friend_in_lobby);
}
