//! The contract between a game/menu layer and a story layer: events flow from
//! the game to the story, commands flow back, and the story reads the game's
//! current truth through copied snapshots.

pub mod channel;
pub mod game;
pub mod menu;
pub mod messages;
