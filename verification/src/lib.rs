//! The state and view logic of a terminal front end for a remote media
//! player: the playlist viewport (scrolling, centering, incremental search),
//! the shared player-state store with its property-change transitions, the
//! repaint-request protocol between the producer threads and the render
//! loop, and the exact text of every pane element. Every function here
//! carries a contract; the process around it only moves bytes between this
//! library, the player's socket and the terminal.

pub mod input;
pub mod numfmt;
pub mod player;
pub mod playlist;
pub mod render;
pub mod repaint;
pub mod text;
pub mod viewport;
