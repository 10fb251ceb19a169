//! The logic of a terminal audio player.
pub mod agreement;
pub mod clock;
pub mod debounce;
pub mod device;
pub mod directory;
pub mod key;
pub mod laws;
pub mod list_state;
pub mod media;
pub mod message;
pub mod order;
pub mod path;
pub mod playback;
pub mod root;
pub mod scan;
pub mod session;
pub mod songs;
pub mod text;
pub mod turn;
