//! Discovery and launch rules of a desktop launcher shell: where a game client
//! and its companion application are installed, which executable is started,
//! what version an add-on manifest declares, and how the tray menu reacts.
//!
//! Every function here works on plain values. Reading the configuration store,
//! the file system and the network is left to the caller, who hands over what
//! was read.

pub mod executable;
pub mod locator;
pub mod manifest;
pub mod remote;
pub mod resolver;
pub mod store;
pub mod text;
pub mod tray;
