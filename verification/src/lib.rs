//! freddie: a framework for typed event-to-state machines.

pub mod app_nav;
pub mod bind;
pub mod client;
pub mod displays_types;
pub mod event_socket;
pub mod instance;
pub mod key_sequence;
pub mod keyboard;
pub mod keys;
pub mod laserbeam;
pub mod logs;
pub mod menu_bar;
pub mod remaps;
pub mod selection_types;
pub mod sequence;
pub mod single_instance;
pub mod sync;
pub mod text;
pub mod timer;
pub mod windows_types;
