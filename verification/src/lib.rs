//! Keyboard, mouse and clipboard sharing between machines.
//!
//! A server captures the input of its devices and forwards it to its clients, which
//! inject it on theirs; both share their clipboards. The modules hold the decisions on
//! the way: what is captured and how it is converted (`capture`, `convert`), how
//! messages are framed (`frame`), how two machines come together (`client`, `server`)
//! and how a client is served (`service`), what is emitted on virtual devices
//! (`uinput`), and when a clipboard is shared (`clipboard`). Devices, sockets and
//! processes are left to the caller, who carries out the actions that the library asks
//! for and reports what came of them.
pub mod capture;
pub mod capture_laws;
pub mod client;
pub mod clipboard;
pub mod codes;
pub mod config;
pub mod convert;
pub mod convert_laws;
pub mod discovery;
pub mod events;
pub mod frame;
pub mod kernel;
pub mod message;
pub mod server;
pub mod service;
pub mod session_laws;
pub mod text;
pub mod uinput;
