//! Core logic of the REVERB music player: the network protocol shared by
//! client and server, the server's user table, the client's song queue,
//! playlists, playlist cache and connection state, the text interface's
//! command tree and argument grammar, and the text layout of the terminal
//! view.

pub mod failure;
pub mod text;
pub mod number;
pub mod commands;
pub mod packet;
pub mod server;
pub mod song;
pub mod playlist;
pub mod queue;
pub mod config;
pub mod connection;
pub mod internal;
pub mod client_command;
pub mod player;
pub mod layout;
pub mod panel;
pub mod command_spec;
pub mod cli;
pub mod line_command;
