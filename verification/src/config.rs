use vstd::prelude::*;
use vstd::string::*;

verus! {

/// The player's settings, as kept in the config file.
#[derive(Debug)]
pub struct Config {
    pub data_folder: String,
    pub local_song_folder_path: String,
}

/// The server the client connects to, as kept in the server config file.
#[derive(Debug)]
pub struct ServerConfig {
    pub server_address: String,
    pub server_name: String,
    pub server_cert_path: String,
}

impl Config {
    /// The settings of a first run: data in "data/", local songs from "/".
    pub fn new_default() -> (c: Config)
        ensures
            c.data_folder@ == "data/"@,
            c.local_song_folder_path@ == "/"@,
    {
        Config {
            data_folder: String::from_str("data/"),
            local_song_folder_path: String::from_str("/"),
        }
    }
}

impl ServerConfig {
    /// The settings of a server: its address, its name and the path of its
    /// certificate.
    pub fn new(server_address: &str, server_name: &str, server_cert_path: &str) -> (c: ServerConfig)
        ensures
            c.server_address@ == server_address@,
            c.server_name@ == server_name@,
            c.server_cert_path@ == server_cert_path@,
    {
        ServerConfig {
            server_address: String::from_str(server_address),
            server_name: String::from_str(server_name),
            server_cert_path: String::from_str(server_cert_path),
        }
    }
}

} // verus!
