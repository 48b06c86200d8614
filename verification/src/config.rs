//! The service's settings: Spotify credentials, the database and the server address.
//! Reading them from files and the environment is the program's part.

use vstd::prelude::*;

verus! {

/// All settings.
#[derive(Debug, Clone)]
pub struct Settings {
    /// Spotify application client ID
    pub spotify: SpotifyConfig,
    /// Database configuration
    pub database: DatabaseConfig,
    /// Server configuration
    pub server: ServerConfig,
}

/// The Spotify application's credentials.
#[derive(Debug, Clone)]
pub struct SpotifyConfig {
    pub client_id: String,
    pub client_secret: String,
}

/// Where the database is and how it is used.
#[derive(Debug, Clone)]
pub struct DatabaseConfig {
    pub path: String,
    pub max_connections: u32,
    pub timeout_seconds: u64,
}

/// Where the server listens.
#[derive(Debug, Clone)]
pub struct ServerConfig {
    pub host: String,
    pub port: u16,
}

} // verus!
