pub mod errors;
pub mod job;
pub mod pdf;
pub mod playlist;
pub mod services;
pub mod spotify_id;

pub use errors::{DomainError, DomainResult};
pub use job::{Job, JobId, JobKind, JobStatus};
pub use pdf::Pdf;
pub use playlist::{Playlist, PlaylistId, SpotifyId, Track};
