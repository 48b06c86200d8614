pub mod job;
pub mod job_model;
pub mod job_type;
pub mod pdf;
pub mod playlist;

pub use job::JobId;
pub use job_model::Job;
pub use job_type::JobType;
pub use pdf::{Pdf, PdfSide};
pub use playlist::{Playlist, PlaylistId, PlaylistIdError, Track};
