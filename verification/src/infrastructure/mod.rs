pub mod database;
pub mod entities;
pub mod job_processor;
pub mod spotify;
pub mod spotify_service;

pub use database::JobStatus;
