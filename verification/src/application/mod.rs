pub mod hitster_service;
pub mod jobs;
pub mod models;
pub mod pdf_generator;
pub mod playlist_service;
pub mod worker;
