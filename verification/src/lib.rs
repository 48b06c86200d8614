pub mod config;
pub mod application;
pub mod domain;
pub mod html;
pub mod html_generator;
pub mod html_templates;
pub mod ids;
pub mod infrastructure;
pub mod pdf_generator;
pub mod qr_generator;
pub mod spotify_service;
pub mod templates;
pub mod text;
pub mod time;

pub use spotify_service::SongCard;
