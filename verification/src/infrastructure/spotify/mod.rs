pub mod mapper;
pub mod service;

pub use mapper::TrackParts;
