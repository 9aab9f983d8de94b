pub mod genre_laws;
pub mod genres;
pub mod home;
pub mod laws;
pub mod paths;
pub mod provider;
pub mod request;
pub mod track_laws;
pub mod tracks;
