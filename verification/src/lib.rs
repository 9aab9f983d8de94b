pub mod device;
pub mod json;
pub mod seqs;
pub mod subsonic;
pub mod text;
pub mod youtube;
