pub mod bubble;
pub mod buffer;
pub mod config;
pub mod laws;
pub mod mascot;
pub mod render;
pub mod text;

pub use config::set_speaker;
pub use render::perform;
pub use render::say;
pub use render::think;
pub use config::Eyes;
pub use config::FerrisConfig;
pub use config::SayError;
pub use config::Selector;
pub use config::Speaker;
pub use config::SpeechModes;
