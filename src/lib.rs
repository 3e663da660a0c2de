//! Per-session orchestration core of a real-time conversational gateway:
//! sentence segmentation of streamed dialog text, the serialized synthesis
//! queue, the client message encoding and the session lifecycle.

mod text;
pub mod config;
pub mod dialog;
pub mod message;
pub mod segmenter;
pub mod session;
pub mod synthesis;
pub mod transcription;
pub mod writer;

pub use config::AppConfig;
pub use segmenter::SentenceSegmenter;
