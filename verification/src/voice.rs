//! Voice pipeline: model caching, speech queueing, command interpretation.

pub mod advanced_tts;
pub mod text_to_speech;
pub mod speech_recognition;
pub mod tars_voice_profile;
pub mod speech_patterns;
pub mod realtime_processing;
pub mod voice_cloning;
