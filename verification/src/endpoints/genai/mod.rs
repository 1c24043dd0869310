//! The generative endpoints.
pub mod audio_isolation;
pub mod dubbing;
pub mod forced_alignment;
pub mod music;
pub mod music_wire;
pub mod sound_effects;
pub mod speech_engine;
pub mod speech_to_text;
pub mod text_to_dialogue;
pub mod text_to_voice;
pub mod tokens;
pub mod tts;
