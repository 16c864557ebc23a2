//! Amazon Bedrock Converse wire-format codecs.

pub mod buffered;
pub mod content;
pub mod decode_laws;
pub mod encode_laws;
pub mod event_laws;
pub mod fields;
pub mod laws;
pub mod stream;
pub mod stream_laws;
