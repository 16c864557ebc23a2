//! Provider-neutral LLM conversation protocol: conversation types, response streams, routed-call
//! failures, and the Amazon Bedrock Converse codecs.

pub mod accumulate;
pub mod bedrock;
pub mod client;
pub mod describe;
pub mod failure_laws;
pub mod fold_laws;
pub mod format;
pub mod json;
pub mod llm;
pub mod model;
pub mod order;
pub mod replay;
pub mod replay_laws;
pub mod stream;
pub mod stream_state;
pub mod text;
pub mod translation;
