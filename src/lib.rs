//! Incremental decoding of streamed text-generation responses.
//!
//! Bytes arrive from the network in arbitrary chunks; [`buffer::ChunkBuffer`] cuts them
//! into lines, [`framing`] turns a line into a frame of one of three wire formats,
//! [`decoder`] reads the frame's JSON payload into a [`decoder::ProviderEvent`], and
//! [`normalize`] maps that onto the provider-independent [`normalize::NormalizedEvent`].
//! [`pipeline::StreamDecoder`] drives the whole chain and [`task::StreamTask`] decides
//! what the task that owns one stream does next. [`messages`] handles transports that
//! deliver whole messages, and [`guarantees`] states what holds of every stream.
//!
//! Around the pipeline: the provider-independent types ([`types`], [`error`]), settings
//! and their validation ([`config`], [`openai_config`], [`ollama_config`],
//! [`grpc_config`]), and each service's wire types and error classification
//! ([`anthropic`], [`openai`], [`ollama`], [`grpc_error`], [`proto`]).

pub mod text;
pub mod json;
pub mod types;
pub mod error;
pub mod config;
pub mod proto;
pub mod grpc_config;
pub mod grpc_error;
pub mod anthropic;
pub mod openai;
pub mod openai_config;
pub mod ollama;
pub mod ollama_config;
pub mod buffer;
pub mod framing;
pub mod decoder;
pub mod normalize;
pub mod pipeline;
pub mod guarantees;
pub mod task;
pub mod messages;
