//! Supervisor and chat mediator for a locally spawned Ollama inference
//! server: lifecycle tracking of the server process, translation of a chat
//! message list plus an optional JSON-schema string into a structured chat
//! request, and normalization of the raw server response.

pub mod chat;
pub mod llama;
pub mod text;
