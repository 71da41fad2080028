//! Verified core logic of a paged-attention LLM serving engine.

pub mod text;
pub mod template_sanitizer;
pub mod template_registry;
pub mod request_queue;
pub mod kv_layout;
pub mod kv_compression;
pub mod cache_engine;
pub mod hybrid_layout;
pub mod settings;
pub mod weight_files;
pub mod device;
pub mod gguf_metadata;
