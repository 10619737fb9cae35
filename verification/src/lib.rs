//! Verified core of the kerkenez renderer: the integer, text and
//! bookkeeping logic that decides what the OpenGL side is asked to do.
//!
//! - `app_core`: the application's draw queue, waiting materials and
//!   answers to window events;
//! - `batch`: grouping a frame's draw commands into instanced batches;
//! - `config`, `error`: window configuration and error texts;
//! - `context`: choosing a framebuffer configuration;
//! - `input`: keyboard state across frames;
//! - `material`, `texture`: material ids, the deduplicating texture
//!   catalog and the pixels uploaded for an image file;
//! - `mesh`: mesh kinds and index buffers of the built-in meshes;
//! - `pipeline`: vertex and instance attribute layouts;
//! - `post_processing`: shader variants and the plan of the final pass;
//! - `shader_source`: assembling shader sources and decimal notation;
//! - `state_cache`: eliding redundant binds.
pub mod app_core;
pub mod batch;
pub mod config;
pub mod context;
pub mod error;
pub mod input;
pub mod material;
pub mod mesh;
pub mod pipeline;
pub mod post_processing;
pub mod shader_source;
pub mod state_cache;
pub mod texture;
