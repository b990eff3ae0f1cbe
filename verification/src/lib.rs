//! In-memory loading and serving of single-page application assets.
//!
//! The assets of a single-page application are loaded once into a route table,
//! templated with deployment-time configuration where requested, and then served
//! from memory.

pub mod bytes_cache;
pub mod content_type;
pub mod html_templating;
pub mod json_env_cfg;
pub mod mem_fs_server;
pub mod spa_cfg;
pub mod spa_cfg_html;
pub mod spa_cfg_json;
pub mod spa_loader;
pub mod text;
