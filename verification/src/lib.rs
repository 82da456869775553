//! A Discord bot toolkit: the data models of the Discord API, the
//! message cache, the `PNDR` archive format, and the decisions that the
//! gateway and HTTP layers take.

pub mod admin;
pub mod api;
pub mod archive;
pub mod archive_doc;
pub mod archive_laws;
pub mod assoc;
pub mod broadcaster;
pub mod cache;
pub mod cache_manager;
pub mod config;
pub mod feedback;
pub mod fun;
pub mod events;
pub mod gateway;
pub mod help;
pub mod http;
pub mod interactions;
pub mod json;
pub mod json_text;
pub mod kady;
pub mod models;
pub mod profile;
pub mod replies;
pub mod supervisor;
pub mod text;
pub mod text_map;
pub mod time;
