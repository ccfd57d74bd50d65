use vstd::prelude::*;

pub mod text;
pub mod json;
pub mod features;
pub mod config_types;
pub mod openai_models;
pub mod token_usage;
pub mod session_source;
pub mod models;
pub mod protocol;
pub mod user_input;
pub mod util;
pub mod login;
pub mod exec;
pub mod additional_context;
pub mod context;
pub mod rollout;
pub mod thread_metadata;
pub mod extract;
pub mod view_image;
pub mod config;
pub mod rollout_list;
pub mod cli;
pub mod tools;
pub mod models_manager;
pub mod fork;
pub mod stream_events;
pub mod tool_specs;
pub mod web_search;
pub mod session;
pub mod thread_manager;
pub mod config_edit;
pub mod config_document;

verus! {

} // verus!
