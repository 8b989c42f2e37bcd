use vstd::prelude::*;

pub mod text;
pub mod cli_output;
pub mod validation;
pub mod order;
pub mod project_format;
pub mod project_search;
pub mod host_identity;
pub mod audio_metadata;
pub mod feed_xml;
pub mod audio_feed;
pub mod audio_write;
pub mod publish_plan;
pub mod publication_history;
pub mod publish_service;
pub mod services;
pub mod cli_support;
pub mod error_text;
pub mod cli_render;
pub mod cli_render_records;

verus! {

} // verus!
