use vstd::prelude::*;

pub mod text;
pub mod locale_env;
pub mod host_picker;
pub mod remote_label;
pub mod conversation;
pub mod checkpoint;
pub mod template;
pub mod localization;
pub mod toast;
pub mod palette;
pub mod agent;
pub mod output;
pub mod runner;
pub mod task_status;
pub mod prompt_suggestions;
pub mod mcp_dialog;
pub mod orchestration;
pub mod session_banner;
pub mod skills;
pub mod schema;
pub mod remote_search;
pub mod tips;
pub mod json_tree;
pub mod json_shape;
pub mod settings_schema;
pub mod provider;
pub mod mcp_list;
pub mod diffset;
pub mod task_id;

verus! {
} // verus!
