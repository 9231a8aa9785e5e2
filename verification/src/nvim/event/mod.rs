//! Translation of session updates into the records that the editor receives.

pub mod annotations;
pub mod available_commands;
pub mod communication;
pub mod config_option;
pub mod current_mode;
pub mod plan;
pub mod tool_call;
pub mod tool_call_content;
pub mod tool_call_update;

pub use annotations::parse_annotations;
pub use available_commands::available_commands_event;
pub use communication::{
    communication, image_event, resource_event, resource_link_event, text_event,
};
pub use config_option::config_option_event;
pub use current_mode::current_mode_event;
pub use plan::plan_event;
pub use tool_call::tool_call_event;
pub use tool_call_content::parse_tool_call_content;
pub use tool_call_update::tool_call_update_event;
