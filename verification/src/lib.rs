//! A bridge from an external worktree-status tool to typed in-process data.
//!
//! The library interprets one invocation of the external `mael` tool: it
//! classifies the exit status, parses the tool's standard output as JSON
//! against the expected schema, and returns either the typed response tree
//! or a classified error. Launching the tool and capturing its streams is
//! left to the hosting application; everything the bridge decides from the
//! captured outcome is verified here.

pub mod bridge;
pub mod jsonval;
pub mod model;
pub mod schema;
pub mod text;

pub use bridge::interpret_output;
pub use bridge::launch_failure;
pub use bridge::repo_root;
pub use bridge::tool_arguments;
pub use model::BridgeError;
pub use schema::parse_response;
pub use model::ListAllResponse;
pub use model::Project;
pub use model::Worktree;
