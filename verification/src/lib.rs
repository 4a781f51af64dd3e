//! The cloud-init answers that a PXE server gives to the machines it boots.
//!
//! `user_data`, `reply` and `router` decide what a machine is answered; `discovery` makes the user
//! data of a DPU that is being taken into service, from the agent's configuration file
//! (`agent_config`, `encoding`) and the custom snippets that are on offer (`listing`, `snippets`).

pub mod agent_config;
pub mod discovery;
pub mod encoding;
pub mod lines;
pub mod listing;
pub mod machine;
pub mod names;
pub mod reply;
pub mod router;
pub mod snippets;
pub mod template;
pub mod text;
pub mod user_data;
