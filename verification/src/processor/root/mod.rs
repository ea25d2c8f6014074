//! The operations on a root.

pub mod configure_root;
pub mod create_root;
pub mod set_voting_weight_plugin;
pub mod update_root;

pub use configure_root::ConfigureRoot;
pub use create_root::CreateRoot;
pub use set_voting_weight_plugin::SetVotingWeightPlugin;
pub use update_root::UpdateRoot;
