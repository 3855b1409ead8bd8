//! What holds of the operations, alone and together.
//!
//! The modules whose names end in `calls` say of each function what a caller can tell from its
//! arguments and its result, column by column; [`lookups`] and [`views`] say what the values that
//! they speak of are. The others relate several operations.

pub mod lookups;
pub mod workspaces;
pub mod members;
pub mod invitations;
pub mod permissions;
pub mod publishing;
pub mod keys;
pub mod workspace_calls;
pub mod member_calls;
pub mod invitation_calls;
pub mod permission_calls;
pub mod publish_calls;
pub mod statement_calls;
pub mod outcome_calls;
pub mod views;
