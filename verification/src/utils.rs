//! Helpers shared by the operations.

pub mod guards;

pub use guards::{
    ensure_admin, ensure_expected_program, ensure_fee_recipient, ensure_launch_allowed,
    ensure_not_completed, ensure_not_paused, ensure_swap_allowed,
};
