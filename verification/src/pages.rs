//! The screens of the application, each holding its own local state.

pub mod login;
pub mod set_master_password;
pub mod vault;
