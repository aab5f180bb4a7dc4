pub mod email;
pub mod ping;
