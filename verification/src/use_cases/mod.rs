pub mod create;
pub mod manage;
pub mod redirect;
