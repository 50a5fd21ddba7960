pub mod file;
pub mod friend;
pub mod group;
pub mod message;
pub mod request;
pub mod system;
