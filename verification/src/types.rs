pub mod common;
pub mod communication;
pub mod event;
pub mod friend;
pub mod group;
pub mod message;
