//! A publishing platform's core: the block content model and its rendering,
//! credentials and sessions, and the lifecycle of texts.

pub mod block;
mod clock;
pub mod error;
pub mod creator;
pub mod session;
pub mod text;
pub mod access;
pub mod page;
pub mod forms;
pub mod codec;
