//! The decisions behind a client of the XDG InputCapture portal.
//!
//! Everything here is plain computation: which barriers a request stands for, what a session
//! remembers, what the portal task does after each event, how long a setup is waited for, and
//! which calls are possible when. Talking to the portal, to other threads and to Python is left
//! to whoever uses the crate.

pub mod activation;
pub mod barriers;
pub mod calls;
pub mod portal;
pub mod session;
pub mod setup;
pub mod task;
pub mod task_laws;
pub mod task_steps;
pub mod text;
