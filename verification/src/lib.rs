//! Instance coordination and watchdog supervision for a single managed
//! application.
//!
//! The launcher makes sure that only one instance of the application runs,
//! starts it, and restarts it after a crash under a bounded policy.  This
//! library holds every decision of that work, each with a proved contract;
//! the input and output that the decisions ask for are left to the caller.
//!
//! - `coordinator`: is another instance live, and how is it given the focus
//! - `status`: the HTTP exchange on the coordination port
//! - `window`: which window belongs to the running instance
//! - `state_channel`: the record by which the application says why it exited
//! - `watchdog`: restart or stop, and after how long a pause
//! - `supervisor`: the life cycle of the one child process
//! - `environment`: the runtime that the child is started in
//! - `text`: searching and scanning byte strings

pub mod coordinator;
pub mod environment;
pub mod state_channel;
pub mod status;
pub mod supervisor;
pub mod text;
pub mod watchdog;
pub mod window;
