//! Core of a break-reminder utility: a work/break session state machine with
//! pause/resume bookkeeping, CPU-load driven auto-pause, and a dispatcher that
//! turns inbound commands into state transitions and outbound actions.

pub mod cpu;
pub mod dispatcher;
pub mod menu;
pub mod messages;
pub mod settings;
pub mod state;
pub mod text;
pub mod timer;
