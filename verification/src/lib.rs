//! An interactive terminal dashboard for local containers: a modal state
//! machine over keystrokes, a capped log-tailing pipeline with follow-scroll,
//! and bounded resource windows with an O(1) running maximum. The engine
//! client, the terminal backend and the rendering live outside this crate;
//! everything here carries a contract.

pub mod dispatch;
pub mod externals;
pub mod keybindings;
pub mod laws;
pub mod max_sliding_window;
pub mod monotonic_window;
pub mod pipeline;
pub mod search;
pub mod state;
