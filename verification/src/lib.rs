//! A command-execution coordinator: it runs a long, fallible unit of work
//! while presenting progress to the operator in one of three presentation
//! modes, and it guarantees that cancelling the interactive presentation
//! neither corrupts output nor loses the computation's result.
//!
//! The decision logic — which strategy a configuration selects, how output
//! is routed, and how the outcome of the racing threads is reconciled — is
//! verified here. The surrounding process (threads, channels, terminal
//! rendering, argument parsing) drives these decisions from outside.

pub mod cli;
pub mod config;
pub mod event;
pub mod progress;
pub mod render;
pub mod sink;

pub use cli::Init;
pub use cli::SubCommands;
pub use progress::create_progress;
pub use render::DashboardOptions;
pub use render::RunPlan;
pub use render::dashboard_options;
pub use render::plan;
pub use render::DEFAULT_FRAME_RATE;
pub use render::EVENT_CHANNEL_CAPACITY;
pub use event::Event;
pub use event::Reconciled;
pub use event::RunError;
pub use event::computation_result;
pub use event::reconcile;
pub use sink::BufferedSink;
pub use config::ConfigError;
pub use config::ExecutionConfig;
pub use config::SinkMode;
pub use config::Strategy;
pub use config::strategy_for;
