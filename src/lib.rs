//! A bridge between a process's standard streams and a zenoh topic.
//!
//! The library holds the decisions of the bridge: validating a topic
//! expression, resolving quality-of-service tokens, cutting input into
//! messages, the configuration changes asked for on the command line, and
//! the state machines that drive the publish and subscribe loops. The loops
//! themselves (reading standard input, writing standard output, talking to
//! the session) are run by the caller, which hands each outcome to the
//! matching state machine and performs the action it returns.
pub mod config;
pub mod params;
pub mod publish;
pub mod qos;
pub mod subscribe;
mod text;
pub mod topic;

pub use config::{ConfigEntry, ConfigError, SessionConfig};
pub use params::{CliArgs, Command, Params, ParamsError};
pub use publish::{
    replay_reads, PublishAction, PublishBridge, PublishFailure, PublishParams, PublishPhase, ReadOutcome,
    DEFAULT_CHUNK_SIZE,
};
pub use qos::{resolve, CongestionControl, QosParameters, Reliability, ResolutionError};
pub use subscribe::{
    replay_events, RunEnd, SubscribeAction, SubscribeBridge, SubscribeEvent, SubscribeFailure, SubscribeParams,
    SubscribePhase,
};
pub use topic::{validate, TopicExpression, ValidationError};
