//! The parameters of one invocation: which bridge runs, and with what.
use vstd::prelude::*;

use crate::publish::PublishParams;
use crate::qos::{opt_view, resolution, resolve, QosParameters, ResolutionError};
use crate::subscribe::SubscribeParams;
use crate::topic::{is_key_expr, validate, ValidationError};

verus! {

/// The mode chosen on the command line, with its raw arguments.
#[derive(Clone, Debug)]
pub enum Command {
    /// Subscribe to `keyexpr` and write what arrives to standard output.
    Read { keyexpr: String, ignore_eof: bool },
    /// Read standard input in chunks of `buffer` bytes and publish them on `keyexpr`.
    Write {
        keyexpr: String,
        reliability: Option<String>,
        congestion_control: Option<String>,
        priority: Option<String>,
        express: bool,
        buffer: usize,
    },
}

/// The resolved parameters: exactly one of the two bridges.
#[derive(Clone, Debug)]
pub enum Params {
    Write(PublishParams),
    Read(SubscribeParams),
}

/// Why the raw arguments could not be resolved.
#[derive(Clone, Debug, PartialEq, Eq)]
pub enum ParamsError {
    Topic(ValidationError),
    Qos(ResolutionError),
    ZeroChunkSize,
}

impl Params {
    pub open spec fn wf(&self) -> bool {
        match self {
            Params::Write(p) => p.wf(),
            Params::Read(p) => p.wf(),
        }
    }
}

/// The raw command line: the mode with its arguments, and the session
/// settings that override the configuration.
#[derive(Clone, Debug)]
pub struct CliArgs {
    pub command: Command,
    /// The session mode by name (`peer`, `client` or `router`).
    pub mode: Option<String>,
    /// Endpoints to connect to.
    pub connect: Vec<String>,
    /// Endpoints to listen on.
    pub listen: Vec<String>,
    /// Disable multicast scouting.
    pub no_multicast_scouting: bool,
    /// Free-form `KEY:VALUE` configuration changes.
    pub cfg: Vec<String>,
}

impl CliArgs {
    /// Resolves the raw arguments into the parameters of one bridge.
    ///
    /// The topic is validated first; in Write mode the QoS tokens are then
    /// resolved, and a chunk size of zero is refused. Each failure is
    /// reported as the matching error; nothing is defaulted or clamped.
    pub fn params(&self) -> (r: Result<Params, ParamsError>)
        ensures
            r matches Ok(p) ==> p.wf(),
            match self.command {
                Command::Read { keyexpr, ignore_eof } => if !is_key_expr(keyexpr@) {
                    r matches Err(ParamsError::Topic(e)) && e.input@ == keyexpr@
                } else {
                    r matches Ok(Params::Read(p)) && p.topic.view() == keyexpr@
                        && p.continue_on_end_of_stream == ignore_eof
                },
                Command::Write {
                    keyexpr,
                    reliability,
                    congestion_control,
                    priority,
                    express,
                    buffer,
                } => {
                    let q = resolution(
                        opt_view(reliability),
                        opt_view(congestion_control),
                        opt_view(priority),
                        express,
                    );
                    if !is_key_expr(keyexpr@) {
                        r matches Err(ParamsError::Topic(e)) && e.input@ == keyexpr@
                    } else if q is Err {
                        r matches Err(ParamsError::Qos(e)) && match (e, q) {
                            (ResolutionError::Reliability(t), Err(ResolutionError::Reliability(_))) =>
                                Some(t) == reliability,
                            (
                                ResolutionError::CongestionControl(t),
                                Err(ResolutionError::CongestionControl(_)),
                            ) => Some(t) == congestion_control,
                            (ResolutionError::Priority(t), Err(ResolutionError::Priority(_))) =>
                                Some(t) == priority,
                            _ => false,
                        }
                    } else if buffer == 0 {
                        r matches Err(ParamsError::ZeroChunkSize)
                    } else {
                        r matches Ok(Params::Write(p)) && p.topic.view() == keyexpr@ && q == Ok::<QosParameters, ResolutionError>(p.qos)
                            && p.chunk_size == buffer
                    }
                },
            },
    {
        match &self.command {
            Command::Read { keyexpr, ignore_eof } => match validate(keyexpr.as_str()) {
                Ok(topic) => Ok(
                    Params::Read(SubscribeParams { topic, continue_on_end_of_stream: *ignore_eof }),
                ),
                Err(e) => Err(ParamsError::Topic(e)),
            },
            Command::Write {
                keyexpr,
                reliability,
                congestion_control,
                priority,
                express,
                buffer,
            } => {
                let topic = match validate(keyexpr.as_str()) {
                    Ok(t) => t,
                    Err(e) => {
                        return Err(ParamsError::Topic(e));
                    },
                };
                let qos = match resolve(
                    reliability.clone(),
                    congestion_control.clone(),
                    priority.clone(),
                    *express,
                ) {
                    Ok(q) => q,
                    Err(e) => {
                        return Err(ParamsError::Qos(e));
                    },
                };
                if *buffer == 0 {
                    return Err(ParamsError::ZeroChunkSize);
                }
                Ok(Params::Write(PublishParams { topic, qos, chunk_size: *buffer }))
            },
        }
    }
}

} // verus!
