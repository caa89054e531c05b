//! Quality-of-service parameters and their resolution from command-line tokens.
use vstd::prelude::*;

use crate::text::same_text;
use vstd::string::StrSliceExecFns;

verus! {

/// Delivery guarantee of published messages.
#[derive(Clone, Copy, Debug, PartialEq, Eq, Structural)]
pub enum Reliability {
    Reliable,
    BestEffort,
}

/// What the outbound path does with a message when it is saturated.
#[derive(Clone, Copy, Debug, PartialEq, Eq, Structural)]
pub enum CongestionControl {
    Drop,
    Block,
}

/// The QoS metadata attached to every published message.
///
/// `priority` is a level from 1 (real time) to 7 (background).
#[derive(Clone, Copy, Debug, PartialEq, Eq, Structural)]
pub struct QosParameters {
    pub reliability: Reliability,
    pub congestion_control: CongestionControl,
    pub priority: u8,
    pub express: bool,
}

impl QosParameters {
    pub open spec fn wf(self) -> bool {
        1 <= self.priority <= 7
    }
}

/// A token that lies outside its closed set; the token is carried along.
#[derive(Clone, Debug, PartialEq, Eq)]
pub enum ResolutionError {
    Reliability(String),
    CongestionControl(String),
    Priority(String),
}

/// Reliability used when none is given.
pub open spec fn default_reliability() -> Reliability {
    Reliability::BestEffort
}

/// Congestion control used when none is given (the session's own default).
pub open spec fn default_congestion_control() -> CongestionControl {
    CongestionControl::Drop
}

/// Priority level used when none is given (the session's "data" level).
pub open spec fn default_priority() -> u8 {
    5
}

/// The reliability named by a token: `reliable` or `besteffort`.
pub open spec fn reliability_of_token(t: Seq<char>) -> Option<Reliability> {
    if t == "reliable"@ {
        Some(Reliability::Reliable)
    } else if t == "besteffort"@ {
        Some(Reliability::BestEffort)
    } else {
        None
    }
}

/// The congestion control named by a token: `drop` or `block`.
pub open spec fn congestion_of_token(t: Seq<char>) -> Option<CongestionControl> {
    if t == "drop"@ {
        Some(CongestionControl::Drop)
    } else if t == "block"@ {
        Some(CongestionControl::Block)
    } else {
        None
    }
}

/// The priority level named by a digit from `1` to `7`.
pub open spec fn priority_of_digit(c: char) -> Option<u8> {
    if c == '1' {
        Some(1u8)
    } else if c == '2' {
        Some(2u8)
    } else if c == '3' {
        Some(3u8)
    } else if c == '4' {
        Some(4u8)
    } else if c == '5' {
        Some(5u8)
    } else if c == '6' {
        Some(6u8)
    } else if c == '7' {
        Some(7u8)
    } else {
        None
    }
}

/// The priority level named by a token: one digit from `1` to `7`.
pub open spec fn priority_of_token(t: Seq<char>) -> Option<u8> {
    if t.len() == 1 {
        priority_of_digit(t[0])
    } else {
        None
    }
}

/// What resolving the optional tokens gives: each absent token takes its
/// default, each present one must lie in its closed set, and the first one
/// that does not (in the order reliability, congestion control, priority)
/// is reported.
pub open spec fn resolution(
    reliability: Option<Seq<char>>,
    congestion: Option<Seq<char>>,
    priority: Option<Seq<char>>,
    express: bool,
) -> Result<QosParameters, ResolutionError> {
    let r = match reliability {
        None => Some(default_reliability()),
        Some(t) => reliability_of_token(t),
    };
    let c = match congestion {
        None => Some(default_congestion_control()),
        Some(t) => congestion_of_token(t),
    };
    let p = match priority {
        None => Some(default_priority()),
        Some(t) => priority_of_token(t),
    };
    if r is None {
        Err(ResolutionError::Reliability(arbitrary()))
    } else if c is None {
        Err(ResolutionError::CongestionControl(arbitrary()))
    } else if p is None {
        Err(ResolutionError::Priority(arbitrary()))
    } else {
        Ok(
            QosParameters {
                reliability: r.unwrap(),
                congestion_control: c.unwrap(),
                priority: p.unwrap(),
                express,
            },
        )
    }
}

pub open spec fn opt_view(o: Option<String>) -> Option<Seq<char>> {
    match o {
        Some(s) => Some(s@),
        None => None,
    }
}

/// Relies on `CongestionControl::default()` of zenoh, which is `Drop`,
/// whose discriminant is 0.
#[verifier::external_body]
fn session_default_congestion_code() -> (r: u8)
    ensures
        r == 0,
{
    zenoh::qos::CongestionControl::default() as u8
}

/// Relies on `Priority::default()` of zenoh, which is `Data`, level 5.
#[verifier::external_body]
fn session_default_priority() -> (r: u8)
    ensures
        r == 5,
{
    zenoh::qos::Priority::default() as u8
}

/// Relies on zenoh's `TryFrom<u8> for Priority` (`zenoh::qos::Priority`),
/// which accepts the levels 1 to 7 and refuses every other value.
#[verifier::external_body]
fn session_priority(level: u8) -> (r: Option<u8>)
    ensures
        r == (if 1 <= level && level <= 7 { Some(level) } else { None::<u8> }),
{
    match zenoh::qos::Priority::try_from(level) {
        Ok(p) => Some(p as u8),
        Err(_) => None,
    }
}

fn reliability_token(t: &String) -> (r: Option<Reliability>)
    ensures
        r == reliability_of_token(t@),
{
    if same_text(t, "reliable") {
        Some(Reliability::Reliable)
    } else if same_text(t, "besteffort") {
        Some(Reliability::BestEffort)
    } else {
        None
    }
}

fn congestion_token(t: &String) -> (r: Option<CongestionControl>)
    ensures
        r == congestion_of_token(t@),
{
    if same_text(t, "drop") {
        Some(CongestionControl::Drop)
    } else if same_text(t, "block") {
        Some(CongestionControl::Block)
    } else {
        None
    }
}

fn priority_token(t: &String) -> (r: Option<u8>)
    ensures
        r == priority_of_token(t@),
{
    let s = t.as_str();
    if s.unicode_len() != 1 {
        return None;
    }
    let c = s.get_char(0);
    let level: u8 = match c {
        '1' => 1,
        '2' => 2,
        '3' => 3,
        '4' => 4,
        '5' => 5,
        '6' => 6,
        '7' => 7,
        _ => return None,
    };
    session_priority(level)
}

/// Resolves the optional QoS tokens into concrete parameters.
///
/// Absent tokens take their defaults: best effort, the session's congestion
/// control (`Drop`) and its data priority (level 5). A present token outside
/// its closed set yields the matching `ResolutionError`, carrying the token.
pub fn resolve(
    reliability: Option<String>,
    congestion_control: Option<String>,
    priority: Option<String>,
    express: bool,
) -> (r: Result<QosParameters, ResolutionError>)
    ensures
        match (r, resolution(
            opt_view(reliability),
            opt_view(congestion_control),
            opt_view(priority),
            express,
        )) {
            (Ok(q), Ok(s)) => q == s,
            (Err(ResolutionError::Reliability(t)), Err(ResolutionError::Reliability(_))) =>
                Some(t) == reliability,
            (Err(ResolutionError::CongestionControl(t)), Err(ResolutionError::CongestionControl(_))) =>
                Some(t) == congestion_control,
            (Err(ResolutionError::Priority(t)), Err(ResolutionError::Priority(_))) =>
                Some(t) == priority,
            _ => false,
        },
        r matches Ok(q) ==> q.wf(),
{
    let rel = match &reliability {
        None => Some(Reliability::BestEffort),
        Some(t) => reliability_token(t),
    };
    let cc = match &congestion_control {
        // the session's discriminants: 0 is `Drop`, 1 is `Block`
        None => Some(
            if session_default_congestion_code() == 1 {
                CongestionControl::Block
            } else {
                CongestionControl::Drop
            },
        ),
        Some(t) => congestion_token(t),
    };
    let pr = match &priority {
        None => Some(session_default_priority()),
        Some(t) => priority_token(t),
    };
    match (rel, cc, pr) {
        (None, _, _) => Err(ResolutionError::Reliability(reliability.unwrap())),
        (Some(_), None, _) => Err(ResolutionError::CongestionControl(congestion_control.unwrap())),
        (Some(_), Some(_), None) => Err(ResolutionError::Priority(priority.unwrap())),
        (Some(r), Some(c), Some(p)) => Ok(
            QosParameters { reliability: r, congestion_control: c, priority: p, express },
        ),
    }
}

/// The closed set of reliability tokens.
pub open spec fn reliability_tokens() -> Set<Seq<char>> {
    set!["reliable"@, "besteffort"@]
}

/// The closed set of congestion-control tokens.
pub open spec fn congestion_tokens() -> Set<Seq<char>> {
    set!["drop"@, "block"@]
}

/// The closed set of priority tokens.
pub open spec fn priority_tokens() -> Set<Seq<char>> {
    set!["1"@, "2"@, "3"@, "4"@, "5"@, "6"@, "7"@]
}

/// An optional token is acceptable when it is absent or in its set.
pub open spec fn token_in(t: Option<Seq<char>>, tokens: Set<Seq<char>>) -> bool {
    match t {
        None => true,
        Some(t) => tokens.contains(t),
    }
}

/// Resolution succeeds exactly when every given token lies in its closed
/// set, and then yields well-formed parameters; a token outside its set
/// makes it fail.
pub proof fn lemma_resolution_total(
    reliability: Option<Seq<char>>,
    congestion: Option<Seq<char>>,
    priority: Option<Seq<char>>,
    express: bool,
)
    ensures
        resolution(reliability, congestion, priority, express) is Ok <==> (token_in(
            reliability,
            reliability_tokens(),
        ) && token_in(congestion, congestion_tokens()) && token_in(priority, priority_tokens())),
        resolution(reliability, congestion, priority, express) matches Ok(q) ==> q.wf(),
{
    reveal_strlit("reliable");
    reveal_strlit("besteffort");
    reveal_strlit("drop");
    reveal_strlit("block");
    reveal_strlit("1");
    reveal_strlit("2");
    reveal_strlit("3");
    reveal_strlit("4");
    reveal_strlit("5");
    reveal_strlit("6");
    reveal_strlit("7");
    if let Some(t) = priority {
        if t.len() == 1 {
            let c = t[0];
            if c == '1' {
                assert(t =~= "1"@);
            } else if c == '2' {
                assert(t =~= "2"@);
            } else if c == '3' {
                assert(t =~= "3"@);
            } else if c == '4' {
                assert(t =~= "4"@);
            } else if c == '5' {
                assert(t =~= "5"@);
            } else if c == '6' {
                assert(t =~= "6"@);
            } else if c == '7' {
                assert(t =~= "7"@);
            }
        }
    }
}

} // verus!
