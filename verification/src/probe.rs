//! The probe's decision logic: from what was observed about the node
//! (credential present or not, status endpoint reachable or not, and the
//! two sync flags) to an exit code and an optional diagnostic message.

use vstd::prelude::*;

verus! {

/// The two sync-status flags reported by the node's status endpoint.
#[derive(Debug)]
pub struct LndGetInfoRes {
    pub synced_to_chain: bool,
    pub synced_to_graph: bool,
}

/// Coarse classification of a health determination.
pub enum HealthCheckResult {
    Success,
    Disabled,
    Starting,
    Loading { message: String },
    Failure { error: String },
}

/// The probe's output: a process exit code and an optional single-line
/// diagnostic message.
#[derive(Clone, Debug)]
pub struct HealthCheckRes {
    pub code: i32,
    pub message: Option<String>,
}

/// Exit code for a node that answered with the given sync flags:
/// 0 when fully synced, 61 while still syncing.
pub open spec fn sync_code(chain: bool, graph: bool) -> int {
    if chain && graph {
        0
    } else {
        61
    }
}

/// Diagnostic message for a node that answered with the given sync flags:
/// none when fully synced, otherwise which side is still catching up.
pub open spec fn sync_message(chain: bool, graph: bool) -> Option<Seq<char>> {
    if chain && graph {
        None
    } else if !chain && graph {
        Some("Syncing to chain"@)
    } else if chain && !graph {
        Some("Syncing to graph"@)
    } else {
        Some("Syncing to graph and chain"@)
    }
}

/// The message field of a probe result, viewed as a sequence of characters.
pub open spec fn message_view(m: Option<String>) -> Option<Seq<char>> {
    match m {
        Some(s) => Some(s@),
        None => None,
    }
}

/// What was observed before deciding: `None` when the credential file is
/// absent; `Some(Err(text))` when the status request or the parse of its
/// body failed, with the error's text; `Some(Ok(info))` when the endpoint
/// answered with the two sync flags.
pub open spec fn probe_code(obs: Option<Result<LndGetInfoRes, Seq<char>>>) -> int {
    match obs {
        None => 60,
        Some(Err(_)) => 60,
        Some(Ok(info)) => sync_code(info.synced_to_chain, info.synced_to_graph),
    }
}

/// The diagnostic message owed for an observation: none while waiting for
/// the credential, the error's text when the endpoint could not be read,
/// and the sync message otherwise.
pub open spec fn probe_message(obs: Option<Result<LndGetInfoRes, Seq<char>>>) -> Option<Seq<char>> {
    match obs {
        None => None,
        Some(Err(e)) => Some(e),
        Some(Ok(info)) => sync_message(info.synced_to_chain, info.synced_to_graph),
    }
}

/// View of an observation: the error text as a sequence of characters.
pub open spec fn observation_view(obs: Option<Result<LndGetInfoRes, String>>) -> Option<
    Result<LndGetInfoRes, Seq<char>>,
> {
    match obs {
        None => None,
        Some(Err(e)) => Some(Err(e@)),
        Some(Ok(info)) => Some(Ok(info)),
    }
}

/// Map the sync flags the node reported to a result, by the decision table:
/// both synced gives code 0 and no message; otherwise code 61 and a message
/// naming what is still syncing.
pub fn decide_sync(info: &LndGetInfoRes) -> (r: HealthCheckRes)
    ensures
        r.code as int == sync_code(info.synced_to_chain, info.synced_to_graph),
        message_view(r.message) == sync_message(info.synced_to_chain, info.synced_to_graph),
{
    if info.synced_to_graph && info.synced_to_chain {
        HealthCheckRes { code: 0, message: None }
    } else if !info.synced_to_chain && info.synced_to_graph {
        HealthCheckRes { code: 61, message: Some("Syncing to chain".to_string()) }
    } else if !info.synced_to_graph && info.synced_to_chain {
        HealthCheckRes { code: 61, message: Some("Syncing to graph".to_string()) }
    } else {
        HealthCheckRes { code: 61, message: Some("Syncing to graph and chain".to_string()) }
    }
}

/// Decide the probe's outcome from one observation of the node.
///
/// An absent credential means the service has not been provisioned yet:
/// code 60, no message. A failed request or an unparseable body is taken
/// for early boot: code 60, with the error's text. An answer is mapped by
/// the decision table over the two sync flags.
pub fn run_health_checks(observation: Option<Result<LndGetInfoRes, String>>) -> (r:
    HealthCheckRes)
    ensures
        r.code as int == probe_code(observation_view(observation)),
        message_view(r.message) == probe_message(observation_view(observation)),
{
    match observation {
        None => HealthCheckRes { code: 60, message: None },
        Some(Err(e)) => HealthCheckRes { code: 60, message: Some(e) },
        Some(Ok(info)) => decide_sync(&info),
    }
}

} // verus!
