//! The session that the requirements endpoint grants for one completion.

use crate::bindings::option_debug_text;
use crate::config::AppStateRef;
use crate::error::Error;
use crate::stream::Timestamp;
use crate::transport::{is_success, status_is_success};
use vstd::prelude::*;
use vstd::string::*;

verus! {

/// A granted session: the bearer token for one completion, the challenge of
/// the proof of work, and the device the session is bound to.
#[derive(Debug)]
pub struct Session {
    pub start_at: Timestamp,
    pub token: String,
    pub proof_seed: String,
    pub proof_difficulty: String,
    pub device_id: String,
}

/// The decoded answer of the requirements endpoint.
#[derive(Debug, Clone)]
pub struct ChatRequirements {
    pub token: String,
    pub required: bool,
    pub seed: String,
    pub difficulty: String,
}

/// Binds the answer of the requirements endpoint to the device of the
/// process. A status outside the 2xx class is a transport error carrying the
/// response body; an answer that did not decode is the decoding error it
/// came with; otherwise the session holds the answer's token and challenge.
pub fn alloc_session(
    state: AppStateRef,
    status: u16,
    body: String,
    decoded: Result<ChatRequirements, Error>,
    start_at: Timestamp,
) -> (granted: Result<Session, Error>)
    ensures
        match granted {
            Ok(session) => {
                &&& is_success(status)
                &&& decoded matches Ok(answer)
                &&& session.start_at == start_at
                &&& session.token == answer.token
                &&& session.proof_seed == answer.seed
                &&& session.proof_difficulty == answer.difficulty
                &&& session.device_id@ == state.device_id@
            },
            Err(e) => if !is_success(status) {
                e == Error::Reqwest(body)
            } else {
                decoded == Err::<ChatRequirements, Error>(e)
            },
        },
{
    if !status_is_success(status) {
        return Err(Error::Reqwest(body));
    }
    match decoded {
        Err(e) => Err(e),
        Ok(answer) => Ok(
            Session {
                start_at,
                token: answer.token,
                proof_seed: answer.seed,
                proof_difficulty: answer.difficulty,
                device_id: state.device_id.clone(),
            },
        ),
    }
}

/// The lines shown once when no session could be had: which proxy was in
/// use, and that the service may not be available in the caller's country.
pub fn availability_hint(proxy: &Option<String>) -> (lines: Vec<String>)
    ensures
        lines@.len() == 3,
        lines@[0]@.subrange(0, "Alloc session fail, proxy: "@.len() as int)
            == "Alloc session fail, proxy: "@,
        lines@[1]@ == "If this error persists, your country may not be supported yet."@,
        lines@[2]@ == "If your country was the issue, please consider using a U.S. VPN."@,
{
    let mut first = String::from_str("Alloc session fail, proxy: ");
    let ghost head = first@;
    first.append(option_debug_text(proxy).as_str());
    assert(first@.subrange(0, head.len() as int) =~= head);
    let mut lines: Vec<String> = Vec::new();
    lines.push(first);
    lines.push(String::from_str("If this error persists, your country may not be supported yet."));
    lines.push(
        String::from_str("If your country was the issue, please consider using a U.S. VPN."),
    );
    lines
}

} // verus!
