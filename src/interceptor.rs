use vstd::prelude::*;

use crate::fabricate::{fabricate, forged_from, ChainState, FetchError};
use crate::coin::{Coin, ConfigError};
use crate::types::{
    CandidateBackingMessage, CandidateReceipt, Digest, FromOrchestra, PersistedValidationData, PoV,
};

verus! {

/// The parts of a request to second a candidate.
#[derive(Clone, Debug, PartialEq, Eq)]
pub struct SecondRequest {
    pub relay_parent: Digest,
    pub candidate: CandidateReceipt,
    pub validation_data: PersistedValidationData,
    pub pov: PoV,
}

impl SecondRequest {
    /// The overseer message that carries this request.
    pub open spec fn message(self) -> FromOrchestra {
        FromOrchestra::Communication {
            msg: CandidateBackingMessage::Second(self.relay_parent, self.candidate, self.validation_data, self.pov),
        }
    }

    /// Puts the request back into its overseer message.
    pub fn into_message(self) -> (r: FromOrchestra)
        ensures
            r == self.message(),
    {
        FromOrchestra::Communication {
            msg: CandidateBackingMessage::Second(self.relay_parent, self.candidate, self.validation_data, self.pov),
        }
    }
}

/// What the interceptor decided for one incoming message.
#[derive(Clone, Debug, PartialEq, Eq)]
pub enum Interception {
    /// Hand the message on as it came.
    Forward(FromOrchestra),
    /// Fetch the chain state and replace the seconding request by a forgery.
    Forge(SecondRequest),
}

/// The message an interception decision was made on.
pub open spec fn decided_on(d: Interception) -> FromOrchestra {
    match d {
        Interception::Forward(m) => m,
        Interception::Forge(req) => req.message(),
    }
}

/// Whether `msg` asks the backing subsystem to second a candidate.
pub open spec fn is_second(msg: FromOrchestra) -> bool {
    msg matches FromOrchestra::Communication { msg: CandidateBackingMessage::Second(..) }
}

/// `r` carries a forgery of the candidate that `req` seconds, for the given
/// chain state and erasure root, at the same relay parent and with the same
/// validation data.
pub open spec fn forged_message(r: FromOrchestra, req: SecondRequest, chain: ChainState, erasure_root: Digest) -> bool {
    match r {
        FromOrchestra::Communication { msg: CandidateBackingMessage::Second(rp, c, vd, pov) } => {
            &&& rp == req.relay_parent
            &&& vd == req.validation_data
            &&& forged_from(
                c,
                pov,
                req.relay_parent,
                req.candidate.descriptor.para_id,
                req.validation_data,
                chain.validation_code@,
                erasure_root,
            )
        },
        _ => false,
    }
}

/// Intercepts the backing subsystem's incoming messages and replaces a share
/// of its seconding requests by forged candidates.
#[derive(Clone, Copy, Debug)]
pub struct NoteCandidate {
    coin: Coin,
    percentage: u8,
}

impl NoteCandidate {
    pub closed spec fn percentage_spec(&self) -> u8 {
        self.percentage
    }

    pub closed spec fn wf(&self) -> bool {
        &&& self.coin.wf()
        &&& self.coin.numerator_spec() == self.percentage as u32
        &&& self.coin.denominator_spec() == 100
    }

    /// An interceptor that forges `percentage` percent of the seconding
    /// requests, or an error when `percentage` exceeds 100.
    pub fn new(percentage: u8) -> (r: Result<NoteCandidate, ConfigError>)
        ensures
            percentage <= 100 <==> r is Ok,
            r matches Ok(n) ==> n.wf() && n.percentage_spec() == percentage,
            r matches Err(e) ==> e == ConfigError::InvalidPercentage(percentage),
    {
        match Coin::from_percentage(percentage) {
            Ok(coin) => Ok(NoteCandidate { coin, percentage }),
            Err(e) => Err(e),
        }
    }

    pub fn percentage(&self) -> (r: u8)
        ensures
            r == self.percentage_spec(),
    {
        self.percentage
    }

    /// Decides on one incoming message. Only a seconding request can be
    /// forged, and only on a successful flip of the coin; everything else,
    /// signals included, is forwarded as it came.
    pub fn intercept_incoming(&self, msg: FromOrchestra) -> (r: Interception)
        requires
            self.wf(),
        ensures
            decided_on(r) == msg,
            !is_second(msg) ==> r == Interception::Forward(msg),
            self.percentage_spec() == 0 ==> r == Interception::Forward(msg),
            self.percentage_spec() == 100 && is_second(msg) ==> r is Forge,
    {
        match msg {
            FromOrchestra::Communication {
                msg: CandidateBackingMessage::Second(relay_parent, candidate, validation_data, pov),
            } => {
                let req = SecondRequest { relay_parent, candidate, validation_data, pov };
                if self.coin.flip() {
                    Interception::Forge(req)
                } else {
                    Interception::Forward(req.into_message())
                }
            },
            other => Interception::Forward(other),
        }
    }

    /// Decides on one outgoing message: this interceptor forwards them all.
    pub fn intercept_outgoing(&self, msg: FromOrchestra) -> (r: Option<FromOrchestra>)
        ensures
            r == Some(msg),
    {
        Some(msg)
    }
}

/// Finishes a forging decision once the chain state is known: on a failed
/// fetch the incoming request goes on unchanged, otherwise a forged candidate
/// takes its place. `outcome` holds, on success, the chain state and the
/// erasure root of the poison data for its validator count.
pub fn complete_interception(req: SecondRequest, outcome: Result<(ChainState, Digest), FetchError>) -> (r: FromOrchestra)
    ensures
        outcome is Err ==> r == req.message(),
        outcome matches Ok((chain, root)) ==> forged_message(r, req, chain, root),
{
    match outcome {
        Err(_) => req.into_message(),
        Ok((chain, erasure_root)) => {
            let (candidate, pov) = fabricate(
                &req.relay_parent,
                req.candidate.descriptor.para_id,
                &req.validation_data,
                &chain,
                &erasure_root,
            );
            FromOrchestra::Communication {
                msg: CandidateBackingMessage::Second(req.relay_parent, candidate, req.validation_data, pov),
            }
        },
    }
}

} // verus!
