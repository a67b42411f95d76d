//! The host-supplied callbacks the engine consumes: broadcast capability,
//! script ownership, prior-outpoint knowledge, and the signer.
//!
//! Each trait couples its callback to a predicate, so the engine's
//! contracts can say exactly which answer each check acted on. Reference
//! implementations backed by plain lists live here too; they are what the
//! tests use.

use vstd::prelude::*;

use crate::error::ForeignError;
use crate::model::{eq_bytes, OutPoint, OutPointV, Psbt, PsbtV};

verus! {

/// Answers whether the host could schedule the given raw transaction for
/// broadcast.
pub trait CanBroadcast: Sized {
    /// The predicate the callback answers.
    spec fn allows(&self, tx_bytes: Seq<u8>) -> bool;

    /// Asks the host about one serialized transaction.
    fn callback(&self, tx: &Vec<u8>) -> (r: Result<bool, ForeignError>)
        ensures
            r matches Result::Ok(b) ==> b == self.allows(tx@),
    ;
}

/// A host that schedules everything it is asked about.
pub struct AcceptAllBroadcast;

impl CanBroadcast for AcceptAllBroadcast {
    open spec fn allows(&self, tx_bytes: Seq<u8>) -> bool {
        true
    }

    fn callback(&self, tx: &Vec<u8>) -> (r: Result<bool, ForeignError>) {
        Result::Ok(true)
    }
}

/// A host that schedules nothing: every proposal is refused.
pub struct RejectAllBroadcast;

impl CanBroadcast for RejectAllBroadcast {
    open spec fn allows(&self, tx_bytes: Seq<u8>) -> bool {
        false
    }

    fn callback(&self, tx: &Vec<u8>) -> (r: Result<bool, ForeignError>) {
        Result::Ok(false)
    }
}

/// Answers whether a locking script belongs to the host's wallet.
pub trait IsScriptOwned: Sized {
    /// The predicate the callback answers.
    spec fn owns(&self, script: Seq<u8>) -> bool;

    /// Asks the host about one locking script.
    fn callback(&self, script: &Vec<u8>) -> (r: Result<bool, ForeignError>)
        ensures
            r matches Result::Ok(b) ==> b == self.owns(script@),
    ;
}

/// A wallet view backed by a plain list of scripts: it owns exactly the
/// scripts in the list.
pub struct ScriptRegistry {
    pub scripts: Vec<Vec<u8>>,
}

impl IsScriptOwned for ScriptRegistry {
    open spec fn owns(&self, script: Seq<u8>) -> bool {
        exists|i: int| 0 <= i < self.scripts@.len() && self.scripts@[i]@ == script
    }

    fn callback(&self, script: &Vec<u8>) -> (r: Result<bool, ForeignError>) {
        let mut i: usize = 0;
        while i < self.scripts.len()
            invariant
                i <= self.scripts@.len(),
                forall|j: int| 0 <= j < i ==> self.scripts@[j]@ != script@,
            decreases self.scripts@.len() - i,
        {
            if eq_bytes(&self.scripts[i], script) {
                return Result::Ok(true);
            }
            i = i + 1;
        }
        Result::Ok(false)
    }
}

/// Answers whether an outpoint was already used in an earlier session.
pub trait IsOutputKnown: Sized {
    /// The predicate the callback answers.
    spec fn knows(&self, outpoint: OutPointV) -> bool;

    /// Asks the host about one outpoint.
    fn callback(&self, outpoint: &OutPoint) -> (r: Result<bool, ForeignError>)
        ensures
            r matches Result::Ok(b) ==> b == self.knows(outpoint@),
    ;
}

/// A prior-outpoint store backed by a plain list: it knows exactly the
/// outpoints in the list.
pub struct OutPointRegistry {
    pub outpoints: Vec<OutPoint>,
}

impl IsOutputKnown for OutPointRegistry {
    open spec fn knows(&self, outpoint: OutPointV) -> bool {
        exists|i: int| 0 <= i < self.outpoints@.len() && self.outpoints@[i]@ == outpoint
    }

    fn callback(&self, outpoint: &OutPoint) -> (r: Result<bool, ForeignError>) {
        let mut i: usize = 0;
        while i < self.outpoints.len()
            invariant
                i <= self.outpoints@.len(),
                forall|j: int| 0 <= j < i ==> self.outpoints@[j]@ != outpoint@,
            decreases self.outpoints@.len() - i,
        {
            let o = &self.outpoints[i];
            if eq_bytes(&o.txid, &outpoint.txid) && o.vout == outpoint.vout {
                proof {
                    assert(self.outpoints@[i as int]@ =~= outpoint@);
                }
                return Result::Ok(true);
            }
            proof {
                if self.outpoints@[i as int]@ == outpoint@ {
                    assert(self.outpoints@[i as int]@.txid == outpoint@.txid);
                }
            }
            i = i + 1;
        }
        Result::Ok(false)
    }
}

/// The host signer: takes the proposal ready for signing and returns it
/// signed and finalized. Which signed proposals it may hand back for a
/// given input is the signer's own relation; the engine additionally
/// checks the result instead of trusting it.
pub trait ProcessPsbt: Sized {
    /// The signing relation the callback realizes: whether `output` is a
    /// proposal this signer may return when handed `input`.
    spec fn signs(&self, input: PsbtV, output: PsbtV) -> bool;

    /// Hands one proposal to the signer.
    fn callback(&self, psbt: &Psbt) -> (r: Result<Psbt, ForeignError>)
        ensures
            r matches Result::Ok(out) ==> self.signs(psbt@, out@),
    ;
}

/// A signer that hands the proposal back unchanged, for flows whose inputs
/// need no receiver signature.
pub struct PassthroughSigner;

impl ProcessPsbt for PassthroughSigner {
    open spec fn signs(&self, input: PsbtV, output: PsbtV) -> bool {
        output == input
    }

    fn callback(&self, psbt: &Psbt) -> (r: Result<Psbt, ForeignError>) {
        Result::Ok(psbt.duplicate())
    }
}

/// A signer that refuses every proposal, the way a host signer that is
/// unavailable would.
pub struct RefusingSigner;

impl ProcessPsbt for RefusingSigner {
    open spec fn signs(&self, input: PsbtV, output: PsbtV) -> bool {
        false
    }

    fn callback(&self, psbt: &Psbt) -> (r: Result<Psbt, ForeignError>) {
        Result::Err(ForeignError { message: "the signer refused".to_owned() })
    }
}

} // verus!
