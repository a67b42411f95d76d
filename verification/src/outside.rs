//! The crate's trusted boundary: the few calls into outside crates that the
//! engine relies on, each behind a wrapper whose contract names what the
//! call computes.

use vstd::prelude::*;

use bitcoin::hashes::Hash as _;
use bitcoin::transaction::Version;
use bitcoin::absolute::LockTime;
use bitcoin::{Amount, ScriptBuf, Sequence, Txid, Witness};
use bitcoin::OutPoint as BtcOutPoint;
use bitcoin::Transaction as BtcTx;
use bitcoin::TxIn as BtcTxIn;
use bitcoin::TxOut as BtcTxOut;

use crate::model::{Transaction, TransactionV, txids_well_formed};

verus! {

/// The scheme of a parseable URL, or nothing when the string is not a URL.
/// What `url::Url::parse` accepts and the scheme it reports depend on the
/// string alone.
pub uninterp spec fn url_scheme_of(s: Seq<char>) -> Option<Seq<u8>>;

/// Relies on url::Url::parse to parse the string and url::Url::scheme to
/// report the parsed URL's scheme.
#[verifier::external_body]
pub(crate) fn parse_url_scheme(s: &String) -> (r: Option<Vec<u8>>)
    ensures
        r is Some <==> url_scheme_of(s@) is Some,
        r matches Option::Some(v) ==> url_scheme_of(s@) == Option::Some(v@),
{
    match url::Url::parse(s.as_str()) {
        Ok(u) => Option::Some(u.scheme().as_bytes().to_vec()),
        Err(_) => Option::None,
    }
}

/// The consensus serialization of a transaction, as a function of the
/// transaction's content alone.
pub uninterp spec fn consensus_encoding_of(t: TransactionV) -> Seq<u8>;

/// Relies on bitcoin::consensus::encode::serialize: produces the consensus
/// serialization of the transaction. The model's empty signature fields
/// convert to empty script signatures and witnesses.
#[verifier::external_body]
pub(crate) fn consensus_encode_tx(tx: &Transaction) -> (r: Vec<u8>)
    requires
        txids_well_formed(crate::model::txins_view(tx.inputs@)),
    ensures
        r@ == consensus_encoding_of(tx@),
{
    let t = BtcTx {
        version: Version(tx.version as i32),
        lock_time: LockTime::from_consensus(tx.lock_time),
        input: tx.inputs.iter().map(|i| BtcTxIn {
            previous_output: BtcOutPoint::new(Txid::from_byte_array(i.prev_out.txid.clone().try_into().unwrap()), i.prev_out.vout),
            script_sig: ScriptBuf::new(),
            sequence: Sequence(i.sequence),
            witness: Witness::new(),
        }).collect(),
        output: tx.outputs.iter().map(|o| BtcTxOut {
            value: Amount::from_sat(o.value),
            script_pubkey: ScriptBuf::from_bytes(o.script_pubkey.clone()),
        }).collect(),
    };
    bitcoin::consensus::encode::serialize(&t)
}

/// The characters of the only scheme the engine accepts for directory and
/// relay endpoints.
pub open spec fn https_scheme() -> Seq<u8> {
    seq![104u8, 116u8, 116u8, 112u8, 115u8]
}

/// An endpoint the engine will talk to: a parseable URL with the https
/// scheme.
pub open spec fn is_secure_url(s: Seq<char>) -> bool {
    url_scheme_of(s) == Option::Some(https_scheme())
}

/// How an endpoint string fails validation, if it does.
#[derive(PartialEq, Eq, Structural, Clone, Copy, Debug)]
pub enum UrlFlaw {
    /// The string does not parse as a URL.
    Unparseable,
    /// The URL's scheme is not https.
    Insecure,
}

/// Validates an endpoint string: it must parse as a URL and use https.
pub fn validate_endpoint(s: &String) -> (r: Result<(), UrlFlaw>)
    ensures
        r is Ok <==> is_secure_url(s@),
        r matches Result::Err(UrlFlaw::Unparseable) <==> url_scheme_of(s@) is None,
{
    match parse_url_scheme(s) {
        Option::None => Result::Err(UrlFlaw::Unparseable),
        Option::Some(scheme) => {
            if scheme.len() == 5 && scheme[0] == 104u8 && scheme[1] == 116u8 && scheme[2] == 116u8
                && scheme[3] == 112u8 && scheme[4] == 115u8 {
                proof {
                    assert(scheme@ =~= https_scheme());
                }
                Result::Ok(())
            } else {
                proof {
                    if scheme@ == https_scheme() {
                        assert(scheme@[0] == 104u8 && scheme@[1] == 116u8 && scheme@[2] == 116u8
                            && scheme@[3] == 112u8 && scheme@[4] == 115u8);
                    }
                }
                Result::Err(UrlFlaw::Insecure)
            }
        },
    }
}

} // verus!
