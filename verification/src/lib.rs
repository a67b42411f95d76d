//! Receiver-side engine for a serverless, privacy-preserving Bitcoin
//! transaction-construction protocol.
//!
//! The engine is a typestate session: a protocol object that advances through
//! ten ordered stages, persisting every transition as an event so that the
//! whole session can be replayed from its event log after a crash or restart.
//! Coin selection and fee negotiation are pure functions invoked from two of
//! the stages.
//!
//! The engine performs no I/O and no envelope encryption: an outbound
//! `Request` carries the codec's plain framing of the payload, and the host
//! that sends it is responsible for the encrypted-envelope encapsulation the
//! relay expects, as it is for the transport itself.

pub mod checks;
pub mod codec;
pub mod error;
pub mod event;
pub mod fees;
pub mod finalize;
pub mod history;
pub mod model;
pub mod oracles;
pub mod outputs;
pub mod outside;
pub mod persist;
pub mod receiver;
pub mod replay;
pub mod select;
pub mod session;
pub mod transitions;
pub mod uri;

use vstd::prelude::*;

verus! {

/// Mathematical ceiling of `num / den`.
pub open spec fn spec_div_ceil(num: int, den: int) -> int
    recommends
        den > 0,
{
    if num % den == 0 {
        num / den
    } else {
        num / den + 1
    }
}

/// Ceiling division on satoshi amounts, used by the fee arithmetic.
pub fn div_ceil_u64(num: u64, den: u64) -> (r: u64)
    requires
        den > 0,
    ensures
        r == spec_div_ceil(num as int, den as int),
{
    let q = num / den;
    let rem = num % den;
    if rem == 0 {
        q
    } else {
        assert(q < u64::MAX) by {
            assert(den >= 2);
            assert(num as int / den as int <= num as int / 2) by {
                vstd::arithmetic::div_mod::lemma_div_is_ordered_by_denominator(
                    num as int, 2, den as int);
            }
        }
        q + 1
    }
}

} // verus!
