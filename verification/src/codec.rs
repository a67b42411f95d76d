//! The byte format of the request and response payloads the session
//! exchanges through the store-and-forward directory.
//!
//! The engine never performs I/O: it only encodes outbound payloads and
//! decodes the bytes the caller hands back. Decoding mirrors a spec-level
//! decoder exactly, so what the engine accepts is pinned mathematically,
//! and encoding decodes back to what was encoded.

use vstd::prelude::*;

use crate::model::{
    psbtins_view, txins_view, txouts_view, OutPoint, OutPointV, Proposal, ProposalParams,
    ProposalV, Psbt, PsbtInput, PsbtInputV, PsbtV, Transaction, TransactionV, TxIn, TxInV, TxOut,
    TxOutV,
};

verus! {

// ---------------------------------------------------------------------------
// Primitive encodings: little-endian integers and length-prefixed bytes.
// ---------------------------------------------------------------------------

/// Little-endian encoding of a 32-bit integer.
#[verifier::opaque]
pub open spec fn enc_u32(x: u32) -> Seq<u8> {
    seq![
        (x % 256) as u8,
        ((x / 256) % 256) as u8,
        ((x / 65536) % 256) as u8,
        ((x / 16777216) % 256) as u8,
    ]
}

/// Decodes a little-endian 32-bit integer at `i`.
#[verifier::opaque]
pub open spec fn dec_u32(b: Seq<u8>, i: int) -> Option<(u32, int)> {
    if 0 <= i && i + 4 <= b.len() {
        Option::Some(
            (
                ((b[i] as int) + 256 * (b[i + 1] as int) + 65536 * (b[i + 2] as int) + 16777216 * (
                b[i + 3] as int)) as u32,
                i + 4,
            ),
        )
    } else {
        Option::None
    }
}

/// Little-endian encoding of a 64-bit integer: low half then high half.
#[verifier::opaque]
pub open spec fn enc_u64(x: u64) -> Seq<u8> {
    enc_u32((x % 4294967296) as u32) + enc_u32((x / 4294967296) as u32)
}

/// Decodes a little-endian 64-bit integer at `i`.
#[verifier::opaque]
pub open spec fn dec_u64(b: Seq<u8>, i: int) -> Option<(u64, int)> {
    match dec_u32(b, i) {
        Option::Some((lo, j)) => match dec_u32(b, j) {
            Option::Some((hi, k)) => Option::Some(
                ((lo as int + 4294967296 * (hi as int)) as u64, k),
            ),
            Option::None => Option::None,
        },
        Option::None => Option::None,
    }
}

/// Encoding of a byte string: its length, then the bytes.
#[verifier::opaque]
pub open spec fn enc_bytes(v: Seq<u8>) -> Seq<u8> {
    enc_u32(v.len() as u32) + v
}

/// Decodes a length-prefixed byte string at `i`.
#[verifier::opaque]
pub open spec fn dec_bytes(b: Seq<u8>, i: int) -> Option<(Seq<u8>, int)> {
    match dec_u32(b, i) {
        Option::Some((n, j)) => if j + n <= b.len() {
            Option::Some((b.subrange(j, j + n), j + n))
        } else {
            Option::None
        },
        Option::None => Option::None,
    }
}

/// A 32-bit integer encodes to four bytes.
pub broadcast proof fn lemma_enc_u32_len(x: u32)
    ensures
        (#[trigger] enc_u32(x)).len() == 4,
{
    reveal(enc_u32);
}

/// A 64-bit integer encodes to eight bytes.
pub broadcast proof fn lemma_enc_u64_len(x: u64)
    ensures
        (#[trigger] enc_u64(x)).len() == 8,
{
    reveal(enc_u64);
    lemma_enc_u32_len((x % 4294967296) as u32);
    lemma_enc_u32_len((x / 4294967296) as u32);
}

/// A byte string encodes to four length bytes plus itself.
pub broadcast proof fn lemma_enc_bytes_len(v: Seq<u8>)
    ensures
        (#[trigger] enc_bytes(v)).len() == 4 + v.len(),
{
    reveal(enc_bytes);
    lemma_enc_u32_len(v.len() as u32);
}

/// Reading a little-endian 32-bit integer undoes writing one, wherever the
/// four bytes sit in a larger buffer.
pub proof fn lemma_dec_enc_u32(p: Seq<u8>, x: u32, s: Seq<u8>)
    ensures
        dec_u32(p + enc_u32(x) + s, p.len() as int) == Option::Some(
            (x, p.len() as int + 4),
        ),
{
    reveal(enc_u32);
    reveal(dec_u32);
    let b = p + enc_u32(x) + s;
    let i = p.len() as int;
    assert(b[i] == enc_u32(x)[0]);
    assert(b[i + 1] == enc_u32(x)[1]);
    assert(b[i + 2] == enc_u32(x)[2]);
    assert(b[i + 3] == enc_u32(x)[3]);
    let xi = x as int;
    assert((xi % 256) + 256 * ((xi / 256) % 256) + 65536 * ((xi / 65536) % 256) + 16777216 * ((
    xi / 16777216) % 256) == xi) by {
        lemma_u32_byte_sum(xi);
    }
}

/// The byte decomposition of a 32-bit value sums back to the value.
proof fn lemma_u32_byte_sum(x: int)
    requires
        0 <= x < 4294967296,
    ensures
        (x % 256) + 256 * ((x / 256) % 256) + 65536 * ((x / 65536) % 256) + 16777216 * ((x
            / 16777216) % 256) == x,
{
    let q1 = x / 256;
    vstd::arithmetic::div_mod::lemma_fundamental_div_mod(x, 256);
    vstd::arithmetic::div_mod::lemma_fundamental_div_mod(q1, 256);
    vstd::arithmetic::div_mod::lemma_fundamental_div_mod(q1 / 256, 256);
    assert(x / 65536 == q1 / 256) by {
        vstd::arithmetic::div_mod::lemma_div_denominator(x, 256, 256);
    }
    assert(x / 16777216 == (q1 / 256) / 256) by {
        vstd::arithmetic::div_mod::lemma_div_denominator(x, 65536, 256);
        vstd::arithmetic::div_mod::lemma_div_denominator(x, 256, 256);
    }
    assert(q1 < 16777216) by {
        assert(x < 256 * 16777216);
        vstd::arithmetic::div_mod::lemma_multiply_divide_lt(x, 256, 16777216);
    }
    assert((q1 / 256) / 256 < 256) by {
        assert(q1 < 65536 * 256);
        vstd::arithmetic::div_mod::lemma_multiply_divide_lt(q1, 256, 65536);
        vstd::arithmetic::div_mod::lemma_multiply_divide_lt(q1 / 256, 256, 256);
    }
    assert(((q1 / 256) / 256) % 256 == (q1 / 256) / 256) by {
        vstd::arithmetic::div_mod::lemma_small_mod(((q1 / 256) / 256) as nat, 256);
    }
}

/// Reading a little-endian 64-bit integer undoes writing one.
pub proof fn lemma_dec_enc_u64(p: Seq<u8>, x: u64, s: Seq<u8>)
    ensures
        dec_u64(p + enc_u64(x) + s, p.len() as int) == Option::Some(
            (x, p.len() as int + 8),
        ),
{
    reveal(enc_u64);
    reveal(dec_u64);
    let lo = (x % 4294967296) as u32;
    let hi = (x / 4294967296) as u32;
    lemma_enc_u32_len(lo);
    lemma_enc_u32_len(hi);
    let b = p + enc_u64(x) + s;
    assert(b =~= p + enc_u32(lo) + (enc_u32(hi) + s));
    lemma_dec_enc_u32(p, lo, enc_u32(hi) + s);
    assert(b =~= (p + enc_u32(lo)) + enc_u32(hi) + s);
    lemma_dec_enc_u32(p + enc_u32(lo), hi, s);
    vstd::arithmetic::div_mod::lemma_fundamental_div_mod(x as int, 4294967296);
}

/// Reading a length-prefixed byte string undoes writing one.
pub proof fn lemma_dec_enc_bytes(p: Seq<u8>, v: Seq<u8>, s: Seq<u8>)
    requires
        v.len() < 4294967296,
    ensures
        dec_bytes(p + enc_bytes(v) + s, p.len() as int) == Option::Some(
            (v, p.len() as int + 4 + v.len() as int),
        ),
{
    reveal(enc_bytes);
    reveal(dec_bytes);
    let n = v.len() as u32;
    lemma_enc_u32_len(n);
    let b = p + enc_bytes(v) + s;
    assert(b =~= p + enc_u32(n) + (v + s));
    lemma_dec_enc_u32(p, n, v + s);
    let j = p.len() + 4;
    assert(b.subrange(j as int, j + n as int) =~= v);
}

// ---------------------------------------------------------------------------
// Executable primitive readers and writers.
// ---------------------------------------------------------------------------

/// Appends the little-endian encoding of `x`.
pub fn put_u32(out: &mut Vec<u8>, x: u32)
    ensures
        final(out)@ == old(out)@ + enc_u32(x),
{
    proof {
        reveal(enc_u32);
    }
    out.push((x % 256) as u8);
    out.push(((x / 256) % 256) as u8);
    out.push(((x / 65536) % 256) as u8);
    out.push(((x / 16777216) % 256) as u8);
    proof {
        reveal(enc_u32);
        assert(final(out)@ =~= old(out)@ + enc_u32(x));
    }
}

/// Appends the little-endian encoding of `x`.
pub fn put_u64(out: &mut Vec<u8>, x: u64)
    ensures
        final(out)@ == old(out)@ + enc_u64(x),
{
    proof {
        reveal(enc_u64);
    }
    put_u32(out, (x % 4294967296) as u32);
    put_u32(out, (x / 4294967296) as u32);
    proof {
        reveal(enc_u64);
        assert(final(out)@ =~= old(out)@ + enc_u64(x));
    }
}

/// Appends a length-prefixed byte string.
pub fn put_bytes(out: &mut Vec<u8>, v: &Vec<u8>)
    requires
        v@.len() < 4294967296,
    ensures
        final(out)@ == old(out)@ + enc_bytes(v@),
{
    proof {
        reveal(enc_bytes);
    }
    put_u32(out, v.len() as u32);
    let mut i: usize = 0;
    while i < v.len()
        invariant
            i <= v@.len(),
            out@ == old(out)@ + enc_u32(v@.len() as u32) + v@.take(i as int),
        decreases v@.len() - i,
    {
        out.push(v[i]);
        proof {
            assert(out@ =~= old(out)@ + enc_u32(v@.len() as u32) + v@.take(i as int + 1));
        }
        i = i + 1;
    }
    proof {
        reveal(enc_bytes);
        assert(v@.take(v@.len() as int) =~= v@);
        assert(final(out)@ =~= old(out)@ + enc_bytes(v@));
    }
}

/// Reads a little-endian 32-bit integer at `i`.
pub fn get_u32(b: &[u8], i: usize) -> (r: Option<(u32, usize)>)
    ensures
        match r {
            Option::Some((x, j)) => dec_u32(b@, i as int) == Option::Some((x, j as int)),
            Option::None => dec_u32(b@, i as int) is None,
        },
{
    proof {
        reveal(dec_u32);
    }
    let n = b.len();
    if i < n && n - i >= 4 {
        let b0 = *vstd::slice::slice_index_get(b, i) as u32;
        let b1 = *vstd::slice::slice_index_get(b, i + 1) as u32;
        let b2 = *vstd::slice::slice_index_get(b, i + 2) as u32;
        let b3 = *vstd::slice::slice_index_get(b, i + 3) as u32;
        let x = b0 + 256 * b1 + 65536 * b2 + 16777216 * b3;
        Option::Some((x, i + 4))
    } else if i == n || (i < n && n - i < 4) {
        Option::None
    } else {
        Option::None
    }
}

/// Reads a little-endian 64-bit integer at `i`.
pub fn get_u64(b: &[u8], i: usize) -> (r: Option<(u64, usize)>)
    ensures
        match r {
            Option::Some((x, j)) => dec_u64(b@, i as int) == Option::Some((x, j as int)),
            Option::None => dec_u64(b@, i as int) is None,
        },
{
    proof {
        reveal(dec_u64);
    }
    match get_u32(b, i) {
        Option::Some((lo, j)) => match get_u32(b, j) {
            Option::Some((hi, k)) => {
                let x = (lo as u64) + 4294967296u64 * (hi as u64);
                Option::Some((x, k))
            },
            Option::None => Option::None,
        },
        Option::None => Option::None,
    }
}

/// Reads a length-prefixed byte string at `i`.
pub fn get_bytes(b: &[u8], i: usize) -> (r: Option<(Vec<u8>, usize)>)
    ensures
        match r {
            Option::Some((v, j)) => dec_bytes(b@, i as int) == Option::Some((v@, j as int)),
            Option::None => dec_bytes(b@, i as int) is None,
        },
{
    proof {
        reveal(dec_bytes);
    }
    match get_u32(b, i) {
        Option::Some((n, j)) => {
            let len = b.len();
            proof {
                reveal(dec_u32);
            }
            if j <= len && n as usize <= len - j {
                let end = j + n as usize;
                let mut v: Vec<u8> = Vec::new();
                let mut k: usize = j;
                while k < end
                    invariant
                        j <= k <= end,
                        end <= b@.len(),
                        v@ == b@.subrange(j as int, k as int),
                    decreases end - k,
                {
                    v.push(*vstd::slice::slice_index_get(b, k));
                    proof {
                        assert(v@ =~= b@.subrange(j as int, k as int + 1));
                    }
                    k = k + 1;
                }
                Option::Some((v, end))
            } else {
                Option::None
            }
        },
        Option::None => Option::None,
    }
}

// ---------------------------------------------------------------------------
// Structure encodings.
// ---------------------------------------------------------------------------

/// Size bound the length prefixes impose on a byte field.
pub open spec fn fits_len(n: nat) -> bool {
    n < 4294967296
}

/// Encoding of an outpoint.
pub open spec fn enc_outpoint(o: OutPointV) -> Seq<u8> {
    enc_bytes(o.txid) + enc_u32(o.vout)
}

/// Encoding of a transaction input.
pub open spec fn enc_txin(t: TxInV) -> Seq<u8> {
    enc_outpoint(t.prev_out) + enc_u32(t.sequence)
}

/// Encoding of a transaction output.
pub open spec fn enc_txout(t: TxOutV) -> Seq<u8> {
    enc_u64(t.value) + enc_bytes(t.script_pubkey)
}

/// Encoding of one PSBT input: a presence tag, then the spent output.
pub open spec fn enc_psbtin(p: PsbtInputV) -> Seq<u8> {
    match p.witness_utxo {
        Option::None => seq![0u8],
        Option::Some(o) => seq![1u8] + enc_txout(o),
    }
}

/// An outpoint whose txid the length prefix can carry.
pub open spec fn encodable_outpoint(o: OutPointV) -> bool {
    fits_len(o.txid.len())
}

/// An output whose script the length prefix can carry.
pub open spec fn encodable_txout(t: TxOutV) -> bool {
    fits_len(t.script_pubkey.len())
}

/// A PSBT input whose spent output, if any, is encodable.
pub open spec fn encodable_psbtin(p: PsbtInputV) -> bool {
    match p.witness_utxo {
        Option::None => true,
        Option::Some(o) => encodable_txout(o),
    }
}

/// Decodes an outpoint at `i`.
pub open spec fn dec_outpoint(b: Seq<u8>, i: int) -> Option<(OutPointV, int)> {
    match dec_bytes(b, i) {
        Option::Some((txid, j)) => match dec_u32(b, j) {
            Option::Some((vout, k)) => Option::Some((OutPointV { txid, vout }, k)),
            Option::None => Option::None,
        },
        Option::None => Option::None,
    }
}

/// Decodes a transaction input at `i`.
pub open spec fn dec_txin(b: Seq<u8>, i: int) -> Option<(TxInV, int)> {
    match dec_outpoint(b, i) {
        Option::Some((prev_out, j)) => match dec_u32(b, j) {
            Option::Some((sequence, k)) => Option::Some((TxInV { prev_out, sequence }, k)),
            Option::None => Option::None,
        },
        Option::None => Option::None,
    }
}

/// Decodes a transaction output at `i`.
pub open spec fn dec_txout(b: Seq<u8>, i: int) -> Option<(TxOutV, int)> {
    match dec_u64(b, i) {
        Option::Some((value, j)) => match dec_bytes(b, j) {
            Option::Some((script_pubkey, k)) => Option::Some(
                (TxOutV { value, script_pubkey }, k),
            ),
            Option::None => Option::None,
        },
        Option::None => Option::None,
    }
}

/// Decodes one PSBT input at `i`.
pub open spec fn dec_psbtin(b: Seq<u8>, i: int) -> Option<(PsbtInputV, int)> {
    if 0 <= i && i + 1 <= b.len() {
        if b[i] == 0u8 {
            Option::Some((PsbtInputV { witness_utxo: Option::None }, i + 1))
        } else if b[i] == 1u8 {
            match dec_txout(b, i + 1) {
                Option::Some((o, j)) => Option::Some(
                    (PsbtInputV { witness_utxo: Option::Some(o) }, j),
                ),
                Option::None => Option::None,
            }
        } else {
            Option::None
        }
    } else {
        Option::None
    }
}

/// Reading an outpoint undoes writing one.
#[verifier::rlimit(60)]
pub proof fn lemma_dec_enc_outpoint(p: Seq<u8>, o: OutPointV, s: Seq<u8>)
    requires
        encodable_outpoint(o),
    ensures
        dec_outpoint(p + enc_outpoint(o) + s, p.len() as int) == Option::Some(
            (o, p.len() as int + enc_outpoint(o).len() as int),
        ),
{
    broadcast use lemma_enc_u32_len, lemma_enc_u64_len, lemma_enc_bytes_len;
    let b = p + enc_outpoint(o) + s;
    assert(b =~= p + enc_bytes(o.txid) + (enc_u32(o.vout) + s));
    lemma_dec_enc_bytes(p, o.txid, enc_u32(o.vout) + s);
    assert(b =~= (p + enc_bytes(o.txid)) + enc_u32(o.vout) + s);
    lemma_dec_enc_u32(p + enc_bytes(o.txid), o.vout, s);
}

/// Reading a transaction input undoes writing one.
pub proof fn lemma_dec_enc_txin(p: Seq<u8>, t: TxInV, s: Seq<u8>)
    requires
        encodable_outpoint(t.prev_out),
    ensures
        dec_txin(p + enc_txin(t) + s, p.len() as int) == Option::Some(
            (t, p.len() as int + enc_txin(t).len() as int),
        ),
{
    broadcast use lemma_enc_u32_len, lemma_enc_u64_len, lemma_enc_bytes_len;
    let b = p + enc_txin(t) + s;
    assert(b =~= p + enc_outpoint(t.prev_out) + (enc_u32(t.sequence) + s));
    lemma_dec_enc_outpoint(p, t.prev_out, enc_u32(t.sequence) + s);
    assert(b =~= (p + enc_outpoint(t.prev_out)) + enc_u32(t.sequence) + s);
    lemma_dec_enc_u32(p + enc_outpoint(t.prev_out), t.sequence, s);
}

/// Reading a transaction output undoes writing one.
pub proof fn lemma_dec_enc_txout(p: Seq<u8>, t: TxOutV, s: Seq<u8>)
    requires
        encodable_txout(t),
    ensures
        dec_txout(p + enc_txout(t) + s, p.len() as int) == Option::Some(
            (t, p.len() as int + enc_txout(t).len() as int),
        ),
{
    broadcast use lemma_enc_u32_len, lemma_enc_u64_len, lemma_enc_bytes_len;
    let b = p + enc_txout(t) + s;
    assert(b =~= p + enc_u64(t.value) + (enc_bytes(t.script_pubkey) + s));
    lemma_dec_enc_u64(p, t.value, enc_bytes(t.script_pubkey) + s);
    assert(b =~= (p + enc_u64(t.value)) + enc_bytes(t.script_pubkey) + s);
    lemma_dec_enc_bytes(p + enc_u64(t.value), t.script_pubkey, s);
}

/// Encoding of a boolean: one tag byte.
pub open spec fn enc_bool(x: bool) -> Seq<u8> {
    if x {
        seq![1u8]
    } else {
        seq![0u8]
    }
}

/// Decodes a boolean at `i`; only the two canonical tag bytes are accepted.
pub open spec fn dec_bool(b: Seq<u8>, i: int) -> Option<(bool, int)> {
    if 0 <= i && i + 1 <= b.len() {
        if b[i] == 0u8 {
            Option::Some((false, i + 1))
        } else if b[i] == 1u8 {
            Option::Some((true, i + 1))
        } else {
            Option::None
        }
    } else {
        Option::None
    }
}

/// Reading a boolean undoes writing one.
pub proof fn lemma_dec_enc_bool(p: Seq<u8>, x: bool, s: Seq<u8>)
    ensures
        dec_bool(p + enc_bool(x) + s, p.len() as int) == Option::Some(
            (x, p.len() as int + 1),
        ),
{
    let b = p + enc_bool(x) + s;
    assert(b[p.len() as int] == enc_bool(x)[0]);
}

/// Reading a PSBT input undoes writing one.
pub proof fn lemma_dec_enc_psbtin(p: Seq<u8>, t: PsbtInputV, s: Seq<u8>)
    requires
        encodable_psbtin(t),
    ensures
        dec_psbtin(p + enc_psbtin(t) + s, p.len() as int) == Option::Some(
            (t, p.len() as int + enc_psbtin(t).len() as int),
        ),
{
    broadcast use lemma_enc_u32_len, lemma_enc_u64_len, lemma_enc_bytes_len;
    let b = p + enc_psbtin(t) + s;
    let i = p.len() as int;
    match t.witness_utxo {
        Option::None => {
            assert(b[i] == 0u8);
        },
        Option::Some(o) => {
            assert(b[i] == 1u8);
            assert(b =~= (p + seq![1u8]) + enc_txout(o) + s);
            lemma_dec_enc_txout(p + seq![1u8], o, s);
            assert(PsbtInputV { witness_utxo: Option::Some(o) } =~= t);
        },
    }
}

// ---------------------------------------------------------------------------
// Lists.
// ---------------------------------------------------------------------------

/// Concatenated encodings of a list of inputs.
pub open spec fn enc_txin_items(s: Seq<TxInV>) -> Seq<u8>
    decreases s.len(),
{
    if s.len() == 0 {
        Seq::empty()
    } else {
        enc_txin(s[0]) + enc_txin_items(s.drop_first())
    }
}

/// Encoding of an input list: its length, then the items.
pub open spec fn enc_txins(s: Seq<TxInV>) -> Seq<u8> {
    enc_u32(s.len() as u32) + enc_txin_items(s)
}

/// Decodes `n` inputs at `i`.
pub open spec fn dec_txin_items(b: Seq<u8>, i: int, n: int) -> Option<(Seq<TxInV>, int)>
    decreases n,
{
    if n <= 0 {
        Option::Some((Seq::empty(), i))
    } else {
        match dec_txin(b, i) {
            Option::Some((v, j)) => match dec_txin_items(b, j, n - 1) {
                Option::Some((vs, k)) => Option::Some((seq![v] + vs, k)),
                Option::None => Option::None,
            },
            Option::None => Option::None,
        }
    }
}

/// Decodes a length-prefixed input list at `i`.
pub open spec fn dec_txins(b: Seq<u8>, i: int) -> Option<(Seq<TxInV>, int)> {
    match dec_u32(b, i) {
        Option::Some((n, j)) => dec_txin_items(b, j, n as int),
        Option::None => Option::None,
    }
}

/// Concatenated encodings of a list of outputs.
pub open spec fn enc_txout_items(s: Seq<TxOutV>) -> Seq<u8>
    decreases s.len(),
{
    if s.len() == 0 {
        Seq::empty()
    } else {
        enc_txout(s[0]) + enc_txout_items(s.drop_first())
    }
}

/// Encoding of an output list: its length, then the items.
pub open spec fn enc_txouts(s: Seq<TxOutV>) -> Seq<u8> {
    enc_u32(s.len() as u32) + enc_txout_items(s)
}

/// Decodes `n` outputs at `i`.
pub open spec fn dec_txout_items(b: Seq<u8>, i: int, n: int) -> Option<(Seq<TxOutV>, int)>
    decreases n,
{
    if n <= 0 {
        Option::Some((Seq::empty(), i))
    } else {
        match dec_txout(b, i) {
            Option::Some((v, j)) => match dec_txout_items(b, j, n - 1) {
                Option::Some((vs, k)) => Option::Some((seq![v] + vs, k)),
                Option::None => Option::None,
            },
            Option::None => Option::None,
        }
    }
}

/// Decodes a length-prefixed output list at `i`.
pub open spec fn dec_txouts(b: Seq<u8>, i: int) -> Option<(Seq<TxOutV>, int)> {
    match dec_u32(b, i) {
        Option::Some((n, j)) => dec_txout_items(b, j, n as int),
        Option::None => Option::None,
    }
}

/// Concatenated encodings of a list of PSBT inputs. The list carries no
/// length of its own: a PSBT has exactly one entry per transaction input.
pub open spec fn enc_psbtin_items(s: Seq<PsbtInputV>) -> Seq<u8>
    decreases s.len(),
{
    if s.len() == 0 {
        Seq::empty()
    } else {
        enc_psbtin(s[0]) + enc_psbtin_items(s.drop_first())
    }
}

/// Decodes `n` PSBT inputs at `i`.
pub open spec fn dec_psbtin_items(b: Seq<u8>, i: int, n: int) -> Option<(Seq<PsbtInputV>, int)>
    decreases n,
{
    if n <= 0 {
        Option::Some((Seq::empty(), i))
    } else {
        match dec_psbtin(b, i) {
            Option::Some((v, j)) => match dec_psbtin_items(b, j, n - 1) {
                Option::Some((vs, k)) => Option::Some((seq![v] + vs, k)),
                Option::None => Option::None,
            },
            Option::None => Option::None,
        }
    }
}

/// An encodable input list.
pub open spec fn encodable_txins(s: Seq<TxInV>) -> bool {
    fits_len(s.len()) && (forall|i: int| 0 <= i < s.len() ==> encodable_outpoint(
        (#[trigger] s[i]).prev_out,
    ))
}

/// An encodable output list.
pub open spec fn encodable_txouts(s: Seq<TxOutV>) -> bool {
    fits_len(s.len()) && (forall|i: int| 0 <= i < s.len() ==> encodable_txout(#[trigger] s[i]))
}

/// An encodable PSBT input list.
pub open spec fn encodable_psbtins(s: Seq<PsbtInputV>) -> bool {
    forall|i: int| 0 <= i < s.len() ==> encodable_psbtin(#[trigger] s[i])
}

/// Reading `n` inputs undoes writing them.
pub proof fn lemma_dec_enc_txin_items(p: Seq<u8>, items: Seq<TxInV>, s: Seq<u8>)
    requires
        forall|i: int| 0 <= i < items.len() ==> encodable_outpoint(
            (#[trigger] items[i]).prev_out,
        ),
    ensures
        dec_txin_items(p + enc_txin_items(items) + s, p.len() as int, items.len() as int)
            == Option::Some((items, p.len() as int + enc_txin_items(items).len() as int)),
    decreases items.len(),
{
    let b = p + enc_txin_items(items) + s;
    if items.len() == 0 {
        assert(b =~= p + s);
        assert(items =~= Seq::<TxInV>::empty());
    } else {
        let rest = items.drop_first();
        assert(b =~= p + enc_txin(items[0]) + (enc_txin_items(rest) + s));
        lemma_dec_enc_txin(p, items[0], enc_txin_items(rest) + s);
        let p2 = p + enc_txin(items[0]);
        assert(b =~= p2 + enc_txin_items(rest) + s);
        lemma_dec_enc_txin_items(p2, rest, s);
        assert(seq![items[0]] + rest =~= items);
    }
}

/// Reading `n` outputs undoes writing them.
pub proof fn lemma_dec_enc_txout_items(p: Seq<u8>, items: Seq<TxOutV>, s: Seq<u8>)
    requires
        forall|i: int| 0 <= i < items.len() ==> encodable_txout(#[trigger] items[i]),
    ensures
        dec_txout_items(p + enc_txout_items(items) + s, p.len() as int, items.len() as int)
            == Option::Some((items, p.len() as int + enc_txout_items(items).len() as int)),
    decreases items.len(),
{
    let b = p + enc_txout_items(items) + s;
    if items.len() == 0 {
        assert(b =~= p + s);
        assert(items =~= Seq::<TxOutV>::empty());
    } else {
        let rest = items.drop_first();
        assert(b =~= p + enc_txout(items[0]) + (enc_txout_items(rest) + s));
        lemma_dec_enc_txout(p, items[0], enc_txout_items(rest) + s);
        let p2 = p + enc_txout(items[0]);
        assert(b =~= p2 + enc_txout_items(rest) + s);
        lemma_dec_enc_txout_items(p2, rest, s);
        assert(seq![items[0]] + rest =~= items);
    }
}

/// Reading `n` PSBT inputs undoes writing them.
pub proof fn lemma_dec_enc_psbtin_items(p: Seq<u8>, items: Seq<PsbtInputV>, s: Seq<u8>)
    requires
        encodable_psbtins(items),
    ensures
        dec_psbtin_items(p + enc_psbtin_items(items) + s, p.len() as int, items.len() as int)
            == Option::Some((items, p.len() as int + enc_psbtin_items(items).len() as int)),
    decreases items.len(),
{
    let b = p + enc_psbtin_items(items) + s;
    if items.len() == 0 {
        assert(b =~= p + s);
        assert(items =~= Seq::<PsbtInputV>::empty());
    } else {
        let rest = items.drop_first();
        assert(b =~= p + enc_psbtin(items[0]) + (enc_psbtin_items(rest) + s));
        lemma_dec_enc_psbtin(p, items[0], enc_psbtin_items(rest) + s);
        let p2 = p + enc_psbtin(items[0]);
        assert(b =~= p2 + enc_psbtin_items(rest) + s);
        lemma_dec_enc_psbtin_items(p2, rest, s);
        assert(seq![items[0]] + rest =~= items);
    }
}

/// Reading a length-prefixed input list undoes writing one.
pub proof fn lemma_dec_enc_txins(p: Seq<u8>, items: Seq<TxInV>, s: Seq<u8>)
    requires
        encodable_txins(items),
    ensures
        dec_txins(p + enc_txins(items) + s, p.len() as int) == Option::Some(
            (items, p.len() as int + enc_txins(items).len() as int),
        ),
{
    broadcast use lemma_enc_u32_len;

    let b = p + enc_txins(items) + s;
    let n = items.len() as u32;
    assert(b =~= p + enc_u32(n) + (enc_txin_items(items) + s));
    lemma_dec_enc_u32(p, n, enc_txin_items(items) + s);
    let p2 = p + enc_u32(n);
    assert(b =~= p2 + enc_txin_items(items) + s);
    lemma_dec_enc_txin_items(p2, items, s);
}

/// Reading a length-prefixed output list undoes writing one.
pub proof fn lemma_dec_enc_txouts(p: Seq<u8>, items: Seq<TxOutV>, s: Seq<u8>)
    requires
        encodable_txouts(items),
    ensures
        dec_txouts(p + enc_txouts(items) + s, p.len() as int) == Option::Some(
            (items, p.len() as int + enc_txouts(items).len() as int),
        ),
{
    broadcast use lemma_enc_u32_len;

    let b = p + enc_txouts(items) + s;
    let n = items.len() as u32;
    assert(b =~= p + enc_u32(n) + (enc_txout_items(items) + s));
    lemma_dec_enc_u32(p, n, enc_txout_items(items) + s);
    let p2 = p + enc_u32(n);
    assert(b =~= p2 + enc_txout_items(items) + s);
    lemma_dec_enc_txout_items(p2, items, s);
}

// ---------------------------------------------------------------------------
// Transactions, PSBTs, parameters and proposals.
// ---------------------------------------------------------------------------

/// Encoding of a transaction.
pub open spec fn enc_tx(t: TransactionV) -> Seq<u8> {
    enc_u32(t.version) + enc_u32(t.lock_time) + enc_txins(t.inputs) + enc_txouts(t.outputs)
}

/// Decodes a transaction at `i`.
pub open spec fn dec_tx(b: Seq<u8>, i: int) -> Option<(TransactionV, int)> {
    match dec_u32(b, i) {
        Option::Some((version, j1)) => match dec_u32(b, j1) {
            Option::Some((lock_time, j2)) => match dec_txins(b, j2) {
                Option::Some((inputs, j3)) => match dec_txouts(b, j3) {
                    Option::Some((outputs, j4)) => Option::Some(
                        (TransactionV { version, lock_time, inputs, outputs }, j4),
                    ),
                    Option::None => Option::None,
                },
                Option::None => Option::None,
            },
            Option::None => Option::None,
        },
        Option::None => Option::None,
    }
}

/// An encodable transaction.
pub open spec fn encodable_tx(t: TransactionV) -> bool {
    encodable_txins(t.inputs) && encodable_txouts(t.outputs)
}

/// Reading a transaction undoes writing one.
pub proof fn lemma_dec_enc_tx(p: Seq<u8>, t: TransactionV, s: Seq<u8>)
    requires
        encodable_tx(t),
    ensures
        dec_tx(p + enc_tx(t) + s, p.len() as int) == Option::Some(
            (t, p.len() as int + enc_tx(t).len() as int),
        ),
{
    broadcast use lemma_enc_u32_len;

    let b = p + enc_tx(t) + s;
    assert(b =~= p + enc_u32(t.version) + (enc_u32(t.lock_time) + enc_txins(t.inputs)
        + enc_txouts(t.outputs) + s));
    lemma_dec_enc_u32(
        p,
        t.version,
        enc_u32(t.lock_time) + enc_txins(t.inputs) + enc_txouts(t.outputs) + s,
    );
    let p2 = p + enc_u32(t.version);
    assert(b =~= p2 + enc_u32(t.lock_time) + (enc_txins(t.inputs) + enc_txouts(t.outputs) + s));
    lemma_dec_enc_u32(p2, t.lock_time, enc_txins(t.inputs) + enc_txouts(t.outputs) + s);
    let p3 = p2 + enc_u32(t.lock_time);
    assert(b =~= p3 + enc_txins(t.inputs) + (enc_txouts(t.outputs) + s));
    lemma_dec_enc_txins(p3, t.inputs, enc_txouts(t.outputs) + s);
    let p4 = p3 + enc_txins(t.inputs);
    assert(b =~= p4 + enc_txouts(t.outputs) + s);
    lemma_dec_enc_txouts(p4, t.outputs, s);
    assert(TransactionV {
        version: t.version,
        lock_time: t.lock_time,
        inputs: t.inputs,
        outputs: t.outputs,
    } =~= t);
}

/// Encoding of a PSBT: the unsigned transaction, then one metadata entry
/// per transaction input.
pub open spec fn enc_psbt(p: PsbtV) -> Seq<u8> {
    enc_tx(p.tx) + enc_psbtin_items(p.inputs)
}

/// Decodes a PSBT at `i`. The metadata count is the transaction's input
/// count, so a decoded PSBT is well formed by construction.
pub open spec fn dec_psbt(b: Seq<u8>, i: int) -> Option<(PsbtV, int)> {
    match dec_tx(b, i) {
        Option::Some((tx, j)) => match dec_psbtin_items(b, j, tx.inputs.len() as int) {
            Option::Some((inputs, k)) => Option::Some((PsbtV { tx, inputs }, k)),
            Option::None => Option::None,
        },
        Option::None => Option::None,
    }
}

/// An encodable PSBT.
pub open spec fn encodable_psbt(p: PsbtV) -> bool {
    p.wf() && encodable_tx(p.tx) && encodable_psbtins(p.inputs)
}

/// Reading a PSBT undoes writing one.
pub proof fn lemma_dec_enc_psbt(p: Seq<u8>, t: PsbtV, s: Seq<u8>)
    requires
        encodable_psbt(t),
    ensures
        dec_psbt(p + enc_psbt(t) + s, p.len() as int) == Option::Some(
            (t, p.len() as int + enc_psbt(t).len() as int),
        ),
{
    let b = p + enc_psbt(t) + s;
    assert(b =~= p + enc_tx(t.tx) + (enc_psbtin_items(t.inputs) + s));
    lemma_dec_enc_tx(p, t.tx, enc_psbtin_items(t.inputs) + s);
    let p2 = p + enc_tx(t.tx);
    assert(b =~= p2 + enc_psbtin_items(t.inputs) + s);
    lemma_dec_enc_psbtin_items(p2, t.inputs, s);
    assert(PsbtV { tx: t.tx, inputs: t.inputs } =~= t);
}

/// Encoding of the sender's declared parameters.
pub open spec fn enc_params(x: ProposalParams) -> Seq<u8> {
    enc_u64(x.max_additional_fee_contribution) + enc_bool(x.has_fee_output) + enc_u32(
        x.additional_fee_output_index,
    ) + enc_u64(x.min_fee_rate_sat_per_vb) + enc_bool(x.output_substitution_allowed)
}

/// Decodes the sender's declared parameters at `i`.
pub open spec fn dec_params(b: Seq<u8>, i: int) -> Option<(ProposalParams, int)> {
    match dec_u64(b, i) {
        Option::Some((max_fee, j1)) => match dec_bool(b, j1) {
            Option::Some((has_fee_output, j2)) => match dec_u32(b, j2) {
                Option::Some((index, j3)) => match dec_u64(b, j3) {
                    Option::Some((min_rate, j4)) => match dec_bool(b, j4) {
                        Option::Some((subst, j5)) => Option::Some(
                            (
                                ProposalParams {
                                    max_additional_fee_contribution: max_fee,
                                    additional_fee_output_index: index,
                                    has_fee_output,
                                    min_fee_rate_sat_per_vb: min_rate,
                                    output_substitution_allowed: subst,
                                },
                                j5,
                            ),
                        ),
                        Option::None => Option::None,
                    },
                    Option::None => Option::None,
                },
                Option::None => Option::None,
            },
            Option::None => Option::None,
        },
        Option::None => Option::None,
    }
}

/// Reading the parameters undoes writing them.
pub proof fn lemma_dec_enc_params(p: Seq<u8>, x: ProposalParams, s: Seq<u8>)
    ensures
        dec_params(p + enc_params(x) + s, p.len() as int) == Option::Some(
            (x, p.len() as int + enc_params(x).len() as int),
        ),
{
    broadcast use lemma_enc_u32_len, lemma_enc_u64_len;

    let b = p + enc_params(x) + s;
    let e1 = enc_u64(x.max_additional_fee_contribution);
    let e2 = enc_bool(x.has_fee_output);
    let e3 = enc_u32(x.additional_fee_output_index);
    let e4 = enc_u64(x.min_fee_rate_sat_per_vb);
    let e5 = enc_bool(x.output_substitution_allowed);
    assert(b =~= p + e1 + (e2 + e3 + e4 + e5 + s));
    lemma_dec_enc_u64(p, x.max_additional_fee_contribution, e2 + e3 + e4 + e5 + s);
    let p2 = p + e1;
    assert(b =~= p2 + e2 + (e3 + e4 + e5 + s));
    lemma_dec_enc_bool(p2, x.has_fee_output, e3 + e4 + e5 + s);
    let p3 = p2 + e2;
    assert(b =~= p3 + e3 + (e4 + e5 + s));
    lemma_dec_enc_u32(p3, x.additional_fee_output_index, e4 + e5 + s);
    let p4 = p3 + e3;
    assert(b =~= p4 + e4 + (e5 + s));
    lemma_dec_enc_u64(p4, x.min_fee_rate_sat_per_vb, e5 + s);
    let p5 = p4 + e4;
    assert(b =~= p5 + e5 + s);
    lemma_dec_enc_bool(p5, x.output_substitution_allowed, s);
}

/// Encoding of a full proposal.
pub open spec fn enc_proposal(x: ProposalV) -> Seq<u8> {
    enc_psbt(x.psbt) + enc_params(x.params)
}

/// Decodes a full proposal at `i`.
pub open spec fn dec_proposal(b: Seq<u8>, i: int) -> Option<(ProposalV, int)> {
    match dec_psbt(b, i) {
        Option::Some((psbt, j)) => match dec_params(b, j) {
            Option::Some((params, k)) => Option::Some((ProposalV { psbt, params }, k)),
            Option::None => Option::None,
        },
        Option::None => Option::None,
    }
}

/// An encodable proposal.
pub open spec fn encodable_proposal(x: ProposalV) -> bool {
    encodable_psbt(x.psbt)
}

/// Reading a proposal undoes writing one.
pub proof fn lemma_dec_enc_proposal(p: Seq<u8>, x: ProposalV, s: Seq<u8>)
    requires
        encodable_proposal(x),
    ensures
        dec_proposal(p + enc_proposal(x) + s, p.len() as int) == Option::Some(
            (x, p.len() as int + enc_proposal(x).len() as int),
        ),
{
    let b = p + enc_proposal(x) + s;
    assert(b =~= p + enc_psbt(x.psbt) + (enc_params(x.params) + s));
    lemma_dec_enc_psbt(p, x.psbt, enc_params(x.params) + s);
    let p2 = p + enc_psbt(x.psbt);
    assert(b =~= p2 + enc_params(x.params) + s);
    lemma_dec_enc_params(p2, x.params, s);
    assert(ProposalV { psbt: x.psbt, params: x.params } =~= x);
}

// ---------------------------------------------------------------------------
// Executable structure writers.
// ---------------------------------------------------------------------------

/// Writing an input list item by item appends the items' encodings.
pub proof fn lemma_enc_txin_items_snoc(s: Seq<TxInV>, v: TxInV)
    ensures
        enc_txin_items(s.push(v)) == enc_txin_items(s) + enc_txin(v),
    decreases s.len(),
{
    if s.len() == 0 {
        reveal_with_fuel(enc_txin_items, 2);
        assert(s.push(v).drop_first() =~= Seq::<TxInV>::empty());
        assert(s.push(v)[s.len() as int] == v);
        assert(enc_txin_items(s.push(v)) =~= enc_txin_items(s) + enc_txin(v));
    } else {
        assert(s.push(v).drop_first() =~= s.drop_first().push(v));
        lemma_enc_txin_items_snoc(s.drop_first(), v);
        assert(enc_txin_items(s.push(v)) =~= enc_txin_items(s) + enc_txin(v));
    }
}

/// Writing an output list item by item appends the items' encodings.
pub proof fn lemma_enc_txout_items_snoc(s: Seq<TxOutV>, v: TxOutV)
    ensures
        enc_txout_items(s.push(v)) == enc_txout_items(s) + enc_txout(v),
    decreases s.len(),
{
    if s.len() == 0 {
        reveal_with_fuel(enc_txout_items, 2);
        assert(s.push(v).drop_first() =~= Seq::<TxOutV>::empty());
        assert(s.push(v)[s.len() as int] == v);
        assert(enc_txout_items(s.push(v)) =~= enc_txout_items(s) + enc_txout(v));
    } else {
        assert(s.push(v).drop_first() =~= s.drop_first().push(v));
        lemma_enc_txout_items_snoc(s.drop_first(), v);
        assert(enc_txout_items(s.push(v)) =~= enc_txout_items(s) + enc_txout(v));
    }
}

/// Writing a PSBT input list item by item appends the items' encodings.
pub proof fn lemma_enc_psbtin_items_snoc(s: Seq<PsbtInputV>, v: PsbtInputV)
    ensures
        enc_psbtin_items(s.push(v)) == enc_psbtin_items(s) + enc_psbtin(v),
    decreases s.len(),
{
    if s.len() == 0 {
        reveal_with_fuel(enc_psbtin_items, 2);
        assert(s.push(v).drop_first() =~= Seq::<PsbtInputV>::empty());
        assert(s.push(v)[s.len() as int] == v);
        assert(enc_psbtin_items(s.push(v)) =~= enc_psbtin_items(s) + enc_psbtin(v));
    } else {
        assert(s.push(v).drop_first() =~= s.drop_first().push(v));
        lemma_enc_psbtin_items_snoc(s.drop_first(), v);
        assert(enc_psbtin_items(s.push(v)) =~= enc_psbtin_items(s) + enc_psbtin(v));
    }
}

/// Appends the encoding of a boolean.
pub fn put_bool(out: &mut Vec<u8>, x: bool)
    ensures
        final(out)@ == old(out)@ + enc_bool(x),
{
    if x {
        out.push(1u8);
    } else {
        out.push(0u8);
    }
    proof {
        assert(final(out)@ =~= old(out)@ + enc_bool(x));
    }
}

/// Appends the encoding of an outpoint.
pub fn put_outpoint(out: &mut Vec<u8>, x: &OutPoint)
    requires
        encodable_outpoint(x@),
    ensures
        final(out)@ == old(out)@ + enc_outpoint(x@),
{
    put_bytes(out, &x.txid);
    put_u32(out, x.vout);
    proof {
        assert(final(out)@ =~= old(out)@ + enc_outpoint(x@));
    }
}

/// Appends the encoding of a transaction input.
pub fn put_txin(out: &mut Vec<u8>, x: &TxIn)
    requires
        encodable_outpoint(x@.prev_out),
    ensures
        final(out)@ == old(out)@ + enc_txin(x@),
{
    put_outpoint(out, &x.prev_out);
    put_u32(out, x.sequence);
    proof {
        assert(final(out)@ =~= old(out)@ + enc_txin(x@));
    }
}

/// Appends the encoding of a transaction output.
pub fn put_txout(out: &mut Vec<u8>, x: &TxOut)
    requires
        encodable_txout(x@),
    ensures
        final(out)@ == old(out)@ + enc_txout(x@),
{
    put_u64(out, x.value);
    put_bytes(out, &x.script_pubkey);
    proof {
        assert(final(out)@ =~= old(out)@ + enc_txout(x@));
    }
}

/// Appends the encoding of one PSBT input.
pub fn put_psbtin(out: &mut Vec<u8>, x: &PsbtInput)
    requires
        encodable_psbtin(x@),
    ensures
        final(out)@ == old(out)@ + enc_psbtin(x@),
{
    match &x.witness_utxo {
        Option::None => {
            out.push(0u8);
        },
        Option::Some(o) => {
            out.push(1u8);
            put_txout(out, o);
        },
    }
    proof {
        assert(final(out)@ =~= old(out)@ + enc_psbtin(x@));
    }
}

/// Appends the encoding of an input list.
pub fn put_txins(out: &mut Vec<u8>, xs: &Vec<TxIn>)
    requires
        encodable_txins(txins_view(xs@)),
    ensures
        final(out)@ == old(out)@ + enc_txins(txins_view(xs@)),
{
    let ghost vs = txins_view(xs@);
    put_u32(out, xs.len() as u32);
    let mut i: usize = 0;
    while i < xs.len()
        invariant
            i <= xs@.len(),
            vs == txins_view(xs@),
            vs.len() == xs@.len(),
            encodable_txins(vs),
            out@ == old(out)@ + enc_u32(vs.len() as u32) + enc_txin_items(vs.take(i as int)),
        decreases xs@.len() - i,
    {
        proof {
            lemma_enc_txin_items_snoc(vs.take(i as int), vs[i as int]);
            assert(vs.take(i as int).push(vs[i as int]) =~= vs.take(i as int + 1));
        }
        put_txin(out, &xs[i]);
        proof {
            assert(out@ =~= old(out)@ + enc_u32(vs.len() as u32) + enc_txin_items(
                vs.take(i as int + 1)));
        }
        i = i + 1;
    }
    proof {
        assert(vs.take(vs.len() as int) =~= vs);
        assert(final(out)@ =~= old(out)@ + enc_txins(vs));
    }
}

/// Appends the encoding of an output list.
pub fn put_txouts(out: &mut Vec<u8>, xs: &Vec<TxOut>)
    requires
        encodable_txouts(txouts_view(xs@)),
    ensures
        final(out)@ == old(out)@ + enc_txouts(txouts_view(xs@)),
{
    let ghost vs = txouts_view(xs@);
    put_u32(out, xs.len() as u32);
    let mut i: usize = 0;
    while i < xs.len()
        invariant
            i <= xs@.len(),
            vs == txouts_view(xs@),
            vs.len() == xs@.len(),
            encodable_txouts(vs),
            out@ == old(out)@ + enc_u32(vs.len() as u32) + enc_txout_items(vs.take(i as int)),
        decreases xs@.len() - i,
    {
        proof {
            lemma_enc_txout_items_snoc(vs.take(i as int), vs[i as int]);
            assert(vs.take(i as int).push(vs[i as int]) =~= vs.take(i as int + 1));
        }
        put_txout(out, &xs[i]);
        proof {
            assert(out@ =~= old(out)@ + enc_u32(vs.len() as u32) + enc_txout_items(
                vs.take(i as int + 1)));
        }
        i = i + 1;
    }
    proof {
        assert(vs.take(vs.len() as int) =~= vs);
        assert(final(out)@ =~= old(out)@ + enc_txouts(vs));
    }
}

/// Appends the encodings of a PSBT input list, without a count.
pub fn put_psbtin_items(out: &mut Vec<u8>, xs: &Vec<PsbtInput>)
    requires
        encodable_psbtins(psbtins_view(xs@)),
    ensures
        final(out)@ == old(out)@ + enc_psbtin_items(psbtins_view(xs@)),
{
    let ghost vs = psbtins_view(xs@);
    let mut i: usize = 0;
    while i < xs.len()
        invariant
            i <= xs@.len(),
            vs == psbtins_view(xs@),
            vs.len() == xs@.len(),
            encodable_psbtins(vs),
            out@ == old(out)@ + enc_psbtin_items(vs.take(i as int)),
        decreases xs@.len() - i,
    {
        proof {
            lemma_enc_psbtin_items_snoc(vs.take(i as int), vs[i as int]);
            assert(vs.take(i as int).push(vs[i as int]) =~= vs.take(i as int + 1));
        }
        put_psbtin(out, &xs[i]);
        proof {
            assert(out@ =~= old(out)@ + enc_psbtin_items(vs.take(i as int + 1)));
        }
        i = i + 1;
    }
    proof {
        assert(vs.take(vs.len() as int) =~= vs);
    }
}

/// Appends the encoding of a transaction.
pub fn put_tx(out: &mut Vec<u8>, x: &Transaction)
    requires
        encodable_tx(x@),
    ensures
        final(out)@ == old(out)@ + enc_tx(x@),
{
    put_u32(out, x.version);
    put_u32(out, x.lock_time);
    put_txins(out, &x.inputs);
    put_txouts(out, &x.outputs);
    proof {
        assert(final(out)@ =~= old(out)@ + enc_tx(x@));
    }
}

/// Appends the encoding of a PSBT.
pub fn put_psbt(out: &mut Vec<u8>, x: &Psbt)
    requires
        encodable_psbt(x@),
    ensures
        final(out)@ == old(out)@ + enc_psbt(x@),
{
    put_tx(out, &x.tx);
    put_psbtin_items(out, &x.inputs);
    proof {
        assert(final(out)@ =~= old(out)@ + enc_psbt(x@));
    }
}

/// Appends the encoding of the sender's declared parameters.
pub fn put_params(out: &mut Vec<u8>, x: &ProposalParams)
    ensures
        final(out)@ == old(out)@ + enc_params(*x),
{
    put_u64(out, x.max_additional_fee_contribution);
    put_bool(out, x.has_fee_output);
    put_u32(out, x.additional_fee_output_index);
    put_u64(out, x.min_fee_rate_sat_per_vb);
    put_bool(out, x.output_substitution_allowed);
    proof {
        assert(final(out)@ =~= old(out)@ + enc_params(*x));
    }
}

/// Appends the encoding of a full proposal.
pub fn put_proposal(out: &mut Vec<u8>, x: &Proposal)
    requires
        encodable_proposal(x@),
    ensures
        final(out)@ == old(out)@ + enc_proposal(x@),
{
    put_psbt(out, &x.psbt);
    put_params(out, &x.params);
    proof {
        assert(final(out)@ =~= old(out)@ + enc_proposal(x@));
    }
}

// ---------------------------------------------------------------------------
// Executable structure readers.
// ---------------------------------------------------------------------------

/// Reads a boolean at `i`.
pub fn get_bool(b: &[u8], i: usize) -> (r: Option<(bool, usize)>)
    ensures
        match r {
            Option::Some((x, j)) => dec_bool(b@, i as int) == Option::Some((x, j as int)),
            Option::None => dec_bool(b@, i as int) is None,
        },
{
    if i < b.len() {
        let t = *vstd::slice::slice_index_get(b, i);
        if t == 0u8 {
            Option::Some((false, i + 1))
        } else if t == 1u8 {
            Option::Some((true, i + 1))
        } else {
            Option::None
        }
    } else {
        Option::None
    }
}

/// Reads an outpoint at `i`.
pub fn get_outpoint(b: &[u8], i: usize) -> (r: Option<(OutPoint, usize)>)
    ensures
        match r {
            Option::Some((x, j)) => dec_outpoint(b@, i as int) == Option::Some((x@, j as int)),
            Option::None => dec_outpoint(b@, i as int) is None,
        },
{
    match get_bytes(b, i) {
        Option::Some((txid, j)) => match get_u32(b, j) {
            Option::Some((vout, k)) => {
                let r = OutPoint { txid, vout };
                proof {
                    assert(r@ =~= dec_outpoint(b@, i as int).unwrap().0);
                }
                Option::Some((r, k))
            },
            Option::None => Option::None,
        },
        Option::None => Option::None,
    }
}

/// Reads a transaction input at `i`.
pub fn get_txin(b: &[u8], i: usize) -> (r: Option<(TxIn, usize)>)
    ensures
        match r {
            Option::Some((x, j)) => dec_txin(b@, i as int) == Option::Some((x@, j as int)),
            Option::None => dec_txin(b@, i as int) is None,
        },
{
    match get_outpoint(b, i) {
        Option::Some((prev_out, j)) => match get_u32(b, j) {
            Option::Some((sequence, k)) => {
                let r = TxIn { prev_out, sequence };
                proof {
                    assert(r@ =~= dec_txin(b@, i as int).unwrap().0);
                }
                Option::Some((r, k))
            },
            Option::None => Option::None,
        },
        Option::None => Option::None,
    }
}

/// Reads a transaction output at `i`.
pub fn get_txout(b: &[u8], i: usize) -> (r: Option<(TxOut, usize)>)
    ensures
        match r {
            Option::Some((x, j)) => dec_txout(b@, i as int) == Option::Some((x@, j as int)),
            Option::None => dec_txout(b@, i as int) is None,
        },
{
    match get_u64(b, i) {
        Option::Some((value, j)) => match get_bytes(b, j) {
            Option::Some((script_pubkey, k)) => {
                let r = TxOut { value, script_pubkey };
                proof {
                    assert(r@ =~= dec_txout(b@, i as int).unwrap().0);
                }
                Option::Some((r, k))
            },
            Option::None => Option::None,
        },
        Option::None => Option::None,
    }
}

/// Reads one PSBT input at `i`.
pub fn get_psbtin(b: &[u8], i: usize) -> (r: Option<(PsbtInput, usize)>)
    ensures
        match r {
            Option::Some((x, j)) => dec_psbtin(b@, i as int) == Option::Some((x@, j as int)),
            Option::None => dec_psbtin(b@, i as int) is None,
        },
{
    if i < b.len() {
        let t = *vstd::slice::slice_index_get(b, i);
        if t == 0u8 {
            let r = PsbtInput { witness_utxo: Option::None };
            proof {
                assert(r@ =~= dec_psbtin(b@, i as int).unwrap().0);
            }
            Option::Some((r, i + 1))
        } else if t == 1u8 {
            match get_txout(b, i + 1) {
                Option::Some((o, j)) => {
                    let r = PsbtInput { witness_utxo: Option::Some(o) };
                    proof {
                        assert(r@ =~= dec_psbtin(b@, i as int).unwrap().0);
                    }
                    Option::Some((r, j))
                },
                Option::None => Option::None,
            }
        } else {
            Option::None
        }
    } else {
        Option::None
    }
}

/// Reads `n` transaction inputs at `i`.
pub fn get_txin_items(b: &[u8], i: usize, n: u32) -> (r: Option<(Vec<TxIn>, usize)>)
    ensures
        match r {
            Option::Some((v, j)) => dec_txin_items(b@, i as int, n as int) == Option::Some(
                (txins_view(v@), j as int),
            ),
            Option::None => dec_txin_items(b@, i as int, n as int) is None,
        },
{
    let mut acc: Vec<TxIn> = Vec::new();
    let mut cur: usize = i;
    let mut k: u32 = 0;
    proof {
        assert(txins_view(acc@) + dec_txin_items(b@, i as int, 0).unwrap().0 =~= txins_view(
            acc@));
    }
    while k < n
        invariant
            k <= n,
            match dec_txin_items(b@, cur as int, n as int - k as int) {
                Option::Some((rest, j)) => dec_txin_items(b@, i as int, n as int)
                    == Option::Some((txins_view(acc@) + rest, j)),
                Option::None => dec_txin_items(b@, i as int, n as int) is None,
            },
        decreases n - k,
    {
        match get_txin(b, cur) {
            Option::Some((v, j)) => {
                proof {
                    let rest2 = dec_txin_items(b@, j as int, n as int - k as int - 1);
                    if rest2 is Some {
                        assert(txins_view(acc@.push(v)) =~= txins_view(acc@) + seq![v@]);
                        assert(txins_view(acc@) + (seq![v@] + rest2.unwrap().0) =~= (txins_view(
                            acc@) + seq![v@]) + rest2.unwrap().0);
                    }
                }
                acc.push(v);
                cur = j;
            },
            Option::None => {
                return Option::None;
            },
        }
        k = k + 1;
    }
    proof {
        assert(txins_view(acc@) + dec_txin_items(b@, cur as int, 0).unwrap().0 =~= txins_view(
            acc@));
    }
    Option::Some((acc, cur))
}

/// Reads `n` transaction outputs at `i`.
pub fn get_txout_items(b: &[u8], i: usize, n: u32) -> (r: Option<(Vec<TxOut>, usize)>)
    ensures
        match r {
            Option::Some((v, j)) => dec_txout_items(b@, i as int, n as int) == Option::Some(
                (txouts_view(v@), j as int),
            ),
            Option::None => dec_txout_items(b@, i as int, n as int) is None,
        },
{
    let mut acc: Vec<TxOut> = Vec::new();
    let mut cur: usize = i;
    let mut k: u32 = 0;
    proof {
        assert(txouts_view(acc@) + dec_txout_items(b@, i as int, 0).unwrap().0 =~= txouts_view(
            acc@));
    }
    while k < n
        invariant
            k <= n,
            match dec_txout_items(b@, cur as int, n as int - k as int) {
                Option::Some((rest, j)) => dec_txout_items(b@, i as int, n as int)
                    == Option::Some((txouts_view(acc@) + rest, j)),
                Option::None => dec_txout_items(b@, i as int, n as int) is None,
            },
        decreases n - k,
    {
        match get_txout(b, cur) {
            Option::Some((v, j)) => {
                proof {
                    let rest2 = dec_txout_items(b@, j as int, n as int - k as int - 1);
                    if rest2 is Some {
                        assert(txouts_view(acc@.push(v)) =~= txouts_view(acc@) + seq![v@]);
                        assert(txouts_view(acc@) + (seq![v@] + rest2.unwrap().0) =~= (txouts_view(
                            acc@) + seq![v@]) + rest2.unwrap().0);
                    }
                }
                acc.push(v);
                cur = j;
            },
            Option::None => {
                return Option::None;
            },
        }
        k = k + 1;
    }
    proof {
        assert(txouts_view(acc@) + dec_txout_items(b@, cur as int, 0).unwrap().0 =~= txouts_view(
            acc@));
    }
    Option::Some((acc, cur))
}

/// Reads `n` PSBT inputs at `i`.
pub fn get_psbtin_items(b: &[u8], i: usize, n: u32) -> (r: Option<(Vec<PsbtInput>, usize)>)
    ensures
        match r {
            Option::Some((v, j)) => dec_psbtin_items(b@, i as int, n as int) == Option::Some(
                (psbtins_view(v@), j as int),
            ),
            Option::None => dec_psbtin_items(b@, i as int, n as int) is None,
        },
{
    let mut acc: Vec<PsbtInput> = Vec::new();
    let mut cur: usize = i;
    let mut k: u32 = 0;
    proof {
        assert(psbtins_view(acc@) + dec_psbtin_items(b@, i as int, 0).unwrap().0 =~= psbtins_view(
            acc@));
    }
    while k < n
        invariant
            k <= n,
            match dec_psbtin_items(b@, cur as int, n as int - k as int) {
                Option::Some((rest, j)) => dec_psbtin_items(b@, i as int, n as int)
                    == Option::Some((psbtins_view(acc@) + rest, j)),
                Option::None => dec_psbtin_items(b@, i as int, n as int) is None,
            },
        decreases n - k,
    {
        match get_psbtin(b, cur) {
            Option::Some((v, j)) => {
                proof {
                    let rest2 = dec_psbtin_items(b@, j as int, n as int - k as int - 1);
                    if rest2 is Some {
                        assert(psbtins_view(acc@.push(v)) =~= psbtins_view(acc@) + seq![v@]);
                        assert(psbtins_view(acc@) + (seq![v@] + rest2.unwrap().0) =~= (
                        psbtins_view(acc@) + seq![v@]) + rest2.unwrap().0);
                    }
                }
                acc.push(v);
                cur = j;
            },
            Option::None => {
                return Option::None;
            },
        }
        k = k + 1;
    }
    proof {
        assert(psbtins_view(acc@) + dec_psbtin_items(b@, cur as int, 0).unwrap().0 =~= psbtins_view(
            acc@));
    }
    Option::Some((acc, cur))
}

/// Reads a transaction at `i`.
pub fn get_tx(b: &[u8], i: usize) -> (r: Option<(Transaction, usize)>)
    ensures
        match r {
            Option::Some((x, j)) => dec_tx(b@, i as int) == Option::Some((x@, j as int)),
            Option::None => dec_tx(b@, i as int) is None,
        },
{
    match get_u32(b, i) {
        Option::Some((version, j1)) => match get_u32(b, j1) {
            Option::Some((lock_time, j2)) => match get_u32(b, j2) {
                Option::Some((n_in, j3)) => match get_txin_items(b, j3, n_in) {
                    Option::Some((inputs, j4)) => match get_u32(b, j4) {
                        Option::Some((n_out, j5)) => match get_txout_items(b, j5, n_out) {
                            Option::Some((outputs, j6)) => {
                                let r = Transaction { version, lock_time, inputs, outputs };
                                proof {
                                    assert(r@ =~= dec_tx(b@, i as int).unwrap().0);
                                }
                                Option::Some((r, j6))
                            },
                            Option::None => Option::None,
                        },
                        Option::None => Option::None,
                    },
                    Option::None => Option::None,
                },
                Option::None => Option::None,
            },
            Option::None => Option::None,
        },
        Option::None => Option::None,
    }
}

/// A decoded input list has exactly the requested number of items.
pub proof fn lemma_dec_txin_items_len(b: Seq<u8>, i: int, n: int)
    requires
        dec_txin_items(b, i, n) is Some,
    ensures
        dec_txin_items(b, i, n).unwrap().0.len() == if n <= 0 {
            0
        } else {
            n
        },
    decreases n,
{
    if n > 0 {
        let j = dec_txin(b, i).unwrap().1;
        lemma_dec_txin_items_len(b, j, n - 1);
    }
}

/// A decoded transaction has fewer inputs than the count prefix can carry.
pub proof fn lemma_dec_tx_inputs_bound(b: Seq<u8>, i: int)
    requires
        dec_tx(b, i) is Some,
    ensures
        dec_tx(b, i).unwrap().0.inputs.len() < 4294967296,
{
    let j1 = dec_u32(b, i).unwrap().1;
    let j2 = dec_u32(b, j1).unwrap().1;
    let (n, j3) = dec_u32(b, j2).unwrap();
    lemma_dec_txin_items_len(b, j3, n as int);
}

/// Reads a PSBT at `i`; the result is well formed by construction.
pub fn get_psbt(b: &[u8], i: usize) -> (r: Option<(Psbt, usize)>)
    ensures
        match r {
            Option::Some((x, j)) => dec_psbt(b@, i as int) == Option::Some((x@, j as int)),
            Option::None => dec_psbt(b@, i as int) is None,
        },
{
    match get_tx(b, i) {
        Option::Some((tx, j)) => {
            let n = tx.inputs.len();
            if (n as u64) < 4294967296u64 {
                match get_psbtin_items(b, j, n as u32) {
                    Option::Some((inputs, k)) => {
                        let r = Psbt { tx, inputs };
                        proof {
                            assert(r@ =~= dec_psbt(b@, i as int).unwrap().0);
                        }
                        Option::Some((r, k))
                    },
                    Option::None => Option::None,
                }
            } else {
                proof {
                    lemma_dec_tx_inputs_bound(b@, i as int);
                }
                Option::None
            }
        },
        Option::None => Option::None,
    }
}

/// Reads the sender's declared parameters at `i`.
pub fn get_params(b: &[u8], i: usize) -> (r: Option<(ProposalParams, usize)>)
    ensures
        match r {
            Option::Some((x, j)) => dec_params(b@, i as int) == Option::Some((x, j as int)),
            Option::None => dec_params(b@, i as int) is None,
        },
{
    match get_u64(b, i) {
        Option::Some((max_fee, j1)) => match get_bool(b, j1) {
            Option::Some((has_fee_output, j2)) => match get_u32(b, j2) {
                Option::Some((index, j3)) => match get_u64(b, j3) {
                    Option::Some((min_rate, j4)) => match get_bool(b, j4) {
                        Option::Some((subst, j5)) => Option::Some(
                            (
                                ProposalParams {
                                    max_additional_fee_contribution: max_fee,
                                    additional_fee_output_index: index,
                                    has_fee_output,
                                    min_fee_rate_sat_per_vb: min_rate,
                                    output_substitution_allowed: subst,
                                },
                                j5,
                            ),
                        ),
                        Option::None => Option::None,
                    },
                    Option::None => Option::None,
                },
                Option::None => Option::None,
            },
            Option::None => Option::None,
        },
        Option::None => Option::None,
    }
}

/// Reads a full proposal at `i`.
pub fn get_proposal(b: &[u8], i: usize) -> (r: Option<(Proposal, usize)>)
    ensures
        match r {
            Option::Some((x, j)) => dec_proposal(b@, i as int) == Option::Some((x@, j as int)),
            Option::None => dec_proposal(b@, i as int) is None,
        },
{
    match get_psbt(b, i) {
        Option::Some((psbt, j)) => match get_params(b, j) {
            Option::Some((params, k)) => {
                let r = Proposal { psbt, params };
                proof {
                    assert(r@ =~= dec_proposal(b@, i as int).unwrap().0);
                }
                Option::Some((r, k))
            },
            Option::None => Option::None,
        },
        Option::None => Option::None,
    }
}

// ---------------------------------------------------------------------------
// Messages exchanged through the directory.
// ---------------------------------------------------------------------------

/// Tag byte of a poll request body.
pub const POLL_REQUEST_TAG: u8 = 1;

/// Tag byte of a proposal post body.
pub const POST_REQUEST_TAG: u8 = 2;

/// Tag byte of an error report body.
pub const ERR_REQUEST_TAG: u8 = 3;

/// Body of a poll response: either the "nothing yet" marker or a proposal.
pub open spec fn enc_poll_response(p: Option<ProposalV>) -> Seq<u8> {
    match p {
        Option::None => seq![0u8],
        Option::Some(pp) => seq![1u8] + enc_proposal(pp),
    }
}

/// Decodes a whole poll response body; trailing bytes are rejected.
pub open spec fn dec_poll_response(b: Seq<u8>) -> Option<Option<ProposalV>> {
    if b.len() == 1 && b[0] == 0u8 {
        Option::Some(Option::None)
    } else if b.len() >= 1 && b[0] == 1u8 {
        match dec_proposal(b, 1) {
            Option::Some((p, j)) => if j == b.len() {
                Option::Some(Option::Some(p))
            } else {
                Option::None
            },
            Option::None => Option::None,
        }
    } else {
        Option::None
    }
}

/// Decoding a poll response body undoes encoding one.
pub proof fn lemma_dec_enc_poll_response(p: Option<ProposalV>)
    requires
        p matches Option::Some(pp) ==> encodable_proposal(pp),
    ensures
        dec_poll_response(enc_poll_response(p)) == Option::Some(p),
{
    match p {
        Option::None => {},
        Option::Some(pp) => {
            let b = enc_poll_response(p);
            assert(b =~= seq![1u8] + enc_proposal(pp) + Seq::<u8>::empty());
            lemma_dec_enc_proposal(seq![1u8], pp, Seq::<u8>::empty());
        },
    }
}

/// Decodes a whole post response body: `true` when the directory accepted
/// the proposal, `false` when it rejected it.
pub open spec fn dec_post_response(b: Seq<u8>) -> Option<bool> {
    if b.len() == 1 && b[0] == 0u8 {
        Option::Some(true)
    } else if b.len() == 1 && b[0] == 1u8 {
        Option::Some(false)
    } else {
        Option::None
    }
}

/// Body of a poll request: the tag and the session's server key material.
pub open spec fn enc_poll_request(ohttp_keys: Seq<u8>) -> Seq<u8> {
    seq![POLL_REQUEST_TAG] + enc_bytes(ohttp_keys)
}

/// Body of a proposal post: the tag and the finalized PSBT.
pub open spec fn enc_post_request(psbt: PsbtV) -> Seq<u8> {
    seq![POST_REQUEST_TAG] + enc_psbt(psbt)
}

/// Body of an error report: the tag and one code byte.
pub open spec fn enc_err_request(code: u8) -> Seq<u8> {
    seq![ERR_REQUEST_TAG, code]
}

/// Parses a whole poll response body.
pub fn parse_poll_response(b: &[u8]) -> (r: Option<Option<Proposal>>)
    ensures
        match r {
            Option::Some(Option::None) => dec_poll_response(b@) == Option::Some(
                Option::None::<ProposalV>,
            ),
            Option::Some(Option::Some(p)) => dec_poll_response(b@) == Option::Some(
                Option::Some(p@),
            ),
            Option::None => dec_poll_response(b@) is None,
        },
{
    let n = b.len();
    if n == 0 {
        return Option::None;
    }
    let tag = *vstd::slice::slice_index_get(b, 0);
    if tag == 0u8 {
        if n == 1 {
            Option::Some(Option::None)
        } else {
            Option::None
        }
    } else if tag == 1u8 {
        match get_proposal(b, 1) {
            Option::Some((p, j)) => {
                if j == n {
                    Option::Some(Option::Some(p))
                } else {
                    Option::None
                }
            },
            Option::None => Option::None,
        }
    } else {
        Option::None
    }
}

/// Parses a whole post response body.
pub fn parse_post_response(b: &[u8]) -> (r: Option<bool>)
    ensures
        r == dec_post_response(b@),
{
    if b.len() == 1 {
        let tag = *vstd::slice::slice_index_get(b, 0);
        if tag == 0u8 {
            Option::Some(true)
        } else if tag == 1u8 {
            Option::Some(false)
        } else {
            Option::None
        }
    } else {
        Option::None
    }
}

/// Builds a poll response body carrying a proposal; this is what the
/// directory hands a polling receiver once the sender has posted.
pub fn encode_poll_response_proposal(p: &Proposal) -> (r: Vec<u8>)
    requires
        encodable_proposal(p@),
    ensures
        r@ == enc_poll_response(Option::Some(p@)),
{
    let mut out: Vec<u8> = Vec::new();
    out.push(1u8);
    proof {
        assert(out@ =~= seq![1u8]);
    }
    put_proposal(&mut out, p);
    proof {
        assert(out@ =~= enc_poll_response(Option::Some(p@)));
    }
    out
}

/// Builds the empty poll response body: no proposal available yet.
pub fn encode_poll_response_none() -> (r: Vec<u8>)
    ensures
        r@ == enc_poll_response(Option::None),
{
    let mut out: Vec<u8> = Vec::new();
    out.push(0u8);
    proof {
        assert(out@ =~= enc_poll_response(Option::None::<ProposalV>));
    }
    out
}

// ---------------------------------------------------------------------------
// Encodability checks for values built at run time.
// ---------------------------------------------------------------------------

/// Checks the length bounds that encoding an input list needs.
pub fn check_encodable_txins(xs: &Vec<TxIn>) -> (r: bool)
    ensures
        r == encodable_txins(txins_view(xs@)),
{
    let ghost vs = txins_view(xs@);
    if !((xs.len() as u64) < 4294967296u64) {
        return false;
    }
    let mut i: usize = 0;
    while i < xs.len()
        invariant
            i <= xs@.len(),
            vs == txins_view(xs@),
            vs.len() == xs@.len(),
            fits_len(vs.len()),
            forall|j: int| 0 <= j < i ==> encodable_outpoint((#[trigger] vs[j]).prev_out),
        decreases xs@.len() - i,
    {
        if !((xs[i].prev_out.txid.len() as u64) < 4294967296u64) {
            proof {
                assert(!encodable_outpoint(vs[i as int].prev_out));
            }
            return false;
        }
        i = i + 1;
    }
    true
}

/// Checks the length bounds that encoding an output list needs.
pub fn check_encodable_txouts(xs: &Vec<TxOut>) -> (r: bool)
    ensures
        r == encodable_txouts(txouts_view(xs@)),
{
    let ghost vs = txouts_view(xs@);
    if !((xs.len() as u64) < 4294967296u64) {
        return false;
    }
    let mut i: usize = 0;
    while i < xs.len()
        invariant
            i <= xs@.len(),
            vs == txouts_view(xs@),
            vs.len() == xs@.len(),
            fits_len(vs.len()),
            forall|j: int| 0 <= j < i ==> encodable_txout(#[trigger] vs[j]),
        decreases xs@.len() - i,
    {
        if !((xs[i].script_pubkey.len() as u64) < 4294967296u64) {
            proof {
                assert(!encodable_txout(vs[i as int]));
            }
            return false;
        }
        i = i + 1;
    }
    true
}

/// Checks the length bounds that encoding a PSBT input list needs.
pub fn check_encodable_psbtins(xs: &Vec<PsbtInput>) -> (r: bool)
    ensures
        r == encodable_psbtins(psbtins_view(xs@)),
{
    let ghost vs = psbtins_view(xs@);
    let mut i: usize = 0;
    while i < xs.len()
        invariant
            i <= xs@.len(),
            vs == psbtins_view(xs@),
            vs.len() == xs@.len(),
            forall|j: int| 0 <= j < i ==> encodable_psbtin(#[trigger] vs[j]),
        decreases xs@.len() - i,
    {
        match &xs[i].witness_utxo {
            Option::Some(o) => {
                if !((o.script_pubkey.len() as u64) < 4294967296u64) {
                    proof {
                        assert(!encodable_psbtin(vs[i as int]));
                    }
                    return false;
                }
            },
            Option::None => {},
        }
        i = i + 1;
    }
    true
}

/// Checks the length bounds that encoding a PSBT needs.
pub fn check_encodable_psbt(p: &Psbt) -> (r: bool)
    ensures
        r == encodable_psbt(p@),
{
    if p.inputs.len() != p.tx.inputs.len() {
        return false;
    }
    if !check_encodable_txins(&p.tx.inputs) {
        return false;
    }
    if !check_encodable_txouts(&p.tx.outputs) {
        return false;
    }
    check_encodable_psbtins(&p.inputs)
}

} // verus!
