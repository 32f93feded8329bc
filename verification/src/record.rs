//! The raw header image handed in by the RPC caller, the ommer header it
//! carries along, and the normalized output record.

use vstd::prelude::*;
use crate::digits::check_hex_text;
use crate::digits::is_hex_text;

verus! {

/// A block header as the upstream client reports it, with every quantity
/// and hash already in its canonical textual form (`0x`-prefixed lowercase
/// hexadecimal) and protocol-upgrade fields kept optional: a field the
/// chain did not supply stays `None` and is never defaulted.
#[derive(Clone, Debug)]
pub struct RawHeader {
    pub number: Option<u64>,
    pub hash: Option<String>,
    pub parent_hash: String,
    pub uncles_hash: String,
    pub withdrawals_root: Option<String>,
    pub blob_gas_used: Option<String>,
    pub excess_blob_gas: Option<String>,
    pub parent_beacon_root: Option<String>,
    pub author: String,
    pub state_root: String,
    pub transactions_root: String,
    pub receipts_root: String,
    pub gas_used: String,
    pub gas_limit: String,
    pub base_fee_per_gas: Option<String>,
    pub extra_data: String,
    pub logs_bloom: Option<String>,
    pub timestamp: String,
    pub difficulty: String,
    pub mix_hash: Option<String>,
    pub nonce: Option<String>,
}

/// A stale competing header referenced by a canonical block, kept in the
/// upstream client's native JSON shape and never normalized.
#[derive(Clone, Debug)]
pub struct OmmerHeader {
    /// The raw JSON object text for the ommer, exactly as serialized
    /// from the upstream client's response.
    pub text: String,
}

/// The normalized output record for one block of the range.
#[derive(Clone, Debug)]
pub struct BlockRecord {
    pub number: u64,
    pub hash: Option<String>,
    pub parent_hash: String,
    pub uncles_hash: String,
    pub withdrawals_root: Option<String>,
    pub blob_gas_used: Option<String>,
    pub excess_blob_gas: Option<String>,
    pub parent_beacon_root: Option<String>,
    pub author: String,
    pub state_root: String,
    pub transactions_root: String,
    pub receipts_root: String,
    pub gas_used: String,
    pub gas_limit: String,
    pub base_fee_per_gas: Option<String>,
    pub extra_data: String,
    pub logs_bloom: Option<String>,
    pub timestamp: String,
    pub difficulty: String,
    pub mix_hash: Option<String>,
    pub nonce: Option<String>,
    /// Successfully fetched ommers, in ascending order of their index.
    pub ommers: Vec<OmmerHeader>,
}

/// The error a malformed upstream header raises; it is fatal for the run.
#[derive(Clone, Copy, Debug, PartialEq, Eq, Structural)]
pub enum NormalizeError {
    /// The header carries no number, or one that differs from the
    /// requested block number.
    NumberMismatch,
    /// A header field is not in the canonical hexadecimal text form.
    MalformedField,
}

/// An optional field, when present, is in canonical hexadecimal text form.
pub open spec fn opt_text_wf(o: Option<String>) -> bool {
    match o {
        Some(s) => is_hex_text(s@),
        None => true,
    }
}

impl RawHeader {
    /// Every field the header carries is in canonical hexadecimal text form.
    pub open spec fn texts_wf(self) -> bool {
        &&& opt_text_wf(self.hash)
        &&& is_hex_text(self.parent_hash@)
        &&& is_hex_text(self.uncles_hash@)
        &&& opt_text_wf(self.withdrawals_root)
        &&& opt_text_wf(self.blob_gas_used)
        &&& opt_text_wf(self.excess_blob_gas)
        &&& opt_text_wf(self.parent_beacon_root)
        &&& is_hex_text(self.author@)
        &&& is_hex_text(self.state_root@)
        &&& is_hex_text(self.transactions_root@)
        &&& is_hex_text(self.receipts_root@)
        &&& is_hex_text(self.gas_used@)
        &&& is_hex_text(self.gas_limit@)
        &&& opt_text_wf(self.base_fee_per_gas)
        &&& is_hex_text(self.extra_data@)
        &&& opt_text_wf(self.logs_bloom)
        &&& is_hex_text(self.timestamp@)
        &&& is_hex_text(self.difficulty@)
        &&& opt_text_wf(self.mix_hash)
        &&& opt_text_wf(self.nonce)
    }

    /// The header is a well-formed response for block number `n`.
    pub open spec fn wf_for(self, n: u64) -> bool {
        self.number == Some(n) && self.texts_wf()
    }
}

impl BlockRecord {
    /// Every text field of the record is in canonical hexadecimal form.
    pub open spec fn texts_wf(self) -> bool {
        &&& opt_text_wf(self.hash)
        &&& is_hex_text(self.parent_hash@)
        &&& is_hex_text(self.uncles_hash@)
        &&& opt_text_wf(self.withdrawals_root)
        &&& opt_text_wf(self.blob_gas_used)
        &&& opt_text_wf(self.excess_blob_gas)
        &&& opt_text_wf(self.parent_beacon_root)
        &&& is_hex_text(self.author@)
        &&& is_hex_text(self.state_root@)
        &&& is_hex_text(self.transactions_root@)
        &&& is_hex_text(self.receipts_root@)
        &&& is_hex_text(self.gas_used@)
        &&& is_hex_text(self.gas_limit@)
        &&& opt_text_wf(self.base_fee_per_gas)
        &&& is_hex_text(self.extra_data@)
        &&& opt_text_wf(self.logs_bloom)
        &&& is_hex_text(self.timestamp@)
        &&& is_hex_text(self.difficulty@)
        &&& opt_text_wf(self.mix_hash)
        &&& opt_text_wf(self.nonce)
    }
}

/// The record is the faithful normalization of header `h` for block `n`
/// with exactly the given ommers: every field is carried over unchanged,
/// and presence or absence of an optional field is preserved.
pub open spec fn record_matches_header(
    rec: BlockRecord,
    n: u64,
    h: RawHeader,
    ommers: Seq<OmmerHeader>,
) -> bool {
    &&& rec.number == n
    &&& rec.hash == h.hash
    &&& rec.parent_hash == h.parent_hash
    &&& rec.uncles_hash == h.uncles_hash
    &&& rec.withdrawals_root == h.withdrawals_root
    &&& rec.blob_gas_used == h.blob_gas_used
    &&& rec.excess_blob_gas == h.excess_blob_gas
    &&& rec.parent_beacon_root == h.parent_beacon_root
    &&& rec.author == h.author
    &&& rec.state_root == h.state_root
    &&& rec.transactions_root == h.transactions_root
    &&& rec.receipts_root == h.receipts_root
    &&& rec.gas_used == h.gas_used
    &&& rec.gas_limit == h.gas_limit
    &&& rec.base_fee_per_gas == h.base_fee_per_gas
    &&& rec.extra_data == h.extra_data
    &&& rec.logs_bloom == h.logs_bloom
    &&& rec.timestamp == h.timestamp
    &&& rec.difficulty == h.difficulty
    &&& rec.mix_hash == h.mix_hash
    &&& rec.nonce == h.nonce
    &&& rec.ommers@ == ommers
}

fn opt_hex_ok(o: &Option<String>) -> (b: bool)
    ensures
        b == opt_text_wf(*o),
{
    match o {
        Some(s) => check_hex_text(s.as_str()),
        None => true,
    }
}

/// Builds the record for block `n` from a header already checked to be
/// well formed, moving every field over unchanged.
pub(crate) fn build_record(n: u64, h: RawHeader, ommers: Vec<OmmerHeader>) -> (rec: BlockRecord)
    requires
        h.wf_for(n),
    ensures
        record_matches_header(rec, n, h, ommers@),
        rec.texts_wf(),
{
    BlockRecord {
        number: n,
        hash: h.hash,
        parent_hash: h.parent_hash,
        uncles_hash: h.uncles_hash,
        withdrawals_root: h.withdrawals_root,
        blob_gas_used: h.blob_gas_used,
        excess_blob_gas: h.excess_blob_gas,
        parent_beacon_root: h.parent_beacon_root,
        author: h.author,
        state_root: h.state_root,
        transactions_root: h.transactions_root,
        receipts_root: h.receipts_root,
        gas_used: h.gas_used,
        gas_limit: h.gas_limit,
        base_fee_per_gas: h.base_fee_per_gas,
        extra_data: h.extra_data,
        logs_bloom: h.logs_bloom,
        timestamp: h.timestamp,
        difficulty: h.difficulty,
        mix_hash: h.mix_hash,
        nonce: h.nonce,
        ommers,
    }
}

/// Decides whether all textual fields of the header are well formed.
pub fn check_header_texts(h: &RawHeader) -> (b: bool)
    ensures
        b == h.texts_wf(),
{
    opt_hex_ok(&h.hash) && check_hex_text(h.parent_hash.as_str())
        && check_hex_text(h.uncles_hash.as_str()) && opt_hex_ok(&h.withdrawals_root)
        && opt_hex_ok(&h.blob_gas_used) && opt_hex_ok(&h.excess_blob_gas)
        && opt_hex_ok(&h.parent_beacon_root) && check_hex_text(h.author.as_str())
        && check_hex_text(h.state_root.as_str()) && check_hex_text(h.transactions_root.as_str())
        && check_hex_text(h.receipts_root.as_str()) && check_hex_text(h.gas_used.as_str())
        && check_hex_text(h.gas_limit.as_str()) && opt_hex_ok(&h.base_fee_per_gas)
        && check_hex_text(h.extra_data.as_str()) && opt_hex_ok(&h.logs_bloom)
        && check_hex_text(h.timestamp.as_str()) && check_hex_text(h.difficulty.as_str())
        && opt_hex_ok(&h.mix_hash) && opt_hex_ok(&h.nonce)
}

/// Normalizes a fetched header and its ommers into the output record for
/// block `n`. A header whose number is absent or differs from `n`, or one
/// with a field outside the canonical text form, is malformed: that is a
/// protocol incompatibility and is reported as a fatal error, never
/// repaired.
pub fn normalize(n: u64, h: RawHeader, ommers: Vec<OmmerHeader>) -> (r: Result<
    BlockRecord,
    NormalizeError,
>)
    ensures
        r is Ok <==> h.wf_for(n),
        r is Ok ==> record_matches_header(r->Ok_0, n, h, ommers@) && r->Ok_0.texts_wf(),
        r == Err::<BlockRecord, NormalizeError>(NormalizeError::NumberMismatch) <==> h.number
            != Some(n),
        r == Err::<BlockRecord, NormalizeError>(NormalizeError::MalformedField) <==> (h.number
            == Some(n) && !h.texts_wf()),
{
    match h.number {
        Some(m) if m == n => {
            if check_header_texts(&h) {
                Ok(build_record(n, h, ommers))
            } else {
                Err(NormalizeError::MalformedField)
            }
        },
        _ => Err(NormalizeError::NumberMismatch),
    }
}

} // verus!
