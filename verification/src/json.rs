//! The output document as a structured JSON value, and the round-trip
//! law: reading the document built from a result set yields every block
//! number and every field's presence or absence unchanged — an optional
//! field absent upstream stays absent and never reappears as a value.

use vstd::prelude::*;
use vstd::string::StrSliceExecFns;
use crate::digits::hex_text_of;
use crate::digits::lemma_parse_of_hex_text;
use crate::digits::parse_hex_u64;
use crate::digits::spec_hex_text;
use crate::digits::spec_parse_hex_text;
use crate::record::BlockRecord;
use crate::record::OmmerHeader;

verus! {

/// A JSON value, as far as this document needs one. `Raw` splices an
/// upstream object verbatim when the value is rendered.
pub enum Json {
    Null,
    Str(String),
    Raw(String),
    Arr(Vec<Json>),
    Obj(Vec<(String, Json)>),
}

/// What the round trip preserves of one record: its block number, the
/// presence or absence of each optional field, and how many ommers it
/// carries.
#[derive(Clone, Copy, Debug, PartialEq, Eq, Structural)]
pub struct RecordSummary {
    pub number: u64,
    pub has_hash: bool,
    pub has_withdrawals_root: bool,
    pub has_blob_gas_used: bool,
    pub has_excess_blob_gas: bool,
    pub has_parent_beacon_root: bool,
    pub has_base_fee_per_gas: bool,
    pub has_logs_bloom: bool,
    pub has_mix_hash: bool,
    pub has_nonce: bool,
    pub ommer_count: u64,
}

/// The summary of a record.
pub open spec fn summary_of(r: BlockRecord) -> RecordSummary {
    RecordSummary {
        number: r.number,
        has_hash: r.hash is Some,
        has_withdrawals_root: r.withdrawals_root is Some,
        has_blob_gas_used: r.blob_gas_used is Some,
        has_excess_blob_gas: r.excess_blob_gas is Some,
        has_parent_beacon_root: r.parent_beacon_root is Some,
        has_base_fee_per_gas: r.base_fee_per_gas is Some,
        has_logs_bloom: r.logs_bloom is Some,
        has_mix_hash: r.mix_hash is Some,
        has_nonce: r.nonce is Some,
        ommer_count: r.ommers@.len() as u64,
    }
}

/// Computes the summary of a record.
pub fn record_summary(r: &BlockRecord) -> (s: RecordSummary)
    ensures
        s == summary_of(*r),
{
    RecordSummary {
        number: r.number,
        has_hash: r.hash.is_some(),
        has_withdrawals_root: r.withdrawals_root.is_some(),
        has_blob_gas_used: r.blob_gas_used.is_some(),
        has_excess_blob_gas: r.excess_blob_gas.is_some(),
        has_parent_beacon_root: r.parent_beacon_root.is_some(),
        has_base_fee_per_gas: r.base_fee_per_gas.is_some(),
        has_logs_bloom: r.logs_bloom.is_some(),
        has_mix_hash: r.mix_hash.is_some(),
        has_nonce: r.nonce.is_some(),
        ommer_count: r.ommers.len() as u64,
    }
}

/// The member holds this key and the quoted text of a required field.
pub open spec fn field_str(p: (String, Json), key: Seq<char>, v: String) -> bool {
    p.0@ == key && (p.1 matches Json::Str(s) && s@ == v@)
}

/// The member holds this key and the optional field: its quoted text
/// when present, the JSON null when absent.
pub open spec fn field_opt(p: (String, Json), key: Seq<char>, v: Option<String>) -> bool {
    p.0@ == key && match v {
        Some(x) => p.1 matches Json::Str(s) && s@ == x@,
        None => p.1 is Null,
    }
}

/// The member holds the `uncles` key and the raw ommer objects in order.
pub open spec fn field_uncles(p: (String, Json), os: Seq<OmmerHeader>) -> bool {
    p.0@ == ("uncles")@ && (p.1 matches Json::Arr(us) && us@.len() == os.len() && (forall|i: int|
        0 <= i < os.len() ==> ((#[trigger] us@[i]) matches Json::Raw(t) && t@ == os[i].text@)))
}

/// `j` is the JSON object for record `r`: the fixed members in fixed
/// order, the number as canonical hex text, presence and absence of the
/// optional fields preserved.
pub open spec fn record_json_rel(r: BlockRecord, j: Json) -> bool {
    j matches Json::Obj(pairs) && {
        let p = pairs@;
        &&& p.len() == 22
        &&& p[0].0@ == ("number")@
        &&& p[0].1 matches Json::Str(s) && s@ == spec_hex_text(r.number as nat)
        &&& field_opt(p[1], ("hash")@, r.hash)
        &&& field_str(p[2], ("parent_hash")@, r.parent_hash)
        &&& field_str(p[3], ("uncles_hash")@, r.uncles_hash)
        &&& field_opt(p[4], ("withdrawals_root")@, r.withdrawals_root)
        &&& field_opt(p[5], ("blob_gas_used")@, r.blob_gas_used)
        &&& field_opt(p[6], ("excess_blob_gas")@, r.excess_blob_gas)
        &&& field_opt(p[7], ("parent_beacon_root")@, r.parent_beacon_root)
        &&& field_str(p[8], ("author")@, r.author)
        &&& field_str(p[9], ("state_root")@, r.state_root)
        &&& field_str(p[10], ("transactions_root")@, r.transactions_root)
        &&& field_str(p[11], ("receipts_root")@, r.receipts_root)
        &&& field_str(p[12], ("gas_used")@, r.gas_used)
        &&& field_str(p[13], ("gas_limit")@, r.gas_limit)
        &&& field_opt(p[14], ("base_fee_per_gas")@, r.base_fee_per_gas)
        &&& field_str(p[15], ("extra_data")@, r.extra_data)
        &&& field_opt(p[16], ("logs_bloom")@, r.logs_bloom)
        &&& field_str(p[17], ("timestamp")@, r.timestamp)
        &&& field_str(p[18], ("difficulty")@, r.difficulty)
        &&& field_opt(p[19], ("mix_hash")@, r.mix_hash)
        &&& field_opt(p[20], ("nonce")@, r.nonce)
        &&& field_uncles(p[21], r.ommers@)
    }
}

/// `j` is the JSON array holding each record's object, in order.
pub open spec fn doc_rel(rs: Seq<BlockRecord>, j: Json) -> bool {
    j matches Json::Arr(items) && items@.len() == rs.len() && (forall|i: int|
        0 <= i < rs.len() ==> record_json_rel(rs[i], #[trigger] items@[i]))
}

fn opt_json(v: &Option<String>) -> (j: Json)
    ensures
        match v {
            Some(x) => j matches Json::Str(s) && s@ == x@,
            None => j is Null,
        },
{
    match v {
        Some(x) => Json::Str(x.clone()),
        None => Json::Null,
    }
}

/// Builds the JSON object for one record.
#[verifier::rlimit(50)]
pub fn record_json(r: &BlockRecord) -> (j: Json)
    ensures
        record_json_rel(*r, j),
{
    let mut pairs: Vec<(String, Json)> = Vec::new();
    pairs.push(("number".to_owned(), Json::Str(hex_text_of(r.number))));
    pairs.push(("hash".to_owned(), opt_json(&r.hash)));
    pairs.push(("parent_hash".to_owned(), Json::Str(r.parent_hash.clone())));
    pairs.push(("uncles_hash".to_owned(), Json::Str(r.uncles_hash.clone())));
    pairs.push(("withdrawals_root".to_owned(), opt_json(&r.withdrawals_root)));
    pairs.push(("blob_gas_used".to_owned(), opt_json(&r.blob_gas_used)));
    pairs.push(("excess_blob_gas".to_owned(), opt_json(&r.excess_blob_gas)));
    pairs.push(("parent_beacon_root".to_owned(), opt_json(&r.parent_beacon_root)));
    pairs.push(("author".to_owned(), Json::Str(r.author.clone())));
    pairs.push(("state_root".to_owned(), Json::Str(r.state_root.clone())));
    pairs.push(("transactions_root".to_owned(), Json::Str(r.transactions_root.clone())));
    pairs.push(("receipts_root".to_owned(), Json::Str(r.receipts_root.clone())));
    pairs.push(("gas_used".to_owned(), Json::Str(r.gas_used.clone())));
    pairs.push(("gas_limit".to_owned(), Json::Str(r.gas_limit.clone())));
    pairs.push(("base_fee_per_gas".to_owned(), opt_json(&r.base_fee_per_gas)));
    pairs.push(("extra_data".to_owned(), Json::Str(r.extra_data.clone())));
    pairs.push(("logs_bloom".to_owned(), opt_json(&r.logs_bloom)));
    pairs.push(("timestamp".to_owned(), Json::Str(r.timestamp.clone())));
    pairs.push(("difficulty".to_owned(), Json::Str(r.difficulty.clone())));
    pairs.push(("mix_hash".to_owned(), opt_json(&r.mix_hash)));
    pairs.push(("nonce".to_owned(), opt_json(&r.nonce)));
    let mut us: Vec<Json> = Vec::new();
    let mut i: usize = 0;
    while i < r.ommers.len()
        invariant
            0 <= i <= r.ommers@.len(),
            us@.len() == i,
            forall|k: int|
                0 <= k < i ==> ((#[trigger] us@[k]) matches Json::Raw(t) && t@
                    == r.ommers@[k].text@),
        decreases r.ommers@.len() - i,
    {
        us.push(Json::Raw(r.ommers[i].text.clone()));
        i += 1;
    }
    pairs.push(("uncles".to_owned(), Json::Arr(us)));
    Json::Obj(pairs)
}

/// Builds the whole document value for a result set.
pub fn doc_value(rs: &Vec<BlockRecord>) -> (j: Json)
    ensures
        doc_rel(rs@, j),
{
    let mut items: Vec<Json> = Vec::new();
    let mut i: usize = 0;
    while i < rs.len()
        invariant
            0 <= i <= rs@.len(),
            items@.len() == i,
            forall|k: int| 0 <= k < i ==> record_json_rel(rs@[k], #[trigger] items@[k]),
        decreases rs@.len() - i,
    {
        items.push(record_json(&rs[i]));
        i += 1;
    }
    Json::Arr(items)
}

/// What reading a member as an optional field yields: its presence, or
/// nothing if the key or the value shape is wrong.
pub open spec fn spec_read_opt(p: (String, Json), key: Seq<char>) -> Option<bool> {
    if p.0@ == key {
        match p.1 {
            Json::Str(_) => Some(true),
            Json::Null => Some(false),
            _ => None,
        }
    } else {
        None
    }
}

/// Reading a member as a required field: the key and a string value.
pub open spec fn spec_read_str(p: (String, Json), key: Seq<char>) -> bool {
    p.0@ == key && p.1 is Str
}

/// What reading the `number` member yields.
pub open spec fn spec_read_number(p: (String, Json)) -> Option<u64> {
    if p.0@ == ("number")@ {
        match p.1 {
            Json::Str(s) => spec_parse_hex_text(s@),
            _ => None,
        }
    } else {
        None
    }
}

/// What reading the `uncles` member yields: how many raw objects it holds.
pub open spec fn spec_read_uncles(p: (String, Json)) -> Option<u64> {
    if p.0@ == ("uncles")@ {
        match p.1 {
            Json::Arr(us) => if forall|i: int| 0 <= i < us@.len() ==> (#[trigger] us@[i]) is Raw {
                Some(us@.len() as u64)
            } else {
                None
            },
            _ => None,
        }
    } else {
        None
    }
}

/// What reading one record object yields.
pub open spec fn spec_read_record(j: Json) -> Option<RecordSummary> {
    match j {
        Json::Obj(pairs) => {
            let p = pairs@;
            if p.len() == 22 && spec_read_number(p[0]) is Some && spec_read_opt(p[1], ("hash")@)
                is Some && spec_read_str(p[2], ("parent_hash")@) && spec_read_str(
                p[3],
                ("uncles_hash")@,
            ) && spec_read_opt(p[4], ("withdrawals_root")@) is Some && spec_read_opt(
                p[5],
                ("blob_gas_used")@,
            ) is Some && spec_read_opt(p[6], ("excess_blob_gas")@) is Some && spec_read_opt(
                p[7],
                ("parent_beacon_root")@,
            ) is Some && spec_read_str(p[8], ("author")@) && spec_read_str(p[9], ("state_root")@)
                && spec_read_str(p[10], ("transactions_root")@) && spec_read_str(
                p[11],
                ("receipts_root")@,
            ) && spec_read_str(p[12], ("gas_used")@) && spec_read_str(p[13], ("gas_limit")@)
                && spec_read_opt(p[14], ("base_fee_per_gas")@) is Some && spec_read_str(
                p[15],
                ("extra_data")@,
            ) && spec_read_opt(p[16], ("logs_bloom")@) is Some && spec_read_str(
                p[17],
                ("timestamp")@,
            ) && spec_read_str(p[18], ("difficulty")@) && spec_read_opt(p[19], ("mix_hash")@)
                is Some && spec_read_opt(p[20], ("nonce")@) is Some && spec_read_uncles(p[21])
                is Some {
                Some(
                    RecordSummary {
                        number: spec_read_number(p[0])->Some_0,
                        has_hash: spec_read_opt(p[1], ("hash")@)->Some_0,
                        has_withdrawals_root: spec_read_opt(p[4], ("withdrawals_root")@)->Some_0,
                        has_blob_gas_used: spec_read_opt(p[5], ("blob_gas_used")@)->Some_0,
                        has_excess_blob_gas: spec_read_opt(p[6], ("excess_blob_gas")@)->Some_0,
                        has_parent_beacon_root: spec_read_opt(
                            p[7],
                            ("parent_beacon_root")@,
                        )->Some_0,
                        has_base_fee_per_gas: spec_read_opt(p[14], ("base_fee_per_gas")@)->Some_0,
                        has_logs_bloom: spec_read_opt(p[16], ("logs_bloom")@)->Some_0,
                        has_mix_hash: spec_read_opt(p[19], ("mix_hash")@)->Some_0,
                        has_nonce: spec_read_opt(p[20], ("nonce")@)->Some_0,
                        ommer_count: spec_read_uncles(p[21])->Some_0,
                    },
                )
            } else {
                None
            }
        },
        _ => None,
    }
}

/// What reading a sequence of record objects yields.
pub open spec fn spec_read_items(items: Seq<Json>) -> Option<Seq<RecordSummary>>
    decreases items.len(),
{
    if items.len() == 0 {
        Some(Seq::empty())
    } else {
        match (spec_read_items(items.drop_last()), spec_read_record(items.last())) {
            (Some(rest), Some(s)) => Some(rest.push(s)),
            _ => None,
        }
    }
}

/// What reading the whole document yields.
pub open spec fn spec_read_doc(j: Json) -> Option<Seq<RecordSummary>> {
    match j {
        Json::Arr(items) => spec_read_items(items@),
        _ => None,
    }
}

/// Law: reading back the record object built for `r` recovers exactly
/// `r`'s summary — number, field presence, ommer count.
pub proof fn lemma_record_round_trip(r: BlockRecord, j: Json)
    requires
        record_json_rel(r, j),
    ensures
        spec_read_record(j) == Some(summary_of(r)),
{
    lemma_parse_of_hex_text(r.number);
}

proof fn lemma_items_round_trip(rs: Seq<BlockRecord>, items: Seq<Json>)
    requires
        items.len() == rs.len(),
        forall|i: int| 0 <= i < rs.len() ==> record_json_rel(rs[i], #[trigger] items[i]),
    ensures
        spec_read_items(items) == Some(rs.map_values(|r: BlockRecord| summary_of(r))),
    decreases items.len(),
{
    let m = rs.map_values(|r: BlockRecord| summary_of(r));
    if items.len() == 0 {
        assert(m =~= Seq::<RecordSummary>::empty());
    } else {
        assert forall|i: int| 0 <= i < rs.drop_last().len() implies record_json_rel(
            rs.drop_last()[i],
            #[trigger] items.drop_last()[i],
        ) by {
            assert(rs.drop_last()[i] == rs[i]);
            assert(items.drop_last()[i] == items[i]);
        }
        lemma_items_round_trip(rs.drop_last(), items.drop_last());
        assert(record_json_rel(rs[rs.len() - 1], items[items.len() - 1]));
        lemma_record_round_trip(rs.last(), items.last());
        assert(m =~= rs.drop_last().map_values(|r: BlockRecord| summary_of(r)).push(
            summary_of(rs.last()),
        ));
    }
}

/// Law: reading back the document built for a result set recovers each
/// record's summary, in order — the round trip preserves every block
/// number and every field's presence or absence.
pub proof fn lemma_doc_round_trip(rs: Seq<BlockRecord>, j: Json)
    requires
        doc_rel(rs, j),
    ensures
        spec_read_doc(j) == Some(rs.map_values(|r: BlockRecord| summary_of(r))),
{
    let items = j->Arr_0;
    lemma_items_round_trip(rs, items@);
}

proof fn lemma_items_member_none(items: Seq<Json>, i: int)
    requires
        0 <= i < items.len(),
        spec_read_record(items[i]) is None,
    ensures
        spec_read_items(items) is None,
    decreases items.len(),
{
    if i < items.len() - 1 {
        assert(items.drop_last()[i] == items[i]);
        lemma_items_member_none(items.drop_last(), i);
    }
}

fn key_is(k: &String, lit: &str) -> (b: bool)
    ensures
        b == (k@ == lit@),
{
    let owned = lit.to_owned();
    k.eq(&owned)
}

fn read_opt_member(p: &(String, Json), lit: &str) -> (r: Option<bool>)
    ensures
        r == spec_read_opt(*p, lit@),
{
    if key_is(&p.0, lit) {
        match &p.1 {
            Json::Str(_) => Some(true),
            Json::Null => Some(false),
            _ => None,
        }
    } else {
        None
    }
}

fn read_str_member(p: &(String, Json), lit: &str) -> (b: bool)
    ensures
        b == spec_read_str(*p, lit@),
{
    if key_is(&p.0, lit) {
        match &p.1 {
            Json::Str(_) => true,
            _ => false,
        }
    } else {
        false
    }
}

fn read_number_member(p: &(String, Json)) -> (r: Option<u64>)
    ensures
        r == spec_read_number(*p),
{
    if key_is(&p.0, "number") {
        match &p.1 {
            Json::Str(s) => parse_hex_u64(s.as_str()),
            _ => None,
        }
    } else {
        None
    }
}

fn read_uncles_member(p: &(String, Json)) -> (r: Option<u64>)
    ensures
        r == spec_read_uncles(*p),
{
    if key_is(&p.0, "uncles") {
        match &p.1 {
            Json::Arr(us) => {
                let mut i: usize = 0;
                while i < us.len()
                    invariant
                        0 <= i <= us@.len(),
                        p.0@ == ("uncles")@,
                        p.1 matches Json::Arr(v) && v@ == us@,
                        forall|k: int| 0 <= k < i ==> (#[trigger] us@[k]) is Raw,
                    decreases us@.len() - i,
                {
                    match &us[i] {
                        Json::Raw(_) => (),
                        _ => {
                            proof {
                                assert(!((us@[i as int]) is Raw));
                            }
                            return None;
                        },
                    }
                    i += 1;
                }
                Some(us.len() as u64)
            },
            _ => None,
        }
    } else {
        None
    }
}

/// Reads one record object back into its summary.
#[verifier::rlimit(50)]
pub fn read_record(j: &Json) -> (r: Option<RecordSummary>)
    ensures
        r == spec_read_record(*j),
{
    match j {
        Json::Obj(pairs) => {
            if pairs.len() != 22 {
                return None;
            }
            let number = match read_number_member(&pairs[0]) {
                Some(v) => v,
                None => {
                    return None;
                },
            };
            let has_hash = match read_opt_member(&pairs[1], "hash") {
                Some(v) => v,
                None => {
                    return None;
                },
            };
            if !read_str_member(&pairs[2], "parent_hash") {
                return None;
            }
            if !read_str_member(&pairs[3], "uncles_hash") {
                return None;
            }
            let has_withdrawals_root = match read_opt_member(&pairs[4], "withdrawals_root") {
                Some(v) => v,
                None => {
                    return None;
                },
            };
            let has_blob_gas_used = match read_opt_member(&pairs[5], "blob_gas_used") {
                Some(v) => v,
                None => {
                    return None;
                },
            };
            let has_excess_blob_gas = match read_opt_member(&pairs[6], "excess_blob_gas") {
                Some(v) => v,
                None => {
                    return None;
                },
            };
            let has_parent_beacon_root = match read_opt_member(&pairs[7], "parent_beacon_root") {
                Some(v) => v,
                None => {
                    return None;
                },
            };
            if !read_str_member(&pairs[8], "author") {
                return None;
            }
            if !read_str_member(&pairs[9], "state_root") {
                return None;
            }
            if !read_str_member(&pairs[10], "transactions_root") {
                return None;
            }
            if !read_str_member(&pairs[11], "receipts_root") {
                return None;
            }
            if !read_str_member(&pairs[12], "gas_used") {
                return None;
            }
            if !read_str_member(&pairs[13], "gas_limit") {
                return None;
            }
            let has_base_fee_per_gas = match read_opt_member(&pairs[14], "base_fee_per_gas") {
                Some(v) => v,
                None => {
                    return None;
                },
            };
            if !read_str_member(&pairs[15], "extra_data") {
                return None;
            }
            let has_logs_bloom = match read_opt_member(&pairs[16], "logs_bloom") {
                Some(v) => v,
                None => {
                    return None;
                },
            };
            if !read_str_member(&pairs[17], "timestamp") {
                return None;
            }
            if !read_str_member(&pairs[18], "difficulty") {
                return None;
            }
            let has_mix_hash = match read_opt_member(&pairs[19], "mix_hash") {
                Some(v) => v,
                None => {
                    return None;
                },
            };
            let has_nonce = match read_opt_member(&pairs[20], "nonce") {
                Some(v) => v,
                None => {
                    return None;
                },
            };
            let ommer_count = match read_uncles_member(&pairs[21]) {
                Some(v) => v,
                None => {
                    return None;
                },
            };
            Some(
                RecordSummary {
                    number,
                    has_hash,
                    has_withdrawals_root,
                    has_blob_gas_used,
                    has_excess_blob_gas,
                    has_parent_beacon_root,
                    has_base_fee_per_gas,
                    has_logs_bloom,
                    has_mix_hash,
                    has_nonce,
                    ommer_count,
                },
            )
        },
        _ => None,
    }
}

/// Reads a whole document back into the summaries of its records.
pub fn read_summaries(j: &Json) -> (r: Option<Vec<RecordSummary>>)
    ensures
        match r {
            Some(v) => spec_read_doc(*j) == Some(v@),
            None => spec_read_doc(*j) is None,
        },
{
    match j {
        Json::Arr(items) => {
            let mut out: Vec<RecordSummary> = Vec::new();
            let mut i: usize = 0;
            while i < items.len()
                invariant
                    0 <= i <= items@.len(),
                    out@.len() == i,
                    *j matches Json::Arr(v) && v@ == items@,
                    spec_read_items(items@.subrange(0, i as int)) == Some(out@),
                decreases items@.len() - i,
            {
                match read_record(&items[i]) {
                    Some(s) => {
                        out.push(s);
                        proof {
                            let cur = items@.subrange(0, i + 1);
                            assert(cur.drop_last() =~= items@.subrange(0, i as int));
                            assert(cur.last() == items@[i as int]);
                        }
                    },
                    None => {
                        proof {
                            lemma_items_member_none(items@, i as int);
                        }
                        return None;
                    },
                }
                i += 1;
            }
            proof {
                assert(items@.subrange(0, items@.len() as int) =~= items@);
            }
            Some(out)
        },
        _ => None,
    }
}

} // verus!
