//! The output document: the JSON text for a sequence of records, and the
//! deterministic output location derived from the range.
//!
//! Every quantity is rendered as the upstream canonical hex text, an
//! optional field the chain did not supply is rendered as `null` (never
//! defaulted), and each record's `uncles` array splices the raw upstream
//! ommer objects verbatim.

use vstd::prelude::*;
use vstd::string::StrSliceExecFns;
use vstd::string::StringExecFns;
use crate::digits::hex_text_of;
use crate::digits::spec_dec_digits;
use crate::digits::spec_hex_text;
use crate::digits::dec_text_of;
use crate::range::BlockRange;
use crate::record::BlockRecord;
use crate::record::OmmerHeader;

verus! {

/// A JSON string: the text between double quotes. No escaping is applied:
/// the record fields this writer quotes are canonical hex texts, which
/// contain no character that JSON requires escaped.
pub open spec fn spec_quote(v: Seq<char>) -> Seq<char> {
    seq!['"'] + v + seq!['"']
}

/// An optional value: the quoted text, or the JSON `null`.
pub open spec fn spec_opt_value(o: Option<String>) -> Seq<char> {
    match o {
        Some(s) => spec_quote(s@),
        None => ("null")@,
    }
}

/// A non-first object member: comma, quoted key, colon, value text.
pub open spec fn spec_field(key: Seq<char>, val: Seq<char>) -> Seq<char> {
    seq![','] + spec_quote(key) + seq![':'] + val
}

/// The comma-separated splice of the raw ommer texts.
pub open spec fn spec_uncles_items(os: Seq<OmmerHeader>) -> Seq<char>
    decreases os.len(),
{
    if os.len() == 0 {
        Seq::empty()
    } else if os.len() == 1 {
        os[0].text@
    } else {
        spec_uncles_items(os.drop_last()) + seq![','] + os.last().text@
    }
}

/// The JSON object text of one record, fields in fixed order, `uncles` last.
#[verifier::opaque]
pub open spec fn spec_record_text(r: BlockRecord) -> Seq<char> {
    seq!['{'] + spec_quote(("number")@) + seq![':'] + spec_quote(spec_hex_text(r.number as nat))
        + spec_field(("hash")@, spec_opt_value(r.hash))
        + spec_field(("parent_hash")@, spec_quote(r.parent_hash@))
        + spec_field(("uncles_hash")@, spec_quote(r.uncles_hash@))
        + spec_field(("withdrawals_root")@, spec_opt_value(r.withdrawals_root))
        + spec_field(("blob_gas_used")@, spec_opt_value(r.blob_gas_used))
        + spec_field(("excess_blob_gas")@, spec_opt_value(r.excess_blob_gas))
        + spec_field(("parent_beacon_root")@, spec_opt_value(r.parent_beacon_root))
        + spec_field(("author")@, spec_quote(r.author@))
        + spec_field(("state_root")@, spec_quote(r.state_root@))
        + spec_field(("transactions_root")@, spec_quote(r.transactions_root@))
        + spec_field(("receipts_root")@, spec_quote(r.receipts_root@))
        + spec_field(("gas_used")@, spec_quote(r.gas_used@))
        + spec_field(("gas_limit")@, spec_quote(r.gas_limit@))
        + spec_field(("base_fee_per_gas")@, spec_opt_value(r.base_fee_per_gas))
        + spec_field(("extra_data")@, spec_quote(r.extra_data@))
        + spec_field(("logs_bloom")@, spec_opt_value(r.logs_bloom))
        + spec_field(("timestamp")@, spec_quote(r.timestamp@))
        + spec_field(("difficulty")@, spec_quote(r.difficulty@))
        + spec_field(("mix_hash")@, spec_opt_value(r.mix_hash))
        + spec_field(("nonce")@, spec_opt_value(r.nonce))
        + spec_field(("uncles")@, seq!['['] + spec_uncles_items(r.ommers@) + seq![']'])
        + seq!['}']
}

/// The comma-separated record objects of the document.
pub open spec fn spec_doc_items(rs: Seq<BlockRecord>) -> Seq<char>
    decreases rs.len(),
{
    if rs.len() == 0 {
        Seq::empty()
    } else if rs.len() == 1 {
        spec_record_text(rs[0])
    } else {
        spec_doc_items(rs.drop_last()) + seq![','] + spec_record_text(rs.last())
    }
}

/// The whole document: a JSON array of the record objects, in order.
pub open spec fn spec_doc_text(rs: Seq<BlockRecord>) -> Seq<char> {
    seq!['['] + spec_doc_items(rs) + seq![']']
}

fn push_quoted(out: &mut String, v: &str)
    ensures
        final(out)@ == old(out)@ + spec_quote(v@),
{
    out.append("\"");
    out.append(v);
    out.append("\"");
    proof {
        reveal_strlit("\"");
        assert(out@ =~= old(out)@ + spec_quote(v@));
    }
}

fn push_field_opt(out: &mut String, key: &str, val: &Option<String>)
    ensures
        final(out)@ == old(out)@ + spec_field(key@, spec_opt_value(*val)),
{
    out.append(",");
    push_quoted(out, key);
    out.append(":");
    match val {
        Some(s) => push_quoted(out, s.as_str()),
        None => out.append("null"),
    }
    proof {
        reveal_strlit(",");
        reveal_strlit(":");
        assert(out@ =~= old(out)@ + spec_field(key@, spec_opt_value(*val)));
    }
}

fn push_field_str(out: &mut String, key: &str, val: &String)
    ensures
        final(out)@ == old(out)@ + spec_field(key@, spec_quote(val@)),
{
    out.append(",");
    push_quoted(out, key);
    out.append(":");
    push_quoted(out, val.as_str());
    proof {
        reveal_strlit(",");
        reveal_strlit(":");
        assert(out@ =~= old(out)@ + spec_field(key@, spec_quote(val@)));
    }
}

/// Appends the comma-separated raw ommer texts.
fn push_uncles_items(out: &mut String, os: &Vec<OmmerHeader>)
    ensures
        final(out)@ == old(out)@ + spec_uncles_items(os@),
{
    let mut i: usize = 0;
    while i < os.len()
        invariant
            0 <= i <= os@.len(),
            out@ == old(out)@ + spec_uncles_items(os@.subrange(0, i as int)),
        decreases os@.len() - i,
    {
        if i > 0 {
            out.append(",");
        }
        out.append(os[i].text.as_str());
        proof {
            reveal_strlit(",");
            let pre = os@.subrange(0, i as int);
            let cur = os@.subrange(0, i + 1);
            assert(cur.drop_last() =~= pre);
            assert(cur.last() == os@[i as int]);
            if i == 0 {
                assert(spec_uncles_items(cur) == os@[0].text@);
            }
            assert(out@ =~= old(out)@ + spec_uncles_items(cur));
        }
        i += 1;
    }
    proof {
        assert(os@.subrange(0, os@.len() as int) =~= os@);
    }
}

/// Renders one record as its JSON object text.
#[verifier::rlimit(50)]
pub fn render_record(r: &BlockRecord) -> (out: String)
    ensures
        out@ == spec_record_text(*r),
{
    let mut out = String::from_str("{");
    push_quoted(&mut out, "number");
    out.append(":");
    push_quoted(&mut out, hex_text_of(r.number).as_str());
    push_field_opt(&mut out, "hash", &r.hash);
    push_field_str(&mut out, "parent_hash", &r.parent_hash);
    push_field_str(&mut out, "uncles_hash", &r.uncles_hash);
    push_field_opt(&mut out, "withdrawals_root", &r.withdrawals_root);
    push_field_opt(&mut out, "blob_gas_used", &r.blob_gas_used);
    push_field_opt(&mut out, "excess_blob_gas", &r.excess_blob_gas);
    push_field_opt(&mut out, "parent_beacon_root", &r.parent_beacon_root);
    push_field_str(&mut out, "author", &r.author);
    push_field_str(&mut out, "state_root", &r.state_root);
    push_field_str(&mut out, "transactions_root", &r.transactions_root);
    push_field_str(&mut out, "receipts_root", &r.receipts_root);
    push_field_str(&mut out, "gas_used", &r.gas_used);
    push_field_str(&mut out, "gas_limit", &r.gas_limit);
    push_field_opt(&mut out, "base_fee_per_gas", &r.base_fee_per_gas);
    push_field_str(&mut out, "extra_data", &r.extra_data);
    push_field_opt(&mut out, "logs_bloom", &r.logs_bloom);
    push_field_str(&mut out, "timestamp", &r.timestamp);
    push_field_str(&mut out, "difficulty", &r.difficulty);
    push_field_opt(&mut out, "mix_hash", &r.mix_hash);
    push_field_opt(&mut out, "nonce", &r.nonce);
    out.append(",");
    push_quoted(&mut out, "uncles");
    out.append(":");
    out.append("[");
    push_uncles_items(&mut out, &r.ommers);
    out.append("]");
    out.append("}");
    proof {
        reveal(spec_record_text);
        reveal_strlit("{");
        reveal_strlit("}");
        reveal_strlit("[");
        reveal_strlit("]");
        reveal_strlit(",");
        reveal_strlit(":");
        assert(out@ =~= spec_record_text(*r));
    }
    out
}

/// Renders the whole document: a JSON array holding every record's object,
/// in the order the records stand in.
pub fn render_document(rs: &Vec<BlockRecord>) -> (out: String)
    ensures
        out@ == spec_doc_text(rs@),
{
    let mut out = String::from_str("[");
    proof {
        reveal_strlit("[");
    }
    let ghost base = out@;
    let mut i: usize = 0;
    while i < rs.len()
        invariant
            0 <= i <= rs@.len(),
            base == seq!['['],
            out@ == base + spec_doc_items(rs@.subrange(0, i as int)),
        decreases rs@.len() - i,
    {
        if i > 0 {
            out.append(",");
        }
        let one = render_record(&rs[i]);
        out.append(one.as_str());
        proof {
            reveal_strlit(",");
            let pre = rs@.subrange(0, i as int);
            let cur = rs@.subrange(0, i + 1);
            assert(cur.drop_last() =~= pre);
            assert(cur.last() == rs@[i as int]);
            if i == 0 {
                assert(spec_doc_items(cur) == spec_record_text(rs@[0]));
            }
            assert(out@ =~= base + spec_doc_items(cur));
        }
        i += 1;
    }
    out.append("]");
    proof {
        reveal_strlit("]");
        assert(rs@.subrange(0, rs@.len() as int) =~= rs@);
        assert(out@ =~= spec_doc_text(rs@));
    }
    out
}

/// The deterministic output file name for a range.
pub open spec fn spec_file_name(range: BlockRange) -> Seq<char> {
    ("block_headers_")@ + spec_dec_digits(range.start as nat) + seq!['-'] + spec_dec_digits(
        range.end as nat,
    ) + (".json")@
}

/// Renders the output file name, `block_headers_{start}-{end}.json`.
pub fn output_file_name(range: &BlockRange) -> (s: String)
    ensures
        s@ == spec_file_name(*range),
{
    let mut s = String::from_str("block_headers_");
    s.append(dec_text_of(range.start).as_str());
    s.append("-");
    s.append(dec_text_of(range.end).as_str());
    s.append(".json");
    proof {
        reveal_strlit("-");
        assert(s@ =~= spec_file_name(*range));
    }
    s
}

/// The fixed directory all output files are written into.
pub fn output_dir() -> (s: &'static str)
    ensures
        s@ == ("jsons")@,
{
    "jsons"
}

/// The output path: the fixed directory and the range-derived file name.
pub fn output_path(range: &BlockRange) -> (s: String)
    ensures
        s@ == ("jsons")@ + seq!['/'] + spec_file_name(*range),
{
    let mut s = String::from_str("jsons");
    s.append("/");
    s.append(output_file_name(range).as_str());
    proof {
        reveal_strlit("/");
        assert(s@ =~= ("jsons")@ + seq!['/'] + spec_file_name(*range));
    }
    s
}

} // verus!
