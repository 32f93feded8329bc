use block_header_export::fetch::HeaderOutcome;
use block_header_export::fetch::OmmerCountOutcome;
use block_header_export::fetch::OmmerOutcome;
use block_header_export::fetch::RangeFetcher;
use block_header_export::json::Json;
use block_header_export::json::doc_value;
use block_header_export::json::read_record;
use block_header_export::json::read_summaries;
use block_header_export::json::record_summary;
use block_header_export::range::BlockRange;
use block_header_export::record::BlockRecord;
use block_header_export::record::OmmerHeader;
use block_header_export::record::RawHeader;
use block_header_export::writer::render_document;

fn trip_header(n: u64, with_base_fee: bool) -> RawHeader {
    RawHeader {
        number: Some(n),
        hash: Some("0xaa".to_string()),
        parent_hash: "0x01".to_string(),
        uncles_hash: "0x02".to_string(),
        withdrawals_root: None,
        blob_gas_used: None,
        excess_blob_gas: None,
        parent_beacon_root: None,
        author: "0x03".to_string(),
        state_root: "0x04".to_string(),
        transactions_root: "0x05".to_string(),
        receipts_root: "0x06".to_string(),
        gas_used: "0x5208".to_string(),
        gas_limit: "0x1c9c380".to_string(),
        base_fee_per_gas: if with_base_fee { Some("0x7".to_string()) } else { None },
        extra_data: "0x".to_string(),
        logs_bloom: Some("0x0".to_string()),
        timestamp: "0x64".to_string(),
        difficulty: "0x0".to_string(),
        mix_hash: None,
        nonce: Some("0x42".to_string()),
    }
}

fn trip_records() -> Vec<BlockRecord> {
    let range = BlockRange::new(100, 101).unwrap();
    let mut f = RangeFetcher::new(range);
    f = f.on_header(HeaderOutcome::Found(trip_header(100, false)));
    f = f.on_ommer_count(OmmerCountOutcome::Count(1));
    f = f.on_ommer(OmmerOutcome::Found(OmmerHeader {
        text: "{\"miner\":\"0x9\",\"roots\":[\"0x1\",\"0x2\"]}".to_string(),
    }));
    f = f.on_header(HeaderOutcome::Found(trip_header(101, true)));
    f = f.on_ommer_count(OmmerCountOutcome::Unavailable);
    f.into_records()
}

#[test]
fn document_reparses_with_same_numbers_and_presence() {
    let records = trip_records();
    let text = render_document(&records);
    let value: serde_json::Value = serde_json::from_str(&text).unwrap();
    let array = value.as_array().unwrap();
    assert_eq!(array.len(), 2);

    let first = array[0].as_object().unwrap();
    assert_eq!(first.get("number").unwrap().as_str().unwrap(), "0x64");
    assert!(first.get("base_fee_per_gas").unwrap().is_null());
    assert!(first.get("hash").unwrap().is_string());
    assert_eq!(first.get("uncles").unwrap().as_array().unwrap().len(), 1);
    let uncle = &first.get("uncles").unwrap().as_array().unwrap()[0];
    assert_eq!(uncle.get("miner").unwrap().as_str().unwrap(), "0x9");

    let second = array[1].as_object().unwrap();
    assert_eq!(second.get("number").unwrap().as_str().unwrap(), "0x65");
    assert_eq!(second.get("base_fee_per_gas").unwrap().as_str().unwrap(), "0x7");
    assert!(second.get("mix_hash").unwrap().is_null());
    assert_eq!(second.get("uncles").unwrap().as_array().unwrap().len(), 0);
}

#[test]
fn document_value_reads_back_to_the_same_summaries() {
    let records = trip_records();
    let doc = doc_value(&records);
    let summaries = read_summaries(&doc).unwrap();
    assert_eq!(summaries.len(), records.len());
    for (i, r) in records.iter().enumerate() {
        assert_eq!(summaries[i], record_summary(r));
    }
    assert_eq!(summaries[0].number, 100);
    assert_eq!(summaries[0].ommer_count, 1);
    assert!(!summaries[0].has_base_fee_per_gas);
    assert!(summaries[1].has_base_fee_per_gas);
}

#[test]
fn reader_rejects_foreign_shapes() {
    assert!(read_summaries(&Json::Null).is_none());
    assert!(read_record(&Json::Obj(Vec::new())).is_none());
    assert!(read_record(&Json::Str("x".to_string())).is_none());
    let doc = Json::Arr(vec![Json::Null]);
    assert!(read_summaries(&doc).is_none());
}

#[test]
fn empty_result_set_round_trips() {
    let records: Vec<BlockRecord> = Vec::new();
    let text = render_document(&records);
    let value: serde_json::Value = serde_json::from_str(&text).unwrap();
    assert_eq!(value.as_array().unwrap().len(), 0);
    let doc = doc_value(&records);
    assert_eq!(read_summaries(&doc).unwrap().len(), 0);
}
