use block_header_export::fetch::HeaderOutcome;
use block_header_export::fetch::OmmerCountOutcome;
use block_header_export::fetch::OmmerOutcome;
use block_header_export::fetch::Phase;
use block_header_export::fetch::RangeFetcher;
use block_header_export::fetch::Request;
use block_header_export::range::BlockRange;
use block_header_export::record::OmmerHeader;
use block_header_export::record::RawHeader;

fn flow_header(n: u64) -> RawHeader {
    RawHeader {
        number: Some(n),
        hash: Some("0xaa".to_string()),
        parent_hash: "0x01".to_string(),
        uncles_hash: "0x02".to_string(),
        withdrawals_root: None,
        blob_gas_used: None,
        excess_blob_gas: None,
        parent_beacon_root: None,
        author: "0x03".to_string(),
        state_root: "0x04".to_string(),
        transactions_root: "0x05".to_string(),
        receipts_root: "0x06".to_string(),
        gas_used: "0x5208".to_string(),
        gas_limit: "0x1c9c380".to_string(),
        base_fee_per_gas: None,
        extra_data: "0x".to_string(),
        logs_bloom: Some("0x0".to_string()),
        timestamp: "0x64".to_string(),
        difficulty: "0x0".to_string(),
        mix_hash: None,
        nonce: Some("0x42".to_string()),
    }
}

#[test]
fn single_block_with_one_ommer() {
    let range = BlockRange::new(100, 100).unwrap();
    let mut f = RangeFetcher::new(range);
    assert_eq!(f.next_request(), Request::FetchHeader(100));
    f = f.on_header(HeaderOutcome::Found(flow_header(100)));
    assert_eq!(f.next_request(), Request::FetchOmmerCount(100));
    f = f.on_ommer_count(OmmerCountOutcome::Count(1));
    assert_eq!(f.next_request(), Request::FetchOmmer(100, 0));
    f = f.on_ommer(OmmerOutcome::Found(OmmerHeader { text: "{\"u\":\"0x1\"}".to_string() }));
    assert_eq!(f.next_request(), Request::Finished);
    let records = f.into_records();
    assert_eq!(records.len(), 1);
    assert_eq!(records[0].number, 100);
    assert_eq!(records[0].ommers.len(), 1);
    assert_eq!(records[0].ommers[0].text, "{\"u\":\"0x1\"}");
}

#[test]
fn absent_block_is_skipped() {
    let range = BlockRange::new(1, 5).unwrap();
    let mut f = RangeFetcher::new(range);
    for n in 1..=5u64 {
        assert_eq!(f.next_request(), Request::FetchHeader(n));
        if n == 3 {
            f = f.on_header(HeaderOutcome::Absent);
        } else {
            f = f.on_header(HeaderOutcome::Found(flow_header(n)));
            assert_eq!(f.next_request(), Request::FetchOmmerCount(n));
            f = f.on_ommer_count(OmmerCountOutcome::Unavailable);
        }
    }
    assert_eq!(f.next_request(), Request::Finished);
    let records = f.into_records();
    assert_eq!(records.len(), 4);
    let numbers: Vec<u64> = records.iter().map(|r| r.number).collect();
    assert_eq!(numbers, vec![1, 2, 4, 5]);
}

#[test]
fn transport_failure_aborts() {
    let range = BlockRange::new(1, 3).unwrap();
    let mut f = RangeFetcher::new(range);
    f = f.on_header(HeaderOutcome::Found(flow_header(1)));
    f = f.on_ommer_count(OmmerCountOutcome::Unavailable);
    assert_eq!(f.next_request(), Request::FetchHeader(2));
    f = f.on_header(HeaderOutcome::Failed);
    assert_eq!(f.next_request(), Request::Aborted);
    assert!(matches!(
        f.phase,
        Phase::Failed { reason: block_header_export::fetch::FailReason::Transport }
    ));
}

#[test]
fn missing_ommer_is_dropped_in_order() {
    let range = BlockRange::new(7, 7).unwrap();
    let mut f = RangeFetcher::new(range);
    f = f.on_header(HeaderOutcome::Found(flow_header(7)));
    f = f.on_ommer_count(OmmerCountOutcome::Count(3));
    assert_eq!(f.next_request(), Request::FetchOmmer(7, 0));
    f = f.on_ommer(OmmerOutcome::Found(OmmerHeader { text: "{\"i\":\"0x0\"}".to_string() }));
    assert_eq!(f.next_request(), Request::FetchOmmer(7, 1));
    f = f.on_ommer(OmmerOutcome::Missing);
    assert_eq!(f.next_request(), Request::FetchOmmer(7, 2));
    f = f.on_ommer(OmmerOutcome::Found(OmmerHeader { text: "{\"i\":\"0x2\"}".to_string() }));
    assert_eq!(f.next_request(), Request::Finished);
    let records = f.into_records();
    assert_eq!(records.len(), 1);
    assert_eq!(records[0].ommers.len(), 2);
    assert_eq!(records[0].ommers[0].text, "{\"i\":\"0x0\"}");
    assert_eq!(records[0].ommers[1].text, "{\"i\":\"0x2\"}");
}

#[test]
fn wrong_header_number_aborts() {
    let range = BlockRange::new(1, 2).unwrap();
    let mut f = RangeFetcher::new(range);
    f = f.on_header(HeaderOutcome::Found(flow_header(9)));
    assert_eq!(f.next_request(), Request::Aborted);
    assert!(matches!(
        f.phase,
        Phase::Failed { reason: block_header_export::fetch::FailReason::Malformed }
    ));
}

#[test]
fn malformed_header_field_aborts() {
    let range = BlockRange::new(1, 2).unwrap();
    let mut f = RangeFetcher::new(range);
    let mut h = flow_header(1);
    h.gas_used = "21000".to_string();
    f = f.on_header(HeaderOutcome::Found(h));
    assert_eq!(f.next_request(), Request::Aborted);
}

#[test]
fn zero_ommer_count_closes_block() {
    let range = BlockRange::new(4, 4).unwrap();
    let mut f = RangeFetcher::new(range);
    f = f.on_header(HeaderOutcome::Found(flow_header(4)));
    f = f.on_ommer_count(OmmerCountOutcome::Count(0));
    assert_eq!(f.next_request(), Request::Finished);
    let records = f.into_records();
    assert_eq!(records.len(), 1);
    assert_eq!(records[0].ommers.len(), 0);
}

#[test]
fn absent_last_block_still_finishes() {
    let range = BlockRange::new(0, 1).unwrap();
    let mut f = RangeFetcher::new(range);
    f = f.on_header(HeaderOutcome::Absent);
    assert_eq!(f.next_request(), Request::FetchHeader(1));
    f = f.on_header(HeaderOutcome::Absent);
    assert_eq!(f.next_request(), Request::Finished);
    assert_eq!(f.into_records().len(), 0);
}

#[test]
fn full_range_yields_one_record_per_block() {
    let range = BlockRange::new(10, 12).unwrap();
    let mut f = RangeFetcher::new(range);
    for n in 10..=12u64 {
        f = f.on_header(HeaderOutcome::Found(flow_header(n)));
        f = f.on_ommer_count(OmmerCountOutcome::Unavailable);
    }
    let records = f.into_records();
    assert_eq!(records.len(), 3);
    for (i, r) in records.iter().enumerate() {
        assert_eq!(r.number, 10 + i as u64);
    }
}
