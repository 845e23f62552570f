use biotechware::billing::{count_of_kind, worth_of_kind};
use biotechware::models::{GetRecordsResponse, ListType, Record, RecordType, ServiceLevel};
use biotechware::portal::{
    login_url, records_url, ApiError, BiotechwareApi, SessionAction, DEFAULT_GET_RECORDS_COUNT,
    MAX_PARALLEL_REQUESTS,
};
use biotechware::reassembly::BlockBuffer;
use biotechware::report_date_format::ReportDate;
use biotechware::scan::{filter_month, Scan, ScanAction, ScanPolicy};
use biotechware::telegram::TelegramBot;

fn record(id: usize, month: Option<u32>) -> Record {
    Record {
        status: "closed".to_string(),
        id: id.to_string(),
        timezone_indication: "UTC".to_string(),
        last_report_revision: "1".to_string(),
        last_report_date: month.map(|m| ReportDate { year: 2024, month: m, day: 1, hour: 9, minute: 0 }),
        record_type_id: RecordType::Ecg,
        record_type_name: "ECG a riposo".to_string(),
        firstname: "Ada".to_string(),
        lastname: "Rossi".to_string(),
        url: "/r".to_string(),
        health_code: None,
        reception_date: "01/01/2024".to_string(),
        date: "01/01/2024".to_string(),
        requester: "clinic".to_string(),
        effective_service_level: Some(ServiceLevel::HC24),
    }
}

fn ids(records: &[Record]) -> Vec<String> {
    records.iter().map(|r| r.id.clone()).collect()
}

fn run(scan: &mut Scan, feed: &[Vec<Record>]) -> Vec<(i32, i32)> {
    let mut fetched = Vec::new();
    loop {
        match scan.next_action() {
            ScanAction::Finish => return fetched,
            ScanAction::Fetch { page, num_of_pages } => {
                let block = feed.get(fetched.len()).cloned().unwrap_or_default();
                fetched.push((page, num_of_pages));
                assert!(scan.has_room());
                scan.absorb(block);
            }
        }
    }
}

#[test]
fn counters_of_three_pages_from_page_two() {
    assert_eq!(BiotechwareApi::counters(2, 3), vec![12, 23, 34]);
}

#[test]
fn counters_follow_the_formula() {
    assert_eq!(BiotechwareApi::counters(1, 1), vec![1]);
    assert_eq!(BiotechwareApi::counters(1, 4), vec![1, 12, 23, 34]);
    assert_eq!(BiotechwareApi::counters(11, 2), vec![111, 122]);
    assert_eq!(BiotechwareApi::counters(5, 0), Vec::<i32>::new());
    assert_eq!(
        BiotechwareApi::counters(0, 10),
        vec![-10, 1, 12, 23, 34, 45, 56, 67, 78, 89]
    );
    assert_eq!(DEFAULT_GET_RECORDS_COUNT, 11);
    assert_eq!(MAX_PARALLEL_REQUESTS, 10);
}

#[test]
fn block_fits_tells_the_range_of_counters() {
    assert!(BiotechwareApi::block_fits(2, 3));
    assert!(BiotechwareApi::block_fits(i32::MIN, 0));
    assert!(!BiotechwareApi::block_fits(1, -1));
    assert!(!BiotechwareApi::block_fits(i32::MAX, 1));
    assert!(!BiotechwareApi::block_fits(i32::MIN, 1));
    assert!(BiotechwareApi::block_fits(195225786, 2));
    assert!(!BiotechwareApi::block_fits(195225786, 3));
    assert_eq!(BiotechwareApi::counters(195225786, 2), vec![2147483636, i32::MAX]);
}

#[test]
fn page_requests_carry_the_fixed_fields() {
    let requests = BiotechwareApi::page_requests(ListType::Unreported, 2, 3);
    assert_eq!(requests.len(), 3);
    let counters: Vec<i32> = requests.iter().map(|q| q.counter).collect();
    assert_eq!(counters, vec![12, 23, 34]);
    for q in &requests {
        assert_eq!(q.type_log, "physician");
        assert_eq!(q.list_type, ListType::Unreported);
        assert_eq!(q.record_types_filter, "");
        assert_eq!(q.search_filter, "");
    }
}

#[test]
fn block_keeps_the_order_of_submission() {
    let answers = vec![
        Ok(vec![record(1, None), record(2, None)]),
        Ok(vec![]),
        Ok(vec![record(3, None)]),
        Ok(vec![record(4, None), record(5, None), record(6, None)]),
    ];
    let block = BiotechwareApi::get_records(answers).unwrap();
    assert_eq!(ids(&block), vec!["1", "2", "3", "4", "5", "6"]);
    assert_eq!(BiotechwareApi::get_records(vec![]).unwrap().len(), 0);
}

#[test]
fn one_failed_request_fails_the_block() {
    let answers = vec![
        Ok(vec![record(1, None)]),
        Err(ApiError::MalformedResponse),
        Ok(vec![record(2, None)]),
        Err(ApiError::TransportFailure),
    ];
    assert_eq!(BiotechwareApi::get_records(answers).unwrap_err(), ApiError::MalformedResponse);
    let answers = vec![Err(ApiError::UnrecognizedVocabularyValue)];
    assert_eq!(
        BiotechwareApi::get_records(answers).unwrap_err(),
        ApiError::UnrecognizedVocabularyValue
    );
}

#[test]
fn pages_flatten_in_order() {
    let pages = vec![vec![record(7, None)], vec![record(8, None), record(9, None)], vec![]];
    assert_eq!(ids(&BiotechwareApi::flatten_pages(pages)), vec!["7", "8", "9"]);
    let response = GetRecordsResponse { count: 1, counter: 12, list: vec![record(3, None)] };
    assert_eq!(ids(&BiotechwareApi::page_of(response)), vec!["3"]);
}

#[test]
fn session_renewal() {
    let start: i64 = 1_700_000_000;
    let mut api = BiotechwareApi::new("user".to_string(), "secret".to_string());
    assert_eq!(api.ensure_authenticated(start), SessionAction::Login);
    assert_eq!(api.login(200, start), Ok(()));
    assert_eq!(api.ensure_authenticated(start + 30 * 60), SessionAction::Proceed);
    assert_eq!(api.ensure_authenticated(start + 90 * 60), SessionAction::Login);
    assert_eq!(api.ensure_authenticated(start + 3600), SessionAction::Proceed);
    assert_eq!(api.ensure_authenticated(start + 3601), SessionAction::Login);
    assert_eq!(api.ensure_authenticated(start - 10), SessionAction::Proceed);
    assert_eq!(api.login(200, start + 5400), Ok(()));
    assert_eq!(api.ensure_authenticated(start + 5400 + 1800), SessionAction::Proceed);
}

#[test]
fn session_age_at_the_ends_of_the_clock() {
    let mut api = BiotechwareApi::new("user".to_string(), "secret".to_string());
    assert_eq!(api.login(200, i64::MIN), Ok(()));
    assert_eq!(api.ensure_authenticated(i64::MAX), SessionAction::Login);
    assert_eq!(api.login(200, i64::MAX), Ok(()));
    assert_eq!(api.ensure_authenticated(i64::MIN), SessionAction::Proceed);
}

#[test]
fn refused_login_is_an_authentication_failure() {
    let mut api = BiotechwareApi::new("user".to_string(), "secret".to_string());
    assert_eq!(api.login(401, 50), Err(ApiError::AuthenticationFailure));
    assert_eq!(api.ensure_authenticated(60), SessionAction::Login);
    assert_eq!(api.login(302, 50), Err(ApiError::AuthenticationFailure));
    assert_eq!(api.login(200, 100), Ok(()));
    assert_eq!(api.login(500, 5000), Err(ApiError::AuthenticationFailure));
    assert_eq!(api.ensure_authenticated(3700), SessionAction::Proceed);
    assert_eq!(api.ensure_authenticated(3701), SessionAction::Login);
}

#[test]
fn login_form_and_addresses() {
    let api = BiotechwareApi::new("user".to_string(), "secret".to_string());
    let form = api.login_request();
    assert_eq!(form.login, "user");
    assert_eq!(form.password, "secret");
    assert_eq!(login_url(), "https://portal.biotechware.com/login_handler?__logins=0&came_from=%2F");
    assert_eq!(records_url(), "https://portal.biotechware.com/manage/ecg/get_other_records");
}

#[test]
fn month_filter_keeps_order_and_drops_undated() {
    let records = vec![
        record(1, Some(3)),
        record(2, None),
        record(3, Some(4)),
        record(4, Some(3)),
        record(5, Some(12)),
    ];
    assert_eq!(ids(&filter_month(records.clone(), 3)), vec!["1", "4"]);
    assert_eq!(ids(&filter_month(records.clone(), 12)), vec!["5"]);
    assert_eq!(filter_month(records, 7).len(), 0);
    assert!(record(1, Some(3)).is_reported_in(3));
    assert!(!record(1, Some(3)).is_reported_in(4));
    assert!(!record(1, None).is_reported_in(3));
}

#[test]
fn exhaustive_scan_of_one_full_superblock() {
    let full: Vec<Record> = (0..110).map(|i| record(i, None)).collect();
    let mut scan = Scan::get_all_records(ListType::Unreported);
    let fetched = run(&mut scan, &[full, vec![]]);
    assert_eq!(fetched, vec![(0, 10), (10, 10)]);
    let records = scan.into_records();
    assert_eq!(records.len(), 110);
    assert_eq!(ids(&records), (0..110).map(|i| i.to_string()).collect::<Vec<_>>());
}

#[test]
fn exhaustive_scan_stops_at_a_short_superblock() {
    let full: Vec<Record> = (0..110).map(|i| record(i, None)).collect();
    let short: Vec<Record> = (110..150).map(|i| record(i, None)).collect();
    let mut scan = Scan::get_all_records(ListType::Reported);
    assert_eq!(scan.policy, ScanPolicy::Exhaustive);
    let fetched = run(&mut scan, &[full, short, vec![record(999, None)]]);
    assert_eq!(fetched, vec![(0, 10), (10, 10)]);
    assert!(scan.finished);
    assert_eq!(scan.records.len(), 150);
    let mut empty = Scan::get_all_records(ListType::Reported);
    assert_eq!(run(&mut empty, &[]), vec![(0, 10)]);
    assert_eq!(empty.into_records().len(), 0);
}

#[test]
fn month_scan_stops_at_a_superblock_without_matches() {
    let mut first: Vec<Record> = vec![record(1, Some(5)), record(2, Some(5)), record(3, Some(5))];
    first.extend((4..111).map(|i| record(i, Some(4))));
    let second: Vec<Record> = (111..221).map(|i| record(i, Some(3))).collect();
    let third: Vec<Record> = vec![record(500, Some(5))];
    let mut scan = Scan::get_records_of_month(ListType::Reported, 5);
    assert_eq!(scan.policy, ScanPolicy::Month(5));
    let fetched = run(&mut scan, &[first, second, third]);
    assert_eq!(fetched, vec![(0, 10), (10, 10)]);
    assert_eq!(ids(&scan.into_records()), vec!["1", "2", "3"]);
}

#[test]
fn month_scan_goes_on_while_superblocks_match() {
    let first: Vec<Record> = vec![record(1, Some(5)), record(2, None)];
    let second: Vec<Record> = vec![record(3, Some(4)), record(4, Some(5))];
    let third: Vec<Record> = vec![record(5, None)];
    let mut scan = Scan::get_records_of_month(ListType::Reported, 5);
    let fetched = run(&mut scan, &[first, second, third]);
    assert_eq!(fetched, vec![(0, 10), (10, 10), (20, 10)]);
    assert_eq!(ids(&scan.into_records()), vec!["1", "4"]);
}

#[test]
fn scan_cursor_has_room_up_to_the_last_superblock() {
    let mut scan = Scan::get_all_records(ListType::Reported);
    assert!(scan.has_room());
    scan.page = i32::MAX - 10;
    assert!(scan.has_room());
    scan.page = i32::MAX - 9;
    assert!(!scan.has_room());
}

#[test]
fn bot_endpoint_and_body() {
    let bot = TelegramBot::new("123:abc".to_string(), "-42".to_string());
    assert_eq!(bot.endpoint(), "https://api.telegram.org/bot123:abc/sendMessage");
    let body = bot.message_body("hello".to_string());
    assert_eq!(body.chat_id, "-42");
    assert_eq!(body.text, "hello");
    assert!(body.disable_web_page_preview);
}

#[test]
fn answers_out_of_order_give_the_block_in_order() {
    let pages = vec![
        vec![record(1, None), record(2, None)],
        vec![record(3, None)],
        vec![],
        vec![record(4, None), record(5, None)],
    ];
    for order in [[0, 1, 2, 3], [3, 2, 1, 0], [2, 0, 3, 1], [1, 3, 0, 2]] {
        let mut buffer = BlockBuffer::new(4);
        assert!(!buffer.is_complete());
        for slot in order {
            assert!(!buffer.is_complete());
            assert!(buffer.deliver(slot, Ok(pages[slot].clone())));
        }
        assert!(buffer.is_complete());
        let block = buffer.finish().unwrap().unwrap();
        assert_eq!(ids(&block), vec!["1", "2", "3", "4", "5"]);
    }
}

#[test]
fn buffer_drops_what_it_cannot_file() {
    let mut buffer = BlockBuffer::new(2);
    assert!(buffer.deliver(1, Ok(vec![record(1, None)])));
    assert!(!buffer.deliver(1, Ok(vec![record(2, None)])));
    assert!(!buffer.deliver(2, Ok(vec![record(3, None)])));
    assert!(!buffer.is_complete());
    assert!(buffer.deliver(0, Ok(vec![record(4, None)])));
    assert_eq!(ids(&buffer.finish().unwrap().unwrap()), vec!["4", "1"]);
}

#[test]
fn buffer_with_a_missing_answer_gives_no_block() {
    let mut buffer = BlockBuffer::new(3);
    assert!(buffer.deliver(0, Ok(vec![record(1, None)])));
    assert!(buffer.deliver(2, Err(ApiError::TransportFailure)));
    assert!(buffer.finish().is_none());
    assert_eq!(BlockBuffer::new(0).finish().unwrap().unwrap().len(), 0);
    assert!(BlockBuffer::collect(vec![None]).is_none());
    assert_eq!(BlockBuffer::collect(vec![Some(Ok(vec![])), Some(Err(ApiError::MalformedResponse))]).unwrap().len(), 2);
}

#[test]
fn buffer_reports_the_earliest_failure() {
    let mut buffer = BlockBuffer::new(3);
    assert!(buffer.deliver(2, Err(ApiError::TransportFailure)));
    assert!(buffer.deliver(1, Err(ApiError::MalformedResponse)));
    assert!(buffer.deliver(0, Ok(vec![record(1, None)])));
    assert_eq!(buffer.finish().unwrap().unwrap_err(), ApiError::MalformedResponse);
}

#[test]
fn session_by_the_clock() {
    let mut api = BiotechwareApi::new("user".to_string(), "secret".to_string());
    assert_eq!(api.ensure_authenticated_now(), SessionAction::Login);
    assert_eq!(api.login_now(403), Err(ApiError::AuthenticationFailure));
    assert_eq!(api.ensure_authenticated_now(), SessionAction::Login);
    assert_eq!(api.login_now(200), Ok(()));
    assert_eq!(api.ensure_authenticated_now(), SessionAction::Proceed);
    assert_eq!(api.login(200, 0), Ok(()));
    assert_eq!(api.ensure_authenticated_now(), SessionAction::Login);
}

#[test]
fn record_label_mirrors_its_kind() {
    let mut r = record(1, None);
    assert!(r.has_matching_label());
    r.record_type_id = RecordType::Abpm;
    assert!(!r.has_matching_label());
    r.record_type_name = "ABPM".to_string();
    assert!(r.has_matching_label());
}

#[test]
fn records_are_counted_and_priced_by_kind() {
    let mut records: Vec<Record> = (0..5).map(|i| record(i, None)).collect();
    records[1].record_type_id = RecordType::HolterEcg;
    records[3].record_type_id = RecordType::HolterEcg;
    assert_eq!(count_of_kind(&records, RecordType::Ecg), 3);
    assert_eq!(count_of_kind(&records, RecordType::HolterEcg), 2);
    assert_eq!(count_of_kind(&records, RecordType::Abpm), 0);
    assert_eq!(worth_of_kind(&records, RecordType::Ecg), Some(12));
    assert_eq!(worth_of_kind(&records, RecordType::HolterEcg), Some(30));
    assert_eq!(worth_of_kind(&records, RecordType::Abpm), Some(0));
    assert_eq!(count_of_kind(&Vec::new(), RecordType::Ecg), 0);
}
