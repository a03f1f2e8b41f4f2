use aws_tui::services::aws::cloudwatch_client::{
    format_log_event, format_log_events, log_events_request, log_group_listing, log_line_from,
    CloudWatchClientError, LogEvent, LogEventsRequest,
};
use aws_tui::services::aws::dynamo_client::{
    key_query, needs_sort_key, primary_key, sort_key, DynamoDBClientError, KeyElement, KeyType,
};
use aws_tui::services::aws::s3_client::{
    bucket_names, details_or_error, object_details, object_listing, object_record, present,
    record_or_fallback, signed_decimal, S3ClientError,
};
use aws_tui::services::aws::tab_clients::TabClients;
use aws_tui::services::aws::ClientError;
use aws_tui::services::read_config::{profile_names, strip_profile};
use aws_tui::text::{contains, find, is_whitespace, join_with_newlines, trim};
use aws_tui::widgets::popup::{details_with_part, json_part, pretty_or};

fn element(name: &str, key_type: KeyType) -> KeyElement {
    KeyElement { attribute_name: name.to_string(), key_type }
}

fn chars(s: &str) -> Vec<char> {
    s.chars().collect()
}

#[test]
fn profile_names_are_stripped_and_sorted() {
    let sections = vec![
        "profile prod".to_string(),
        "default".to_string(),
        "profile dev".to_string(),
        "profile Admin".to_string(),
        "profiles".to_string(),
    ];
    assert_eq!(profile_names(&sections), vec!["Admin", "dev", "prod"]);
}

#[test]
fn profile_names_empty_and_default_only() {
    assert!(profile_names(&Vec::new()).is_empty());
    assert!(profile_names(&vec!["default".to_string()]).is_empty());
}

#[test]
fn profile_names_sort_by_character() {
    let sections = vec![
        "profile b".to_string(),
        "profile ab".to_string(),
        "profile a".to_string(),
        "profile  z".to_string(),
    ];
    assert_eq!(profile_names(&sections), vec![" z", "a", "ab", "b"]);
}

#[test]
fn strip_profile_prefix() {
    assert_eq!(strip_profile("profile x"), Some("x".to_string()));
    assert_eq!(strip_profile("profile "), Some(String::new()));
    assert_eq!(strip_profile("profilex"), None);
    assert_eq!(strip_profile("default"), None);
}

#[test]
fn dynamodb_primary_key_is_the_hash_key() {
    let schema = vec![element("created", KeyType::Range), element("id", KeyType::Hash)];
    assert_eq!(primary_key(Some(&schema)).ok(), Some("id".to_string()));
    assert_eq!(sort_key(Some(&schema)).ok(), Some(Some("created".to_string())));
}

#[test]
fn dynamodb_missing_keys() {
    let only_range = vec![element("created", KeyType::Range)];
    assert!(matches!(primary_key(Some(&only_range)), Err(DynamoDBClientError::NoPrimaryKeyFound)));
    assert!(matches!(primary_key(Some(&Vec::new())), Err(DynamoDBClientError::NoPrimaryKeyFound)));
    assert!(matches!(primary_key(None), Err(DynamoDBClientError::NoPrimaryKeyFound)));
    let only_hash = vec![element("id", KeyType::Hash), element("x", KeyType::Other)];
    assert_eq!(sort_key(Some(&only_hash)).ok(), Some(None));
    assert!(matches!(sort_key(None), Err(DynamoDBClientError::NoPrimaryKeyFound)));
}

#[test]
fn dynamodb_key_query_partition_only() {
    let q = key_query("id", "42".to_string(), None, Some("created".to_string()));
    assert_eq!(q.key_condition_expression, "id = :pk");
    assert_eq!(q.expression_attribute_values, vec![(":pk".to_string(), "42".to_string())]);
}

#[test]
fn dynamodb_key_query_with_sort_key() {
    let q = key_query("id", "42".to_string(), Some("2024".to_string()), Some("created".to_string()));
    assert_eq!(q.key_condition_expression, "id = :pk AND created = :sk");
    assert_eq!(
        q.expression_attribute_values,
        vec![(":pk".to_string(), "42".to_string()), (":sk".to_string(), "2024".to_string())]
    );
}

#[test]
fn dynamodb_key_query_ignores_empty_sort_value_or_missing_sort_key() {
    let q = key_query("pk", "v".to_string(), Some(String::new()), Some("sk".to_string()));
    assert_eq!(q.key_condition_expression, "pk = :pk");
    let q = key_query("pk", "v".to_string(), Some("s".to_string()), None);
    assert_eq!(q.key_condition_expression, "pk = :pk");
    assert_eq!(q.expression_attribute_values.len(), 1);
    assert!(needs_sort_key(&Some("s".to_string())));
    assert!(!needs_sort_key(&Some(String::new())));
    assert!(!needs_sort_key(&None));
}

#[test]
fn dynamodb_error_messages() {
    assert_eq!(DynamoDBClientError::NoPrimaryKeyFound.message(), "No primary key found for table");
    assert_eq!(DynamoDBClientError::QueryError("boom".to_string()).message(), "Query error: boom");
    assert_eq!(
        DynamoDBClientError::ListTablesError("x".to_string()).message(),
        "ListTables error: x"
    );
    assert_eq!(
        DynamoDBClientError::DescribeTableError("y".to_string()).message(),
        "DescribeTable error: y"
    );
    assert_eq!(
        DynamoDBClientError::AWSDynamoDBError("z".to_string()).message(),
        "AWS SDK error: z"
    );
}

#[test]
fn client_error_messages_wrap_service_errors() {
    let e = ClientError::AWSDynamoDBError(DynamoDBClientError::NoPrimaryKeyFound);
    assert_eq!(e.message(), "AWS DynamoDBSDK error: No primary key found for table");
    let e = ClientError::AWSS3Error(S3ClientError::NoObjectsFound);
    assert_eq!(e.message(), "AWS S3SDK error: No objects found in bucket matching prefix");
    let e = ClientError::AWSCloudWatchError(CloudWatchClientError::AwsError("t".to_string()));
    assert_eq!(e.message(), "AWS CloudWatch error: AWS SDK error: t");
    assert_eq!(
        CloudWatchClientError::ConnectionFailed("dev".to_string()).message(),
        "Failed to connect with profile: dev"
    );
}

#[test]
fn s3_error_messages() {
    assert_eq!(S3ClientError::AwsError("e".to_string()).message(), "AWS SDK error: e");
    assert_eq!(
        S3ClientError::ConnectionFailed("dev".to_string()).message(),
        "Failed to connect with profile: dev"
    );
    assert_eq!(
        S3ClientError::SerializationError("s".to_string()).message(),
        "Serialization error: s"
    );
}

#[test]
fn s3_listings() {
    let names = vec![Some("a".to_string()), None, Some("b".to_string())];
    assert_eq!(present(names.clone()), vec!["a", "b"]);
    assert_eq!(bucket_names(names), vec!["a", "b"]);
    assert_eq!(object_listing(Vec::new()), vec!["No objects found"]);
    assert_eq!(object_listing(vec!["k".to_string()]), vec!["k"]);
}

#[test]
fn cloudwatch_log_groups() {
    assert_eq!(log_group_listing(vec![None]), vec!["No log groups found"]);
    assert_eq!(log_group_listing(vec![Some("/aws/lambda/x".to_string())]), vec!["/aws/lambda/x"]);
}

#[test]
fn cloudwatch_log_lines_use_utc_time() {
    let events = vec![
        LogEvent { timestamp: Some(0), message: Some("hello".to_string()) },
        LogEvent { timestamp: Some(1_700_000_000_123), message: None },
        LogEvent { timestamp: None, message: Some("no time".to_string()) },
    ];
    assert_eq!(
        format_log_events(events, false),
        vec!["[1970-01-01 00:00:00] hello", "[2023-11-14 22:13:20] ", "[] no time"]
    );
}

#[test]
fn cloudwatch_empty_listing_notices() {
    assert_eq!(format_log_events(Vec::new(), false), vec!["No log events found"]);
    assert_eq!(format_log_events(Vec::new(), true), vec!["No matching logs found"]);
}

#[test]
fn cloudwatch_out_of_range_time_is_left_empty() {
    let e = LogEvent { timestamp: Some(i64::MAX), message: Some("m".to_string()) };
    assert_eq!(format_log_event(&e), "[] m");
    assert_eq!(log_line_from(Some("t".to_string()), &None), "[t] ");
}

#[test]
fn tab_clients_switching_profile_drops_clients() {
    let mut c: TabClients<u8, u16, u32> = TabClients::new("dev".to_string(), "eu-west-1".to_string());
    c.store_s3_client(1);
    c.store_dynamodb_client(2);
    c.set_profile("dev".to_string());
    assert_eq!(c.s3_client(), Some(&1));
    c.set_profile("prod".to_string());
    assert_eq!(c.s3_client(), None);
    assert_eq!(c.dynamodb_client(), None);
    assert_eq!(c.profile(), "prod");
    assert_eq!(c.region(), "eu-west-1");
}

#[test]
fn text_search_and_trim() {
    assert_eq!(find(&chars("abcabc"), &chars("ca")), Some(2));
    assert_eq!(find(&chars("abc"), &chars("x")), None);
    assert!(contains(&chars("hello"), &chars("")));
    assert_eq!(trim(&chars("  a b \t\n")), chars("a b"));
    assert_eq!(join_with_newlines(&vec!["a".to_string(), "b".to_string()]), "a\nb");
}

#[test]
fn details_pieces() {
    assert_eq!(json_part("[t] {\"a\": 1}  "), Some("{\"a\": 1}".to_string()));
    assert_eq!(json_part("{\"a\": 1}"), None);
    let content = "orig".to_string();
    assert_eq!(pretty_or(&content, Some(Some("p".to_string()))), "p");
    assert_eq!(pretty_or(&content, Some(None)), "orig");
    assert_eq!(pretty_or(&content, None), "orig");
    assert_eq!(details_with_part(&content, Some(None), Some(Some("w".to_string()))), "orig");
    assert_eq!(details_with_part(&content, None, Some(Some("w".to_string()))), "w");
    assert_eq!(details_with_part(&content, Some(Some("q".to_string())), None), "q");
}

#[test]
fn s3_object_record_is_compact_json() {
    assert_eq!(
        object_record("a/b.txt", 42, "2024-01-02T03:04:05Z", "\"abc\""),
        "{\"etag\":\"\\\"abc\\\"\",\"key\":\"a/b.txt\",\"last_modified\":\"2024-01-02T03:04:05Z\",\"size\":\"42 bytes\"}"
    );
    assert_eq!(record_or_fallback("k", None), "{\"key\": \"k\"}");
    assert_eq!(record_or_fallback("k", Some("x".to_string())), "x");
}

#[test]
fn s3_object_details_are_pretty_json() {
    let d = object_details("k", "b", "text/plain", 0, "t", "e", None).ok().unwrap();
    assert_eq!(
        d,
        "{\n  \"bucket\": \"b\",\n  \"content_type\": \"text/plain\",\n  \"etag\": \"e\",\n  \"key\": \"k\",\n  \"last_modified\": \"t\",\n  \"metadata\": null,\n  \"size\": \"0 bytes\"\n}"
    );
    let m = Some(vec![("owner".to_string(), "me".to_string())]);
    let d = object_details("k", "b", "", -3, "", "", m).ok().unwrap();
    assert!(d.contains("\"metadata\": {\n    \"owner\": \"me\"\n  }"));
    assert!(d.contains("\"size\": \"-3 bytes\""));
    assert!(matches!(
        details_or_error(Err("bad".to_string())),
        Err(S3ClientError::SerializationError(m)) if m == "bad"
    ));
}

#[test]
fn signed_decimals() {
    assert_eq!(signed_decimal(0), "0");
    assert_eq!(signed_decimal(-15), "-15");
    assert_eq!(signed_decimal(i64::MIN), "-9223372036854775808");
    assert_eq!(signed_decimal(i64::MAX), "9223372036854775807");
}

#[test]
fn log_events_request_by_filter() {
    match log_events_request("ERROR") {
        LogEventsRequest::Filter { pattern, limit } => {
            assert_eq!(pattern, "ERROR");
            assert_eq!(limit, 100);
        }
        LogEventsRequest::Latest { .. } => panic!("a pattern filters"),
    }
    assert!(matches!(log_events_request(""), LogEventsRequest::Latest { limit: 100 }));
}

#[test]
fn whitespace_is_the_unicode_white_space_set() {
    for c in (0..=0x10FFFFu32).filter_map(char::from_u32) {
        assert_eq!(is_whitespace(c), c.is_whitespace(), "{:?}", c);
    }
}
