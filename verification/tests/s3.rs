use crane::s3::{log_key_prefix, stderr_key, stdout_key, Bucket, StorageError};
use rusoto_core::Region;

fn bucket(region: &str) -> Bucket {
    Bucket::new(region.to_string(), "ci-logs".to_string(), "main/linux".to_string())
}

#[test]
fn log_keys_are_siblings_below_the_commit() {
    assert_eq!(stdout_key("abc123"), "abc123/stdout.txt");
    assert_eq!(stderr_key("abc123"), "abc123/stderr.txt");
}

#[test]
fn key_prefix_is_branch_then_context() {
    assert_eq!(log_key_prefix("main", "linux"), "main/linux");
    assert_eq!(log_key_prefix("release/1.0", "ci"), "release/1.0/ci");
}

#[test]
fn object_key_is_below_the_prefix() {
    assert_eq!(bucket("eu-west-1").object_key("abc123/stdout.txt"), "main/linux/abc123/stdout.txt");
}

#[test]
fn object_url_follows_from_the_names() {
    assert_eq!(
        bucket("eu-west-1").object_url("abc123/stderr.txt"),
        "https://s3-eu-west-1.amazonaws.com/ci-logs/main/linux/abc123/stderr.txt"
    );
}

#[test]
fn status_url_is_the_url_of_the_stdout_log() {
    let b = bucket("us-east-2");
    assert_eq!(
        b.get_url("abc123"),
        "https://s3-us-east-2.amazonaws.com/ci-logs/main/linux/abc123/stdout.txt"
    );
    assert_eq!(b.get_url("abc123"), b.object_url(&stdout_key("abc123")));
}

#[test]
fn put_request_names_bucket_key_and_body() {
    let request = bucket("eu-west-1").put_request("abc123/stdout.txt", vec![1, 2, 3]).unwrap();
    assert_eq!(request.region, Region::EuWest1);
    assert_eq!(request.bucket, "ci-logs");
    assert_eq!(request.key, "main/linux/abc123/stdout.txt");
    assert_eq!(request.body, vec![1, 2, 3]);
}

#[test]
fn put_request_knows_regions_in_any_case() {
    let request = bucket("US-West-2").put_request("k", Vec::new()).unwrap();
    assert_eq!(request.region, Region::UsWest2);
    assert!(request.body.is_empty());
}

#[test]
fn put_request_refuses_an_unknown_region() {
    match bucket("mars-north-1").put_request("k", vec![7]) {
        Err(StorageError::InvalidRegion { name }) => assert_eq!(name, "mars-north-1"),
        other => panic!("unexpected: {:?}", other),
    }
    assert!(bucket("").put_request("k", vec![7]).is_err());
}

#[test]
fn put_request_in_uses_the_region_given() {
    let request = bucket("nowhere").put_request_in(Region::SaEast1, "k", vec![9, 9]);
    assert_eq!(request.region, Region::SaEast1);
    assert_eq!(request.bucket, "ci-logs");
    assert_eq!(request.key, "main/linux/k");
    assert_eq!(request.body, vec![9, 9]);
}

#[test]
fn put_request_goes_to_the_region_that_the_name_stands_for() {
    for (name, region) in [
        ("us-east-1", Region::UsEast1),
        ("eu-central-1", Region::EuCentral1),
        ("ap-southeast-2", Region::ApSoutheast2),
        ("cnnorth1", Region::CnNorth1),
    ] {
        let request = bucket(name).put_request("k", vec![1]).unwrap();
        assert_eq!(request.region, region);
    }
}
