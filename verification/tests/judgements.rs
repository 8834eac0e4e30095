//! The judgements that the steps rest on: locations, listings, payloads
//! and the text of the report.

use cluster_status::{
    BrokerRecord, Classification, Location, ReportLine, StatusOpt, TopicRecord,
};

fn broker(name: &str, online: bool) -> BrokerRecord {
    BrokerRecord { name: name.to_string(), online }
}

#[test]
fn profile_local_is_this_machine() {
    assert_eq!(Location::from_profile(Some("local")), Location::Local);
    assert_eq!(StatusOpt::cluster_location_description(Some("local")), "locally");
}

#[test]
fn profile_that_holds_cloud_is_a_cloud_cluster() {
    let names =
        ["cloud", "prod-cloud", "cloud-eu", "my-cloud-1", "xcloudx", "localcloud", "ccloud"];
    for name in names {
        assert_eq!(Location::from_profile(Some(name)), Location::CloudK8s, "{}", name);
        assert_eq!(StatusOpt::cluster_location_description(Some(name)), "on cloud based k8s");
    }
}

#[test]
fn any_other_profile_is_a_local_kubernetes() {
    for name in ["", "k8s", "minikube", "Local", "LOCAL", "local ", "locals", "loca", "Cloud",
        "clou", "cloubd", "c-l-o-u-d", "clou\u{0301}d", "loud"]
    {
        assert_eq!(Location::from_profile(Some(name)), Location::LocalK8s, "{:?}", name);
        assert_eq!(StatusOpt::cluster_location_description(Some(name)), "on local k8s");
    }
}

#[test]
fn no_profile_is_a_local_kubernetes() {
    assert_eq!(Location::from_profile(None), Location::LocalK8s);
    assert_eq!(StatusOpt::cluster_location_description(None), "on local k8s");
}

#[test]
fn profile_names_beyond_ascii_are_searched_by_character() {
    assert_eq!(Location::from_profile(Some("\u{e9}t\u{e9}-cloud")), Location::CloudK8s);
    assert_eq!(Location::from_profile(Some("\u{4e91}cloud\u{4e91}")), Location::CloudK8s);
    assert_eq!(Location::from_profile(Some("\u{4e91}")), Location::LocalK8s);
}

#[test]
fn locations_are_described_in_fixed_words() {
    assert_eq!(Location::Local.describe(), "locally");
    assert_eq!(Location::CloudK8s.describe(), "on cloud based k8s");
    assert_eq!(Location::LocalK8s.describe(), "on local k8s");
}

#[test]
fn report_lines_have_fixed_text() {
    assert_eq!(ReportLine::Running(Location::Local).render(), "SC Running locally");
    assert_eq!(ReportLine::Running(Location::CloudK8s).render(), "SC Running on cloud based k8s");
    assert_eq!(ReportLine::Running(Location::LocalK8s).render(), "SC Running on local k8s");
    assert_eq!(ReportLine::Unreachable.render(), "none");
    assert_eq!(ReportLine::SpusEmpty.render(), "spus are empty");
    assert_eq!(ReportLine::NoSpusRunning.render(), "no spus running");
}

#[test]
fn classifications_are_three_and_distinct() {
    assert_ne!(Classification::NotRunning, Classification::RunningEmpty);
    assert_ne!(Classification::RunningEmpty, Classification::RunningWithData);
    assert_ne!(Classification::NotRunning, Classification::RunningWithData);
}

#[test]
fn brokers_run_if_one_of_them_is_online() {
    assert!(StatusOpt::spus_running(&Some(vec![broker("a", true)])));
    assert!(StatusOpt::spus_running(&Some(vec![broker("a", false), broker("b", true)])));
    assert!(StatusOpt::spus_running(&Some(vec![broker("a", true), broker("b", false)])));
}

#[test]
fn brokers_do_not_run_if_none_is_online() {
    assert!(!StatusOpt::spus_running(&None));
    assert!(!StatusOpt::spus_running(&Some(vec![])));
    assert!(!StatusOpt::spus_running(&Some(vec![broker("a", false), broker("b", false)])));
}

#[test]
fn topics_keep_the_order_of_the_listing() {
    let listing = vec![
        TopicRecord { name: "b".to_string() },
        TopicRecord { name: "a".to_string() },
        TopicRecord { name: "b".to_string() },
    ];
    assert_eq!(StatusOpt::topics(Some(listing)), vec!["b", "a", "b"]);
}

#[test]
fn failed_or_empty_topic_listing_gives_no_topic() {
    assert!(StatusOpt::topics(None).is_empty());
    assert!(StatusOpt::topics(Some(vec![])).is_empty());
}

#[test]
fn partitions_are_counted_and_a_failed_listing_counts_as_none() {
    assert_eq!(StatusOpt::num_partitions(Some(3)), 3);
    assert_eq!(StatusOpt::num_partitions(Some(0)), 0);
    assert_eq!(StatusOpt::num_partitions(Some(usize::MAX)), usize::MAX);
    assert_eq!(StatusOpt::num_partitions(None), 0);
}

#[test]
fn last_record_is_the_payload_as_text() {
    assert_eq!(StatusOpt::last_record(Some(b"hello".to_vec())), Some("hello".to_string()));
    assert_eq!(
        StatusOpt::last_record(Some("gr\u{fc}\u{df}e \u{1f496}".as_bytes().to_vec())),
        Some("gr\u{fc}\u{df}e \u{1f496}".to_string())
    );
    assert_eq!(StatusOpt::last_record(Some(vec![])), Some(String::new()));
}

#[test]
fn last_record_replaces_what_is_not_text() {
    assert_eq!(
        StatusOpt::last_record(Some(vec![b'a', 0xff, b'b'])),
        Some("a\u{fffd}b".to_string())
    );
    assert_eq!(
        StatusOpt::last_record(Some(vec![0xf0, 0x9f, 0x92])),
        Some("\u{fffd}".to_string())
    );
    assert_eq!(
        StatusOpt::last_record(Some(vec![0xc0, 0x80])),
        Some("\u{fffd}\u{fffd}".to_string())
    );
}

#[test]
fn no_read_is_no_record() {
    assert_eq!(StatusOpt::last_record(None), None);
}
