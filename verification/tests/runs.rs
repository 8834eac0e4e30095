//! Whole runs of the status command against a scripted cluster.

use cluster_status::{
    BrokerRecord, Classification, Location, PartitionRecord, ProbeAction, ProbeEvent,
    ProbeOutcome, ProbeState, StatusOpt, TopicRecord,
};

/// A topic of the scripted cluster: its name, and what a tail read of each
/// of its partitions delivers. `partitions` is `None` where the partition
/// listing fails.
struct Topic {
    name: &'static str,
    partitions: Option<Vec<Option<Vec<u8>>>>,
}

/// What the scripted cluster answers.
struct Script {
    connection: Result<Option<&'static str>, &'static str>,
    brokers: Option<Vec<(&'static str, bool)>>,
    topics: Option<Vec<Topic>>,
}

/// What a run did: the lines it printed, the calls it made, and its end.
struct Log {
    lines: Vec<String>,
    connects: usize,
    broker_listings: usize,
    topic_listings: usize,
    partition_listings: Vec<String>,
    tail_reads: Vec<(String, usize)>,
    end: ProbeState,
}

fn answer(script: &Script, action: &ProbeAction, log: &mut Log) -> ProbeEvent {
    match action {
        ProbeAction::Connect => {
            log.connects += 1;
            match &script.connection {
                Ok(profile) => ProbeEvent::Connected { profile: profile.map(|p| p.to_string()) },
                Err(error) => ProbeEvent::ConnectFailed { error: error.to_string() },
            }
        }
        ProbeAction::ListBrokers => {
            log.broker_listings += 1;
            ProbeEvent::Brokers(script.brokers.as_ref().map(|brokers| {
                brokers
                    .iter()
                    .map(|(name, online)| BrokerRecord { name: name.to_string(), online: *online })
                    .collect()
            }))
        }
        ProbeAction::ListTopics => {
            log.topic_listings += 1;
            ProbeEvent::Topics(script.topics.as_ref().map(|topics| {
                topics.iter().map(|t| TopicRecord { name: t.name.to_string() }).collect()
            }))
        }
        ProbeAction::ListPartitions { topic } => {
            log.partition_listings.push(topic.clone());
            let found = script.topics.as_ref().and_then(|topics| {
                topics.iter().find(|t| t.name == topic.as_str())
            });
            ProbeEvent::Partitions(
                found.and_then(|t| t.partitions.as_ref()).map(|partitions| partitions.len()),
            )
        }
        ProbeAction::ReadTail { partition, from_end, at_most } => {
            assert_eq!(*from_end, 1);
            assert_eq!(*at_most, 1);
            log.tail_reads.push((partition.topic.clone(), partition.index));
            let found = script.topics.as_ref().and_then(|topics| {
                topics.iter().find(|t| t.name == partition.topic.as_str())
            });
            ProbeEvent::Tail(
                found
                    .and_then(|t| t.partitions.as_ref())
                    .and_then(|partitions| partitions.get(partition.index))
                    .and_then(|read| read.clone()),
            )
        }
        ProbeAction::Finish => unreachable!("a run that has ended asks nothing"),
    }
}

fn drive(script: &Script) -> Log {
    let opt = StatusOpt {};
    let mut log = Log {
        lines: Vec::new(),
        connects: 0,
        broker_listings: 0,
        topic_listings: 0,
        partition_listings: Vec::new(),
        tail_reads: Vec::new(),
        end: ProbeState::new(),
    };
    let mut state = ProbeState::new();
    let mut steps = 0;
    while !state.is_terminal() {
        steps += 1;
        assert!(steps < 10_000, "the run does not end");
        let action = state.pending();
        let event = answer(script, &action, &mut log);
        let step = opt.process(state, event);
        if let Some(line) = step.say {
            log.lines.push(line.render());
        }
        state = step.state;
    }
    assert_eq!(state.pending(), ProbeAction::Finish);
    log.end = state;
    log
}

fn read(text: &str) -> Option<Vec<u8>> {
    Some(text.as_bytes().to_vec())
}

fn reads(log: &Log) -> Vec<(&str, usize)> {
    log.tail_reads.iter().map(|(topic, index)| (topic.as_str(), *index)).collect()
}

fn ended(classification: Classification, location: Option<Location>) -> ProbeState {
    ProbeState::Finished {
        outcome: ProbeOutcome { classification, location },
        error: None,
        evidence: None,
    }
}

#[test]
fn local_profile_with_a_broker_and_no_topic_runs_empty() {
    let log = drive(&Script {
        connection: Ok(Some("local")),
        brokers: Some(vec![("5001", true)]),
        topics: Some(vec![]),
    });
    assert_eq!(log.lines, vec!["SC Running locally", "spus are empty"]);
    assert_eq!(log.end, ended(Classification::RunningEmpty, Some(Location::Local)));
}

#[test]
fn cloud_profile_without_online_broker_is_not_running() {
    let log = drive(&Script {
        connection: Ok(Some("prod-cloud")),
        brokers: Some(vec![]),
        topics: Some(vec![Topic { name: "sensors", partitions: Some(vec![read("x")]) }]),
    });
    assert_eq!(log.lines, vec!["SC Running on cloud based k8s", "no spus running"]);
    assert_eq!(log.end, ended(Classification::NotRunning, Some(Location::CloudK8s)));
}

#[test]
fn failed_connection_prints_none_and_keeps_the_error() {
    let log = drive(&Script {
        connection: Err("connection refused"),
        brokers: Some(vec![("5001", true)]),
        topics: Some(vec![]),
    });
    assert_eq!(log.lines, vec!["none"]);
    assert_eq!(
        log.end,
        ProbeState::Finished {
            outcome: ProbeOutcome { classification: Classification::NotRunning, location: None },
            error: Some("connection refused".to_string()),
            evidence: None,
        }
    );
}

#[test]
fn record_in_the_second_partition_is_found_after_the_first() {
    let log = drive(&Script {
        connection: Ok(None),
        brokers: Some(vec![("5001", true)]),
        topics: Some(vec![Topic { name: "sensors", partitions: Some(vec![None, read("21.5")]) }]),
    });
    assert_eq!(log.lines, vec!["SC Running on local k8s"]);
    assert_eq!(log.partition_listings, vec!["sensors"]);
    assert_eq!(reads(&log), vec![("sensors", 0), ("sensors", 1)]);
    assert_eq!(
        log.end,
        ProbeState::Finished {
            outcome: ProbeOutcome {
                classification: Classification::RunningWithData,
                location: Some(Location::LocalK8s),
            },
            error: None,
            evidence: Some("21.5".to_string()),
        }
    );
}

#[test]
fn failed_connection_probes_nothing_further() {
    let log = drive(&Script {
        connection: Err("timed out"),
        brokers: Some(vec![("5001", true)]),
        topics: Some(vec![Topic { name: "sensors", partitions: Some(vec![read("x")]) }]),
    });
    assert_eq!(log.connects, 1);
    assert_eq!(log.broker_listings, 0);
    assert_eq!(log.topic_listings, 0);
    assert!(log.partition_listings.is_empty());
    assert!(log.tail_reads.is_empty());
    assert_eq!(log.lines, vec!["none"]);
    assert_eq!(log.end.outcome().map(|o| o.classification), Some(Classification::NotRunning));
}

#[test]
fn failed_broker_listing_counts_as_no_broker_online() {
    let log = drive(&Script {
        connection: Ok(Some("local")),
        brokers: None,
        topics: Some(vec![Topic { name: "sensors", partitions: Some(vec![read("x")]) }]),
    });
    assert_eq!(log.lines.last().map(|l| l.as_str()), Some("no spus running"));
    assert_eq!(log.broker_listings, 1);
    assert_eq!(log.topic_listings, 0);
    assert!(log.partition_listings.is_empty());
    assert!(log.tail_reads.is_empty());
    assert_eq!(log.end, ended(Classification::NotRunning, Some(Location::Local)));
}

#[test]
fn offline_brokers_stop_the_run_before_any_topic() {
    let log = drive(&Script {
        connection: Ok(Some("local")),
        brokers: Some(vec![("5001", false), ("5002", false)]),
        topics: Some(vec![Topic { name: "sensors", partitions: Some(vec![read("x")]) }]),
    });
    assert_eq!(log.lines, vec!["SC Running locally", "no spus running"]);
    assert_eq!(log.topic_listings, 0);
    assert!(log.partition_listings.is_empty());
    assert!(log.tail_reads.is_empty());
}

#[test]
fn one_online_broker_among_offline_ones_is_enough() {
    let log = drive(&Script {
        connection: Ok(Some("local")),
        brokers: Some(vec![("5001", false), ("5002", true), ("5003", false)]),
        topics: Some(vec![]),
    });
    assert_eq!(log.lines, vec!["SC Running locally", "spus are empty"]);
    assert_eq!(log.topic_listings, 1);
}

#[test]
fn failed_topic_listing_counts_as_no_topic() {
    let log = drive(&Script {
        connection: Ok(Some("local")),
        brokers: Some(vec![("5001", true)]),
        topics: None,
    });
    assert_eq!(log.lines, vec!["SC Running locally", "spus are empty"]);
    assert_eq!(log.topic_listings, 1);
    assert!(log.partition_listings.is_empty());
    assert!(log.tail_reads.is_empty());
    assert_eq!(log.end, ended(Classification::RunningEmpty, Some(Location::Local)));
}

#[test]
fn empty_cluster_is_scanned_exhaustively() {
    let log = drive(&Script {
        connection: Ok(Some("staging")),
        brokers: Some(vec![("5001", true)]),
        topics: Some(vec![
            Topic { name: "a", partitions: Some(vec![None, None, None]) },
            Topic { name: "b", partitions: Some(vec![]) },
            Topic { name: "c", partitions: Some(vec![None, None]) },
        ]),
    });
    assert_eq!(log.lines, vec!["SC Running on local k8s", "spus are empty"]);
    assert_eq!(log.connects, 1);
    assert_eq!(log.broker_listings, 1);
    assert_eq!(log.topic_listings, 1);
    assert_eq!(log.partition_listings, vec!["a", "b", "c"]);
    assert_eq!(reads(&log), vec![("a", 0), ("a", 1), ("a", 2), ("c", 0), ("c", 1)]);
    assert_eq!(log.end, ended(Classification::RunningEmpty, Some(Location::LocalK8s)));
}

#[test]
fn scan_stops_at_the_first_record() {
    let log = drive(&Script {
        connection: Ok(Some("staging")),
        brokers: Some(vec![("5001", true)]),
        topics: Some(vec![
            Topic { name: "a", partitions: Some(vec![None, None]) },
            Topic { name: "b", partitions: Some(vec![None, read("first"), read("second")]) },
            Topic { name: "c", partitions: Some(vec![read("third")]) },
        ]),
    });
    assert_eq!(log.lines, vec!["SC Running on local k8s"]);
    assert_eq!(log.partition_listings, vec!["a", "b"]);
    assert_eq!(reads(&log), vec![("a", 0), ("a", 1), ("b", 0), ("b", 1)]);
    match log.end {
        ProbeState::Finished { outcome, error, evidence } => {
            assert_eq!(outcome.classification, Classification::RunningWithData);
            assert_eq!(outcome.location, Some(Location::LocalK8s));
            assert_eq!(error, None);
            assert_eq!(evidence.as_deref(), Some("first"));
        }
        other => panic!("the run ended as {:?}", other),
    }
}

#[test]
fn record_in_the_first_partition_ends_the_scan_at_once() {
    let log = drive(&Script {
        connection: Ok(Some("local")),
        brokers: Some(vec![("5001", true)]),
        topics: Some(vec![
            Topic { name: "a", partitions: Some(vec![read("r"), None]) },
            Topic { name: "b", partitions: Some(vec![read("s")]) },
        ]),
    });
    assert_eq!(log.lines, vec!["SC Running locally"]);
    assert_eq!(log.partition_listings, vec!["a"]);
    assert_eq!(reads(&log), vec![("a", 0)]);
}

#[test]
fn failed_partition_listing_skips_the_topic() {
    let log = drive(&Script {
        connection: Ok(Some("local")),
        brokers: Some(vec![("5001", true)]),
        topics: Some(vec![
            Topic { name: "broken", partitions: None },
            Topic { name: "fine", partitions: Some(vec![None, read("ok")]) },
        ]),
    });
    assert_eq!(log.lines, vec!["SC Running locally"]);
    assert_eq!(log.partition_listings, vec!["broken", "fine"]);
    assert_eq!(reads(&log), vec![("fine", 0), ("fine", 1)]);
    assert_eq!(log.end.outcome().map(|o| o.classification), Some(Classification::RunningWithData));
}

#[test]
fn failed_partition_listing_of_the_only_topic_leaves_the_cluster_empty() {
    let log = drive(&Script {
        connection: Ok(Some("local")),
        brokers: Some(vec![("5001", true)]),
        topics: Some(vec![Topic { name: "broken", partitions: None }]),
    });
    assert_eq!(log.lines, vec!["SC Running locally", "spus are empty"]);
    assert!(log.tail_reads.is_empty());
}

#[test]
fn record_with_an_empty_payload_counts_as_data() {
    let log = drive(&Script {
        connection: Ok(Some("local")),
        brokers: Some(vec![("5001", true)]),
        topics: Some(vec![Topic { name: "a", partitions: Some(vec![Some(vec![])]) }]),
    });
    assert_eq!(log.lines, vec!["SC Running locally"]);
    match log.end {
        ProbeState::Finished { outcome, evidence, .. } => {
            assert_eq!(outcome.classification, Classification::RunningWithData);
            assert_eq!(evidence.as_deref(), Some(""));
        }
        other => panic!("the run ended as {:?}", other),
    }
}

#[test]
fn ill_formed_payload_does_not_fail_the_run() {
    let log = drive(&Script {
        connection: Ok(Some("local")),
        brokers: Some(vec![("5001", true)]),
        topics: Some(vec![Topic {
            name: "a",
            partitions: Some(vec![Some(vec![b'o', 0xff, b'k'])]),
        }]),
    });
    assert_eq!(log.lines, vec!["SC Running locally"]);
    match log.end {
        ProbeState::Finished { outcome, evidence, .. } => {
            assert_eq!(outcome.classification, Classification::RunningWithData);
            assert_eq!(evidence.as_deref(), Some("o\u{fffd}k"));
        }
        other => panic!("the run ended as {:?}", other),
    }
}

#[test]
fn probe_count_is_linear_in_topics_and_partitions() {
    let log = drive(&Script {
        connection: Ok(Some("local")),
        brokers: Some(vec![("5001", true)]),
        topics: Some(vec![
            Topic { name: "a", partitions: Some(vec![None; 4]) },
            Topic { name: "b", partitions: Some(vec![None; 7]) },
        ]),
    });
    let probes = log.connects
        + log.broker_listings
        + log.topic_listings
        + log.partition_listings.len()
        + log.tail_reads.len();
    assert_eq!(probes, 3 + 2 + 11);
}

#[test]
fn every_tail_read_names_its_partition() {
    let opt = StatusOpt {};
    let state = ProbeState::new();
    let state = opt.process(state, ProbeEvent::Connected { profile: None }).state;
    let state = opt
        .process(
            state,
            ProbeEvent::Brokers(Some(vec![BrokerRecord {
                name: "5001".to_string(),
                online: true,
            }])),
        )
        .state;
    let state = opt
        .process(state, ProbeEvent::Topics(Some(vec![TopicRecord { name: "t".to_string() }])))
        .state;
    assert_eq!(state.pending(), ProbeAction::ListPartitions { topic: "t".to_string() });
    let state = opt.process(state, ProbeEvent::Partitions(Some(2))).state;
    assert_eq!(
        state.pending(),
        ProbeAction::ReadTail {
            partition: PartitionRecord { topic: "t".to_string(), index: 0 },
            from_end: 1,
            at_most: 1,
        }
    );
    let state = opt.process(state, ProbeEvent::Tail(None)).state;
    assert_eq!(
        state.pending(),
        ProbeAction::ReadTail {
            partition: PartitionRecord { topic: "t".to_string(), index: 1 },
            from_end: 1,
            at_most: 1,
        }
    );
}

#[test]
fn topic_listed_twice_is_scanned_twice() {
    let log = drive(&Script {
        connection: Ok(Some("local")),
        brokers: Some(vec![("5001", true)]),
        topics: Some(vec![
            Topic { name: "a", partitions: Some(vec![None, None]) },
            Topic { name: "a", partitions: Some(vec![read("never asked")]) },
        ]),
    });
    assert_eq!(log.lines, vec!["SC Running locally", "spus are empty"]);
    assert_eq!(log.partition_listings, vec!["a", "a"]);
    assert_eq!(reads(&log), vec![("a", 0), ("a", 1), ("a", 0), ("a", 1)]);
}

#[test]
fn record_in_the_last_partition_of_the_last_topic_is_found() {
    let log = drive(&Script {
        connection: Ok(Some("my-cloud")),
        brokers: Some(vec![("5001", true)]),
        topics: Some(vec![
            Topic { name: "a", partitions: Some(vec![None]) },
            Topic { name: "b", partitions: Some(vec![]) },
            Topic { name: "c", partitions: Some(vec![None, None, read("last")]) },
        ]),
    });
    assert_eq!(log.lines, vec!["SC Running on cloud based k8s"]);
    assert_eq!(log.partition_listings, vec!["a", "b", "c"]);
    assert_eq!(reads(&log), vec![("a", 0), ("c", 0), ("c", 1), ("c", 2)]);
    assert_eq!(log.end.outcome().map(|o| o.classification), Some(Classification::RunningWithData));
}

#[test]
fn every_run_makes_one_connection_attempt() {
    let scripts = vec![
        Script { connection: Err("down"), brokers: None, topics: None },
        Script { connection: Ok(None), brokers: None, topics: None },
        Script { connection: Ok(None), brokers: Some(vec![("5001", true)]), topics: None },
        Script {
            connection: Ok(None),
            brokers: Some(vec![("5001", true)]),
            topics: Some(vec![Topic { name: "a", partitions: Some(vec![None, read("r")]) }]),
        },
    ];
    for script in &scripts {
        let log = drive(script);
        assert_eq!(log.connects, 1);
        assert!(log.broker_listings <= 1);
        assert!(log.topic_listings <= 1);
        assert!(log.end.is_terminal());
        assert!(log.end.outcome().is_some());
    }
}
