use std::time::Duration;
use raft::config::{Config, ElectionTimeoutRange};
use raft::messages::{OutwardMessage, InwardMessage, Status};
use raft::node::{Follower, Node, NodeEvent, NodeReaction};
use raft::role::Role;
use raft::types::ServerIdentity;

fn testing_config() -> Config {
    ElectionTimeoutRange::testing(ServerIdentity::new())
}

#[test]
fn node_new_election_timeout_is_between_150_and_300ms_for_lan_config() {
    let lower_limit = 150;
    let upper_limit = 300;
    let mut hit_lower = false;
    let mut hit_upper = false;

    for tries in 1..10000000 {
        let timeout = Node::new_election_timeout(&ElectionTimeoutRange { minimum_milliseconds: lower_limit, maximum_milliseconds: upper_limit } );
        assert!(timeout >= Duration::from_millis(lower_limit as u64));
        assert!(timeout <= Duration::from_millis(upper_limit as u64));

        if timeout == Duration::from_millis(lower_limit as u64) { hit_lower = true; }
        if timeout == Duration::from_millis(upper_limit as u64) { hit_upper = true; }
        if tries > 10000 && hit_upper && hit_lower { break; }
    }

    assert!(hit_lower);
    assert!(hit_upper);
}

#[test]
fn new_node_is_disqualified_before_run() {
    let node = Node::new(testing_config());
    assert_eq!(Role::Disqualified, node.role)
}

#[test]
fn node_starts_as_follower() {
    let mut node = Node::new(testing_config());
    let actual_status = node.start();
    assert_eq!(Role::Follower, actual_status.role)
}

#[test]
fn node_becomes_a_candidate_if_it_doesnt_hear_from_a_leader() {
    let mut node = Node::new(testing_config());
    let initial_status = node.start();
    let running_status = match node.handle(&NodeEvent::TimedOut) {
        NodeReaction::Campaign(status, _, _) => status,
        _ => panic!(),
    };
    assert_eq!(Role::Follower, initial_status.role);
    assert_eq!(Role::Candidate, running_status.role);
}

#[test]
fn candidate_node_will_request_votes_from_other_nodes_if_no_leader_appends_entries() {
    let config = testing_config();
    let mut node = Node::new(config);
    node.start();

    match node.handle(&NodeEvent::TimedOut) {
        NodeReaction::Campaign(_, OutwardMessage::RequestVote(rv), _) => {
            assert_eq!(config.server_id, rv.candidate_id);
        },
        _ => panic!()
    }
}

#[test]
fn node_candidate_becomes_leader_on_receiving_majority_of_votes() {
    let mut node = Node::new(testing_config());
    let mut statuses = vec![node.start()];
    match node.handle(&NodeEvent::TimedOut) {
        NodeReaction::Campaign(candidate, _, elected) => {
            statuses.push(candidate);
            statuses.extend(elected);
        },
        _ => panic!()
    }
    let actual_status = statuses.last().unwrap();
    assert_eq!(Role::Leader, actual_status.role);
    assert_eq!(Role::Leader, node.role);
    assert_eq!(
        vec![Role::Follower, Role::Candidate, Role::Leader],
        statuses.iter().map(|s| s.role).collect::<Vec<_>>()
    );
}

#[test]
fn a_node_with_followers_stays_a_candidate() {
    let mut node = Node::new(testing_config());
    node.followers.push(Follower { id: 2, next_index: 0, match_index: 0 });
    node.start();
    match node.handle(&NodeEvent::TimedOut) {
        NodeReaction::Campaign(candidate, _, elected) => {
            assert_eq!(Role::Candidate, candidate.role);
            assert!(elected.is_none());
        },
        _ => panic!()
    }
    assert_eq!(Role::Candidate, node.role);
}

#[test]
fn a_node_stops_on_a_stop_message_and_ignores_the_rest() {
    let mut node = Node::new(testing_config());
    node.start();
    assert!(matches!(node.handle(&NodeEvent::Received(InwardMessage::Stop)), NodeReaction::Stop));
    assert!(matches!(node.handle(&NodeEvent::Disconnected), NodeReaction::Continue));
    assert_eq!(Role::Follower, node.role);
    assert_eq!(Status { term: 0, role: Role::Follower, commit_index: 0 }, node.report_status());
}

#[test]
fn config_presets_hold_their_ranges() {
    let id = ServerIdentity::new();
    let cases = [
        (ElectionTimeoutRange::testing(id), 1, 1),
        (ElectionTimeoutRange::lan(id), 150, 300),
        (ElectionTimeoutRange::close_wan(id), 250, 500),
        (ElectionTimeoutRange::global_wan(id), 500, 2500),
    ];
    for (config, minimum, maximum) in cases {
        assert_eq!(id, config.server_id);
        assert_eq!(minimum, config.election_timeout_range_milliseconds.minimum_milliseconds);
        assert_eq!(maximum, config.election_timeout_range_milliseconds.maximum_milliseconds);
    }
}
