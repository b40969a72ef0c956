use expiry_hawk::adapter::{start, step, AdapterAction, AdapterEvent, AdapterState, WatchFailure};
use expiry_hawk::endpoint::{listen_address, scrape_reply, SCRAPE_PORT, STATUS_OK};
use expiry_hawk::kinds::{watched_kinds, Kind};
use expiry_hawk::supervisor::{
    planned_tasks, task_ended, Failure, GroupAction, GroupState, Task, TaskEnd,
};

const FAILURES: [WatchFailure; 4] = [
    WatchFailure::ClientUnavailable,
    WatchFailure::KindUnresolved,
    WatchFailure::StreamFailed,
    WatchFailure::StreamClosed,
];

#[test]
fn kinds_have_their_display_names() {
    assert_eq!(Kind::Deployment.name(), "Deployment");
    assert_eq!(Kind::StatefulSet.name(), "StatefulSet");
    assert_eq!(Kind::DaemonSet.name(), "DaemonSet");
}

#[test]
fn kinds_live_in_apps_v1() {
    for kind in watched_kinds() {
        assert_eq!(kind.group(), "apps");
        assert_eq!(kind.version(), "v1");
    }
}

#[test]
fn three_kinds_are_watched() {
    assert_eq!(watched_kinds(), vec![Kind::Deployment, Kind::StatefulSet, Kind::DaemonSet]);
}

#[test]
fn watch_goes_from_starting_to_watching() {
    let state = start();
    assert_eq!(state, AdapterState::Starting);
    let (state, action) = step(state, AdapterEvent::ClientReady);
    assert_eq!((state, action), (AdapterState::Discovering, AdapterAction::Discover));
    let (state, action) = step(state, AdapterEvent::KindResolved);
    assert_eq!((state, action), (AdapterState::Watching, AdapterAction::Subscribe));
    let (state, action) = step(state, AdapterEvent::ObjectApplied);
    assert_eq!((state, action), (AdapterState::Watching, AdapterAction::Extract));
    let (state, action) = step(state, AdapterEvent::ObjectApplied);
    assert_eq!((state, action), (AdapterState::Watching, AdapterAction::Extract));
}

#[test]
fn missing_client_ends_the_watch_at_once() {
    let (state, action) = step(start(), AdapterEvent::Failed(WatchFailure::ClientUnavailable));
    assert_eq!(state, AdapterState::Terminated(WatchFailure::ClientUnavailable));
    assert_eq!(action, AdapterAction::Stop(WatchFailure::ClientUnavailable));
}

#[test]
fn unresolved_kind_ends_the_watch_without_a_retry() {
    let (state, _) = step(start(), AdapterEvent::ClientReady);
    let (state, action) = step(state, AdapterEvent::Failed(WatchFailure::KindUnresolved));
    assert_eq!(state, AdapterState::Terminated(WatchFailure::KindUnresolved));
    assert_eq!(action, AdapterAction::Stop(WatchFailure::KindUnresolved));
}

#[test]
fn stream_error_and_stream_end_both_end_the_watch() {
    for failure in [WatchFailure::StreamFailed, WatchFailure::StreamClosed] {
        let (state, action) = step(AdapterState::Watching, AdapterEvent::Failed(failure));
        assert_eq!(state, AdapterState::Terminated(failure));
        assert_eq!(action, AdapterAction::Stop(failure));
    }
}

#[test]
fn every_failure_ends_every_running_state() {
    for state in [AdapterState::Starting, AdapterState::Discovering, AdapterState::Watching] {
        for failure in FAILURES {
            assert_eq!(
                step(state, AdapterEvent::Failed(failure)),
                (AdapterState::Terminated(failure), AdapterAction::Stop(failure))
            );
        }
    }
}

#[test]
fn ended_watch_stays_ended_with_its_first_failure() {
    let ended = AdapterState::Terminated(WatchFailure::StreamFailed);
    let events = [
        AdapterEvent::ClientReady,
        AdapterEvent::KindResolved,
        AdapterEvent::ObjectApplied,
        AdapterEvent::Failed(WatchFailure::KindUnresolved),
    ];
    for event in events {
        assert_eq!(step(ended, event), (ended, AdapterAction::Stop(WatchFailure::StreamFailed)));
    }
}

#[test]
fn event_out_of_turn_changes_nothing() {
    assert_eq!(
        step(AdapterState::Starting, AdapterEvent::ObjectApplied),
        (AdapterState::Starting, AdapterAction::Wait)
    );
    assert_eq!(
        step(AdapterState::Starting, AdapterEvent::KindResolved),
        (AdapterState::Starting, AdapterAction::Wait)
    );
    assert_eq!(
        step(AdapterState::Discovering, AdapterEvent::ClientReady),
        (AdapterState::Discovering, AdapterAction::Wait)
    );
    assert_eq!(
        step(AdapterState::Discovering, AdapterEvent::ObjectApplied),
        (AdapterState::Discovering, AdapterAction::Wait)
    );
    assert_eq!(
        step(AdapterState::Watching, AdapterEvent::ClientReady),
        (AdapterState::Watching, AdapterAction::Wait)
    );
    assert_eq!(
        step(AdapterState::Watching, AdapterEvent::KindResolved),
        (AdapterState::Watching, AdapterAction::Wait)
    );
}

#[test]
fn watching_never_leads_back_to_discovering() {
    let events =
        [AdapterEvent::ClientReady, AdapterEvent::KindResolved, AdapterEvent::ObjectApplied];
    for event in events {
        let (state, _) = step(AdapterState::Watching, event);
        assert_ne!(state, AdapterState::Discovering);
        assert_ne!(state, AdapterState::Starting);
    }
}

#[test]
fn group_is_the_scrape_endpoint_and_one_watch_for_each_kind() {
    assert_eq!(
        planned_tasks(),
        vec![
            Task::Scrape,
            Task::Watch(Kind::Deployment),
            Task::Watch(Kind::StatefulSet),
            Task::Watch(Kind::DaemonSet),
        ]
    );
    assert_eq!(planned_tasks().len(), watched_kinds().len() + 1);
}

#[test]
fn first_task_that_ends_fails_the_group() {
    let failure = Failure {
        task: Task::Watch(Kind::StatefulSet),
        end: TaskEnd::WatchEnded(WatchFailure::KindUnresolved),
    };
    assert_eq!(
        task_ended(GroupState::Running, failure),
        (GroupState::Failed(failure), GroupAction::CancelRest(failure))
    );
}

#[test]
fn stopped_server_fails_the_group_too() {
    let failure = Failure { task: Task::Scrape, end: TaskEnd::ServerStopped };
    assert_eq!(
        task_ended(GroupState::Running, failure),
        (GroupState::Failed(failure), GroupAction::CancelRest(failure))
    );
}

#[test]
fn later_ends_do_not_change_the_failure() {
    let first = Failure {
        task: Task::Watch(Kind::Deployment),
        end: TaskEnd::WatchEnded(WatchFailure::StreamClosed),
    };
    let later = Failure { task: Task::Scrape, end: TaskEnd::ServerStopped };
    let (state, _) = task_ended(GroupState::Running, first);
    assert_eq!(task_ended(state, later), (GroupState::Failed(first), GroupAction::Nothing));
}

#[test]
fn scrapes_are_served_on_every_interface_at_9898() {
    assert_eq!(SCRAPE_PORT, 9898);
    assert_eq!(listen_address(), ([0, 0, 0, 0], 9898));
}

#[test]
fn every_scrape_is_answered_with_200() {
    assert_eq!(STATUS_OK, 200);
    let reply = scrape_reply("text/plain; version=0.0.4".to_string(), b"# HELP\n".to_vec());
    assert_eq!(reply.status, 200);
    assert_eq!(reply.content_type, "text/plain; version=0.0.4");
    assert_eq!(reply.body, b"# HELP\n".to_vec());
    let empty = scrape_reply(String::new(), Vec::new());
    assert_eq!(empty.status, 200);
    assert!(empty.body.is_empty());
}
