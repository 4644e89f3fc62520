use meilisearch_sdk::client::Client;
use meilisearch_sdk::errors::Error;
use meilisearch_sdk::text::{same_text, to_decimal};
use meilisearch_sdk::request::{parse_response, Method, Verb};
use meilisearch_sdk::tasks::{
    decode_task, decode_task_info, PollAction, PollConfig, Poller, Task, TaskInfo,
    TaskStatus, WaitStep, DEFAULT_INTERVAL_MS, DEFAULT_TIMEOUT_MS, NOT_A_TASK,
};

const HOST: &str = "http://localhost:7700";

fn task(id: u64, status: TaskStatus) -> Task {
    Task { id, status, index_uid: None, kind: None, details: None, error: None }
}

fn task_body(id: u64, status: &str) -> String {
    let mut object = serde_json::Map::new();
    object.insert("id".to_string(), serde_json::Value::from(id));
    object.insert("status".to_string(), serde_json::Value::from(status));
    serde_json::Value::Object(object).to_string()
}

#[test]
fn status_names() {
    let all = [
        (TaskStatus::Enqueued, "enqueued", false),
        (TaskStatus::Processing, "processing", false),
        (TaskStatus::Succeeded, "succeeded", true),
        (TaskStatus::Failed, "failed", true),
        (TaskStatus::Canceled, "canceled", true),
    ];
    for (status, name, terminal) in all {
        assert_eq!(status.as_str(), name);
        assert_eq!(TaskStatus::from_name(name), Some(status));
        assert_eq!(status.terminal(), terminal);
    }
    assert_eq!(TaskStatus::from_name("Enqueued"), None);
    assert_eq!(TaskStatus::from_name(""), None);
}

#[test]
fn texts_are_compared_by_their_characters() {
    assert!(same_text("", ""));
    assert!(same_text("status", "status"));
    assert!(!same_text("status", "Status"));
    assert!(!same_text("status", "statu"));
}

#[test]
fn numbers_in_decimal() {
    assert_eq!(to_decimal(0), "0");
    assert_eq!(to_decimal(7), "7");
    assert_eq!(to_decimal(10), "10");
    assert_eq!(to_decimal(1234567890), "1234567890");
    assert_eq!(to_decimal(u64::MAX), "18446744073709551615");
}

#[test]
fn defaults_when_nothing_is_chosen() {
    assert_eq!(DEFAULT_INTERVAL_MS, 50);
    assert_eq!(DEFAULT_TIMEOUT_MS, 5000);
    assert_eq!(PollConfig::new(None, None), PollConfig { interval_ms: 50, timeout_ms: 5000 });
    assert_eq!(PollConfig::new(Some(10), None), PollConfig { interval_ms: 10, timeout_ms: 5000 });
    assert_eq!(PollConfig::new(None, Some(0)), PollConfig { interval_ms: 50, timeout_ms: 0 });
    let poller = Poller::new(Some(1), Some(2));
    assert_eq!(poller.config, PollConfig { interval_ms: 1, timeout_ms: 2 });
    assert_eq!(poller.polls, 0);
}

#[test]
fn poll_decisions() {
    let mut poller = Poller::new(Some(10), Some(50));
    assert!(matches!(poller.observe(task(1, TaskStatus::Enqueued), 0), PollAction::Sleep(10)));
    assert!(matches!(poller.observe(task(1, TaskStatus::Processing), 50), PollAction::Sleep(10)));
    assert!(matches!(poller.observe(task(1, TaskStatus::Processing), 51), PollAction::TimedOut));
    assert!(matches!(
        poller.observe(task(1, TaskStatus::Failed), 10_000),
        PollAction::Return(Task { id: 1, status: TaskStatus::Failed, .. })
    ));
    assert!(matches!(
        poller.observe(task(1, TaskStatus::Canceled), 0),
        PollAction::Return(Task { status: TaskStatus::Canceled, .. })
    ));
    assert_eq!(poller.polls, 5);
}

#[test]
fn poll_count_stops_at_the_largest_number() {
    let mut poller = Poller { config: PollConfig::new(None, None), polls: u64::MAX };
    poller.observe(task(1, TaskStatus::Enqueued), 0);
    assert_eq!(poller.polls, u64::MAX);
}

/// A job source that answers from a list, with a clock that only moves
/// while the wait sleeps.
fn run(statuses: &[&str], interval: u64, timeout: u64) -> (WaitStep, u64, u64) {
    let client = Client::new(HOST, None);
    let info = TaskInfo { id: 7, status: TaskStatus::Enqueued };
    let mut wait = info.wait_for_completion(&client, Some(interval), Some(timeout));
    let mut elapsed = 0;
    let mut next = 0;
    loop {
        let status = statuses[next.min(statuses.len() - 1)];
        next += 1;
        match wait.on_response(200, &task_body(7, status), elapsed) {
            WaitStep::Sleep(ms) => elapsed += ms,
            done => return (done, wait.poller.polls, elapsed),
        }
    }
}

#[test]
fn wait_returns_after_three_polls() {
    let (step, polls, elapsed) = run(&["enqueued", "processing", "succeeded"], 10, 5000);
    match step {
        WaitStep::Done(Ok(task)) => {
            assert_eq!(task.id, 7);
            assert_eq!(task.status, TaskStatus::Succeeded);
        }
        other => panic!("unexpected step: {:?}", other),
    }
    assert_eq!(polls, 3);
    assert!(elapsed >= 2 * 10);
    assert_eq!(elapsed, 20);
}

#[test]
fn wait_times_out_on_a_task_that_never_ends() {
    let (step, polls, elapsed) = run(&["processing"], 10, 50);
    assert!(matches!(step, WaitStep::Done(Err(Error::Timeout))));
    assert!(elapsed > 50);
    assert!(elapsed <= 50 + 10);
    assert_eq!(elapsed, 60);
    assert_eq!(polls, 7);
}

#[test]
fn failed_and_canceled_tasks_are_returned_as_values() {
    for name in ["failed", "canceled"] {
        let (step, polls, _) = run(&["enqueued", name], 10, 50);
        match step {
            WaitStep::Done(Ok(task)) => assert_eq!(task.status.as_str(), name),
            other => panic!("unexpected step: {:?}", other),
        }
        assert_eq!(polls, 2);
    }
}

#[test]
fn succeeded_task_is_returned_unchanged_at_first_poll() {
    let client = Client::new(HOST, Some("masterKey"));
    let submitted = decode_task_info(
        202,
        "{\"id\": 7, \"status\": \"enqueued\"}",
        format!("{}/indexes", HOST),
    )
    .unwrap();
    assert_eq!(submitted, TaskInfo { id: 7, status: TaskStatus::Enqueued });

    let mut wait = submitted.wait_for_completion(&client, None, None);
    assert_eq!(wait.call.url, "http://localhost:7700/tasks/7");
    assert_eq!(wait.call.expected_status_code, 200);
    assert_eq!(wait.call.method.http_method(), Verb::Get);
    assert!(matches!(&wait.call.method, Method::Get { query } if query.is_empty()));
    assert_eq!(wait.poller.config, PollConfig { interval_ms: 50, timeout_ms: 5000 });

    let body = "{\"id\": 7, \"status\": \"succeeded\", \"type\": \"indexCreation\", \
                \"indexUid\": \"movies\", \"details\": {\"primaryKey\": \"id\"}, \"error\": null}";
    match wait.on_response(200, body, 3) {
        WaitStep::Done(Ok(task)) => {
            assert_eq!(task.id, 7);
            assert_eq!(task.status, TaskStatus::Succeeded);
            assert_eq!(task.kind, Some("indexCreation".to_string()));
            assert_eq!(task.index_uid, Some("movies".to_string()));
            assert_eq!(task.details, Some("{\"primaryKey\":\"id\"}".to_string()));
            assert_eq!(task.error, None);
        }
        other => panic!("unexpected step: {:?}", other),
    }
    assert_eq!(wait.poller.polls, 1);
}

#[test]
fn errors_while_polling_end_the_wait() {
    let client = Client::new(HOST, None);
    let info = TaskInfo { id: 3, status: TaskStatus::Enqueued };
    let mut wait = info.wait_for_completion(&client, Some(10), Some(50));
    let body = "{\"errorCode\":\"task_not_found\",\"errorMessage\":\"Task 3 not found\"}";
    match wait.on_response(404, body, 0) {
        WaitStep::Done(Err(Error::Meilisearch(e))) => {
            assert_eq!(e.error_code, "task_not_found");
            assert_eq!(e.url, "http://localhost:7700/tasks/3");
        }
        other => panic!("unexpected step: {:?}", other),
    }
    match wait.on_response(200, "{\"id\": 3}", 0) {
        WaitStep::Done(Err(Error::ParseError(message))) => assert_eq!(message, NOT_A_TASK),
        other => panic!("unexpected step: {:?}", other),
    }
    match wait.on_task(Err(Error::HttpError("connection refused".to_string())), 0) {
        WaitStep::Done(Err(Error::HttpError(message))) => {
            assert_eq!(message, "connection refused")
        }
        other => panic!("unexpected step: {:?}", other),
    }
    assert!(matches!(
        wait.on_task(Err(Error::InvalidRequest), 0),
        WaitStep::Done(Err(Error::InvalidRequest))
    ));
    match wait.on_task(Err(Error::Yaup("unsupported value".to_string())), 0) {
        WaitStep::Done(Err(Error::Yaup(message))) => assert_eq!(message, "unsupported value"),
        other => panic!("unexpected step: {:?}", other),
    }
    assert_eq!(wait.poller.polls, 5);
}

#[test]
fn task_info_survives_the_round_trip_through_json() {
    for (id, status) in [(0, TaskStatus::Enqueued), (u64::MAX, TaskStatus::Processing)] {
        let body = task_body(id, status.as_str());
        let document = parse_response(202, 202, &body, HOST.to_string()).unwrap();
        let read = TaskInfo::from_document(&document).unwrap();
        assert_eq!(read, TaskInfo { id, status });
        assert_eq!(decode_task_info(202, &body, HOST.to_string()).unwrap(), read);
    }
}

#[test]
fn bodies_that_are_no_tasks() {
    for body in [
        "null",
        "[]",
        "{}",
        "{\"id\": -1, \"status\": \"enqueued\"}",
        "{\"id\": 1.5, \"status\": \"enqueued\"}",
        "{\"id\": \"1\", \"status\": \"enqueued\"}",
        "{\"id\": 1, \"status\": \"done\"}",
        "{\"id\": 1, \"status\": 2}",
    ] {
        match decode_task(200, body, HOST.to_string()) {
            Err(Error::ParseError(message)) => assert_eq!(message, NOT_A_TASK),
            other => panic!("unexpected outcome for {}: {:?}", body, other),
        }
    }
    assert!(matches!(decode_task(200, "{", HOST.to_string()), Err(Error::ParseError(_))));
}

#[test]
fn index_creation_becomes_an_index() {
    let client = Client::new(HOST, Some("masterKey"));
    let created = Task {
        id: 1,
        status: TaskStatus::Succeeded,
        index_uid: Some("movies".to_string()),
        kind: Some("indexCreation".to_string()),
        details: None,
        error: None,
    };
    let index = created.try_make_index(&client).unwrap();
    assert_eq!(index.uid, "movies");
    assert_eq!(index.client.host, HOST);
    assert_eq!(index.client.api_key, Some("masterKey".to_string()));
    assert_eq!(index.client.get_api_key(), Some("masterKey"));

    let failed = Task {
        id: 2,
        status: TaskStatus::Failed,
        index_uid: Some("movies".to_string()),
        kind: Some("indexCreation".to_string()),
        details: None,
        error: Some("{}".to_string()),
    };
    let back = failed.try_make_index(&client).unwrap_err();
    assert_eq!(back.id, 2);
    assert_eq!(back.status, TaskStatus::Failed);
    assert_eq!(back.error, Some("{}".to_string()));

    let other_kind = Task {
        id: 3,
        status: TaskStatus::Succeeded,
        index_uid: Some("movies".to_string()),
        kind: Some("documentAdditionOrUpdate".to_string()),
        details: None,
        error: None,
    };
    assert_eq!(other_kind.try_make_index(&client).unwrap_err().id, 3);

    let nameless = Task {
        id: 4,
        status: TaskStatus::Succeeded,
        index_uid: None,
        kind: Some("indexCreation".to_string()),
        details: None,
        error: None,
    };
    assert_eq!(nameless.try_make_index(&client).unwrap_err().id, 4);
}
