use zeebe_rs::job::activated_job::ActivatedJob;
use zeebe_rs::protocol;
use zeebe_rs::time::Duration;
use zeebe_rs::worker::{
    count_fetched, default_poll_interval, fetch_request, handle_result, JobReport, Poller,
    PollingMessage, SharedState, Worker, WorkerBuilder, WorkerError,
};

fn job(key: i64, retries: i32) -> ActivatedJob {
    ActivatedJob::new(
        key,
        String::from("payment-service"),
        7,
        String::from("order-process"),
        2,
        11,
        String::from("pay"),
        13,
        String::from("{}"),
        String::from("worker-a"),
        retries,
        1_700_000_000,
        String::from("{\"amount\":5}"),
        String::from("<default>"),
    )
}

fn json_error() -> serde_json::Error {
    serde_json::from_str::<serde_json::Value>("{").unwrap_err()
}

#[test]
fn ok_outcome_completes_the_job_with_the_output() {
    let report = handle_result(&job(42, 3), Ok(Ok(String::from("{\"paid\":true}"))));
    match report {
        Some(JobReport::Complete(req)) => {
            let m = req.into_request();
            assert_eq!(m.job_key, 42);
            assert_eq!(m.variables, "{\"paid\":true}");
            assert_eq!(m.result, None);
        }
        _ => panic!("expected a completion"),
    }
}

#[test]
fn unserializable_output_reports_nothing() {
    assert!(handle_result(&job(42, 3), Ok(Err(json_error()))).is_none());
}

#[test]
fn fail_job_costs_one_retry() {
    let report = handle_result(&job(42, 3), Err(WorkerError::FailJob(String::from("boom"))));
    match report {
        Some(JobReport::Fail(req)) => {
            let m = req.into_request();
            assert_eq!(m.job_key, 42);
            assert_eq!(m.retries, 2);
            assert_eq!(m.error_message, "boom");
            assert_eq!(m.retry_back_off, 0);
            assert_eq!(m.variables, "null");
        }
        _ => panic!("expected a failure"),
    }
}

#[test]
fn fail_job_with_data_sends_the_data() {
    let report = handle_result(
        &job(5, 1),
        Err(WorkerError::FailJobWithData {
            error_message: String::from("bad input"),
            data: Ok(String::from("{\"reason\":1}")),
        }),
    );
    match report {
        Some(JobReport::Fail(req)) => {
            let m = req.into_request();
            assert_eq!(m.retries, 0);
            assert_eq!(m.error_message, "bad input");
            assert_eq!(m.variables, "{\"reason\":1}");
        }
        _ => panic!("expected a failure"),
    }
    let skipped = handle_result(
        &job(5, 1),
        Err(WorkerError::FailJobWithData { error_message: String::from("x"), data: Err(json_error()) }),
    );
    assert!(skipped.is_none());
}

#[test]
fn throw_error_sends_code_and_message() {
    let report = handle_result(
        &job(9, 3),
        Err(WorkerError::ThrowError {
            error_code: String::from("NOT_PAID"),
            error_message: Some(String::from("card declined")),
        }),
    );
    match report {
        Some(JobReport::ThrowError(req)) => {
            let m = req.into_request();
            assert_eq!(m.job_key, 9);
            assert_eq!(m.error_code, "NOT_PAID");
            assert_eq!(m.error_message, "card declined");
            assert_eq!(m.variables, "null");
        }
        _ => panic!("expected a thrown error"),
    }
    let without_message = handle_result(
        &job(9, 3),
        Err(WorkerError::ThrowError { error_code: String::from("E"), error_message: None }),
    );
    match without_message {
        Some(JobReport::ThrowError(req)) => assert_eq!(req.into_request().error_message, ""),
        _ => panic!("expected a thrown error"),
    }
}

#[test]
fn throw_error_with_data_sends_the_data() {
    let report = handle_result(
        &job(9, 3),
        Err(WorkerError::ThrowErrorWithData {
            error_code: String::from("E"),
            error_message: None,
            data: Ok(String::from("[1]")),
        }),
    );
    match report {
        Some(JobReport::ThrowError(req)) => {
            let m = req.into_request();
            assert_eq!(m.error_code, "E");
            assert_eq!(m.error_message, "");
            assert_eq!(m.variables, "[1]");
        }
        _ => panic!("expected a thrown error"),
    }
    let skipped = handle_result(
        &job(9, 3),
        Err(WorkerError::ThrowErrorWithData {
            error_code: String::from("E"),
            error_message: Some(String::from("m")),
            data: Err(json_error()),
        }),
    );
    assert!(skipped.is_none());
}

#[test]
fn poller_starts_one_fetch_at_a_time() {
    let mut p = Poller::new(4);
    assert_eq!(p.handle_message(PollingMessage::FetchJobs), Some(4));
    assert_eq!(p.handle_message(PollingMessage::FetchJobs), None);
    assert_eq!(p.handle_message(PollingMessage::JobsFetched(3)), None);
    assert_eq!(p.handle_message(PollingMessage::FetchJobsComplete), None);
    assert_eq!(p.handle_message(PollingMessage::FetchJobs), Some(1));
    assert_eq!(p.handle_message(PollingMessage::FetchJobsComplete), None);
    assert_eq!(p.handle_message(PollingMessage::JobFinished), None);
    assert_eq!(p.handle_message(PollingMessage::FetchJobs), Some(2));
}

#[test]
fn poller_asks_for_no_jobs_when_full_and_none_beyond() {
    let mut p = Poller::new(2);
    p.handle_message(PollingMessage::JobsFetched(2));
    assert_eq!(p.handle_message(PollingMessage::FetchJobs), Some(0));
    p.handle_message(PollingMessage::FetchJobsComplete);
    p.handle_message(PollingMessage::JobsFetched(1));
    assert_eq!(p.handle_message(PollingMessage::FetchJobs), None);
}

#[test]
fn poller_counts_saturate() {
    let mut p = Poller::new(1);
    p.handle_message(PollingMessage::JobFinished);
    assert_eq!(p.handle_message(PollingMessage::FetchJobs), Some(1));
    p.handle_message(PollingMessage::FetchJobsComplete);
    p.handle_message(PollingMessage::JobsFetched(u32::MAX));
    p.handle_message(PollingMessage::JobsFetched(5));
    assert_eq!(p.handle_message(PollingMessage::FetchJobs), None);
    p.handle_message(PollingMessage::JobFinished);
    assert_eq!(p.handle_message(PollingMessage::FetchJobs), None);
}

#[test]
fn count_fetched_adds_batches() {
    assert_eq!(count_fetched(0, 3), 3);
    assert_eq!(count_fetched(3, 4), 7);
}

#[test]
fn worker_builder_builds_the_activation_request() {
    let worker = WorkerBuilder::<zeebe_rs::worker::Initial, ()>::new()
        .with_request_timeout(Duration::from_secs(10))
        .with_job_timeout(Duration::new(60, 500_000))
        .with_max_jobs_to_activate(4)
        .with_concurrency_limit(2)
        .with_job_type(String::from("demo-service"))
        .with_handler("handler")
        .with_worker_name(String::from("w1"))
        .with_fetch_variable(String::from("a"))
        .with_fetch_variables(vec![String::from("b"), String::from("c")])
        .with_tenant_id(String::from("t1"))
        .with_tenant_ids(vec![String::from("t2")])
        .build();
    let (request, request_timeout, concurrency, handler, mut poller) = worker.into_parts();
    assert_eq!(
        request,
        protocol::ActivateJobsRequest {
            job_type: String::from("demo-service"),
            worker: String::from("w1"),
            timeout: 60_000,
            max_jobs_to_activate: 4,
            fetch_variable: vec![String::from("a"), String::from("b"), String::from("c")],
            request_timeout: 10_000,
            tenant_ids: vec![String::from("t1"), String::from("t2")],
        }
    );
    assert_eq!(request_timeout.as_millis(), 10_000);
    assert_eq!(concurrency, 2);
    assert_eq!(handler, "handler");
    assert_eq!(poller.handle_message(PollingMessage::FetchJobs), Some(4));
}

#[test]
fn worker_with_state_passes_the_state_to_the_handler() {
    let state = std::sync::Arc::new(SharedState(5u32));
    let builder = WorkerBuilder::<zeebe_rs::worker::Initial, ()>::new()
        .with_request_timeout(Duration::from_secs(1))
        .with_job_timeout(Duration::from_secs(1))
        .with_max_jobs_to_activate(1)
        .with_concurrency_limit(1)
        .with_job_type(String::from("t"))
        .with_state(state.clone())
        .with_handler(7u8);
    let (_, _, _, (handler, shared), _) = builder.build().into_parts();
    assert_eq!(handler, 7);
    assert_eq!(**shared, 5);
    assert!(std::sync::Arc::ptr_eq(&shared, &state));
}

#[test]
fn negative_max_jobs_reads_as_u32() {
    let request = protocol::ActivateJobsRequest {
        job_type: String::new(),
        worker: String::new(),
        timeout: 0,
        max_jobs_to_activate: -1,
        fetch_variable: vec![],
        request_timeout: 0,
        tenant_ids: vec![],
    };
    let worker = Worker::new(request, Duration::zero(), 1, ());
    let (_, _, _, _, mut poller) = worker.into_parts();
    assert_eq!(poller.handle_message(PollingMessage::FetchJobs), Some(-1));
}

#[test]
fn fetch_request_sets_the_count() {
    let base = protocol::ActivateJobsRequest {
        job_type: String::from("t"),
        worker: String::from("w"),
        timeout: 5,
        max_jobs_to_activate: 10,
        fetch_variable: vec![String::from("v")],
        request_timeout: 6,
        tenant_ids: vec![],
    };
    let r = fetch_request(&base, 3);
    assert_eq!(r.max_jobs_to_activate, 3);
    assert_eq!(r.job_type, "t");
    assert_eq!(r.fetch_variable, vec![String::from("v")]);
    assert_eq!(r.timeout, 5);
    assert_eq!(r.request_timeout, 6);
}

#[test]
fn default_poll_interval_is_fifteen_seconds() {
    assert_eq!(default_poll_interval().as_millis(), 15_000);
}
