use muzanci_transport::ident::Uuid;
use muzanci_transport::job::AvailableJob;
use muzanci_transport::message::ExitStatus;
use muzanci_transport::pipeline::{Job, Pipeline, Rule, Secret, Step};
use muzanci_transport::worker::{WorkerConfig, WorkerEvent};
use muzanci_transport::{MUZANCI_RUNNER_ID_HEADER, MUZANCI_TRANSPORT_V1};

#[test]
fn header_names() {
    assert_eq!(MUZANCI_TRANSPORT_V1, "muzanci-transport/v1");
    assert_eq!(MUZANCI_RUNNER_ID_HEADER, "X-MuzanCI-Runner-ID");
}

#[test]
fn exit_status_texts() {
    assert_eq!(ExitStatus::Code(0).to_string(), "0");
    assert_eq!(ExitStatus::Code(127).to_string(), "127");
    assert_eq!(ExitStatus::Code(-1).to_string(), "-1");
    assert_eq!(ExitStatus::Code(i32::MAX).to_string(), "2147483647");
    assert_eq!(ExitStatus::Code(i32::MIN).to_string(), "-2147483648");
    assert_eq!(ExitStatus::Signal.to_string(), "signal");
}

#[test]
fn available_job_keeps_its_parts() {
    let job = AvailableJob::new(Uuid { value: 9 }, 4);
    assert_eq!(job.job_id(), Uuid { value: 9 });
    assert_eq!(job.runner_capacity_required(), 4);
}

#[test]
fn worker_config_keeps_its_parts() {
    let config = WorkerConfig::new(
        Uuid { value: 3 },
        2,
        "token".to_string(),
        "owner".to_string(),
        "name".to_string(),
        "sha".to_string(),
        "make".to_string(),
    );
    assert_eq!(config.worker_id(), Uuid { value: 3 });
    assert_eq!(config.worker_capacity(), 2);
    assert_eq!(config.access_token(), "token");
    assert_eq!(config.repo_owner(), "owner");
    assert_eq!(config.repo_name(), "name");
    assert_eq!(config.commit_sha(), "sha");
    assert_eq!(config.exec(), "make");
}

#[test]
fn worker_events_differ() {
    assert_ne!(WorkerEvent::Started, WorkerEvent::Completed);
    assert_ne!(WorkerEvent::Completed, WorkerEvent::Failed);
}

#[test]
fn pipelines_name_their_jobs() {
    let job = Job {
        job_id: Uuid { value: 1 },
        name: "build".to_string(),
        steps: vec![Step {
            name: "compile".to_string(),
            command: "make".to_string(),
            secrets: vec![Secret { name: "TOKEN".to_string(), key: "token".to_string() }],
        }],
        depends_on: vec![],
    };
    let pipeline = Pipeline {
        pipeline_id: Uuid { value: 2 },
        name: "main".to_string(),
        when: vec![Rule::PullRequest {
            include_branches: Some(vec!["main".to_string()]),
            exclude_branches: None,
            include_paths: None,
            exclude_paths: None,
        }],
        targets: vec![job.job_id],
    };
    assert_eq!(pipeline.targets, vec![Uuid { value: 1 }]);
    assert_eq!(job.clone().steps[0].secrets[0].key, "token");
    assert!(matches!(pipeline.when[0], Rule::PullRequest { .. }));
}
