use deploy_engine::diagnostics::{
    evidence_failure, EvidenceSource,
    get_stateless_resource_information_for_user, matches_ignore_ascii_case, ContainerLastState,
    ContainerStateTerminated, ContainerStateWaiting, ContainerStatus, KubernetesEvent, PodCondition, PodStatus,
};

#[test]
fn evidence_lines_in_order() {
    let pods = vec![PodStatus {
        conditions: vec![
            PodCondition {
                status: "True".to_string(),
                typee: "Initialized".to_string(),
                reason: None,
                message: None,
            },
            PodCondition {
                status: "FALSE".to_string(),
                typee: "Ready".to_string(),
                reason: Some("ContainersNotReady".to_string()),
                message: Some("containers with unready status".to_string()),
            },
            PodCondition { status: "false".to_string(), typee: "PodScheduled".to_string(), reason: None, message: None },
        ],
        container_statuses: Some(vec![
            ContainerStatus {
                last_state: Some(ContainerLastState {
                    terminated: Some(ContainerStateTerminated { exit_code: -1, message: Some("OOMKilled".to_string()) }),
                    waiting: Some(ContainerStateWaiting { message: Some("back-off".to_string()) }),
                }),
            },
            ContainerStatus { last_state: None },
            ContainerStatus {
                last_state: Some(ContainerLastState {
                    terminated: Some(ContainerStateTerminated { exit_code: 137, message: None }),
                    waiting: Some(ContainerStateWaiting { message: None }),
                }),
            },
        ]),
    }];
    let events = vec![
        KubernetesEvent {
            type_: "Normal".to_string(),
            reason: "Pulled".to_string(),
            message: Some("pulled".to_string()),
            last_timestamp: None,
        },
        KubernetesEvent {
            type_: "Warning".to_string(),
            reason: "BackOff".to_string(),
            message: Some("Back-off restarting".to_string()),
            last_timestamp: Some("2024-01-01T00:00:00Z".to_string()),
        },
        KubernetesEvent { type_: "Warning".to_string(), reason: "Silent".to_string(), message: None, last_timestamp: None },
    ];
    let lines = get_stateless_resource_information_for_user(vec!["log line".to_string()], &pods, &events);
    assert_eq!(
        lines,
        vec![
            "log line".to_string(),
            "Condition not met to start the container: Ready -> Some(\"ContainersNotReady\"): containers with unready status"
                .to_string(),
            "Condition not met to start the container: PodScheduled -> None: ".to_string(),
            "terminated state message: OOMKilled".to_string(),
            "terminated state exit code: -1".to_string(),
            "waiting state message: back-off".to_string(),
            "terminated state exit code: 137".to_string(),
            "2024-01-01T00:00:00Z Warning BackOff: Back-off restarting".to_string(),
        ]
    );
}

#[test]
fn no_evidence_without_data() {
    assert!(get_stateless_resource_information_for_user(vec![], &vec![], &vec![]).is_empty());
}

#[test]
fn ascii_case_insensitive_comparison() {
    assert!(matches_ignore_ascii_case("FaLsE", "false"));
    assert!(!matches_ignore_ascii_case("falsey", "false"));
    assert!(!matches_ignore_ascii_case("true", "false"));
}

#[test]
fn evidence_read_failures() {
    let details = deploy_engine::errors::EventDetails {
        organization_id: "o".to_string(),
        cluster_id: "c".to_string(),
        environment_id: "e".to_string(),
        execution_id: "x".to_string(),
        stage: deploy_engine::errors::EnvironmentStep::Deploy,
    };
    let cause = deploy_engine::errors::CommandError::new("timeout".to_string(), None);
    let e = evidence_failure(EvidenceSource::Logs, "app=api", "ns1", details, cause);
    assert_eq!(e.tag, deploy_engine::errors::Tag::K8sGetLogs);
    assert_eq!(e.user_log_message, "Cannot get logs of `app=api` in namespace `ns1`");
}
