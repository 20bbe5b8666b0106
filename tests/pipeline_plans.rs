use deploy_engine::database::{Container, Database, DatabaseOptions, DatabaseParams, Managed, ModeKind, PostgresSQL};
use deploy_engine::errors::{CommandError, EnvironmentStep, EventDetails, Tag};
use deploy_engine::pipeline::{
    delete_pending_service, delete_stateful_service, delete_stateless_service, delete_terraform_tfstate_secret,
    deploy_stateful_service, deploy_stateless_service, external_name_release, helm_uninstall_release,
    namespace_creation_result, namespace_labels, scale_down_application, scale_down_database, step_failure,
    Cluster, ClusterAdvancedSettings, CloudProviderInfo, DatabaseTerraformConfig, DatabaseTerraformConfigError,
    Environment, ExecutionContext, Kind, KubernetesPodStatusPhase, NamespaceCreation, PodSummary, ScalingKind,
    Step, StepOutcome, readiness_outcome, step_outcome, pending_cleanup_next, pending_cleanup_start, CleanupAction,
};
use deploy_engine::service::{Action, DatabaseType, DeploymentTarget, ServiceType};

const LONG_ID: u128 = 0x67e5504410b1426f9247bb680e5fe0c8;
const WS: &str = "/ws/x1/databases/67e55044-10b1-426f-9247-bb680e5fe0c8";

fn details() -> EventDetails {
    EventDetails {
        organization_id: "org".to_string(),
        cluster_id: "cluster".to_string(),
        environment_id: "env".to_string(),
        execution_id: "exec".to_string(),
        stage: EnvironmentStep::Deploy,
    }
}

fn context(ttl: Option<u32>) -> ExecutionContext {
    ExecutionContext {
        execution_id: "x1".to_string(),
        workspace_root_dir: "/ws".to_string(),
        lib_root_dir: "/lib".to_string(),
        resource_expiration_in_seconds: ttl,
        is_dry_run_deploy: true,
    }
}

fn target() -> DeploymentTarget {
    DeploymentTarget {
        kubernetes: Cluster {
            id: "c1".to_string(),
            name: "cluster-one".to_string(),
            region: "eu-west-3".to_string(),
            zone: "a".to_string(),
            kubeconfig_path: "/tmp/kubeconfig".to_string(),
            advanced_settings: ClusterAdvancedSettings {
                database_postgresql_deny_public_access: false,
                database_mongodb_deny_public_access: false,
                database_mysql_deny_public_access: false,
                database_redis_deny_public_access: false,
                pleco_resources_ttl: -1,
            },
        },
        environment: Environment {
            id: "e1".to_string(),
            long_id: "e1-long".to_string(),
            project_id: "proj-a".to_string(),
            project_long_id: "proj-a-long".to_string(),
            organization_id: "o1".to_string(),
            organization_long_id: "o1-long".to_string(),
            owner_id: "u1".to_string(),
            namespace: "ns1".to_string(),
        },
        cloud_provider: CloudProviderInfo {
            kind: Kind::Aws,
            lib_directory_name: "aws".to_string(),
            tera_context_environment_variables: vec![],
        },
    }
}

fn params() -> DatabaseParams {
    DatabaseParams {
        long_id: LONG_ID,
        action: Action::Create,
        name: "orders".to_string(),
        kube_name: "orders-db".to_string(),
        version: "13".to_string(),
        created_at: 0,
        fqdn: "orders.example.com".to_string(),
        fqdn_id: "orders-fqdn".to_string(),
        total_cpus: "500m".to_string(),
        total_ram_in_mib: 512,
        total_disk_size_in_gb: 10,
        database_instance_type: None,
        publicly_accessible: true,
        private_port: 5432,
        options: DatabaseOptions {
            login: "admin".to_string(),
            password: "pw".to_string(),
            host: "orders-host".to_string(),
            port: 5432,
            mode: ModeKind::Managed,
            disk_size_in_gib: 10,
            database_disk_type: "gp2".to_string(),
            encrypt_disk: true,
            activate_high_availability: false,
            activate_backups: false,
            publicly_accessible: true,
        },
    }
}

fn managed() -> Database {
    Database::new::<Managed, PostgresSQL>(&context(None), params(), Kind::Aws, "aws", true, details()).ok().unwrap()
}

fn container() -> Database {
    Database::new::<Container, PostgresSQL>(&context(None), params(), Kind::Aws, "aws", true, details()).ok().unwrap()
}

fn render(step: &Step) -> (String, String) {
    match step {
        Step::RenderTemplates { source_dir, target_dir } => (source_dir.clone(), target_dir.clone()),
        _ => panic!("expected a render step"),
    }
}

#[test]
fn ttl_label_when_expiration_is_set() {
    let labels = namespace_labels(Some(3600)).unwrap();
    assert_eq!(labels.len(), 1);
    assert_eq!(labels[0].name, "ttl");
    assert_eq!(labels[0].value, "3600");
    assert!(namespace_labels(None).is_none());
}

#[test]
fn namespace_creation_is_idempotent() {
    assert!(namespace_creation_result(NamespaceCreation::Created, "ns1", details()).is_ok());
    assert!(namespace_creation_result(NamespaceCreation::AlreadyExists, "ns1", details()).is_ok());
    // two pipelines racing: one creates, the other finds it there
    let first = namespace_creation_result(NamespaceCreation::Created, "ns1", details());
    let second = namespace_creation_result(NamespaceCreation::AlreadyExists, "ns1", details());
    assert!(first.is_ok() && second.is_ok());
    let e = namespace_creation_result(
        NamespaceCreation::Failed(CommandError::new("forbidden".to_string(), None)),
        "ns1",
        details(),
    )
    .err()
    .unwrap();
    assert_eq!(e.tag, Tag::K8sCannotCreateNamespace);
    assert_eq!(e.user_log_message, "Cannot create namespace `ns1`");
}

#[test]
fn stateless_plan_order() {
    let db = container();
    let steps = deploy_stateless_service(&target(), &db, &context(Some(60)));
    assert_eq!(steps.len(), 5);
    assert_eq!(render(&steps[0]), ("/lib/common/services/postgresql".to_string(), WS.to_string()));
    match &steps[1] {
        Step::CreateNamespace { namespace, labels } => {
            assert_eq!(namespace, "ns1");
            assert_eq!(labels.as_ref().unwrap()[0].value, "60");
        }
        _ => panic!("expected namespace creation"),
    }
    match &steps[2] {
        Step::HelmUpgrade { chart } => {
            assert_eq!(chart.name, "postgresql-z67e55044");
            assert_eq!(chart.path, WS);
            assert_eq!(chart.timeout_in_seconds, 600);
            assert_eq!(chart.values_files, vec![format!("{}/q-values.yaml", WS)]);
            assert!(chart.atomic);
        }
        _ => panic!("expected a release"),
    }
    assert!(matches!(&steps[3], Step::DeletePendingPods { .. }));
    match &steps[4] {
        Step::WaitPodsReady { selector, timeout_in_seconds, .. } => {
            assert_eq!(selector, "qovery.com/service-id=67e55044-10b1-426f-9247-bb680e5fe0c8");
            assert_eq!(*timeout_in_seconds, 600);
        }
        _ => panic!("expected a readiness wait"),
    }
}

#[test]
fn container_database_plan() {
    let steps = deploy_stateful_service(&target(), &container(), &context(None));
    assert_eq!(steps.len(), 6);
    assert_eq!(render(&steps[0]).0, "/lib/common/services/postgresql");
    assert_eq!(render(&steps[1]).0, "/lib/aws/chart_values/postgresql");
    assert!(matches!(&steps[2], Step::CreateNamespace { labels: None, .. }));
    assert!(matches!(&steps[5], Step::WaitPodsReady { .. }));
}

#[test]
fn managed_database_plan() {
    let steps = deploy_stateful_service(&target(), &managed(), &context(None));
    assert_eq!(steps.len(), 6);
    assert!(matches!(&steps[0], Step::CreateNamespace { .. }));
    assert_eq!(render(&steps[1]), ("/lib/aws/services/common".to_string(), WS.to_string()));
    assert_eq!(render(&steps[2]), ("/lib/aws/services/postgresql".to_string(), WS.to_string()));
    assert_eq!(
        render(&steps[3]),
        ("/lib/common/charts/external-name-svc".to_string(), format!("{}/external-name-svc", WS))
    );
    assert!(matches!(&steps[4], Step::TerraformApply { dry_run: true, .. }));
    match &steps[5] {
        Step::DeployExternalName { config_file, chart_dir } => {
            assert_eq!(config_file, &format!("{}/database-tf-config.json", WS));
            assert_eq!(chart_dir, &format!("{}/external-name-svc", WS));
        }
        _ => panic!("expected the external name step"),
    }
}

#[test]
fn managed_delete_renders_what_deploy_rendered() {
    let db = managed();
    let deploy = deploy_stateful_service(&target(), &db, &context(None));
    let delete = delete_stateful_service(&target(), &db);
    assert_eq!(delete.len(), 6);
    for i in 0..3 {
        assert_eq!(render(&deploy[i + 1]), render(&delete[i]));
    }
    assert!(matches!(&delete[4], Step::TerraformDestroy { .. }));
    match &delete[5] {
        Step::DeleteTfstateSecret { namespace, secret_name } => {
            assert_eq!(namespace, "ns1");
            assert_eq!(secret_name, "tfstate-default-z67e55044");
        }
        _ => panic!("expected the secret deletion"),
    }
}

#[test]
fn container_delete_uninstalls() {
    let steps = delete_stateful_service(&target(), &container());
    assert_eq!(steps.len(), 1);
    match &steps[0] {
        Step::HelmUninstall { release_name, namespace } => {
            assert_eq!(release_name, "postgresql-z67e55044");
            assert_eq!(namespace, "ns1");
        }
        _ => panic!("expected an uninstall"),
    }
    assert_eq!(delete_stateless_service(&target(), &container()).len(), 1);
    assert!(matches!(helm_uninstall_release(&target(), "r"), Step::HelmUninstall { .. }));
    assert!(matches!(delete_terraform_tfstate_secret(&target(), "s"), Step::DeleteTfstateSecret { .. }));
}

#[test]
fn scaling_plans() {
    assert!(scale_down_database(&target(), &managed(), 0).is_empty());
    let steps = scale_down_database(&target(), &container(), 0);
    match &steps[0] {
        Step::ScaleReplicas { kind, selector, replicas, .. } => {
            assert_eq!(*kind, ScalingKind::Statefulset);
            assert_eq!(selector, "databaseId=z67e55044");
            assert_eq!(*replicas, 0);
        }
        _ => panic!("expected a scale step"),
    }
    match scale_down_application(&target(), &container(), 2, ScalingKind::Deployment) {
        Step::ScaleReplicas { kind, replicas, .. } => {
            assert_eq!(kind, ScalingKind::Deployment);
            assert_eq!(replicas, 2);
        }
        _ => panic!("expected a scale step"),
    }
}

#[test]
fn failures_become_errors_of_their_step() {
    let render_step = Step::RenderTemplates { source_dir: "/a".to_string(), target_dir: "/b".to_string() };
    let e = step_failure(&render_step, false, ServiceType::Application, "api (z1)", details(), Some(CommandError::new("io".to_string(), None))).unwrap();
    assert_eq!(e.tag, Tag::CannotCopyFilesFromDirectoryToDirectory);
    assert_eq!(e.user_log_message, "Cannot copy files from `/a` to `/b`");
    assert_eq!(e.underlying_error.unwrap().message_safe, "io");
    let wait = Step::WaitPodsReady { namespace: "ns".to_string(), selector: "s".to_string(), timeout_in_seconds: 600 };
    let e = step_failure(&wait, false, ServiceType::Application, "api (z1)", details(), None).unwrap();
    assert_eq!(e.tag, Tag::K8sPodIsNotReady);
    assert_eq!(e.user_log_message, "Pods of selector `s` in namespace `ns` are not ready");
    let db = ServiceType::Database(DatabaseType::PostgreSQL);
    let e = step_failure(&wait, true, db, "orders (z67e55044)", details(), None).unwrap();
    assert_eq!(e.tag, Tag::DatabaseFailedToStartAfterSeveralRetries);
    assert_eq!(e.user_log_message, "PostgreSQL database `orders (z67e55044)` failed to start after several retries");
    let secret = Step::DeleteTfstateSecret { namespace: "ns".to_string(), secret_name: "s".to_string() };
    assert!(step_failure(&secret, true, db, "x", details(), None).is_none());
    let destroy = Step::TerraformDestroy { dir: "/w".to_string() };
    assert_eq!(
        step_failure(&destroy, true, db, "x", details(), None).unwrap().tag,
        Tag::TerraformErrorWhileExecutingDestroyPipeline
    );
}

#[test]
fn external_name_release_from_config() {
    let config = DatabaseTerraformConfig {
        target_id: "db1".to_string(),
        target_hostname: "db1.rds.amazonaws.com".to_string(),
        target_fqdn_id: "db1-fqdn".to_string(),
        target_fqdn: "db1.example.com".to_string(),
    };
    let chart = external_name_release(Ok(config), &managed(), "/w/external-name-svc", "ns1", details())
        .ok()
        .unwrap()
        .unwrap();
    assert_eq!(chart.name, "db1-externalname");
    assert_eq!(chart.path, "/w/external-name-svc");
    let values: Vec<(String, String)> = chart.values.iter().map(|v| (v.key.clone(), v.value.clone())).collect();
    assert_eq!(
        values,
        vec![
            ("target_hostname".to_string(), "db1.rds.amazonaws.com".to_string()),
            ("source_fqdn".to_string(), "db1.example.com".to_string()),
            ("app_id".to_string(), "z67e55044".to_string()),
            ("service_name".to_string(), "db1-fqdn".to_string()),
            ("publicly_accessible".to_string(), "true".to_string()),
        ]
    );
}

#[test]
fn external_name_release_without_or_with_bad_config() {
    let missing = Err(DatabaseTerraformConfigError::FileDoesntExist(CommandError::new("none".to_string(), None)));
    assert!(matches!(external_name_release(missing, &managed(), "/w", "ns1", details()), Ok(None)));
    let bad = Err(DatabaseTerraformConfigError::FileCannotBeParsed(CommandError::new("bad".to_string(), None)));
    let e = external_name_release(bad, &managed(), "/w", "ns1", details()).err().unwrap();
    assert_eq!(e.tag, Tag::TerraformConfigFileNotFound);
}

#[test]
fn only_pending_pods_are_deleted() {
    let pods = vec![
        PodSummary { namespace: "ns1".to_string(), name: "a".to_string(), phase: KubernetesPodStatusPhase::Running },
        PodSummary { namespace: "ns1".to_string(), name: "b".to_string(), phase: KubernetesPodStatusPhase::Pending },
        PodSummary { namespace: "ns2".to_string(), name: "c".to_string(), phase: KubernetesPodStatusPhase::Failed },
        PodSummary { namespace: "ns2".to_string(), name: "d".to_string(), phase: KubernetesPodStatusPhase::Pending },
    ];
    assert_eq!(
        delete_pending_service(&pods),
        vec![("ns1".to_string(), "b".to_string()), ("ns2".to_string(), "d".to_string())]
    );
    assert!(delete_pending_service(&vec![]).is_empty());
}

#[test]
fn readiness_poll_outcomes() {
    assert!(matches!(readiness_outcome(Ok(Some(true))), StepOutcome::Done));
    assert!(matches!(readiness_outcome(Ok(Some(false))), StepOutcome::Failed(None)));
    assert!(matches!(readiness_outcome(Ok(None)), StepOutcome::Failed(None)));
    assert!(matches!(
        readiness_outcome(Err(CommandError::new("timeout".to_string(), None))),
        StepOutcome::Failed(Some(_))
    ));
}

#[test]
fn pipeline_goes_on_or_stops() {
    let db = ServiceType::Database(DatabaseType::PostgreSQL);
    let wait = Step::WaitPodsReady { namespace: "ns".to_string(), selector: "s".to_string(), timeout_in_seconds: 600 };
    assert!(step_outcome(&wait, StepOutcome::Done, true, db, "d (z)", details()).is_ok());
    let e = step_outcome(&wait, StepOutcome::Failed(None), true, db, "d (z)", details()).err().unwrap();
    assert_eq!(e.tag, Tag::DatabaseFailedToStartAfterSeveralRetries);
    assert!(e.underlying_error.is_none());
    let secret = Step::DeleteTfstateSecret { namespace: "ns".to_string(), secret_name: "s".to_string() };
    assert!(step_outcome(&secret, StepOutcome::Failed(None), true, db, "d (z)", details()).is_ok());
    let decided = deploy_engine::errors::EngineError::new(Tag::TerraformConfigFileNotFound, details(), "bad".to_string(), None);
    let ext = Step::DeployExternalName { config_file: "/c".to_string(), chart_dir: "/d".to_string() };
    let e = step_outcome(&ext, StepOutcome::Refused(decided), true, db, "d (z)", details()).err().unwrap();
    assert_eq!(e.tag, Tag::TerraformConfigFileNotFound);
}

#[test]
fn pending_cleanup_stops_at_first_failed_deletion() {
    let pods = vec![
        PodSummary { namespace: "ns1".to_string(), name: "a".to_string(), phase: KubernetesPodStatusPhase::Pending },
        PodSummary { namespace: "ns1".to_string(), name: "b".to_string(), phase: KubernetesPodStatusPhase::Running },
        PodSummary { namespace: "ns1".to_string(), name: "c".to_string(), phase: KubernetesPodStatusPhase::Pending },
    ];
    let pending = pending_cleanup_start(Ok(pods)).ok().unwrap();
    assert_eq!(pending, vec![("ns1".to_string(), "a".to_string()), ("ns1".to_string(), "c".to_string())]);
    assert!(matches!(pending_cleanup_next(&pending, 0, Ok(())), CleanupAction::DeletePod { name, .. } if name == "a"));
    assert!(matches!(pending_cleanup_next(&pending, 1, Ok(())), CleanupAction::DeletePod { name, .. } if name == "c"));
    assert!(matches!(pending_cleanup_next(&pending, 2, Ok(())), CleanupAction::Finish(StepOutcome::Done)));
    let failed = pending_cleanup_next(&pending, 1, Err(CommandError::new("denied".to_string(), None)));
    match failed {
        CleanupAction::Finish(outcome) => {
            let step = Step::DeletePendingPods { namespace: "ns1".to_string(), selector: "s".to_string() };
            let e = step_outcome(&step, outcome, false, ServiceType::Application, "a (z)", details()).err().unwrap();
            assert_eq!(e.tag, Tag::K8sServiceError);
            assert_eq!(e.underlying_error.unwrap().message_safe, "denied");
        }
        _ => panic!("expected the cleanup to stop"),
    }
    let listing = pending_cleanup_start(Err(CommandError::new("no list".to_string(), None)));
    assert!(matches!(listing, Err(StepOutcome::Failed(Some(_)))));
}
