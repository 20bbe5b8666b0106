use std::cell::Cell;

use deploy_engine::errors::{CommandError, EngineError, EnvironmentStep, EventDetails, Tag};
use deploy_engine::pipeline::{Cluster, ClusterAdvancedSettings, CloudProviderInfo, Environment, Kind};
use deploy_engine::service::{
    check_kubernetes_service_error, check_service_version, database_domains_to_check, debug_logs, debug_logs_message,
    Notification, ProgressLevel, fqdn, get_tfstate_name,
    get_tfstate_suffix, lifecycle_hook, name_with_id, progress_event, progress_scope, service_check_start_message,
    service_workspace_directory, Action, CheckAction, Create, DatabaseType, Delete, DeploymentTarget, Hook, Pause,
    ProgressEvent, ProgressScope, Service, ServiceType, ServiceView, StatelessService,
};

fn details() -> EventDetails {
    EventDetails {
        organization_id: "org".to_string(),
        cluster_id: "cluster".to_string(),
        environment_id: "env".to_string(),
        execution_id: "exec".to_string(),
        stage: EnvironmentStep::Deploy,
    }
}

fn target() -> DeploymentTarget {
    DeploymentTarget {
        kubernetes: Cluster {
            id: "c1".to_string(),
            name: "cluster-one".to_string(),
            region: "eu-west-3".to_string(),
            zone: "a".to_string(),
            kubeconfig_path: "/tmp/kubeconfig".to_string(),
            advanced_settings: ClusterAdvancedSettings {
                database_postgresql_deny_public_access: false,
                database_mongodb_deny_public_access: false,
                database_mysql_deny_public_access: false,
                database_redis_deny_public_access: false,
                pleco_resources_ttl: -1,
            },
        },
        environment: Environment {
            id: "e1".to_string(),
            long_id: "e1-long".to_string(),
            project_id: "proj-a".to_string(),
            project_long_id: "proj-a-long".to_string(),
            organization_id: "o1".to_string(),
            organization_long_id: "o1-long".to_string(),
            owner_id: "u1".to_string(),
            namespace: "ns1".to_string(),
        },
        cloud_provider: CloudProviderInfo {
            kind: Kind::Aws,
            lib_directory_name: "aws".to_string(),
            tera_context_environment_variables: vec![],
        },
    }
}

#[test]
fn fqdn_public_service_uses_fallback() {
    assert_eq!(fqdn(true, true, "abc123", "svc", "ns1", "app.example.com"), "app.example.com");
    assert_eq!(fqdn(true, false, "abc123", "svc", "ns1", "app.example.com"), "app.example.com");
}

#[test]
fn fqdn_private_managed_service_uses_id() {
    assert_eq!(fqdn(false, true, "abc123", "svc", "ns1", "app.example.com"), "abc123-dns.ns1.svc.cluster.local");
}

#[test]
fn fqdn_private_container_service_uses_sanitized_name() {
    assert_eq!(fqdn(false, false, "abc123", "svc", "ns1", "app.example.com"), "svc.ns1.svc.cluster.local");
}

#[test]
fn service_type_names() {
    assert_eq!(ServiceType::Application.name(), "Application");
    assert_eq!(ServiceType::Router.name(), "Router");
    assert_eq!(ServiceType::Database(DatabaseType::PostgreSQL).name(), "PostgreSQL database");
    assert_eq!(ServiceType::Database(DatabaseType::Redis).to_string(), "Redis database");
    assert_eq!(DatabaseType::MongoDB.to_string(), "MongoDB");
    assert_eq!(DatabaseType::MySQL.to_string(), "MySQL");
}

#[test]
fn tfstate_secret_name() {
    assert_eq!(get_tfstate_name("zabc"), "tfstate-default-zabc");
    assert_eq!(get_tfstate_suffix("zabc"), "zabc");
}

#[test]
fn workspace_directory_by_kind() {
    assert_eq!(service_workspace_directory("/ws", "x1", ServiceType::Application, "app"), "/ws/x1/applications/app");
    assert_eq!(
        service_workspace_directory("/ws", "x1", ServiceType::Database(DatabaseType::MySQL), "db"),
        "/ws/x1/databases/db"
    );
    assert_eq!(service_workspace_directory("/ws", "x1", ServiceType::Router, "r"), "/ws/x1/routers/r");
}

#[test]
fn name_with_id_format() {
    assert_eq!(name_with_id("api", "z123"), "api (z123)");
}

#[test]
fn progress_scope_follows_kind() {
    assert!(matches!(progress_scope(ServiceType::Router, "r1"), ProgressScope::Router { id } if id == "r1"));
    assert!(matches!(
        progress_scope(ServiceType::Database(DatabaseType::Redis), "d1"),
        ProgressScope::Database { id } if id == "d1"
    ));
}

#[test]
fn version_check_same_version_has_no_message() {
    let r = check_service_version(
        Ok("13".to_string()),
        ServiceType::Database(DatabaseType::PostgreSQL),
        "13",
        details(),
    );
    assert!(r.0.is_empty());
    let r = r.1.ok().unwrap();
    assert_eq!(r.requested_version(), "13");
    assert_eq!(r.matched_version(), "13");
    assert!(r.message().is_none());
}

#[test]
fn version_check_other_version_has_message() {
    let (notes, r) = check_service_version(
        Ok("13.4".to_string()),
        ServiceType::Database(DatabaseType::PostgreSQL),
        "13",
        details(),
    );
    let expected = "PostgreSQL database version `13` has been requested by the user; but matching version is `13.4`";
    assert_eq!(
        flatten(&notes),
        vec![
            ("log/Info".to_string(), expected.to_string()),
            ("DeploymentInProgress/Info".to_string(), expected.to_string()),
        ]
    );
    let r = r.ok().unwrap();
    assert_eq!(r.matched_version(), "13.4");
    assert_eq!(
        r.message().unwrap(),
        "PostgreSQL database version `13` has been requested by the user; but matching version is `13.4`"
    );
}

#[test]
fn version_check_refused_version_is_unsupported() {
    let r = check_service_version(
        Err(CommandError::new("no".to_string(), None)),
        ServiceType::Database(DatabaseType::MySQL),
        "4.0",
        details(),
    );
    assert_eq!(
        flatten(&r.0),
        vec![
            ("DeploymentError/Error".to_string(), "MySQL database version 4.0 is not supported!".to_string()),
            ("log/Error".to_string(), "MySQL database version 4.0 is not supported!".to_string()),
        ]
    );
    let e = r.1.err().unwrap();
    assert_eq!(e.tag, Tag::UnsupportedVersion);
    assert_eq!(e.user_log_message, "MySQL database version 4.0 is not supported!");
}

#[test]
fn service_check_success_stays_success() {
    assert!(check_kubernetes_service_error(Ok(()), details(), CheckAction::Deploy, "Deploying", ServiceType::Application, "api", "z1", &vec![]).1.is_ok());
}

#[test]
fn service_check_failure_keeps_underlying_cause() {
    let err = EngineError::new(
        Tag::HelmChartsUpgradeError,
        details(),
        "upgrade failed".to_string(),
        Some(CommandError::new("helm failed".to_string(), Some("secret output".to_string()))),
    );
    let e = check_kubernetes_service_error(Err(err), details(), CheckAction::Deploy, "Deploying", ServiceType::Application, "api", "z1", &vec![]).1.err().unwrap();
    assert_eq!(e.tag, Tag::K8sServiceError);
    let u = e.underlying_error.unwrap();
    assert_eq!(u.message_safe, "helm failed");
    assert_eq!(u.full_details.as_deref(), Some("secret output"));
}

#[test]
fn service_check_failure_without_cause_gets_empty_one() {
    let err = EngineError::new(Tag::Unknown, details(), "x".to_string(), None);
    let e = check_kubernetes_service_error(Err(err), details(), CheckAction::Deploy, "Deploying", ServiceType::Application, "api", "z1", &vec![]).1.err().unwrap();
    let u = e.underlying_error.unwrap();
    assert_eq!(u.message_safe, "");
    assert!(u.full_details.is_none());
}

#[test]
fn start_message_lowercases_the_kind() {
    assert_eq!(
        service_check_start_message("Deploying", ServiceType::Database(DatabaseType::PostgreSQL), "mydb"),
        "Deploying postgresql database mydb"
    );
    assert_eq!(service_check_start_message("Pausing", ServiceType::Router, "r"), "Pausing router r");
}

#[test]
fn debug_logs_joined_or_placeholder() {
    assert_eq!(debug_logs_message(&vec![]), "<no debug logs>");
    assert_eq!(debug_logs_message(&vec!["a".to_string()]), "a");
    assert_eq!(debug_logs_message(&vec!["a".to_string(), "b".to_string(), "c".to_string()]), "a\nb\nc");
}

#[test]
fn hooks_for_actions() {
    assert_eq!(lifecycle_hook(Action::Create), Some(Hook::OnCreate));
    assert_eq!(lifecycle_hook(Action::Pause), Some(Hook::OnPause));
    assert_eq!(lifecycle_hook(Action::Delete), Some(Hook::OnDelete));
    assert_eq!(lifecycle_hook(Action::Nothing), None);
}

struct Recorder {
    action: Action,
    creates: Cell<u32>,
    pauses: Cell<u32>,
    deletes: Cell<u32>,
    checks: Cell<u32>,
}

impl Recorder {
    fn new(action: Action) -> Recorder {
        Recorder { action, creates: Cell::new(0), pauses: Cell::new(0), deletes: Cell::new(0), checks: Cell::new(0) }
    }

    fn fail(&self) -> Result<(), EngineError> {
        Err(EngineError::new(Tag::Unknown, details(), "hook".to_string(), None))
    }
}

impl Service for Recorder {
    fn view_service(&self) -> ServiceView {
        panic!("only stated, never called")
    }
    fn service_type(&self) -> ServiceType {
        ServiceType::Application
    }
    fn id(&self) -> String {
        "zrec".to_string()
    }
    fn long_id(&self) -> String {
        "rec".to_string()
    }
    fn name(&self) -> String {
        "rec".to_string()
    }
    fn sanitized_name(&self) -> String {
        "rec".to_string()
    }
    fn version(&self) -> String {
        "1".to_string()
    }
    fn action(&self) -> Action {
        self.action
    }
    fn publicly_accessible(&self) -> bool {
        false
    }
    fn private_port(&self) -> Option<u16> {
        None
    }
    fn selector(&self) -> Option<String> {
        None
    }
    fn workspace_directory(&self) -> String {
        "/ws".to_string()
    }
    fn total_cpus(&self) -> String {
        "1".to_string()
    }
    fn total_ram_in_mib(&self) -> u32 {
        256
    }
    fn min_instances(&self) -> u32 {
        1
    }
    fn max_instances(&self) -> u32 {
        1
    }
}

impl Create for Recorder {
    fn on_create(&self, _target: &DeploymentTarget) -> Result<(), EngineError> {
        self.creates.set(self.creates.get() + 1);
        self.fail()
    }
    fn on_create_check(&self) -> Result<(), EngineError> {
        self.checks.set(self.checks.get() + 1);
        Ok(())
    }
    fn on_create_error(&self, _target: &DeploymentTarget) -> Result<(), EngineError> {
        Ok(())
    }
}

impl Pause for Recorder {
    fn on_pause(&self, _target: &DeploymentTarget) -> Result<(), EngineError> {
        self.pauses.set(self.pauses.get() + 1);
        Ok(())
    }
    fn on_pause_check(&self) -> Result<(), EngineError> {
        self.checks.set(self.checks.get() + 1);
        Ok(())
    }
    fn on_pause_error(&self, _target: &DeploymentTarget) -> Result<(), EngineError> {
        Ok(())
    }
}

impl Delete for Recorder {
    fn on_delete(&self, _target: &DeploymentTarget) -> Result<(), EngineError> {
        self.deletes.set(self.deletes.get() + 1);
        Ok(())
    }
    fn on_delete_check(&self) -> Result<(), EngineError> {
        self.checks.set(self.checks.get() + 1);
        Ok(())
    }
    fn on_delete_error(&self, _target: &DeploymentTarget) -> Result<(), EngineError> {
        Ok(())
    }
}

impl StatelessService for Recorder {}

#[test]
fn dispatch_runs_exactly_the_named_hook() {
    let t = target();
    let create = Recorder::new(Action::Create);
    let r = create.exec_action(&t);
    assert!(r.is_err());
    assert_eq!((create.creates.get(), create.pauses.get(), create.deletes.get()), (1, 0, 0));

    let pause = Recorder::new(Action::Pause);
    assert!(pause.exec_action(&t).is_ok());
    assert_eq!((pause.creates.get(), pause.pauses.get(), pause.deletes.get()), (0, 1, 0));

    let delete = Recorder::new(Action::Delete);
    assert!(delete.exec_action(&t).is_ok());
    assert_eq!((delete.creates.get(), delete.pauses.get(), delete.deletes.get()), (0, 0, 1));
}

#[test]
fn dispatch_nothing_runs_no_hook() {
    let t = target();
    let nothing = Recorder::new(Action::Nothing);
    assert!(nothing.exec_action(&t).is_ok());
    assert!(nothing.exec_check_action().is_ok());
    assert_eq!(
        (nothing.creates.get(), nothing.pauses.get(), nothing.deletes.get(), nothing.checks.get()),
        (0, 0, 0, 0)
    );
    let create = Recorder::new(Action::Create);
    assert!(create.exec_check_action().is_ok());
    assert_eq!(create.checks.get(), 1);
}

#[test]
fn progress_events_follow_the_check() {
    assert_eq!(progress_event(CheckAction::Deploy, false), ProgressEvent::DeploymentInProgress);
    assert_eq!(progress_event(CheckAction::Deploy, true), ProgressEvent::DeploymentError);
    assert_eq!(progress_event(CheckAction::Pause, true), ProgressEvent::PauseError);
    assert_eq!(progress_event(CheckAction::Delete, false), ProgressEvent::DeleteInProgress);
}

fn flatten(notes: &[Notification]) -> Vec<(String, String)> {
    notes
        .iter()
        .map(|n| match n {
            Notification::Progress { event, level, message } => (format!("{:?}/{:?}", event, level), message.clone()),
            Notification::Log { level, message } => (format!("log/{:?}", level), message.clone()),
        })
        .collect()
}

#[test]
fn check_notifications_on_success() {
    let (notes, r) = check_kubernetes_service_error(
        Ok(()),
        details(),
        CheckAction::Pause,
        "Pausing",
        ServiceType::Database(DatabaseType::MySQL),
        "shop",
        "z9",
        &vec![],
    );
    assert!(r.is_ok());
    assert_eq!(
        flatten(&notes),
        vec![
            ("PauseInProgress/Info".to_string(), "Pausing mysql database shop".to_string()),
            ("log/Info".to_string(), "Pausing mysql database shop".to_string()),
            ("PauseInProgress/Info".to_string(), "Pausing succeeded for mysql database shop".to_string()),
        ]
    );
}

#[test]
fn check_notifications_on_failure() {
    let err = EngineError::new(Tag::HelmChartsUpgradeError, details(), "upgrade failed".to_string(), None);
    let (notes, r) = check_kubernetes_service_error(
        Err(err),
        details(),
        CheckAction::Deploy,
        "Deploying",
        ServiceType::Application,
        "api",
        "z1",
        &vec!["line one".to_string(), "line two".to_string()],
    );
    assert_eq!(r.err().unwrap().tag, Tag::K8sServiceError);
    assert_eq!(
        flatten(&notes),
        vec![
            ("DeploymentInProgress/Info".to_string(), "Deploying application api".to_string()),
            ("log/Info".to_string(), "Deploying application api".to_string()),
            ("log/Error".to_string(), "Deploying error with Application api , id: z1".to_string()),
            ("DeploymentError/Error".to_string(), "Deploying error application api : error => upgrade failed".to_string()),
            ("log/Debug".to_string(), "line one\nline two".to_string()),
            ("DeploymentError/Debug".to_string(), "line one\nline two".to_string()),
        ]
    );
    let err = EngineError::new(Tag::Unknown, details(), "x".to_string(), None);
    let (notes, _) = check_kubernetes_service_error(
        Err(err), details(), CheckAction::Delete, "Deleting", ServiceType::Router, "r", "z2", &vec![],
    );
    assert_eq!(flatten(&notes)[5], ("DeleteError/Debug".to_string(), "<no debug logs>".to_string()));
}

#[test]
fn failed_collection_gives_no_lines() {
    let err = EngineError::new(Tag::K8sGetLogs, details(), "no logs".to_string(), None);
    let (lines, log) = debug_logs(Err(err), ServiceType::Router, "front", "z3");
    assert!(lines.is_empty());
    assert_eq!(log.unwrap(), "error while retrieving debug logs from Router front (z3)");
    let (lines, log) = debug_logs(Ok(vec!["a".to_string()]), ServiceType::Router, "front", "z3");
    assert_eq!(lines, vec!["a".to_string()]);
    assert!(log.is_none());
}

#[test]
fn only_public_databases_check_domains() {
    let domains = vec!["db.example.com".to_string()];
    assert_eq!(database_domains_to_check(true, domains.clone()), domains);
    assert!(database_domains_to_check(false, domains).is_empty());
}
