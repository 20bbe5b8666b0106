use deploy_engine::database::{
    check_instance_type_validity, check_storage_size, extract_volume_size, invalid_storage_report, to_short_id,
    workspace_directory, Container, Database, DatabaseError, DatabaseMode, DatabaseOptions, DatabaseParams,
    DatabaseType, InstanceType, Managed, StorageLookup, storage_lookup_failure, ModeKind, MongoDB, MySQL, PostgresSQL, Redis, StorageCheck,
};
use deploy_engine::errors::{EnvironmentStep, EventDetails, Tag};
use deploy_engine::pipeline::{ExecutionContext, Kind};
use deploy_engine::service::{self, Action, DatabaseService, Helm, Service, ServiceType, Terraform};

const LONG_ID: u128 = 0x67e5504410b1426f9247bb680e5fe0c8;

fn details() -> EventDetails {
    EventDetails {
        organization_id: "org".to_string(),
        cluster_id: "cluster".to_string(),
        environment_id: "env".to_string(),
        execution_id: "exec".to_string(),
        stage: EnvironmentStep::Deploy,
    }
}

fn context() -> ExecutionContext {
    ExecutionContext {
        execution_id: "x1".to_string(),
        workspace_root_dir: "/ws".to_string(),
        lib_root_dir: "/lib".to_string(),
        resource_expiration_in_seconds: None,
        is_dry_run_deploy: false,
    }
}

fn params(disk: u32, instance: Option<InstanceType>) -> DatabaseParams {
    DatabaseParams {
        long_id: LONG_ID,
        action: Action::Create,
        name: "orders".to_string(),
        kube_name: "orders-db".to_string(),
        version: "13".to_string(),
        created_at: 1_700_000_000,
        fqdn: "orders.example.com".to_string(),
        fqdn_id: "orders-fqdn".to_string(),
        total_cpus: "500m".to_string(),
        total_ram_in_mib: 512,
        total_disk_size_in_gb: disk,
        database_instance_type: instance,
        publicly_accessible: false,
        private_port: 5432,
        options: DatabaseOptions {
            login: "admin".to_string(),
            password: "pw".to_string(),
            host: "orders-host".to_string(),
            port: 5432,
            mode: ModeKind::Container,
            disk_size_in_gib: disk,
            database_disk_type: "gp2".to_string(),
            encrypt_disk: true,
            activate_high_availability: false,
            activate_backups: false,
            publicly_accessible: false,
        },
    }
}

fn container_db(disk: u32) -> Database {
    Database::new::<Container, PostgresSQL>(&context(), params(disk, None), Kind::Aws, "aws", true, details())
        .ok()
        .unwrap()
}

#[test]
fn instance_type_of_other_provider_is_refused() {
    let instance = InstanceType { cloud_provider: Kind::Scw, name: "db.t3.micro".to_string() };
    let r = Database::new::<Managed, PostgresSQL>(&context(), params(10, Some(instance)), Kind::Aws, "aws", true, details());
    match r {
        Err(DatabaseError::DatabaseInstanceTypeMismatchCloudProvider {
            database_instance_type_str,
            database_cloud_provider,
        }) => {
            assert_eq!(database_instance_type_str, "db.t3.micro");
            assert_eq!(database_cloud_provider, Kind::Aws);
        }
        _ => panic!("expected an instance type mismatch"),
    }
}

#[test]
fn instance_type_is_checked_before_the_workspace() {
    let instance = InstanceType { cloud_provider: Kind::Gcp, name: "small".to_string() };
    let r = Database::new::<Container, Redis>(&context(), params(10, Some(instance)), Kind::Scw, "scaleway", false, details());
    assert!(matches!(r, Err(DatabaseError::DatabaseInstanceTypeMismatchCloudProvider { .. })));
}

#[test]
fn missing_workspace_is_invalid_config() {
    let r = Database::new::<Container, MySQL>(&context(), params(10, None), Kind::Aws, "aws", false, details());
    assert!(matches!(r, Err(DatabaseError::InvalidConfig(_))));
}

#[test]
fn instance_type_of_same_provider_is_accepted() {
    let instance = InstanceType { cloud_provider: Kind::Aws, name: "db.t3.micro".to_string() };
    assert!(check_instance_type_validity(&instance, Kind::Aws).is_ok());
    assert!(check_instance_type_validity(&instance, Kind::Scw).is_err());
    let r = Database::new::<Managed, MongoDB>(&context(), params(10, Some(instance)), Kind::Aws, "aws", true, details());
    assert!(r.is_ok());
}

#[test]
fn identity_of_a_database() {
    let db = container_db(10);
    assert_eq!(to_short_id(LONG_ID), "z67e55044");
    assert_eq!(db.id(), "z67e55044");
    assert_eq!(db.long_id(), "67e55044-10b1-426f-9247-bb680e5fe0c8");
    assert_eq!(db.kube_label_selector(), "qovery.com/service-id=67e55044-10b1-426f-9247-bb680e5fe0c8");
    assert_eq!(db.workspace_directory(), "/ws/x1/databases/67e55044-10b1-426f-9247-bb680e5fe0c8");
    assert_eq!(db.service_type(), ServiceType::Database(service::DatabaseType::PostgreSQL));
    assert_eq!(db.private_port(), Some(5432));
    assert!(!db.is_managed_service());
    assert_eq!(db.db_type(), service::DatabaseType::PostgreSQL);
}

#[test]
fn chart_and_module_directories() {
    let db = container_db(10);
    assert_eq!(db.helm_release_name(), "postgresql-z67e55044");
    assert_eq!(db.helm_chart_dir(), "/lib/common/services/postgresql");
    assert_eq!(db.helm_chart_values_dir(), "/lib/aws/chart_values/postgresql");
    assert_eq!(db.helm_chart_external_name_service_dir(), "/lib/common/charts/external-name-svc");
    assert_eq!(db.terraform_common_resource_dir_path(), "/lib/aws/services/common");
    assert_eq!(db.terraform_resource_dir_path(), "/lib/aws/services/postgresql");
}

#[test]
fn managed_flag_follows_the_mode() {
    assert!(Managed::is_managed());
    assert!(!Managed::is_container());
    assert!(Container::is_container());
    let db = Database::new::<Managed, Redis>(&context(), params(10, None), Kind::Aws, "aws", true, details())
        .ok()
        .unwrap();
    assert!(db.is_managed_service());
    assert_eq!(db.fqdn("ns1", "fallback"), "z67e55044-dns.ns1.svc.cluster.local");
    let c = container_db(10);
    assert_eq!(c.fqdn("ns1", "fallback"), "orders-db.ns1.svc.cluster.local");
}

#[test]
fn engine_names() {
    assert_eq!(PostgresSQL::short_name(), "PostgreSQL");
    assert_eq!(MongoDB::lib_directory_name(), "mongodb");
    assert_eq!(Redis::db_type(), service::DatabaseType::Redis);
    assert_eq!(MySQL::cpu_validate("250m".to_string()), "250m");
    assert_eq!(MySQL::memory_validate(300), 300);
    assert_eq!(Redis::cpu_burst_value("1".to_string()), "1");
}

#[test]
fn workspace_path() {
    assert_eq!(workspace_directory("/root", "e1", "databases/a"), "/root/e1/databases/a");
}

#[test]
fn volume_sizes() {
    assert_eq!(extract_volume_size("10Gi").ok(), Some(10));
    assert_eq!(extract_volume_size("250").ok(), Some(250));
    assert_eq!(extract_volume_size("4294967295Gi").ok(), Some(u32::MAX));
    assert!(extract_volume_size("4294967296Gi").is_err());
    assert!(extract_volume_size("Gi").is_err());
    assert!(extract_volume_size("").is_err());
    assert!(extract_volume_size("10Mi").is_err());
    assert!(extract_volume_size("1x0").is_err());
}

#[test]
fn smaller_disk_request_is_an_invalid_payload() {
    let db = container_db(10);
    let r = check_storage_size(&db, Some(vec![Some("20Gi".to_string())]), details());
    let e = r.err().unwrap();
    assert_eq!(e.tag, Tag::InvalidEnginePayload);
    assert_eq!(e.user_log_message, "new storage size (10) should be equal or greater than actual size (20)");
}

#[test]
fn larger_disk_request_asks_for_the_claim() {
    let db = container_db(30);
    let r = check_storage_size(&db, Some(vec![Some("20Gi".to_string())]), details());
    match r.ok().unwrap() {
        StorageCheck::ResizeRequested { pvc_selector } => assert_eq!(pvc_selector, "app=orders-db"),
        StorageCheck::Unchanged => panic!("expected a resize"),
    }
    let report = invalid_storage_report(&db, "orders-sts".to_string(), Some("data-orders-0".to_string())).unwrap();
    assert_eq!(report.statefulset_name, "orders-sts");
    assert_eq!(report.statefulset_selector, "qovery.com/service-id=67e55044-10b1-426f-9247-bb680e5fe0c8");
    assert_eq!(report.service_id, LONG_ID);
    assert_eq!(report.invalid_pvcs.len(), 1);
    assert_eq!(report.invalid_pvcs[0].pvc_name, "data-orders-0");
    assert_eq!(report.invalid_pvcs[0].required_disk_size_in_gib, 30);
    assert!(invalid_storage_report(&db, "orders-sts".to_string(), None).is_none());
}

#[test]
fn equal_disk_request_changes_nothing() {
    let db = container_db(20);
    let r = check_storage_size(&db, Some(vec![Some("20Gi".to_string())]), details());
    assert!(matches!(r, Ok(StorageCheck::Unchanged)));
    let r = check_storage_size(&db, Some(vec![None]), details());
    assert!(matches!(r, Ok(StorageCheck::Unchanged)));
}

#[test]
fn storage_needs_exactly_one_readable_volume() {
    let db = container_db(20);
    assert_eq!(check_storage_size(&db, None, details()).err().unwrap().tag, Tag::K8sCannotBoundPVC);
    assert_eq!(check_storage_size(&db, Some(vec![]), details()).err().unwrap().tag, Tag::K8sCannotBoundPVC);
    let two = Some(vec![Some("1Gi".to_string()), Some("1Gi".to_string())]);
    assert_eq!(check_storage_size(&db, two, details()).err().unwrap().tag, Tag::K8sCannotBoundPVC);
    let bad = Some(vec![Some("lots".to_string())]);
    assert_eq!(check_storage_size(&db, bad, details()).err().unwrap().tag, Tag::CannotParseString);
}

#[test]
fn workspace_only_after_instance_check() {
    let bad = Some(InstanceType { cloud_provider: Kind::Scw, name: "x".to_string() });
    assert!(matches!(
        Database::prepare_workspace(&context(), LONG_ID, &bad, Kind::Aws),
        Err(DatabaseError::DatabaseInstanceTypeMismatchCloudProvider { .. })
    ));
    let path = Database::prepare_workspace(&context(), LONG_ID, &None, Kind::Aws).ok().unwrap();
    assert_eq!(path, "/ws/x1/databases/67e55044-10b1-426f-9247-bb680e5fe0c8");
}

#[test]
fn storage_lookup_failures() {
    let cause = deploy_engine::errors::CommandError::new("api down".to_string(), None);
    let e = storage_lookup_failure(StorageLookup::Claims, "app=db", details(), cause);
    assert_eq!(e.tag, Tag::K8sCannotGetPVCs);
    assert_eq!(e.user_log_message, "Cannot get the volume claims of `app=db`");
}

#[test]
fn uuid_text_matches_the_uuid_crate() {
    for v in [0u128, 1, LONG_ID, u128::MAX, 0x0123456789abcdef0123456789abcdef] {
        let expected = uuid::Uuid::from_u128(v).hyphenated().to_string();
        let mut p = params(10, None);
        p.long_id = v;
        let db = Database::new::<Container, PostgresSQL>(&context(), p, Kind::Aws, "aws", true, details()).ok().unwrap();
        assert_eq!(db.long_id(), expected);
        assert_eq!(to_short_id(v), format!("z{}", &expected[..8]));
    }
}
