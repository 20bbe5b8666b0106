use deploy_engine::database::{Container, Database, DatabaseOptions, DatabaseParams, InstanceType, ModeKind, Redis};
use deploy_engine::errors::{CommandError, EnvironmentStep, EventDetails};
use deploy_engine::pipeline::{Cluster, ClusterAdvancedSettings, CloudProviderInfo, Environment, ExecutionContext, Kind};
use deploy_engine::service::{Action, DeploymentTarget};
use deploy_engine::template::default_tera_context;
use serde_json::Value;

fn details() -> EventDetails {
    EventDetails {
        organization_id: "org".to_string(),
        cluster_id: "cluster".to_string(),
        environment_id: "env".to_string(),
        execution_id: "exec".to_string(),
        stage: EnvironmentStep::Deploy,
    }
}

fn target(deny_redis: bool) -> DeploymentTarget {
    DeploymentTarget {
        kubernetes: Cluster {
            id: "c1".to_string(),
            name: "cluster-one".to_string(),
            region: "eu-west-3".to_string(),
            zone: "a".to_string(),
            kubeconfig_path: "/tmp/kubeconfig".to_string(),
            advanced_settings: ClusterAdvancedSettings {
                database_postgresql_deny_public_access: false,
                database_mongodb_deny_public_access: false,
                database_mysql_deny_public_access: false,
                database_redis_deny_public_access: deny_redis,
                pleco_resources_ttl: 3600,
            },
        },
        environment: Environment {
            id: "e1".to_string(),
            long_id: "e1-long".to_string(),
            project_id: "proj-a".to_string(),
            project_long_id: "proj-a-long".to_string(),
            organization_id: "o1".to_string(),
            organization_long_id: "o1-long".to_string(),
            owner_id: "u1".to_string(),
            namespace: "ns1".to_string(),
        },
        cloud_provider: CloudProviderInfo {
            kind: Kind::Aws,
            lib_directory_name: "aws".to_string(),
            tera_context_environment_variables: vec![
                ("aws_region".to_string(), "eu-west-3".to_string()),
                ("namespace".to_string(), "overridden".to_string()),
            ],
        },
    }
}

fn redis(publicly_accessible: bool) -> Database {
    let context = ExecutionContext {
        execution_id: "x1".to_string(),
        workspace_root_dir: "/ws".to_string(),
        lib_root_dir: "/lib".to_string(),
        resource_expiration_in_seconds: None,
        is_dry_run_deploy: false,
    };
    let params = DatabaseParams {
        long_id: 1,
        action: Action::Create,
        name: "cache".to_string(),
        kube_name: "cache-kube".to_string(),
        version: "6".to_string(),
        created_at: 0,
        fqdn: "cache.example.com".to_string(),
        fqdn_id: "cache-fqdn".to_string(),
        total_cpus: "250m".to_string(),
        total_ram_in_mib: 256,
        total_disk_size_in_gb: 5,
        database_instance_type: Some(InstanceType { cloud_provider: Kind::Aws, name: "cache.t3.micro".to_string() }),
        publicly_accessible,
        private_port: 6379,
        options: DatabaseOptions {
            login: "default".to_string(),
            password: "secret".to_string(),
            host: "cache-host".to_string(),
            port: 6379,
            mode: ModeKind::Container,
            disk_size_in_gib: 5,
            database_disk_type: "gp2".to_string(),
            encrypt_disk: false,
            activate_high_availability: false,
            activate_backups: false,
            publicly_accessible,
        },
    };
    Database::new::<Container, Redis>(&context, params, Kind::Aws, "aws", true, details()).ok().unwrap()
}

fn text(v: Option<&Value>) -> String {
    v.and_then(|x| x.as_str()).unwrap().to_string()
}

#[test]
fn default_context_entries() {
    let t = target(false);
    let db = redis(false);
    let c = default_tera_context(&db, &t.kubernetes, &t.environment);
    assert_eq!(text(c.get("id")), "z00000000");
    assert_eq!(text(c.get("long_id")), "00000000-0000-0000-0000-000000000001");
    assert_eq!(text(c.get("namespace")), "ns1");
    assert_eq!(text(c.get("cluster_name")), "cluster-one");
    assert_eq!(text(c.get("sanitized_name")), "cache-kube");
    assert_eq!(c.get("total_ram_in_mib").and_then(|v| v.as_i64()), Some(256));
    assert_eq!(c.get("is_private_port").and_then(|v| v.as_bool()), Some(true));
    assert_eq!(c.get("private_port").and_then(|v| v.as_i64()), Some(6379));
    assert_eq!(text(c.get("version")), "6");
}

#[test]
fn container_context_entries() {
    let t = target(false);
    let db = redis(true);
    let c = db.to_tera_context_for_container(&t, Ok("6.2".to_string())).1.ok().unwrap();
    assert_eq!(text(c.get("repository_name")), "r3m4q3r9/pub-mirror-redis");
    assert_eq!(text(c.get("repository_with_registry")), "public.ecr.aws/r3m4q3r9/pub-mirror-redis");
    assert_eq!(text(c.get("version")), "6.2");
    assert_eq!(text(c.get("aws_region")), "eu-west-3");
    // provider variables come after the namespace and may override it
    assert_eq!(text(c.get("namespace")), "overridden");
    assert_eq!(text(c.get("fqdn")), "cache.example.com");
    assert_eq!(text(c.get("database_instance_type")), "cache.t3.micro");
    assert_eq!(text(c.get("database_password")), "secret");
    assert_eq!(text(c.get("database_total_cpus_burst")), "250m");
    assert_eq!(c.get("publicly_accessible").and_then(|v| v.as_bool()), Some(true));
    assert_eq!(c.get("resource_expiration_in_seconds").and_then(|v| v.as_i64()), Some(3600));
}

#[test]
fn cluster_policy_denies_public_access() {
    let c = redis(true).to_tera_context_for_container(&target(true), Ok("6".to_string())).1.ok().unwrap();
    assert_eq!(c.get("publicly_accessible").and_then(|v| v.as_bool()), Some(false));
    let c = redis(false).to_tera_context_for_container(&target(false), Ok("6".to_string())).1.ok().unwrap();
    assert_eq!(c.get("publicly_accessible").and_then(|v| v.as_bool()), Some(false));
    assert_eq!(text(c.get("fqdn")), "cache-kube.ns1.svc.cluster.local");
}

#[test]
fn refused_version_gives_no_context() {
    let (notes, r) =
        redis(false).to_tera_context_for_container(&target(false), Err(CommandError::new("no".to_string(), None)));
    assert!(r.is_err());
    assert_eq!(notes.len(), 2);
    let (notes, v) = redis(false).get_version(Ok("6.0.9".to_string()), details());
    assert_eq!(notes.len(), 2);
    let v = v.ok().unwrap();
    assert_eq!(v.matched_version(), "6.0.9");
    assert_eq!(v.requested_version(), "6");
}

#[test]
fn context_by_mode() {
    let t = target(false);
    let (notes, c) = redis(false).tera_context(&t, Ok("6".to_string()));
    assert!(notes.is_empty());
    assert_eq!(text(c.ok().unwrap().get("repository_name")), "r3m4q3r9/pub-mirror-redis");
}
