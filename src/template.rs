//! Template contexts, held in a `tera::Context`, and what every service
//! puts in them.

use vstd::prelude::*;

use crate::pipeline::{Cluster, ClusterAdvancedSettings, Environment};
use crate::service::{database_type_name, DatabaseType, Service, ServiceView};
use crate::text::lowercase_of;

verus! {

#[verifier::external_type_specification]
#[verifier::external_body]
pub struct ExTeraContext(tera::Context);

/// A value put in a template context.
pub enum TemplateValue {
    Text(Seq<char>),
    Flag(bool),
    Number(int),
}

/// A value to put in a template context.
pub enum ContextValue {
    Text(String),
    Flag(bool),
    Number(i64),
}

pub open spec fn context_value_view(v: ContextValue) -> TemplateValue {
    match v {
        ContextValue::Text(s) => TemplateValue::Text(s@),
        ContextValue::Flag(b) => TemplateValue::Flag(b),
        ContextValue::Number(n) => TemplateValue::Number(n as int),
    }
}

/// What a template context holds, by key.
pub uninterp spec fn context_entries(c: tera::Context) -> Map<Seq<char>, TemplateValue>;

/// Relies on `tera::Context::new`: a context with no entry.
#[verifier::external_body]
pub(crate) fn new_context() -> (r: tera::Context)
    ensures
        context_entries(r) =~= Map::empty(),
{
    tera::Context::new()
}

/// Relies on `tera::Context::insert`: the key then holds the value, and only
/// that key changes (the context is a map from keys to values; turning a
/// text, a flag or an integer into a value does not fail).
#[verifier::external_body]
pub(crate) fn insert(c: &mut tera::Context, key: &str, value: ContextValue)
    ensures
        context_entries(*final(c)) == context_entries(*old(c)).insert(key@, context_value_view(value)),
{
    match value {
        ContextValue::Text(s) => c.insert(key, &s),
        ContextValue::Flag(b) => c.insert(key, &b),
        ContextValue::Number(n) => c.insert(key, &n),
    }
}

pub(crate) fn text(s: &str) -> (r: ContextValue)
    ensures
        context_value_view(r) == TemplateValue::Text(s@),
{
    ContextValue::Text(String::from_str(s))
}

pub open spec fn t(s: Seq<char>) -> TemplateValue {
    TemplateValue::Text(s)
}

/// The entries every service gives its templates.
pub open spec fn default_entries(service: ServiceView, kubernetes: Cluster, environment: Environment) -> Map<
    Seq<char>,
    TemplateValue,
> {
    let m = Map::<Seq<char>, TemplateValue>::empty()
        .insert("id"@, t(service.id))
        .insert("long_id"@, t(service.long_id))
        .insert("owner_id"@, t(environment.owner_id@))
        .insert("project_id"@, t(environment.project_id@))
        .insert("project_long_id"@, t(environment.project_long_id@))
        .insert("organization_id"@, t(environment.organization_id@))
        .insert("organization_long_id"@, t(environment.organization_long_id@))
        .insert("environment_id"@, t(environment.id@))
        .insert("environment_long_id"@, t(environment.long_id@))
        .insert("region"@, t(kubernetes.region@))
        .insert("zone"@, t(kubernetes.zone@))
        .insert("name"@, t(service.name))
        .insert("sanitized_name"@, t(service.sanitized_name))
        .insert("namespace"@, t(environment.namespace@))
        .insert("cluster_name"@, t(kubernetes.name@))
        .insert("total_cpus"@, t(service.total_cpus))
        .insert("total_ram_in_mib"@, TemplateValue::Number(service.total_ram_in_mib as int))
        .insert("min_instances"@, TemplateValue::Number(service.min_instances as int))
        .insert("max_instances"@, TemplateValue::Number(service.max_instances as int))
        .insert("is_private_port"@, TemplateValue::Flag(service.private_port is Some));
    let m = match service.private_port {
        Some(p) => m.insert("private_port"@, TemplateValue::Number(p as int)),
        None => m,
    };
    m.insert("version"@, t(service.version))
}

/// The template context of a service in an environment of a cluster.
pub fn default_tera_context<T: Service>(service: &T, kubernetes: &Cluster, environment: &Environment) -> (r:
    tera::Context)
    ensures
        context_entries(r) == default_entries(service.view_service(), *kubernetes, *environment),
{
    let mut c = new_context();
    insert(&mut c, "id", ContextValue::Text(service.id()));
    insert(&mut c, "long_id", ContextValue::Text(service.long_id()));
    insert(&mut c, "owner_id", text(environment.owner_id.as_str()));
    insert(&mut c, "project_id", text(environment.project_id.as_str()));
    insert(&mut c, "project_long_id", text(environment.project_long_id.as_str()));
    insert(&mut c, "organization_id", text(environment.organization_id.as_str()));
    insert(&mut c, "organization_long_id", text(environment.organization_long_id.as_str()));
    insert(&mut c, "environment_id", text(environment.id.as_str()));
    insert(&mut c, "environment_long_id", text(environment.long_id.as_str()));
    insert(&mut c, "region", text(kubernetes.region.as_str()));
    insert(&mut c, "zone", text(kubernetes.zone.as_str()));
    insert(&mut c, "name", ContextValue::Text(service.name()));
    insert(&mut c, "sanitized_name", ContextValue::Text(service.sanitized_name()));
    insert(&mut c, "namespace", text(environment.namespace.as_str()));
    insert(&mut c, "cluster_name", text(kubernetes.name.as_str()));
    insert(&mut c, "total_cpus", ContextValue::Text(service.total_cpus()));
    insert(&mut c, "total_ram_in_mib", ContextValue::Number(service.total_ram_in_mib() as i64));
    insert(&mut c, "min_instances", ContextValue::Number(service.min_instances() as i64));
    insert(&mut c, "max_instances", ContextValue::Number(service.max_instances() as i64));
    let private_port = service.private_port();
    insert(&mut c, "is_private_port", ContextValue::Flag(private_port.is_some()));
    if let Some(p) = private_port {
        insert(&mut c, "private_port", ContextValue::Number(p as i64));
    }
    insert(&mut c, "version", ContextValue::Text(service.version()));
    c
}

/// Whether the cluster refuses public access to an engine.
pub open spec fn denies_public_access(settings: ClusterAdvancedSettings, t: DatabaseType) -> bool {
    match t {
        DatabaseType::PostgreSQL => settings.database_postgresql_deny_public_access,
        DatabaseType::MongoDB => settings.database_mongodb_deny_public_access,
        DatabaseType::MySQL => settings.database_mysql_deny_public_access,
        DatabaseType::Redis => settings.database_redis_deny_public_access,
    }
}

pub(crate) fn cluster_denies_public_access(settings: &ClusterAdvancedSettings, t: DatabaseType) -> (r: bool)
    ensures
        r == denies_public_access(*settings, t),
{
    match t {
        DatabaseType::PostgreSQL => settings.database_postgresql_deny_public_access,
        DatabaseType::MongoDB => settings.database_mongodb_deny_public_access,
        DatabaseType::MySQL => settings.database_mysql_deny_public_access,
        DatabaseType::Redis => settings.database_redis_deny_public_access,
    }
}

/// The context with each pair inserted as a text, in order.
pub open spec fn insert_pairs(m: Map<Seq<char>, TemplateValue>, pairs: Seq<(Seq<char>, Seq<char>)>) -> Map<
    Seq<char>,
    TemplateValue,
>
    decreases pairs.len(),
{
    if pairs.len() == 0 {
        m
    } else {
        insert_pairs(m, pairs.drop_last()).insert(pairs.last().0, t(pairs.last().1))
    }
}

pub open spec fn pairs_view(v: Seq<(String, String)>) -> Seq<(Seq<char>, Seq<char>)> {
    v.map_values(|p: (String, String)| (p.0@, p.1@))
}

pub open spec fn repository_name(db_type: DatabaseType) -> Seq<char> {
    "r3m4q3r9/pub-mirror-"@ + lowercase_of(database_type_name(db_type))
}

} // verus!
