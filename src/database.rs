//! The database model: a database of one engine, managed by the vendor or
//! run in the cluster, its construction checks, its charts and modules, its
//! template context and the check of its disk size.

use vstd::prelude::*;

use crate::errors::{CommandError, EngineError, EventDetails, Tag};
use crate::pipeline::{path_join, quote, quoted, ExecutionContext, Kind};
use crate::service::{
    self, fqdn_of, Action, DatabaseService, Helm, HelmView, Service, ServiceType, ServiceView, Terraform,
    TerraformView,
};
use crate::service::{
    check_service_version, database_type_name, notifications_view, version_check_notifications, DeploymentTarget,
    Notification, ServiceVersionCheckResult,
};
use crate::template::{
    cluster_denies_public_access, context_entries, default_entries, default_tera_context, denies_public_access,
    insert, insert_pairs, pairs_view, repository_name, t, text, ContextValue, TemplateValue,
};
use crate::text::{decimal, to_lowercase};

verus! {

/// A compute/storage offer of a cloud provider on which a database can run.
pub trait DatabaseInstanceType {
    spec fn spec_cloud_provider(&self) -> Kind;

    spec fn spec_cloud_provider_format(&self) -> Seq<char>;

    fn cloud_provider(&self) -> (r: Kind)
        ensures
            r == self.spec_cloud_provider(),
    ;

    fn to_cloud_provider_format(&self) -> (r: String)
        ensures
            r@ == self.spec_cloud_provider_format(),
    ;
}

/// An instance type, by its provider and the name that provider gives it.
pub struct InstanceType {
    pub cloud_provider: Kind,
    pub name: String,
}

impl DatabaseInstanceType for InstanceType {
    open spec fn spec_cloud_provider(&self) -> Kind {
        self.cloud_provider
    }

    open spec fn spec_cloud_provider_format(&self) -> Seq<char> {
        self.name@
    }

    fn cloud_provider(&self) -> (r: Kind) {
        self.cloud_provider
    }

    fn to_cloud_provider_format(&self) -> (r: String) {
        self.name.clone()
    }
}

/// The vendor runs the engine; the cluster holds a routing shim.
pub struct Managed {}

/// The engine runs in the cluster with its own volume.
pub struct Container {}

pub trait DatabaseMode {
    spec fn spec_is_managed() -> bool;

    fn is_managed() -> (r: bool)
        ensures
            r == Self::spec_is_managed(),
    ;

    fn is_container() -> (r: bool)
        ensures
            r == !Self::spec_is_managed(),
    {
        !Self::is_managed()
    }
}

impl DatabaseMode for Managed {
    open spec fn spec_is_managed() -> bool {
        true
    }

    fn is_managed() -> (r: bool) {
        true
    }
}

impl DatabaseMode for Container {
    open spec fn spec_is_managed() -> bool {
        false
    }

    fn is_managed() -> (r: bool) {
        false
    }
}

pub struct PostgresSQL {}

pub struct MySQL {}

pub struct MongoDB {}

pub struct Redis {}

/// The directory that holds an engine's charts and modules.
pub open spec fn engine_directory(t: service::DatabaseType) -> Seq<char> {
    match t {
        service::DatabaseType::PostgreSQL => "postgresql"@,
        service::DatabaseType::MongoDB => "mongodb"@,
        service::DatabaseType::MySQL => "mysql"@,
        service::DatabaseType::Redis => "redis"@,
    }
}

pub fn engine_directory_name(t: service::DatabaseType) -> (r: &'static str)
    ensures
        r@ == engine_directory(t),
{
    match t {
        service::DatabaseType::PostgreSQL => "postgresql",
        service::DatabaseType::MongoDB => "mongodb",
        service::DatabaseType::MySQL => "mysql",
        service::DatabaseType::Redis => "redis",
    }
}

/// What an engine is: its names and its sizing hooks, which keep the
/// requested sizing as it is.
pub trait DatabaseType {
    spec fn spec_db_type() -> service::DatabaseType;

    fn db_type() -> (r: service::DatabaseType)
        ensures
            r == Self::spec_db_type(),
    ;

    fn short_name() -> (r: String)
        ensures
            r@ == service::database_type_name(Self::spec_db_type()),
    {
        Self::db_type().to_string()
    }

    fn lib_directory_name() -> (r: &'static str)
        ensures
            r@ == engine_directory(Self::spec_db_type()),
    {
        engine_directory_name(Self::db_type())
    }

    /// The CPU request an engine runs with for a requested one.
    spec fn spec_cpu_validate(desired_cpu: Seq<char>) -> Seq<char>;

    /// The CPU burst an engine allows for a CPU request.
    spec fn spec_cpu_burst_value(desired_cpu: Seq<char>) -> Seq<char>;

    /// The memory, in MiB, an engine runs with for a requested amount.
    spec fn spec_memory_validate(desired_memory: u32) -> u32;

    fn cpu_validate(desired_cpu: String) -> (r: String)
        ensures
            r@ == Self::spec_cpu_validate(desired_cpu@),
    ;

    fn cpu_burst_value(desired_cpu: String) -> (r: String)
        ensures
            r@ == Self::spec_cpu_burst_value(desired_cpu@),
    ;

    fn memory_validate(desired_memory: u32) -> (r: u32)
        ensures
            r == Self::spec_memory_validate(desired_memory),
    ;
}

impl DatabaseType for PostgresSQL {
    open spec fn spec_db_type() -> service::DatabaseType {
        service::DatabaseType::PostgreSQL
    }

    fn db_type() -> (r: service::DatabaseType) {
        service::DatabaseType::PostgreSQL
    }

    open spec fn spec_cpu_validate(desired_cpu: Seq<char>) -> Seq<char> {
        desired_cpu
    }

    open spec fn spec_cpu_burst_value(desired_cpu: Seq<char>) -> Seq<char> {
        desired_cpu
    }

    open spec fn spec_memory_validate(desired_memory: u32) -> u32 {
        desired_memory
    }

    fn cpu_validate(desired_cpu: String) -> (r: String) {
        desired_cpu
    }

    fn cpu_burst_value(desired_cpu: String) -> (r: String) {
        desired_cpu
    }

    fn memory_validate(desired_memory: u32) -> (r: u32) {
        desired_memory
    }
}

impl DatabaseType for MySQL {
    open spec fn spec_db_type() -> service::DatabaseType {
        service::DatabaseType::MySQL
    }

    fn db_type() -> (r: service::DatabaseType) {
        service::DatabaseType::MySQL
    }

    open spec fn spec_cpu_validate(desired_cpu: Seq<char>) -> Seq<char> {
        desired_cpu
    }

    open spec fn spec_cpu_burst_value(desired_cpu: Seq<char>) -> Seq<char> {
        desired_cpu
    }

    open spec fn spec_memory_validate(desired_memory: u32) -> u32 {
        desired_memory
    }

    fn cpu_validate(desired_cpu: String) -> (r: String) {
        desired_cpu
    }

    fn cpu_burst_value(desired_cpu: String) -> (r: String) {
        desired_cpu
    }

    fn memory_validate(desired_memory: u32) -> (r: u32) {
        desired_memory
    }
}

impl DatabaseType for MongoDB {
    open spec fn spec_db_type() -> service::DatabaseType {
        service::DatabaseType::MongoDB
    }

    fn db_type() -> (r: service::DatabaseType) {
        service::DatabaseType::MongoDB
    }

    open spec fn spec_cpu_validate(desired_cpu: Seq<char>) -> Seq<char> {
        desired_cpu
    }

    open spec fn spec_cpu_burst_value(desired_cpu: Seq<char>) -> Seq<char> {
        desired_cpu
    }

    open spec fn spec_memory_validate(desired_memory: u32) -> u32 {
        desired_memory
    }

    fn cpu_validate(desired_cpu: String) -> (r: String) {
        desired_cpu
    }

    fn cpu_burst_value(desired_cpu: String) -> (r: String) {
        desired_cpu
    }

    fn memory_validate(desired_memory: u32) -> (r: u32) {
        desired_memory
    }
}

impl DatabaseType for Redis {
    open spec fn spec_db_type() -> service::DatabaseType {
        service::DatabaseType::Redis
    }

    fn db_type() -> (r: service::DatabaseType) {
        service::DatabaseType::Redis
    }

    open spec fn spec_cpu_validate(desired_cpu: Seq<char>) -> Seq<char> {
        desired_cpu
    }

    open spec fn spec_cpu_burst_value(desired_cpu: Seq<char>) -> Seq<char> {
        desired_cpu
    }

    open spec fn spec_memory_validate(desired_memory: u32) -> u32 {
        desired_memory
    }

    fn cpu_validate(desired_cpu: String) -> (r: String) {
        desired_cpu
    }

    fn cpu_burst_value(desired_cpu: String) -> (r: String) {
        desired_cpu
    }

    fn memory_validate(desired_memory: u32) -> (r: u32) {
        desired_memory
    }
}

/// The CPU burst of an engine, by its kind.
pub open spec fn engine_cpu_burst(t: service::DatabaseType, cpu: Seq<char>) -> Seq<char> {
    match t {
        service::DatabaseType::PostgreSQL => <PostgresSQL as DatabaseType>::spec_cpu_burst_value(cpu),
        service::DatabaseType::MySQL => <MySQL as DatabaseType>::spec_cpu_burst_value(cpu),
        service::DatabaseType::MongoDB => <MongoDB as DatabaseType>::spec_cpu_burst_value(cpu),
        service::DatabaseType::Redis => <Redis as DatabaseType>::spec_cpu_burst_value(cpu),
    }
}

pub fn engine_cpu_burst_value(t: service::DatabaseType, cpu: String) -> (r: String)
    ensures
        r@ == engine_cpu_burst(t, cpu@),
{
    match t {
        service::DatabaseType::PostgreSQL => PostgresSQL::cpu_burst_value(cpu),
        service::DatabaseType::MySQL => MySQL::cpu_burst_value(cpu),
        service::DatabaseType::MongoDB => MongoDB::cpu_burst_value(cpu),
        service::DatabaseType::Redis => Redis::cpu_burst_value(cpu),
    }
}

/// Why a database could not be built.
pub enum DatabaseError {
    InvalidConfig(String),
    UnsupportedManagedMode(service::DatabaseType, String),
    DatabaseNotFound { database_type: service::DatabaseType, database_id: String },
    UnknownDatabaseVersion { database_type: service::DatabaseType, database_version: String },
    UnsupportedDatabaseVersion { database_type: service::DatabaseType, database_version: String },
    InvalidDatabaseInstance { requested_database_instance_type: String, database_cloud_provider: Kind },
    DatabaseInstanceTypeMismatchCloudProvider { database_instance_type_str: String, database_cloud_provider: Kind },
    DatabaseInstanceTypeMismatchDatabaseType {
        database_instance_type_str: String,
        database_type: service::DatabaseType,
    },
    UnknownError(String),
}

/// The mode of a database, as a value.
#[derive(Clone, Copy, Debug, PartialEq, Eq, Structural)]
pub enum ModeKind {
    Managed,
    Container,
}

/// Engine-specific settings of a database.
pub struct DatabaseOptions {
    pub login: String,
    pub password: String,
    pub host: String,
    pub port: u16,
    pub mode: ModeKind,
    pub disk_size_in_gib: u32,
    pub database_disk_type: String,
    pub encrypt_disk: bool,
    pub activate_high_availability: bool,
    pub activate_backups: bool,
    pub publicly_accessible: bool,
}

/// An instance type fits a database only on the database's own provider.
pub fn check_instance_type_validity<I: DatabaseInstanceType>(
    database_instance_type: &I,
    database_cloud_provider_kind: Kind,
) -> (r: Result<(), DatabaseError>)
    ensures
        r is Ok <==> database_instance_type.spec_cloud_provider() == database_cloud_provider_kind,
        r matches Err(e) ==> e matches DatabaseError::DatabaseInstanceTypeMismatchCloudProvider {
            database_instance_type_str,
            database_cloud_provider,
        } && database_instance_type_str@ == database_instance_type.spec_cloud_provider_format()
            && database_cloud_provider == database_cloud_provider_kind,
{
    if database_instance_type.cloud_provider() != database_cloud_provider_kind {
        return Err(
            DatabaseError::DatabaseInstanceTypeMismatchCloudProvider {
                database_cloud_provider: database_cloud_provider_kind,
                database_instance_type_str: database_instance_type.to_cloud_provider_format(),
            },
        );
    }
    Ok(())
}

/// No instance type, or one of the given provider.
pub open spec fn instance_fits(instance: Option<InstanceType>, cloud_provider: Kind) -> bool {
    match instance {
        Some(i) => i.cloud_provider == cloud_provider,
        None => true,
    }
}

/// The error that names an instance type of another provider.
pub open spec fn is_mismatch_error(e: DatabaseError, instance: Option<InstanceType>, cloud_provider: Kind) -> bool {
    match e {
        DatabaseError::DatabaseInstanceTypeMismatchCloudProvider {
            database_instance_type_str,
            database_cloud_provider,
        } => (instance matches Some(i) && database_instance_type_str@ == i.name@ && database_cloud_provider
            == cloud_provider),
        _ => false,
    }
}

/// The scratch directory of one service in one execution.
pub open spec fn workspace_path(root: Seq<char>, execution_id: Seq<char>, subpath: Seq<char>) -> Seq<char> {
    path_join(path_join(root, execution_id), subpath)
}

pub fn workspace_directory(root: &str, execution_id: &str, subpath: &str) -> (r: String)
    ensures
        r@ == workspace_path(root@, execution_id@, subpath@),
{
    String::from_str(root).concat("/").concat(execution_id).concat("/").concat(subpath)
}

/// The lowercase hexadecimal digit for `d < 16`.
pub open spec fn hex_char(d: nat) -> char {
    if d == 0 { '0' }
    else if d == 1 { '1' }
    else if d == 2 { '2' }
    else if d == 3 { '3' }
    else if d == 4 { '4' }
    else if d == 5 { '5' }
    else if d == 6 { '6' }
    else if d == 7 { '7' }
    else if d == 8 { '8' }
    else if d == 9 { '9' }
    else if d == 10 { 'a' }
    else if d == 11 { 'b' }
    else if d == 12 { 'c' }
    else if d == 13 { 'd' }
    else if d == 14 { 'e' }
    else { 'f' }
}

/// The `n` lowest hexadecimal digits of `v`, most significant first.
pub open spec fn hex_digits(v: nat, n: nat) -> Seq<char>
    decreases n,
{
    if n == 0 {
        Seq::empty()
    } else {
        hex_digits(v / 16, (n - 1) as nat).push(hex_char(v % 16))
    }
}

/// The hyphenated lowercase text of a UUID: the 32 hexadecimal digits of
/// its value, most significant first, grouped 8-4-4-4-12.
pub open spec fn uuid_hyphenated(v: u128) -> Seq<char> {
    let h = hex_digits(v as nat, 32);
    h.subrange(0, 8) + "-"@ + h.subrange(8, 12) + "-"@ + h.subrange(12, 16) + "-"@ + h.subrange(16, 20) + "-"@
        + h.subrange(20, 32)
}

proof fn lemma_hex_digits_len(v: nat, n: nat)
    ensures
        hex_digits(v, n).len() == n,
    decreases n,
{
    if n > 0 {
        lemma_hex_digits_len(v / 16, (n - 1) as nat);
    }
}

fn hex_digit_text(d: u128) -> (r: &'static str)
    requires
        d < 16,
    ensures
        r@ == seq![hex_char(d as nat)],
{
    proof {
        reveal_strlit("0");
        reveal_strlit("1");
        reveal_strlit("2");
        reveal_strlit("3");
        reveal_strlit("4");
        reveal_strlit("5");
        reveal_strlit("6");
        reveal_strlit("7");
        reveal_strlit("8");
        reveal_strlit("9");
        reveal_strlit("a");
        reveal_strlit("b");
        reveal_strlit("c");
        reveal_strlit("d");
        reveal_strlit("e");
        reveal_strlit("f");
    }
    if d == 0 { "0" }
    else if d == 1 { "1" }
    else if d == 2 { "2" }
    else if d == 3 { "3" }
    else if d == 4 { "4" }
    else if d == 5 { "5" }
    else if d == 6 { "6" }
    else if d == 7 { "7" }
    else if d == 8 { "8" }
    else if d == 9 { "9" }
    else if d == 10 { "a" }
    else if d == 11 { "b" }
    else if d == 12 { "c" }
    else if d == 13 { "d" }
    else if d == 14 { "e" }
    else { "f" }
}

fn hex_text(v: u128, n: u64) -> (r: String)
    ensures
        r@ == hex_digits(v as nat, n as nat),
    decreases n,
{
    if n == 0 {
        String::new()
    } else {
        hex_text(v / 16, n - 1).concat(hex_digit_text(v % 16))
    }
}

/// The hyphenated lowercase text of a UUID value, as `uuid::Uuid` writes it.
fn uuid_text(v: u128) -> (r: String)
    ensures
        r@ == uuid_hyphenated(v),
        r@.len() == 36,
{
    let h = hex_text(v, 32);
    proof {
        lemma_hex_digits_len(v as nat, 32);
    }
    let h = h.as_str();
    let r = String::from_str(h.substring_char(0, 8)).concat("-").concat(h.substring_char(8, 12)).concat("-").concat(
        h.substring_char(12, 16),
    ).concat("-").concat(h.substring_char(16, 20)).concat("-").concat(h.substring_char(20, 32));
    proof {
        reveal_strlit("-");
    }
    r
}

/// The short identifier of a service: `z` and the first eight characters of
/// its UUID.
pub open spec fn short_id(long_id: u128) -> Seq<char> {
    "z"@ + uuid_hyphenated(long_id).subrange(0, 8)
}

pub fn to_short_id(long_id: u128) -> (r: String)
    ensures
        r@ == short_id(long_id),
{
    let text = uuid_text(long_id);
    String::from_str("z").concat(text.as_str().substring_char(0, 8))
}

/// A database of one engine on one cloud provider, managed or containerized.
pub struct Database {
    pub(crate) id: String,
    pub(crate) long_id: u128,
    pub(crate) long_id_text: String,
    pub(crate) action: Action,
    pub(crate) name: String,
    pub(crate) kube_name: String,
    pub(crate) version: String,
    pub(crate) created_at: i64,
    pub(crate) fqdn: String,
    pub(crate) fqdn_id: String,
    pub(crate) total_cpus: String,
    pub(crate) total_ram_in_mib: u32,
    pub(crate) total_disk_size_in_gb: u32,
    pub(crate) database_instance_type: Option<InstanceType>,
    pub(crate) publicly_accessible: bool,
    pub(crate) private_port: u16,
    pub(crate) options: DatabaseOptions,
    pub(crate) workspace_directory: String,
    pub(crate) lib_root_directory: String,
    pub(crate) cloud_provider: Kind,
    pub(crate) cloud_provider_lib_directory: String,
    pub(crate) is_managed: bool,
    pub(crate) db_type: service::DatabaseType,
    pub(crate) event_details: EventDetails,
}

/// The parameters a database is built from.
pub struct DatabaseParams {
    pub long_id: u128,
    pub action: Action,
    pub name: String,
    pub kube_name: String,
    pub version: String,
    pub created_at: i64,
    pub fqdn: String,
    pub fqdn_id: String,
    pub total_cpus: String,
    pub total_ram_in_mib: u32,
    pub total_disk_size_in_gb: u32,
    pub database_instance_type: Option<InstanceType>,
    pub publicly_accessible: bool,
    pub private_port: u16,
    pub options: DatabaseOptions,
}

pub open spec fn database_subpath(long_id: u128) -> Seq<char> {
    "databases/"@ + uuid_hyphenated(long_id)
}

impl Database {
    pub closed spec fn spec_long_id(&self) -> u128 {
        self.long_id
    }

    pub closed spec fn spec_is_managed_field(&self) -> bool {
        self.is_managed
    }

    pub closed spec fn spec_db_type_field(&self) -> service::DatabaseType {
        self.db_type
    }

    pub closed spec fn spec_cloud_provider(&self) -> Kind {
        self.cloud_provider
    }

    pub closed spec fn spec_total_disk_size_in_gb(&self) -> u32 {
        self.total_disk_size_in_gb
    }

    pub closed spec fn spec_created_at(&self) -> i64 {
        self.created_at
    }

    pub closed spec fn spec_kube_name(&self) -> Seq<char> {
        self.kube_name@
    }

    pub closed spec fn spec_workspace_directory(&self) -> Seq<char> {
        self.workspace_directory@
    }

    pub closed spec fn spec_lib_root_directory(&self) -> Seq<char> {
        self.lib_root_directory@
    }

    pub closed spec fn spec_cloud_provider_lib_directory(&self) -> Seq<char> {
        self.cloud_provider_lib_directory@
    }

    pub closed spec fn spec_fqdn(&self) -> Seq<char> {
        self.fqdn@
    }

    pub closed spec fn spec_fqdn_id(&self) -> Seq<char> {
        self.fqdn_id@
    }

    pub closed spec fn spec_event_details(&self) -> EventDetails {
        self.event_details
    }

    pub closed spec fn spec_instance_type(&self) -> Option<InstanceType> {
        self.database_instance_type
    }

    pub closed spec fn spec_options(&self) -> DatabaseOptions {
        self.options
    }

    /// The workspace of a database with this identifier in this execution.
    pub open spec fn workspace_for(context: ExecutionContext, long_id: u128) -> Seq<char> {
        workspace_path(context.workspace_root_dir@, context.execution_id@, database_subpath(long_id))
    }

    /// Where the workspace of a database will be; the caller creates it once
    /// the instance type has been checked.
    pub fn workspace_directory_for(context: &ExecutionContext, long_id: u128) -> (r: String)
        ensures
            r@ == Self::workspace_for(*context, long_id),
    {
        let subpath = String::from_str("databases/").concat(uuid_text(long_id).as_str());
        workspace_directory(context.workspace_root_dir.as_str(), context.execution_id.as_str(), subpath.as_str())
    }

    /// The first step of building a database: the instance type is checked,
    /// and only when it fits is the workspace to create handed back. Nothing
    /// is to be written before this returns.
    pub fn prepare_workspace(
        context: &ExecutionContext,
        long_id: u128,
        database_instance_type: &Option<InstanceType>,
        cloud_provider: Kind,
    ) -> (r: Result<String, DatabaseError>)
        ensures
            !instance_fits(*database_instance_type, cloud_provider) ==> (r matches Err(e) && is_mismatch_error(
                e,
                *database_instance_type,
                cloud_provider,
            )),
            instance_fits(*database_instance_type, cloud_provider) ==> (r matches Ok(path) && path@
                == Self::workspace_for(*context, long_id)),
    {
        if let Some(i) = database_instance_type {
            check_instance_type_validity(i, cloud_provider)?;
        }
        Ok(Self::workspace_directory_for(context, long_id))
    }

    /// Builds a database of mode `M` and engine `E` on a cloud provider. The
    /// instance type is checked first: one of another provider is refused
    /// whatever else holds. Then a workspace that could not be created makes
    /// the configuration invalid.
    pub fn new<M: DatabaseMode, E: DatabaseType>(
        context: &ExecutionContext,
        params: DatabaseParams,
        cloud_provider: Kind,
        cloud_provider_lib_directory: &str,
        workspace_created: bool,
        event_details: EventDetails,
    ) -> (r: Result<Self, DatabaseError>)
        ensures
            !instance_fits(params.database_instance_type, cloud_provider) ==> (r matches Err(e) && is_mismatch_error(
                e,
                params.database_instance_type,
                cloud_provider,
            )),
            instance_fits(params.database_instance_type, cloud_provider) && !workspace_created ==> (r matches Err(
                DatabaseError::InvalidConfig(m),
            ) && m@ == "Can't create workspace directory"@),
            r is Ok <==> instance_fits(params.database_instance_type, cloud_provider) && workspace_created,
            r matches Ok(db) ==> {
                &&& db.spec_is_managed_field() == M::spec_is_managed()
                &&& db.spec_db_type_field() == E::spec_db_type()
                &&& db.spec_cloud_provider() == cloud_provider
                &&& db.spec_long_id() == params.long_id
                &&& db.view_service().id == short_id(params.long_id)
                &&& db.view_service().long_id == uuid_hyphenated(params.long_id)
                &&& db.view_service().selector == Some(db.label_selector())
                &&& db.view_service().name == params.name@
                &&& db.view_service().sanitized_name == params.kube_name@
                &&& db.view_service().version == params.version@
                &&& db.view_service().action == params.action
                &&& db.view_service().publicly_accessible == params.publicly_accessible
                &&& db.view_service().private_port == Some(params.private_port)
                &&& db.view_service().total_cpus == E::spec_cpu_validate(params.total_cpus@)
                &&& db.view_service().total_ram_in_mib == E::spec_memory_validate(params.total_ram_in_mib)
                &&& db.spec_total_disk_size_in_gb() == params.total_disk_size_in_gb
                &&& db.spec_kube_name() == params.kube_name@
                &&& db.spec_fqdn() == params.fqdn@
                &&& db.spec_created_at() == params.created_at
                &&& db.spec_fqdn_id() == params.fqdn_id@
                &&& db.spec_workspace_directory() == Self::workspace_for(*context, params.long_id)
                &&& db.spec_lib_root_directory() == context.lib_root_dir@
                &&& db.spec_cloud_provider_lib_directory() == cloud_provider_lib_directory@
                &&& db.spec_event_details() == event_details
                &&& db.spec_instance_type() == params.database_instance_type
                &&& db.spec_options() == params.options
            },
    {
        if let Some(i) = &params.database_instance_type {
            check_instance_type_validity(i, cloud_provider)?;
        }
        if !workspace_created {
            return Err(DatabaseError::InvalidConfig(String::from_str("Can't create workspace directory")));
        }
        let workspace_directory = Self::workspace_directory_for(context, params.long_id);
        Ok(
            Database {
                id: to_short_id(params.long_id),
                long_id: params.long_id,
                long_id_text: uuid_text(params.long_id),
                action: params.action,
                name: params.name,
                kube_name: params.kube_name,
                version: params.version,
                created_at: params.created_at,
                fqdn: params.fqdn,
                fqdn_id: params.fqdn_id,
                total_cpus: E::cpu_validate(params.total_cpus),
                total_ram_in_mib: E::memory_validate(params.total_ram_in_mib),
                total_disk_size_in_gb: params.total_disk_size_in_gb,
                database_instance_type: params.database_instance_type,
                publicly_accessible: params.publicly_accessible,
                private_port: params.private_port,
                options: params.options,
                workspace_directory,
                lib_root_directory: context.lib_root_dir.clone(),
                cloud_provider,
                cloud_provider_lib_directory: String::from_str(cloud_provider_lib_directory),
                is_managed: M::is_managed(),
                db_type: E::db_type(),
                event_details,
            },
        )
    }

    /// The selector of the resources of this database.
    pub open spec fn label_selector(&self) -> Seq<char> {
        "qovery.com/service-id="@ + self.view_service().long_id
    }

    pub fn kube_label_selector(&self) -> (r: String)
        ensures
            r@ == self.label_selector(),
    {
        String::from_str("qovery.com/service-id=").concat(self.long_id_text.as_str())
    }

    pub fn workspace_directory(&self) -> (r: &str)
        ensures
            r@ == self.spec_workspace_directory(),
    {
        self.workspace_directory.as_str()
    }

    pub fn total_disk_size_in_gb(&self) -> (r: u32)
        ensures
            r == self.spec_total_disk_size_in_gb(),
    {
        self.total_disk_size_in_gb
    }

    pub fn created_at(&self) -> (r: i64)
        ensures
            r == self.spec_created_at(),
    {
        self.created_at
    }

    pub fn long_id_value(&self) -> (r: u128)
        ensures
            r == self.spec_long_id(),
    {
        self.long_id
    }

    pub fn options(&self) -> (r: &DatabaseOptions)
        ensures
            *r == self.spec_options(),
    {
        &self.options
    }

    pub fn event_details(&self) -> (r: &EventDetails)
        ensures
            *r == self.spec_event_details(),
    {
        &self.event_details
    }

    /// The domain name of this database in a namespace.
    pub fn fqdn(&self, namespace: &str, fallback: &str) -> (r: String)
        ensures
            r@ == fqdn_of(
                self.view_service().publicly_accessible,
                self.spec_is_managed_field(),
                self.view_service().id,
                self.spec_kube_name(),
                namespace@,
                fallback@,
            ),
    {
        service::fqdn(
            self.publicly_accessible,
            self.is_managed,
            self.id.as_str(),
            self.kube_name.as_str(),
            namespace,
            fallback,
        )
    }

    pub open spec fn spec_helm_release_name(&self) -> Seq<char> {
        engine_directory(self.spec_db_type_field()) + "-"@ + self.view_service().id
    }

    pub open spec fn spec_helm_chart_dir(&self) -> Seq<char> {
        self.spec_lib_root_directory() + "/common/services/"@ + engine_directory(self.spec_db_type_field())
    }

    pub open spec fn spec_helm_chart_values_dir(&self) -> Seq<char> {
        self.spec_lib_root_directory() + "/"@ + self.spec_cloud_provider_lib_directory() + "/chart_values/"@
            + engine_directory(self.spec_db_type_field())
    }

    pub open spec fn spec_external_name_service_dir(&self) -> Seq<char> {
        self.spec_lib_root_directory() + "/common/charts/external-name-svc"@
    }

    pub open spec fn spec_terraform_common_dir(&self) -> Seq<char> {
        self.spec_lib_root_directory() + "/"@ + self.spec_cloud_provider_lib_directory() + "/services/common"@
    }

    pub open spec fn spec_terraform_resource_dir(&self) -> Seq<char> {
        self.spec_lib_root_directory() + "/"@ + self.spec_cloud_provider_lib_directory() + "/services/"@
            + engine_directory(self.spec_db_type_field())
    }
}

impl Service for Database {
    closed spec fn view_service(&self) -> ServiceView {
        ServiceView {
            service_type: ServiceType::Database(self.db_type),
            id: self.id@,
            long_id: self.long_id_text@,
            name: self.name@,
            sanitized_name: self.kube_name@,
            version: self.version@,
            action: self.action,
            publicly_accessible: self.publicly_accessible,
            private_port: Some(self.private_port),
            selector: Some("qovery.com/service-id="@ + self.long_id_text@),
            workspace_directory: self.workspace_directory@,
            total_cpus: self.total_cpus@,
            total_ram_in_mib: self.total_ram_in_mib,
            min_instances: 1,
            max_instances: 1,
        }
    }

    fn service_type(&self) -> (r: ServiceType) {
        ServiceType::Database(self.db_type)
    }

    fn id(&self) -> (r: String) {
        self.id.clone()
    }

    fn long_id(&self) -> (r: String) {
        self.long_id_text.clone()
    }

    fn name(&self) -> (r: String) {
        self.name.clone()
    }

    fn sanitized_name(&self) -> (r: String) {
        self.kube_name.clone()
    }

    fn version(&self) -> (r: String) {
        self.version.clone()
    }

    fn action(&self) -> (r: Action) {
        self.action
    }

    fn publicly_accessible(&self) -> (r: bool) {
        self.publicly_accessible
    }

    fn private_port(&self) -> (r: Option<u16>) {
        Some(self.private_port)
    }

    fn selector(&self) -> (r: Option<String>) {
        Some(String::from_str("qovery.com/service-id=").concat(self.long_id_text.as_str()))
    }

    fn workspace_directory(&self) -> (r: String) {
        self.workspace_directory.clone()
    }

    fn total_cpus(&self) -> (r: String) {
        self.total_cpus.clone()
    }

    fn total_ram_in_mib(&self) -> (r: u32) {
        self.total_ram_in_mib
    }

    fn min_instances(&self) -> (r: u32) {
        1
    }

    fn max_instances(&self) -> (r: u32) {
        1
    }
}

impl Helm for Database {
    closed spec fn view_helm(&self) -> HelmView {
        HelmView {
            selector: self.view_service().selector,
            release_name: self.spec_helm_release_name(),
            chart_dir: self.spec_helm_chart_dir(),
            chart_values_dir: self.spec_helm_chart_values_dir(),
            external_name_service_dir: self.spec_external_name_service_dir(),
        }
    }

    fn helm_selector(&self) -> (r: Option<String>) {
        self.selector()
    }

    fn helm_release_name(&self) -> (r: String) {
        String::from_str(engine_directory_name(self.db_type)).concat("-").concat(self.id.as_str())
    }

    fn helm_chart_dir(&self) -> (r: String) {
        self.lib_root_directory.clone().concat("/common/services/").concat(engine_directory_name(self.db_type))
    }

    fn helm_chart_values_dir(&self) -> (r: String) {
        self.lib_root_directory.clone().concat("/").concat(self.cloud_provider_lib_directory.as_str()).concat(
            "/chart_values/",
        ).concat(engine_directory_name(self.db_type))
    }

    fn helm_chart_external_name_service_dir(&self) -> (r: String) {
        self.lib_root_directory.clone().concat("/common/charts/external-name-svc")
    }
}

impl Terraform for Database {
    closed spec fn view_terraform(&self) -> TerraformView {
        TerraformView {
            common_resource_dir: self.spec_terraform_common_dir(),
            resource_dir: self.spec_terraform_resource_dir(),
        }
    }

    fn terraform_common_resource_dir_path(&self) -> (r: String) {
        self.lib_root_directory.clone().concat("/").concat(self.cloud_provider_lib_directory.as_str()).concat(
            "/services/common",
        )
    }

    fn terraform_resource_dir_path(&self) -> (r: String) {
        self.lib_root_directory.clone().concat("/").concat(self.cloud_provider_lib_directory.as_str()).concat(
            "/services/",
        ).concat(engine_directory_name(self.db_type))
    }
}

impl DatabaseService for Database {
    closed spec fn spec_is_managed(&self) -> bool {
        self.is_managed
    }

    closed spec fn spec_db_type(&self) -> service::DatabaseType {
        self.db_type
    }

    fn is_managed_service(&self) -> (r: bool) {
        self.is_managed
    }

    fn db_type(&self) -> (r: service::DatabaseType) {
        self.db_type
    }
}

/// The managed flag that the pipelines branch on is the one the database was
/// built with.
pub proof fn lemma_managed_flag_consistent(db: &Database)
    ensures
        db.spec_is_managed() == db.spec_is_managed_field(),
        db.spec_db_type() == db.spec_db_type_field(),
        db.view_helm().release_name == engine_directory(db.spec_db_type_field()) + "-"@ + db.view_service().id,
        db.view_terraform().resource_dir == db.spec_terraform_resource_dir(),
{
}

pub open spec fn is_digit(c: char) -> bool {
    '0' <= c && c <= '9'
}

pub open spec fn is_digits(s: Seq<char>) -> bool {
    forall|i: int| 0 <= i < s.len() ==> is_digit(#[trigger] s[i])
}

/// The number that a string of decimal digits writes.
pub open spec fn digits_value(s: Seq<char>) -> nat
    decreases s.len(),
{
    if s.len() == 0 {
        0
    } else {
        digits_value(s.drop_last()) * 10 + (s.last() as nat - '0' as nat) as nat
    }
}

pub open spec fn has_gi_unit(s: Seq<char>) -> bool {
    s.len() >= 2 && s[s.len() - 2] == 'G' && s[s.len() - 1] == 'i'
}

/// A volume size in GiB, written as decimal digits with or without the `Gi`
/// unit, that fits 32 bits.
pub open spec fn volume_size_of(s: Seq<char>) -> Option<nat> {
    let digits = if has_gi_unit(s) { s.subrange(0, s.len() - 2) } else { s };
    if digits.len() > 0 && is_digits(digits) && digits_value(digits) <= u32::MAX {
        Some(digits_value(digits))
    } else {
        None
    }
}

proof fn lemma_digits_value_prefix(s: Seq<char>, k: int)
    requires
        0 <= k <= s.len(),
        is_digits(s),
    ensures
        digits_value(s.subrange(0, k)) <= digits_value(s),
    decreases s.len(),
{
    if k < s.len() {
        let t = s.drop_last();
        assert(t.subrange(0, k) =~= s.subrange(0, k));
        assert(is_digits(t)) by {
            assert forall|i: int| 0 <= i < t.len() implies is_digit(#[trigger] t[i]) by {
                assert(t[i] == s[i]);
            }
        }
        lemma_digits_value_prefix(t, k);
        assert(is_digit(s[s.len() - 1]));
    } else {
        assert(s.subrange(0, k) =~= s);
    }
}

fn parse_error(quantity: &str) -> (r: CommandError)
    ensures
        r.full_details is None,
{
    CommandError::new(String::from_str("Cannot parse volume size ").concat(quantity), None)
}

/// Reads a volume size in GiB.
pub fn extract_volume_size(quantity: &str) -> (r: Result<u32, CommandError>)
    ensures
        r is Ok <==> volume_size_of(quantity@) is Some,
        r matches Ok(v) ==> volume_size_of(quantity@) == Some(v as nat),
{
    let n = quantity.unicode_len();
    let mut end = n;
    if n >= 2 && quantity.get_char(n - 2) == 'G' && quantity.get_char(n - 1) == 'i' {
        end = n - 2;
    }
    let ghost digits = if has_gi_unit(quantity@) { quantity@.subrange(0, n - 2) } else { quantity@ };
    assert(digits.len() == end);
    assert(volume_size_of(quantity@) is Some ==> digits.len() > 0 && is_digits(digits) && digits_value(digits)
        <= u32::MAX);
    if end == 0 {
        return Err(parse_error(quantity));
    }
    let mut i: usize = 0;
    while i < end
        invariant
            end <= n,
            n == quantity@.len(),
            digits.len() == end,
            volume_size_of(quantity@) is Some ==> is_digits(digits) && digits_value(digits) <= u32::MAX,
            forall|j: int| 0 <= j < end ==> digits[j] == quantity@[j],
            i <= end,
            forall|j: int| 0 <= j < i ==> is_digit(#[trigger] digits[j]),
        decreases end - i,
    {
        let c = quantity.get_char(i);
        if !('0' <= c && c <= '9') {
            assert(!is_digit(digits[i as int]));
            assert(!is_digits(digits));
            return Err(parse_error(quantity));
        }
        i = i + 1;
    }
    assert(is_digits(digits));
    let mut value: u64 = 0;
    let mut i: usize = 0;
    while i < end
        invariant
            end <= n,
            n == quantity@.len(),
            digits.len() == end,
            volume_size_of(quantity@) is Some ==> is_digits(digits) && digits_value(digits) <= u32::MAX,
            forall|j: int| 0 <= j < end ==> digits[j] == quantity@[j],
            is_digits(digits),
            i <= end,
            value == digits_value(digits.subrange(0, i as int)),
            value <= u32::MAX,
        decreases end - i,
    {
        let c = quantity.get_char(i);
        assert(is_digit(digits[i as int]));
        let d = (c as u32 - '0' as u32) as u64;
        assert(digits.subrange(0, i as int + 1).drop_last() =~= digits.subrange(0, i as int));
        let ghost prev = value;
        value = value * 10 + d;
        i = i + 1;
        assert(digits_value(digits.subrange(0, i as int)) == prev * 10 + d);
        if value > 0xffff_ffff {
            proof {
                lemma_digits_value_prefix(digits, i as int);
                assert(digits_value(digits) > u32::MAX);
            }
            return Err(parse_error(quantity));
        }
    }
    assert(digits.subrange(0, end as int) =~= digits);
    Ok(value as u32)
}

/// What the size check found when the requested size is not below the bound
/// one.
pub enum StorageCheck {
    /// The bound volume already has the requested size, or states none.
    Unchanged,
    /// The request is larger: the claims of the selector are to be looked up.
    ResizeRequested { pvc_selector: String },
}

/// The message that refuses a smaller disk.
pub open spec fn shrink_message(requested: nat, size: nat) -> Seq<char> {
    "new storage size ("@ + decimal(requested) + ") should be equal or greater than actual size ("@ + decimal(size)
        + ")"@
}

/// What comparing the requested size with the single bound volume decides:
/// the selector of the claims to look up for a larger request, nothing for an
/// equal one or a volume that states no size, or the kind and message of the
/// error.
pub open spec fn storage_check_outcome(
    requested: u32,
    kube_name: Seq<char>,
    volume_requests: Option<Seq<Option<Seq<char>>>>,
) -> Result<Option<Seq<char>>, (Tag, Seq<char>)> {
    match volume_requests {
        None => Err((Tag::K8sCannotBoundPVC, "Database has no single bound volume"@)),
        Some(v) => if v.len() != 1 {
            Err((Tag::K8sCannotBoundPVC, "Database has no single bound volume"@))
        } else {
            match v[0] {
                None => Ok(None),
                Some(q) => match volume_size_of(q) {
                    None => Err((Tag::CannotParseString, "Cannot parse volume size"@)),
                    Some(size) => if requested > size {
                        Ok(Some("app="@ + kube_name))
                    } else if requested < size {
                        Err((Tag::InvalidEnginePayload, shrink_message(requested as nat, size)))
                    } else {
                        Ok(None)
                    },
                },
            }
        },
    }
}

/// Disk size only grows: against a single bound volume of readable size
/// `size`, a smaller request is an invalid payload, and a larger one leads to
/// the claims of the database's selector instead of any change in place.
pub proof fn lemma_disk_size_monotonic(requested: u32, kube_name: Seq<char>, quantity: Seq<char>, size: nat)
    requires
        volume_size_of(quantity) == Some(size),
    ensures
        requested < size ==> storage_check_outcome(requested, kube_name, Some(seq![Some(quantity)])) == Err::<
            Option<Seq<char>>,
            (Tag, Seq<char>),
        >((Tag::InvalidEnginePayload, shrink_message(requested as nat, size))),
        requested > size ==> storage_check_outcome(requested, kube_name, Some(seq![Some(quantity)])) == Ok::<
            Option<Seq<char>>,
            (Tag, Seq<char>),
        >(Some("app="@ + kube_name)),
        requested == size ==> storage_check_outcome(requested, kube_name, Some(seq![Some(quantity)])) == Ok::<
            Option<Seq<char>>,
            (Tag, Seq<char>),
        >(None),
{
}

pub open spec fn opt_strings_view(v: Seq<Option<String>>) -> Seq<Option<Seq<char>>> {
    v.map_values(|o: Option<String>| service::opt_view(o))
}

/// Compares the requested disk size of a containerized database with the
/// volume bound to it. There must be exactly one volume. A smaller request is
/// refused as an invalid payload and nothing is changed; a larger one asks for
/// the claim to be looked up; an equal one, or a volume without a request,
/// leaves everything as it is.
pub fn check_storage_size(
    database: &Database,
    volume_requests: Option<Vec<Option<String>>>,
    event_details: EventDetails,
) -> (r: Result<StorageCheck, EngineError>)
    ensures
        ({
            let vr = match volume_requests {
                Some(v) => Some(opt_strings_view(v@)),
                None => None,
            };
            let outcome = storage_check_outcome(database.spec_total_disk_size_in_gb(), database.spec_kube_name(), vr);
            &&& r is Ok <==> outcome is Ok
            &&& r matches Ok(StorageCheck::Unchanged) ==> outcome == Ok::<Option<Seq<char>>, (Tag, Seq<char>)>(None)
            &&& r matches Ok(StorageCheck::ResizeRequested { pvc_selector }) ==> outcome == Ok::<
                Option<Seq<char>>,
                (Tag, Seq<char>),
            >(Some(pvc_selector@))
            &&& r matches Err(e) ==> outcome == Err::<Option<Seq<char>>, (Tag, Seq<char>)>(
                (e.tag, e.user_log_message@),
            )
        }),
        r matches Err(e) ==> e.event_details == event_details,
{
    let missing = EngineError::new(
        Tag::K8sCannotBoundPVC,
        event_details.clone(),
        String::from_str("Database has no single bound volume"),
        None,
    );
    let volumes = match volume_requests {
        None => {
            return Err(missing);
        },
        Some(v) => v,
    };
    if volumes.len() != 1 {
        return Err(missing);
    }
    let requested = database.total_disk_size_in_gb;
    match &volumes[0] {
        None => Ok(StorageCheck::Unchanged),
        Some(quantity) => {
            let size = match extract_volume_size(quantity.as_str()) {
                Ok(size) => size,
                Err(e) => {
                    return Err(
                        EngineError::new(
                            Tag::CannotParseString,
                            event_details,
                            String::from_str("Cannot parse volume size"),
                            Some(e),
                        ),
                    );
                },
            };
            if requested > size {
                Ok(StorageCheck::ResizeRequested { pvc_selector: String::from_str("app=").concat(database.kube_name.as_str()) })
            } else if requested < size {
                let message = String::from_str("new storage size (").concat(crate::text::to_decimal(requested as u64).as_str()).concat(
                    ") should be equal or greater than actual size (",
                ).concat(crate::text::to_decimal(size as u64).as_str()).concat(")");
                Err(EngineError::new(Tag::InvalidEnginePayload, event_details, message, None))
            } else {
                Ok(StorageCheck::Unchanged)
            }
        },
    }
}

/// What the size check reads from the cluster.
#[derive(Clone, Copy, Debug, PartialEq, Eq, Structural)]
pub enum StorageLookup {
    Statefulset,
    Claims,
}

pub open spec fn storage_lookup_tag(lookup: StorageLookup) -> Tag {
    match lookup {
        StorageLookup::Statefulset => Tag::K8sCannotGetStatefulset,
        StorageLookup::Claims => Tag::K8sCannotGetPVCs,
    }
}

pub open spec fn storage_lookup_message(lookup: StorageLookup, selector: Seq<char>) -> Seq<char> {
    match lookup {
        StorageLookup::Statefulset => quoted("Cannot get the stateful set of "@, selector),
        StorageLookup::Claims => quoted("Cannot get the volume claims of "@, selector),
    }
}

/// The error of a failed read during the size check, keeping the cause.
pub fn storage_lookup_failure(
    lookup: StorageLookup,
    selector: &str,
    event_details: EventDetails,
    cause: CommandError,
) -> (r: EngineError)
    ensures
        r.tag == storage_lookup_tag(lookup),
        r.event_details == event_details,
        r.user_log_message@ == storage_lookup_message(lookup, selector@),
        r.underlying_error == Some(cause),
{
    match lookup {
        StorageLookup::Statefulset => EngineError::new(
            Tag::K8sCannotGetStatefulset,
            event_details,
            quote("Cannot get the stateful set of ", selector),
            Some(cause),
        ),
        StorageLookup::Claims => EngineError::new(
            Tag::K8sCannotGetPVCs,
            event_details,
            quote("Cannot get the volume claims of ", selector),
            Some(cause),
        ),
    }
}

/// A claim to grow, with the size it must reach.
pub struct InvalidPVCStorage {
    pub pvc_name: String,
    pub required_disk_size_in_gib: u32,
}

/// A stateful set whose volume is smaller than requested.
pub struct InvalidStatefulsetStorage {
    pub service_type: ServiceType,
    pub service_id: u128,
    pub statefulset_selector: String,
    pub statefulset_name: String,
    pub invalid_pvcs: Vec<InvalidPVCStorage>,
}

/// The report handed back once the claim of a larger request was looked up:
/// its name and the required size, or nothing when no claim was found.
pub fn invalid_storage_report(
    database: &Database,
    statefulset_name: String,
    pvc_name: Option<String>,
) -> (r: Option<InvalidStatefulsetStorage>)
    ensures
        r is Some <==> pvc_name is Some,
        r matches Some(report) ==> {
            &&& report.service_type == ServiceType::Database(database.spec_db_type_field())
            &&& report.service_id == database.spec_long_id()
            &&& report.statefulset_selector@ == database.label_selector()
            &&& report.statefulset_name == statefulset_name
            &&& report.invalid_pvcs@.len() == 1
            &&& report.invalid_pvcs@[0].pvc_name == pvc_name->0
            &&& report.invalid_pvcs@[0].required_disk_size_in_gib == database.spec_total_disk_size_in_gb()
        },
{
    match pvc_name {
        None => None,
        Some(name) => Some(
            InvalidStatefulsetStorage {
                service_type: ServiceType::Database(database.db_type),
                service_id: database.long_id,
                statefulset_selector: database.kube_label_selector(),
                statefulset_name,
                invalid_pvcs: vec![
                    InvalidPVCStorage { pvc_name: name, required_disk_size_in_gib: database.total_disk_size_in_gb },
                ],
            },
        ),
    }
}

/// The entries of a containerized database that come before the provider's
/// own variables: image coordinates, cluster access, version.
pub open spec fn container_head_entries(db: Database, target: DeploymentTarget, version: Seq<char>) -> Map<
    Seq<char>,
    TemplateValue,
> {
    default_entries(db.view_service(), target.kubernetes, target.environment)
        .insert("registry_name"@, t("public.ecr.aws"@))
        .insert("repository_name"@, t(repository_name(db.spec_db_type_field())))
        .insert("repository_name_minideb"@, t("r3m4q3r9/pub-mirror-minideb"@))
        .insert("repository_name_bitnami_shell"@, t("r3m4q3r9/pub-mirror-bitnami-shell"@))
        .insert("repository_with_registry"@, t("public.ecr.aws/"@ + repository_name(db.spec_db_type_field())))
        .insert("kubeconfig_path"@, t(target.kubernetes.kubeconfig_path@))
        .insert("namespace"@, t(target.environment.namespace@))
        .insert("version"@, t(version))
}

/// The entries of a containerized database: its image, credentials, sizing,
/// and whether it is reachable from outside, which it is only when asked and
/// when the cluster does not refuse it for the engine.
pub open spec fn container_entries(db: Database, target: DeploymentTarget, version: Seq<char>) -> Map<
    Seq<char>,
    TemplateValue,
> {
    let s = db.view_service();
    let o = db.spec_options();
    let m = insert_pairs(
        container_head_entries(db, target, version),
        pairs_view(target.cloud_provider.tera_context_environment_variables@),
    )
        .insert("kubernetes_cluster_id"@, t(target.kubernetes.id@))
        .insert("kubernetes_cluster_name"@, t(target.kubernetes.name@))
        .insert("fqdn_id"@, t(db.spec_fqdn_id()))
        .insert("fqdn"@, t(fqdn_of(s.publicly_accessible, db.spec_is_managed_field(), s.id, db.spec_kube_name(),
            target.environment.namespace@, db.spec_fqdn())))
        .insert("service_name"@, t(db.spec_fqdn_id()))
        .insert("database_db_name"@, t(s.name))
        .insert("database_login"@, t(o.login@))
        .insert("database_password"@, t(o.password@))
        .insert("database_port"@, TemplateValue::Number(s.private_port->0 as int))
        .insert("database_disk_size_in_gib"@, TemplateValue::Number(o.disk_size_in_gib as int));
    let m = match db.spec_instance_type() {
        Some(i) => m.insert("database_instance_type"@, t(i.name@)),
        None => m,
    };
    m.insert("database_disk_type"@, t(o.database_disk_type@))
        .insert("database_ram_size_in_mib"@, TemplateValue::Number(s.total_ram_in_mib as int))
        .insert("database_total_cpus"@, t(s.total_cpus))
        .insert("database_total_cpus_burst"@, t(engine_cpu_burst(db.spec_db_type_field(), s.total_cpus)))
        .insert("database_fqdn"@, t(o.host@))
        .insert("database_id"@, t(s.id))
        .insert("publicly_accessible"@, TemplateValue::Flag(s.publicly_accessible && !denies_public_access(
            target.kubernetes.advanced_settings,
            db.spec_db_type_field(),
        )))
        .insert("resource_expiration_in_seconds"@, TemplateValue::Number(
            target.kubernetes.advanced_settings.pleco_resources_ttl as int,
        ))
}

impl Database {
    /// The template context of this database: the default one for a managed
    /// database, the container one (after the version check) otherwise.
    pub fn tera_context(&self, target: &DeploymentTarget, version_lookup: Result<String, CommandError>) -> (r: (
        Vec<Notification>,
        Result<tera::Context, EngineError>,
    ))
        ensures
            self.spec_is_managed_field() ==> r.0@.len() == 0 && r.1 is Ok && context_entries(r.1->Ok_0)
                == default_entries(self.view_service(), target.kubernetes, target.environment),
            !self.spec_is_managed_field() ==> {
                &&& notifications_view(r.0@) == version_check_notifications(
                    version_lookup,
                    self.view_service().service_type,
                    self.view_service().version,
                )
                &&& version_lookup is Err <==> r.1 is Err
                &&& version_lookup matches Ok(v) ==> context_entries(r.1->Ok_0) == container_entries(
                    *self,
                    *target,
                    v@,
                )
                &&& r.1 matches Err(e) ==> e.tag == Tag::UnsupportedVersion
            },
    {
        if self.is_managed {
            (Vec::new(), Ok(default_tera_context(self, &target.kubernetes, &target.environment)))
        } else {
            self.to_tera_context_for_container(target, version_lookup)
        }
    }

    /// Resolves the version to deploy from what the engine's allow-list
    /// returned for the requested one.
    pub fn get_version(&self, version_lookup: Result<String, CommandError>, event_details: EventDetails) -> (r: (
        Vec<Notification>,
        Result<ServiceVersionCheckResult, EngineError>,
    ))
        ensures
            notifications_view(r.0@) == version_check_notifications(
                version_lookup,
                self.view_service().service_type,
                self.view_service().version,
            ),
            version_lookup is Err <==> r.1 is Err,
            version_lookup matches Ok(v) ==> r.1->Ok_0.spec_matched_version() == v@
                && r.1->Ok_0.spec_requested_version() == self.view_service().version,
            r.1 matches Err(e) ==> e.tag == Tag::UnsupportedVersion,
    {
        let version = self.version();
        check_service_version(version_lookup, self.service_type(), version.as_str(), event_details)
    }

    /// The template context of a containerized database, once its version
    /// has been resolved, with the notices of that check; a refused version is
    /// an error.
    pub fn to_tera_context_for_container(
        &self,
        target: &DeploymentTarget,
        version_lookup: Result<String, CommandError>,
    ) -> (r: (Vec<Notification>, Result<tera::Context, EngineError>))
        ensures
            notifications_view(r.0@) == version_check_notifications(
                version_lookup,
                self.view_service().service_type,
                self.view_service().version,
            ),
            version_lookup is Err <==> r.1 is Err,
            version_lookup matches Ok(v) ==> context_entries(r.1->Ok_0) == container_entries(*self, *target, v@),
            r.1 matches Err(e) ==> e.tag == Tag::UnsupportedVersion,
    {
        let kubernetes = &target.kubernetes;
        let environment = &target.environment;
        let event_details = self.event_details().clone_changing_stage(crate::errors::EnvironmentStep::LoadConfiguration);
        let (notes, checked) = self.get_version(version_lookup, event_details);
        let checked = match checked {
            Ok(c) => c,
            Err(e) => {
                return (notes, Err(e));
            },
        };
        let mut c = default_tera_context(self, kubernetes, environment);
        let db_type = self.db_type();
        let lower = to_lowercase(db_type.to_string().as_str());
        let repository = String::from_str("r3m4q3r9/pub-mirror-").concat(lower.as_str());
        insert(&mut c, "registry_name", text("public.ecr.aws"));
        insert(&mut c, "repository_name", text(repository.as_str()));
        insert(&mut c, "repository_name_minideb", text("r3m4q3r9/pub-mirror-minideb"));
        insert(&mut c, "repository_name_bitnami_shell", text("r3m4q3r9/pub-mirror-bitnami-shell"));
        insert(&mut c, "repository_with_registry", ContextValue::Text(String::from_str("public.ecr.aws/").concat(repository.as_str())));
        insert(&mut c, "kubeconfig_path", text(kubernetes.kubeconfig_path.as_str()));
        insert(&mut c, "namespace", text(environment.namespace.as_str()));
        insert(&mut c, "version", ContextValue::Text(checked.matched_version()));
        let ghost head = context_entries(c);
        let vars = &target.cloud_provider.tera_context_environment_variables;
        let mut i: usize = 0;
        while i < vars.len()
            invariant
                i <= vars.len(),
                context_entries(c) == insert_pairs(head, pairs_view(vars@.take(i as int))),
            decreases vars.len() - i,
        {
            proof {
                assert(pairs_view(vars@.take(i as int + 1)).drop_last() =~= pairs_view(vars@.take(i as int)));
            }
            insert(&mut c, vars[i].0.as_str(), text(vars[i].1.as_str()));
            i = i + 1;
        }
        proof {
            assert(vars@.take(vars.len() as int) =~= vars@);
        }
        let id = self.id();
        let fqdn_id = self.fqdn_id.as_str();
        insert(&mut c, "kubernetes_cluster_id", text(kubernetes.id.as_str()));
        insert(&mut c, "kubernetes_cluster_name", text(kubernetes.name.as_str()));
        insert(&mut c, "fqdn_id", text(fqdn_id));
        insert(&mut c, "fqdn", ContextValue::Text(self.fqdn(environment.namespace.as_str(), self.fqdn.as_str())));
        insert(&mut c, "service_name", text(fqdn_id));
        insert(&mut c, "database_db_name", ContextValue::Text(self.name()));
        let options = self.options();
        insert(&mut c, "database_login", text(options.login.as_str()));
        insert(&mut c, "database_password", text(options.password.as_str()));
        insert(&mut c, "database_port", ContextValue::Number(self.private_port as i64));
        insert(&mut c, "database_disk_size_in_gib", ContextValue::Number(options.disk_size_in_gib as i64));
        if let Some(i) = &self.database_instance_type {
            insert(&mut c, "database_instance_type", ContextValue::Text(i.to_cloud_provider_format()));
        }
        insert(&mut c, "database_disk_type", text(options.database_disk_type.as_str()));
        insert(&mut c, "database_ram_size_in_mib", ContextValue::Number(self.total_ram_in_mib as i64));
        insert(&mut c, "database_total_cpus", ContextValue::Text(self.total_cpus()));
        insert(&mut c, "database_total_cpus_burst", ContextValue::Text(engine_cpu_burst_value(db_type, self.total_cpus())));
        insert(&mut c, "database_fqdn", text(options.host.as_str()));
        insert(&mut c, "database_id", ContextValue::Text(id));
        let denied = cluster_denies_public_access(&kubernetes.advanced_settings, db_type);
        insert(&mut c, "publicly_accessible", ContextValue::Flag(self.publicly_accessible() && !denied));
        insert(
            &mut c,
            "resource_expiration_in_seconds",
            ContextValue::Number(kubernetes.advanced_settings.pleco_resources_ttl as i64),
        );
        (notes, Ok(c))
    }
}

} // verus!
