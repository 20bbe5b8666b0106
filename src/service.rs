//! The service model: identity, capabilities, lifecycle dispatch, naming
//! rules and the decisions taken around a pipeline (version check, outcome).

use vstd::prelude::*;

use crate::errors::{CommandError, EngineError, EventDetails, Tag};
use crate::text::{join_lines, lowercase_of, strings_view, to_lowercase};

verus! {

/// What a deployment cycle asks of one service.
#[derive(Clone, Copy, Debug, PartialEq, Eq, Hash, Structural)]
pub enum Action {
    Create,
    Pause,
    Delete,
    Nothing,
}

/// The lifecycle hooks that an action selects.
#[derive(Clone, Copy, Debug, PartialEq, Eq, Structural)]
pub enum Hook {
    OnCreate,
    OnPause,
    OnDelete,
}

/// The hook that runs for an action; `Nothing` runs none.
pub open spec fn hook_of(action: Action) -> Option<Hook> {
    match action {
        Action::Create => Some(Hook::OnCreate),
        Action::Pause => Some(Hook::OnPause),
        Action::Delete => Some(Hook::OnDelete),
        Action::Nothing => None,
    }
}

/// The action that a hook is named after.
pub open spec fn hook_action(hook: Hook) -> Action {
    match hook {
        Hook::OnCreate => Action::Create,
        Hook::OnPause => Action::Pause,
        Hook::OnDelete => Action::Delete,
    }
}

pub fn lifecycle_hook(action: Action) -> (r: Option<Hook>)
    ensures
        r == hook_of(action),
{
    match action {
        Action::Create => Some(Hook::OnCreate),
        Action::Pause => Some(Hook::OnPause),
        Action::Delete => Some(Hook::OnDelete),
        Action::Nothing => None,
    }
}

/// Every action but `Nothing` selects exactly one hook, the one of the same
/// name; `Nothing` selects none.
pub proof fn lemma_dispatch_complete(action: Action)
    ensures
        hook_of(action) is None <==> action is Nothing,
        hook_of(action) matches Some(h) ==> hook_action(h) == action,
        forall|h: Hook| hook_of(action) == Some(h) <==> (action !is Nothing && hook_action(h) == action),
{
}

/// What a service says of itself, as plain values.
pub struct ServiceView {
    pub service_type: ServiceType,
    pub id: Seq<char>,
    pub long_id: Seq<char>,
    pub name: Seq<char>,
    pub sanitized_name: Seq<char>,
    pub version: Seq<char>,
    pub action: Action,
    pub publicly_accessible: bool,
    pub private_port: Option<u16>,
    pub selector: Option<Seq<char>>,
    pub workspace_directory: Seq<char>,
    pub total_cpus: Seq<char>,
    pub total_ram_in_mib: u32,
    pub min_instances: u32,
    pub max_instances: u32,
}

/// Identity, sizing and placement of a deployable service.
pub trait Service {
    spec fn view_service(&self) -> ServiceView;

    fn service_type(&self) -> (r: ServiceType)
        ensures
            r == self.view_service().service_type,
    ;

    fn id(&self) -> (r: String)
        ensures
            r@ == self.view_service().id,
    ;

    fn long_id(&self) -> (r: String)
        ensures
            r@ == self.view_service().long_id,
    ;

    fn name(&self) -> (r: String)
        ensures
            r@ == self.view_service().name,
    ;

    fn sanitized_name(&self) -> (r: String)
        ensures
            r@ == self.view_service().sanitized_name,
    ;

    fn version(&self) -> (r: String)
        ensures
            r@ == self.view_service().version,
    ;

    fn action(&self) -> (r: Action)
        ensures
            r == self.view_service().action,
    ;

    fn publicly_accessible(&self) -> (r: bool)
        ensures
            r == self.view_service().publicly_accessible,
    ;

    fn private_port(&self) -> (r: Option<u16>)
        ensures
            r == self.view_service().private_port,
    ;

    fn selector(&self) -> (r: Option<String>)
        ensures
            opt_view(r) == self.view_service().selector,
    ;

    fn workspace_directory(&self) -> (r: String)
        ensures
            r@ == self.view_service().workspace_directory,
    ;

    fn total_cpus(&self) -> (r: String)
        ensures
            r@ == self.view_service().total_cpus,
    ;

    fn total_ram_in_mib(&self) -> (r: u32)
        ensures
            r == self.view_service().total_ram_in_mib,
    ;

    fn min_instances(&self) -> (r: u32)
        ensures
            r == self.view_service().min_instances,
    ;

    fn max_instances(&self) -> (r: u32)
        ensures
            r == self.view_service().max_instances,
    ;
}

/// Where the charts of a Helm-deployed service live.
pub struct HelmView {
    pub selector: Option<Seq<char>>,
    pub release_name: Seq<char>,
    pub chart_dir: Seq<char>,
    pub chart_values_dir: Seq<char>,
    pub external_name_service_dir: Seq<char>,
}

pub trait Helm {
    spec fn view_helm(&self) -> HelmView;

    fn helm_selector(&self) -> (r: Option<String>)
        ensures
            opt_view(r) == self.view_helm().selector,
    ;

    fn helm_release_name(&self) -> (r: String)
        ensures
            r@ == self.view_helm().release_name,
    ;

    fn helm_chart_dir(&self) -> (r: String)
        ensures
            r@ == self.view_helm().chart_dir,
    ;

    fn helm_chart_values_dir(&self) -> (r: String)
        ensures
            r@ == self.view_helm().chart_values_dir,
    ;

    fn helm_chart_external_name_service_dir(&self) -> (r: String)
        ensures
            r@ == self.view_helm().external_name_service_dir,
    ;
}

/// Where the infrastructure modules of a Terraform-deployed service live.
pub struct TerraformView {
    pub common_resource_dir: Seq<char>,
    pub resource_dir: Seq<char>,
}

pub trait Terraform {
    spec fn view_terraform(&self) -> TerraformView;

    fn terraform_common_resource_dir_path(&self) -> (r: String)
        ensures
            r@ == self.view_terraform().common_resource_dir,
    ;

    fn terraform_resource_dir_path(&self) -> (r: String)
        ensures
            r@ == self.view_terraform().resource_dir,
    ;
}

/// A database: a service that knows its engine and whether the cloud vendor
/// runs it.
pub trait DatabaseService: Service {
    spec fn spec_is_managed(&self) -> bool;

    spec fn spec_db_type(&self) -> DatabaseType;

    fn is_managed_service(&self) -> (r: bool)
        ensures
            r == self.spec_is_managed(),
    ;

    fn db_type(&self) -> (r: DatabaseType)
        ensures
            r == self.spec_db_type(),
    ;
}

/// Where a pipeline runs: the cluster, the environment and the cloud provider.
pub struct DeploymentTarget {
    pub kubernetes: crate::pipeline::Cluster,
    pub environment: crate::pipeline::Environment,
    pub cloud_provider: crate::pipeline::CloudProviderInfo,
}

pub trait Create {
    fn on_create(&self, target: &DeploymentTarget) -> Result<(), EngineError>;

    fn on_create_check(&self) -> Result<(), EngineError>;

    fn on_create_error(&self, target: &DeploymentTarget) -> Result<(), EngineError>;
}

pub trait Pause {
    fn on_pause(&self, target: &DeploymentTarget) -> Result<(), EngineError>;

    fn on_pause_check(&self) -> Result<(), EngineError>;

    fn on_pause_error(&self, target: &DeploymentTarget) -> Result<(), EngineError>;
}

pub trait Delete {
    fn on_delete(&self, target: &DeploymentTarget) -> Result<(), EngineError>;

    fn on_delete_check(&self) -> Result<(), EngineError>;

    fn on_delete_error(&self, target: &DeploymentTarget) -> Result<(), EngineError>;
}

/// A service with the three lifecycle hooks, dispatched on its action.
pub trait StatelessService: Service + Create + Pause + Delete {
    /// Runs the hook that the action selects, once, and returns what it
    /// returned; `Nothing` runs no hook and succeeds.
    fn exec_action(&self, deployment_target: &DeploymentTarget) -> (r: Result<(), EngineError>)
        ensures
            hook_of(self.view_service().action) == Some(Hook::OnCreate) ==> call_ensures(
                Self::on_create,
                (self, deployment_target),
                r,
            ),
            hook_of(self.view_service().action) == Some(Hook::OnPause) ==> call_ensures(
                Self::on_pause,
                (self, deployment_target),
                r,
            ),
            hook_of(self.view_service().action) == Some(Hook::OnDelete) ==> call_ensures(
                Self::on_delete,
                (self, deployment_target),
                r,
            ),
            hook_of(self.view_service().action) is None ==> r is Ok,
    {
        exec_service_action(self, deployment_target)
    }

    /// Runs the check hook that the action selects; `Nothing` succeeds.
    fn exec_check_action(&self) -> (r: Result<(), EngineError>)
        ensures
            hook_of(self.view_service().action) == Some(Hook::OnCreate) ==> call_ensures(
                Self::on_create_check,
                (self,),
                r,
            ),
            hook_of(self.view_service().action) == Some(Hook::OnPause) ==> call_ensures(
                Self::on_pause_check,
                (self,),
                r,
            ),
            hook_of(self.view_service().action) == Some(Hook::OnDelete) ==> call_ensures(
                Self::on_delete_check,
                (self,),
                r,
            ),
            hook_of(self.view_service().action) is None ==> r is Ok,
    {
        exec_service_check_action(self)
    }
}

/// Runs the hook that the service's action selects, once, and returns what it
/// returned; `Nothing` runs no hook and succeeds. Stateless services and
/// databases dispatch through it.
pub fn exec_service_action<S: Service + Create + Pause + Delete + ?Sized>(
    service: &S,
    deployment_target: &DeploymentTarget,
) -> (r: Result<(), EngineError>)
    ensures
        hook_of(service.view_service().action) == Some(Hook::OnCreate) ==> call_ensures(
            S::on_create,
            (service, deployment_target),
            r,
        ),
        hook_of(service.view_service().action) == Some(Hook::OnPause) ==> call_ensures(
            S::on_pause,
            (service, deployment_target),
            r,
        ),
        hook_of(service.view_service().action) == Some(Hook::OnDelete) ==> call_ensures(
            S::on_delete,
            (service, deployment_target),
            r,
        ),
        hook_of(service.view_service().action) is None ==> r is Ok,
{
    match lifecycle_hook(service.action()) {
        Some(Hook::OnCreate) => service.on_create(deployment_target),
        Some(Hook::OnPause) => service.on_pause(deployment_target),
        Some(Hook::OnDelete) => service.on_delete(deployment_target),
        None => Ok(()),
    }
}

/// Runs the check hook that the service's action selects; `Nothing` succeeds.
pub fn exec_service_check_action<S: Service + Create + Pause + Delete + ?Sized>(service: &S) -> (r: Result<(), EngineError>)
    ensures
        hook_of(service.view_service().action) == Some(Hook::OnCreate) ==> call_ensures(
            S::on_create_check,
            (service,),
            r,
        ),
        hook_of(service.view_service().action) == Some(Hook::OnPause) ==> call_ensures(
            S::on_pause_check,
            (service,),
            r,
        ),
        hook_of(service.view_service().action) == Some(Hook::OnDelete) ==> call_ensures(
            S::on_delete_check,
            (service,),
            r,
        ),
        hook_of(service.view_service().action) is None ==> r is Ok,
{
    match lifecycle_hook(service.action()) {
        Some(Hook::OnCreate) => service.on_create_check(),
        Some(Hook::OnPause) => service.on_pause_check(),
        Some(Hook::OnDelete) => service.on_delete_check(),
        None => Ok(()),
    }
}

/// A router: a stateless service released as a chart, which may serve the
/// user's own domains besides the generated one.
pub trait RouterService: StatelessService + Helm {
    fn has_custom_domains(&self) -> bool;
}

/// The kind of a pipeline check, for progress reporting.
#[derive(Clone, Copy, Debug, PartialEq, Eq, Structural)]
pub enum CheckAction {
    Deploy,
    Pause,
    Delete,
}

/// The database engines.
#[derive(Clone, Copy, Debug, PartialEq, Eq, Structural)]
pub enum DatabaseType {
    PostgreSQL,
    MongoDB,
    MySQL,
    Redis,
}

pub open spec fn database_type_name(t: DatabaseType) -> Seq<char> {
    match t {
        DatabaseType::PostgreSQL => "PostgreSQL"@,
        DatabaseType::MongoDB => "MongoDB"@,
        DatabaseType::MySQL => "MySQL"@,
        DatabaseType::Redis => "Redis"@,
    }
}

impl DatabaseType {
    pub fn to_string(&self) -> (r: String)
        ensures
            r@ == database_type_name(*self),
    {
        match self {
            DatabaseType::PostgreSQL => String::from_str("PostgreSQL"),
            DatabaseType::MongoDB => String::from_str("MongoDB"),
            DatabaseType::MySQL => String::from_str("MySQL"),
            DatabaseType::Redis => String::from_str("Redis"),
        }
    }
}

/// The kinds of deployable services.
#[derive(Clone, Copy, Debug, PartialEq, Eq, Structural)]
pub enum ServiceType {
    Application,
    Database(DatabaseType),
    Router,
}

pub open spec fn service_type_name(t: ServiceType) -> Seq<char> {
    match t {
        ServiceType::Application => "Application"@,
        ServiceType::Database(db) => database_type_name(db) + " database"@,
        ServiceType::Router => "Router"@,
    }
}

impl ServiceType {
    pub fn name(&self) -> (r: String)
        ensures
            r@ == service_type_name(*self),
    {
        match self {
            ServiceType::Application => String::from_str("Application"),
            ServiceType::Database(db_type) => db_type.to_string().concat(" database"),
            ServiceType::Router => String::from_str("Router"),
        }
    }

    pub fn to_string(&self) -> (r: String)
        ensures
            r@ == service_type_name(*self),
    {
        self.name()
    }
}

/// The domain name under which a service is reached: the given fallback when
/// it is publicly accessible, else its in-cluster name.
pub open spec fn fqdn_of(
    publicly_accessible: bool,
    is_managed: bool,
    id: Seq<char>,
    sanitized_name: Seq<char>,
    namespace: Seq<char>,
    fallback: Seq<char>,
) -> Seq<char> {
    if publicly_accessible {
        fallback
    } else if is_managed {
        id + "-dns."@ + namespace + ".svc.cluster.local"@
    } else {
        sanitized_name + "."@ + namespace + ".svc.cluster.local"@
    }
}

pub fn fqdn(
    publicly_accessible: bool,
    is_managed: bool,
    id: &str,
    sanitized_name: &str,
    namespace: &str,
    fallback: &str,
) -> (r: String)
    ensures
        r@ == fqdn_of(publicly_accessible, is_managed, id@, sanitized_name@, namespace@, fallback@),
{
    if publicly_accessible {
        String::from_str(fallback)
    } else if is_managed {
        String::from_str(id).concat("-dns.").concat(namespace).concat(".svc.cluster.local")
    } else {
        String::from_str(sanitized_name).concat(".").concat(namespace).concat(".svc.cluster.local")
    }
}

/// The scope of a progress event: the kind of service and its identifier.
pub enum ProgressScope {
    Application { id: String },
    Database { id: String },
    Router { id: String },
}

pub fn progress_scope(service_type: ServiceType, id: &str) -> (r: ProgressScope)
    ensures
        service_type is Application <==> r is Application,
        service_type is Database <==> r is Database,
        service_type is Router <==> r is Router,
        r matches ProgressScope::Application { id: i } ==> i@ == id@,
        r matches ProgressScope::Database { id: i } ==> i@ == id@,
        r matches ProgressScope::Router { id: i } ==> i@ == id@,
{
    let id = String::from_str(id);
    match service_type {
        ServiceType::Application => ProgressScope::Application { id },
        ServiceType::Database(_) => ProgressScope::Database { id },
        ServiceType::Router => ProgressScope::Router { id },
    }
}

/// The directory, under an execution's workspace, of a service of a kind.
pub open spec fn workspace_subpath(service_type: ServiceType, name: Seq<char>) -> Seq<char> {
    match service_type {
        ServiceType::Application => "applications/"@ + name,
        ServiceType::Database(_) => "databases/"@ + name,
        ServiceType::Router => "routers/"@ + name,
    }
}

/// The scratch directory of a service in one execution: keyed by the
/// execution, then by the kind and name of the service.
pub open spec fn service_workspace_path(
    root: Seq<char>,
    execution_id: Seq<char>,
    service_type: ServiceType,
    name: Seq<char>,
) -> Seq<char> {
    root + "/"@ + execution_id + "/"@ + workspace_subpath(service_type, name)
}

pub fn service_workspace_directory(root: &str, execution_id: &str, service_type: ServiceType, name: &str) -> (r:
    String)
    ensures
        r@ == service_workspace_path(root@, execution_id@, service_type, name@),
{
    let dir_root = match service_type {
        ServiceType::Application => "applications/",
        ServiceType::Database(_) => "databases/",
        ServiceType::Router => "routers/",
    };
    String::from_str(root).concat("/").concat(execution_id).concat("/").concat(dir_root).concat(name)
}

/// A service's name with its identifier, as shown in messages.
pub open spec fn name_with_id_text(name: Seq<char>, id: Seq<char>) -> Seq<char> {
    name + " ("@ + id + ")"@
}

pub fn name_with_id(name: &str, id: &str) -> (r: String)
    ensures
        r@ == name_with_id_text(name@, id@),
{
    String::from_str(name).concat(" (").concat(id).concat(")")
}

/// The suffix of the secret that holds a service's infrastructure state.
pub fn get_tfstate_suffix(id: &str) -> (r: String)
    ensures
        r@ == id@,
{
    String::from_str(id)
}

pub open spec fn tfstate_name(id: Seq<char>) -> Seq<char> {
    "tfstate-default-"@ + id
}

/// The name of the secret that holds a service's infrastructure state.
pub fn get_tfstate_name(id: &str) -> (r: String)
    ensures
        r@ == tfstate_name(id@),
{
    String::from_str("tfstate-default-").concat(id)
}

/// The outcome of resolving a requested version: what was asked, what was
/// found, and a note when the two differ.
pub struct ServiceVersionCheckResult {
    requested_version: String,
    matched_version: String,
    message: Option<String>,
}

/// The view of an optional text.
pub open spec fn opt_view(o: Option<String>) -> Option<Seq<char>> {
    match o {
        Some(s) => Some(s@),
        None => None,
    }
}

impl ServiceVersionCheckResult {
    pub fn new(requested_version: String, matched_version: String, message: Option<String>) -> (r: Self)
        ensures
            r.spec_requested_version() == requested_version@,
            r.spec_matched_version() == matched_version@,
            r.spec_message() == opt_view(message),
    {
        ServiceVersionCheckResult { requested_version, matched_version, message }
    }

    pub closed spec fn spec_requested_version(&self) -> Seq<char> {
        self.requested_version@
    }

    pub closed spec fn spec_matched_version(&self) -> Seq<char> {
        self.matched_version@
    }

    pub closed spec fn spec_message(&self) -> Option<Seq<char>> {
        opt_view(self.message)
    }

    pub fn matched_version(&self) -> (r: String)
        ensures
            r@ == self.spec_matched_version(),
    {
        self.matched_version.clone()
    }

    pub fn requested_version(&self) -> (r: &String)
        ensures
            r@ == self.spec_requested_version(),
    {
        &self.requested_version
    }

    pub fn message(&self) -> (r: Option<String>)
        ensures
            opt_view(r) == self.spec_message(),
    {
        match &self.message {
            Some(m) => Some(m.clone()),
            None => None,
        }
    }
}

/// The note given when the resolved version differs from the requested one.
pub open spec fn version_mismatch_message(kind_name: Seq<char>, requested: Seq<char>, matched: Seq<char>) -> Seq<char> {
    kind_name + " version `"@ + requested + "` has been requested by the user; but matching version is `"@
        + matched + "`"@
}

pub open spec fn unsupported_version_message(kind_name: Seq<char>, requested: Seq<char>) -> Seq<char> {
    kind_name + " version "@ + requested + " is not supported!"@
}

/// The notices of a version check, in order. A version found as asked gives
/// none; another version found is reported in progress, to the log and to the
/// listeners; a refused version is reported as a deployment error to the
/// listeners, then to the log, before the error is returned.
pub open spec fn version_check_notifications(
    result: Result<String, CommandError>,
    service_type: ServiceType,
    requested: Seq<char>,
) -> Seq<NotificationView> {
    match result {
        Ok(v) => if v@ == requested {
            Seq::empty()
        } else {
            let m = version_mismatch_message(service_type_name(service_type), requested, v@);
            seq![
                NotificationView::Log { level: ProgressLevel::Info, message: m },
                NotificationView::Progress {
                    event: ProgressEvent::DeploymentInProgress,
                    level: ProgressLevel::Info,
                    message: m,
                },
            ]
        },
        Err(_) => {
            let m = unsupported_version_message(service_type_name(service_type), requested);
            seq![
                NotificationView::Progress {
                    event: ProgressEvent::DeploymentError,
                    level: ProgressLevel::Error,
                    message: m,
                },
                NotificationView::Log { level: ProgressLevel::Error, message: m },
            ]
        },
    }
}

/// Decides the outcome of a version check from the version that the
/// allow-list resolved for the request, or its refusal, with the notices to
/// send first.
pub fn check_service_version(
    result: Result<String, CommandError>,
    service_type: ServiceType,
    requested_version: &str,
    event_details: EventDetails,
) -> (r: (Vec<Notification>, Result<ServiceVersionCheckResult, EngineError>))
    ensures
        notifications_view(r.0@) == version_check_notifications(result, service_type, requested_version@),
        result is Err <==> r.1 is Err,
        result matches Ok(v) ==> {
            let c = r.1->Ok_0;
            &&& c.spec_requested_version() == requested_version@
            &&& c.spec_matched_version() == v@
            &&& c.spec_message() == if v@ == requested_version@ {
                None
            } else {
                Some(version_mismatch_message(service_type_name(service_type), requested_version@, v@))
            }
        },
        result is Err ==> {
            let e = r.1->Err_0;
            &&& e.tag == Tag::UnsupportedVersion
            &&& e.event_details == event_details
            &&& e.user_log_message@ == unsupported_version_message(service_type_name(service_type), requested_version@)
            &&& e.underlying_error is None
        },
{
    let ghost given = result;
    match result {
        Ok(version) => {
            let requested = String::from_str(requested_version);
            let mut notes: Vec<Notification> = Vec::new();
            let message = if requested.eq(&version) {
                None
            } else {
                let m = service_type.name().concat(" version `").concat(requested_version).concat(
                    "` has been requested by the user; but matching version is `",
                ).concat(version.as_str()).concat("`");
                notes.push(Notification::Log { level: ProgressLevel::Info, message: m.clone() });
                notes.push(
                    Notification::Progress {
                        event: ProgressEvent::DeploymentInProgress,
                        level: ProgressLevel::Info,
                        message: m.clone(),
                    },
                );
                Some(m)
            };
            proof {
                assert(notifications_view(notes@) =~= version_check_notifications(
                    given,
                    service_type,
                    requested_version@,
                ));
            }
            (notes, Ok(ServiceVersionCheckResult::new(requested, version, message)))
        },
        Err(_) => {
            let message = service_type.name().concat(" version ").concat(requested_version).concat(
                " is not supported!",
            );
            let notes = vec![
                Notification::Progress {
                    event: ProgressEvent::DeploymentError,
                    level: ProgressLevel::Error,
                    message: message.clone(),
                },
                Notification::Log { level: ProgressLevel::Error, message: message.clone() },
            ];
            proof {
                assert(notifications_view(notes@) =~= version_check_notifications(
                    given,
                    service_type,
                    requested_version@,
                ));
            }
            (notes, Err(EngineError::new(Tag::UnsupportedVersion, event_details, message, None)))
        },
    }
}

/// The listener notifications of a pipeline.
#[derive(Clone, Copy, Debug, PartialEq, Eq, Structural)]
pub enum ProgressEvent {
    DeploymentInProgress,
    DeploymentError,
    PauseInProgress,
    PauseError,
    DeleteInProgress,
    DeleteError,
}

/// The notification that reports on a check: the in-progress one of its kind,
/// or the error one once it failed.
pub open spec fn progress_event_of(action: CheckAction, failed: bool) -> ProgressEvent {
    match action {
        CheckAction::Deploy => if failed { ProgressEvent::DeploymentError } else { ProgressEvent::DeploymentInProgress },
        CheckAction::Pause => if failed { ProgressEvent::PauseError } else { ProgressEvent::PauseInProgress },
        CheckAction::Delete => if failed { ProgressEvent::DeleteError } else { ProgressEvent::DeleteInProgress },
    }
}

pub fn progress_event(action: CheckAction, failed: bool) -> (r: ProgressEvent)
    ensures
        r == progress_event_of(action, failed),
{
    match action {
        CheckAction::Deploy => if failed { ProgressEvent::DeploymentError } else { ProgressEvent::DeploymentInProgress },
        CheckAction::Pause => if failed { ProgressEvent::PauseError } else { ProgressEvent::PauseInProgress },
        CheckAction::Delete => if failed { ProgressEvent::DeleteError } else { ProgressEvent::DeleteInProgress },
    }
}

/// The progress note sent when a pipeline starts on a service.
pub open spec fn check_start_message(action_verb: Seq<char>, service_type: ServiceType, name: Seq<char>) -> Seq<char> {
    action_verb + " "@ + lowercase_of(service_type_name(service_type)) + " "@ + name
}

pub fn service_check_start_message(action_verb: &str, service_type: ServiceType, name: &str) -> (r: String)
    ensures
        r@ == check_start_message(action_verb@, service_type, name@),
{
    let kind_name = service_type.name();
    let lower = to_lowercase(kind_name.as_str());
    String::from_str(action_verb).concat(" ").concat(lower.as_str()).concat(" ").concat(name)
}

/// The debug evidence as one text: the collected lines, or a placeholder when
/// nothing could be collected.
pub open spec fn debug_logs_text(lines: Seq<Seq<char>>) -> Seq<char> {
    if lines.len() == 0 {
        "<no debug logs>"@
    } else {
        join_lines(lines)
    }
}

pub fn debug_logs_message(lines: &Vec<String>) -> (r: String)
    ensures
        r@ == debug_logs_text(strings_view(lines@)),
{
    if lines.len() == 0 {
        String::from_str("<no debug logs>")
    } else {
        crate::text::join_with_newline(lines)
    }
}

/// The underlying failure of an error, or an empty one.
pub open spec fn underlying_or_empty(e: EngineError) -> (Seq<char>, Option<String>) {
    match e.underlying_error {
        Some(u) => (u.message_safe@, u.full_details),
        None => (Seq::empty(), None),
    }
}

/// The level of a notification.
#[derive(Clone, Copy, Debug, PartialEq, Eq, Structural)]
pub enum ProgressLevel {
    Info,
    Error,
    Debug,
}

/// One notification of a check, in the order it is sent: to the progress
/// listeners, or to the log.
pub enum Notification {
    Progress { event: ProgressEvent, level: ProgressLevel, message: String },
    Log { level: ProgressLevel, message: String },
}

pub enum NotificationView {
    Progress { event: ProgressEvent, level: ProgressLevel, message: Seq<char> },
    Log { level: ProgressLevel, message: Seq<char> },
}

impl View for Notification {
    type V = NotificationView;

    open spec fn view(&self) -> NotificationView {
        match self {
            Notification::Progress { event, level, message } => NotificationView::Progress {
                event: *event,
                level: *level,
                message: message@,
            },
            Notification::Log { level, message } => NotificationView::Log { level: *level, message: message@ },
        }
    }
}

pub open spec fn notifications_view(v: Seq<Notification>) -> Seq<NotificationView> {
    v.map_values(|n: Notification| n@)
}

/// The notifications of a check on a service. It starts with an in-progress
/// notice of the check's kind, sent to the listeners and the log. On success a
/// second in-progress notice says so. On failure the log gets the error, the
/// listeners an error notice with the error's safe message, then the collected
/// evidence goes to the log and, as a second error notice, to the listeners.
pub open spec fn check_notifications(
    action: CheckAction,
    action_verb: Seq<char>,
    service_type: ServiceType,
    name: Seq<char>,
    id: Seq<char>,
    result: Result<(), EngineError>,
    debug_lines: Seq<Seq<char>>,
) -> Seq<NotificationView> {
    let lower = lowercase_of(service_type_name(service_type));
    let start = check_start_message(action_verb, service_type, name);
    let head = seq![
        NotificationView::Progress {
            event: progress_event_of(action, false),
            level: ProgressLevel::Info,
            message: start,
        },
        NotificationView::Log { level: ProgressLevel::Info, message: start },
    ];
    match result {
        Ok(_) => head + seq![
            NotificationView::Progress {
                event: progress_event_of(action, false),
                level: ProgressLevel::Info,
                message: action_verb + " succeeded for "@ + lower + " "@ + name,
            },
        ],
        Err(e) => head + seq![
            NotificationView::Log {
                level: ProgressLevel::Error,
                message: action_verb + " error with "@ + service_type_name(service_type) + " "@ + name + " , id: "@
                    + id,
            },
            NotificationView::Progress {
                event: progress_event_of(action, true),
                level: ProgressLevel::Error,
                message: action_verb + " error "@ + lower + " "@ + name + " : error => "@ + e.user_log_message@,
            },
            NotificationView::Log { level: ProgressLevel::Debug, message: debug_logs_text(debug_lines) },
            NotificationView::Progress {
                event: progress_event_of(action, true),
                level: ProgressLevel::Debug,
                message: debug_logs_text(debug_lines),
            },
        ],
    }
}

/// Ends a check on a service: the notifications to send, in order, and the
/// final outcome. Success stays success; a failure becomes a service issue
/// that keeps the underlying command failure. The evidence lines are read only
/// on failure.
pub fn check_kubernetes_service_error(
    result: Result<(), EngineError>,
    event_details: EventDetails,
    action: CheckAction,
    action_verb: &str,
    service_type: ServiceType,
    name: &str,
    id: &str,
    debug_lines: &Vec<String>,
) -> (r: (Vec<Notification>, Result<(), EngineError>))
    ensures
        notifications_view(r.0@) == check_notifications(
            action,
            action_verb@,
            service_type,
            name@,
            id@,
            result,
            strings_view(debug_lines@),
        ),
        result is Ok <==> r.1 is Ok,
        result matches Err(e) ==> {
            let out = r.1->Err_0;
            &&& out.tag == Tag::K8sServiceError
            &&& out.event_details == event_details
            &&& out.underlying_error is Some
            &&& out.underlying_error->0.message_safe@ == underlying_or_empty(e).0
            &&& out.underlying_error->0.full_details == underlying_or_empty(e).1
        },
{
    let start = service_check_start_message(action_verb, service_type, name);
    let lower = to_lowercase(service_type.name().as_str());
    let mut notes = vec![
        Notification::Progress {
            event: progress_event(action, false),
            level: ProgressLevel::Info,
            message: start.clone(),
        },
        Notification::Log { level: ProgressLevel::Info, message: start },
    ];
    let ghost head = notes@;
    match result {
        Ok(()) => {
            let message = String::from_str(action_verb).concat(" succeeded for ").concat(lower.as_str()).concat(
                " ",
            ).concat(name);
            notes.push(
                Notification::Progress { event: progress_event(action, false), level: ProgressLevel::Info, message },
            );
            proof {
                assert(notifications_view(notes@) =~= check_notifications(
                    action,
                    action_verb@,
                    service_type,
                    name@,
                    id@,
                    result,
                    strings_view(debug_lines@),
                ));
            }
            (notes, Ok(()))
        },
        Err(err) => {
            let log_message = String::from_str(action_verb).concat(" error with ").concat(
                service_type.name().as_str(),
            ).concat(" ").concat(name).concat(" , id: ").concat(id);
            let error_message = String::from_str(action_verb).concat(" error ").concat(lower.as_str()).concat(
                " ",
            ).concat(name).concat(" : error => ").concat(err.user_log_message.as_str());
            let evidence = debug_logs_message(debug_lines);
            notes.push(Notification::Log { level: ProgressLevel::Error, message: log_message });
            notes.push(
                Notification::Progress {
                    event: progress_event(action, true),
                    level: ProgressLevel::Error,
                    message: error_message,
                },
            );
            notes.push(Notification::Log { level: ProgressLevel::Debug, message: evidence.clone() });
            notes.push(
                Notification::Progress {
                    event: progress_event(action, true),
                    level: ProgressLevel::Debug,
                    message: evidence,
                },
            );
            proof {
                assert(notifications_view(notes@) =~= check_notifications(
                    action,
                    action_verb@,
                    service_type,
                    name@,
                    id@,
                    result,
                    strings_view(debug_lines@),
                ));
            }
            let underlying = match err.underlying_error() {
                Some(u) => u,
                None => CommandError::new(String::new(), None),
            };
            let message = String::from_str("Kubernetes service issue: ").concat(underlying.message_safe.as_str());
            (notes, Err(EngineError::new(Tag::K8sServiceError, event_details, message, Some(underlying))))
        },
    }
}

/// The log line written when the evidence could not be collected.
pub open spec fn debug_logs_failure_message(service_type: ServiceType, name: Seq<char>, id: Seq<char>) -> Seq<char> {
    "error while retrieving debug logs from "@ + service_type_name(service_type) + " "@ + name_with_id_text(name, id)
}

/// The evidence, or no line when it could not be collected; in that case
/// also the log line that says so.
pub fn debug_logs(
    collected: Result<Vec<String>, EngineError>,
    service_type: ServiceType,
    name: &str,
    id: &str,
) -> (r: (Vec<String>, Option<String>))
    ensures
        collected matches Ok(lines) ==> r.0 == lines && r.1 is None,
        collected is Err ==> r.0@.len() == 0 && opt_view(r.1) == Some(
            debug_logs_failure_message(service_type, name@, id@),
        ),
{
    match collected {
        Ok(lines) => (lines, None),
        Err(_) => {
            let message = String::from_str("error while retrieving debug logs from ").concat(
                service_type.name().as_str(),
            ).concat(" ").concat(name_with_id(name, id).as_str());
            (Vec::new(), Some(message))
        },
    }
}

/// The domains a database has checked: only those of a publicly accessible
/// one.
pub fn database_domains_to_check(publicly_accessible: bool, domains: Vec<String>) -> (r: Vec<String>)
    ensures
        publicly_accessible ==> r == domains,
        !publicly_accessible ==> r@.len() == 0,
{
    if publicly_accessible {
        domains
    } else {
        Vec::new()
    }
}

} // verus!
