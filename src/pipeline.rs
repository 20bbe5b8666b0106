//! The deployment orchestrator. Each pipeline is planned as an ordered list
//! of steps that the caller performs against its collaborators; the library
//! also decides what a failed step becomes and what follows an infrastructure
//! apply.

use vstd::prelude::*;

use crate::errors::{CommandError, EngineError, EventDetails, Tag};
use crate::service::{
    get_tfstate_name, opt_view, service_type_name, tfstate_name, DatabaseService, DeploymentTarget, Helm, HelmView,
    Service, ServiceType, ServiceView, Terraform, TerraformView,
};
use crate::text::{bool_text, decimal, strings_view, to_bool_text, to_decimal};

verus! {

/// Per-engine cluster policies and settings that the pipelines read.
pub struct ClusterAdvancedSettings {
    pub database_postgresql_deny_public_access: bool,
    pub database_mongodb_deny_public_access: bool,
    pub database_mysql_deny_public_access: bool,
    pub database_redis_deny_public_access: bool,
    pub pleco_resources_ttl: i32,
}

/// The target cluster.
pub struct Cluster {
    pub id: String,
    pub name: String,
    pub region: String,
    pub zone: String,
    pub kubeconfig_path: String,
    pub advanced_settings: ClusterAdvancedSettings,
}

/// The target environment.
pub struct Environment {
    pub id: String,
    pub long_id: String,
    pub project_id: String,
    pub project_long_id: String,
    pub organization_id: String,
    pub organization_long_id: String,
    pub owner_id: String,
    pub namespace: String,
}

/// Cloud providers.
#[derive(Clone, Copy, Debug, PartialEq, Eq, Hash, Structural)]
pub enum Kind {
    Aws,
    Scw,
    Gcp,
}

/// The cloud provider of the target, with the variables it gives to templates.
pub struct CloudProviderInfo {
    pub kind: Kind,
    pub lib_directory_name: String,
    pub tera_context_environment_variables: Vec<(String, String)>,
}

/// The execution that drives a pipeline.
pub struct ExecutionContext {
    pub execution_id: String,
    pub workspace_root_dir: String,
    pub lib_root_dir: String,
    pub resource_expiration_in_seconds: Option<u32>,
    pub is_dry_run_deploy: bool,
}

/// A label set on a namespace.
pub struct Label {
    pub name: String,
    pub value: String,
}

/// A key/value override handed to a chart.
pub struct ChartSetValue {
    pub key: String,
    pub value: String,
}

/// One release of a chart.
pub struct ChartInfo {
    pub name: String,
    pub path: String,
    pub namespace: String,
    pub timeout_in_seconds: i64,
    pub values_files: Vec<String>,
    pub values: Vec<ChartSetValue>,
    pub atomic: bool,
    pub selector: Option<String>,
}

/// The kinds of workload that can be scaled.
#[derive(Clone, Copy, Debug, PartialEq, Eq, Structural)]
pub enum ScalingKind {
    Deployment,
    Statefulset,
}

/// One step of a pipeline, performed by the caller against the cluster, the
/// chart manager, the infrastructure manager or the template renderer.
pub enum Step {
    /// Render a directory of templates into another one.
    RenderTemplates { source_dir: String, target_dir: String },
    /// Create the namespace unless it exists.
    CreateNamespace { namespace: String, labels: Option<Vec<Label>> },
    /// Install or upgrade a release.
    HelmUpgrade { chart: ChartInfo },
    /// Delete the pods of the selector that are stuck in `Pending`.
    DeletePendingPods { namespace: String, selector: String },
    /// Wait, with retries, until the pods of the selector are ready.
    WaitPodsReady { namespace: String, selector: String, timeout_in_seconds: i64 },
    /// Init, validate, plan and apply the modules of a directory.
    TerraformApply { dir: String, dry_run: bool },
    /// Read the generated endpoint description and, when there is one, install
    /// the proxy chart of the directory.
    DeployExternalName { config_file: String, chart_dir: String },
    /// Init, validate and destroy the modules of a directory.
    TerraformDestroy { dir: String },
    /// Delete the secret that holds the infrastructure state; a failure is
    /// tolerated.
    DeleteTfstateSecret { namespace: String, secret_name: String },
    /// Uninstall a release.
    HelmUninstall { release_name: String, namespace: String },
    /// Set the replica count of the workloads of the selector.
    ScaleReplicas { namespace: String, kind: ScalingKind, selector: String, replicas: u32 },
}

pub struct ChartView {
    pub name: Seq<char>,
    pub path: Seq<char>,
    pub namespace: Seq<char>,
    pub timeout_in_seconds: i64,
    pub values_files: Seq<Seq<char>>,
    pub values: Seq<(Seq<char>, Seq<char>)>,
    pub atomic: bool,
    pub selector: Option<Seq<char>>,
}

pub enum StepView {
    RenderTemplates { source_dir: Seq<char>, target_dir: Seq<char> },
    CreateNamespace { namespace: Seq<char>, labels: Option<Seq<(Seq<char>, Seq<char>)>> },
    HelmUpgrade { chart: ChartView },
    DeletePendingPods { namespace: Seq<char>, selector: Seq<char> },
    WaitPodsReady { namespace: Seq<char>, selector: Seq<char>, timeout_in_seconds: i64 },
    TerraformApply { dir: Seq<char>, dry_run: bool },
    DeployExternalName { config_file: Seq<char>, chart_dir: Seq<char> },
    TerraformDestroy { dir: Seq<char> },
    DeleteTfstateSecret { namespace: Seq<char>, secret_name: Seq<char> },
    HelmUninstall { release_name: Seq<char>, namespace: Seq<char> },
    ScaleReplicas { namespace: Seq<char>, kind: ScalingKind, selector: Seq<char>, replicas: u32 },
}

impl View for Label {
    type V = (Seq<char>, Seq<char>);

    open spec fn view(&self) -> (Seq<char>, Seq<char>) {
        (self.name@, self.value@)
    }
}

impl View for ChartSetValue {
    type V = (Seq<char>, Seq<char>);

    open spec fn view(&self) -> (Seq<char>, Seq<char>) {
        (self.key@, self.value@)
    }
}

pub open spec fn labels_view(labels: Option<Vec<Label>>) -> Option<Seq<(Seq<char>, Seq<char>)>> {
    match labels {
        Some(v) => Some(v@.map_values(|l: Label| l@)),
        None => None,
    }
}

impl View for ChartInfo {
    type V = ChartView;

    open spec fn view(&self) -> ChartView {
        ChartView {
            name: self.name@,
            path: self.path@,
            namespace: self.namespace@,
            timeout_in_seconds: self.timeout_in_seconds,
            values_files: strings_view(self.values_files@),
            values: self.values@.map_values(|c: ChartSetValue| c@),
            atomic: self.atomic,
            selector: opt_view(self.selector),
        }
    }
}

impl View for Step {
    type V = StepView;

    open spec fn view(&self) -> StepView {
        match self {
            Step::RenderTemplates { source_dir, target_dir } => StepView::RenderTemplates {
                source_dir: source_dir@,
                target_dir: target_dir@,
            },
            Step::CreateNamespace { namespace, labels } => StepView::CreateNamespace {
                namespace: namespace@,
                labels: labels_view(*labels),
            },
            Step::HelmUpgrade { chart } => StepView::HelmUpgrade { chart: chart@ },
            Step::DeletePendingPods { namespace, selector } => StepView::DeletePendingPods {
                namespace: namespace@,
                selector: selector@,
            },
            Step::WaitPodsReady { namespace, selector, timeout_in_seconds } => StepView::WaitPodsReady {
                namespace: namespace@,
                selector: selector@,
                timeout_in_seconds: *timeout_in_seconds,
            },
            Step::TerraformApply { dir, dry_run } => StepView::TerraformApply { dir: dir@, dry_run: *dry_run },
            Step::DeployExternalName { config_file, chart_dir } => StepView::DeployExternalName {
                config_file: config_file@,
                chart_dir: chart_dir@,
            },
            Step::TerraformDestroy { dir } => StepView::TerraformDestroy { dir: dir@ },
            Step::DeleteTfstateSecret { namespace, secret_name } => StepView::DeleteTfstateSecret {
                namespace: namespace@,
                secret_name: secret_name@,
            },
            Step::HelmUninstall { release_name, namespace } => StepView::HelmUninstall {
                release_name: release_name@,
                namespace: namespace@,
            },
            Step::ScaleReplicas { namespace, kind, selector, replicas } => StepView::ScaleReplicas {
                namespace: namespace@,
                kind: *kind,
                selector: selector@,
                replicas: *replicas,
            },
        }
    }
}

pub open spec fn steps_view(steps: Seq<Step>) -> Seq<StepView> {
    steps.map_values(|s: Step| s@)
}

/// How long the readiness of a release is waited for, in seconds.
pub const READINESS_TIMEOUT_IN_SECONDS: i64 = 600;

/// The labels put on a namespace: a `ttl` label when the execution declares
/// an expiration.
pub open spec fn namespace_labels_view(expiration: Option<u32>) -> Option<Seq<(Seq<char>, Seq<char>)>> {
    match expiration {
        Some(ttl) => Some(seq![("ttl"@, decimal(ttl as nat))]),
        None => None,
    }
}

pub fn namespace_labels(resource_expiration_in_seconds: Option<u32>) -> (r: Option<Vec<Label>>)
    ensures
        labels_view(r) == namespace_labels_view(resource_expiration_in_seconds),
{
    match resource_expiration_in_seconds {
        Some(ttl) => {
            let label = Label { name: String::from_str("ttl"), value: to_decimal(ttl as u64) };
            let labels = vec![label];
            proof {
                assert(labels@.map_values(|l: Label| l@) =~= seq![("ttl"@, decimal(ttl as nat))]);
            }
            Some(labels)
        },
        None => None,
    }
}

/// `dir` followed by `/` and `name`.
pub open spec fn path_join(dir: Seq<char>, name: Seq<char>) -> Seq<char> {
    dir + "/"@ + name
}

pub fn join_path(dir: &str, name: &str) -> (r: String)
    ensures
        r@ == path_join(dir@, name@),
{
    String::from_str(dir).concat("/").concat(name)
}

pub open spec fn selector_or_empty(selector: Option<Seq<char>>) -> Seq<char> {
    match selector {
        Some(s) => s,
        None => Seq::empty(),
    }
}

fn unwrap_selector(selector: Option<String>) -> (r: String)
    ensures
        r@ == selector_or_empty(opt_view(selector)),
{
    match selector {
        Some(s) => s,
        None => String::new(),
    }
}

/// The value files handed to a release: a database release also reads the
/// overrides rendered into its workspace.
pub open spec fn release_values_files(service_type: ServiceType, workspace: Seq<char>) -> Seq<Seq<char>> {
    match service_type {
        ServiceType::Database(_) => seq![path_join(workspace, "q-values.yaml"@)],
        _ => Seq::empty(),
    }
}

pub open spec fn release_chart(
    service: ServiceView,
    release_name: Seq<char>,
    namespace: Seq<char>,
) -> ChartView {
    ChartView {
        name: release_name,
        path: service.workspace_directory,
        namespace,
        timeout_in_seconds: READINESS_TIMEOUT_IN_SECONDS,
        values_files: release_values_files(service.service_type, service.workspace_directory),
        values: Seq::empty(),
        atomic: true,
        selector: service.selector,
    }
}

/// Ensure the namespace, upgrade the release, collect pending pods, wait for
/// readiness: the tail shared by every Helm-deployed workload.
pub open spec fn release_steps(
    service: ServiceView,
    release_name: Seq<char>,
    namespace: Seq<char>,
    expiration: Option<u32>,
) -> Seq<StepView> {
    seq![
        StepView::CreateNamespace { namespace, labels: namespace_labels_view(expiration) },
        StepView::HelmUpgrade { chart: release_chart(service, release_name, namespace) },
        StepView::DeletePendingPods { namespace, selector: selector_or_empty(service.selector) },
        StepView::WaitPodsReady {
            namespace,
            selector: selector_or_empty(service.selector),
            timeout_in_seconds: READINESS_TIMEOUT_IN_SECONDS,
        },
    ]
}

fn release_plan<T: Service + Helm>(service: &T, namespace: &str, context: &ExecutionContext) -> (r: Vec<Step>)
    ensures
        steps_view(r@) == release_steps(
            service.view_service(),
            service.view_helm().release_name,
            namespace@,
            context.resource_expiration_in_seconds,
        ),
{
    let workspace_dir = service.workspace_directory();
    let values_files: Vec<String> = match service.service_type() {
        ServiceType::Database(_) => vec![join_path(workspace_dir.as_str(), "q-values.yaml")],
        _ => Vec::new(),
    };
    proof {
        assert(strings_view(values_files@) =~= release_values_files(
            service.view_service().service_type,
            workspace_dir@,
        ));
    }
    let values: Vec<ChartSetValue> = Vec::new();
    proof {
        assert(values@.map_values(|c: ChartSetValue| c@) =~= Seq::<(Seq<char>, Seq<char>)>::empty());
    }
    let chart = ChartInfo {
        name: service.helm_release_name(),
        path: workspace_dir,
        namespace: String::from_str(namespace),
        timeout_in_seconds: READINESS_TIMEOUT_IN_SECONDS,
        values_files,
        values,
        atomic: true,
        selector: service.selector(),
    };
    let steps = vec![
        Step::CreateNamespace {
            namespace: String::from_str(namespace),
            labels: namespace_labels(context.resource_expiration_in_seconds),
        },
        Step::HelmUpgrade { chart },
        Step::DeletePendingPods { namespace: String::from_str(namespace), selector: unwrap_selector(service.selector()) },
        Step::WaitPodsReady {
            namespace: String::from_str(namespace),
            selector: unwrap_selector(service.selector()),
            timeout_in_seconds: READINESS_TIMEOUT_IN_SECONDS,
        },
    ];
    proof {
        assert(steps_view(steps@) =~= release_steps(
            service.view_service(),
            service.view_helm().release_name,
            namespace@,
            context.resource_expiration_in_seconds,
        ));
    }
    steps
}

/// Render the chart into the workspace, then release it.
pub open spec fn stateless_deploy_steps(
    service: ServiceView,
    helm: HelmView,
    namespace: Seq<char>,
    expiration: Option<u32>,
) -> Seq<StepView> {
    seq![StepView::RenderTemplates { source_dir: helm.chart_dir, target_dir: service.workspace_directory }]
        + release_steps(service, helm.release_name, namespace, expiration)
}

/// The plan that deploys a stateless service.
pub fn deploy_stateless_service<T: Service + Helm>(
    target: &DeploymentTarget,
    service: &T,
    context: &ExecutionContext,
) -> (r: Vec<Step>)
    ensures
        steps_view(r@) == stateless_deploy_steps(
            service.view_service(),
            service.view_helm(),
            target.environment.namespace@,
            context.resource_expiration_in_seconds,
        ),
{
    let mut steps = vec![
        Step::RenderTemplates { source_dir: service.helm_chart_dir(), target_dir: service.workspace_directory() },
    ];
    let mut tail = release_plan(service, target.environment.namespace.as_str(), context);
    let ghost head = steps@;
    let ghost rest = tail@;
    steps.append(&mut tail);
    proof {
        assert(steps@ == head + rest);
        assert(steps_view(steps@) =~= steps_view(head) + steps_view(rest));
        assert(steps_view(steps@) =~= stateless_deploy_steps(
            service.view_service(),
            service.view_helm(),
            target.environment.namespace@,
            context.resource_expiration_in_seconds,
        ));
    }
    steps
}

/// The three template sets of a managed database: the shared infrastructure
/// module, the engine's module, and the proxy chart.
pub open spec fn managed_render_steps(service: ServiceView, helm: HelmView, terraform: TerraformView) -> Seq<
    StepView,
> {
    let ws = service.workspace_directory;
    seq![
        StepView::RenderTemplates { source_dir: terraform.common_resource_dir, target_dir: ws },
        StepView::RenderTemplates { source_dir: terraform.resource_dir, target_dir: ws },
        StepView::RenderTemplates {
            source_dir: helm.external_name_service_dir,
            target_dir: path_join(ws, "external-name-svc"@),
        },
    ]
}

/// Deploying a database: a managed one gets its modules applied and then its
/// proxy; a containerized one is rendered and released as a chart.
pub open spec fn stateful_deploy_steps(
    service: ServiceView,
    helm: HelmView,
    terraform: TerraformView,
    is_managed: bool,
    namespace: Seq<char>,
    expiration: Option<u32>,
    dry_run: bool,
) -> Seq<StepView> {
    let ws = service.workspace_directory;
    if is_managed {
        seq![StepView::CreateNamespace { namespace, labels: namespace_labels_view(expiration) }]
            + managed_render_steps(service, helm, terraform) + seq![
            StepView::TerraformApply { dir: ws, dry_run },
            StepView::DeployExternalName {
                config_file: path_join(ws, "database-tf-config.json"@),
                chart_dir: path_join(ws, "external-name-svc"@),
            },
        ]
    } else {
        seq![
            StepView::RenderTemplates { source_dir: helm.chart_dir, target_dir: ws },
            StepView::RenderTemplates { source_dir: helm.chart_values_dir, target_dir: ws },
        ] + release_steps(service, helm.release_name, namespace, expiration)
    }
}

fn managed_render_plan<T: Service + Helm + Terraform>(service: &T) -> (r: Vec<Step>)
    ensures
        steps_view(r@) == managed_render_steps(service.view_service(), service.view_helm(), service.view_terraform()),
{
    let workspace_dir = service.workspace_directory();
    let steps = vec![
        Step::RenderTemplates {
            source_dir: service.terraform_common_resource_dir_path(),
            target_dir: workspace_dir.clone(),
        },
        Step::RenderTemplates { source_dir: service.terraform_resource_dir_path(), target_dir: workspace_dir.clone() },
        Step::RenderTemplates {
            source_dir: service.helm_chart_external_name_service_dir(),
            target_dir: join_path(workspace_dir.as_str(), "external-name-svc"),
        },
    ];
    proof {
        assert(steps_view(steps@) =~= managed_render_steps(
            service.view_service(),
            service.view_helm(),
            service.view_terraform(),
        ));
    }
    steps
}

/// The plan that deploys a database.
pub fn deploy_stateful_service<T: DatabaseService + Helm + Terraform>(
    target: &DeploymentTarget,
    service: &T,
    context: &ExecutionContext,
) -> (r: Vec<Step>)
    ensures
        steps_view(r@) == stateful_deploy_steps(
            service.view_service(),
            service.view_helm(),
            service.view_terraform(),
            service.spec_is_managed(),
            target.environment.namespace@,
            context.resource_expiration_in_seconds,
            context.is_dry_run_deploy,
        ),
{
    let namespace = target.environment.namespace.as_str();
    let workspace_dir = service.workspace_directory();
    let mut steps: Vec<Step>;
    let mut tail: Vec<Step>;
    let mut last: Vec<Step>;
    if service.is_managed_service() {
        steps = vec![
            Step::CreateNamespace {
                namespace: String::from_str(namespace),
                labels: namespace_labels(context.resource_expiration_in_seconds),
            },
        ];
        tail = managed_render_plan(service);
        last = vec![
            Step::TerraformApply { dir: workspace_dir.clone(), dry_run: context.is_dry_run_deploy },
            Step::DeployExternalName {
                config_file: join_path(workspace_dir.as_str(), "database-tf-config.json"),
                chart_dir: join_path(workspace_dir.as_str(), "external-name-svc"),
            },
        ];
    } else {
        steps = vec![
            Step::RenderTemplates { source_dir: service.helm_chart_dir(), target_dir: workspace_dir.clone() },
            Step::RenderTemplates { source_dir: service.helm_chart_values_dir(), target_dir: workspace_dir.clone() },
        ];
        tail = release_plan(service, namespace, context);
        last = Vec::new();
    }
    let ghost (a, b, c) = (steps@, tail@, last@);
    steps.append(&mut tail);
    steps.append(&mut last);
    proof {
        assert(steps@ == a + b + c);
        assert(steps_view(steps@) =~= steps_view(a) + steps_view(b) + steps_view(c));
        assert(steps_view(steps@) =~= stateful_deploy_steps(
            service.view_service(),
            service.view_helm(),
            service.view_terraform(),
            service.spec_is_managed(),
            target.environment.namespace@,
            context.resource_expiration_in_seconds,
            context.is_dry_run_deploy,
        ));
    }
    steps
}

/// Deleting a database: a managed one re-renders the modules it was applied
/// with, destroys them, then drops the secret holding their state; a
/// containerized one is uninstalled.
pub open spec fn stateful_delete_steps(
    service: ServiceView,
    helm: HelmView,
    terraform: TerraformView,
    is_managed: bool,
    namespace: Seq<char>,
) -> Seq<StepView> {
    let ws = service.workspace_directory;
    if is_managed {
        managed_render_steps(service, helm, terraform) + seq![
            StepView::RenderTemplates { source_dir: helm.external_name_service_dir, target_dir: ws },
            StepView::TerraformDestroy { dir: ws },
            StepView::DeleteTfstateSecret { namespace, secret_name: tfstate_name(service.id) },
        ]
    } else {
        seq![StepView::HelmUninstall { release_name: helm.release_name, namespace }]
    }
}

/// The plan that deletes a database.
pub fn delete_stateful_service<T: DatabaseService + Helm + Terraform>(
    target: &DeploymentTarget,
    service: &T,
) -> (r: Vec<Step>)
    ensures
        steps_view(r@) == stateful_delete_steps(
            service.view_service(),
            service.view_helm(),
            service.view_terraform(),
            service.spec_is_managed(),
            target.environment.namespace@,
        ),
{
    let namespace = target.environment.namespace.as_str();
    if service.is_managed_service() {
        let workspace_dir = service.workspace_directory();
        let mut steps = managed_render_plan(service);
        let id = service.id();
        let mut last = vec![
            Step::RenderTemplates {
                source_dir: service.helm_chart_external_name_service_dir(),
                target_dir: workspace_dir.clone(),
            },
            Step::TerraformDestroy { dir: workspace_dir },
            Step::DeleteTfstateSecret { namespace: String::from_str(namespace), secret_name: get_tfstate_name(id.as_str()) },
        ];
        let ghost (a, b) = (steps@, last@);
        steps.append(&mut last);
        proof {
            assert(steps@ == a + b);
            assert(steps_view(steps@) =~= steps_view(a) + steps_view(b));
            assert(steps_view(steps@) =~= stateful_delete_steps(
                service.view_service(),
                service.view_helm(),
                service.view_terraform(),
                true,
                target.environment.namespace@,
            ));
        }
        steps
    } else {
        let steps = vec![helm_uninstall_release(target, service.helm_release_name().as_str())];
        proof {
            assert(steps_view(steps@) =~= stateful_delete_steps(
                service.view_service(),
                service.view_helm(),
                service.view_terraform(),
                false,
                target.environment.namespace@,
            ));
        }
        steps
    }
}

/// Deleting a managed database renders the same three template sets, from
/// the same sources into the same places, as deploying it did.
pub proof fn lemma_managed_delete_renders_as_deploy(
    service: ServiceView,
    helm: HelmView,
    terraform: TerraformView,
    namespace: Seq<char>,
    expiration: Option<u32>,
    dry_run: bool,
)
    ensures
        stateful_deploy_steps(service, helm, terraform, true, namespace, expiration, dry_run).subrange(1, 4)
            == managed_render_steps(service, helm, terraform),
        stateful_delete_steps(service, helm, terraform, true, namespace).subrange(0, 3) == managed_render_steps(
            service,
            helm,
            terraform,
        ),
{
    assert(stateful_deploy_steps(service, helm, terraform, true, namespace, expiration, dry_run).subrange(1, 4)
        =~= managed_render_steps(service, helm, terraform));
    assert(stateful_delete_steps(service, helm, terraform, true, namespace).subrange(0, 3)
        =~= managed_render_steps(service, helm, terraform));
}

/// The step that uninstalls a release from the environment's namespace.
pub fn helm_uninstall_release(target: &DeploymentTarget, helm_release_name: &str) -> (r: Step)
    ensures
        r@ == (StepView::HelmUninstall {
            release_name: helm_release_name@,
            namespace: target.environment.namespace@,
        }),
{
    Step::HelmUninstall {
        release_name: String::from_str(helm_release_name),
        namespace: target.environment.namespace.clone(),
    }
}

/// The step that deletes the secret holding a service's infrastructure state.
pub fn delete_terraform_tfstate_secret(target: &DeploymentTarget, secret_name: &str) -> (r: Step)
    ensures
        r@ == (StepView::DeleteTfstateSecret {
            namespace: target.environment.namespace@,
            secret_name: secret_name@,
        }),
{
    Step::DeleteTfstateSecret {
        namespace: target.environment.namespace.clone(),
        secret_name: String::from_str(secret_name),
    }
}

/// The plan that deploys a stateless service created by the user.
pub fn deploy_user_stateless_service<T: Service + Helm>(
    target: &DeploymentTarget,
    service: &T,
    context: &ExecutionContext,
) -> (r: Vec<Step>)
    ensures
        steps_view(r@) == stateless_deploy_steps(
            service.view_service(),
            service.view_helm(),
            target.environment.namespace@,
            context.resource_expiration_in_seconds,
        ),
{
    deploy_stateless_service(target, service, context)
}

/// What a failed stateless deployment still needs: nothing, since releases
/// are atomic and the chart manager rolls a failed one back by itself.
pub fn deploy_stateless_service_error<T: Service + Helm>(_target: &DeploymentTarget, _service: &T) -> (r: Result<
    (),
    EngineError,
>)
    ensures
        r is Ok,
{
    Ok(())
}

/// The plan that deletes a stateless service: uninstall its release.
pub fn delete_stateless_service<T: Service + Helm>(target: &DeploymentTarget, service: &T) -> (r: Vec<Step>)
    ensures
        steps_view(r@) == seq![
            StepView::HelmUninstall {
                release_name: service.view_helm().release_name,
                namespace: target.environment.namespace@,
            },
        ],
{
    let steps = vec![helm_uninstall_release(target, service.helm_release_name().as_str())];
    proof {
        assert(steps_view(steps@) =~= seq![
            StepView::HelmUninstall {
                release_name: service.view_helm().release_name,
                namespace: target.environment.namespace@,
            },
        ]);
    }
    steps
}

/// The step that scales a stateless service through its selector.
pub fn scale_down_application<T: Service>(
    target: &DeploymentTarget,
    service: &T,
    replicas_count: usize,
    scaling_kind: ScalingKind,
) -> (r: Step)
    requires
        replicas_count <= u32::MAX,
    ensures
        r@ == (StepView::ScaleReplicas {
            namespace: target.environment.namespace@,
            kind: scaling_kind,
            selector: selector_or_empty(service.view_service().selector),
            replicas: replicas_count as u32,
        }),
{
    Step::ScaleReplicas {
        namespace: target.environment.namespace.clone(),
        kind: scaling_kind,
        selector: unwrap_selector(service.selector()),
        replicas: replicas_count as u32,
    }
}

pub open spec fn database_selector(id: Seq<char>) -> Seq<char> {
    "databaseId="@ + id
}

/// The plan that scales a database: nothing for a managed one, whose
/// replicas the vendor controls; its stateful set otherwise.
pub fn scale_down_database<T: DatabaseService>(
    target: &DeploymentTarget,
    service: &T,
    replicas_count: usize,
) -> (r: Vec<Step>)
    requires
        replicas_count <= u32::MAX,
    ensures
        service.spec_is_managed() ==> r@.len() == 0,
        !service.spec_is_managed() ==> steps_view(r@) == seq![
            StepView::ScaleReplicas {
                namespace: target.environment.namespace@,
                kind: ScalingKind::Statefulset,
                selector: database_selector(service.view_service().id),
                replicas: replicas_count as u32,
            },
        ],
{
    if service.is_managed_service() {
        return Vec::new();
    }
    let id = service.id();
    let steps = vec![
        Step::ScaleReplicas {
            namespace: target.environment.namespace.clone(),
            kind: ScalingKind::Statefulset,
            selector: String::from_str("databaseId=").concat(id.as_str()),
            replicas: replicas_count as u32,
        },
    ];
    proof {
        assert(steps_view(steps@) =~= seq![
            StepView::ScaleReplicas {
                namespace: target.environment.namespace@,
                kind: ScalingKind::Statefulset,
                selector: database_selector(service.view_service().id),
                replicas: replicas_count as u32,
            },
        ]);
    }
    steps
}

/// `prefix` followed by `subject` between backquotes.
pub open spec fn quoted(prefix: Seq<char>, subject: Seq<char>) -> Seq<char> {
    prefix + "`"@ + subject + "`"@
}

pub(crate) fn quote(prefix: &str, subject: &str) -> (r: String)
    ensures
        r@ == quoted(prefix@, subject@),
{
    String::from_str(prefix).concat("`").concat(subject).concat("`")
}

/// The kind of error that a failed step becomes, or none where the failure is
/// tolerated. Readiness never reached in a stateful pipeline has a kind of
/// its own.
pub open spec fn failure_tag(step: StepView, stateful: bool) -> Option<Tag> {
    match step {
        StepView::RenderTemplates { .. } => Some(Tag::CannotCopyFilesFromDirectoryToDirectory),
        StepView::CreateNamespace { .. } => Some(Tag::K8sCannotCreateNamespace),
        StepView::HelmUpgrade { .. } => Some(Tag::HelmChartsUpgradeError),
        StepView::DeletePendingPods { .. } => Some(Tag::K8sServiceError),
        StepView::WaitPodsReady { .. } => if stateful {
            Some(Tag::DatabaseFailedToStartAfterSeveralRetries)
        } else {
            Some(Tag::K8sPodIsNotReady)
        },
        StepView::TerraformApply { .. } => Some(Tag::TerraformErrorWhileExecutingPipeline),
        StepView::DeployExternalName { .. } => Some(Tag::HelmChartsUpgradeError),
        StepView::TerraformDestroy { .. } => Some(Tag::TerraformErrorWhileExecutingDestroyPipeline),
        StepView::DeleteTfstateSecret { .. } => None,
        StepView::HelmUninstall { .. } => Some(Tag::HelmChartUninstallError),
        StepView::ScaleReplicas { .. } => Some(Tag::K8sScaleReplicas),
    }
}

/// The message, safe to show, that tells which step failed. A database that
/// never becomes ready is named with its kind; a render names both of its
/// directories.
pub open spec fn failure_message(
    step: StepView,
    stateful: bool,
    service_type: ServiceType,
    name_with_id: Seq<char>,
) -> Seq<char> {
    match step {
        StepView::RenderTemplates { source_dir, target_dir } => quoted(
            quoted("Cannot copy files from "@, source_dir) + " to "@,
            target_dir,
        ),
        StepView::CreateNamespace { namespace, .. } => quoted("Cannot create namespace "@, namespace),
        StepView::HelmUpgrade { chart } => quoted("Cannot deploy release "@, chart.name),
        StepView::DeletePendingPods { selector, .. } => quoted("Cannot delete pending pods of "@, selector),
        StepView::WaitPodsReady { namespace, selector, .. } => if stateful {
            quoted(service_type_name(service_type) + " "@, name_with_id) + " failed to start after several retries"@
        } else {
            quoted(quoted("Pods of selector "@, selector) + " in namespace "@, namespace) + " are not ready"@
        },
        StepView::TerraformApply { dir, .. } => quoted("Cannot apply infrastructure of "@, dir),
        StepView::DeployExternalName { chart_dir, .. } => quoted("Cannot deploy external name service of "@, chart_dir),
        StepView::TerraformDestroy { dir } => quoted("Cannot destroy infrastructure of "@, dir),
        StepView::DeleteTfstateSecret { secret_name, .. } => quoted("Cannot delete secret "@, secret_name),
        StepView::HelmUninstall { release_name, .. } => quoted("Cannot uninstall release "@, release_name),
        StepView::ScaleReplicas { selector, .. } => quoted("Cannot scale replicas of "@, selector),
    }
}

fn step_failure_message(step: &Step, stateful: bool, service_type: ServiceType, name_with_id: &str) -> (r: String)
    ensures
        r@ == failure_message(step@, stateful, service_type, name_with_id@),
{
    match step {
        Step::RenderTemplates { source_dir, target_dir } => {
            let head = quote("Cannot copy files from ", source_dir.as_str()).concat(" to ");
            quote(head.as_str(), target_dir.as_str())
        },
        Step::CreateNamespace { namespace, .. } => quote("Cannot create namespace ", namespace.as_str()),
        Step::HelmUpgrade { chart } => quote("Cannot deploy release ", chart.name.as_str()),
        Step::DeletePendingPods { selector, .. } => quote("Cannot delete pending pods of ", selector.as_str()),
        Step::WaitPodsReady { namespace, selector, .. } => if stateful {
            let head = service_type.name().concat(" ");
            quote(head.as_str(), name_with_id).concat(" failed to start after several retries")
        } else {
            let head = quote("Pods of selector ", selector.as_str()).concat(" in namespace ");
            quote(head.as_str(), namespace.as_str()).concat(" are not ready")
        },
        Step::TerraformApply { dir, .. } => quote("Cannot apply infrastructure of ", dir.as_str()),
        Step::DeployExternalName { chart_dir, .. } => quote(
            "Cannot deploy external name service of ",
            chart_dir.as_str(),
        ),
        Step::TerraformDestroy { dir } => quote("Cannot destroy infrastructure of ", dir.as_str()),
        Step::DeleteTfstateSecret { secret_name, .. } => quote("Cannot delete secret ", secret_name.as_str()),
        Step::HelmUninstall { release_name, .. } => quote("Cannot uninstall release ", release_name.as_str()),
        Step::ScaleReplicas { selector, .. } => quote("Cannot scale replicas of ", selector.as_str()),
    }
}

/// What a failed step ends the pipeline with: an error of the step's kind
/// that keeps the failure's cause, or nothing where the failure is tolerated.
pub fn step_failure(
    step: &Step,
    stateful: bool,
    service_type: ServiceType,
    name_with_id: &str,
    event_details: EventDetails,
    cause: Option<CommandError>,
) -> (r: Option<EngineError>)
    ensures
        r is None <==> failure_tag(step@, stateful) is None,
        r matches Some(e) ==> {
            &&& Some(e.tag) == failure_tag(step@, stateful)
            &&& e.event_details == event_details
            &&& e.user_log_message@ == failure_message(step@, stateful, service_type, name_with_id@)
            &&& e.underlying_error == cause
        },
{
    let tag = match step {
        Step::RenderTemplates { .. } => Tag::CannotCopyFilesFromDirectoryToDirectory,
        Step::CreateNamespace { .. } => Tag::K8sCannotCreateNamespace,
        Step::HelmUpgrade { .. } => Tag::HelmChartsUpgradeError,
        Step::DeletePendingPods { .. } => Tag::K8sServiceError,
        Step::WaitPodsReady { .. } => if stateful {
            Tag::DatabaseFailedToStartAfterSeveralRetries
        } else {
            Tag::K8sPodIsNotReady
        },
        Step::TerraformApply { .. } => Tag::TerraformErrorWhileExecutingPipeline,
        Step::DeployExternalName { .. } => Tag::HelmChartsUpgradeError,
        Step::TerraformDestroy { .. } => Tag::TerraformErrorWhileExecutingDestroyPipeline,
        Step::DeleteTfstateSecret { .. } => {
            return None;
        },
        Step::HelmUninstall { .. } => Tag::HelmChartUninstallError,
        Step::ScaleReplicas { .. } => Tag::K8sScaleReplicas,
    };
    Some(EngineError::new(tag, event_details, step_failure_message(step, stateful, service_type, name_with_id), cause))
}

/// How performing a step went: done; failed with its cause, if any; or ended
/// by an error that the library already decided.
pub enum StepOutcome {
    Done,
    Failed(Option<CommandError>),
    Refused(EngineError),
}

/// Whether a pipeline goes on after a step: it does after a step that was
/// done or whose failure is tolerated; otherwise it stops with the error of
/// the step, or with the error already decided.
pub fn step_outcome(
    step: &Step,
    outcome: StepOutcome,
    stateful: bool,
    service_type: ServiceType,
    name_with_id: &str,
    event_details: EventDetails,
) -> (r: Result<(), EngineError>)
    ensures
        outcome is Done ==> r is Ok,
        outcome matches StepOutcome::Refused(e) ==> r == Err::<(), EngineError>(e),
        outcome matches StepOutcome::Failed(cause) ==> {
            &&& r is Ok <==> failure_tag(step@, stateful) is None
            &&& r matches Err(e) ==> {
                &&& Some(e.tag) == failure_tag(step@, stateful)
                &&& e.event_details == event_details
                &&& e.user_log_message@ == failure_message(step@, stateful, service_type, name_with_id@)
                &&& e.underlying_error == cause
            }
        },
{
    match outcome {
        StepOutcome::Done => Ok(()),
        StepOutcome::Refused(e) => Err(e),
        StepOutcome::Failed(cause) => match step_failure(step, stateful, service_type, name_with_id, event_details, cause) {
            Some(e) => Err(e),
            None => Ok(()),
        },
    }
}

/// What a readiness poll means for its step: done only when the pods were
/// seen ready; not ready is a failure without cause; a poll that failed keeps
/// its cause.
pub fn readiness_outcome(poll: Result<Option<bool>, CommandError>) -> (r: StepOutcome)
    ensures
        poll == Ok::<Option<bool>, CommandError>(Some(true)) ==> r is Done,
        poll matches Err(e) ==> r == StepOutcome::Failed(Some(e)),
        poll matches Ok(v) && v != Some(true) ==> r == StepOutcome::Failed(None),
{
    match poll {
        Ok(Some(true)) => StepOutcome::Done,
        Ok(_) => StepOutcome::Failed(None),
        Err(e) => StepOutcome::Failed(Some(e)),
    }
}

/// How creating a namespace went.
pub enum NamespaceCreation {
    Created,
    AlreadyExists,
    Failed(CommandError),
}

/// Creating a namespace is idempotent: it fails only when the cluster refused
/// it, not when the namespace was already there.
pub fn namespace_creation_result(
    outcome: NamespaceCreation,
    namespace: &str,
    event_details: EventDetails,
) -> (r: Result<(), EngineError>)
    ensures
        r is Ok <==> namespace_creation_succeeds(outcome),
        outcome matches NamespaceCreation::Failed(cause) ==> {
            let e = r->Err_0;
            &&& e.tag == Tag::K8sCannotCreateNamespace
            &&& e.event_details == event_details
            &&& e.user_log_message@ == quoted("Cannot create namespace "@, namespace@)
            &&& e.underlying_error == Some(cause)
        },
{
    match outcome {
        NamespaceCreation::Created => Ok(()),
        NamespaceCreation::AlreadyExists => Ok(()),
        NamespaceCreation::Failed(cause) => Err(
            EngineError::new(
                Tag::K8sCannotCreateNamespace,
                event_details,
                quote("Cannot create namespace ", namespace),
                Some(cause),
            ),
        ),
    }
}

/// Whether a namespace creation ends well.
pub open spec fn namespace_creation_succeeds(outcome: NamespaceCreation) -> bool {
    !(outcome is Failed)
}

/// Two pipelines that ensure the same namespace, in whichever order the
/// cluster serves them, see one creation and one namespace already there (or
/// two already there): neither fails.
pub proof fn lemma_concurrent_namespace_creation(first: NamespaceCreation, second: NamespaceCreation)
    requires
        first is Created || first is AlreadyExists,
        second is Created || second is AlreadyExists,
    ensures
        namespace_creation_succeeds(first),
        namespace_creation_succeeds(second),
{
}

/// The phase of a pod.
#[derive(Clone, Copy, Debug, PartialEq, Eq, Structural)]
pub enum KubernetesPodStatusPhase {
    Pending,
    Running,
    Succeeded,
    Failed,
    Unknown,
}

/// A pod as listed by its selector.
pub struct PodSummary {
    pub namespace: String,
    pub name: String,
    pub phase: KubernetesPodStatusPhase,
}

/// The namespace and name of each pending pod, in listing order.
pub open spec fn pending_pods_of(pods: Seq<PodSummary>) -> Seq<(Seq<char>, Seq<char>)>
    decreases pods.len(),
{
    if pods.len() == 0 {
        Seq::empty()
    } else {
        let rest = pending_pods_of(pods.drop_last());
        let p = pods.last();
        if p.phase == KubernetesPodStatusPhase::Pending {
            rest.push((p.namespace@, p.name@))
        } else {
            rest
        }
    }
}

/// The pods to delete before waiting for readiness: those stuck in
/// `Pending`, as (namespace, name).
pub fn delete_pending_service(pods: &Vec<PodSummary>) -> (r: Vec<(String, String)>)
    ensures
        r@.map_values(|p: (String, String)| (p.0@, p.1@)) == pending_pods_of(pods@),
{
    let mut out: Vec<(String, String)> = Vec::new();
    let mut i: usize = 0;
    while i < pods.len()
        invariant
            i <= pods.len(),
            out@.map_values(|p: (String, String)| (p.0@, p.1@)) == pending_pods_of(pods@.take(i as int)),
        decreases pods.len() - i,
    {
        let ghost before = out@;
        proof {
            assert(pods@.take(i as int + 1).drop_last() =~= pods@.take(i as int));
        }
        let pod = &pods[i];
        if pod.phase == KubernetesPodStatusPhase::Pending {
            out.push((pod.namespace.clone(), pod.name.clone()));
            proof {
                assert(out@.map_values(|p: (String, String)| (p.0@, p.1@)) =~= before.map_values(
                    |p: (String, String)| (p.0@, p.1@),
                ).push((pod.namespace@, pod.name@)));
            }
        }
        i = i + 1;
    }
    proof {
        assert(pods@.take(pods.len() as int) =~= pods@);
    }
    out
}

/// The endpoint that the infrastructure manager provisioned for a managed
/// database, as described by the file it generates.
pub struct DatabaseTerraformConfig {
    pub target_id: String,
    pub target_hostname: String,
    pub target_fqdn_id: String,
    pub target_fqdn: String,
}

/// Why the endpoint description could not be had.
pub enum DatabaseTerraformConfigError {
    FileDoesntExist(CommandError),
    FileCannotBeParsed(CommandError),
}

/// The proxy release that points the cluster at a provisioned endpoint.
pub open spec fn external_name_chart(
    config: DatabaseTerraformConfig,
    service: ServiceView,
    chart_dir: Seq<char>,
    namespace: Seq<char>,
) -> ChartView {
    ChartView {
        name: config.target_id@ + "-externalname"@,
        path: chart_dir,
        namespace,
        timeout_in_seconds: READINESS_TIMEOUT_IN_SECONDS,
        values_files: Seq::empty(),
        values: seq![
            ("target_hostname"@, config.target_hostname@),
            ("source_fqdn"@, config.target_fqdn@),
            ("app_id"@, service.id),
            ("service_name"@, config.target_fqdn_id@),
            ("publicly_accessible"@, bool_text(service.publicly_accessible)),
        ],
        atomic: true,
        selector: service.selector,
    }
}

fn set_value(key: &str, value: String) -> (r: ChartSetValue)
    ensures
        r@ == (key@, value@),
{
    ChartSetValue { key: String::from_str(key), value }
}

/// Decides what follows the infrastructure apply of a managed database: with
/// an endpoint description, the proxy release to install; without the file,
/// nothing, as the infrastructure then routes by itself; with a file that
/// cannot be read, an error.
pub fn external_name_release<T: Service>(
    config: Result<DatabaseTerraformConfig, DatabaseTerraformConfigError>,
    service: &T,
    chart_dir: &str,
    namespace: &str,
    event_details: EventDetails,
) -> (r: Result<Option<ChartInfo>, EngineError>)
    ensures
        config matches Ok(c) ==> r matches Ok(Some(chart)) && chart@ == external_name_chart(
            c,
            service.view_service(),
            chart_dir@,
            namespace@,
        ),
        config matches Err(DatabaseTerraformConfigError::FileDoesntExist(_)) ==> r matches Ok(None),
        config matches Err(DatabaseTerraformConfigError::FileCannotBeParsed(cause)) ==> r matches Err(e) && {
            &&& e.tag == Tag::TerraformConfigFileNotFound
            &&& e.event_details == event_details
            &&& e.underlying_error == Some(cause)
        },
{
    match config {
        Ok(c) => {
            let ghost cv = c;
            let values = vec![
                set_value("target_hostname", c.target_hostname),
                set_value("source_fqdn", c.target_fqdn),
                set_value("app_id", service.id()),
                set_value("service_name", c.target_fqdn_id),
                set_value("publicly_accessible", to_bool_text(service.publicly_accessible())),
            ];
            let values_files: Vec<String> = Vec::new();
            let chart = ChartInfo {
                name: c.target_id.concat("-externalname"),
                path: String::from_str(chart_dir),
                namespace: String::from_str(namespace),
                timeout_in_seconds: READINESS_TIMEOUT_IN_SECONDS,
                values_files,
                values,
                atomic: true,
                selector: service.selector(),
            };
            proof {
                assert(chart@.values =~= external_name_chart(cv, service.view_service(), chart_dir@, namespace@).values);
                assert(chart@.values_files =~= Seq::<Seq<char>>::empty());
            }
            Ok(Some(chart))
        },
        Err(DatabaseTerraformConfigError::FileDoesntExist(_)) => Ok(None),
        Err(DatabaseTerraformConfigError::FileCannotBeParsed(cause)) => Err(
            EngineError::new(
                Tag::TerraformConfigFileNotFound,
                event_details,
                String::from_str("Database config file exists but cannot be parsed"),
                Some(cause),
            ),
        ),
    }
}

/// What the cleanup of pending pods does next.
pub enum CleanupAction {
    /// Delete this pod, then report how that went.
    DeletePod { namespace: String, name: String },
    /// The cleanup is over, with this outcome for its step.
    Finish(StepOutcome),
}

/// Starts the cleanup of pending pods from the listing of the selector's pods:
/// the pods to delete, in order, or the outcome of a listing that failed.
pub fn pending_cleanup_start(listed: Result<Vec<PodSummary>, CommandError>) -> (r: Result<
    Vec<(String, String)>,
    StepOutcome,
>)
    ensures
        listed matches Ok(pods) ==> (r matches Ok(v) && v@.map_values(|p: (String, String)| (p.0@, p.1@))
            == pending_pods_of(pods@)),
        listed matches Err(e) ==> r == Err::<Vec<(String, String)>, StepOutcome>(StepOutcome::Failed(Some(e))),
{
    match listed {
        Ok(pods) => Ok(delete_pending_service(&pods)),
        Err(e) => Err(StepOutcome::Failed(Some(e))),
    }
}

/// The next move of the cleanup once `deleted` pods of `pending` were deleted
/// and the last deletion went as `last_deletion` (`Ok` before the first one).
/// A failed deletion ends the cleanup at once, keeping its cause, so no later
/// pod is deleted; otherwise the next pending pod is deleted, until none is
/// left.
pub fn pending_cleanup_next(
    pending: &Vec<(String, String)>,
    deleted: usize,
    last_deletion: Result<(), CommandError>,
) -> (r: CleanupAction)
    ensures
        last_deletion matches Err(e) ==> r == CleanupAction::Finish(StepOutcome::Failed(Some(e))),
        last_deletion is Ok && deleted < pending@.len() ==> (r matches CleanupAction::DeletePod { namespace, name }
            && namespace@ == pending@[deleted as int].0@ && name@ == pending@[deleted as int].1@),
        last_deletion is Ok && deleted >= pending@.len() ==> r matches CleanupAction::Finish(StepOutcome::Done),
{
    match last_deletion {
        Err(e) => CleanupAction::Finish(StepOutcome::Failed(Some(e))),
        Ok(()) => if deleted < pending.len() {
            CleanupAction::DeletePod {
                namespace: pending[deleted].0.clone(),
                name: pending[deleted].1.clone(),
            }
        } else {
            CleanupAction::Finish(StepOutcome::Done)
        },
    }
}

} // verus!
