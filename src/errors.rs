//! The error taxonomy: kinds of failure, command failures, and the errors
//! that pipelines return, bound to where they happened.

use vstd::prelude::*;

verus! {

/// Kind of a failure inside the engine. Each variant names one way a step of
/// a pipeline (or of the cluster, registry, storage or DNS tooling around it)
/// can fail.
#[derive(Clone, Copy, Debug, PartialEq, Eq, Structural)]
pub enum Tag {
    Unknown,
    TerraformAccountBlockedByProvider,
    InvalidEngineApiInputCannotBeDeserialized,
    UnsupportedInstanceType,
    CannotRetrieveClusterConfigFile,
    CannotCreateFile,
    CannotGetClusterNodes,
    NotEnoughNodesAvailableToDeployEnvironment,
    NotEnoughResourcesToDeployEnvironment,
    MissingRequiredEnvVariable,
    ClusterHasNoWorkerNodes,
    ClusterWorkerNodeNotFound,
    CannotGetWorkspaceDirectory,
    CannotUninstallHelmChart,
    CannotExecuteK8sVersion,
    CannotDetermineK8sMasterVersion,
    CannotDetermineK8sRequestedUpgradeVersion,
    CannotDetermineK8sKubeletWorkerVersion,
    CannotDetermineK8sKubeProxyVersion,
    CannotExecuteK8sApiCustomMetrics,
    K8sPodDisruptionBudgetInInvalidState,
    K8sPodsDisruptionBudgetCannotBeRetrieved,
    K8sCannotDeletePod,
    K8sCannotGetCrashLoopingPods,
    K8sCannotDeleteCompletedJobs,
    K8sCannotGetPods,
    K8sUpgradeDeployedVsRequestedVersionsInconsistency,
    K8sScaleReplicas,
    K8sLoadBalancerConfigurationIssue,
    K8sServiceError,
    K8sGetLogs,
    K8sGetEvents,
    K8sDescribe,
    K8sHistory,
    K8sCannotCreateNamespace,
    K8sPodIsNotReady,
    K8sGetDeploymentError,
    K8sDeleteDeploymentError,
    K8sGetStatefulsetError,
    K8sDeleteStatefulsetError,
    CannotFindRequiredBinary,
    SubnetsCountShouldBeEven,
    CannotGetOrCreateIamRole,
    CannotCopyFilesFromDirectoryToDirectory,
    CannotPauseClusterTasksAreRunning,
    TerraformCannotRemoveEntryOut,
    TerraformErrorWhileExecutingPipeline,
    TerraformErrorWhileExecutingDestroyPipeline,
    TerraformResourceDependencyViolation,
    TerraformClusterUnsupportedVersionUpdate,
    HelmChartsSetupError,
    HelmChartsDeployError,
    HelmChartsUpgradeError,
    HelmChartUninstallError,
    HelmHistoryError,
    CannotGetAnyAvailableVPC,
    UnsupportedVersion,
    CannotGetSupportedVersions,
    CannotGetCluster,
    ObjectStorageCannotCreateBucket,
    ObjectStorageCannotPutFileIntoBucket,
    UnsupportedRegion,
    UnsupportedZone,
    K8sNodeIsNotReadyWithTheRequestedVersion,
    K8sNodeIsNotReady,
    NoClusterFound,
    OnlyOneClusterExpected,
    CloudProviderApiMissingInfo,
    K8sValidateRequiredCPUandBurstableError,
    TerraformContextUnsupportedParameterValue,
    ClientServiceFailedToStart,
    ClientServiceFailedToDeployBeforeStart,
    DatabaseFailedToStartAfterSeveralRetries,
    RouterFailedToDeploy,
    CloudProviderClientInvalidCredentials,
    VersionNumberParsingError,
    NotImplementedError,
    TaskCancellationRequested,
    BuilderDockerCannotFindAnyDockerfile,
    BuilderDockerCannotReadDockerfile,
    BuilderDockerCannotExtractEnvVarsFromDockerfile,
    BuilderDockerCannotBuildContainerImage,
    BuilderBuildpackInvalidLanguageFormat,
    BuilderBuildpackCannotBuildContainerImage,
    BuilderGetBuildError,
    BuilderCloningRepositoryError,
    DockerPushImageError,
    DockerPullImageError,
    ContainerRegistryCannotCreateRepository,
    ContainerRegistryCannotSetRepositoryLifecycle,
    ContainerRegistryCannotGetCredentials,
    ContainerRegistryCannotDeleteImage,
    ContainerRegistryImageDoesntExist,
    ContainerRegistryImageUnreachableAfterPush,
    ContainerRegistryRepositoryDoesntExistInRegistry,
    ContainerRegistryCannotDeleteRepository,
    ContainerRegistryInvalidInformation,
    ContainerRegistryRegistryDoesntExist,
    ContainerRegistryInvalidCredentials,
    ContainerRegistryCannotLinkRegistryToCluster,
    ContainerRegistryCannotDeleteRegistry,
    ContainerRegistryCannotSetRepositoryTags,
    ContainerRegistryUnknownError,
    ContainerRegistryRepositoryNameInvalid,
    BuilderDockerCannotListImages,
    DockerError,
    ObjectStorageInvalidBucketName,
    ObjectStorageCannotEmptyBucket,
    ObjectStorageCannotTagBucket,
    ObjectStorageCannotActivateBucketVersioning,
    BuilderError,
    ContainerRegistryCannotCreateRegistry,
    UnsupportedClusterKind,
    NotAllowedInstanceType,
    TerraformConfigFileNotFound,
    KubeconfigFileDoNotPermitToConnectToK8sCluster,
    KubeconfigSecurityCheckError,
    DeleteLocalKubeconfigFileError,
    VaultConnectionError,
    VaultSecretCouldNotBeRetrieved,
    VaultSecretCouldNotBeCreatedOrUpdated,
    JsonDeserializationError,
    ClusterSecretsManipulationError,
    VaultSecretCouldNotBeDeleted,
    ObjectStorageCannotDeleteFileIntoBucket,
    CannotGetNodeGroupList,
    CannotGetNodeGroupInfo,
    NumberOfRequestedMaxNodesIsBelowThanCurrentUsage,
    CannotConnectK8sCluster,
    DnsProviderInformationError,
    CloudProviderInformationError,
    DnsProviderInvalidCredentials,
    DnsProviderInvalidApiUrl,
    K8sErrorCopySecret,
    K8sCannotReachToApi,
    TerraformUnknownError,
    TerraformConfigFileInvalidContent,
    TerraformCannotDeleteLockFile,
    TerraformInitError,
    TerraformValidateError,
    TerraformPlanError,
    TerraformApplyError,
    TerraformDestroyError,
    TerraformCloudProviderQuotasReached,
    TerraformCloudProviderActivationRequired,
    TerraformInvalidCredentials,
    TerraformServiceNotActivatedOptInRequired,
    TerraformWaitingTimeoutResource,
    TerraformAlreadyExistingResource,
    TerraformNotEnoughPermissions,
    TerraformWrongState,
    TerraformInstanceTypeDoesntExist,
    TerraformMultipleInterruptsReceived,
    TerraformInstanceVolumeCannotBeReduced,
    TerraformS3BucketCreationErrorAlreadyOwnedByYou,
    TerraformCannotImportResource,
    HelmDeployTimeout,
    CannotPauseManagedDatabase,
    ObjectStorageCannotDeleteBucket,
    ObjectStorageQuotaExceeded,
    ObjectStorageCannotGetObjectFile,
    CloudProviderGetLoadBalancer,
    CloudProviderGetLoadBalancerTags,
    K8sCannotDeletePvc,
    CloudProviderDeleteLoadBalancer,
    InvalidEnginePayload,
    JobFailure,
    TerraformInvalidCIDRBlock,
    DoNotRespectCloudProviderBestPractices,
    TerraformStateLocked,
    K8sCannotGetPVCs,
    K8sCannotGetServices,
    K8sCannotBoundPVC,
    K8sCannotOrphanDelete,
    K8sCannotPVCEdit,
    K8sCannotGetStatefulset,
    K8sCannotRolloutRestartStatefulset,
    K8sCannotApplyFromFile,
    K8sAddonVersionNotSupported,
    CannotListClusters,
    CannotParseString,
    CannotDeleteNodeGroup,
    CannotRestartService,
    AwsSdkGetClient,
    AwsSdkListRdsInstances,
    AwsSdkListElasticacheClusters,
    AwsSdkListDocDbClusters,
    AwsCloudwatchRetentionConfigurationError,
    AwsSdkListEC2Volumes,
    AwsSdkDetachEC2Volumes,
    AwsSdkListEC2Instances,
    Base64DecodeIssue,
    CannotReadFile,
    InvalidJobOutputCannotBeSerialized,
    DatabaseError,
}

/// A failed command or API call. `message_safe` may be shown to a user;
/// `full_details` may hold sensitive output and is never shown raw.
pub struct CommandError {
    pub message_safe: String,
    pub full_details: Option<String>,
}

impl CommandError {
    pub fn new(message_safe: String, full_details: Option<String>) -> (r: Self)
        ensures
            r.message_safe@ == message_safe@,
            r.full_details == full_details,
    {
        CommandError { message_safe, full_details }
    }
}

impl Clone for CommandError {
    fn clone(&self) -> (r: Self)
        ensures
            r == *self,
    {
        CommandError { message_safe: self.message_safe.clone(), full_details: clone_opt(&self.full_details) }
    }
}

/// Copies an optional string.
pub fn clone_opt(s: &Option<String>) -> (r: Option<String>)
    ensures
        r == *s,
{
    match s {
        Some(v) => Some(v.clone()),
        None => None,
    }
}

/// The pipeline step during which an event happened.
#[derive(Clone, Copy, Debug, PartialEq, Eq, Structural)]
pub enum EnvironmentStep {
    LoadConfiguration,
    Deploy,
    Pause,
    Delete,
    ScaleDown,
}

/// Identifiers that bind an event or an error to the organization, cluster,
/// environment and execution it belongs to, and to the pipeline stage.
pub struct EventDetails {
    pub organization_id: String,
    pub cluster_id: String,
    pub environment_id: String,
    pub execution_id: String,
    pub stage: EnvironmentStep,
}

impl Clone for EventDetails {
    fn clone(&self) -> (r: Self)
        ensures
            r == *self,
    {
        EventDetails {
            organization_id: self.organization_id.clone(),
            cluster_id: self.cluster_id.clone(),
            environment_id: self.environment_id.clone(),
            execution_id: self.execution_id.clone(),
            stage: self.stage,
        }
    }
}

impl EventDetails {
    /// The same identifiers, at another stage.
    pub fn clone_changing_stage(&self, stage: EnvironmentStep) -> (r: Self)
        ensures
            r.organization_id == self.organization_id,
            r.cluster_id == self.cluster_id,
            r.environment_id == self.environment_id,
            r.execution_id == self.execution_id,
            r.stage == stage,
    {
        EventDetails {
            organization_id: self.organization_id.clone(),
            cluster_id: self.cluster_id.clone(),
            environment_id: self.environment_id.clone(),
            execution_id: self.execution_id.clone(),
            stage,
        }
    }
}

/// A categorized failure: its kind, a message safe to show to the user, the
/// underlying command failure if any, and where it happened.
pub struct EngineError {
    pub tag: Tag,
    pub event_details: EventDetails,
    pub user_log_message: String,
    pub underlying_error: Option<CommandError>,
    pub link: Option<String>,
    pub hint_message: Option<String>,
}

impl Clone for EngineError {
    fn clone(&self) -> (r: Self)
        ensures
            r == *self,
    {
        EngineError {
            tag: self.tag,
            event_details: self.event_details.clone(),
            user_log_message: self.user_log_message.clone(),
            underlying_error: match &self.underlying_error {
                Some(e) => Some(e.clone()),
                None => None,
            },
            link: clone_opt(&self.link),
            hint_message: clone_opt(&self.hint_message),
        }
    }
}

impl EngineError {
    /// An error of kind `tag` with no link and no hint.
    pub fn new(
        tag: Tag,
        event_details: EventDetails,
        user_log_message: String,
        underlying_error: Option<CommandError>,
    ) -> (r: Self)
        ensures
            r.tag == tag,
            r.event_details == event_details,
            r.user_log_message == user_log_message,
            r.underlying_error == underlying_error,
            r.link is None,
            r.hint_message is None,
    {
        EngineError { tag, event_details, user_log_message, underlying_error, link: None, hint_message: None }
    }

    pub fn tag(&self) -> (r: Tag)
        ensures
            r == self.tag,
    {
        self.tag
    }

    pub fn underlying_error(&self) -> (r: Option<CommandError>)
        ensures
            r == self.underlying_error,
    {
        match &self.underlying_error {
            Some(e) => Some(e.clone()),
            None => None,
        }
    }
}

} // verus!
