//! The boundary form of errors, as shown to API consumers: every internal
//! kind maps to one boundary kind, and raw command output that was not marked
//! safe is reduced to its safe message and details.

use vstd::prelude::*;

use crate::errors;

verus! {

/// The kind of an error as shown to API consumers. Every internal kind has
/// exactly one kind here.
#[derive(Clone, Copy, Debug, PartialEq, Eq, Structural)]
pub enum Tag {
    Unknown,
    InvalidEngineApiInputCannotBeDeserialized,
    MissingRequiredEnvVariable,
    ClusterHasNoWorkerNodes,
    ClusterWorkerNodeNotFound,
    CannotGetWorkspaceDirectory,
    UnsupportedInstanceType,
    CannotRetrieveClusterConfigFile,
    CannotCreateFile,
    CannotGetClusterNodes,
    NotEnoughNodesAvailableToDeployEnvironment,
    NotEnoughResourcesToDeployEnvironment,
    CannotUninstallHelmChart,
    CannotExecuteK8sVersion,
    CannotDetermineK8sMasterVersion,
    CannotDetermineK8sRequestedUpgradeVersion,
    CannotDetermineK8sKubeletWorkerVersion,
    CannotDetermineK8sKubeProxyVersion,
    CannotExecuteK8sApiCustomMetrics,
    K8sPodDisruptionBudgetInInvalidState,
    K8sPodsDisruptionBudgetCannotBeRetrieved,
    K8sCannotDeletePod,
    K8sCannotDeletePvc,
    K8sCannotGetCrashLoopingPods,
    K8sCannotDeleteCompletedJobs,
    K8sCannotGetPods,
    K8sUpgradeDeployedVsRequestedVersionsInconsistency,
    K8sScaleReplicas,
    K8sLoadBalancerConfigurationIssue,
    K8sServiceError,
    K8sGetLogs,
    K8sGetEvents,
    K8sDescribe,
    K8sHistory,
    K8sCannotCreateNamespace,
    K8sPodIsNotReady,
    K8sNodeIsNotReadyWithTheRequestedVersion,
    K8sNodeIsNotReady,
    K8sErrorCopySecret,
    K8sCannotGetPVCs,
    K8sCannotBoundPVC,
    K8sCannotGetServices,
    K8sCannotOrphanDelete,
    K8sCannotPVCEdit,
    K8sCannotGetStatefulset,
    K8sCannotRolloutRestartStatefulset,
    K8sCannotApplyFromFile,
    K8sGetDeploymentError,
    K8sDeleteDeploymentError,
    K8sGetStatefulsetError,
    K8sDeleteStatefulsetError,
    K8sAddonVersionNotSupported,
    UnsupportedRegion,
    UnsupportedZone,
    CannotFindRequiredBinary,
    SubnetsCountShouldBeEven,
    CannotGetOrCreateIamRole,
    CannotCopyFilesFromDirectoryToDirectory,
    CannotPauseClusterTasksAreRunning,
    CannotPauseManagedDatabase,
    TerraformCannotRemoveEntryOut,
    TerraformErrorWhileExecutingPipeline,
    TerraformErrorWhileExecutingDestroyPipeline,
    TerraformCannotImportResource,
    HelmChartsSetupError,
    HelmChartsDeployError,
    HelmChartsUpgradeError,
    HelmChartUninstallError,
    HelmDeployTimeout,
    HelmHistoryError,
    CannotGetAnyAvailableVPC,
    UnsupportedVersion,
    UnsupportedClusterKind,
    NotAllowedInstanceType,
    CannotGetSupportedVersions,
    CannotGetCluster,
    NoClusterFound,
    OnlyOneClusterExpected,
    CloudProviderApiMissingInfo,
    K8sValidateRequiredCPUandBurstableError,
    ClientServiceFailedToStart,
    ClientServiceFailedToDeployBeforeStart,
    DatabaseFailedToStartAfterSeveralRetries,
    RouterFailedToDeploy,
    CloudProviderClientInvalidCredentials,
    VersionNumberParsingError,
    NotImplementedError,
    TaskCancelled,
    BuilderError,
    BuilderDockerCannotFindAnyDockerfile,
    BuilderDockerCannotReadDockerfile,
    BuilderDockerCannotExtractEnvVarsFromDockerfile,
    BuilderDockerCannotBuildContainerImage,
    BuilderBuildpackInvalidLanguageFormat,
    BuilderBuildpackCannotBuildContainerImage,
    BuilderGetBuildError,
    BuilderCloningRepositoryError,
    DockerError,
    DockerPushImageError,
    DockerPullImageError,
    BuilderDockerCannotListImages,
    ContainerRegistryCannotCreateRepository,
    ContainerRegistryCannotSetRepositoryLifecycleError,
    ContainerRegistryCannotGetCredentials,
    ContainerRegistryImageDoesntExist,
    ContainerRegistryImageUnreachableAfterPush,
    ContainerRegistryRepositoryDoesntExistInRegistry,
    ContainerRegistryCannotDeleteRepository,
    ContainerRegistryCannotDeleteRegistry,
    ContainerRegistryCannotDeleteImage,
    ContainerRegistryInvalidInformation,
    ContainerRegistryCannotCreateRegistry,
    ContainerRegistryRegistryDoesntExist,
    ContainerRegistryInvalidCredentials,
    ContainerRegistryCannotLinkRegistryToCluster,
    ContainerRegistryCannotSetRepositoryTags,
    ContainerRegistryUnknownError,
    ContainerRegistryRepositoryNameInvalid,
    ObjectStorageInvalidBucketName,
    ObjectStorageCannotEmptyBucket,
    ObjectStorageCannotTagBucket,
    ObjectStorageCannotActivateBucketVersioning,
    ObjectStorageCannotDeleteBucket,
    ObjectStorageQuotaExceeded,
    ObjectStorageCannotGetObjectFile,
    ObjectStorageCannotCreateBucket,
    ObjectStorageCannotPutFileIntoBucket,
    ObjectStorageCannotDeleteFileIntoBucket,
    KubeconfigFileDoNotPermitToConnectToK8sCluster,
    KubeconfigSecurityCheckError,
    DeleteLocalKubeconfigFileError,
    VaultConnectionError,
    VaultSecretCouldNotBeRetrieved,
    VaultSecretCouldNotBeCreatedOrUpdated,
    VaultSecretCouldNotBeDeleted,
    JsonDeserializationError,
    ClusterSecretsManipulationError,
    CannotGetNodeGroupList,
    CannotGetNodeGroupInfo,
    CannotConnectK8sCluster,
    NumberOfRequestedMaxNodesIsBelowThanCurrentUsage,
    DnsProviderInformationError,
    CloudProviderInformationError,
    DnsProviderInvalidCredentials,
    DnsProviderInvalidApiUrl,
    K8sCannotReachToApi,
    TerraformUnknownError,
    TerraformConfigFileInvalidContent,
    TerraformCannotDeleteLockFile,
    TerraformInitError,
    TerraformValidateError,
    TerraformPlanError,
    TerraformApplyError,
    TerraformStatelistError,
    TerraformDestroyError,
    TerraformCloudProviderQuotasReached,
    TerraformCloudProviderActivationRequired,
    TerraformInvalidCredentials,
    TerraformServiceNotActivatedOptInRequired,
    TerraformNotEnoughPermissions,
    TerraformWaitingTimeoutResource,
    TerraformAlreadyExistingResource,
    TerraformWrongState,
    TerraformResourceDependencyViolation,
    TerraformContextUnsupportedParameterValue,
    TerraformQoveryConfigMismatch,
    TerraformInstanceTypeDoesntExist,
    TerraformMultipleInterruptsReceived,
    TerraformAccountBlockedByProvider,
    TerraformInstanceVolumeCannotBeReduced,
    TerraformInvalidCIDRBlock,
    TerraformStateLocked,
    TerraformClusterUnsupportedVersionUpdate,
    TerraformS3BucketCreationErrorAlreadyOwnedByYou,
    CloudProviderGetLoadBalancer,
    CloudProviderGetLoadBalancerTags,
    CloudProviderDeleteLoadBalancer,
    InvalidEnginePayload,
    JobFailure,
    DoNotRespectCloudProviderBestPractices,
    CannotListClusters,
    CannotParseString,
    CannotDeleteNodeGroup,
    CannotRestartService,
    AwsSdkGetClient,
    AwsSdkListRdsInstances,
    AwsSdkListElasticacheClusters,
    AwsSdkListDocDbClusters,
    AwsCloudwatchRetentionConfigurationError,
    AwsSdkListEC2Volumes,
    AwsSdkDetachEC2Volumes,
    AwsSdkListEC2Instances,
    Base64DecodeIssue,
    CannotReadFile,
    InvalidJobOutputCannotBeSerialized,
    DatabaseError,
}

/// The kind that API consumers see for an internal kind.
pub open spec fn boundary_tag(tag: errors::Tag) -> Tag {
    match tag {
        errors::Tag::Unknown => Tag::Unknown,
        errors::Tag::TerraformAccountBlockedByProvider => Tag::TerraformAccountBlockedByProvider,
        errors::Tag::InvalidEngineApiInputCannotBeDeserialized => Tag::InvalidEngineApiInputCannotBeDeserialized,
        errors::Tag::UnsupportedInstanceType => Tag::UnsupportedInstanceType,
        errors::Tag::CannotRetrieveClusterConfigFile => Tag::CannotRetrieveClusterConfigFile,
        errors::Tag::CannotCreateFile => Tag::CannotCreateFile,
        errors::Tag::CannotGetClusterNodes => Tag::CannotGetClusterNodes,
        errors::Tag::NotEnoughNodesAvailableToDeployEnvironment => Tag::NotEnoughNodesAvailableToDeployEnvironment,
        errors::Tag::NotEnoughResourcesToDeployEnvironment => Tag::NotEnoughResourcesToDeployEnvironment,
        errors::Tag::MissingRequiredEnvVariable => Tag::MissingRequiredEnvVariable,
        errors::Tag::ClusterHasNoWorkerNodes => Tag::ClusterHasNoWorkerNodes,
        errors::Tag::ClusterWorkerNodeNotFound => Tag::ClusterWorkerNodeNotFound,
        errors::Tag::CannotGetWorkspaceDirectory => Tag::CannotGetWorkspaceDirectory,
        errors::Tag::CannotUninstallHelmChart => Tag::CannotUninstallHelmChart,
        errors::Tag::CannotExecuteK8sVersion => Tag::CannotExecuteK8sVersion,
        errors::Tag::CannotDetermineK8sMasterVersion => Tag::CannotDetermineK8sMasterVersion,
        errors::Tag::CannotDetermineK8sRequestedUpgradeVersion => Tag::CannotDetermineK8sRequestedUpgradeVersion,
        errors::Tag::CannotDetermineK8sKubeletWorkerVersion => Tag::CannotDetermineK8sKubeletWorkerVersion,
        errors::Tag::CannotDetermineK8sKubeProxyVersion => Tag::CannotDetermineK8sKubeProxyVersion,
        errors::Tag::CannotExecuteK8sApiCustomMetrics => Tag::CannotExecuteK8sApiCustomMetrics,
        errors::Tag::K8sPodDisruptionBudgetInInvalidState => Tag::K8sPodDisruptionBudgetInInvalidState,
        errors::Tag::K8sPodsDisruptionBudgetCannotBeRetrieved => Tag::K8sPodsDisruptionBudgetCannotBeRetrieved,
        errors::Tag::K8sCannotDeletePod => Tag::K8sCannotDeletePod,
        errors::Tag::K8sCannotGetCrashLoopingPods => Tag::K8sCannotGetCrashLoopingPods,
        errors::Tag::K8sCannotDeleteCompletedJobs => Tag::K8sCannotDeleteCompletedJobs,
        errors::Tag::K8sCannotGetPods => Tag::K8sCannotGetPods,
        errors::Tag::K8sUpgradeDeployedVsRequestedVersionsInconsistency => Tag::K8sUpgradeDeployedVsRequestedVersionsInconsistency,
        errors::Tag::K8sScaleReplicas => Tag::K8sScaleReplicas,
        errors::Tag::K8sLoadBalancerConfigurationIssue => Tag::K8sLoadBalancerConfigurationIssue,
        errors::Tag::K8sServiceError => Tag::K8sServiceError,
        errors::Tag::K8sGetLogs => Tag::K8sGetLogs,
        errors::Tag::K8sGetEvents => Tag::K8sGetEvents,
        errors::Tag::K8sDescribe => Tag::K8sDescribe,
        errors::Tag::K8sHistory => Tag::K8sHistory,
        errors::Tag::K8sCannotCreateNamespace => Tag::K8sCannotCreateNamespace,
        errors::Tag::K8sPodIsNotReady => Tag::K8sPodIsNotReady,
        errors::Tag::K8sGetDeploymentError => Tag::K8sGetDeploymentError,
        errors::Tag::K8sDeleteDeploymentError => Tag::K8sDeleteDeploymentError,
        errors::Tag::K8sGetStatefulsetError => Tag::K8sGetStatefulsetError,
        errors::Tag::K8sDeleteStatefulsetError => Tag::K8sDeleteStatefulsetError,
        errors::Tag::CannotFindRequiredBinary => Tag::CannotFindRequiredBinary,
        errors::Tag::SubnetsCountShouldBeEven => Tag::SubnetsCountShouldBeEven,
        errors::Tag::CannotGetOrCreateIamRole => Tag::CannotGetOrCreateIamRole,
        errors::Tag::CannotCopyFilesFromDirectoryToDirectory => Tag::CannotCopyFilesFromDirectoryToDirectory,
        errors::Tag::CannotPauseClusterTasksAreRunning => Tag::CannotPauseClusterTasksAreRunning,
        errors::Tag::TerraformCannotRemoveEntryOut => Tag::TerraformCannotRemoveEntryOut,
        errors::Tag::TerraformErrorWhileExecutingPipeline => Tag::TerraformErrorWhileExecutingPipeline,
        errors::Tag::TerraformErrorWhileExecutingDestroyPipeline => Tag::TerraformErrorWhileExecutingDestroyPipeline,
        errors::Tag::TerraformResourceDependencyViolation => Tag::TerraformResourceDependencyViolation,
        errors::Tag::TerraformClusterUnsupportedVersionUpdate => Tag::TerraformClusterUnsupportedVersionUpdate,
        errors::Tag::HelmChartsSetupError => Tag::HelmChartsSetupError,
        errors::Tag::HelmChartsDeployError => Tag::HelmChartsDeployError,
        errors::Tag::HelmChartsUpgradeError => Tag::HelmChartsUpgradeError,
        errors::Tag::HelmChartUninstallError => Tag::HelmChartUninstallError,
        errors::Tag::HelmHistoryError => Tag::HelmHistoryError,
        errors::Tag::CannotGetAnyAvailableVPC => Tag::CannotGetAnyAvailableVPC,
        errors::Tag::UnsupportedVersion => Tag::UnsupportedVersion,
        errors::Tag::CannotGetSupportedVersions => Tag::CannotGetSupportedVersions,
        errors::Tag::CannotGetCluster => Tag::CannotGetCluster,
        errors::Tag::ObjectStorageCannotCreateBucket => Tag::ObjectStorageCannotCreateBucket,
        errors::Tag::ObjectStorageCannotPutFileIntoBucket => Tag::ObjectStorageCannotPutFileIntoBucket,
        errors::Tag::UnsupportedRegion => Tag::UnsupportedRegion,
        errors::Tag::UnsupportedZone => Tag::UnsupportedZone,
        errors::Tag::K8sNodeIsNotReadyWithTheRequestedVersion => Tag::K8sNodeIsNotReadyWithTheRequestedVersion,
        errors::Tag::K8sNodeIsNotReady => Tag::K8sNodeIsNotReady,
        errors::Tag::NoClusterFound => Tag::NoClusterFound,
        errors::Tag::OnlyOneClusterExpected => Tag::OnlyOneClusterExpected,
        errors::Tag::CloudProviderApiMissingInfo => Tag::CloudProviderApiMissingInfo,
        errors::Tag::K8sValidateRequiredCPUandBurstableError => Tag::K8sValidateRequiredCPUandBurstableError,
        errors::Tag::TerraformContextUnsupportedParameterValue => Tag::TerraformContextUnsupportedParameterValue,
        errors::Tag::ClientServiceFailedToStart => Tag::ClientServiceFailedToStart,
        errors::Tag::ClientServiceFailedToDeployBeforeStart => Tag::ClientServiceFailedToDeployBeforeStart,
        errors::Tag::DatabaseFailedToStartAfterSeveralRetries => Tag::DatabaseFailedToStartAfterSeveralRetries,
        errors::Tag::RouterFailedToDeploy => Tag::RouterFailedToDeploy,
        errors::Tag::CloudProviderClientInvalidCredentials => Tag::CloudProviderClientInvalidCredentials,
        errors::Tag::VersionNumberParsingError => Tag::VersionNumberParsingError,
        errors::Tag::NotImplementedError => Tag::NotImplementedError,
        errors::Tag::TaskCancellationRequested => Tag::TaskCancelled,
        errors::Tag::BuilderDockerCannotFindAnyDockerfile => Tag::BuilderDockerCannotFindAnyDockerfile,
        errors::Tag::BuilderDockerCannotReadDockerfile => Tag::BuilderDockerCannotReadDockerfile,
        errors::Tag::BuilderDockerCannotExtractEnvVarsFromDockerfile => Tag::BuilderDockerCannotExtractEnvVarsFromDockerfile,
        errors::Tag::BuilderDockerCannotBuildContainerImage => Tag::BuilderDockerCannotBuildContainerImage,
        errors::Tag::BuilderBuildpackInvalidLanguageFormat => Tag::BuilderBuildpackInvalidLanguageFormat,
        errors::Tag::BuilderBuildpackCannotBuildContainerImage => Tag::BuilderBuildpackCannotBuildContainerImage,
        errors::Tag::BuilderGetBuildError => Tag::BuilderGetBuildError,
        errors::Tag::BuilderCloningRepositoryError => Tag::BuilderCloningRepositoryError,
        errors::Tag::DockerPushImageError => Tag::DockerPushImageError,
        errors::Tag::DockerPullImageError => Tag::DockerPullImageError,
        errors::Tag::ContainerRegistryCannotCreateRepository => Tag::ContainerRegistryCannotCreateRepository,
        errors::Tag::ContainerRegistryCannotSetRepositoryLifecycle => Tag::ContainerRegistryCannotSetRepositoryLifecycleError,
        errors::Tag::ContainerRegistryCannotGetCredentials => Tag::ContainerRegistryCannotGetCredentials,
        errors::Tag::ContainerRegistryCannotDeleteImage => Tag::ContainerRegistryCannotDeleteImage,
        errors::Tag::ContainerRegistryImageDoesntExist => Tag::ContainerRegistryImageDoesntExist,
        errors::Tag::ContainerRegistryImageUnreachableAfterPush => Tag::ContainerRegistryImageUnreachableAfterPush,
        errors::Tag::ContainerRegistryRepositoryDoesntExistInRegistry => Tag::ContainerRegistryRepositoryDoesntExistInRegistry,
        errors::Tag::ContainerRegistryCannotDeleteRepository => Tag::ContainerRegistryCannotDeleteRepository,
        errors::Tag::ContainerRegistryInvalidInformation => Tag::ContainerRegistryInvalidInformation,
        errors::Tag::ContainerRegistryRegistryDoesntExist => Tag::ContainerRegistryRegistryDoesntExist,
        errors::Tag::ContainerRegistryInvalidCredentials => Tag::ContainerRegistryInvalidCredentials,
        errors::Tag::ContainerRegistryCannotLinkRegistryToCluster => Tag::ContainerRegistryCannotLinkRegistryToCluster,
        errors::Tag::ContainerRegistryCannotDeleteRegistry => Tag::ContainerRegistryCannotDeleteRegistry,
        errors::Tag::ContainerRegistryCannotSetRepositoryTags => Tag::ContainerRegistryCannotSetRepositoryTags,
        errors::Tag::ContainerRegistryUnknownError => Tag::ContainerRegistryUnknownError,
        errors::Tag::ContainerRegistryRepositoryNameInvalid => Tag::ContainerRegistryRepositoryNameInvalid,
        errors::Tag::BuilderDockerCannotListImages => Tag::BuilderDockerCannotListImages,
        errors::Tag::DockerError => Tag::DockerError,
        errors::Tag::ObjectStorageInvalidBucketName => Tag::ObjectStorageInvalidBucketName,
        errors::Tag::ObjectStorageCannotEmptyBucket => Tag::ObjectStorageCannotEmptyBucket,
        errors::Tag::ObjectStorageCannotTagBucket => Tag::ObjectStorageCannotTagBucket,
        errors::Tag::ObjectStorageCannotActivateBucketVersioning => Tag::ObjectStorageCannotActivateBucketVersioning,
        errors::Tag::BuilderError => Tag::BuilderError,
        errors::Tag::ContainerRegistryCannotCreateRegistry => Tag::ContainerRegistryCannotCreateRegistry,
        errors::Tag::UnsupportedClusterKind => Tag::UnsupportedClusterKind,
        errors::Tag::NotAllowedInstanceType => Tag::NotAllowedInstanceType,
        errors::Tag::TerraformConfigFileNotFound => Tag::TerraformQoveryConfigMismatch,
        errors::Tag::KubeconfigFileDoNotPermitToConnectToK8sCluster => Tag::KubeconfigFileDoNotPermitToConnectToK8sCluster,
        errors::Tag::KubeconfigSecurityCheckError => Tag::KubeconfigSecurityCheckError,
        errors::Tag::DeleteLocalKubeconfigFileError => Tag::DeleteLocalKubeconfigFileError,
        errors::Tag::VaultConnectionError => Tag::VaultConnectionError,
        errors::Tag::VaultSecretCouldNotBeRetrieved => Tag::VaultSecretCouldNotBeRetrieved,
        errors::Tag::VaultSecretCouldNotBeCreatedOrUpdated => Tag::VaultSecretCouldNotBeCreatedOrUpdated,
        errors::Tag::JsonDeserializationError => Tag::JsonDeserializationError,
        errors::Tag::ClusterSecretsManipulationError => Tag::ClusterSecretsManipulationError,
        errors::Tag::VaultSecretCouldNotBeDeleted => Tag::VaultSecretCouldNotBeDeleted,
        errors::Tag::ObjectStorageCannotDeleteFileIntoBucket => Tag::ObjectStorageCannotDeleteFileIntoBucket,
        errors::Tag::CannotGetNodeGroupList => Tag::CannotGetNodeGroupList,
        errors::Tag::CannotGetNodeGroupInfo => Tag::CannotGetNodeGroupInfo,
        errors::Tag::NumberOfRequestedMaxNodesIsBelowThanCurrentUsage => Tag::NumberOfRequestedMaxNodesIsBelowThanCurrentUsage,
        errors::Tag::CannotConnectK8sCluster => Tag::CannotConnectK8sCluster,
        errors::Tag::DnsProviderInformationError => Tag::DnsProviderInformationError,
        errors::Tag::CloudProviderInformationError => Tag::CloudProviderInformationError,
        errors::Tag::DnsProviderInvalidCredentials => Tag::DnsProviderInvalidCredentials,
        errors::Tag::DnsProviderInvalidApiUrl => Tag::DnsProviderInvalidApiUrl,
        errors::Tag::K8sErrorCopySecret => Tag::K8sErrorCopySecret,
        errors::Tag::K8sCannotReachToApi => Tag::K8sCannotReachToApi,
        errors::Tag::TerraformUnknownError => Tag::TerraformUnknownError,
        errors::Tag::TerraformConfigFileInvalidContent => Tag::TerraformConfigFileInvalidContent,
        errors::Tag::TerraformCannotDeleteLockFile => Tag::TerraformCannotDeleteLockFile,
        errors::Tag::TerraformInitError => Tag::TerraformInitError,
        errors::Tag::TerraformValidateError => Tag::TerraformValidateError,
        errors::Tag::TerraformPlanError => Tag::TerraformPlanError,
        errors::Tag::TerraformApplyError => Tag::TerraformApplyError,
        errors::Tag::TerraformDestroyError => Tag::TerraformDestroyError,
        errors::Tag::TerraformCloudProviderQuotasReached => Tag::TerraformCloudProviderQuotasReached,
        errors::Tag::TerraformCloudProviderActivationRequired => Tag::TerraformCloudProviderActivationRequired,
        errors::Tag::TerraformInvalidCredentials => Tag::TerraformInvalidCredentials,
        errors::Tag::TerraformServiceNotActivatedOptInRequired => Tag::TerraformServiceNotActivatedOptInRequired,
        errors::Tag::TerraformWaitingTimeoutResource => Tag::TerraformWaitingTimeoutResource,
        errors::Tag::TerraformAlreadyExistingResource => Tag::TerraformAlreadyExistingResource,
        errors::Tag::TerraformNotEnoughPermissions => Tag::TerraformNotEnoughPermissions,
        errors::Tag::TerraformWrongState => Tag::TerraformWrongState,
        errors::Tag::TerraformInstanceTypeDoesntExist => Tag::TerraformInstanceTypeDoesntExist,
        errors::Tag::TerraformMultipleInterruptsReceived => Tag::TerraformMultipleInterruptsReceived,
        errors::Tag::TerraformInstanceVolumeCannotBeReduced => Tag::TerraformInstanceVolumeCannotBeReduced,
        errors::Tag::TerraformS3BucketCreationErrorAlreadyOwnedByYou => Tag::TerraformS3BucketCreationErrorAlreadyOwnedByYou,
        errors::Tag::TerraformCannotImportResource => Tag::TerraformCannotImportResource,
        errors::Tag::HelmDeployTimeout => Tag::HelmDeployTimeout,
        errors::Tag::CannotPauseManagedDatabase => Tag::CannotPauseManagedDatabase,
        errors::Tag::ObjectStorageCannotDeleteBucket => Tag::ObjectStorageCannotDeleteBucket,
        errors::Tag::ObjectStorageQuotaExceeded => Tag::ObjectStorageQuotaExceeded,
        errors::Tag::ObjectStorageCannotGetObjectFile => Tag::ObjectStorageCannotGetObjectFile,
        errors::Tag::CloudProviderGetLoadBalancer => Tag::CloudProviderGetLoadBalancer,
        errors::Tag::CloudProviderGetLoadBalancerTags => Tag::CloudProviderGetLoadBalancerTags,
        errors::Tag::K8sCannotDeletePvc => Tag::K8sCannotDeletePvc,
        errors::Tag::CloudProviderDeleteLoadBalancer => Tag::CloudProviderDeleteLoadBalancer,
        errors::Tag::InvalidEnginePayload => Tag::InvalidEnginePayload,
        errors::Tag::JobFailure => Tag::JobFailure,
        errors::Tag::TerraformInvalidCIDRBlock => Tag::TerraformInvalidCIDRBlock,
        errors::Tag::DoNotRespectCloudProviderBestPractices => Tag::DoNotRespectCloudProviderBestPractices,
        errors::Tag::TerraformStateLocked => Tag::TerraformStateLocked,
        errors::Tag::K8sCannotGetPVCs => Tag::K8sCannotGetPVCs,
        errors::Tag::K8sCannotGetServices => Tag::K8sCannotGetServices,
        errors::Tag::K8sCannotBoundPVC => Tag::K8sCannotBoundPVC,
        errors::Tag::K8sCannotOrphanDelete => Tag::K8sCannotOrphanDelete,
        errors::Tag::K8sCannotPVCEdit => Tag::K8sCannotPVCEdit,
        errors::Tag::K8sCannotGetStatefulset => Tag::K8sCannotGetStatefulset,
        errors::Tag::K8sCannotRolloutRestartStatefulset => Tag::K8sCannotRolloutRestartStatefulset,
        errors::Tag::K8sCannotApplyFromFile => Tag::K8sCannotApplyFromFile,
        errors::Tag::K8sAddonVersionNotSupported => Tag::K8sAddonVersionNotSupported,
        errors::Tag::CannotListClusters => Tag::CannotListClusters,
        errors::Tag::CannotParseString => Tag::CannotParseString,
        errors::Tag::CannotDeleteNodeGroup => Tag::CannotDeleteNodeGroup,
        errors::Tag::CannotRestartService => Tag::CannotRestartService,
        errors::Tag::AwsSdkGetClient => Tag::AwsSdkGetClient,
        errors::Tag::AwsSdkListRdsInstances => Tag::AwsSdkListRdsInstances,
        errors::Tag::AwsSdkListElasticacheClusters => Tag::AwsSdkListElasticacheClusters,
        errors::Tag::AwsSdkListDocDbClusters => Tag::AwsSdkListDocDbClusters,
        errors::Tag::AwsCloudwatchRetentionConfigurationError => Tag::AwsCloudwatchRetentionConfigurationError,
        errors::Tag::AwsSdkListEC2Volumes => Tag::AwsSdkListEC2Volumes,
        errors::Tag::AwsSdkDetachEC2Volumes => Tag::AwsSdkDetachEC2Volumes,
        errors::Tag::AwsSdkListEC2Instances => Tag::AwsSdkListEC2Instances,
        errors::Tag::Base64DecodeIssue => Tag::Base64DecodeIssue,
        errors::Tag::CannotReadFile => Tag::CannotReadFile,
        errors::Tag::InvalidJobOutputCannotBeSerialized => Tag::InvalidJobOutputCannotBeSerialized,
        errors::Tag::DatabaseError => Tag::DatabaseError,
    }
}

/// The internal kind that a boundary kind stands for, if any.
pub open spec fn internal_tag(tag: Tag) -> Option<errors::Tag> {
    match tag {
        Tag::Unknown => Some(errors::Tag::Unknown),
        Tag::InvalidEngineApiInputCannotBeDeserialized => Some(errors::Tag::InvalidEngineApiInputCannotBeDeserialized),
        Tag::MissingRequiredEnvVariable => Some(errors::Tag::MissingRequiredEnvVariable),
        Tag::ClusterHasNoWorkerNodes => Some(errors::Tag::ClusterHasNoWorkerNodes),
        Tag::ClusterWorkerNodeNotFound => Some(errors::Tag::ClusterWorkerNodeNotFound),
        Tag::CannotGetWorkspaceDirectory => Some(errors::Tag::CannotGetWorkspaceDirectory),
        Tag::UnsupportedInstanceType => Some(errors::Tag::UnsupportedInstanceType),
        Tag::CannotRetrieveClusterConfigFile => Some(errors::Tag::CannotRetrieveClusterConfigFile),
        Tag::CannotCreateFile => Some(errors::Tag::CannotCreateFile),
        Tag::CannotGetClusterNodes => Some(errors::Tag::CannotGetClusterNodes),
        Tag::NotEnoughNodesAvailableToDeployEnvironment => Some(errors::Tag::NotEnoughNodesAvailableToDeployEnvironment),
        Tag::NotEnoughResourcesToDeployEnvironment => Some(errors::Tag::NotEnoughResourcesToDeployEnvironment),
        Tag::CannotUninstallHelmChart => Some(errors::Tag::CannotUninstallHelmChart),
        Tag::CannotExecuteK8sVersion => Some(errors::Tag::CannotExecuteK8sVersion),
        Tag::CannotDetermineK8sMasterVersion => Some(errors::Tag::CannotDetermineK8sMasterVersion),
        Tag::CannotDetermineK8sRequestedUpgradeVersion => Some(errors::Tag::CannotDetermineK8sRequestedUpgradeVersion),
        Tag::CannotDetermineK8sKubeletWorkerVersion => Some(errors::Tag::CannotDetermineK8sKubeletWorkerVersion),
        Tag::CannotDetermineK8sKubeProxyVersion => Some(errors::Tag::CannotDetermineK8sKubeProxyVersion),
        Tag::CannotExecuteK8sApiCustomMetrics => Some(errors::Tag::CannotExecuteK8sApiCustomMetrics),
        Tag::K8sPodDisruptionBudgetInInvalidState => Some(errors::Tag::K8sPodDisruptionBudgetInInvalidState),
        Tag::K8sPodsDisruptionBudgetCannotBeRetrieved => Some(errors::Tag::K8sPodsDisruptionBudgetCannotBeRetrieved),
        Tag::K8sCannotDeletePod => Some(errors::Tag::K8sCannotDeletePod),
        Tag::K8sCannotDeletePvc => Some(errors::Tag::K8sCannotDeletePvc),
        Tag::K8sCannotGetCrashLoopingPods => Some(errors::Tag::K8sCannotGetCrashLoopingPods),
        Tag::K8sCannotDeleteCompletedJobs => Some(errors::Tag::K8sCannotDeleteCompletedJobs),
        Tag::K8sCannotGetPods => Some(errors::Tag::K8sCannotGetPods),
        Tag::K8sUpgradeDeployedVsRequestedVersionsInconsistency => Some(errors::Tag::K8sUpgradeDeployedVsRequestedVersionsInconsistency),
        Tag::K8sScaleReplicas => Some(errors::Tag::K8sScaleReplicas),
        Tag::K8sLoadBalancerConfigurationIssue => Some(errors::Tag::K8sLoadBalancerConfigurationIssue),
        Tag::K8sServiceError => Some(errors::Tag::K8sServiceError),
        Tag::K8sGetLogs => Some(errors::Tag::K8sGetLogs),
        Tag::K8sGetEvents => Some(errors::Tag::K8sGetEvents),
        Tag::K8sDescribe => Some(errors::Tag::K8sDescribe),
        Tag::K8sHistory => Some(errors::Tag::K8sHistory),
        Tag::K8sCannotCreateNamespace => Some(errors::Tag::K8sCannotCreateNamespace),
        Tag::K8sPodIsNotReady => Some(errors::Tag::K8sPodIsNotReady),
        Tag::K8sNodeIsNotReadyWithTheRequestedVersion => Some(errors::Tag::K8sNodeIsNotReadyWithTheRequestedVersion),
        Tag::K8sNodeIsNotReady => Some(errors::Tag::K8sNodeIsNotReady),
        Tag::K8sErrorCopySecret => Some(errors::Tag::K8sErrorCopySecret),
        Tag::K8sCannotGetPVCs => Some(errors::Tag::K8sCannotGetPVCs),
        Tag::K8sCannotBoundPVC => Some(errors::Tag::K8sCannotBoundPVC),
        Tag::K8sCannotGetServices => Some(errors::Tag::K8sCannotGetServices),
        Tag::K8sCannotOrphanDelete => Some(errors::Tag::K8sCannotOrphanDelete),
        Tag::K8sCannotPVCEdit => Some(errors::Tag::K8sCannotPVCEdit),
        Tag::K8sCannotGetStatefulset => Some(errors::Tag::K8sCannotGetStatefulset),
        Tag::K8sCannotRolloutRestartStatefulset => Some(errors::Tag::K8sCannotRolloutRestartStatefulset),
        Tag::K8sCannotApplyFromFile => Some(errors::Tag::K8sCannotApplyFromFile),
        Tag::K8sGetDeploymentError => Some(errors::Tag::K8sGetDeploymentError),
        Tag::K8sDeleteDeploymentError => Some(errors::Tag::K8sDeleteDeploymentError),
        Tag::K8sGetStatefulsetError => Some(errors::Tag::K8sGetStatefulsetError),
        Tag::K8sDeleteStatefulsetError => Some(errors::Tag::K8sDeleteStatefulsetError),
        Tag::K8sAddonVersionNotSupported => Some(errors::Tag::K8sAddonVersionNotSupported),
        Tag::UnsupportedRegion => Some(errors::Tag::UnsupportedRegion),
        Tag::UnsupportedZone => Some(errors::Tag::UnsupportedZone),
        Tag::CannotFindRequiredBinary => Some(errors::Tag::CannotFindRequiredBinary),
        Tag::SubnetsCountShouldBeEven => Some(errors::Tag::SubnetsCountShouldBeEven),
        Tag::CannotGetOrCreateIamRole => Some(errors::Tag::CannotGetOrCreateIamRole),
        Tag::CannotCopyFilesFromDirectoryToDirectory => Some(errors::Tag::CannotCopyFilesFromDirectoryToDirectory),
        Tag::CannotPauseClusterTasksAreRunning => Some(errors::Tag::CannotPauseClusterTasksAreRunning),
        Tag::CannotPauseManagedDatabase => Some(errors::Tag::CannotPauseManagedDatabase),
        Tag::TerraformCannotRemoveEntryOut => Some(errors::Tag::TerraformCannotRemoveEntryOut),
        Tag::TerraformErrorWhileExecutingPipeline => Some(errors::Tag::TerraformErrorWhileExecutingPipeline),
        Tag::TerraformErrorWhileExecutingDestroyPipeline => Some(errors::Tag::TerraformErrorWhileExecutingDestroyPipeline),
        Tag::TerraformCannotImportResource => Some(errors::Tag::TerraformCannotImportResource),
        Tag::HelmChartsSetupError => Some(errors::Tag::HelmChartsSetupError),
        Tag::HelmChartsDeployError => Some(errors::Tag::HelmChartsDeployError),
        Tag::HelmChartsUpgradeError => Some(errors::Tag::HelmChartsUpgradeError),
        Tag::HelmChartUninstallError => Some(errors::Tag::HelmChartUninstallError),
        Tag::HelmDeployTimeout => Some(errors::Tag::HelmDeployTimeout),
        Tag::HelmHistoryError => Some(errors::Tag::HelmHistoryError),
        Tag::CannotGetAnyAvailableVPC => Some(errors::Tag::CannotGetAnyAvailableVPC),
        Tag::UnsupportedVersion => Some(errors::Tag::UnsupportedVersion),
        Tag::UnsupportedClusterKind => Some(errors::Tag::UnsupportedClusterKind),
        Tag::NotAllowedInstanceType => Some(errors::Tag::NotAllowedInstanceType),
        Tag::CannotGetSupportedVersions => Some(errors::Tag::CannotGetSupportedVersions),
        Tag::CannotGetCluster => Some(errors::Tag::CannotGetCluster),
        Tag::NoClusterFound => Some(errors::Tag::NoClusterFound),
        Tag::OnlyOneClusterExpected => Some(errors::Tag::OnlyOneClusterExpected),
        Tag::CloudProviderApiMissingInfo => Some(errors::Tag::CloudProviderApiMissingInfo),
        Tag::K8sValidateRequiredCPUandBurstableError => Some(errors::Tag::K8sValidateRequiredCPUandBurstableError),
        Tag::ClientServiceFailedToStart => Some(errors::Tag::ClientServiceFailedToStart),
        Tag::ClientServiceFailedToDeployBeforeStart => Some(errors::Tag::ClientServiceFailedToDeployBeforeStart),
        Tag::DatabaseFailedToStartAfterSeveralRetries => Some(errors::Tag::DatabaseFailedToStartAfterSeveralRetries),
        Tag::RouterFailedToDeploy => Some(errors::Tag::RouterFailedToDeploy),
        Tag::CloudProviderClientInvalidCredentials => Some(errors::Tag::CloudProviderClientInvalidCredentials),
        Tag::VersionNumberParsingError => Some(errors::Tag::VersionNumberParsingError),
        Tag::NotImplementedError => Some(errors::Tag::NotImplementedError),
        Tag::TaskCancelled => Some(errors::Tag::TaskCancellationRequested),
        Tag::BuilderError => Some(errors::Tag::BuilderError),
        Tag::BuilderDockerCannotFindAnyDockerfile => Some(errors::Tag::BuilderDockerCannotFindAnyDockerfile),
        Tag::BuilderDockerCannotReadDockerfile => Some(errors::Tag::BuilderDockerCannotReadDockerfile),
        Tag::BuilderDockerCannotExtractEnvVarsFromDockerfile => Some(errors::Tag::BuilderDockerCannotExtractEnvVarsFromDockerfile),
        Tag::BuilderDockerCannotBuildContainerImage => Some(errors::Tag::BuilderDockerCannotBuildContainerImage),
        Tag::BuilderBuildpackInvalidLanguageFormat => Some(errors::Tag::BuilderBuildpackInvalidLanguageFormat),
        Tag::BuilderBuildpackCannotBuildContainerImage => Some(errors::Tag::BuilderBuildpackCannotBuildContainerImage),
        Tag::BuilderGetBuildError => Some(errors::Tag::BuilderGetBuildError),
        Tag::BuilderCloningRepositoryError => Some(errors::Tag::BuilderCloningRepositoryError),
        Tag::DockerError => Some(errors::Tag::DockerError),
        Tag::DockerPushImageError => Some(errors::Tag::DockerPushImageError),
        Tag::DockerPullImageError => Some(errors::Tag::DockerPullImageError),
        Tag::BuilderDockerCannotListImages => Some(errors::Tag::BuilderDockerCannotListImages),
        Tag::ContainerRegistryCannotCreateRepository => Some(errors::Tag::ContainerRegistryCannotCreateRepository),
        Tag::ContainerRegistryCannotSetRepositoryLifecycleError => Some(errors::Tag::ContainerRegistryCannotSetRepositoryLifecycle),
        Tag::ContainerRegistryCannotGetCredentials => Some(errors::Tag::ContainerRegistryCannotGetCredentials),
        Tag::ContainerRegistryImageDoesntExist => Some(errors::Tag::ContainerRegistryImageDoesntExist),
        Tag::ContainerRegistryImageUnreachableAfterPush => Some(errors::Tag::ContainerRegistryImageUnreachableAfterPush),
        Tag::ContainerRegistryRepositoryDoesntExistInRegistry => Some(errors::Tag::ContainerRegistryRepositoryDoesntExistInRegistry),
        Tag::ContainerRegistryCannotDeleteRepository => Some(errors::Tag::ContainerRegistryCannotDeleteRepository),
        Tag::ContainerRegistryCannotDeleteRegistry => Some(errors::Tag::ContainerRegistryCannotDeleteRegistry),
        Tag::ContainerRegistryCannotDeleteImage => Some(errors::Tag::ContainerRegistryCannotDeleteImage),
        Tag::ContainerRegistryInvalidInformation => Some(errors::Tag::ContainerRegistryInvalidInformation),
        Tag::ContainerRegistryCannotCreateRegistry => Some(errors::Tag::ContainerRegistryCannotCreateRegistry),
        Tag::ContainerRegistryRegistryDoesntExist => Some(errors::Tag::ContainerRegistryRegistryDoesntExist),
        Tag::ContainerRegistryInvalidCredentials => Some(errors::Tag::ContainerRegistryInvalidCredentials),
        Tag::ContainerRegistryCannotLinkRegistryToCluster => Some(errors::Tag::ContainerRegistryCannotLinkRegistryToCluster),
        Tag::ContainerRegistryCannotSetRepositoryTags => Some(errors::Tag::ContainerRegistryCannotSetRepositoryTags),
        Tag::ContainerRegistryUnknownError => Some(errors::Tag::ContainerRegistryUnknownError),
        Tag::ContainerRegistryRepositoryNameInvalid => Some(errors::Tag::ContainerRegistryRepositoryNameInvalid),
        Tag::ObjectStorageInvalidBucketName => Some(errors::Tag::ObjectStorageInvalidBucketName),
        Tag::ObjectStorageCannotEmptyBucket => Some(errors::Tag::ObjectStorageCannotEmptyBucket),
        Tag::ObjectStorageCannotTagBucket => Some(errors::Tag::ObjectStorageCannotTagBucket),
        Tag::ObjectStorageCannotActivateBucketVersioning => Some(errors::Tag::ObjectStorageCannotActivateBucketVersioning),
        Tag::ObjectStorageCannotDeleteBucket => Some(errors::Tag::ObjectStorageCannotDeleteBucket),
        Tag::ObjectStorageQuotaExceeded => Some(errors::Tag::ObjectStorageQuotaExceeded),
        Tag::ObjectStorageCannotGetObjectFile => Some(errors::Tag::ObjectStorageCannotGetObjectFile),
        Tag::ObjectStorageCannotCreateBucket => Some(errors::Tag::ObjectStorageCannotCreateBucket),
        Tag::ObjectStorageCannotPutFileIntoBucket => Some(errors::Tag::ObjectStorageCannotPutFileIntoBucket),
        Tag::ObjectStorageCannotDeleteFileIntoBucket => Some(errors::Tag::ObjectStorageCannotDeleteFileIntoBucket),
        Tag::KubeconfigFileDoNotPermitToConnectToK8sCluster => Some(errors::Tag::KubeconfigFileDoNotPermitToConnectToK8sCluster),
        Tag::KubeconfigSecurityCheckError => Some(errors::Tag::KubeconfigSecurityCheckError),
        Tag::DeleteLocalKubeconfigFileError => Some(errors::Tag::DeleteLocalKubeconfigFileError),
        Tag::VaultConnectionError => Some(errors::Tag::VaultConnectionError),
        Tag::VaultSecretCouldNotBeRetrieved => Some(errors::Tag::VaultSecretCouldNotBeRetrieved),
        Tag::VaultSecretCouldNotBeCreatedOrUpdated => Some(errors::Tag::VaultSecretCouldNotBeCreatedOrUpdated),
        Tag::VaultSecretCouldNotBeDeleted => Some(errors::Tag::VaultSecretCouldNotBeDeleted),
        Tag::JsonDeserializationError => Some(errors::Tag::JsonDeserializationError),
        Tag::ClusterSecretsManipulationError => Some(errors::Tag::ClusterSecretsManipulationError),
        Tag::CannotGetNodeGroupList => Some(errors::Tag::CannotGetNodeGroupList),
        Tag::CannotGetNodeGroupInfo => Some(errors::Tag::CannotGetNodeGroupInfo),
        Tag::CannotConnectK8sCluster => Some(errors::Tag::CannotConnectK8sCluster),
        Tag::NumberOfRequestedMaxNodesIsBelowThanCurrentUsage => Some(errors::Tag::NumberOfRequestedMaxNodesIsBelowThanCurrentUsage),
        Tag::DnsProviderInformationError => Some(errors::Tag::DnsProviderInformationError),
        Tag::CloudProviderInformationError => Some(errors::Tag::CloudProviderInformationError),
        Tag::DnsProviderInvalidCredentials => Some(errors::Tag::DnsProviderInvalidCredentials),
        Tag::DnsProviderInvalidApiUrl => Some(errors::Tag::DnsProviderInvalidApiUrl),
        Tag::K8sCannotReachToApi => Some(errors::Tag::K8sCannotReachToApi),
        Tag::TerraformUnknownError => Some(errors::Tag::TerraformUnknownError),
        Tag::TerraformConfigFileInvalidContent => Some(errors::Tag::TerraformConfigFileInvalidContent),
        Tag::TerraformCannotDeleteLockFile => Some(errors::Tag::TerraformCannotDeleteLockFile),
        Tag::TerraformInitError => Some(errors::Tag::TerraformInitError),
        Tag::TerraformValidateError => Some(errors::Tag::TerraformValidateError),
        Tag::TerraformPlanError => Some(errors::Tag::TerraformPlanError),
        Tag::TerraformApplyError => Some(errors::Tag::TerraformApplyError),
        Tag::TerraformStatelistError => None,
        Tag::TerraformDestroyError => Some(errors::Tag::TerraformDestroyError),
        Tag::TerraformCloudProviderQuotasReached => Some(errors::Tag::TerraformCloudProviderQuotasReached),
        Tag::TerraformCloudProviderActivationRequired => Some(errors::Tag::TerraformCloudProviderActivationRequired),
        Tag::TerraformInvalidCredentials => Some(errors::Tag::TerraformInvalidCredentials),
        Tag::TerraformServiceNotActivatedOptInRequired => Some(errors::Tag::TerraformServiceNotActivatedOptInRequired),
        Tag::TerraformNotEnoughPermissions => Some(errors::Tag::TerraformNotEnoughPermissions),
        Tag::TerraformWaitingTimeoutResource => Some(errors::Tag::TerraformWaitingTimeoutResource),
        Tag::TerraformAlreadyExistingResource => Some(errors::Tag::TerraformAlreadyExistingResource),
        Tag::TerraformWrongState => Some(errors::Tag::TerraformWrongState),
        Tag::TerraformResourceDependencyViolation => Some(errors::Tag::TerraformResourceDependencyViolation),
        Tag::TerraformContextUnsupportedParameterValue => Some(errors::Tag::TerraformContextUnsupportedParameterValue),
        Tag::TerraformQoveryConfigMismatch => Some(errors::Tag::TerraformConfigFileNotFound),
        Tag::TerraformInstanceTypeDoesntExist => Some(errors::Tag::TerraformInstanceTypeDoesntExist),
        Tag::TerraformMultipleInterruptsReceived => Some(errors::Tag::TerraformMultipleInterruptsReceived),
        Tag::TerraformAccountBlockedByProvider => Some(errors::Tag::TerraformAccountBlockedByProvider),
        Tag::TerraformInstanceVolumeCannotBeReduced => Some(errors::Tag::TerraformInstanceVolumeCannotBeReduced),
        Tag::TerraformInvalidCIDRBlock => Some(errors::Tag::TerraformInvalidCIDRBlock),
        Tag::TerraformStateLocked => Some(errors::Tag::TerraformStateLocked),
        Tag::TerraformClusterUnsupportedVersionUpdate => Some(errors::Tag::TerraformClusterUnsupportedVersionUpdate),
        Tag::TerraformS3BucketCreationErrorAlreadyOwnedByYou => Some(errors::Tag::TerraformS3BucketCreationErrorAlreadyOwnedByYou),
        Tag::CloudProviderGetLoadBalancer => Some(errors::Tag::CloudProviderGetLoadBalancer),
        Tag::CloudProviderGetLoadBalancerTags => Some(errors::Tag::CloudProviderGetLoadBalancerTags),
        Tag::CloudProviderDeleteLoadBalancer => Some(errors::Tag::CloudProviderDeleteLoadBalancer),
        Tag::InvalidEnginePayload => Some(errors::Tag::InvalidEnginePayload),
        Tag::JobFailure => Some(errors::Tag::JobFailure),
        Tag::DoNotRespectCloudProviderBestPractices => Some(errors::Tag::DoNotRespectCloudProviderBestPractices),
        Tag::CannotListClusters => Some(errors::Tag::CannotListClusters),
        Tag::CannotParseString => Some(errors::Tag::CannotParseString),
        Tag::CannotDeleteNodeGroup => Some(errors::Tag::CannotDeleteNodeGroup),
        Tag::CannotRestartService => Some(errors::Tag::CannotRestartService),
        Tag::AwsSdkGetClient => Some(errors::Tag::AwsSdkGetClient),
        Tag::AwsSdkListRdsInstances => Some(errors::Tag::AwsSdkListRdsInstances),
        Tag::AwsSdkListElasticacheClusters => Some(errors::Tag::AwsSdkListElasticacheClusters),
        Tag::AwsSdkListDocDbClusters => Some(errors::Tag::AwsSdkListDocDbClusters),
        Tag::AwsCloudwatchRetentionConfigurationError => Some(errors::Tag::AwsCloudwatchRetentionConfigurationError),
        Tag::AwsSdkListEC2Volumes => Some(errors::Tag::AwsSdkListEC2Volumes),
        Tag::AwsSdkDetachEC2Volumes => Some(errors::Tag::AwsSdkDetachEC2Volumes),
        Tag::AwsSdkListEC2Instances => Some(errors::Tag::AwsSdkListEC2Instances),
        Tag::Base64DecodeIssue => Some(errors::Tag::Base64DecodeIssue),
        Tag::CannotReadFile => Some(errors::Tag::CannotReadFile),
        Tag::InvalidJobOutputCannotBeSerialized => Some(errors::Tag::InvalidJobOutputCannotBeSerialized),
        Tag::DatabaseError => Some(errors::Tag::DatabaseError),
    }
}

impl From<errors::Tag> for Tag {
    fn from(tag: errors::Tag) -> (r: Self) {
        match tag {
            errors::Tag::Unknown => Tag::Unknown,
            errors::Tag::TerraformAccountBlockedByProvider => Tag::TerraformAccountBlockedByProvider,
            errors::Tag::InvalidEngineApiInputCannotBeDeserialized => Tag::InvalidEngineApiInputCannotBeDeserialized,
            errors::Tag::UnsupportedInstanceType => Tag::UnsupportedInstanceType,
            errors::Tag::CannotRetrieveClusterConfigFile => Tag::CannotRetrieveClusterConfigFile,
            errors::Tag::CannotCreateFile => Tag::CannotCreateFile,
            errors::Tag::CannotGetClusterNodes => Tag::CannotGetClusterNodes,
            errors::Tag::NotEnoughNodesAvailableToDeployEnvironment => Tag::NotEnoughNodesAvailableToDeployEnvironment,
            errors::Tag::NotEnoughResourcesToDeployEnvironment => Tag::NotEnoughResourcesToDeployEnvironment,
            errors::Tag::MissingRequiredEnvVariable => Tag::MissingRequiredEnvVariable,
            errors::Tag::ClusterHasNoWorkerNodes => Tag::ClusterHasNoWorkerNodes,
            errors::Tag::ClusterWorkerNodeNotFound => Tag::ClusterWorkerNodeNotFound,
            errors::Tag::CannotGetWorkspaceDirectory => Tag::CannotGetWorkspaceDirectory,
            errors::Tag::CannotUninstallHelmChart => Tag::CannotUninstallHelmChart,
            errors::Tag::CannotExecuteK8sVersion => Tag::CannotExecuteK8sVersion,
            errors::Tag::CannotDetermineK8sMasterVersion => Tag::CannotDetermineK8sMasterVersion,
            errors::Tag::CannotDetermineK8sRequestedUpgradeVersion => Tag::CannotDetermineK8sRequestedUpgradeVersion,
            errors::Tag::CannotDetermineK8sKubeletWorkerVersion => Tag::CannotDetermineK8sKubeletWorkerVersion,
            errors::Tag::CannotDetermineK8sKubeProxyVersion => Tag::CannotDetermineK8sKubeProxyVersion,
            errors::Tag::CannotExecuteK8sApiCustomMetrics => Tag::CannotExecuteK8sApiCustomMetrics,
            errors::Tag::K8sPodDisruptionBudgetInInvalidState => Tag::K8sPodDisruptionBudgetInInvalidState,
            errors::Tag::K8sPodsDisruptionBudgetCannotBeRetrieved => Tag::K8sPodsDisruptionBudgetCannotBeRetrieved,
            errors::Tag::K8sCannotDeletePod => Tag::K8sCannotDeletePod,
            errors::Tag::K8sCannotGetCrashLoopingPods => Tag::K8sCannotGetCrashLoopingPods,
            errors::Tag::K8sCannotDeleteCompletedJobs => Tag::K8sCannotDeleteCompletedJobs,
            errors::Tag::K8sCannotGetPods => Tag::K8sCannotGetPods,
            errors::Tag::K8sUpgradeDeployedVsRequestedVersionsInconsistency => Tag::K8sUpgradeDeployedVsRequestedVersionsInconsistency,
            errors::Tag::K8sScaleReplicas => Tag::K8sScaleReplicas,
            errors::Tag::K8sLoadBalancerConfigurationIssue => Tag::K8sLoadBalancerConfigurationIssue,
            errors::Tag::K8sServiceError => Tag::K8sServiceError,
            errors::Tag::K8sGetLogs => Tag::K8sGetLogs,
            errors::Tag::K8sGetEvents => Tag::K8sGetEvents,
            errors::Tag::K8sDescribe => Tag::K8sDescribe,
            errors::Tag::K8sHistory => Tag::K8sHistory,
            errors::Tag::K8sCannotCreateNamespace => Tag::K8sCannotCreateNamespace,
            errors::Tag::K8sPodIsNotReady => Tag::K8sPodIsNotReady,
            errors::Tag::K8sGetDeploymentError => Tag::K8sGetDeploymentError,
            errors::Tag::K8sDeleteDeploymentError => Tag::K8sDeleteDeploymentError,
            errors::Tag::K8sGetStatefulsetError => Tag::K8sGetStatefulsetError,
            errors::Tag::K8sDeleteStatefulsetError => Tag::K8sDeleteStatefulsetError,
            errors::Tag::CannotFindRequiredBinary => Tag::CannotFindRequiredBinary,
            errors::Tag::SubnetsCountShouldBeEven => Tag::SubnetsCountShouldBeEven,
            errors::Tag::CannotGetOrCreateIamRole => Tag::CannotGetOrCreateIamRole,
            errors::Tag::CannotCopyFilesFromDirectoryToDirectory => Tag::CannotCopyFilesFromDirectoryToDirectory,
            errors::Tag::CannotPauseClusterTasksAreRunning => Tag::CannotPauseClusterTasksAreRunning,
            errors::Tag::TerraformCannotRemoveEntryOut => Tag::TerraformCannotRemoveEntryOut,
            errors::Tag::TerraformErrorWhileExecutingPipeline => Tag::TerraformErrorWhileExecutingPipeline,
            errors::Tag::TerraformErrorWhileExecutingDestroyPipeline => Tag::TerraformErrorWhileExecutingDestroyPipeline,
            errors::Tag::TerraformResourceDependencyViolation => Tag::TerraformResourceDependencyViolation,
            errors::Tag::TerraformClusterUnsupportedVersionUpdate => Tag::TerraformClusterUnsupportedVersionUpdate,
            errors::Tag::HelmChartsSetupError => Tag::HelmChartsSetupError,
            errors::Tag::HelmChartsDeployError => Tag::HelmChartsDeployError,
            errors::Tag::HelmChartsUpgradeError => Tag::HelmChartsUpgradeError,
            errors::Tag::HelmChartUninstallError => Tag::HelmChartUninstallError,
            errors::Tag::HelmHistoryError => Tag::HelmHistoryError,
            errors::Tag::CannotGetAnyAvailableVPC => Tag::CannotGetAnyAvailableVPC,
            errors::Tag::UnsupportedVersion => Tag::UnsupportedVersion,
            errors::Tag::CannotGetSupportedVersions => Tag::CannotGetSupportedVersions,
            errors::Tag::CannotGetCluster => Tag::CannotGetCluster,
            errors::Tag::ObjectStorageCannotCreateBucket => Tag::ObjectStorageCannotCreateBucket,
            errors::Tag::ObjectStorageCannotPutFileIntoBucket => Tag::ObjectStorageCannotPutFileIntoBucket,
            errors::Tag::UnsupportedRegion => Tag::UnsupportedRegion,
            errors::Tag::UnsupportedZone => Tag::UnsupportedZone,
            errors::Tag::K8sNodeIsNotReadyWithTheRequestedVersion => Tag::K8sNodeIsNotReadyWithTheRequestedVersion,
            errors::Tag::K8sNodeIsNotReady => Tag::K8sNodeIsNotReady,
            errors::Tag::NoClusterFound => Tag::NoClusterFound,
            errors::Tag::OnlyOneClusterExpected => Tag::OnlyOneClusterExpected,
            errors::Tag::CloudProviderApiMissingInfo => Tag::CloudProviderApiMissingInfo,
            errors::Tag::K8sValidateRequiredCPUandBurstableError => Tag::K8sValidateRequiredCPUandBurstableError,
            errors::Tag::TerraformContextUnsupportedParameterValue => Tag::TerraformContextUnsupportedParameterValue,
            errors::Tag::ClientServiceFailedToStart => Tag::ClientServiceFailedToStart,
            errors::Tag::ClientServiceFailedToDeployBeforeStart => Tag::ClientServiceFailedToDeployBeforeStart,
            errors::Tag::DatabaseFailedToStartAfterSeveralRetries => Tag::DatabaseFailedToStartAfterSeveralRetries,
            errors::Tag::RouterFailedToDeploy => Tag::RouterFailedToDeploy,
            errors::Tag::CloudProviderClientInvalidCredentials => Tag::CloudProviderClientInvalidCredentials,
            errors::Tag::VersionNumberParsingError => Tag::VersionNumberParsingError,
            errors::Tag::NotImplementedError => Tag::NotImplementedError,
            errors::Tag::TaskCancellationRequested => Tag::TaskCancelled,
            errors::Tag::BuilderDockerCannotFindAnyDockerfile => Tag::BuilderDockerCannotFindAnyDockerfile,
            errors::Tag::BuilderDockerCannotReadDockerfile => Tag::BuilderDockerCannotReadDockerfile,
            errors::Tag::BuilderDockerCannotExtractEnvVarsFromDockerfile => Tag::BuilderDockerCannotExtractEnvVarsFromDockerfile,
            errors::Tag::BuilderDockerCannotBuildContainerImage => Tag::BuilderDockerCannotBuildContainerImage,
            errors::Tag::BuilderBuildpackInvalidLanguageFormat => Tag::BuilderBuildpackInvalidLanguageFormat,
            errors::Tag::BuilderBuildpackCannotBuildContainerImage => Tag::BuilderBuildpackCannotBuildContainerImage,
            errors::Tag::BuilderGetBuildError => Tag::BuilderGetBuildError,
            errors::Tag::BuilderCloningRepositoryError => Tag::BuilderCloningRepositoryError,
            errors::Tag::DockerPushImageError => Tag::DockerPushImageError,
            errors::Tag::DockerPullImageError => Tag::DockerPullImageError,
            errors::Tag::ContainerRegistryCannotCreateRepository => Tag::ContainerRegistryCannotCreateRepository,
            errors::Tag::ContainerRegistryCannotSetRepositoryLifecycle => Tag::ContainerRegistryCannotSetRepositoryLifecycleError,
            errors::Tag::ContainerRegistryCannotGetCredentials => Tag::ContainerRegistryCannotGetCredentials,
            errors::Tag::ContainerRegistryCannotDeleteImage => Tag::ContainerRegistryCannotDeleteImage,
            errors::Tag::ContainerRegistryImageDoesntExist => Tag::ContainerRegistryImageDoesntExist,
            errors::Tag::ContainerRegistryImageUnreachableAfterPush => Tag::ContainerRegistryImageUnreachableAfterPush,
            errors::Tag::ContainerRegistryRepositoryDoesntExistInRegistry => Tag::ContainerRegistryRepositoryDoesntExistInRegistry,
            errors::Tag::ContainerRegistryCannotDeleteRepository => Tag::ContainerRegistryCannotDeleteRepository,
            errors::Tag::ContainerRegistryInvalidInformation => Tag::ContainerRegistryInvalidInformation,
            errors::Tag::ContainerRegistryRegistryDoesntExist => Tag::ContainerRegistryRegistryDoesntExist,
            errors::Tag::ContainerRegistryInvalidCredentials => Tag::ContainerRegistryInvalidCredentials,
            errors::Tag::ContainerRegistryCannotLinkRegistryToCluster => Tag::ContainerRegistryCannotLinkRegistryToCluster,
            errors::Tag::ContainerRegistryCannotDeleteRegistry => Tag::ContainerRegistryCannotDeleteRegistry,
            errors::Tag::ContainerRegistryCannotSetRepositoryTags => Tag::ContainerRegistryCannotSetRepositoryTags,
            errors::Tag::ContainerRegistryUnknownError => Tag::ContainerRegistryUnknownError,
            errors::Tag::ContainerRegistryRepositoryNameInvalid => Tag::ContainerRegistryRepositoryNameInvalid,
            errors::Tag::BuilderDockerCannotListImages => Tag::BuilderDockerCannotListImages,
            errors::Tag::DockerError => Tag::DockerError,
            errors::Tag::ObjectStorageInvalidBucketName => Tag::ObjectStorageInvalidBucketName,
            errors::Tag::ObjectStorageCannotEmptyBucket => Tag::ObjectStorageCannotEmptyBucket,
            errors::Tag::ObjectStorageCannotTagBucket => Tag::ObjectStorageCannotTagBucket,
            errors::Tag::ObjectStorageCannotActivateBucketVersioning => Tag::ObjectStorageCannotActivateBucketVersioning,
            errors::Tag::BuilderError => Tag::BuilderError,
            errors::Tag::ContainerRegistryCannotCreateRegistry => Tag::ContainerRegistryCannotCreateRegistry,
            errors::Tag::UnsupportedClusterKind => Tag::UnsupportedClusterKind,
            errors::Tag::NotAllowedInstanceType => Tag::NotAllowedInstanceType,
            errors::Tag::TerraformConfigFileNotFound => Tag::TerraformQoveryConfigMismatch,
            errors::Tag::KubeconfigFileDoNotPermitToConnectToK8sCluster => Tag::KubeconfigFileDoNotPermitToConnectToK8sCluster,
            errors::Tag::KubeconfigSecurityCheckError => Tag::KubeconfigSecurityCheckError,
            errors::Tag::DeleteLocalKubeconfigFileError => Tag::DeleteLocalKubeconfigFileError,
            errors::Tag::VaultConnectionError => Tag::VaultConnectionError,
            errors::Tag::VaultSecretCouldNotBeRetrieved => Tag::VaultSecretCouldNotBeRetrieved,
            errors::Tag::VaultSecretCouldNotBeCreatedOrUpdated => Tag::VaultSecretCouldNotBeCreatedOrUpdated,
            errors::Tag::JsonDeserializationError => Tag::JsonDeserializationError,
            errors::Tag::ClusterSecretsManipulationError => Tag::ClusterSecretsManipulationError,
            errors::Tag::VaultSecretCouldNotBeDeleted => Tag::VaultSecretCouldNotBeDeleted,
            errors::Tag::ObjectStorageCannotDeleteFileIntoBucket => Tag::ObjectStorageCannotDeleteFileIntoBucket,
            errors::Tag::CannotGetNodeGroupList => Tag::CannotGetNodeGroupList,
            errors::Tag::CannotGetNodeGroupInfo => Tag::CannotGetNodeGroupInfo,
            errors::Tag::NumberOfRequestedMaxNodesIsBelowThanCurrentUsage => Tag::NumberOfRequestedMaxNodesIsBelowThanCurrentUsage,
            errors::Tag::CannotConnectK8sCluster => Tag::CannotConnectK8sCluster,
            errors::Tag::DnsProviderInformationError => Tag::DnsProviderInformationError,
            errors::Tag::CloudProviderInformationError => Tag::CloudProviderInformationError,
            errors::Tag::DnsProviderInvalidCredentials => Tag::DnsProviderInvalidCredentials,
            errors::Tag::DnsProviderInvalidApiUrl => Tag::DnsProviderInvalidApiUrl,
            errors::Tag::K8sErrorCopySecret => Tag::K8sErrorCopySecret,
            errors::Tag::K8sCannotReachToApi => Tag::K8sCannotReachToApi,
            errors::Tag::TerraformUnknownError => Tag::TerraformUnknownError,
            errors::Tag::TerraformConfigFileInvalidContent => Tag::TerraformConfigFileInvalidContent,
            errors::Tag::TerraformCannotDeleteLockFile => Tag::TerraformCannotDeleteLockFile,
            errors::Tag::TerraformInitError => Tag::TerraformInitError,
            errors::Tag::TerraformValidateError => Tag::TerraformValidateError,
            errors::Tag::TerraformPlanError => Tag::TerraformPlanError,
            errors::Tag::TerraformApplyError => Tag::TerraformApplyError,
            errors::Tag::TerraformDestroyError => Tag::TerraformDestroyError,
            errors::Tag::TerraformCloudProviderQuotasReached => Tag::TerraformCloudProviderQuotasReached,
            errors::Tag::TerraformCloudProviderActivationRequired => Tag::TerraformCloudProviderActivationRequired,
            errors::Tag::TerraformInvalidCredentials => Tag::TerraformInvalidCredentials,
            errors::Tag::TerraformServiceNotActivatedOptInRequired => Tag::TerraformServiceNotActivatedOptInRequired,
            errors::Tag::TerraformWaitingTimeoutResource => Tag::TerraformWaitingTimeoutResource,
            errors::Tag::TerraformAlreadyExistingResource => Tag::TerraformAlreadyExistingResource,
            errors::Tag::TerraformNotEnoughPermissions => Tag::TerraformNotEnoughPermissions,
            errors::Tag::TerraformWrongState => Tag::TerraformWrongState,
            errors::Tag::TerraformInstanceTypeDoesntExist => Tag::TerraformInstanceTypeDoesntExist,
            errors::Tag::TerraformMultipleInterruptsReceived => Tag::TerraformMultipleInterruptsReceived,
            errors::Tag::TerraformInstanceVolumeCannotBeReduced => Tag::TerraformInstanceVolumeCannotBeReduced,
            errors::Tag::TerraformS3BucketCreationErrorAlreadyOwnedByYou => Tag::TerraformS3BucketCreationErrorAlreadyOwnedByYou,
            errors::Tag::TerraformCannotImportResource => Tag::TerraformCannotImportResource,
            errors::Tag::HelmDeployTimeout => Tag::HelmDeployTimeout,
            errors::Tag::CannotPauseManagedDatabase => Tag::CannotPauseManagedDatabase,
            errors::Tag::ObjectStorageCannotDeleteBucket => Tag::ObjectStorageCannotDeleteBucket,
            errors::Tag::ObjectStorageQuotaExceeded => Tag::ObjectStorageQuotaExceeded,
            errors::Tag::ObjectStorageCannotGetObjectFile => Tag::ObjectStorageCannotGetObjectFile,
            errors::Tag::CloudProviderGetLoadBalancer => Tag::CloudProviderGetLoadBalancer,
            errors::Tag::CloudProviderGetLoadBalancerTags => Tag::CloudProviderGetLoadBalancerTags,
            errors::Tag::K8sCannotDeletePvc => Tag::K8sCannotDeletePvc,
            errors::Tag::CloudProviderDeleteLoadBalancer => Tag::CloudProviderDeleteLoadBalancer,
            errors::Tag::InvalidEnginePayload => Tag::InvalidEnginePayload,
            errors::Tag::JobFailure => Tag::JobFailure,
            errors::Tag::TerraformInvalidCIDRBlock => Tag::TerraformInvalidCIDRBlock,
            errors::Tag::DoNotRespectCloudProviderBestPractices => Tag::DoNotRespectCloudProviderBestPractices,
            errors::Tag::TerraformStateLocked => Tag::TerraformStateLocked,
            errors::Tag::K8sCannotGetPVCs => Tag::K8sCannotGetPVCs,
            errors::Tag::K8sCannotGetServices => Tag::K8sCannotGetServices,
            errors::Tag::K8sCannotBoundPVC => Tag::K8sCannotBoundPVC,
            errors::Tag::K8sCannotOrphanDelete => Tag::K8sCannotOrphanDelete,
            errors::Tag::K8sCannotPVCEdit => Tag::K8sCannotPVCEdit,
            errors::Tag::K8sCannotGetStatefulset => Tag::K8sCannotGetStatefulset,
            errors::Tag::K8sCannotRolloutRestartStatefulset => Tag::K8sCannotRolloutRestartStatefulset,
            errors::Tag::K8sCannotApplyFromFile => Tag::K8sCannotApplyFromFile,
            errors::Tag::K8sAddonVersionNotSupported => Tag::K8sAddonVersionNotSupported,
            errors::Tag::CannotListClusters => Tag::CannotListClusters,
            errors::Tag::CannotParseString => Tag::CannotParseString,
            errors::Tag::CannotDeleteNodeGroup => Tag::CannotDeleteNodeGroup,
            errors::Tag::CannotRestartService => Tag::CannotRestartService,
            errors::Tag::AwsSdkGetClient => Tag::AwsSdkGetClient,
            errors::Tag::AwsSdkListRdsInstances => Tag::AwsSdkListRdsInstances,
            errors::Tag::AwsSdkListElasticacheClusters => Tag::AwsSdkListElasticacheClusters,
            errors::Tag::AwsSdkListDocDbClusters => Tag::AwsSdkListDocDbClusters,
            errors::Tag::AwsCloudwatchRetentionConfigurationError => Tag::AwsCloudwatchRetentionConfigurationError,
            errors::Tag::AwsSdkListEC2Volumes => Tag::AwsSdkListEC2Volumes,
            errors::Tag::AwsSdkDetachEC2Volumes => Tag::AwsSdkDetachEC2Volumes,
            errors::Tag::AwsSdkListEC2Instances => Tag::AwsSdkListEC2Instances,
            errors::Tag::Base64DecodeIssue => Tag::Base64DecodeIssue,
            errors::Tag::CannotReadFile => Tag::CannotReadFile,
            errors::Tag::InvalidJobOutputCannotBeSerialized => Tag::InvalidJobOutputCannotBeSerialized,
            errors::Tag::DatabaseError => Tag::DatabaseError,
        }
    }
}

impl vstd::std_specs::convert::FromSpecImpl<errors::Tag> for Tag {
    open spec fn obeys_from_spec() -> bool {
        true
    }

    open spec fn from_spec(v: errors::Tag) -> Self {
        boundary_tag(v)
    }
}

/// Mapping kinds to the boundary loses nothing: the internal kind can be read back
/// from the boundary kind, and only the internal `Unknown` lands in the
/// generic `Unknown` bucket.
pub proof fn lemma_tag_round_trip(tag: errors::Tag)
    ensures
        internal_tag(boundary_tag(tag)) == Some(tag),
        boundary_tag(tag) is Unknown <==> tag is Unknown,
{
    match tag {
        errors::Tag::Unknown => {},
        errors::Tag::TerraformAccountBlockedByProvider => {},
        errors::Tag::InvalidEngineApiInputCannotBeDeserialized => {},
        errors::Tag::UnsupportedInstanceType => {},
        errors::Tag::CannotRetrieveClusterConfigFile => {},
        errors::Tag::CannotCreateFile => {},
        errors::Tag::CannotGetClusterNodes => {},
        errors::Tag::NotEnoughNodesAvailableToDeployEnvironment => {},
        errors::Tag::NotEnoughResourcesToDeployEnvironment => {},
        errors::Tag::MissingRequiredEnvVariable => {},
        errors::Tag::ClusterHasNoWorkerNodes => {},
        errors::Tag::ClusterWorkerNodeNotFound => {},
        errors::Tag::CannotGetWorkspaceDirectory => {},
        errors::Tag::CannotUninstallHelmChart => {},
        errors::Tag::CannotExecuteK8sVersion => {},
        errors::Tag::CannotDetermineK8sMasterVersion => {},
        errors::Tag::CannotDetermineK8sRequestedUpgradeVersion => {},
        errors::Tag::CannotDetermineK8sKubeletWorkerVersion => {},
        errors::Tag::CannotDetermineK8sKubeProxyVersion => {},
        errors::Tag::CannotExecuteK8sApiCustomMetrics => {},
        errors::Tag::K8sPodDisruptionBudgetInInvalidState => {},
        errors::Tag::K8sPodsDisruptionBudgetCannotBeRetrieved => {},
        errors::Tag::K8sCannotDeletePod => {},
        errors::Tag::K8sCannotGetCrashLoopingPods => {},
        errors::Tag::K8sCannotDeleteCompletedJobs => {},
        errors::Tag::K8sCannotGetPods => {},
        errors::Tag::K8sUpgradeDeployedVsRequestedVersionsInconsistency => {},
        errors::Tag::K8sScaleReplicas => {},
        errors::Tag::K8sLoadBalancerConfigurationIssue => {},
        errors::Tag::K8sServiceError => {},
        errors::Tag::K8sGetLogs => {},
        errors::Tag::K8sGetEvents => {},
        errors::Tag::K8sDescribe => {},
        errors::Tag::K8sHistory => {},
        errors::Tag::K8sCannotCreateNamespace => {},
        errors::Tag::K8sPodIsNotReady => {},
        errors::Tag::K8sGetDeploymentError => {},
        errors::Tag::K8sDeleteDeploymentError => {},
        errors::Tag::K8sGetStatefulsetError => {},
        errors::Tag::K8sDeleteStatefulsetError => {},
        errors::Tag::CannotFindRequiredBinary => {},
        errors::Tag::SubnetsCountShouldBeEven => {},
        errors::Tag::CannotGetOrCreateIamRole => {},
        errors::Tag::CannotCopyFilesFromDirectoryToDirectory => {},
        errors::Tag::CannotPauseClusterTasksAreRunning => {},
        errors::Tag::TerraformCannotRemoveEntryOut => {},
        errors::Tag::TerraformErrorWhileExecutingPipeline => {},
        errors::Tag::TerraformErrorWhileExecutingDestroyPipeline => {},
        errors::Tag::TerraformResourceDependencyViolation => {},
        errors::Tag::TerraformClusterUnsupportedVersionUpdate => {},
        errors::Tag::HelmChartsSetupError => {},
        errors::Tag::HelmChartsDeployError => {},
        errors::Tag::HelmChartsUpgradeError => {},
        errors::Tag::HelmChartUninstallError => {},
        errors::Tag::HelmHistoryError => {},
        errors::Tag::CannotGetAnyAvailableVPC => {},
        errors::Tag::UnsupportedVersion => {},
        errors::Tag::CannotGetSupportedVersions => {},
        errors::Tag::CannotGetCluster => {},
        errors::Tag::ObjectStorageCannotCreateBucket => {},
        errors::Tag::ObjectStorageCannotPutFileIntoBucket => {},
        errors::Tag::UnsupportedRegion => {},
        errors::Tag::UnsupportedZone => {},
        errors::Tag::K8sNodeIsNotReadyWithTheRequestedVersion => {},
        errors::Tag::K8sNodeIsNotReady => {},
        errors::Tag::NoClusterFound => {},
        errors::Tag::OnlyOneClusterExpected => {},
        errors::Tag::CloudProviderApiMissingInfo => {},
        errors::Tag::K8sValidateRequiredCPUandBurstableError => {},
        errors::Tag::TerraformContextUnsupportedParameterValue => {},
        errors::Tag::ClientServiceFailedToStart => {},
        errors::Tag::ClientServiceFailedToDeployBeforeStart => {},
        errors::Tag::DatabaseFailedToStartAfterSeveralRetries => {},
        errors::Tag::RouterFailedToDeploy => {},
        errors::Tag::CloudProviderClientInvalidCredentials => {},
        errors::Tag::VersionNumberParsingError => {},
        errors::Tag::NotImplementedError => {},
        errors::Tag::TaskCancellationRequested => {},
        errors::Tag::BuilderDockerCannotFindAnyDockerfile => {},
        errors::Tag::BuilderDockerCannotReadDockerfile => {},
        errors::Tag::BuilderDockerCannotExtractEnvVarsFromDockerfile => {},
        errors::Tag::BuilderDockerCannotBuildContainerImage => {},
        errors::Tag::BuilderBuildpackInvalidLanguageFormat => {},
        errors::Tag::BuilderBuildpackCannotBuildContainerImage => {},
        errors::Tag::BuilderGetBuildError => {},
        errors::Tag::BuilderCloningRepositoryError => {},
        errors::Tag::DockerPushImageError => {},
        errors::Tag::DockerPullImageError => {},
        errors::Tag::ContainerRegistryCannotCreateRepository => {},
        errors::Tag::ContainerRegistryCannotSetRepositoryLifecycle => {},
        errors::Tag::ContainerRegistryCannotGetCredentials => {},
        errors::Tag::ContainerRegistryCannotDeleteImage => {},
        errors::Tag::ContainerRegistryImageDoesntExist => {},
        errors::Tag::ContainerRegistryImageUnreachableAfterPush => {},
        errors::Tag::ContainerRegistryRepositoryDoesntExistInRegistry => {},
        errors::Tag::ContainerRegistryCannotDeleteRepository => {},
        errors::Tag::ContainerRegistryInvalidInformation => {},
        errors::Tag::ContainerRegistryRegistryDoesntExist => {},
        errors::Tag::ContainerRegistryInvalidCredentials => {},
        errors::Tag::ContainerRegistryCannotLinkRegistryToCluster => {},
        errors::Tag::ContainerRegistryCannotDeleteRegistry => {},
        errors::Tag::ContainerRegistryCannotSetRepositoryTags => {},
        errors::Tag::ContainerRegistryUnknownError => {},
        errors::Tag::ContainerRegistryRepositoryNameInvalid => {},
        errors::Tag::BuilderDockerCannotListImages => {},
        errors::Tag::DockerError => {},
        errors::Tag::ObjectStorageInvalidBucketName => {},
        errors::Tag::ObjectStorageCannotEmptyBucket => {},
        errors::Tag::ObjectStorageCannotTagBucket => {},
        errors::Tag::ObjectStorageCannotActivateBucketVersioning => {},
        errors::Tag::BuilderError => {},
        errors::Tag::ContainerRegistryCannotCreateRegistry => {},
        errors::Tag::UnsupportedClusterKind => {},
        errors::Tag::NotAllowedInstanceType => {},
        errors::Tag::TerraformConfigFileNotFound => {},
        errors::Tag::KubeconfigFileDoNotPermitToConnectToK8sCluster => {},
        errors::Tag::KubeconfigSecurityCheckError => {},
        errors::Tag::DeleteLocalKubeconfigFileError => {},
        errors::Tag::VaultConnectionError => {},
        errors::Tag::VaultSecretCouldNotBeRetrieved => {},
        errors::Tag::VaultSecretCouldNotBeCreatedOrUpdated => {},
        errors::Tag::JsonDeserializationError => {},
        errors::Tag::ClusterSecretsManipulationError => {},
        errors::Tag::VaultSecretCouldNotBeDeleted => {},
        errors::Tag::ObjectStorageCannotDeleteFileIntoBucket => {},
        errors::Tag::CannotGetNodeGroupList => {},
        errors::Tag::CannotGetNodeGroupInfo => {},
        errors::Tag::NumberOfRequestedMaxNodesIsBelowThanCurrentUsage => {},
        errors::Tag::CannotConnectK8sCluster => {},
        errors::Tag::DnsProviderInformationError => {},
        errors::Tag::CloudProviderInformationError => {},
        errors::Tag::DnsProviderInvalidCredentials => {},
        errors::Tag::DnsProviderInvalidApiUrl => {},
        errors::Tag::K8sErrorCopySecret => {},
        errors::Tag::K8sCannotReachToApi => {},
        errors::Tag::TerraformUnknownError => {},
        errors::Tag::TerraformConfigFileInvalidContent => {},
        errors::Tag::TerraformCannotDeleteLockFile => {},
        errors::Tag::TerraformInitError => {},
        errors::Tag::TerraformValidateError => {},
        errors::Tag::TerraformPlanError => {},
        errors::Tag::TerraformApplyError => {},
        errors::Tag::TerraformDestroyError => {},
        errors::Tag::TerraformCloudProviderQuotasReached => {},
        errors::Tag::TerraformCloudProviderActivationRequired => {},
        errors::Tag::TerraformInvalidCredentials => {},
        errors::Tag::TerraformServiceNotActivatedOptInRequired => {},
        errors::Tag::TerraformWaitingTimeoutResource => {},
        errors::Tag::TerraformAlreadyExistingResource => {},
        errors::Tag::TerraformNotEnoughPermissions => {},
        errors::Tag::TerraformWrongState => {},
        errors::Tag::TerraformInstanceTypeDoesntExist => {},
        errors::Tag::TerraformMultipleInterruptsReceived => {},
        errors::Tag::TerraformInstanceVolumeCannotBeReduced => {},
        errors::Tag::TerraformS3BucketCreationErrorAlreadyOwnedByYou => {},
        errors::Tag::TerraformCannotImportResource => {},
        errors::Tag::HelmDeployTimeout => {},
        errors::Tag::CannotPauseManagedDatabase => {},
        errors::Tag::ObjectStorageCannotDeleteBucket => {},
        errors::Tag::ObjectStorageQuotaExceeded => {},
        errors::Tag::ObjectStorageCannotGetObjectFile => {},
        errors::Tag::CloudProviderGetLoadBalancer => {},
        errors::Tag::CloudProviderGetLoadBalancerTags => {},
        errors::Tag::K8sCannotDeletePvc => {},
        errors::Tag::CloudProviderDeleteLoadBalancer => {},
        errors::Tag::InvalidEnginePayload => {},
        errors::Tag::JobFailure => {},
        errors::Tag::TerraformInvalidCIDRBlock => {},
        errors::Tag::DoNotRespectCloudProviderBestPractices => {},
        errors::Tag::TerraformStateLocked => {},
        errors::Tag::K8sCannotGetPVCs => {},
        errors::Tag::K8sCannotGetServices => {},
        errors::Tag::K8sCannotBoundPVC => {},
        errors::Tag::K8sCannotOrphanDelete => {},
        errors::Tag::K8sCannotPVCEdit => {},
        errors::Tag::K8sCannotGetStatefulset => {},
        errors::Tag::K8sCannotRolloutRestartStatefulset => {},
        errors::Tag::K8sCannotApplyFromFile => {},
        errors::Tag::K8sAddonVersionNotSupported => {},
        errors::Tag::CannotListClusters => {},
        errors::Tag::CannotParseString => {},
        errors::Tag::CannotDeleteNodeGroup => {},
        errors::Tag::CannotRestartService => {},
        errors::Tag::AwsSdkGetClient => {},
        errors::Tag::AwsSdkListRdsInstances => {},
        errors::Tag::AwsSdkListElasticacheClusters => {},
        errors::Tag::AwsSdkListDocDbClusters => {},
        errors::Tag::AwsCloudwatchRetentionConfigurationError => {},
        errors::Tag::AwsSdkListEC2Volumes => {},
        errors::Tag::AwsSdkDetachEC2Volumes => {},
        errors::Tag::AwsSdkListEC2Instances => {},
        errors::Tag::Base64DecodeIssue => {},
        errors::Tag::CannotReadFile => {},
        errors::Tag::InvalidJobOutputCannotBeSerialized => {},
        errors::Tag::DatabaseError => {},
    }
}

/// Two distinct internal kinds never share a boundary kind.
pub proof fn lemma_tag_mapping_injective(a: errors::Tag, b: errors::Tag)
    ensures
        boundary_tag(a) == boundary_tag(b) ==> a == b,
{
    lemma_tag_round_trip(a);
    lemma_tag_round_trip(b);
}

/// A command failure in the form shown to API consumers.
pub struct CommandError {
    pub message: String,
    pub full_details: String,
}

impl CommandError {
    /// Keeps the safe message, and the full details or an empty text.
    pub fn from(error: errors::CommandError) -> (r: Self)
        ensures
            r.message == error.message_safe,
            error.full_details matches Some(d) ==> r.full_details == d,
            error.full_details is None ==> r.full_details@ == Seq::<char>::empty(),
    {
        CommandError {
            message: error.message_safe,
            full_details: match error.full_details {
                Some(d) => d,
                None => String::new(),
            },
        }
    }
}

/// An error in the form shown to API consumers.
pub struct EngineError {
    pub tag: Tag,
    pub user_log_message: String,
    pub underlying_error: Option<CommandError>,
    pub link: Option<String>,
    pub hint_message: Option<String>,
}

impl EngineError {
    /// Turns an internal error into its boundary form, and hands back the event details that the
    /// boundary form does not carry.
    pub fn from(error: errors::EngineError) -> (r: (Self, errors::EventDetails))
        ensures
            r.0.tag == boundary_tag(error.tag),
            r.0.user_log_message == error.user_log_message,
            r.0.underlying_error is Some <==> error.underlying_error is Some,
            error.underlying_error matches Some(u) ==> {
                &&& r.0.underlying_error->0.message == u.message_safe
                &&& u.full_details matches Some(d) ==> r.0.underlying_error->0.full_details == d
                &&& u.full_details is None ==> r.0.underlying_error->0.full_details@ == Seq::<char>::empty()
            },
            r.0.link == error.link,
            r.0.hint_message == error.hint_message,
            r.1 == error.event_details,
    {
        let underlying_error = match error.underlying_error {
            Some(u) => Some(CommandError::from(u)),
            None => None,
        };
        (
            EngineError {
                tag: Tag::from(error.tag),
                user_log_message: error.user_log_message,
                underlying_error,
                link: error.link,
                hint_message: error.hint_message,
            },
            error.event_details,
        )
    }
}

} // verus!
