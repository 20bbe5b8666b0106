use std::collections::HashSet;

use deploy_engine::errors::{CommandError, EngineError, EnvironmentStep, EventDetails, Tag};
use deploy_engine::io;

fn all_internal_tags() -> Vec<Tag> {
    vec![
        Tag::Unknown,
        Tag::TerraformAccountBlockedByProvider,
        Tag::InvalidEngineApiInputCannotBeDeserialized,
        Tag::UnsupportedInstanceType,
        Tag::CannotRetrieveClusterConfigFile,
        Tag::CannotCreateFile,
        Tag::CannotGetClusterNodes,
        Tag::NotEnoughNodesAvailableToDeployEnvironment,
        Tag::NotEnoughResourcesToDeployEnvironment,
        Tag::MissingRequiredEnvVariable,
        Tag::ClusterHasNoWorkerNodes,
        Tag::ClusterWorkerNodeNotFound,
        Tag::CannotGetWorkspaceDirectory,
        Tag::CannotUninstallHelmChart,
        Tag::CannotExecuteK8sVersion,
        Tag::CannotDetermineK8sMasterVersion,
        Tag::CannotDetermineK8sRequestedUpgradeVersion,
        Tag::CannotDetermineK8sKubeletWorkerVersion,
        Tag::CannotDetermineK8sKubeProxyVersion,
        Tag::CannotExecuteK8sApiCustomMetrics,
        Tag::K8sPodDisruptionBudgetInInvalidState,
        Tag::K8sPodsDisruptionBudgetCannotBeRetrieved,
        Tag::K8sCannotDeletePod,
        Tag::K8sCannotGetCrashLoopingPods,
        Tag::K8sCannotDeleteCompletedJobs,
        Tag::K8sCannotGetPods,
        Tag::K8sUpgradeDeployedVsRequestedVersionsInconsistency,
        Tag::K8sScaleReplicas,
        Tag::K8sLoadBalancerConfigurationIssue,
        Tag::K8sServiceError,
        Tag::K8sGetLogs,
        Tag::K8sGetEvents,
        Tag::K8sDescribe,
        Tag::K8sHistory,
        Tag::K8sCannotCreateNamespace,
        Tag::K8sPodIsNotReady,
        Tag::K8sGetDeploymentError,
        Tag::K8sDeleteDeploymentError,
        Tag::K8sGetStatefulsetError,
        Tag::K8sDeleteStatefulsetError,
        Tag::CannotFindRequiredBinary,
        Tag::SubnetsCountShouldBeEven,
        Tag::CannotGetOrCreateIamRole,
        Tag::CannotCopyFilesFromDirectoryToDirectory,
        Tag::CannotPauseClusterTasksAreRunning,
        Tag::TerraformCannotRemoveEntryOut,
        Tag::TerraformErrorWhileExecutingPipeline,
        Tag::TerraformErrorWhileExecutingDestroyPipeline,
        Tag::TerraformResourceDependencyViolation,
        Tag::TerraformClusterUnsupportedVersionUpdate,
        Tag::HelmChartsSetupError,
        Tag::HelmChartsDeployError,
        Tag::HelmChartsUpgradeError,
        Tag::HelmChartUninstallError,
        Tag::HelmHistoryError,
        Tag::CannotGetAnyAvailableVPC,
        Tag::UnsupportedVersion,
        Tag::CannotGetSupportedVersions,
        Tag::CannotGetCluster,
        Tag::ObjectStorageCannotCreateBucket,
        Tag::ObjectStorageCannotPutFileIntoBucket,
        Tag::UnsupportedRegion,
        Tag::UnsupportedZone,
        Tag::K8sNodeIsNotReadyWithTheRequestedVersion,
        Tag::K8sNodeIsNotReady,
        Tag::NoClusterFound,
        Tag::OnlyOneClusterExpected,
        Tag::CloudProviderApiMissingInfo,
        Tag::K8sValidateRequiredCPUandBurstableError,
        Tag::TerraformContextUnsupportedParameterValue,
        Tag::ClientServiceFailedToStart,
        Tag::ClientServiceFailedToDeployBeforeStart,
        Tag::DatabaseFailedToStartAfterSeveralRetries,
        Tag::RouterFailedToDeploy,
        Tag::CloudProviderClientInvalidCredentials,
        Tag::VersionNumberParsingError,
        Tag::NotImplementedError,
        Tag::TaskCancellationRequested,
        Tag::BuilderDockerCannotFindAnyDockerfile,
        Tag::BuilderDockerCannotReadDockerfile,
        Tag::BuilderDockerCannotExtractEnvVarsFromDockerfile,
        Tag::BuilderDockerCannotBuildContainerImage,
        Tag::BuilderBuildpackInvalidLanguageFormat,
        Tag::BuilderBuildpackCannotBuildContainerImage,
        Tag::BuilderGetBuildError,
        Tag::BuilderCloningRepositoryError,
        Tag::DockerPushImageError,
        Tag::DockerPullImageError,
        Tag::ContainerRegistryCannotCreateRepository,
        Tag::ContainerRegistryCannotSetRepositoryLifecycle,
        Tag::ContainerRegistryCannotGetCredentials,
        Tag::ContainerRegistryCannotDeleteImage,
        Tag::ContainerRegistryImageDoesntExist,
        Tag::ContainerRegistryImageUnreachableAfterPush,
        Tag::ContainerRegistryRepositoryDoesntExistInRegistry,
        Tag::ContainerRegistryCannotDeleteRepository,
        Tag::ContainerRegistryInvalidInformation,
        Tag::ContainerRegistryRegistryDoesntExist,
        Tag::ContainerRegistryInvalidCredentials,
        Tag::ContainerRegistryCannotLinkRegistryToCluster,
        Tag::ContainerRegistryCannotDeleteRegistry,
        Tag::ContainerRegistryCannotSetRepositoryTags,
        Tag::ContainerRegistryUnknownError,
        Tag::ContainerRegistryRepositoryNameInvalid,
        Tag::BuilderDockerCannotListImages,
        Tag::DockerError,
        Tag::ObjectStorageInvalidBucketName,
        Tag::ObjectStorageCannotEmptyBucket,
        Tag::ObjectStorageCannotTagBucket,
        Tag::ObjectStorageCannotActivateBucketVersioning,
        Tag::BuilderError,
        Tag::ContainerRegistryCannotCreateRegistry,
        Tag::UnsupportedClusterKind,
        Tag::NotAllowedInstanceType,
        Tag::TerraformConfigFileNotFound,
        Tag::KubeconfigFileDoNotPermitToConnectToK8sCluster,
        Tag::KubeconfigSecurityCheckError,
        Tag::DeleteLocalKubeconfigFileError,
        Tag::VaultConnectionError,
        Tag::VaultSecretCouldNotBeRetrieved,
        Tag::VaultSecretCouldNotBeCreatedOrUpdated,
        Tag::JsonDeserializationError,
        Tag::ClusterSecretsManipulationError,
        Tag::VaultSecretCouldNotBeDeleted,
        Tag::ObjectStorageCannotDeleteFileIntoBucket,
        Tag::CannotGetNodeGroupList,
        Tag::CannotGetNodeGroupInfo,
        Tag::NumberOfRequestedMaxNodesIsBelowThanCurrentUsage,
        Tag::CannotConnectK8sCluster,
        Tag::DnsProviderInformationError,
        Tag::CloudProviderInformationError,
        Tag::DnsProviderInvalidCredentials,
        Tag::DnsProviderInvalidApiUrl,
        Tag::K8sErrorCopySecret,
        Tag::K8sCannotReachToApi,
        Tag::TerraformUnknownError,
        Tag::TerraformConfigFileInvalidContent,
        Tag::TerraformCannotDeleteLockFile,
        Tag::TerraformInitError,
        Tag::TerraformValidateError,
        Tag::TerraformPlanError,
        Tag::TerraformApplyError,
        Tag::TerraformDestroyError,
        Tag::TerraformCloudProviderQuotasReached,
        Tag::TerraformCloudProviderActivationRequired,
        Tag::TerraformInvalidCredentials,
        Tag::TerraformServiceNotActivatedOptInRequired,
        Tag::TerraformWaitingTimeoutResource,
        Tag::TerraformAlreadyExistingResource,
        Tag::TerraformNotEnoughPermissions,
        Tag::TerraformWrongState,
        Tag::TerraformInstanceTypeDoesntExist,
        Tag::TerraformMultipleInterruptsReceived,
        Tag::TerraformInstanceVolumeCannotBeReduced,
        Tag::TerraformS3BucketCreationErrorAlreadyOwnedByYou,
        Tag::TerraformCannotImportResource,
        Tag::HelmDeployTimeout,
        Tag::CannotPauseManagedDatabase,
        Tag::ObjectStorageCannotDeleteBucket,
        Tag::ObjectStorageQuotaExceeded,
        Tag::ObjectStorageCannotGetObjectFile,
        Tag::CloudProviderGetLoadBalancer,
        Tag::CloudProviderGetLoadBalancerTags,
        Tag::K8sCannotDeletePvc,
        Tag::CloudProviderDeleteLoadBalancer,
        Tag::InvalidEnginePayload,
        Tag::JobFailure,
        Tag::TerraformInvalidCIDRBlock,
        Tag::DoNotRespectCloudProviderBestPractices,
        Tag::TerraformStateLocked,
        Tag::K8sCannotGetPVCs,
        Tag::K8sCannotGetServices,
        Tag::K8sCannotBoundPVC,
        Tag::K8sCannotOrphanDelete,
        Tag::K8sCannotPVCEdit,
        Tag::K8sCannotGetStatefulset,
        Tag::K8sCannotRolloutRestartStatefulset,
        Tag::K8sCannotApplyFromFile,
        Tag::K8sAddonVersionNotSupported,
        Tag::CannotListClusters,
        Tag::CannotParseString,
        Tag::CannotDeleteNodeGroup,
        Tag::CannotRestartService,
        Tag::AwsSdkGetClient,
        Tag::AwsSdkListRdsInstances,
        Tag::AwsSdkListElasticacheClusters,
        Tag::AwsSdkListDocDbClusters,
        Tag::AwsCloudwatchRetentionConfigurationError,
        Tag::AwsSdkListEC2Volumes,
        Tag::AwsSdkDetachEC2Volumes,
        Tag::AwsSdkListEC2Instances,
        Tag::Base64DecodeIssue,
        Tag::CannotReadFile,
        Tag::InvalidJobOutputCannotBeSerialized,
        Tag::DatabaseError,
    ]
}

fn details() -> EventDetails {
    EventDetails {
        organization_id: "org".to_string(),
        cluster_id: "cluster".to_string(),
        environment_id: "env".to_string(),
        execution_id: "exec".to_string(),
        stage: EnvironmentStep::Delete,
    }
}

#[test]
fn every_internal_kind_gets_a_distinct_boundary_kind() {
    let tags = all_internal_tags();
    let mut seen = HashSet::new();
    for t in tags.iter() {
        let b = io::Tag::from(*t);
        let name = format!("{:?}", b);
        assert!(!name.is_empty());
        assert!(seen.insert(name));
    }
    assert_eq!(seen.len(), tags.len());
}

#[test]
fn kinds_keep_their_names_but_three() {
    for t in all_internal_tags() {
        let b = io::Tag::from(t);
        let (a, b) = (format!("{:?}", t), format!("{:?}", b));
        match a.as_str() {
            "TaskCancellationRequested" => assert_eq!(b, "TaskCancelled"),
            "ContainerRegistryCannotSetRepositoryLifecycle" => {
                assert_eq!(b, "ContainerRegistryCannotSetRepositoryLifecycleError")
            }
            "TerraformConfigFileNotFound" => assert_eq!(b, "TerraformQoveryConfigMismatch"),
            _ => assert_eq!(a, b),
        }
    }
}

#[test]
fn unknown_goes_to_the_generic_bucket() {
    assert_eq!(io::Tag::from(Tag::Unknown), io::Tag::Unknown);
    for t in all_internal_tags() {
        if t != Tag::Unknown {
            assert_ne!(io::Tag::from(t), io::Tag::Unknown);
        }
    }
}

#[test]
fn command_error_keeps_safe_message() {
    let c = io::CommandError::from(CommandError::new("safe".to_string(), Some("details".to_string())));
    assert_eq!(c.message, "safe");
    assert_eq!(c.full_details, "details");
    let c = io::CommandError::from(CommandError::new("safe".to_string(), None));
    assert_eq!(c.full_details, "");
}

#[test]
fn engine_error_to_boundary_form() {
    let mut e = EngineError::new(
        Tag::TerraformStateLocked,
        details(),
        "state locked".to_string(),
        Some(CommandError::new("lock".to_string(), None)),
    );
    e.link = Some("https://hub.example.com/docs".to_string());
    e.hint_message = Some("retry later".to_string());
    let (b, d) = io::EngineError::from(e);
    assert_eq!(b.tag, io::Tag::TerraformStateLocked);
    assert_eq!(b.user_log_message, "state locked");
    let u = b.underlying_error.unwrap();
    assert_eq!(u.message, "lock");
    assert_eq!(u.full_details, "");
    assert_eq!(b.link.as_deref(), Some("https://hub.example.com/docs"));
    assert_eq!(b.hint_message.as_deref(), Some("retry later"));
    assert_eq!(d.execution_id, "exec");
    assert_eq!(d.stage, EnvironmentStep::Delete);
}

#[test]
fn engine_error_without_cause() {
    let e = EngineError::new(Tag::TaskCancellationRequested, details(), "cancelled".to_string(), None);
    let (b, _) = io::EngineError::from(e);
    assert_eq!(b.tag, io::Tag::TaskCancelled);
    assert!(b.underlying_error.is_none());
    assert!(b.link.is_none());
}
