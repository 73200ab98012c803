use argo_helm_updater::helm::{
    ChartEntry, CheckError, FetchError, HelmChart, HelmRepoChartVersion, HelmRepoClient,
    HelmRepoIndex, LookupError, ValidationError,
};
use argo_helm_updater::kubernetes::SourceSpec;

fn init_source_spec(
    chart: Option<String>,
    repo_url: Option<String>,
    target_revision: Option<String>,
) -> SourceSpec {
    SourceSpec {
        chart,
        repo_url,
        target_revision,
        helm: None,
        reference: None,
        path: None,
        kustomize: None,
        directory: None,
        plugin: None,
    }
}

#[test]
fn helm_chart_source_spec_try_from_success() {
    let source_spec = init_source_spec(
        Some("chart".to_owned()),
        Some("repo_url".to_owned()),
        Some("target_revision".to_owned()),
    );

    let result = HelmChart::try_from(source_spec);

    assert!(result.is_ok());
}

#[test]
fn helm_chart_source_spec_try_from_missing_chart() {
    let source_spec = init_source_spec(
        None,
        Some("repo_url".to_owned()),
        Some("target_revision".to_owned()),
    );

    let result = HelmChart::try_from(source_spec);

    assert!(result.is_err());
}

#[test]
fn helm_chart_source_spec_try_from_missing_repo_url() {
    let source_spec = init_source_spec(
        Some("chart".to_owned()),
        None,
        Some("target_revision".to_owned()),
    );

    let result = HelmChart::try_from(source_spec);

    assert!(result.is_err());
}

#[test]
fn helm_chart_source_spec_try_from_missing_target_revision() {
    let source_spec =
        init_source_spec(Some("chart".to_owned()), Some("repo_url".to_owned()), None);

    let result = HelmChart::try_from(source_spec);

    assert!(result.is_err());
}

#[test]
fn try_from_reports_first_missing_field_in_order() {
    let all_missing = HelmChart::try_from(init_source_spec(None, None, None));
    assert_eq!(all_missing.unwrap_err(), ValidationError::MissingChart);

    let chart_only = HelmChart::try_from(init_source_spec(Some("chart".to_owned()), None, None));
    assert_eq!(chart_only.unwrap_err(), ValidationError::MissingRepoUrl);

    let no_revision = HelmChart::try_from(init_source_spec(
        Some("chart".to_owned()),
        Some("repo_url".to_owned()),
        None,
    ));
    assert_eq!(no_revision.unwrap_err(), ValidationError::MissingTargetRevision);
}

#[test]
fn try_from_keeps_the_fields() {
    let result = HelmChart::try_from(init_source_spec(
        Some("chart".to_owned()),
        Some("repo_url".to_owned()),
        Some("target_revision".to_owned()),
    ))
    .unwrap();
    assert_eq!(result.chart, "chart");
    assert_eq!(result.repo, "repo_url");
    assert_eq!(result.revision, "target_revision");
}

fn version_record(version: &str, created: &str) -> HelmRepoChartVersion {
    HelmRepoChartVersion {
        api_version: Some("api_version".to_owned()),
        name: "name".to_owned(),
        version: version.to_owned(),
        created: created.to_owned(),
    }
}

fn index_with_chart(versions: Vec<HelmRepoChartVersion>) -> HelmRepoIndex {
    HelmRepoIndex {
        api_version: "v1".to_owned(),
        entries: vec![ChartEntry {
            name: "chart".to_owned(),
            versions,
        }],
    }
}

#[derive(Clone)]
struct StubClient {
    index: HelmRepoIndex,
}

impl HelmRepoClient for StubClient {
    fn get_helm_repo_index(&self, _repo_url: &str) -> Result<HelmRepoIndex, FetchError> {
        Ok(self.index.clone())
    }
}

fn create_stub_client() -> StubClient {
    let versions = vec![
        version_record("v0.1.0", "2022-11-10T11:40:08.566983693Z"),
        version_record("v0.2.0", "2022-11-11T11:40:08.566983693Z"),
    ];

    StubClient {
        index: index_with_chart(versions),
    }
}

#[test]
fn helm_chart_get_newer_version_has_newer_version() {
    let client = create_stub_client();

    let helm_chart = HelmChart {
        chart: "chart".to_owned(),
        repo: "repo".to_owned(),
        revision: "v0.1.0".to_owned(),
    };

    let result = helm_chart.get_newer_version(&client);
    assert!(result.is_ok());

    let value = result.unwrap();
    assert!(value.is_some());
    assert_eq!("v0.2.0", value.unwrap());
}

#[test]
fn helm_chart_get_newer_version_is_newest_version() {
    let client = create_stub_client();

    let helm_chart = HelmChart {
        chart: "chart".to_owned(),
        repo: "repo".to_owned(),
        revision: "v0.2.0".to_owned(),
    };

    let result = helm_chart.get_newer_version(&client);
    assert!(result.is_ok());

    let value = result.unwrap();
    assert!(value.is_none());
}

#[test]
fn get_newer_version_reports_drift_in_either_direction() {
    let client = create_stub_client();

    let helm_chart = HelmChart {
        chart: "chart".to_owned(),
        repo: "repo".to_owned(),
        revision: "v0.3.0".to_owned(),
    };

    let result = helm_chart.get_newer_version(&client).unwrap();
    assert_eq!(result, Some("v0.2.0".to_owned()));
}

#[test]
fn helm_repo_index_get_newest_chart_version_invalid_chart_name() {
    let index = index_with_chart(Vec::new());

    let result = index.get_newest_chart_version("invalid_chart");

    assert!(result.is_err());
}

#[test]
fn helm_repo_index_get_newest_chart_version_valid_chart_name() {
    let versions = vec![
        version_record("v0.1.0", "2022-11-10T11:40:08.566983693Z"),
        version_record("v0.2.0", "2022-11-11T11:40:08.566983693Z"),
    ];

    let index = index_with_chart(versions);

    let result = index.get_newest_chart_version("chart");

    assert!(result.is_ok());
    assert_eq!("v0.2.0", result.unwrap());
}

#[test]
fn helm_repo_index_get_newest_chart_version_valid_chart_name_with_sort() {
    let versions = vec![
        version_record("v0.2.0", "2022-11-11T11:40:08.566983693Z"),
        version_record("v0.1.0", "2022-11-10T11:40:08.566983693Z"),
    ];

    let index = index_with_chart(versions);

    let result = index.get_newest_chart_version("chart");

    assert!(result.is_ok());
    assert_eq!("v0.2.0", result.unwrap());
}

#[test]
fn get_newest_chart_version_not_found_variant() {
    let index = index_with_chart(Vec::new());
    let result = index.get_newest_chart_version("invalid_chart");
    assert_eq!(result, Err(LookupError::ChartNotFound));
}

#[test]
fn get_newest_chart_version_excludes_pre_releases() {
    let versions = vec![
        version_record("v0.1.0", "2022-11-10T11:40:08.566983693Z"),
        version_record("v0.3.0-rc1", "2022-11-12T11:40:08.566983693Z"),
    ];

    let index = index_with_chart(versions);

    assert_eq!(index.get_newest_chart_version("chart").unwrap(), "v0.1.0");
}

#[test]
fn get_newest_chart_version_excludes_unparsable_records() {
    let versions = vec![
        version_record("not-a-version", "2022-11-10T11:40:08.566983693Z"),
        version_record("v0.1.0", "2022-11-11T11:40:08.566983693Z"),
    ];

    let index = index_with_chart(versions);

    assert_eq!(index.get_newest_chart_version("chart").unwrap(), "v0.1.0");
}

#[test]
fn get_newest_chart_version_fails_without_qualifying_record() {
    let versions = vec![
        version_record("not-a-version", "2022-11-10T11:40:08.566983693Z"),
        version_record("v0.2.0-beta1", "2022-11-11T11:40:08.566983693Z"),
    ];

    let index = index_with_chart(versions);

    assert_eq!(
        index.get_newest_chart_version("chart"),
        Err(LookupError::NoQualifyingVersion)
    );
}

#[test]
fn get_newest_chart_version_keeps_first_of_equal_versions() {
    let versions = vec![
        version_record("0.2.0", "2022-11-10T11:40:08.566983693Z"),
        version_record("v0.2.0", "2022-11-11T11:40:08.566983693Z"),
    ];

    let index = index_with_chart(versions);

    assert_eq!(index.get_newest_chart_version("chart").unwrap(), "0.2.0");
}

#[test]
fn fetch_failure_surfaces_as_check_error() {
    let helm_chart = HelmChart {
        chart: "chart".to_owned(),
        repo: "repo".to_owned(),
        revision: "v0.1.0".to_owned(),
    };

    let result = helm_chart.newer_version_from_fetch(Err(FetchError::Transport));
    assert_eq!(result, Err(CheckError::FetchFailed(FetchError::Transport)));

    let result = helm_chart.newer_version_from_fetch(Err(FetchError::InvalidBody));
    assert_eq!(result, Err(CheckError::FetchFailed(FetchError::InvalidBody)));
}

#[test]
fn lookup_failure_surfaces_as_check_error() {
    let helm_chart = HelmChart {
        chart: "other_chart".to_owned(),
        repo: "repo".to_owned(),
        revision: "v0.1.0".to_owned(),
    };

    let result = helm_chart.get_newer_version(&create_stub_client());
    assert_eq!(
        result,
        Err(CheckError::CatalogLookupFailed(LookupError::ChartNotFound))
    );
}
