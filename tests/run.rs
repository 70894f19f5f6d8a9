use sumr::driver::{Phase, Run, Step};
use sumr::endpoint::{build_statistics_url, decimal_string, dependent_builds_url, get, ACCEPT};
use sumr::model::{
    build_ids, build_time, metric_value, Build, BuildProperties, BuildStatistics, Builds, Config,
    SumrError,
};

fn config() -> Config {
    Config {
        username: "username".to_string(),
        password: "password".to_string(),
        base_url: "https://teamcity.example.com".to_string(),
        build_id: "123".to_string(),
    }
}

fn builds(ids: &[u32]) -> Builds {
    Builds {
        count: ids.len() as u32,
        href: "/app/rest/latest/builds".to_string(),
        build: ids.iter().map(|&id| Build { id }).collect(),
    }
}

fn stats(props: &[(&str, u32)]) -> BuildStatistics {
    BuildStatistics {
        property: props
            .iter()
            .map(|&(name, value)| BuildProperties { name: name.to_string(), value })
            .collect(),
    }
}

fn fetched_url(step: &Step) -> String {
    match step {
        Step::Fetch(req) => req.url.clone(),
        _ => panic!("expected a request"),
    }
}

#[test]
fn resolver_url_includes_root_and_disables_default_filter() {
    assert_eq!(
        dependent_builds_url("https://ci.example.com", "42"),
        "https://ci.example.com/app/rest/latest/builds?locator=snapshotDependency:(to:(id:42),includeInitial:true),defaultFilter:false"
    );
}

#[test]
fn statistics_url_names_the_build() {
    assert_eq!(
        build_statistics_url("https://ci.example.com", 123),
        "https://ci.example.com/app/rest/latest/builds/id:123/statistics"
    );
}

#[test]
fn decimal_string_edges() {
    assert_eq!(decimal_string(0), "0");
    assert_eq!(decimal_string(7), "7");
    assert_eq!(decimal_string(10), "10");
    assert_eq!(decimal_string(4294967295), "4294967295");
}

#[test]
fn get_accepts_json_and_carries_credentials() {
    let req = get("https://ci.example.com/x".to_string(), "alice", "secret");
    assert_eq!(req.url, "https://ci.example.com/x");
    assert_eq!(req.accept, "application/json; charset=utf-8");
    assert_eq!(ACCEPT, "application/json; charset=utf-8");
    assert_eq!(req.username, "alice");
    assert_eq!(req.password, "secret");
}

#[test]
fn build_ids_keeps_response_order() {
    assert_eq!(build_ids(&builds(&[7, 3, 9])), vec![7, 3, 9]);
    assert_eq!(build_ids(&builds(&[])), Vec::<u32>::new());
}

#[test]
fn build_time_single_matching_entry() {
    let s = stats(&[("BuildDurationNetTime", 345)]);
    assert!(matches!(build_time(&s, 1), Ok(345)));
}

#[test]
fn build_time_ignores_other_names() {
    let s = stats(&[("BuildDuration", 1), ("BuildDurationNetTime", 60), ("ArtifactsSize", 9)]);
    assert!(matches!(build_time(&s, 1), Ok(60)));
}

#[test]
fn build_time_takes_first_match() {
    let s = stats(&[("BuildDurationNetTime", 10), ("BuildDurationNetTime", 20)]);
    assert!(matches!(build_time(&s, 1), Ok(10)));
}

#[test]
fn build_time_without_match_is_missing_metric() {
    let s = stats(&[("BuildDuration", 1), ("ArtifactsSize", 9)]);
    assert!(matches!(build_time(&s, 4), Err(SumrError::MissingMetric(4))));
    assert!(matches!(build_time(&stats(&[]), 8), Err(SumrError::MissingMetric(8))));
}

#[test]
fn metric_value_by_other_name() {
    let s = stats(&[("BuildDurationNetTime", 10), ("ArtifactsSize", 20)]);
    assert!(matches!(metric_value(&s, 1, "ArtifactsSize"), Ok(20)));
}

#[test]
fn run_starts_with_resolver_request() {
    let (run, step) = Run::new(&config());
    assert!(run.phase() == Phase::Resolving);
    match step {
        Step::Fetch(req) => {
            assert_eq!(
                req.url,
                "https://teamcity.example.com/app/rest/latest/builds?locator=snapshotDependency:(to:(id:123),includeInitial:true),defaultFilter:false"
            );
            assert_eq!(req.accept, "application/json; charset=utf-8");
            assert_eq!(req.username, "username");
            assert_eq!(req.password, "password");
        }
        _ => panic!("expected a request"),
    }
}

#[test]
fn run_sums_two_builds() {
    let (mut run, _) = Run::new(&config());
    let step = run.on_builds(Ok(builds(&[1, 2])));
    assert_eq!(
        fetched_url(&step),
        "https://teamcity.example.com/app/rest/latest/builds/id:1/statistics"
    );
    assert!(run.phase() == Phase::Measuring);
    let step = run.on_statistics(Ok(stats(&[("BuildDurationNetTime", 120)])));
    assert_eq!(
        fetched_url(&step),
        "https://teamcity.example.com/app/rest/latest/builds/id:2/statistics"
    );
    assert_eq!(run.total(), 120);
    let step = run.on_statistics(Ok(stats(&[("BuildDurationNetTime", 80)])));
    assert!(matches!(step, Step::Done(200)));
    assert!(run.phase() == Phase::Finished);
}

#[test]
fn run_without_metric_fails_with_missing_metric() {
    let (mut run, _) = Run::new(&config());
    let step = run.on_builds(Ok(builds(&[5])));
    assert_eq!(
        fetched_url(&step),
        "https://teamcity.example.com/app/rest/latest/builds/id:5/statistics"
    );
    let step = run.on_statistics(Ok(stats(&[("BuildDuration", 99)])));
    assert!(matches!(step, Step::Failed(SumrError::MissingMetric(5))));
    assert!(run.phase() == Phase::Finished);
}

#[test]
fn run_with_undecodable_resolver_body_fails_before_statistics() {
    let (mut run, _) = Run::new(&config());
    let decoded = serde_json::from_str::<serde_json::Value>("<html>not json</html>");
    let err = decoded.unwrap_err();
    let step = run.on_builds(Err(SumrError::Decode(err.to_string())));
    assert!(matches!(step, Step::Failed(SumrError::Decode(_))));
    assert!(run.phase() == Phase::Finished);
}

#[test]
fn run_over_no_builds_totals_zero() {
    let (mut run, _) = Run::new(&config());
    let step = run.on_builds(Ok(builds(&[])));
    assert!(matches!(step, Step::Done(0)));
}

#[test]
fn run_stops_at_transport_failure() {
    let (mut run, _) = Run::new(&config());
    run.on_builds(Ok(builds(&[1, 2, 3])));
    run.on_statistics(Ok(stats(&[("BuildDurationNetTime", 5)])));
    let step = run.on_statistics(Err(SumrError::Transport("connection refused".to_string())));
    match step {
        Step::Failed(SumrError::Transport(msg)) => assert_eq!(msg, "connection refused"),
        _ => panic!("expected a transport failure"),
    }
    assert_eq!(run.total(), 5);
}

#[test]
fn run_total_exceeds_u32() {
    let (mut run, _) = Run::new(&config());
    run.on_builds(Ok(builds(&[1, 2])));
    run.on_statistics(Ok(stats(&[("BuildDurationNetTime", 4294967295)])));
    let step = run.on_statistics(Ok(stats(&[("BuildDurationNetTime", 4294967295)])));
    assert!(matches!(step, Step::Done(8589934590)));
}
