use otss::otss_devops::builds::{BuildConfig, BuildPipeline, BuildTarget};
use otss::otss_devops::ci::{CICDConfig, PipelineConfig, PipelineStage};
use otss::otss_devops::deploy::{DeployConfig, DeployTarget, DeploymentManager};
use otss::otss_devops::health::{HealthCheck, HealthStatus, SystemHealth};
use otss::otss_devops::{check_ready, get_pipeline_status, health_check};

fn check(name: &str, status: HealthStatus) -> HealthCheck {
    HealthCheck { name: name.to_string(), status, details: String::new(), response_time_ms: 1 }
}

#[test]
fn test_build_config_default() {
    let config = BuildConfig::default();
    assert!(config.run_tests);
}

#[test]
fn test_cicd_config_default() {
    let config = CICDConfig::default();
    assert_eq!(config.name, "OTSS Pipeline");
    assert!(!config.stages.is_empty());
}

#[test]
fn test_deploy_target_display() {
    assert_eq!(DeployTarget::Production.to_string(), "production");
}

#[test]
fn test_deploy_config_default() {
    let config = DeployConfig::default();
    assert_eq!(config.version, "latest");
}

#[test]
fn test_health_status_display() {
    assert_eq!(HealthStatus::Healthy.to_string(), "healthy");
    assert_eq!(HealthStatus::Unhealthy.to_string(), "unhealthy");
}

#[test]
fn test_health_status_checks() {
    assert!(HealthStatus::Healthy.is_healthy());
    assert!(!HealthStatus::Degraded.is_healthy());
    assert!(HealthStatus::Degraded.needs_attention());
}

#[test]
fn overall_health_is_the_worst_component() {
    let mut system = SystemHealth::new();
    assert_eq!(system.overall, HealthStatus::Unknown);
    system.add_check(check("db", HealthStatus::Healthy));
    assert_eq!(system.overall, HealthStatus::Healthy);
    system.add_check(check("cache", HealthStatus::Unknown));
    assert_eq!(system.overall, HealthStatus::Unknown);
    system.add_check(check("api", HealthStatus::Degraded));
    assert_eq!(system.overall, HealthStatus::Degraded);
    system.add_check(check("feed", HealthStatus::Unhealthy));
    assert_eq!(system.overall, HealthStatus::Unhealthy);
    system.add_check(check("web", HealthStatus::Healthy));
    assert_eq!(system.overall, HealthStatus::Unhealthy);
    assert_eq!(system.components.len(), 5);
    assert!(!HealthStatus::Unknown.needs_attention());
    assert_eq!(SystemHealth::default().components.len(), 0);
}

#[test]
fn github_actions_workflow_text() {
    let pipeline = PipelineConfig::new(CICDConfig::default());
    let yaml = pipeline.generate_github_actions();
    let expected = "name: OTSS CI\n\non:\n  push:\n    branches: [ main ]\n  pull_request:\n    branches: [ main ]\n\njobs:\n  ci:\n    runs-on: ubuntu-latest\n    steps:\n      - uses: actions/checkout@v3\n      # build stage\n      - run: cargo build --workspace\n      # test stage\n      - run: cargo test --workspace\n";
    assert_eq!(yaml, expected);

    let mut config = CICDConfig::default();
    config.stages = vec![PipelineStage {
        name: "lint".to_string(),
        script: vec!["cargo fmt --check".to_string(), "cargo clippy".to_string()],
    }];
    let yaml = PipelineConfig::new(config).generate_github_actions();
    assert!(yaml.ends_with("      # lint stage\n      - run: cargo fmt --check\n      - run: cargo clippy\n"));
    assert_eq!(pipeline.config().default_branch, "main");
}

#[test]
fn deployment_and_build_texts() {
    let manager = DeploymentManager::new(DeployConfig::default());
    let result = manager.deploy().unwrap();
    assert!(result.success);
    assert_eq!(result.message, "Deployed to Localhost");
    assert_eq!(result.target, DeployTarget::Localhost);

    let target = DeployTarget::Kubernetes { namespace: "prod".to_string() };
    assert_eq!(target.to_string(), "k8s/prod");
    let config = DeployConfig { target, version: "1.2".to_string(), wait_for_ready: false };
    let result = DeploymentManager::new(config).deploy().unwrap();
    assert_eq!(result.message, "Deployed to Kubernetes { namespace: \"prod\" }");

    assert_eq!(BuildTarget::Docker.to_string(), "docker");
    let pipeline = BuildPipeline::new(BuildConfig::default());
    assert_eq!(pipeline.config().jobs, 4);
    assert_eq!(pipeline.config().target, BuildTarget::Debug);
    assert!(check_ready());
    assert_eq!(health_check(), HealthStatus::Healthy);
    assert_eq!(get_pipeline_status(), "Pipeline: Ready");
}
