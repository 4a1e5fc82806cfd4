use otss::otss_pm::config::ConfigLoader;
use otss::otss_pm::health::{AlertLevel, AlertManager, ServiceHealth, SystemMonitor};
use otss::otss_pm::lifecycle::{first_named, Service, ServiceHandle, ServiceManager, ServiceState};
use otss::otss_pm::orchestration::{Orchestrator, ServiceConfig, SystemConfig, SystemState};
use otss::otss_pm::status;

struct TestService;

impl Service for TestService {
    fn name(&self) -> &str {
        "test-service"
    }

    fn start(&mut self) -> anyhow::Result<()> {
        Ok(())
    }

    fn stop(&mut self) -> anyhow::Result<()> {
        Ok(())
    }

    fn state(&self) -> ServiceState {
        ServiceState::Running
    }
}

struct Recorder {
    name: String,
    log: std::sync::Arc<std::sync::Mutex<Vec<String>>>,
    fail_start: bool,
}

impl Service for Recorder {
    fn name(&self) -> &str {
        &self.name
    }

    fn start(&mut self) -> anyhow::Result<()> {
        self.log.lock().unwrap().push(format!("start {}", self.name));
        if self.fail_start {
            Err(anyhow::Error::msg("cannot start"))
        } else {
            Ok(())
        }
    }

    fn stop(&mut self) -> anyhow::Result<()> {
        self.log.lock().unwrap().push(format!("stop {}", self.name));
        Ok(())
    }

    fn state(&self) -> ServiceState {
        ServiceState::NotStarted
    }
}

#[test]
fn test_monitor_default() {
    let monitor = SystemMonitor::default();
    assert_eq!(monitor.interval(), 30);
}

#[test]
fn test_service_health() {
    assert_eq!(ServiceHealth::Healthy, ServiceHealth::Healthy);
}

#[test]
fn test_alert_manager() {
    let mut manager = AlertManager::new();
    manager.alert(AlertLevel::Warning, "Test".to_string(), "test-service".to_string());
    assert_eq!(manager.pending().len(), 1);
    manager.clear();
    assert!(manager.pending().is_empty());
}

#[test]
fn test_service_manager() {
    let mut manager = ServiceManager::new();
    assert_eq!(manager.service_count(), 0);
    manager.add_service(Box::new(TestService));
    assert_eq!(manager.service_count(), 1);
}

#[test]
fn test_service_state() {
    assert_ne!(ServiceState::Starting, ServiceState::Running);
}

#[test]
fn test_service_handle() {
    let handle = ServiceHandle { name: "test".to_string(), state: ServiceState::Running };
    assert_eq!(handle.state, ServiceState::Running);
}

#[test]
fn test_system_config_default() {
    let config = SystemConfig::default();
    assert_eq!(config.name, "OTSS");
    assert!(!config.services.is_empty());
}

#[test]
fn test_orchestrator_creation() {
    let orchestrator = Orchestrator::default();
    assert_eq!(orchestrator.state(), SystemState::Initializing);
}

#[test]
fn test_active_services() {
    let orchestrator = Orchestrator::default();
    let services = orchestrator.enabled_services();
    assert!(!services.is_empty());
}

#[test]
fn services_start_in_order_and_stop_in_reverse() {
    let log = std::sync::Arc::new(std::sync::Mutex::new(Vec::new()));
    let mut manager: ServiceManager<Box<dyn Service>> = ServiceManager::default();
    for (name, fail_start) in [("a", false), ("b", true), ("c", false)] {
        manager.add_service(Box::new(Recorder { name: name.to_string(), log: log.clone(), fail_start }));
    }
    manager.start_all();
    manager.stop_all();
    assert_eq!(
        *log.lock().unwrap(),
        vec!["start a", "start b", "start c", "stop c", "stop b", "stop a"]
    );
    assert_eq!(manager.get_service("b").unwrap().name(), "b");
    assert!(manager.get_service("zzz").is_none());
    assert_eq!(manager.service_count(), 3);
}

#[test]
fn orchestrator_lifecycle_and_enabled_services() {
    let mut config = SystemConfig::default();
    config.services.push(("reporting".to_string(), ServiceConfig { enabled: false, priority: 9 }));
    let mut orchestrator = Orchestrator::new(config);
    let enabled = orchestrator.enabled_services();
    let names: Vec<&str> = enabled.iter().map(|(n, _)| n.as_str()).collect();
    assert_eq!(names, vec!["trading-engine", "market-data", "broker-integration"]);
    assert_eq!(enabled[0].1.priority, 1);
    orchestrator.start().unwrap();
    assert_eq!(orchestrator.state(), SystemState::Running);
    orchestrator.stop().unwrap();
    assert_eq!(orchestrator.state(), SystemState::Stopped);
    assert_eq!(orchestrator.config().environment, "development");
    assert_eq!(status(), "OTSS PM v0.1.0");
    let _loader = ConfigLoader::new();
}

#[test]
fn monitor_reports_and_alerts_keep_order() {
    let monitor = SystemMonitor::new(5);
    assert_eq!(monitor.interval(), 5);
    let status = monitor.check_service("feed");
    assert_eq!(status.name, "feed");
    assert_eq!(status.health, ServiceHealth::Healthy);
    let report = monitor.generate_report().unwrap();
    assert_eq!(report.overall, ServiceHealth::Healthy);
    assert!(report.services.is_empty());

    let mut alerts = AlertManager::default();
    alerts.alert(AlertLevel::Info, "one".to_string(), "s1".to_string());
    alerts.alert(AlertLevel::Critical, "two".to_string(), "s2".to_string());
    assert_eq!(alerts.pending()[0].message, "one");
    assert_eq!(alerts.pending()[1].level, AlertLevel::Critical);
    assert_eq!(alerts.pending()[1].service, "s2");
}

#[test]
fn first_named_picks_the_first_match() {
    let names = vec!["a".to_string(), "b".to_string(), "b".to_string()];
    assert_eq!(first_named(&names, "b"), Some(1));
    assert_eq!(first_named(&names, "a"), Some(0));
    assert_eq!(first_named(&names, "c"), None);
    assert_eq!(first_named(&Vec::new(), "a"), None);
}

#[test]
fn default_settings_enable_all_three_services() {
    let orchestrator = Orchestrator::default();
    let names: Vec<&str> = orchestrator.enabled_services().iter().map(|(n, _)| n.as_str()).collect();
    assert_eq!(names, vec!["trading-engine", "market-data", "broker-integration"]);
    assert_eq!(orchestrator.config().environment, "development");
    let mut config = SystemConfig::default();
    assert!(config.has_distinct_names());
    config.services.push(("market-data".to_string(), ServiceConfig { enabled: false, priority: 3 }));
    assert!(!config.has_distinct_names());
}
