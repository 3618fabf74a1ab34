use tagger_host::platform::Platform;
use tagger_host::platform::TerminationStrategy;
use tagger_host::platform::strategy_for;
use tagger_host::platform::worker_binary_name;
use tagger_host::supervisor::KillDirective;
use tagger_host::supervisor::StartPlan;
use tagger_host::supervisor::Supervisor;
use tagger_host::supervisor::resolve_worker_path;
use tagger_host::supervisor::worker_available;
use tagger_host::supervisor::worker_launch_args;
use tagger_host::LifecycleError;

#[test]
fn start_fills_empty_slot() {
    let mut sup = Supervisor::new();
    assert!(!sup.is_running());
    let plan = sup.plan_start(Some("/opt/app/tagger-server".to_string()));
    assert!(matches!(plan, StartPlan::Spawn(ref p) if p == "/opt/app/tagger-server"));
    let r = sup.finish_start(&plan, Some(41));
    assert!(r.is_ok());
    assert!(sup.is_running());
    assert_eq!(sup.worker_pid(), Some(41));
}

#[test]
fn double_start_keeps_first_worker() {
    let mut sup = Supervisor::new();
    let plan = sup.plan_start(Some("tagger-server".to_string()));
    sup.finish_start(&plan, Some(7)).unwrap();
    let again = sup.plan_start(Some("tagger-server".to_string()));
    assert!(matches!(again, StartPlan::AlreadyRunning));
    let r = sup.finish_start(&again, None);
    assert!(r.is_ok());
    assert_eq!(sup.worker_pid(), Some(7));
}

#[test]
fn restart_after_terminate_yields_one_worker() {
    let mut sup = Supervisor::new();
    let plan = sup.plan_start(Some("tagger-server".to_string()));
    sup.finish_start(&plan, Some(7)).unwrap();
    assert!(sup.terminate(true).is_ok());
    assert!(!sup.is_running());
    let plan = sup.plan_start(Some("tagger-server".to_string()));
    assert!(matches!(plan, StartPlan::Spawn(_)));
    let r = sup.finish_start(&plan, Some(8));
    assert!(r.is_ok());
    assert_eq!(sup.worker_pid(), Some(8));
}

#[test]
fn terminate_on_empty_slot_is_noop_success() {
    let mut sup = Supervisor::new();
    assert!(sup.terminate(true).is_ok());
    assert!(sup.terminate(false).is_ok());
    assert!(!sup.is_running());
}

#[test]
fn failed_kill_is_reported_and_slot_cleared() {
    let mut sup = Supervisor::new();
    let plan = sup.plan_start(Some("tagger-server".to_string()));
    sup.finish_start(&plan, Some(9)).unwrap();
    let r = sup.terminate(false);
    assert_eq!(r, Err(LifecycleError::TerminationFailure));
    assert!(!sup.is_running());
}

#[test]
fn absent_worker_is_not_found() {
    assert!(!worker_available(false, false));
    assert!(resolve_worker_path("a".to_string(), false, "c".to_string(), false).is_none());
    let mut sup = Supervisor::new();
    let plan = sup.plan_start(None);
    assert!(matches!(plan, StartPlan::NotFound));
    let r = sup.finish_start(&plan, None);
    assert_eq!(r, Err(LifecycleError::WorkerNotFound));
    assert!(!sup.is_running());
}

#[test]
fn spawn_refusal_is_reported() {
    let mut sup = Supervisor::new();
    let plan = sup.plan_start(Some("tagger-server".to_string()));
    let r = sup.finish_start(&plan, None);
    assert_eq!(r, Err(LifecycleError::SpawnFailure));
    assert!(!sup.is_running());
}

#[test]
fn adjacent_path_is_preferred() {
    let adjacent = "/opt/app/tagger-server".to_string();
    let cwd = "/work/tagger-server".to_string();
    assert_eq!(
        resolve_worker_path(adjacent.clone(), true, cwd.clone(), true),
        Some(adjacent.clone())
    );
    assert_eq!(resolve_worker_path(adjacent, false, cwd.clone(), true), Some(cwd));
    assert!(worker_available(true, true));
    assert!(worker_available(false, true));
}

#[test]
fn shutdown_drains_and_names_the_worker() {
    let mut sup = Supervisor::new();
    let plan = sup.plan_start(Some("tagger-server".to_string()));
    sup.finish_start(&plan, Some(12)).unwrap();
    let directive = sup.shutdown_directive(Platform::Windows);
    assert_eq!(
        directive,
        Some(KillDirective { pid: 12, strategy: TerminationStrategy::RecursiveTreeKill })
    );
    assert!(!sup.is_running());
    assert_eq!(sup.shutdown_directive(Platform::Windows), None);
}

#[test]
fn shutdown_uses_direct_signal_on_unix() {
    let mut sup = Supervisor::new();
    let plan = sup.plan_start(Some("tagger-server".to_string()));
    sup.finish_start(&plan, Some(13)).unwrap();
    let directive = sup.shutdown_directive(Platform::Unix);
    assert_eq!(
        directive,
        Some(KillDirective { pid: 13, strategy: TerminationStrategy::DirectSignal })
    );
    assert!(!sup.is_running());
}

#[test]
fn launch_arguments_select_the_fixed_port() {
    let args = worker_launch_args();
    assert_eq!(args, vec!["--port".to_string(), "8002".to_string()]);
}

#[test]
fn worker_binary_names_per_platform() {
    assert_eq!(worker_binary_name(Platform::Windows), "tagger-server.exe");
    assert_eq!(worker_binary_name(Platform::Unix), "tagger-server");
    assert_eq!(strategy_for(Platform::Windows), TerminationStrategy::RecursiveTreeKill);
    assert_eq!(strategy_for(Platform::Unix), TerminationStrategy::DirectSignal);
}

#[test]
fn error_messages_describe_each_failure() {
    assert_eq!(LifecycleError::WorkerNotFound.message(), "tagger-server not found");
    assert_eq!(LifecycleError::SpawnFailure.message(), "Failed to spawn sidecar");
    assert_eq!(LifecycleError::InvalidUrl.message(), "Invalid URL");
    assert_eq!(
        LifecycleError::SurfaceCreationFailure.message(),
        "Failed to create embedded webview"
    );
    assert_eq!(
        LifecycleError::SurfacePositionFailure.message(),
        "Failed to position embedded webview"
    );
    assert_eq!(
        LifecycleError::SurfaceVisibilityFailure.message(),
        "Failed to change webview visibility"
    );
    assert_eq!(LifecycleError::TerminationFailure.message(), "Failed to terminate worker");
}
