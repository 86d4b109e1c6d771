use loquat::errors::{ConfigError, LoquatError};
use loquat::events::package::Package;
use loquat::pools::standard_pool::{
    settle_package, Dispatch, StandardPool, WorkerOutcome, WorkerRegistration, BatchRun};
use loquat::pools::traits::Pool;
use loquat::pools::types::PoolType;
use loquat::pools::validator::PoolValidator;

#[derive(Debug)]
struct MockPool {
    id: String,
    pool_type: PoolType,
}

impl Pool for MockPool {
    fn pool_id(&self) -> &str {
        &self.id
    }

    fn pool_type(&self) -> PoolType {
        self.pool_type
    }

    fn register(&mut self, _registration: WorkerRegistration) -> Result<(), LoquatError> {
        Ok(())
    }

    fn unregister(&mut self, _name: &str) -> Result<(), LoquatError> {
        Ok(())
    }

    fn worker_names(&self) -> Vec<String> {
        vec![]
    }

    fn worker_count(&self) -> usize {
        0
    }

    fn has_worker(&self, _name: &str) -> bool {
        false
    }

    fn set_worker_priority(&mut self, _name: &str, _new_priority: u32) -> Result<(), LoquatError> {
        Ok(())
    }
}

#[test]
fn test_mock_pool() {
    let pool = MockPool { id: "test_pool".to_string(), pool_type: PoolType::Input };
    assert_eq!(pool.pool_id(), "test_pool");
    assert_eq!(pool.pool_type(), PoolType::Input);
    assert_eq!(pool.worker_count(), 0);
    assert!(!pool.has_worker("any_worker"));
}

#[test]
fn test_pool_type_processing_order() {
    let order = PoolType::processing_order();
    assert_eq!(order.len(), 9);
    assert_eq!(order[0], PoolType::PreInput);
    assert_eq!(order[1], PoolType::Input);
    assert_eq!(order[8], PoolType::PostOutput);
}

#[test]
fn test_pool_type_allows_third_party() {
    assert!(!PoolType::PreInput.allows_third_party());
    assert!(PoolType::Input.allows_third_party());
    assert!(PoolType::PostInput.allows_third_party());
    assert!(PoolType::PreProcess.allows_third_party());
    assert!(!PoolType::MidProcess.allows_third_party());
    assert!(PoolType::Process.allows_third_party());
    assert!(!PoolType::PostProcess.allows_third_party());
    assert!(PoolType::Output.allows_third_party());
    assert!(!PoolType::PostOutput.allows_third_party());
}

#[test]
fn test_pool_type_position() {
    assert_eq!(PoolType::PreInput.position(), 0);
    assert_eq!(PoolType::Input.position(), 1);
    assert_eq!(PoolType::PostOutput.position(), 8);
}

#[test]
fn test_pool_type_display() {
    assert_eq!(PoolType::Input.to_string(), "input");
    assert_eq!(PoolType::Process.to_string(), "process");
    assert_eq!(PoolType::Output.to_string(), "output");
}

#[test]
fn every_pool_sits_at_its_position() {
    let order = PoolType::processing_order();
    for (i, p) in order.iter().enumerate() {
        assert_eq!(p.position(), i);
    }
}

#[test]
fn test_validator_creation() {
    let validator = PoolValidator::new();
    assert_eq!(validator.max_iterations(), 100);
}

#[test]
fn test_validator_with_max_iterations() {
    let validator = PoolValidator::with_max_iterations(50);
    assert_eq!(validator.max_iterations(), 50);
}

#[test]
fn test_check_iterations() {
    let validator = PoolValidator::new();
    assert!(validator.check_iterations(99));
    assert!(!validator.check_iterations(100));
}

#[test]
fn test_log_dead_loop_warning() {
    let validator = PoolValidator::new();
    let warning = validator.dead_loop_warning("test_worker", "pkg-1");
    assert!(warning.contains("test_worker"));
    assert!(warning.contains("pkg-1"));
}

#[test]
fn test_pool_creation() {
    let pool = StandardPool::new(PoolType::Input);
    assert_eq!(pool.pool_id(), "pool_input");
    assert_eq!(pool.pool_type(), PoolType::Input);
    assert_eq!(pool.worker_count(), 0);
}

#[test]
fn test_pool_with_custom_id() {
    let pool = StandardPool::with_id("custom_id".to_string(), PoolType::Process);
    assert_eq!(pool.pool_id(), "custom_id");
}

#[test]
fn test_register_worker() {
    let mut pool = StandardPool::new(PoolType::Input);
    assert!(pool.register(WorkerRegistration::new("test_worker", 0)).is_ok());
    assert_eq!(pool.worker_count(), 1);
    assert!(pool.has_worker("test_worker"));
}

#[test]
fn test_register_duplicate_worker() {
    let mut pool = StandardPool::new(PoolType::Input);
    pool.register(WorkerRegistration::new("test_worker", 0)).unwrap();
    assert!(pool.register(WorkerRegistration::new("test_worker", 1)).is_err());
}

#[test]
fn duplicate_names_and_priorities_are_refused_with_their_messages() {
    let mut pool = StandardPool::new(PoolType::Input);
    pool.register(WorkerRegistration::new("a", 3)).unwrap();
    assert_eq!(
        pool.register(WorkerRegistration::new("a", 4)),
        Err(LoquatError::Config(ConfigError::InvalidFormat(
            "Worker 'a' already exists in pool 'pool_input'".to_string()
        )))
    );
    assert_eq!(
        pool.register(WorkerRegistration::new("b", 3)),
        Err(LoquatError::Config(ConfigError::InvalidFormat(
            "Worker priority 3 already exists in pool 'pool_input'".to_string()
        )))
    );
    assert_eq!(pool.worker_count(), 1);
}

#[test]
fn test_unregister_worker() {
    let mut pool = StandardPool::new(PoolType::Input);
    pool.register(WorkerRegistration::new("test_worker", 0)).unwrap();
    assert!(pool.unregister("test_worker").is_ok());
    assert_eq!(pool.worker_count(), 0);
    assert!(!pool.has_worker("test_worker"));
    assert_eq!(
        pool.unregister("test_worker"),
        Err(LoquatError::Config(ConfigError::MissingRequired(
            "Worker 'test_worker' not found in pool 'pool_input'".to_string()
        )))
    );
}

#[test]
fn test_set_worker_priority() {
    let mut pool = StandardPool::new(PoolType::Input);
    pool.register(WorkerRegistration::new("test_worker", 0)).unwrap();
    assert!(pool.set_worker_priority("test_worker", 5).is_ok());
    assert_eq!(pool.get_worker("test_worker").unwrap().priority, 5);
}

#[test]
fn workers_stay_in_priority_order() {
    let mut pool = StandardPool::new(PoolType::Process);
    pool.register(WorkerRegistration::new("c", 30)).unwrap();
    pool.register(WorkerRegistration::new("a", 10)).unwrap();
    pool.register(WorkerRegistration::new("b", 20)).unwrap();
    assert_eq!(pool.worker_names(), vec!["a", "b", "c"]);
    pool.set_worker_priority("a", 25).unwrap();
    assert_eq!(pool.worker_names(), vec!["b", "a", "c"]);
    assert_eq!(
        pool.set_worker_priority("a", 30),
        Err(LoquatError::Config(ConfigError::InvalidFormat(
            "Worker priority 30 already used in pool 'pool_process'".to_string()
        )))
    );
    assert!(pool.set_worker_priority("c", 30).is_ok());
    let sorted: Vec<u32> = pool.workers_sorted().iter().map(|w| w.priority).collect();
    assert_eq!(sorted, vec![20, 25, 30]);
}

#[test]
fn packages_go_to_the_first_accepting_worker() {
    let mut pool = StandardPool::new(PoolType::Input);
    pool.register(WorkerRegistration::new("a", 1)).unwrap();
    pool.register(WorkerRegistration::new("b", 2)).unwrap();
    assert_eq!(pool.dispatch(&vec![false, true]), Dispatch::Worker(1));
    assert_eq!(pool.dispatch(&vec![true, true]), Dispatch::Worker(0));
    assert_eq!(pool.dispatch(&vec![false, false]), Dispatch::NextPool);
}

#[test]
fn released_and_unmatched_packages_go_to_the_next_pool() {
    let mut next_pool = Vec::new();
    let mut next_round = Vec::new();
    let a = Package::new();
    let a_id = a.package_id.clone();
    assert!(settle_package(a, None, &mut next_pool, &mut next_round).is_empty());
    let b = Package::new();
    let b_id = b.package_id.clone();
    assert!(settle_package(b, Some(WorkerOutcome::Release), &mut next_pool, &mut next_round).is_empty());
    let ids: Vec<String> = next_pool.iter().map(|p| p.package_id.clone()).collect();
    assert_eq!(ids, vec![a_id, b_id]);
    assert!(next_round.is_empty());
}

#[test]
fn replacements_stay_in_the_pool_unless_they_would_loop() {
    let mut next_pool = Vec::new();
    let mut next_round = Vec::new();
    let safe = Package::new().with_payload_type("text");
    let looping = Package::new().with_payload_type("blob");
    let dropped = settle_package(
        Package::new(),
        Some(WorkerOutcome::Modify(vec![(safe, true), (looping, false)])),
        &mut next_pool,
        &mut next_round,
    );
    assert!(next_pool.is_empty());
    assert_eq!(next_round.len(), 1);
    assert!(next_round[0].has_payload_type("text"));
    assert_eq!(dropped.len(), 1);
    assert!(dropped[0].has_payload_type("blob"));
}

#[test]
fn batch_run_releases_replaces_and_drops() {
    let mut run = BatchRun::new(vec![Package::new(), Package::new()]);
    assert!(run.next_package().is_some());
    assert!(run.settle(Some(WorkerOutcome::Release)).is_empty());
    assert!(run.next_package().is_some());
    let dropped = run.settle(Some(WorkerOutcome::Modify(vec![
        (Package::new(), true),
        (Package::new(), false),
    ])));
    assert_eq!(dropped.len(), 1);
    assert!(!run.is_finished());
    assert!(run.next_package().is_some());
    assert!(run.settle(None).is_empty());
    assert!(run.next_package().is_none());
    assert!(run.is_finished());
    assert_eq!(run.into_next_pool().len(), 2);
}
