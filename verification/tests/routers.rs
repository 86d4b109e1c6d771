use loquat::errors::LoquatError;
use loquat::events::block::{Block, BlockType};
use loquat::events::event_enum::EventEnum;
use loquat::events::group::Group;
use loquat::events::message::MessageEvent;
use loquat::events::package::Package;
use loquat::events::traits::EventMetadata;
use loquat::routers::router::{Router, StandardRouter};
use loquat::routers::types::{RouteResult, RouteState, RouteTarget, RouterConfig};

struct MockRouter {
    id: String,
    config: RouterConfig,
}

impl Router for MockRouter {
    fn router_id(&self) -> &str {
        &self.id
    }

    fn config(&self) -> &RouterConfig {
        &self.config
    }

    fn set_config(&mut self, config: RouterConfig) -> Result<(), LoquatError> {
        self.config = config;
        Ok(())
    }

    fn route_package(&self, _package: &Package) -> RouteResult {
        let state = RouteState::new()
            .with_initialized()
            .with_adapter_target(RouteTarget::Adapter("mock_adapter".to_string()));
        RouteResult::success(state)
    }
}

fn create_test_router() -> StandardRouter {
    let config = RouterConfig::new()
        .with_group_adapter("group_adapter")
        .with_private_adapter("private_adapter");
    StandardRouter::with_config(config)
}

fn package_with(metadata: EventMetadata) -> Package {
    let event = EventEnum::Message(MessageEvent::Text { text: "Test".to_string(), metadata });
    let group = Group::new("test_group").with_event(event);
    let block = Block::new(BlockType::Message).with_group(group);
    Package::new().with_block(block)
}

#[test]
fn test_router_creation() {
    let router = StandardRouter::new();
    assert_eq!(router.router_id(), "standard_router");
    assert!(router.is_enabled());
}

#[test]
fn test_router_with_id() {
    let router = StandardRouter::with_id("custom_router".to_string());
    assert_eq!(router.router_id(), "custom_router");
}

#[test]
fn router_test_router_set_config() {
    let mut router = StandardRouter::new();
    let new_config = RouterConfig::new()
        .with_default_adapter("new_default")
        .with_auto_initialize(false);
    assert!(router.set_config(new_config).is_ok());
    assert!(!router.config().auto_initialize);
}

#[test]
fn test_extract_channel_type_group() {
    let router = create_test_router();
    let package = package_with(
        EventMetadata::new("message").with_user_id("user1").with_group_id("group123"),
    );
    assert_eq!(router.extract_channel_type(&package), Some("group:group123".to_string()));
}

#[test]
fn test_extract_channel_type_private() {
    let router = create_test_router();
    let package = package_with(EventMetadata::new("message").with_user_id("user1"));
    assert_eq!(router.extract_channel_type(&package), Some("private:user1".to_string()));
}

#[test]
fn test_determine_target_group() {
    let router = create_test_router();
    let target = router.determine_target("group:123");
    assert_eq!(target, RouteTarget::Adapter("group_adapter".to_string()));
}

#[test]
fn test_determine_target_private() {
    let router = create_test_router();
    let target = router.determine_target("private:123");
    assert_eq!(target, RouteTarget::Adapter("private_adapter".to_string()));
}

#[test]
fn test_determine_target_default() {
    let config = RouterConfig::new().with_default_adapter("default_adapter");
    let router = StandardRouter::with_config(config);
    let target = router.determine_target("unknown:123");
    assert_eq!(target, RouteTarget::Adapter("default_adapter".to_string()));
}

#[test]
fn test_determine_target_none() {
    let router = StandardRouter::with_config(RouterConfig::new());
    let target = router.determine_target("unknown:123");
    assert_eq!(target, RouteTarget::NoTarget);
}

#[test]
fn routing_a_package_reports_its_channel_and_target() {
    let router = create_test_router();
    let package = package_with(
        EventMetadata::new("message").with_user_id("user1").with_group_id("g9"),
    );
    let result = router.route_package(&package);
    assert!(result.success);
    assert_eq!(result.state.adapter_target, RouteTarget::Adapter("group_adapter".to_string()));
    assert_eq!(result.state.channel_type, Some("group:g9".to_string()));
}

#[test]
fn route_batch_gives_one_result_per_package() {
    let router = create_test_router();
    let packages = vec![Package::new(), Package::new()];
    let results = router.route_batch(&packages);
    assert_eq!(results.len(), 2);
    for (result, package) in results.iter().zip(packages.iter()) {
        let one = router.route_package(package);
        assert!(result.success);
        assert_eq!(result.state.adapter_target, one.state.adapter_target);
        assert_eq!(result.state.channel_type, one.state.channel_type);
    }
}

#[test]
fn test_mock_router() {
    let router = MockRouter { id: "test_router".to_string(), config: RouterConfig::new() };
    assert_eq!(router.router_id(), "test_router");
    assert!(router.is_enabled());
}

#[test]
fn test_router_set_enabled() {
    let config = RouterConfig::new().with_auto_initialize(false);
    let mut router = MockRouter { id: "test_router".to_string(), config };
    router.set_enabled(false);
    assert!(!router.is_enabled());
}

#[test]
fn traits_test_router_set_config() {
    let config = RouterConfig::new();
    let mut router = MockRouter { id: "test_router".to_string(), config };
    let new_config = RouterConfig::new().with_default_adapter("new_default");
    assert!(router.set_config(new_config.clone()).is_ok());
    assert_eq!(router.config().default_adapter, Some("new_default".to_string()));
}

#[test]
fn test_route_state_default() {
    let state = RouteState::default();
    assert!(!state.initialized);
    assert_eq!(state.adapter_target, RouteTarget::NoTarget);
    assert!(state.channel_type.is_none());
}

#[test]
fn test_route_state_builder() {
    let state = RouteState::new()
        .with_initialized()
        .with_adapter_target(RouteTarget::Adapter("test_adapter".to_string()))
        .with_channel_type("group");
    assert!(state.initialized);
    assert_eq!(state.adapter_target, RouteTarget::Adapter("test_adapter".to_string()));
    assert_eq!(state.channel_type, Some("group".to_string()));
}

#[test]
fn test_router_config_default() {
    let config = RouterConfig::default();
    assert!(config.auto_initialize);
    assert!(config.auto_route);
    assert!(config.default_adapter.is_none());
}

#[test]
fn test_router_config_builder() {
    let config = RouterConfig::new()
        .with_default_adapter("default")
        .with_group_adapter("group_adapter")
        .with_auto_initialize(false);
    assert_eq!(config.default_adapter, Some("default".to_string()));
    assert_eq!(config.group_adapter, Some("group_adapter".to_string()));
    assert!(!config.auto_initialize);
}

#[test]
fn test_route_result() {
    let state = RouteState::new().with_initialized();
    let success = RouteResult::success(state.clone());
    let failure = RouteResult::failure(state.clone());
    assert!(success.success);
    assert!(!failure.success);
}

#[test]
fn standard_router_set_enabled_keeps_adapters() {
    let mut router = create_test_router();
    router.set_enabled(false);
    assert!(!router.is_enabled());
    assert_eq!(router.config().group_adapter, Some("group_adapter".to_string()));
    assert_eq!(router.config().private_adapter, Some("private_adapter".to_string()));
    router.set_enabled(true);
    assert!(router.is_enabled());
}
