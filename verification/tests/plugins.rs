use loquat::errors::{LoquatError, PluginError};
use loquat::plugins::loader::{
    kind_of_extension, AnyLoader, CompositePluginLoader, JavaScriptPluginLoader,
    NativePluginLoader, PluginLoader, PythonPluginLoader,
};
use loquat::plugins::manager::{
    failed_load_result, hot_reload_step, is_plugin_file, HotReloadManager, HotReloadStep,
    PluginManager,
};
use loquat::plugins::registry::PluginRegistry;
use loquat::plugins::traits::{Plugin, PluginHealth};
use loquat::plugins::types::{
    PluginConfig, PluginInfo, PluginLoadResult, PluginMetadata, PluginStatus, PluginType,
};

fn create_test_metadata(name: &str) -> PluginMetadata {
    PluginMetadata::new(
        name.to_string(),
        "1.0.0".to_string(),
        PluginType::Native,
        format!("./{}.so", name),
    )
}

#[test]
fn test_native_loader_handles_native_type() {
    let loader = NativePluginLoader;
    assert!(loader.can_handle(&PluginType::Native));
    assert!(!loader.can_handle(&PluginType::Python));
    assert!(!loader.can_handle(&PluginType::JavaScript));
}

#[test]
fn test_python_loader_handles_python_type() {
    let loader = PythonPluginLoader::default();
    assert!(!loader.can_handle(&PluginType::Native));
    assert!(loader.can_handle(&PluginType::Python));
    assert!(!loader.can_handle(&PluginType::JavaScript));
}

#[test]
fn test_js_loader_handles_js_type() {
    let loader = JavaScriptPluginLoader::default();
    assert!(!loader.can_handle(&PluginType::Native));
    assert!(!loader.can_handle(&PluginType::Python));
    assert!(loader.can_handle(&PluginType::JavaScript));
}

#[test]
fn test_composite_loader_handles_all_types() {
    let loader = CompositePluginLoader::new();
    assert!(loader.can_handle(&PluginType::Native));
    assert!(loader.can_handle(&PluginType::Python));
    assert!(loader.can_handle(&PluginType::JavaScript));
}

#[test]
fn loaders_refuse_missing_files() {
    match NativePluginLoader.load_plugin("/nowhere/x.so", false) {
        Err(LoquatError::Plugin(PluginError::LoadFailed(m))) => {
            assert_eq!(m, "Plugin file not found: \"/nowhere/x.so\"")
        }
        _ => panic!("expected a load failure"),
    }
}

#[test]
fn loaders_refuse_other_extensions() {
    match PythonPluginLoader::new().load_plugin("plugins/a.js", true) {
        Err(LoquatError::Plugin(PluginError::UnsupportedType(m))) => {
            assert_eq!(m, "Invalid Python plugin extension: js")
        }
        _ => panic!("expected an unsupported type"),
    }
    match NativePluginLoader.load_plugin("plugins/a.py", true) {
        Err(LoquatError::Plugin(PluginError::UnsupportedType(m))) => {
            assert_eq!(m, "Invalid native plugin extension: py")
        }
        _ => panic!("expected an unsupported type"),
    }
}

#[test]
fn loaders_refuse_files_without_extension() {
    match JavaScriptPluginLoader::new().load_plugin("plugins/readme", true) {
        Err(LoquatError::Plugin(PluginError::LoadFailed(m))) => assert_eq!(m, "Invalid plugin file"),
        _ => panic!("expected a load failure"),
    }
}

#[test]
fn loaders_have_no_runtime_yet() {
    match JavaScriptPluginLoader::new().load_plugin("plugins/a.mjs", true) {
        Err(LoquatError::Plugin(PluginError::LoadFailed(m))) => assert_eq!(
            m,
            "JavaScript plugin loading not yet implemented - requires JS runtime infrastructure"
        ),
        _ => panic!("expected a load failure"),
    }
}

#[test]
fn composite_loader_classifies_by_extension() {
    let loader = CompositePluginLoader::new();
    match loader.load_plugin("plugins/a.txt", true) {
        Err(LoquatError::Plugin(PluginError::UnsupportedType(m))) => {
            assert_eq!(m, "Unknown plugin extension: txt")
        }
        _ => panic!("expected an unsupported type"),
    }
    match loader.load_plugin("plugins/a.dylib", true) {
        Err(LoquatError::Plugin(PluginError::LoadFailed(m))) => assert_eq!(
            m,
            "Native plugin loading not yet implemented - requires dynamic library infrastructure"
        ),
        _ => panic!("expected a load failure"),
    }
    let only_python = CompositePluginLoader::new();
    let _ = only_python.get_loader_for_type(&PluginType::Python).unwrap();
    assert_eq!(kind_of_extension("ts"), Some(PluginType::JavaScript));
    assert_eq!(kind_of_extension("dll"), Some(PluginType::Native));
    assert_eq!(kind_of_extension("rb"), None);
    let extended = CompositePluginLoader::new().add_loader(AnyLoader::Native(NativePluginLoader));
    assert!(extended.can_handle(&PluginType::Native));
}

#[test]
fn test_registry_creation() {
    let registry = PluginRegistry::new();
    assert_eq!(registry.count().unwrap(), 0);
}

#[test]
fn test_register_plugin() {
    let mut registry = PluginRegistry::new();
    let metadata = create_test_metadata("test_plugin");
    assert!(registry.register(metadata).is_ok());
    assert_eq!(registry.count().unwrap(), 1);
}

#[test]
fn plugins_registry_test_register_duplicate() {
    let mut registry = PluginRegistry::new();
    let metadata1 = create_test_metadata("test_plugin");
    let metadata2 = create_test_metadata("test_plugin");
    assert!(registry.register(metadata1).is_ok());
    assert!(registry.register(metadata2).is_err());
}

#[test]
fn test_unregister_plugin() {
    let mut registry = PluginRegistry::new();
    let metadata = create_test_metadata("test_plugin");
    assert!(registry.register(metadata).is_ok());
    assert!(registry.unregister("test_plugin").is_ok());
    assert_eq!(registry.count().unwrap(), 0);
}

#[test]
fn test_get_plugin() {
    let mut registry = PluginRegistry::new();
    let metadata = create_test_metadata("test_plugin");
    assert!(registry.register(metadata).is_ok());
    let info = registry.get("test_plugin").unwrap();
    assert_eq!(info.metadata.name, "test_plugin");
}

#[test]
fn test_get_nonexistent() {
    let registry = PluginRegistry::new();
    assert!(registry.get("nonexistent").is_err());
}

#[test]
fn test_list_plugins() {
    let mut registry = PluginRegistry::new();
    registry.register(create_test_metadata("plugin1")).unwrap();
    registry.register(create_test_metadata("plugin2")).unwrap();
    registry.register(create_test_metadata("plugin3")).unwrap();
    let names = registry.list().unwrap();
    assert_eq!(names.len(), 3);
    assert!(names.contains(&"plugin1".to_string()));
}

#[test]
fn test_update_status() {
    let mut registry = PluginRegistry::new();
    registry.register(create_test_metadata("test_plugin")).unwrap();
    registry.update_status("test_plugin", PluginStatus::Loaded).unwrap();
    let info = registry.get("test_plugin").unwrap();
    assert!(info.status.is_active());
}

#[test]
fn test_plugin_exists() {
    let mut registry = PluginRegistry::new();
    assert!(!registry.contains("test_plugin").unwrap());
    registry.register(create_test_metadata("test_plugin")).unwrap();
    assert!(registry.contains("test_plugin").unwrap());
}

#[test]
fn test_by_status() {
    let mut registry = PluginRegistry::new();
    registry.register(create_test_metadata("plugin1")).unwrap();
    registry.register(create_test_metadata("plugin2")).unwrap();
    registry.register(create_test_metadata("plugin3")).unwrap();
    registry.update_status("plugin1", PluginStatus::Loaded).unwrap();
    registry.update_status("plugin2", PluginStatus::Loaded).unwrap();
    let loaded = registry.by_status(PluginStatus::Loaded).unwrap();
    assert_eq!(loaded.len(), 2);
}

#[test]
fn test_active_plugins() {
    let mut registry = PluginRegistry::new();
    registry.register(create_test_metadata("plugin1")).unwrap();
    registry.register(create_test_metadata("plugin2")).unwrap();
    registry.register(create_test_metadata("plugin3")).unwrap();
    registry.update_status("plugin1", PluginStatus::Loaded).unwrap();
    registry.update_status("plugin2", PluginStatus::Unloaded).unwrap();
    let active = registry.active().unwrap();
    assert_eq!(active.len(), 1);
    assert_eq!(active[0].metadata.name, "plugin1");
}

#[test]
fn test_clear() {
    let mut registry = PluginRegistry::new();
    registry.register(create_test_metadata("plugin1")).unwrap();
    registry.register(create_test_metadata("plugin2")).unwrap();
    assert_eq!(registry.count().unwrap(), 2);
    registry.clear().unwrap();
    assert_eq!(registry.count().unwrap(), 0);
}

#[test]
fn unknown_names_are_not_found() {
    let mut registry = PluginRegistry::new();
    match registry.unregister("ghost") {
        Err(LoquatError::Plugin(PluginError::NotFound(n))) => assert_eq!(n, "ghost"),
        _ => panic!("expected not found"),
    }
    match registry.update_status("ghost", PluginStatus::Loaded) {
        Err(LoquatError::Plugin(PluginError::NotFound(n))) => assert_eq!(n, "ghost"),
        _ => panic!("expected not found"),
    }
}

#[test]
fn test_plugin_health() {
    assert!(PluginHealth::Healthy.is_healthy());
    assert!(!PluginHealth::Degraded { reason: "slow".to_string() }.is_healthy());
    assert_eq!(PluginHealth::Healthy, PluginHealth::Healthy);
}

#[test]
fn test_plugin_type_extensions() {
    assert_eq!(PluginType::Native.extension(), "so");
    assert_eq!(PluginType::Python.extension(), "py");
    assert_eq!(PluginType::JavaScript.extension(), "js");
}

#[test]
fn test_plugin_type_display() {
    assert_eq!(PluginType::Native.to_string(), "native");
    assert_eq!(PluginType::Python.to_string(), "python");
    assert_eq!(PluginType::JavaScript.to_string(), "javascript");
}

#[test]
fn test_plugin_status_is_active() {
    assert!(PluginStatus::Loaded.is_active());
    assert!(!PluginStatus::Unloaded.is_active());
    assert!(!PluginStatus::Error { message: "error".to_string() }.is_active());
}

#[test]
fn test_plugin_status_error_message() {
    assert_eq!(
        PluginStatus::Error { message: "test error".to_string() }.error_message(),
        Some("test error")
    );
    assert!(PluginStatus::Loaded.error_message().is_none());
}

#[test]
fn test_plugin_metadata_builder() {
    let metadata = PluginMetadata::new(
        "test_plugin".to_string(),
        "1.0.0".to_string(),
        PluginType::Native,
        "./test_plugin.so".to_string(),
    )
    .with_description("Test plugin")
    .with_author("Test Author")
    .with_dependencies(vec!["dep1".to_string()]);
    assert_eq!(metadata.name, "test_plugin");
    assert_eq!(metadata.description, Some("Test plugin".to_string()));
    assert_eq!(metadata.author, Some("Test Author".to_string()));
    assert!(metadata.dependencies.contains(&"dep1".to_string()));
}

#[test]
fn test_plugin_config_default() {
    let config = PluginConfig::default();
    assert_eq!(config.plugin_dir, "./plugins");
    assert!(config.auto_load);
    assert!(config.enable_hot_reload);
    assert_eq!(config.hot_reload_interval, 5);
}

#[test]
fn test_plugin_config_should_load() {
    let config = PluginConfig::new()
        .with_whitelist(vec!["plugin1".to_string()])
        .with_blacklist(vec!["plugin2".to_string()]);
    assert!(config.should_load("plugin1"));
    assert!(!config.should_load("plugin2"));
    assert!(!config.should_load("plugin3"));
}

#[test]
fn test_plugin_config_all_whitelist() {
    let config = PluginConfig::new();
    assert!(config.should_load("any_plugin"));
}

#[test]
fn blacklist_wins_over_whitelist() {
    let config = PluginConfig::new()
        .with_whitelist(vec!["p".to_string()])
        .with_blacklist(vec!["p".to_string()]);
    assert!(!config.should_load("p"));
}

#[test]
fn test_plugin_info() {
    let metadata = PluginMetadata::new(
        "test".to_string(),
        "1.0.0".to_string(),
        PluginType::Native,
        "./test.so".to_string(),
    );
    let info = PluginInfo::new(metadata).with_status(PluginStatus::Loaded);
    assert!(info.status.is_active());
    assert!(info.loaded_at.is_some());
}

#[test]
fn plugin_info_counts_errors() {
    let metadata = create_test_metadata("p");
    let info = PluginInfo::new(metadata).with_error("boom").with_error("again");
    assert_eq!(info.error_count, 2);
    assert_eq!(info.status.error_message(), Some("again"));
}

#[test]
fn test_plugin_load_result() {
    let success = PluginLoadResult::success("test_plugin".to_string());
    assert!(success.success);
    assert!(success.error.is_none());
    let failure = PluginLoadResult::failure("test_plugin".to_string(), "error".to_string());
    assert!(!failure.success);
    assert_eq!(failure.error, Some("error".to_string()));
}

#[test]
fn manager_turns_away_blacklisted_files() {
    let config = PluginConfig::new().with_blacklist(vec!["bad".to_string()]);
    let mut manager = PluginManager::new(config);
    let result = manager.load_plugin("plugins/bad.so", true).unwrap();
    assert_eq!(result.plugin_name, "bad");
    assert!(!result.success);
    assert_eq!(result.error, Some("Plugin is blacklisted".to_string()));
    assert_eq!(manager.plugin_count(), 0);
}

#[test]
fn manager_reports_loader_errors() {
    let mut manager = PluginManager::new(PluginConfig::new());
    match manager.load_plugin("plugins/good.py", true) {
        Err(LoquatError::Plugin(PluginError::LoadFailed(m))) => {
            assert_eq!(m, "Python plugin loading not yet implemented - requires pyo3 infrastructure")
        }
        _ => panic!("expected a load failure"),
    }
    assert!(!manager.is_plugin_loaded("good"));
    assert_eq!(manager.active_plugin_count(), 0);
    match manager.unload_plugin("good") {
        Err(LoquatError::Plugin(PluginError::NotFound(n))) => assert_eq!(n, "good"),
        _ => panic!("expected not found"),
    }
    assert!(manager.update_plugin_config("good", "{}").is_err());
}

#[test]
fn manager_scans_plugin_extensions() {
    assert!(is_plugin_file("plugins/a.so"));
    assert!(is_plugin_file("plugins/a.mjs"));
    assert!(!is_plugin_file("plugins/a.txt"));
    assert!(!is_plugin_file("plugins/noext"));
    let r = failed_load_result("plugins/broken.py", "boom".to_string());
    assert_eq!(r.plugin_name, "broken");
    assert!(!r.success);
}

#[test]
fn hot_reload_decisions() {
    assert_eq!(hot_reload_step(None, 5, true), HotReloadStep::Remember);
    assert_eq!(hot_reload_step(Some(4), 5, true), HotReloadStep::Reload);
    assert_eq!(hot_reload_step(Some(4), 5, false), HotReloadStep::Load);
    assert_eq!(hot_reload_step(Some(5), 5, true), HotReloadStep::Keep);
    let mut m = HotReloadManager::new(5);
    assert!(!m.is_running());
    assert!(m.start().is_ok());
    match m.start() {
        Err(LoquatError::Plugin(PluginError::HotReloadError(msg))) => {
            assert_eq!(msg, "Hot reload is already running")
        }
        _ => panic!("expected a hot reload error"),
    }
    m.stop();
    assert!(!m.is_running());
    assert_eq!(m.interval(), 5);
}

#[test]
fn each_kind_recognises_its_own_extension() {
    for t in [PluginType::Native, PluginType::Python, PluginType::JavaScript] {
        assert_eq!(kind_of_extension(t.extension()), Some(t));
    }
}

#[test]
fn unload_all_leaves_nothing_held() {
    let mut manager = PluginManager::new(PluginConfig::default());
    assert!(manager.unload_all().is_ok());
    assert_eq!(manager.plugin_count(), 0);
    manager.clear();
    assert_eq!(manager.plugin_count(), 0);
}

#[test]
fn whitelist_and_blacklist_add_names() {
    let config = PluginConfig::new()
        .with_whitelist(vec!["a".to_string()])
        .with_whitelist(vec!["b".to_string()])
        .with_blacklist(vec!["c".to_string()])
        .with_blacklist(vec!["d".to_string()]);
    assert_eq!(config.whitelist, vec!["a".to_string(), "b".to_string()]);
    assert_eq!(config.blacklist, vec!["c".to_string(), "d".to_string()]);
}

struct MyPlugin {
    name: String,
    version: String,
}

impl Plugin for MyPlugin {
    fn name(&self) -> &str {
        &self.name
    }

    fn version(&self) -> &str {
        &self.version
    }

    fn plugin_type(&self) -> PluginType {
        PluginType::Native
    }
}

#[test]
fn plugin_defaults() {
    let mut p = MyPlugin { name: "MyPlugin".to_string(), version: "0.1.0".to_string() };
    assert_eq!(p.name(), "MyPlugin");
    assert_eq!(p.description(), None);
    assert!(p.dependencies().is_empty());
    assert!(p.init().is_ok());
    assert!(p.reload().is_ok());
    assert!(p.is_ready());
    assert!(p.update_config("{}").is_ok());
    assert!(p.health_status().is_healthy());
}
