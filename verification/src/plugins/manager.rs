//! The plugin manager: the loading policy applied to files, and the
//! bookkeeping of loaded plugins.

use vstd::prelude::*;
use crate::errors::{LoquatError, PluginError};
use crate::plugins::loader::{
    file_extension, file_stem, kind_of_extension, path_extension, path_file_stem, plugin_error_is,
    spec_composite_load_error, spec_kind_of_extension, CompositePluginLoader, PluginLoader,
};
use crate::plugins::registry::{
    copies_of, has_plugin, info_name, is_not_found, plugin_names_distinct, with_status_filter,
    PluginRegistry,
};
use crate::plugins::types::{
    strings_contain, strings_view, PluginConfig, PluginInfo, PluginLoadResult, PluginMetadata,
    PluginStatus,
};
use crate::text::{opt_view, str_eq};

verus! {

/// The plugin manager: its configuration, loader and registry, and the names
/// of the plugins it holds loaded, in load order.
#[derive(Debug)]
pub struct PluginManager {
    registry: PluginRegistry,
    loader: CompositePluginLoader,
    config: PluginConfig,
    loaded: Vec<String>,
}

/// Whether a file with this path is one the manager looks at when it scans
/// the plugin directory.
pub open spec fn spec_is_plugin_file(path: Seq<char>) -> bool {
    match path_extension(path) {
        Some(ext) => spec_kind_of_extension(ext) is Some,
        None => false,
    }
}

/// Whether a file with this path is one the manager looks at when it scans
/// the plugin directory: its extension is one of the plugin extensions.
pub fn is_plugin_file(path: &str) -> (r: bool)
    ensures
        r == spec_is_plugin_file(path@),
{
    match file_extension(path) {
        Some(ext) => kind_of_extension(ext.as_str()).is_some(),
        None => false,
    }
}

/// The result recorded for a file whose load failed with the message
/// `error`: it names the file's stem, or `unknown`.
pub fn failed_load_result(path: &str, error: String) -> (r: PluginLoadResult)
    ensures
        r.plugin_name@ == (match path_file_stem(path@) {
            Some(s) => s,
            None => "unknown"@,
        }),
        !r.success,
        r.error == Some(error),
{
    let name = match file_stem(path) {
        Some(s) => s,
        None => String::from_str("unknown"),
    };
    PluginLoadResult::failure(name, error)
}

/// `e` is the error of loading the file `path` again for a reload, under the
/// blacklist `blacklist` and with loaders of the kinds `kinds`: an invalid
/// path or a blacklisted plugin is turned away, otherwise the loader's error.
pub open spec fn reload_error_is(
    e: LoquatError,
    blacklist: Seq<Seq<char>>,
    kinds: Seq<crate::plugins::types::PluginType>,
    path: Seq<char>,
    exists: bool,
) -> bool {
    if blacklist.len() > 0 && path_file_stem(path) is None {
        plugin_error_is(e, true, "Invalid plugin path"@)
    } else if blacklist.len() > 0 && blacklisted(blacklist, path) {
        e matches LoquatError::Plugin(PluginError::ReloadFailed(m)) && m@ == "Plugin is blacklisted"@
    } else {
        plugin_error_is(
            e,
            spec_composite_load_error(kinds, path, exists).0,
            spec_composite_load_error(kinds, path, exists).1,
        )
    }
}

/// The blacklist names the stem of the file `path`.
pub open spec fn blacklisted(blacklist: Seq<Seq<char>>, path: Seq<char>) -> bool {
    match path_file_stem(path) {
        Some(s) => blacklist.contains(s),
        None => false,
    }
}

/// Removing the record at `k` from `s`, whose names are distinct, leaves a
/// record under `name` exactly when `s` had one and `name` is not the removed
/// record's name.
proof fn lemma_remove_record(s: Seq<PluginInfo>, k: int, name: Seq<char>)
    requires
        plugin_names_distinct(s),
        0 <= k < s.len(),
    ensures
        has_plugin(s.remove(k), name) <==> (has_plugin(s, name) && name != info_name(s[k])),
{
    let t = s.remove(k);
    if has_plugin(t, name) {
        let j = choose|j: int| 0 <= j < t.len() && info_name(t[j]) == name;
        let j0 = if j < k { j } else { j + 1 };
        assert(t[j] == s[j0]);
        assert(j0 != k);
        assert(has_plugin(s, name));
    }
    if has_plugin(s, name) && name != info_name(s[k]) {
        let j = choose|j: int| 0 <= j < s.len() && info_name(s[j]) == name;
        assert(j != k);
        let j1 = if j < k { j } else { j - 1 };
        assert(t[j1] == s[j]);
        assert(has_plugin(t, name));
    }
}

impl PluginManager {
    /// Every held plugin is recorded; no name is recorded or held twice.
    pub closed spec fn well_formed(&self) -> bool {
        &&& plugin_names_distinct(self.registry@)
        &&& self.spec_loaded().no_duplicates()
        &&& forall|i: int|
            0 <= i < self.spec_loaded().len() ==> has_plugin(
                self.registry@,
                #[trigger] self.spec_loaded()[i],
            )
    }

    /// The configuration.
    pub closed spec fn spec_config(&self) -> PluginConfig {
        self.config
    }

    /// The registry's records.
    pub closed spec fn spec_registry(&self) -> Seq<PluginInfo> {
        self.registry@
    }

    /// The names of the plugins held loaded.
    pub closed spec fn spec_loaded(&self) -> Seq<Seq<char>> {
        strings_view(self.loaded@)
    }

    /// The kinds of the loader's single-kind loaders.
    pub closed spec fn spec_loader(&self) -> Seq<crate::plugins::types::PluginType> {
        self.loader@
    }

    /// The configuration's whitelist.
    pub closed spec fn spec_whitelist(&self) -> Seq<Seq<char>> {
        strings_view(self.config.whitelist@)
    }

    /// The configuration's blacklist.
    pub closed spec fn spec_blacklist(&self) -> Seq<Seq<char>> {
        strings_view(self.config.blacklist@)
    }

    /// A manager with the default loader, an empty registry and nothing loaded.
    pub fn new(config: PluginConfig) -> (r: Self)
        ensures
            r.well_formed(),
            r.spec_registry() == Seq::<PluginInfo>::empty(),
            r.spec_loaded() == Seq::<Seq<char>>::empty(),
            r.spec_loader() == seq![
                crate::plugins::types::PluginType::Native,
                crate::plugins::types::PluginType::Python,
                crate::plugins::types::PluginType::JavaScript,
            ],
            r.spec_config() == config,
    {
        Self::with_loader(config, CompositePluginLoader::new())
    }

    /// A manager with the given loader.
    pub fn with_loader(config: PluginConfig, loader: CompositePluginLoader) -> (r: Self)
        ensures
            r.well_formed(),
            r.spec_registry() == Seq::<PluginInfo>::empty(),
            r.spec_loaded() == Seq::<Seq<char>>::empty(),
            r.spec_loader() == loader@,
            r.spec_config() == config,
    {
        let r = PluginManager {
            registry: PluginRegistry::new(),
            loader,
            config,
            loaded: Vec::new(),
        };
        assert(r.spec_loaded() =~= Seq::<Seq<char>>::empty());
        r
    }

    /// The registry.
    pub fn registry(&self) -> (r: &PluginRegistry)
        ensures
            r@ == self.spec_registry(),
    {
        &self.registry
    }

    /// The configuration.
    pub fn config(&self) -> (r: &PluginConfig)
        ensures
            *r == self.spec_config(),
    {
        &self.config
    }

    /// Replace the configuration.
    pub fn update_config(&mut self, config: PluginConfig)
        requires
            old(self).well_formed(),
        ensures
            final(self).well_formed(),
            final(self).spec_config() == config,
            final(self).spec_registry() == old(self).spec_registry(),
            final(self).spec_loaded() == old(self).spec_loaded(),
            final(self).spec_loader() == old(self).spec_loader(),
    {
        self.config = config;
    }

    /// Load the plugin in the file `path`, which exists on disk when `exists`
    /// holds. With a blacklist, a file whose stem it lists is turned away with
    /// a failed result; otherwise the loader decides, and with a whitelist a
    /// plugin whose name it does not list is turned away. A loaded plugin is
    /// recorded and held.
    pub fn load_plugin(&mut self, path: &str, exists: bool) -> (r: Result<
        PluginLoadResult,
        LoquatError,
    >)
        requires
            old(self).well_formed(),
        ensures
            final(self).well_formed(),
            final(self).spec_registry() == old(self).spec_registry(),
            final(self).spec_loaded() == old(self).spec_loaded(),
            final(self).spec_loader() == old(self).spec_loader(),
            final(self).spec_config() == old(self).spec_config(),
            old(self).spec_blacklist().len() > 0 && path_file_stem(path@) is None ==> (r matches Err(
                e,
            ) && plugin_error_is(e, true, "Invalid plugin path"@)),
            old(self).spec_blacklist().len() > 0 && blacklisted(old(self).spec_blacklist(), path@)
                ==> (r matches Ok(res) && res.plugin_name@ == path_file_stem(path@).unwrap()
                && !res.success && opt_view(res.error) == Some("Plugin is blacklisted"@)),
            !(old(self).spec_blacklist().len() > 0 && (path_file_stem(path@) is None || blacklisted(
                old(self).spec_blacklist(),
                path@,
            ))) ==> (r matches Err(e) && plugin_error_is(
                e,
                spec_composite_load_error(old(self).spec_loader(), path@, exists).0,
                spec_composite_load_error(old(self).spec_loader(), path@, exists).1,
            )),
    {
        if self.config.blacklist.len() > 0 {
            let stem = match file_stem(path) {
                Some(s) => s,
                None => {
                    return Err(
                        LoquatError::Plugin(
                            PluginError::LoadFailed(String::from_str("Invalid plugin path")),
                        ),
                    );
                },
            };
            if strings_contain(&self.config.blacklist, stem.as_str()) {
                return Ok(
                    PluginLoadResult {
                        plugin_name: stem,
                        success: false,
                        error: Some(String::from_str("Plugin is blacklisted")),
                    },
                );
            }
        }
        let metadata = match self.loader.load_plugin(path, exists) {
            Ok(m) => m,
            Err(e) => {
                return Err(e);
            },
        };
        // The loader refuses every file, so what follows describes loading
        // once a runtime exists.
        if self.config.whitelist.len() > 0 && !strings_contain(
            &self.config.whitelist,
            metadata.name.as_str(),
        ) {
            return Ok(
                PluginLoadResult {
                    plugin_name: metadata.name,
                    success: false,
                    error: Some(String::from_str("Plugin is not whitelisted")),
                },
            );
        }
        let name = metadata.name.clone();
        let entry = PluginMetadata::new(
            metadata.name,
            metadata.version,
            metadata.plugin_type,
            String::from_str(path),
        );
        match self.registry.register(entry) {
            Ok(()) => {},
            Err(e) => {
                return Err(e);
            },
        }
        self.loaded.push(name.clone());
        Ok(PluginLoadResult::success(name))
    }

    /// The position of `name` among the loaded plugins.
    fn loaded_index(&self, name: &str) -> (r: Option<usize>)
        ensures
            r matches Some(i) ==> i < self.spec_loaded().len() && self.spec_loaded()[i as int]
                == name@,
            r is None ==> !self.spec_loaded().contains(name@),
    {
        let n = self.loaded.len();
        let mut i: usize = 0;
        while i < n
            invariant
                n == self.loaded@.len(),
                i <= n,
                forall|j: int| 0 <= j < i ==> self.loaded@[j]@ != name@,
            decreases n - i,
        {
            if str_eq(self.loaded[i].as_str(), name) {
                return Some(i);
            }
            i = i + 1;
        }
        proof {
            if self.spec_loaded().contains(name@) {
                let j = choose|j: int|
                    0 <= j < self.spec_loaded().len() && self.spec_loaded()[j] == name@;
                assert(self.loaded@[j]@ == name@);
            }
        }
        None
    }

    /// Unload the plugin `name`: refused unless it is recorded and held.
    pub fn unload_plugin(&mut self, name: &str) -> (r: Result<(), LoquatError>)
        requires
            old(self).well_formed(),
        ensures
            final(self).well_formed(),
            r is Ok ==> exists|k: int|
                0 <= k < old(self).spec_registry().len() && info_name(old(self).spec_registry()[k])
                    == name@ && final(self).spec_registry() == old(self).spec_registry().remove(k),
            final(self).spec_config() == old(self).spec_config(),
            final(self).spec_loader() == old(self).spec_loader(),
            r is Ok <==> has_plugin(old(self).spec_registry(), name@) && old(
                self,
            ).spec_loaded().contains(name@),
            r matches Err(e) ==> is_not_found(e, name@) && final(self).spec_registry() == old(
                self,
            ).spec_registry() && final(self).spec_loaded() == old(self).spec_loaded(),
            r is Ok ==> !has_plugin(final(self).spec_registry(), name@) && exists|i: int|
                0 <= i < old(self).spec_loaded().len() && old(self).spec_loaded()[i] == name@
                    && final(self).spec_loaded() == old(self).spec_loaded().remove(i),
    {
        let known = self.registry.contains(name);
        if !matches!(known, Ok(true)) {
            return Err(LoquatError::Plugin(PluginError::NotFound(String::from_str(name))));
        }
        let i = match self.loaded_index(name) {
            Some(i) => i,
            None => {
                return Err(LoquatError::Plugin(PluginError::NotFound(String::from_str(name))));
            },
        };
        let ghost before = self.loaded@;
        let ghost held = self.spec_loaded();
        let ghost reg = self.spec_registry();
        let _ = self.loaded.remove(i);
        proof {
            assert(strings_view(self.loaded@) =~= strings_view(before).remove(i as int));
        }
        let r = self.registry.unregister(name);
        proof {
            let rest = self.spec_loaded();
            assert(rest == held.remove(i as int));
            assert forall|a: int, b: int|
                0 <= a < rest.len() && 0 <= b < rest.len() && a != b implies rest[a] != rest[b] by {
                let a0 = if a < i { a } else { a + 1 };
                let b0 = if b < i { b } else { b + 1 };
                assert(rest[a] == held[a0] && rest[b] == held[b0]);
            }
            if r is Ok {
                let k = choose|k: int|
                    0 <= k < reg.len() && info_name(reg[k]) == name@ && self.spec_registry()
                        == reg.remove(k);
                assert forall|a: int| 0 <= a < rest.len() implies has_plugin(
                    self.spec_registry(),
                    #[trigger] rest[a],
                ) by {
                    let a0 = if a < i { a } else { a + 1 };
                    assert(rest[a] == held[a0]);
                    assert(a0 != i);
                    assert(held[a0] != held[i as int]);
                    lemma_remove_record(reg, k, rest[a]);
                }
            }
        }
        r
    }

    /// Reload the plugin `name` from its recorded entry point, which exists on
    /// disk when `exists` holds. No kind of plugin can be loaded yet, so a
    /// reload always fails: for an unknown name, or when loading it again
    /// fails or is turned away.
    pub fn reload_plugin(&mut self, name: &str, exists: bool) -> (r: Result<(), LoquatError>)
        requires
            old(self).well_formed(),
        ensures
            final(self).well_formed(),
            r is Err,
            !has_plugin(old(self).spec_registry(), name@) ==> (r matches Err(e) && is_not_found(
                e,
                name@,
            )),
            has_plugin(old(self).spec_registry(), name@) && !old(self).spec_loaded().contains(name@)
                ==> (r matches Err(e) && is_not_found(e, name@)),
            !(has_plugin(old(self).spec_registry(), name@) && old(self).spec_loaded().contains(
                name@,
            )) ==> final(self).spec_registry() == old(self).spec_registry()
                && final(self).spec_loaded() == old(self).spec_loaded(),
            has_plugin(old(self).spec_registry(), name@) && old(self).spec_loaded().contains(name@)
                ==> (exists|k: int|
                0 <= k < old(self).spec_registry().len() && info_name(old(self).spec_registry()[k])
                    == name@ && final(self).spec_registry() == old(self).spec_registry().remove(k)
                    && (r matches Err(e) && reload_error_is(
                    e,
                    old(self).spec_blacklist(),
                    old(self).spec_loader(),
                    old(self).spec_registry()[k].metadata.entry_point@,
                    exists,
                ))) && (exists|i: int|
                0 <= i < old(self).spec_loaded().len() && old(self).spec_loaded()[i] == name@
                    && final(self).spec_loaded() == old(self).spec_loaded().remove(i)),
            final(self).spec_config() == old(self).spec_config(),
            final(self).spec_loader() == old(self).spec_loader(),
    {
        let ghost reg0 = self.spec_registry();
        let known = self.registry.contains(name);
        if !matches!(known, Ok(true)) {
            return Err(LoquatError::Plugin(PluginError::NotFound(String::from_str(name))));
        }
        let info = match self.registry.get(name) {
            Ok(p) => p,
            Err(e) => {
                return Err(e);
            },
        };
        let path = info.metadata.entry_point;
        let ghost j = choose|j: int|
            0 <= j < reg0.len() && info_name(reg0[j]) == name@ && crate::plugins::types::info_eq(
                info,
                reg0[j],
            );
        assert(path@ == reg0[j].metadata.entry_point@);
        match self.unload_plugin(name) {
            Ok(()) => {},
            Err(e) => {
                return Err(e);
            },
        }
        proof {
            let k = choose|k: int|
                0 <= k < reg0.len() && info_name(reg0[k]) == name@ && self.spec_registry()
                    == reg0.remove(k);
            assert(plugin_names_distinct(reg0));
            assert(k == j);
        }
        let result = match self.load_plugin(path.as_str(), exists) {
            Ok(res) => res,
            Err(e) => {
                return Err(e);
            },
        };
        if !result.success {
            let m = match result.error {
                Some(m) => m,
                None => String::from_str("Unknown error"),
            };
            return Err(LoquatError::Plugin(PluginError::ReloadFailed(m)));
        }
        Ok(())
    }

    /// Changing a plugin's configuration is not supported.
    pub fn update_plugin_config(&self, name: &str, config_json: &str) -> (r: Result<(), LoquatError>)
        ensures
            r matches Err(e) && plugin_error_is(e, true, "Plugin config update not implemented"@),
    {
        Err(
            LoquatError::Plugin(
                PluginError::LoadFailed(String::from_str("Plugin config update not implemented")),
            ),
        )
    }

    /// A copy of the record of `name`, if there is one.
    pub fn get_plugin_info(&self, name: &str) -> (r: Option<PluginInfo>)
        ensures
            r is Some <==> has_plugin(self.spec_registry(), name@),
            r matches Some(p) ==> exists|i: int|
                0 <= i < self.spec_registry().len() && crate::plugins::registry::info_name(
                    self.spec_registry()[i],
                ) == name@ && crate::plugins::types::info_eq(p, self.spec_registry()[i]),
    {
        match self.registry.get(name) {
            Ok(p) => Some(p),
            Err(_) => None,
        }
    }

    /// Copies of all records.
    pub fn list_plugin_infos(&self) -> (r: Vec<PluginInfo>)
        ensures
            copies_of(r@, self.spec_registry()),
    {
        match self.registry.all() {
            Ok(v) => v,
            Err(_) => Vec::new(),
        }
    }

    /// Whether `name` is recorded.
    pub fn is_plugin_loaded(&self, name: &str) -> (r: bool)
        ensures
            r == has_plugin(self.spec_registry(), name@),
    {
        match self.registry.contains(name) {
            Ok(b) => b,
            Err(_) => false,
        }
    }

    /// The number of records.
    pub fn plugin_count(&self) -> (r: usize)
        ensures
            r == self.spec_registry().len(),
    {
        match self.registry.count() {
            Ok(n) => n,
            Err(_) => 0,
        }
    }

    /// The number of records in the loaded state.
    pub fn active_plugin_count(&self) -> (r: usize)
        ensures
            r == with_status_filter(self.spec_registry(), PluginStatus::Loaded).len(),
    {
        match self.registry.active() {
            Ok(v) => v.len(),
            Err(_) => 0,
        }
    }

    /// Unload every held plugin, ignoring failures.
    pub fn unload_all(&mut self) -> (r: Result<(), LoquatError>)
        requires
            old(self).well_formed(),
        ensures
            final(self).well_formed(),
            r is Ok,
            final(self).spec_config() == old(self).spec_config(),
            final(self).spec_loader() == old(self).spec_loader(),
            final(self).spec_loaded().len() == 0,
            forall|name: Seq<char>|
                #![trigger has_plugin(final(self).spec_registry(), name)]
                #![trigger has_plugin(old(self).spec_registry(), name)]
                has_plugin(final(self).spec_registry(), name) <==> (has_plugin(
                    old(self).spec_registry(),
                    name,
                ) && !old(self).spec_loaded().contains(name)),
    {
        let names = crate::plugins::types::clone_strings(&self.loaded);
        let ghost held = self.spec_loaded();
        let ghost reg = self.spec_registry();
        let n = names.len();
        let mut i: usize = 0;
        while i < n
            invariant
                n == names@.len(),
                i <= n,
                strings_view(names@) == held,
                held == old(self).spec_loaded(),
                reg == old(self).spec_registry(),
                self.well_formed(),
                self.spec_loaded() == held.subrange(i as int, n as int),
                self.spec_config() == old(self).spec_config(),
                self.spec_loader() == old(self).spec_loader(),
                forall|name: Seq<char>|
                    #![trigger has_plugin(self.spec_registry(), name)]
                    #![trigger has_plugin(reg, name)]
                    has_plugin(self.spec_registry(), name) <==> (has_plugin(reg, name)
                        && !held.subrange(0, i as int).contains(name)),
            decreases n - i,
        {
            let ghost before = self.spec_registry();
            let ghost cur = self.spec_loaded();
            let ghost name = held[i as int];
            assert(names@[i as int]@ == name);
            assert(cur[0] == name);
            assert(has_plugin(before, cur[0]));
            let r = self.unload_plugin(names[i].as_str());
            proof {
                assert(r is Ok);
                let j = choose|j: int|
                    0 <= j < cur.len() && cur[j] == name && self.spec_loaded() == cur.remove(j);
                assert(cur.no_duplicates());
                assert(j == 0);
                assert(self.spec_loaded() =~= held.subrange(i + 1, n as int));
                let k = choose|k: int|
                    0 <= k < before.len() && info_name(before[k]) == name && self.spec_registry()
                        == before.remove(k);
                let s0 = held.subrange(0, i as int);
                let s1 = held.subrange(0, i + 1);
                assert(s1 =~= s0.push(name));
                assert forall|nm: Seq<char>|
                    #![trigger has_plugin(self.spec_registry(), nm)]
                    #![trigger has_plugin(reg, nm)]
                    has_plugin(self.spec_registry(), nm) <==> (has_plugin(reg, nm)
                        && !s1.contains(nm)) by {
                    lemma_remove_record(before, k, nm);
                    if s0.contains(nm) {
                        let q = choose|q: int| 0 <= q < s0.len() && s0[q] == nm;
                        assert(s1[q] == nm);
                    }
                    if s1.contains(nm) && nm != name {
                        let q = choose|q: int| 0 <= q < s1.len() && s1[q] == nm;
                        assert(q < i);
                        assert(s0[q] == nm);
                    }
                    assert(s1[i as int] == name);
                }
            }
            i = i + 1;
        }
        proof {
            assert(held.subrange(0, n as int) =~= held);
        }
        Ok(())
    }

    /// Unload every held plugin and forget every record.
    pub fn clear(&mut self)
        requires
            old(self).well_formed(),
        ensures
            final(self).well_formed(),
            final(self).spec_loaded().len() == 0,
            final(self).spec_registry() == Seq::<PluginInfo>::empty(),
            final(self).spec_config() == old(self).spec_config(),
    {
        let _ = self.unload_all();
        let _ = self.registry.clear();
    }
}

/// What a hot-reload check does with one plugin file.
#[derive(Debug, Clone, Copy, PartialEq, Eq, Structural)]
pub enum HotReloadStep {
    /// First sight of the file: remember its modification time.
    Remember,
    /// The file changed and its plugin is held: reload it, remember the time.
    Reload,
    /// The file changed and its plugin is not held: load it, remember the time.
    Load,
    /// Unchanged: nothing.
    Keep,
}

/// The hot-reload decision for a file last seen modified at `last_seen`
/// (none at first sight), now modified at `modified`, whose plugin is held
/// when `is_loaded`: a file seen for the first time is only remembered; a
/// file modified later than last seen is reloaded when its plugin is held,
/// else loaded; anything else is kept.
pub fn hot_reload_step(last_seen: Option<u128>, modified: u128, is_loaded: bool) -> (r: HotReloadStep)
    ensures
        last_seen is None ==> r == HotReloadStep::Remember,
        last_seen matches Some(t) && modified > t && is_loaded ==> r == HotReloadStep::Reload,
        last_seen matches Some(t) && modified > t && !is_loaded ==> r == HotReloadStep::Load,
        last_seen matches Some(t) && modified <= t ==> r == HotReloadStep::Keep,
{
    match last_seen {
        None => HotReloadStep::Remember,
        Some(t) => if modified > t {
            if is_loaded {
                HotReloadStep::Reload
            } else {
                HotReloadStep::Load
            }
        } else {
            HotReloadStep::Keep
        },
    }
}

/// Whether hot reloading runs, and how often it checks.
#[derive(Debug, Clone, Copy)]
pub struct HotReloadManager {
    interval_secs: u64,
    running: bool,
}

impl HotReloadManager {
    /// Whether it runs.
    pub closed spec fn spec_running(&self) -> bool {
        self.running
    }

    /// Seconds between checks.
    pub closed spec fn spec_interval(&self) -> u64 {
        self.interval_secs
    }

    /// Stopped, checking every `interval_secs` seconds once started.
    pub fn new(interval_secs: u64) -> (r: Self)
        ensures
            !r.spec_running(),
            r.spec_interval() == interval_secs,
    {
        HotReloadManager { interval_secs, running: false }
    }

    /// Start; refused when already running.
    pub fn start(&mut self) -> (r: Result<(), LoquatError>)
        ensures
            final(self).spec_running(),
            final(self).spec_interval() == old(self).spec_interval(),
            r is Ok <==> !old(self).spec_running(),
            r matches Err(e) ==> (e matches LoquatError::Plugin(PluginError::HotReloadError(m))
                && m@ == "Hot reload is already running"@),
    {
        if self.running {
            return Err(
                LoquatError::Plugin(
                    PluginError::HotReloadError(String::from_str("Hot reload is already running")),
                ),
            );
        }
        self.running = true;
        Ok(())
    }

    /// Stop.
    pub fn stop(&mut self)
        ensures
            !final(self).spec_running(),
            final(self).spec_interval() == old(self).spec_interval(),
    {
        self.running = false;
    }

    /// Whether it runs.
    pub fn is_running(&self) -> (r: bool)
        ensures
            r == self.spec_running(),
    {
        self.running
    }

    /// Seconds between checks.
    pub fn interval(&self) -> (r: u64)
        ensures
            r == self.spec_interval(),
    {
        self.interval_secs
    }
}

} // verus!
