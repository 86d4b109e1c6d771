//! Plugin types: kinds, states, metadata, bookkeeping and the loading policy.

use vstd::prelude::*;
use crate::json::JsonMap;
use crate::text::{opt_view, str_eq};
use crate::time::Timestamp;

verus! {

/// The kinds of plugins.
#[derive(Debug, Clone, Copy, PartialEq, Eq, Structural, Hash)]
pub enum PluginType {
    Native,
    Python,
    JavaScript,
}

/// The file extension of each plugin kind.
pub open spec fn spec_plugin_extension(t: PluginType) -> Seq<char> {
    match t {
        PluginType::Native => "so"@,
        PluginType::Python => "py"@,
        PluginType::JavaScript => "js"@,
    }
}

/// The lowercase display name of each plugin kind.
pub open spec fn spec_plugin_type_name(t: PluginType) -> Seq<char> {
    match t {
        PluginType::Native => "native"@,
        PluginType::Python => "python"@,
        PluginType::JavaScript => "javascript"@,
    }
}

/// The variant name of each plugin kind, as its Debug form shows it.
pub open spec fn spec_plugin_type_debug(t: PluginType) -> Seq<char> {
    match t {
        PluginType::Native => "Native"@,
        PluginType::Python => "Python"@,
        PluginType::JavaScript => "JavaScript"@,
    }
}

/// Each plugin kind has its own extension (`so`, `py`, `js`), lowercase
/// name (`native`, `python`, `javascript`) and Debug name (`Native`,
/// `Python`, `JavaScript`); kinds with the same name are the same kind.
pub proof fn lemma_plugin_type_names(a: PluginType, b: PluginType)
    ensures
        spec_plugin_extension(PluginType::Native) == "so"@,
        spec_plugin_extension(PluginType::Python) == "py"@,
        spec_plugin_extension(PluginType::JavaScript) == "js"@,
        spec_plugin_type_name(PluginType::Native) == "native"@,
        spec_plugin_type_name(PluginType::Python) == "python"@,
        spec_plugin_type_name(PluginType::JavaScript) == "javascript"@,
        spec_plugin_type_debug(PluginType::Native) == "Native"@,
        spec_plugin_type_debug(PluginType::Python) == "Python"@,
        spec_plugin_type_debug(PluginType::JavaScript) == "JavaScript"@,
        spec_plugin_type_name(a) == spec_plugin_type_name(b) ==> a == b,
        spec_plugin_extension(a) == spec_plugin_extension(b) ==> a == b,
{
    reveal_strlit("so");
    reveal_strlit("py");
    reveal_strlit("js");
    reveal_strlit("native");
    reveal_strlit("python");
    reveal_strlit("javascript");
    if spec_plugin_type_name(a) == spec_plugin_type_name(b) {
        let x = spec_plugin_type_name(a);
        let y = spec_plugin_type_name(b);
        assert(x.len() == y.len() && x[0] == y[0]);
    }
    if spec_plugin_extension(a) == spec_plugin_extension(b) {
        let x = spec_plugin_extension(a);
        let y = spec_plugin_extension(b);
        assert(x[0] == y[0]);
    }
}

impl PluginType {
    /// The usual file extension of this kind.
    pub fn extension(&self) -> (r: &'static str)
        ensures
            r@ == spec_plugin_extension(*self),
    {
        match self {
            PluginType::Native => "so",
            PluginType::Python => "py",
            PluginType::JavaScript => "js",
        }
    }

    /// The lowercase display name.
    pub fn name(&self) -> (r: &'static str)
        ensures
            r@ == spec_plugin_type_name(*self),
    {
        match self {
            PluginType::Native => "native",
            PluginType::Python => "python",
            PluginType::JavaScript => "javascript",
        }
    }

    /// The lowercase display name, as an owned string.
    pub fn to_string(&self) -> (r: String)
        ensures
            r@ == spec_plugin_type_name(*self),
    {
        String::from_str(self.name())
    }

    /// The variant name.
    pub fn debug_name(&self) -> (r: &'static str)
        ensures
            r@ == spec_plugin_type_debug(*self),
    {
        match self {
            PluginType::Native => "Native",
            PluginType::Python => "Python",
            PluginType::JavaScript => "JavaScript",
        }
    }
}

/// The states of a plugin.
#[derive(Debug, PartialEq, Eq)]
pub enum PluginStatus {
    Unloaded,
    Loading,
    Loaded,
    Error { message: String },
    Disabled,
}

/// Two states are the same variant, with the same message for errors.
pub open spec fn status_eq(a: PluginStatus, b: PluginStatus) -> bool {
    match (a, b) {
        (PluginStatus::Unloaded, PluginStatus::Unloaded) => true,
        (PluginStatus::Loading, PluginStatus::Loading) => true,
        (PluginStatus::Loaded, PluginStatus::Loaded) => true,
        (PluginStatus::Disabled, PluginStatus::Disabled) => true,
        (PluginStatus::Error { message: m1 }, PluginStatus::Error { message: m2 }) => m1@ == m2@,
        _ => false,
    }
}

impl Clone for PluginStatus {
    fn clone(&self) -> (r: Self)
        ensures
            status_eq(r, *self),
    {
        match self {
            PluginStatus::Unloaded => PluginStatus::Unloaded,
            PluginStatus::Loading => PluginStatus::Loading,
            PluginStatus::Loaded => PluginStatus::Loaded,
            PluginStatus::Error { message } => PluginStatus::Error { message: message.clone() },
            PluginStatus::Disabled => PluginStatus::Disabled,
        }
    }
}

impl PluginStatus {
    /// Only a loaded plugin is active.
    pub fn is_active(&self) -> (r: bool)
        ensures
            r == (*self is Loaded),
    {
        match self {
            PluginStatus::Loaded => true,
            _ => false,
        }
    }

    /// The message of an error state.
    pub fn error_message(&self) -> (r: Option<&str>)
        ensures
            r is Some <==> *self is Error,
            r matches Some(m) ==> (*self matches PluginStatus::Error { message } && m@ == message@),
    {
        match self {
            PluginStatus::Error { message } => Some(message.as_str()),
            _ => None,
        }
    }

    /// Whether `self` and `other` are the same state.
    pub fn same_as(&self, other: &PluginStatus) -> (r: bool)
        ensures
            r == status_eq(*self, *other),
    {
        match (self, other) {
            (PluginStatus::Unloaded, PluginStatus::Unloaded) => true,
            (PluginStatus::Loading, PluginStatus::Loading) => true,
            (PluginStatus::Loaded, PluginStatus::Loaded) => true,
            (PluginStatus::Disabled, PluginStatus::Disabled) => true,
            (PluginStatus::Error { message: a }, PluginStatus::Error { message: b }) => str_eq(
                a.as_str(),
                b.as_str(),
            ),
            _ => false,
        }
    }
}

/// The views of a sequence of strings.
pub open spec fn strings_view(s: Seq<String>) -> Seq<Seq<char>> {
    s.map_values(|x: String| x@)
}

/// A copy of a list of strings.
pub fn clone_strings(v: &Vec<String>) -> (r: Vec<String>)
    ensures
        strings_view(r@) == strings_view(v@),
{
    let n = v.len();
    let mut out: Vec<String> = Vec::new();
    let mut i: usize = 0;
    while i < n
        invariant
            n == v@.len(),
            i <= n,
            strings_view(out@) == strings_view(v@).subrange(0, i as int),
        decreases n - i,
    {
        let ghost before = out@;
        let c = v[i].clone();
        out.push(c);
        assert(out@ == before.push(v@[i as int]));
        assert(strings_view(out@) =~= strings_view(v@).subrange(0, i + 1)) by {
            assert(strings_view(out@) =~= strings_view(before).push(v@[i as int]@));
        }
        i = i + 1;
    }
    assert(strings_view(v@).subrange(0, n as int) =~= strings_view(v@));
    out
}

/// Whether some string of `v` equals `s`.
pub fn strings_contain(v: &Vec<String>, s: &str) -> (r: bool)
    ensures
        r == strings_view(v@).contains(s@),
{
    let n = v.len();
    let mut i: usize = 0;
    while i < n
        invariant
            n == v@.len(),
            i <= n,
            forall|j: int| 0 <= j < i ==> v@[j]@ != s@,
        decreases n - i,
    {
        if str_eq(v[i].as_str(), s) {
            proof {
                assert(strings_view(v@)[i as int] == s@);
            }
            return true;
        }
        i = i + 1;
    }
    proof {
        if strings_view(v@).contains(s@) {
            let j = choose|j: int| 0 <= j < strings_view(v@).len() && strings_view(v@)[j] == s@;
            assert(v@[j]@ == s@);
        }
    }
    false
}

/// A copy of an optional string.
fn clone_opt(o: &Option<String>) -> (r: Option<String>)
    ensures
        opt_view(r) == opt_view(*o),
{
    match o {
        Some(s) => Some(s.clone()),
        None => None,
    }
}

/// What is known of a plugin before it runs.
#[derive(Debug)]
pub struct PluginMetadata {
    pub name: String,
    pub version: String,
    pub description: Option<String>,
    pub author: Option<String>,
    pub plugin_type: PluginType,
    pub entry_point: String,
    pub dependencies: Vec<String>,
    /// Further members, each a JSON value text.
    pub extra: JsonMap,
}

/// Two metadata records hold the same values.
pub open spec fn metadata_eq(a: PluginMetadata, b: PluginMetadata) -> bool {
    &&& a.name@ == b.name@
    &&& a.version@ == b.version@
    &&& opt_view(a.description) == opt_view(b.description)
    &&& opt_view(a.author) == opt_view(b.author)
    &&& a.plugin_type == b.plugin_type
    &&& a.entry_point@ == b.entry_point@
    &&& strings_view(a.dependencies@) == strings_view(b.dependencies@)
    &&& a.extra@ == b.extra@
}

impl Clone for PluginMetadata {
    fn clone(&self) -> (r: Self)
        ensures
            metadata_eq(r, *self),
    {
        PluginMetadata {
            name: self.name.clone(),
            version: self.version.clone(),
            description: clone_opt(&self.description),
            author: clone_opt(&self.author),
            plugin_type: self.plugin_type,
            entry_point: self.entry_point.clone(),
            dependencies: clone_strings(&self.dependencies),
            extra: self.extra.clone(),
        }
    }
}

impl PluginMetadata {
    /// Metadata with no description, author, dependencies or extra members.
    pub fn new(name: String, version: String, plugin_type: PluginType, entry_point: String) -> (r: Self)
        ensures
            r.name == name,
            r.version == version,
            r.description is None,
            r.author is None,
            r.plugin_type == plugin_type,
            r.entry_point == entry_point,
            r.dependencies@.len() == 0,
            r.extra@.len() == 0,
    {
        PluginMetadata {
            name,
            version,
            description: None,
            author: None,
            plugin_type,
            entry_point,
            dependencies: Vec::new(),
            extra: JsonMap::new(),
        }
    }

    /// With a description.
    pub fn with_description(self, description: &str) -> (r: Self)
        ensures
            opt_view(r.description) == Some(description@),
            r.name == self.name && r.version == self.version && r.author == self.author
                && r.plugin_type == self.plugin_type && r.entry_point == self.entry_point
                && r.dependencies == self.dependencies && r.extra == self.extra,
    {
        PluginMetadata { description: Some(String::from_str(description)), ..self }
    }

    /// With an author.
    pub fn with_author(self, author: &str) -> (r: Self)
        ensures
            opt_view(r.author) == Some(author@),
            r.name == self.name && r.version == self.version && r.description == self.description
                && r.plugin_type == self.plugin_type && r.entry_point == self.entry_point
                && r.dependencies == self.dependencies && r.extra == self.extra,
    {
        PluginMetadata { author: Some(String::from_str(author)), ..self }
    }

    /// With a list of dependencies.
    pub fn with_dependencies(self, dependencies: Vec<String>) -> (r: Self)
        ensures
            r.dependencies == dependencies,
            r.name == self.name && r.version == self.version && r.description == self.description
                && r.author == self.author && r.plugin_type == self.plugin_type && r.entry_point
                == self.entry_point && r.extra == self.extra,
    {
        PluginMetadata { dependencies, ..self }
    }

    /// With the extra member `key` set to the JSON value text `json`.
    pub fn with_extra(self, key: &str, json: &str) -> (r: Self)
        ensures
            crate::json::map_get(r.extra@, key@) == Some(json@),
            forall|k: Seq<char>|
                k != key@ ==> crate::json::map_get(r.extra@, k) == crate::json::map_get(
                    self.extra@,
                    k,
                ),
            r.name == self.name && r.version == self.version && r.description == self.description
                && r.author == self.author && r.plugin_type == self.plugin_type && r.entry_point
                == self.entry_point && r.dependencies == self.dependencies,
    {
        let mut m = self;
        m.extra.set(key, json);
        m
    }
}

/// What the registry records of a plugin.
#[derive(Debug)]
pub struct PluginInfo {
    pub metadata: PluginMetadata,
    pub status: PluginStatus,
    pub loaded_at: Option<Timestamp>,
    pub error_count: usize,
}

/// Two records hold the same values.
pub open spec fn info_eq(a: PluginInfo, b: PluginInfo) -> bool {
    &&& metadata_eq(a.metadata, b.metadata)
    &&& status_eq(a.status, b.status)
    &&& a.loaded_at == b.loaded_at
    &&& a.error_count == b.error_count
}

impl Clone for PluginInfo {
    fn clone(&self) -> (r: Self)
        ensures
            info_eq(r, *self),
    {
        PluginInfo {
            metadata: self.metadata.clone(),
            status: self.status.clone(),
            loaded_at: self.loaded_at,
            error_count: self.error_count,
        }
    }
}

impl PluginInfo {
    /// A record of an unloaded plugin with no errors.
    pub fn new(metadata: PluginMetadata) -> (r: Self)
        ensures
            r.metadata == metadata,
            r.status is Unloaded,
            r.loaded_at is None,
            r.error_count == 0,
    {
        PluginInfo { metadata, status: PluginStatus::Unloaded, loaded_at: None, error_count: 0 }
    }

    /// With a new state; becoming loaded stamps the current time.
    pub fn with_status(self, status: PluginStatus) -> (r: Self)
        ensures
            r.metadata == self.metadata,
            r.status == status,
            r.error_count == self.error_count,
            !(status is Loaded) ==> r.loaded_at == self.loaded_at,
            status is Loaded ==> r.loaded_at is Some,
    {
        let active = status.is_active();
        let mut r = PluginInfo { status, ..self };
        if active {
            r.loaded_at = Some(Timestamp::now());
        }
        r
    }

    /// With an error state carrying `message`, counting one more error.
    pub fn with_error(self, message: &str) -> (r: Self)
        requires
            self.error_count < usize::MAX,
        ensures
            r.metadata == self.metadata,
            r.status matches PluginStatus::Error { message: m } && m@ == message@,
            r.loaded_at == self.loaded_at,
            r.error_count == self.error_count + 1,
    {
        let count = self.error_count + 1;
        PluginInfo {
            status: PluginStatus::Error { message: String::from_str(message) },
            error_count: count,
            ..self
        }
    }
}

/// The plugin system's configuration.
#[derive(Debug)]
pub struct PluginConfig {
    pub plugin_dir: String,
    pub auto_load: bool,
    pub enable_hot_reload: bool,
    /// Seconds between checks for changed plugin files.
    pub hot_reload_interval: u64,
    pub whitelist: Vec<String>,
    pub blacklist: Vec<String>,
}

/// The loading policy: a blacklisted name never loads; otherwise an empty
/// whitelist admits every name, and a non-empty one only its own.
pub open spec fn spec_should_load(
    whitelist: Seq<Seq<char>>,
    blacklist: Seq<Seq<char>>,
    name: Seq<char>,
) -> bool {
    !blacklist.contains(name) && (whitelist.len() == 0 || whitelist.contains(name))
}

/// The loading policy: a blacklisted name is never loaded, whatever the
/// whitelist; with a whitelist, a name it does not list is not loaded; a
/// name that is not blacklisted loads when there is no whitelist or the
/// whitelist lists it.
pub proof fn lemma_loading_policy(whitelist: Seq<Seq<char>>, blacklist: Seq<Seq<char>>, name: Seq<char>)
    ensures
        blacklist.contains(name) ==> !spec_should_load(whitelist, blacklist, name),
        whitelist.len() > 0 && !whitelist.contains(name) ==> !spec_should_load(
            whitelist,
            blacklist,
            name,
        ),
        !blacklist.contains(name) && whitelist.len() == 0 ==> spec_should_load(
            whitelist,
            blacklist,
            name,
        ),
        !blacklist.contains(name) && whitelist.contains(name) ==> spec_should_load(
            whitelist,
            blacklist,
            name,
        ),
{
}

impl Clone for PluginConfig {
    fn clone(&self) -> (r: Self)
        ensures
            r.plugin_dir@ == self.plugin_dir@,
            r.auto_load == self.auto_load,
            r.enable_hot_reload == self.enable_hot_reload,
            r.hot_reload_interval == self.hot_reload_interval,
            strings_view(r.whitelist@) == strings_view(self.whitelist@),
            strings_view(r.blacklist@) == strings_view(self.blacklist@),
    {
        PluginConfig {
            plugin_dir: self.plugin_dir.clone(),
            auto_load: self.auto_load,
            enable_hot_reload: self.enable_hot_reload,
            hot_reload_interval: self.hot_reload_interval,
            whitelist: clone_strings(&self.whitelist),
            blacklist: clone_strings(&self.blacklist),
        }
    }
}

impl Default for PluginConfig {
    fn default() -> (r: Self)
        ensures
            r.plugin_dir@ == "./plugins"@,
            r.auto_load,
            r.enable_hot_reload,
            r.hot_reload_interval == 5,
            r.whitelist@.len() == 0,
            r.blacklist@.len() == 0,
    {
        PluginConfig {
            plugin_dir: String::from_str("./plugins"),
            auto_load: true,
            enable_hot_reload: true,
            hot_reload_interval: 5,
            whitelist: Vec::new(),
            blacklist: Vec::new(),
        }
    }
}

impl PluginConfig {
    /// The default configuration.
    pub fn new() -> (r: Self)
        ensures
            r.plugin_dir@ == "./plugins"@,
            r.auto_load,
            r.enable_hot_reload,
            r.hot_reload_interval == 5,
            r.whitelist@.len() == 0,
            r.blacklist@.len() == 0,
    {
        Self::default()
    }

    /// With the plugin directory `dir`.
    pub fn with_plugin_dir(self, dir: &str) -> (r: Self)
        ensures
            r.plugin_dir@ == dir@,
            r.auto_load == self.auto_load && r.enable_hot_reload == self.enable_hot_reload
                && r.hot_reload_interval == self.hot_reload_interval && r.whitelist
                == self.whitelist && r.blacklist == self.blacklist,
    {
        PluginConfig { plugin_dir: String::from_str(dir), ..self }
    }

    /// With automatic loading on or off.
    pub fn with_auto_load(self, enabled: bool) -> (r: Self)
        ensures
            r.auto_load == enabled,
            r.plugin_dir == self.plugin_dir && r.enable_hot_reload == self.enable_hot_reload
                && r.hot_reload_interval == self.hot_reload_interval && r.whitelist
                == self.whitelist && r.blacklist == self.blacklist,
    {
        PluginConfig { auto_load: enabled, ..self }
    }

    /// With hot reloading on or off.
    pub fn with_hot_reload(self, enabled: bool) -> (r: Self)
        ensures
            r.enable_hot_reload == enabled,
            r.plugin_dir == self.plugin_dir && r.auto_load == self.auto_load
                && r.hot_reload_interval == self.hot_reload_interval && r.whitelist
                == self.whitelist && r.blacklist == self.blacklist,
    {
        PluginConfig { enable_hot_reload: enabled, ..self }
    }

    /// With `seconds` between hot-reload checks.
    pub fn with_hot_reload_interval(self, seconds: u64) -> (r: Self)
        ensures
            r.hot_reload_interval == seconds,
            r.plugin_dir == self.plugin_dir && r.auto_load == self.auto_load
                && r.enable_hot_reload == self.enable_hot_reload && r.whitelist == self.whitelist
                && r.blacklist == self.blacklist,
    {
        PluginConfig { hot_reload_interval: seconds, ..self }
    }

    /// With `plugins` added to the end of the whitelist.
    pub fn with_whitelist(self, plugins: Vec<String>) -> (r: Self)
        ensures
            r.whitelist@ == self.whitelist@ + plugins@,
            r.plugin_dir == self.plugin_dir && r.auto_load == self.auto_load
                && r.enable_hot_reload == self.enable_hot_reload && r.hot_reload_interval
                == self.hot_reload_interval && r.blacklist == self.blacklist,
    {
        let mut s = self;
        let mut more = plugins;
        s.whitelist.append(&mut more);
        s
    }

    /// With `plugins` added to the end of the blacklist.
    pub fn with_blacklist(self, plugins: Vec<String>) -> (r: Self)
        ensures
            r.blacklist@ == self.blacklist@ + plugins@,
            r.plugin_dir == self.plugin_dir && r.auto_load == self.auto_load
                && r.enable_hot_reload == self.enable_hot_reload && r.hot_reload_interval
                == self.hot_reload_interval && r.whitelist == self.whitelist,
    {
        let mut s = self;
        let mut more = plugins;
        s.blacklist.append(&mut more);
        s
    }

    /// Whether the plugin `plugin_name` may load under this configuration.
    pub fn should_load(&self, plugin_name: &str) -> (r: bool)
        ensures
            r == spec_should_load(
                strings_view(self.whitelist@),
                strings_view(self.blacklist@),
                plugin_name@,
            ),
    {
        if strings_contain(&self.blacklist, plugin_name) {
            return false;
        }
        if self.whitelist.len() == 0 {
            return true;
        }
        strings_contain(&self.whitelist, plugin_name)
    }
}

/// The outcome of loading one plugin.
#[derive(Debug, Clone)]
pub struct PluginLoadResult {
    pub plugin_name: String,
    pub success: bool,
    pub error: Option<String>,
}

impl PluginLoadResult {
    /// A successful load of `plugin_name`.
    pub fn success(plugin_name: String) -> (r: Self)
        ensures
            r.plugin_name == plugin_name,
            r.success,
            r.error is None,
    {
        PluginLoadResult { plugin_name, success: true, error: None }
    }

    /// A failed load of `plugin_name`, for the reason `error`.
    pub fn failure(plugin_name: String, error: String) -> (r: Self)
        ensures
            r.plugin_name == plugin_name,
            !r.success,
            r.error == Some(error),
    {
        PluginLoadResult { plugin_name, success: false, error: Some(error) }
    }
}

} // verus!
