//! Plugin loaders: which files each kind of plugin comes from, and why a
//! file is refused.

use vstd::prelude::*;
use crate::errors::{LoquatError, PluginError};
use crate::plugins::types::{spec_plugin_extension, spec_plugin_type_debug, PluginMetadata, PluginType};
use crate::text::{concat2, str_eq};

verus! {

/// std's `Path::extension` of the path `path`, when it is valid UTF-8: the
/// part of the file name after its last dot, if the name has one that is not
/// its first character.
pub uninterp spec fn path_extension(path: Seq<char>) -> Option<Seq<char>>;

/// std's `Path::file_stem` of the path `path`, when it is valid UTF-8: the
/// file name without its extension.
pub uninterp spec fn path_file_stem(path: Seq<char>) -> Option<Seq<char>>;

/// Calls std's `Path::extension` (then `OsStr::to_str`). The contract names
/// the result: it depends on the characters of the path alone.
#[verifier::external_body]
pub(crate) fn file_extension(path: &str) -> (r: Option<String>)
    ensures
        crate::text::opt_view(r) == path_extension(path@),
{
    std::path::Path::new(path).extension().and_then(|s| s.to_str()).map(|s| s.to_string())
}

/// Calls std's `Path::file_stem` (then `OsStr::to_str`). The contract names
/// the result: it depends on the characters of the path alone.
#[verifier::external_body]
pub(crate) fn file_stem(path: &str) -> (r: Option<String>)
    ensures
        crate::text::opt_view(r) == path_file_stem(path@),
{
    std::path::Path::new(path).file_stem().and_then(|s| s.to_str()).map(|s| s.to_string())
}

/// The plugin kind a file extension belongs to.
pub open spec fn spec_kind_of_extension(ext: Seq<char>) -> Option<PluginType> {
    if ext == "dll"@ || ext == "so"@ || ext == "dylib"@ {
        Some(PluginType::Native)
    } else if ext == "py"@ {
        Some(PluginType::Python)
    } else if ext == "js"@ || ext == "mjs"@ || ext == "ts"@ {
        Some(PluginType::JavaScript)
    } else {
        None
    }
}

/// Plugin files are recognised by extension: `dll`, `so` and `dylib` are
/// native, `py` is Python, `js`, `mjs` and `ts` are JavaScript, and no other
/// extension names a kind.
pub proof fn lemma_extension_kinds(ext: Seq<char>)
    ensures
        spec_kind_of_extension("dll"@) == Some(PluginType::Native),
        spec_kind_of_extension("so"@) == Some(PluginType::Native),
        spec_kind_of_extension("dylib"@) == Some(PluginType::Native),
        spec_kind_of_extension("py"@) == Some(PluginType::Python),
        spec_kind_of_extension("js"@) == Some(PluginType::JavaScript),
        spec_kind_of_extension("mjs"@) == Some(PluginType::JavaScript),
        spec_kind_of_extension("ts"@) == Some(PluginType::JavaScript),
        ext != "dll"@ && ext != "so"@ && ext != "dylib"@ && ext != "py"@ && ext != "js"@ && ext
            != "mjs"@ && ext != "ts"@ ==> spec_kind_of_extension(ext) is None,
{
    reveal_strlit("dll");
    reveal_strlit("so");
    reveal_strlit("dylib");
    reveal_strlit("py");
    reveal_strlit("js");
    reveal_strlit("mjs");
    reveal_strlit("ts");
    assert("so"@.len() != "dll"@.len() && "so"@.len() != "dylib"@.len());
    assert("dylib"@.len() != "dll"@.len());
    assert("py"@.len() != "dll"@.len() && "py"@.len() != "dylib"@.len() && "py"@[0] != "so"@[0]);
    assert("js"@.len() != "dll"@.len() && "js"@.len() != "dylib"@.len() && "js"@[0] != "so"@[0]
        && "js"@[0] != "py"@[0]);
    assert("mjs"@[0] != "dll"@[0] && "mjs"@.len() != "so"@.len() && "mjs"@.len() != "dylib"@.len()
        && "mjs"@.len() != "py"@.len());
    assert("ts"@.len() != "dll"@.len() && "ts"@.len() != "dylib"@.len() && "ts"@[0] != "so"@[0]
        && "ts"@[0] != "py"@[0]);
}

/// The extension a plugin kind reports is one its loader recognises as that
/// kind.
pub proof fn lemma_extension_names_its_kind(t: PluginType)
    ensures
        spec_kind_of_extension(spec_plugin_extension(t)) == Some(t),
{
    reveal_strlit("dll");
    reveal_strlit("so");
    reveal_strlit("dylib");
    reveal_strlit("py");
    reveal_strlit("js");
    reveal_strlit("mjs");
    reveal_strlit("ts");
    match t {
        PluginType::Native => {},
        PluginType::Python => {
            assert("py"@.len() != "dll"@.len() && "py"@.len() != "dylib"@.len());
            assert("py"@[0] != "so"@[0]);
        },
        PluginType::JavaScript => {
            assert("js"@.len() != "dll"@.len() && "js"@.len() != "dylib"@.len());
            assert("js"@[0] != "so"@[0]);
            assert("js"@[0] != "py"@[0]);
        },
    }
}

/// The plugin kind a file extension belongs to.
pub fn kind_of_extension(ext: &str) -> (r: Option<PluginType>)
    ensures
        r == spec_kind_of_extension(ext@),
{
    proof {
        reveal_strlit("dll");
        reveal_strlit("so");
        reveal_strlit("dylib");
        reveal_strlit("py");
        reveal_strlit("js");
        reveal_strlit("mjs");
        reveal_strlit("ts");
    }
    if str_eq(ext, "dll") || str_eq(ext, "so") || str_eq(ext, "dylib") {
        Some(PluginType::Native)
    } else if str_eq(ext, "py") {
        Some(PluginType::Python)
    } else if str_eq(ext, "js") || str_eq(ext, "mjs") || str_eq(ext, "ts") {
        Some(PluginType::JavaScript)
    } else {
        None
    }
}

/// The name a loader of kind `t` uses in its messages.
pub open spec fn loader_label(t: PluginType) -> Seq<char> {
    match t {
        PluginType::Native => "native"@,
        PluginType::Python => "Python"@,
        PluginType::JavaScript => "JavaScript"@,
    }
}

/// Why loading stops once the file is accepted: no runtime for the kind.
pub open spec fn not_implemented_message(t: PluginType) -> Seq<char> {
    match t {
        PluginType::Native => "Native plugin loading not yet implemented - requires dynamic library infrastructure"@,
        PluginType::Python => "Python plugin loading not yet implemented - requires pyo3 infrastructure"@,
        PluginType::JavaScript => "JavaScript plugin loading not yet implemented - requires JS runtime infrastructure"@,
    }
}

/// `e` is the plugin error `LoadFailed(msg)` when `load_failed`, else
/// `UnsupportedType(msg)`.
pub open spec fn plugin_error_is(e: LoquatError, load_failed: bool, msg: Seq<char>) -> bool {
    if load_failed {
        e matches LoquatError::Plugin(PluginError::LoadFailed(m)) && m@ == msg
    } else {
        e matches LoquatError::Plugin(PluginError::UnsupportedType(m)) && m@ == msg
    }
}

/// The error a loader of kind `t` gives for the file `path`, which exists on
/// disk when `exists` holds, as (whether it is a load failure, message). No
/// kind can be loaded yet, so every file is refused: a missing file, one
/// without an extension, one whose extension belongs to another kind, and
/// otherwise for want of a runtime.
pub open spec fn spec_load_error(t: PluginType, path: Seq<char>, exists: bool) -> (bool, Seq<char>) {
    if !exists {
        (true, "Plugin file not found: "@ + path_debug_form(path))
    } else {
        match path_extension(path) {
            None => (true, "Invalid plugin file"@),
            Some(ext) => if spec_kind_of_extension(ext) != Some(t) {
                (false, "Invalid "@ + loader_label(t) + " plugin extension: "@ + ext)
            } else {
                (true, not_implemented_message(t))
            },
        }
    }
}

/// std's `Debug` rendering of the path `path` (quoted and escaped).
pub uninterp spec fn path_debug_form(path: Seq<char>) -> Seq<char>;

/// Calls std's `Debug` formatting of `Path` (through `format!("{:?}")`). The
/// contract names the result: it is a function of the characters of `path`.
#[verifier::external_body]
fn path_debug(path: &str) -> (r: String)
    ensures
        r@ == path_debug_form(path@),
{
    format!("{:?}", std::path::Path::new(path))
}

/// A loader of one kind of plugin.
pub trait PluginLoader {
    /// Load the plugin in the file `path`, which exists on disk when `exists`
    /// holds, giving its metadata.
    fn load_plugin(&self, path: &str, exists: bool) -> Result<PluginMetadata, LoquatError>;

    /// Whether this loader loads plugins of kind `plugin_type`.
    fn can_handle(&self, plugin_type: &PluginType) -> bool;

    /// The kind this loader loads.
    fn plugin_type(&self) -> PluginType;
}

/// The shared checks of the single-kind loaders.
fn load_as(t: PluginType, path: &str, exists: bool) -> (r: Result<PluginMetadata, LoquatError>)
    ensures
        r matches Err(e) && plugin_error_is(e, spec_load_error(t, path@, exists).0, spec_load_error(t, path@, exists).1),
{
    if !exists {
        let q = path_debug(path);
        let m = concat2("Plugin file not found: ", q.as_str());
        return Err(LoquatError::Plugin(PluginError::LoadFailed(m)));
    }
    match file_extension(path) {
        None => Err(LoquatError::Plugin(PluginError::LoadFailed(String::from_str("Invalid plugin file")))),
        Some(ext) => {
            let kind = kind_of_extension(ext.as_str());
            let matches = match (kind, t) {
                (Some(PluginType::Native), PluginType::Native) => true,
                (Some(PluginType::Python), PluginType::Python) => true,
                (Some(PluginType::JavaScript), PluginType::JavaScript) => true,
                _ => false,
            };
            if !matches {
                let label = match t {
                    PluginType::Native => "native",
                    PluginType::Python => "Python",
                    PluginType::JavaScript => "JavaScript",
                };
                let mut m = String::from_str("Invalid ");
                m.append(label);
                m.append(" plugin extension: ");
                m.append(ext.as_str());
                proof {
                    assert(m@ =~= "Invalid "@ + loader_label(t) + " plugin extension: "@ + ext@);
                }
                Err(LoquatError::Plugin(PluginError::UnsupportedType(m)))
            } else {
                let m = match t {
                    PluginType::Native => "Native plugin loading not yet implemented - requires dynamic library infrastructure",
                    PluginType::Python => "Python plugin loading not yet implemented - requires pyo3 infrastructure",
                    PluginType::JavaScript => "JavaScript plugin loading not yet implemented - requires JS runtime infrastructure",
                };
                Err(LoquatError::Plugin(PluginError::LoadFailed(String::from_str(m))))
            }
        },
    }
}

/// The loader of native (shared library) plugins.
#[derive(Debug, Clone, Copy)]
pub struct NativePluginLoader;

impl PluginLoader for NativePluginLoader {
    fn load_plugin(&self, path: &str, exists: bool) -> (r: Result<PluginMetadata, LoquatError>)
        ensures
            r matches Err(e) && plugin_error_is(
                e,
                spec_load_error(PluginType::Native, path@, exists).0,
                spec_load_error(PluginType::Native, path@, exists).1,
            ),
    {
        load_as(PluginType::Native, path, exists)
    }

    fn can_handle(&self, plugin_type: &PluginType) -> (r: bool)
        ensures
            r == (*plugin_type == PluginType::Native),
    {
        match plugin_type {
            PluginType::Native => true,
            _ => false,
        }
    }

    fn plugin_type(&self) -> (r: PluginType)
        ensures
            r == PluginType::Native,
    {
        PluginType::Native
    }
}

/// The loader of Python plugins.
#[derive(Debug, Clone)]
pub struct PythonPluginLoader {
    pub python_path: Option<String>,
}

impl PythonPluginLoader {
    /// A loader using the default interpreter.
    pub fn new() -> (r: Self)
        ensures
            r.python_path is None,
    {
        PythonPluginLoader { python_path: None }
    }

    /// With the interpreter at `path`.
    pub fn with_python_path(self, path: String) -> (r: Self)
        ensures
            r.python_path == Some(path),
    {
        PythonPluginLoader { python_path: Some(path) }
    }
}

impl Default for PythonPluginLoader {
    fn default() -> (r: Self)
        ensures
            r.python_path is None,
    {
        Self::new()
    }
}

impl PluginLoader for PythonPluginLoader {
    fn load_plugin(&self, path: &str, exists: bool) -> (r: Result<PluginMetadata, LoquatError>)
        ensures
            r matches Err(e) && plugin_error_is(
                e,
                spec_load_error(PluginType::Python, path@, exists).0,
                spec_load_error(PluginType::Python, path@, exists).1,
            ),
    {
        load_as(PluginType::Python, path, exists)
    }

    fn can_handle(&self, plugin_type: &PluginType) -> (r: bool)
        ensures
            r == (*plugin_type == PluginType::Python),
    {
        match plugin_type {
            PluginType::Python => true,
            _ => false,
        }
    }

    fn plugin_type(&self) -> (r: PluginType)
        ensures
            r == PluginType::Python,
    {
        PluginType::Python
    }
}

/// The loader of JavaScript plugins.
#[derive(Debug, Clone)]
pub struct JavaScriptPluginLoader {
    pub node_path: Option<String>,
}

impl JavaScriptPluginLoader {
    /// A loader using the default runtime.
    pub fn new() -> (r: Self)
        ensures
            r.node_path is None,
    {
        JavaScriptPluginLoader { node_path: None }
    }

    /// With the runtime at `path`.
    pub fn with_node_path(self, path: String) -> (r: Self)
        ensures
            r.node_path == Some(path),
    {
        JavaScriptPluginLoader { node_path: Some(path) }
    }
}

impl Default for JavaScriptPluginLoader {
    fn default() -> (r: Self)
        ensures
            r.node_path is None,
    {
        Self::new()
    }
}

impl PluginLoader for JavaScriptPluginLoader {
    fn load_plugin(&self, path: &str, exists: bool) -> (r: Result<PluginMetadata, LoquatError>)
        ensures
            r matches Err(e) && plugin_error_is(
                e,
                spec_load_error(PluginType::JavaScript, path@, exists).0,
                spec_load_error(PluginType::JavaScript, path@, exists).1,
            ),
    {
        load_as(PluginType::JavaScript, path, exists)
    }

    fn can_handle(&self, plugin_type: &PluginType) -> (r: bool)
        ensures
            r == (*plugin_type == PluginType::JavaScript),
    {
        match plugin_type {
            PluginType::JavaScript => true,
            _ => false,
        }
    }

    fn plugin_type(&self) -> (r: PluginType)
        ensures
            r == PluginType::JavaScript,
    {
        PluginType::JavaScript
    }
}

/// One of the single-kind loaders.
#[derive(Debug, Clone)]
pub enum AnyLoader {
    Native(NativePluginLoader),
    Python(PythonPluginLoader),
    JavaScript(JavaScriptPluginLoader),
}

/// The kind a loader loads.
pub open spec fn loader_kind(l: AnyLoader) -> PluginType {
    match l {
        AnyLoader::Native(_) => PluginType::Native,
        AnyLoader::Python(_) => PluginType::Python,
        AnyLoader::JavaScript(_) => PluginType::JavaScript,
    }
}

impl AnyLoader {
    /// The kind this loader loads.
    pub fn kind(&self) -> (r: PluginType)
        ensures
            r == loader_kind(*self),
    {
        match self {
            AnyLoader::Native(_) => PluginType::Native,
            AnyLoader::Python(_) => PluginType::Python,
            AnyLoader::JavaScript(_) => PluginType::JavaScript,
        }
    }
}

/// The loader that picks a single-kind loader by file extension.
#[derive(Debug, Clone)]
pub struct CompositePluginLoader {
    loaders: Vec<AnyLoader>,
}

/// The error of the composite loader for `path` with loaders of the kinds
/// `kinds`, in order, as (whether it is a load failure, message).
pub open spec fn spec_composite_load_error(kinds: Seq<PluginType>, path: Seq<char>, exists: bool) -> (
    bool,
    Seq<char>,
) {
    match path_extension(path) {
        None => (true, "Invalid plugin file"@),
        Some(ext) => match spec_kind_of_extension(ext) {
            None => (false, "Unknown plugin extension: "@ + ext),
            Some(t) => if kinds.contains(t) {
                spec_load_error(t, path, exists)
            } else {
                (false, "No loader available for plugin type: "@ + spec_plugin_type_debug(t))
            },
        },
    }
}

/// Loading a plugin file: a file without an extension is an invalid plugin
/// file; an extension of no kind is unknown; a kind without a loader has no
/// loader; otherwise that kind's loader decides: a missing file is not
/// found, and an existing one of its kind reaches the missing runtime.
pub proof fn lemma_composite_loading(kinds: Seq<PluginType>, path: Seq<char>, exists: bool)
    ensures
        path_extension(path) is None ==> spec_composite_load_error(kinds, path, exists) == (
            true,
            "Invalid plugin file"@,
        ),
        path_extension(path) is Some && spec_kind_of_extension(path_extension(path).unwrap())
            is None ==> spec_composite_load_error(kinds, path, exists) == (
            false,
            "Unknown plugin extension: "@ + path_extension(path).unwrap(),
        ),
        path_extension(path) is Some && spec_kind_of_extension(path_extension(path).unwrap())
            is Some && !kinds.contains(spec_kind_of_extension(path_extension(path).unwrap()).unwrap())
            ==> spec_composite_load_error(kinds, path, exists) == (
            false,
            "No loader available for plugin type: "@ + spec_plugin_type_debug(
                spec_kind_of_extension(path_extension(path).unwrap()).unwrap(),
            ),
        ),
        path_extension(path) is Some && spec_kind_of_extension(path_extension(path).unwrap())
            is Some && kinds.contains(spec_kind_of_extension(path_extension(path).unwrap()).unwrap())
            && !exists ==> spec_composite_load_error(kinds, path, exists) == (
            true,
            "Plugin file not found: "@ + path_debug_form(path),
        ),
        path_extension(path) is Some && spec_kind_of_extension(path_extension(path).unwrap())
            is Some && kinds.contains(spec_kind_of_extension(path_extension(path).unwrap()).unwrap())
            && exists ==> spec_composite_load_error(kinds, path, exists) == (
            true,
            not_implemented_message(spec_kind_of_extension(path_extension(path).unwrap()).unwrap()),
        ),
{
}

impl View for CompositePluginLoader {
    type V = Seq<PluginType>;

    closed spec fn view(&self) -> Seq<PluginType> {
        self.loaders@.map_values(|l: AnyLoader| loader_kind(l))
    }
}

impl CompositePluginLoader {
    /// A native, a Python and a JavaScript loader, in that order.
    pub fn new() -> (r: Self)
        ensures
            r@ == seq![PluginType::Native, PluginType::Python, PluginType::JavaScript],
    {
        let mut loaders: Vec<AnyLoader> = Vec::new();
        loaders.push(AnyLoader::Native(NativePluginLoader));
        loaders.push(AnyLoader::Python(PythonPluginLoader::new()));
        loaders.push(AnyLoader::JavaScript(JavaScriptPluginLoader::new()));
        let r = CompositePluginLoader { loaders };
        assert(r@ =~= seq![PluginType::Native, PluginType::Python, PluginType::JavaScript]);
        r
    }

    /// With one more loader, tried after the others.
    pub fn add_loader(self, loader: AnyLoader) -> (r: Self)
        ensures
            r@ == self@.push(loader_kind(loader)),
    {
        let mut loaders = self.loaders;
        let ghost before = loaders@;
        loaders.push(loader);
        let r = CompositePluginLoader { loaders };
        assert(r@ =~= before.map_values(|l: AnyLoader| loader_kind(l)).push(loader_kind(loader)));
        r
    }

    /// The first loader that handles `plugin_type`.
    pub fn get_loader_for_type(&self, plugin_type: &PluginType) -> (r: Option<&AnyLoader>)
        ensures
            r is None <==> !self@.contains(*plugin_type),
            r matches Some(l) ==> loader_kind(*l) == *plugin_type,
    {
        let n = self.loaders.len();
        let mut i: usize = 0;
        while i < n
            invariant
                n == self.loaders@.len(),
                i <= n,
                forall|j: int| 0 <= j < i ==> loader_kind(self.loaders@[j]) != *plugin_type,
            decreases n - i,
        {
            let k = self.loaders[i].kind();
            let same = match (k, *plugin_type) {
                (PluginType::Native, PluginType::Native) => true,
                (PluginType::Python, PluginType::Python) => true,
                (PluginType::JavaScript, PluginType::JavaScript) => true,
                _ => false,
            };
            if same {
                proof {
                    assert(self@[i as int] == *plugin_type);
                }
                return Some(&self.loaders[i]);
            }
            i = i + 1;
        }
        proof {
            if self@.contains(*plugin_type) {
                let j = choose|j: int| 0 <= j < self@.len() && self@[j] == *plugin_type;
                assert(loader_kind(self.loaders@[j]) == *plugin_type);
            }
        }
        None
    }
}

impl Default for CompositePluginLoader {
    fn default() -> (r: Self)
        ensures
            r@ == seq![PluginType::Native, PluginType::Python, PluginType::JavaScript],
    {
        Self::new()
    }
}

impl PluginLoader for CompositePluginLoader {
    fn load_plugin(&self, path: &str, exists: bool) -> (r: Result<PluginMetadata, LoquatError>)
        ensures
            r matches Err(e) && plugin_error_is(
                e,
                spec_composite_load_error(self@, path@, exists).0,
                spec_composite_load_error(self@, path@, exists).1,
            ),
    {
        let ext = match file_extension(path) {
            None => {
                return Err(LoquatError::Plugin(PluginError::LoadFailed(String::from_str("Invalid plugin file"))));
            },
            Some(e) => e,
        };
        let t = match kind_of_extension(ext.as_str()) {
            None => {
                let m = concat2("Unknown plugin extension: ", ext.as_str());
                return Err(LoquatError::Plugin(PluginError::UnsupportedType(m)));
            },
            Some(t) => t,
        };
        match self.get_loader_for_type(&t) {
            Some(loader) => load_as(loader.kind(), path, exists),
            None => {
                let m = concat2("No loader available for plugin type: ", t.debug_name());
                Err(LoquatError::Plugin(PluginError::UnsupportedType(m)))
            },
        }
    }

    fn can_handle(&self, plugin_type: &PluginType) -> (r: bool)
        ensures
            r == self@.contains(*plugin_type),
    {
        self.get_loader_for_type(plugin_type).is_some()
    }

    /// The composite loader reports the native kind, though it handles all.
    fn plugin_type(&self) -> (r: PluginType)
        ensures
            r == PluginType::Native,
    {
        PluginType::Native
    }
}

} // verus!
