//! The plugin registry: what is recorded of each plugin, by name.

use vstd::prelude::*;
use crate::errors::{LoquatError, PluginError};
use crate::plugins::types::{info_eq, status_eq, PluginInfo, PluginMetadata, PluginStatus};
use crate::text::str_eq;

verus! {

/// The name a record is kept under.
pub open spec fn info_name(p: PluginInfo) -> Seq<char> {
    p.metadata.name@
}

/// No name occurs twice.
pub open spec fn plugin_names_distinct(s: Seq<PluginInfo>) -> bool {
    forall|i: int, j: int|
        0 <= i < s.len() && 0 <= j < s.len() && i != j ==> info_name(s[i]) != info_name(s[j])
}

/// Some record of `s` is kept under `name`.
pub open spec fn has_plugin(s: Seq<PluginInfo>, name: Seq<char>) -> bool {
    exists|i: int| 0 <= i < s.len() && info_name(s[i]) == name
}

/// The records of `s` whose state is `status`, in order.
pub open spec fn with_status_filter(s: Seq<PluginInfo>, status: PluginStatus) -> Seq<PluginInfo> {
    s.filter(|p: PluginInfo| status_eq(p.status, status))
}

/// `r` holds copies of the records of `s`, in order.
pub open spec fn copies_of(r: Seq<PluginInfo>, s: Seq<PluginInfo>) -> bool {
    r.len() == s.len() && forall|k: int| 0 <= k < s.len() ==> info_eq(#[trigger] r[k], s[k])
}

/// `e` is the plugin error `NotFound(name)`.
pub open spec fn is_not_found(e: LoquatError, name: Seq<char>) -> bool {
    e matches LoquatError::Plugin(PluginError::NotFound(m)) && m@ == name
}

/// The records of the known plugins, each name at most once, in the order
/// they were registered.
#[derive(Debug)]
pub struct PluginRegistry {
    plugins: Vec<PluginInfo>,
}

impl View for PluginRegistry {
    type V = Seq<PluginInfo>;

    closed spec fn view(&self) -> Seq<PluginInfo> {
        self.plugins@
    }
}

impl PluginRegistry {
    #[verifier::type_invariant]
    spec fn well_formed(self) -> bool {
        plugin_names_distinct(self.plugins@)
    }

    /// An empty registry.
    pub fn new() -> (r: Self)
        ensures
            r@ == Seq::<PluginInfo>::empty(),
    {
        PluginRegistry { plugins: Vec::new() }
    }

    /// The position of the record kept under `name`.
    fn index_of(&self, name: &str) -> (r: Option<usize>)
        ensures
            r matches Some(i) ==> i < self@.len() && info_name(self@[i as int]) == name@,
            r is None ==> !has_plugin(self@, name@),
    {
        let n = self.plugins.len();
        let mut i: usize = 0;
        while i < n
            invariant
                n == self.plugins@.len(),
                i <= n,
                forall|j: int| 0 <= j < i ==> info_name(self.plugins@[j]) != name@,
            decreases n - i,
        {
            if str_eq(self.plugins[i].metadata.name.as_str(), name) {
                return Some(i);
            }
            i = i + 1;
        }
        None
    }

    /// Record a new, unloaded plugin; a name already recorded is refused.
    pub fn register(&mut self, metadata: PluginMetadata) -> (r: Result<(), LoquatError>)
        ensures
            plugin_names_distinct(final(self)@),
            r is Ok <==> !has_plugin(old(self)@, metadata.name@),
            r is Ok ==> final(self)@ == old(self)@.push(
                PluginInfo {
                    metadata,
                    status: PluginStatus::Unloaded,
                    loaded_at: None,
                    error_count: 0,
                },
            ),
            r matches Err(e) ==> final(self)@ == old(self)@ && (e matches LoquatError::Plugin(
                PluginError::AlreadyExists(m),
            ) && m@ == metadata.name@),
    {
        proof {
            use_type_invariant(&*self);
        }
        if self.index_of(metadata.name.as_str()).is_some() {
            return Err(LoquatError::Plugin(PluginError::AlreadyExists(metadata.name.clone())));
        }
        let info = PluginInfo::new(metadata);
        let ghost s = self.plugins@;
        let mut plugins: Vec<PluginInfo> = Vec::new();
        std::mem::swap(&mut plugins, &mut self.plugins);
        plugins.push(info);
        proof {
            assert(plugins@ == s.push(info));
            assert forall|i: int, j: int|
                0 <= i < plugins@.len() && 0 <= j < plugins@.len() && i != j implies info_name(
                plugins@[i],
            ) != info_name(plugins@[j]) by {
                if i < s.len() && j < s.len() {
                    assert(plugins@[i] == s[i] && plugins@[j] == s[j]);
                } else if i < s.len() {
                    assert(plugins@[i] == s[i]);
                } else if j < s.len() {
                    assert(plugins@[j] == s[j]);
                }
            }
        }
        self.plugins = plugins;
        Ok(())
    }

    /// Forget the plugin `name`; an unknown name is refused.
    pub fn unregister(&mut self, name: &str) -> (r: Result<(), LoquatError>)
        ensures
            plugin_names_distinct(final(self)@),
            r is Ok <==> has_plugin(old(self)@, name@),
            r is Ok ==> exists|i: int|
                0 <= i < old(self)@.len() && info_name(old(self)@[i]) == name@ && final(self)@
                    == old(self)@.remove(i),
            r is Ok ==> !has_plugin(final(self)@, name@),
            r matches Err(e) ==> final(self)@ == old(self)@ && is_not_found(e, name@),
    {
        proof {
            use_type_invariant(&*self);
        }
        match self.index_of(name) {
            None => Err(LoquatError::Plugin(PluginError::NotFound(String::from_str(name)))),
            Some(i) => {
                let ghost s = self.plugins@;
                let mut plugins: Vec<PluginInfo> = Vec::new();
                std::mem::swap(&mut plugins, &mut self.plugins);
                let _ = plugins.remove(i);
                proof {
                    assert(plugins@ == s.remove(i as int));
                    assert forall|a: int, b: int|
                        0 <= a < plugins@.len() && 0 <= b < plugins@.len() && a != b implies info_name(
                        plugins@[a],
                    ) != info_name(plugins@[b]) by {
                        let a0 = if a < i { a } else { a + 1 };
                        let b0 = if b < i { b } else { b + 1 };
                        assert(plugins@[a] == s[a0] && plugins@[b] == s[b0]);
                    }
                    assert forall|j: int| 0 <= j < plugins@.len() implies info_name(plugins@[j])
                        != name@ by {
                        let j0 = if j < i { j } else { j + 1 };
                        assert(plugins@[j] == s[j0]);
                    }
                }
                self.plugins = plugins;
                Ok(())
            },
        }
    }

    /// A copy of the record of `name`; an unknown name is refused.
    pub fn get(&self, name: &str) -> (r: Result<PluginInfo, LoquatError>)
        ensures
            r is Ok <==> has_plugin(self@, name@),
            r matches Ok(p) ==> exists|i: int|
                0 <= i < self@.len() && info_name(self@[i]) == name@ && info_eq(p, self@[i]),
            r matches Err(e) ==> is_not_found(e, name@),
    {
        match self.index_of(name) {
            None => Err(LoquatError::Plugin(PluginError::NotFound(String::from_str(name)))),
            Some(i) => Ok(self.plugins[i].clone()),
        }
    }

    /// The recorded names, in registration order.
    pub fn list(&self) -> (r: Result<Vec<String>, LoquatError>)
        ensures
            r matches Ok(v) && v@.len() == self@.len() && forall|i: int|
                0 <= i < v@.len() ==> v@[i]@ == info_name(self@[i]),
    {
        let n = self.plugins.len();
        let mut out: Vec<String> = Vec::new();
        let mut i: usize = 0;
        while i < n
            invariant
                n == self.plugins@.len(),
                i <= n,
                out@.len() == i,
                forall|j: int| 0 <= j < i ==> out@[j]@ == info_name(self.plugins@[j]),
            decreases n - i,
        {
            out.push(self.plugins[i].metadata.name.clone());
            i = i + 1;
        }
        Ok(out)
    }

    /// Copies of all records, in registration order.
    pub fn all(&self) -> (r: Result<Vec<PluginInfo>, LoquatError>)
        ensures
            r matches Ok(v) && copies_of(v@, self@),
    {
        let n = self.plugins.len();
        let mut out: Vec<PluginInfo> = Vec::new();
        let mut i: usize = 0;
        while i < n
            invariant
                n == self.plugins@.len(),
                i <= n,
                copies_of(out@, self.plugins@.subrange(0, i as int)),
            decreases n - i,
        {
            out.push(self.plugins[i].clone());
            i = i + 1;
        }
        assert(self.plugins@.subrange(0, n as int) =~= self.plugins@);
        Ok(out)
    }

    /// Set the state of the plugin `name` (stamping the load time when it
    /// becomes loaded); an unknown name is refused.
    pub fn update_status(&mut self, name: &str, status: PluginStatus) -> (r: Result<(), LoquatError>)
        ensures
            plugin_names_distinct(final(self)@),
            r is Ok <==> has_plugin(old(self)@, name@),
            r is Ok ==> exists|i: int|
                0 <= i < old(self)@.len() && info_name(old(self)@[i]) == name@ && final(self)@.len()
                    == old(self)@.len() && (forall|j: int|
                    0 <= j < old(self)@.len() && j != i ==> final(self)@[j] == old(self)@[j])
                    && final(self)@[i].status == status && crate::plugins::types::metadata_eq(
                    final(self)@[i].metadata,
                    old(self)@[i].metadata,
                ) && final(self)@[i].error_count == old(self)@[i].error_count && (!(status is Loaded)
                    ==> final(self)@[i].loaded_at == old(self)@[i].loaded_at) && (status is Loaded
                    ==> final(self)@[i].loaded_at is Some),
            r matches Err(e) ==> final(self)@ == old(self)@ && is_not_found(e, name@),
    {
        proof {
            use_type_invariant(&*self);
        }
        match self.index_of(name) {
            None => Err(LoquatError::Plugin(PluginError::NotFound(String::from_str(name)))),
            Some(i) => {
                let ghost s = self.plugins@;
                let updated = self.plugins[i].clone().with_status(status);
                let mut plugins: Vec<PluginInfo> = Vec::new();
                std::mem::swap(&mut plugins, &mut self.plugins);
                plugins.set(i, updated);
                proof {
                    assert(plugins@ == s.update(i as int, updated));
                    assert forall|a: int, b: int|
                        0 <= a < plugins@.len() && 0 <= b < plugins@.len() && a != b implies info_name(
                        plugins@[a],
                    ) != info_name(plugins@[b]) by {
                        assert(info_name(plugins@[a]) == info_name(s[a]));
                        assert(info_name(plugins@[b]) == info_name(s[b]));
                    }
                }
                self.plugins = plugins;
                Ok(())
            },
        }
    }

    /// Whether a plugin `name` is recorded.
    pub fn contains(&self, name: &str) -> (r: Result<bool, LoquatError>)
        ensures
            r == Ok::<bool, LoquatError>(has_plugin(self@, name@)),
    {
        Ok(self.index_of(name).is_some())
    }

    /// The number of records.
    pub fn count(&self) -> (r: Result<usize, LoquatError>)
        ensures
            r matches Ok(n) && n == self@.len(),
    {
        Ok(self.plugins.len())
    }

    /// Copies of the records in the state `status`, in registration order.
    pub fn by_status(&self, status: PluginStatus) -> (r: Result<Vec<PluginInfo>, LoquatError>)
        ensures
            r matches Ok(v) && copies_of(v@, with_status_filter(self@, status)),
    {
        let n = self.plugins.len();
        let mut out: Vec<PluginInfo> = Vec::new();
        let mut i: usize = 0;
        while i < n
            invariant
                n == self.plugins@.len(),
                i <= n,
                copies_of(out@, with_status_filter(self.plugins@.subrange(0, i as int), status)),
            decreases n - i,
        {
            let ghost s = self.plugins@;
            proof {
                assert(s.subrange(0, i + 1) =~= s.subrange(0, i as int).push(s[i as int]));
                s.subrange(0, i as int).lemma_filter_push(
                    s[i as int],
                    |p: PluginInfo| status_eq(p.status, status),
                );
            }
            if self.plugins[i].status.same_as(&status) {
                out.push(self.plugins[i].clone());
            }
            i = i + 1;
        }
        assert(self.plugins@.subrange(0, n as int) =~= self.plugins@);
        Ok(out)
    }

    /// Copies of the loaded records.
    pub fn active(&self) -> (r: Result<Vec<PluginInfo>, LoquatError>)
        ensures
            r matches Ok(v) && copies_of(v@, with_status_filter(self@, PluginStatus::Loaded)),
    {
        self.by_status(PluginStatus::Loaded)
    }

    /// Forget every record.
    pub fn clear(&mut self) -> (r: Result<(), LoquatError>)
        ensures
            r is Ok,
            final(self)@ == Seq::<PluginInfo>::empty(),
    {
        self.plugins = Vec::new();
        Ok(())
    }
}

impl Default for PluginRegistry {
    fn default() -> (r: Self)
        ensures
            r@ == Seq::<PluginInfo>::empty(),
    {
        Self::new()
    }
}

/// Recording a plugin under a new name keeps names distinct and makes the
/// name known, while every other name stays as known as it was.
pub proof fn lemma_register_then_known(s: Seq<PluginInfo>, p: PluginInfo)
    requires
        plugin_names_distinct(s),
        !has_plugin(s, info_name(p)),
    ensures
        plugin_names_distinct(s.push(p)),
        has_plugin(s.push(p), info_name(p)),
        forall|n: Seq<char>| n != info_name(p) ==> (has_plugin(s.push(p), n) == has_plugin(s, n)),
{
    let t = s.push(p);
    assert(t[s.len() as int] == p);
    assert forall|i: int, j: int|
        0 <= i < t.len() && 0 <= j < t.len() && i != j implies info_name(t[i]) != info_name(
        t[j],
    ) by {
        if i < s.len() {
            assert(t[i] == s[i]);
        }
        if j < s.len() {
            assert(t[j] == s[j]);
        }
    }
    assert forall|n: Seq<char>| n != info_name(p) implies (has_plugin(t, n) == has_plugin(s, n)) by {
        if has_plugin(s, n) {
            let i = choose|i: int| 0 <= i < s.len() && info_name(s[i]) == n;
            assert(t[i] == s[i]);
        }
        if has_plugin(t, n) {
            let i = choose|i: int| 0 <= i < t.len() && info_name(t[i]) == n;
            assert(i < s.len());
            assert(t[i] == s[i]);
        }
    }
}

} // verus!
