//! Routing types: where a package goes and the state routing gives it.

use vstd::prelude::*;
use crate::text::opt_view;

verus! {

/// The adapter a package is routed to.
#[derive(Debug, Clone, PartialEq, Eq, Hash)]
pub enum RouteTarget {
    /// A specific adapter, by name.
    Adapter(String),
    /// All adapters.
    Broadcast,
    /// No specific target.
    NoTarget,
}

/// The mathematical form of a route target.
pub enum TargetView {
    Adapter(Seq<char>),
    Broadcast,
    Nothing,
}

impl View for RouteTarget {
    type V = TargetView;

    open spec fn view(&self) -> TargetView {
        match self {
            RouteTarget::Adapter(a) => TargetView::Adapter(a@),
            RouteTarget::Broadcast => TargetView::Broadcast,
            RouteTarget::NoTarget => TargetView::Nothing,
        }
    }
}

/// The routing state of a package.
#[derive(Debug, Clone, PartialEq, Eq)]
pub struct RouteState {
    /// Whether the package was marked with the init flag.
    pub initialized: bool,
    /// The adapter the package goes to.
    pub adapter_target: RouteTarget,
    /// The channel type found by routing.
    pub channel_type: Option<String>,
}


impl RouteState {
    /// Not initialized, no target, no channel type.
    pub fn new() -> (r: Self)
        ensures
            !r.initialized,
            r.adapter_target@ == TargetView::Nothing,
            r.channel_type is None,
    {
        RouteState { initialized: false, adapter_target: RouteTarget::NoTarget, channel_type: None }
    }

    /// Mark as initialized.
    pub fn with_initialized(self) -> (r: Self)
        ensures
            r.initialized,
            r.adapter_target == self.adapter_target,
            r.channel_type == self.channel_type,
    {
        let mut s = self;
        s.initialized = true;
        s
    }

    /// Set the adapter target.
    pub fn with_adapter_target(self, target: RouteTarget) -> (r: Self)
        ensures
            r.initialized == self.initialized,
            r.adapter_target == target,
            r.channel_type == self.channel_type,
    {
        let mut s = self;
        s.adapter_target = target;
        s
    }

    /// Set the channel type.
    pub fn with_channel_type(self, channel_type: &str) -> (r: Self)
        ensures
            r.initialized == self.initialized,
            r.adapter_target == self.adapter_target,
            opt_view(r.channel_type) == Some(channel_type@),
    {
        let mut s = self;
        s.channel_type = Some(String::from_str(channel_type));
        s
    }
}

impl Default for RouteState {
    fn default() -> (r: Self)
        ensures
            !r.initialized,
            r.adapter_target@ == TargetView::Nothing,
            r.channel_type is None,
    {
        Self::new()
    }
}

/// Routing configuration.
#[derive(Debug, Clone)]
pub struct RouterConfig {
    /// Adapter used when nothing more specific matches.
    pub default_adapter: Option<String>,
    /// Adapter for group channels.
    pub group_adapter: Option<String>,
    /// Adapter for private channels.
    pub private_adapter: Option<String>,
    /// Adapter for channel (DM) channels.
    pub channel_adapter: Option<String>,
    /// Mark packages with the init flag.
    pub auto_initialize: bool,
    /// Route automatically based on event ids.
    pub auto_route: bool,
}

impl RouterConfig {
    /// No adapters; auto-initialize and auto-route on.
    pub fn new() -> (r: Self)
        ensures
            r.default_adapter is None,
            r.group_adapter is None,
            r.private_adapter is None,
            r.channel_adapter is None,
            r.auto_initialize,
            r.auto_route,
    {
        RouterConfig {
            default_adapter: None,
            group_adapter: None,
            private_adapter: None,
            channel_adapter: None,
            auto_initialize: true,
            auto_route: true,
        }
    }

    /// Set the default adapter.
    pub fn with_default_adapter(self, adapter: &str) -> (r: Self)
        ensures
            opt_view(r.default_adapter) == Some(adapter@),
            r.group_adapter == self.group_adapter,
            r.private_adapter == self.private_adapter,
            r.channel_adapter == self.channel_adapter,
            r.auto_initialize == self.auto_initialize,
            r.auto_route == self.auto_route,
    {
        let mut s = self;
        s.default_adapter = Some(String::from_str(adapter));
        s
    }

    /// Set the group adapter.
    pub fn with_group_adapter(self, adapter: &str) -> (r: Self)
        ensures
            r.default_adapter == self.default_adapter,
            opt_view(r.group_adapter) == Some(adapter@),
            r.private_adapter == self.private_adapter,
            r.channel_adapter == self.channel_adapter,
            r.auto_initialize == self.auto_initialize,
            r.auto_route == self.auto_route,
    {
        let mut s = self;
        s.group_adapter = Some(String::from_str(adapter));
        s
    }

    /// Set the private adapter.
    pub fn with_private_adapter(self, adapter: &str) -> (r: Self)
        ensures
            r.default_adapter == self.default_adapter,
            r.group_adapter == self.group_adapter,
            opt_view(r.private_adapter) == Some(adapter@),
            r.channel_adapter == self.channel_adapter,
            r.auto_initialize == self.auto_initialize,
            r.auto_route == self.auto_route,
    {
        let mut s = self;
        s.private_adapter = Some(String::from_str(adapter));
        s
    }

    /// Set the channel adapter.
    pub fn with_channel_adapter(self, adapter: &str) -> (r: Self)
        ensures
            r.default_adapter == self.default_adapter,
            r.group_adapter == self.group_adapter,
            r.private_adapter == self.private_adapter,
            opt_view(r.channel_adapter) == Some(adapter@),
            r.auto_initialize == self.auto_initialize,
            r.auto_route == self.auto_route,
    {
        let mut s = self;
        s.channel_adapter = Some(String::from_str(adapter));
        s
    }

    /// Turn auto-initialization on or off.
    pub fn with_auto_initialize(self, enabled: bool) -> (r: Self)
        ensures
            r.default_adapter == self.default_adapter,
            r.group_adapter == self.group_adapter,
            r.private_adapter == self.private_adapter,
            r.channel_adapter == self.channel_adapter,
            r.auto_initialize == enabled,
            r.auto_route == self.auto_route,
    {
        let mut s = self;
        s.auto_initialize = enabled;
        s
    }

    /// Turn auto-routing on or off.
    pub fn with_auto_route(self, enabled: bool) -> (r: Self)
        ensures
            r.default_adapter == self.default_adapter,
            r.group_adapter == self.group_adapter,
            r.private_adapter == self.private_adapter,
            r.channel_adapter == self.channel_adapter,
            r.auto_initialize == self.auto_initialize,
            r.auto_route == enabled,
    {
        let mut s = self;
        s.auto_route = enabled;
        s
    }
}

impl Default for RouterConfig {
    fn default() -> (r: Self)
        ensures
            r.default_adapter is None,
            r.group_adapter is None,
            r.private_adapter is None,
            r.channel_adapter is None,
            r.auto_initialize,
            r.auto_route,
    {
        Self::new()
    }
}

/// The result of routing one package.
#[derive(Debug, Clone)]
pub struct RouteResult {
    /// The state to apply.
    pub state: RouteState,
    /// Whether routing succeeded.
    pub success: bool,
}

impl RouteResult {
    pub fn new(state: RouteState, success: bool) -> (r: Self)
        ensures
            r.state == state,
            r.success == success,
    {
        RouteResult { state, success }
    }

    /// A successful result.
    pub fn success(state: RouteState) -> (r: Self)
        ensures
            r.state == state,
            r.success,
    {
        Self::new(state, true)
    }

    /// A failed result.
    pub fn failure(state: RouteState) -> (r: Self)
        ensures
            r.state == state,
            !r.success,
    {
        Self::new(state, false)
    }
}

} // verus!
