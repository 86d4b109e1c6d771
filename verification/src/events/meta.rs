//! Meta events: heartbeats, lifecycle, connection, system, performance and plugin events.

use vstd::prelude::*;
use crate::events::traits::{Event, EventMetadata, EventSource};
use crate::text::{opt_view, opt_str_view, opt_as_str};
use crate::time::Timestamp;
use crate::json::JsonMap;

verus! {

/// Lifecycle phases.
#[derive(Debug, Clone, Copy, PartialEq, Eq, Structural)]
pub enum LifecyclePhase {
    Starting,
    Started,
    Stopping,
    Stopped,
    Pausing,
    Paused,
    Resuming,
    Resumed,
    Restarting,
}

/// The meta event type name for this LifecyclePhase.
pub open spec fn lifecycle_type(x: LifecyclePhase) -> Seq<char> {
    match x {
        LifecyclePhase::Starting => "meta.lifecycle.starting"@,
        LifecyclePhase::Started => "meta.lifecycle.started"@,
        LifecyclePhase::Stopping => "meta.lifecycle.stopping"@,
        LifecyclePhase::Stopped => "meta.lifecycle.stopped"@,
        LifecyclePhase::Pausing => "meta.lifecycle.pausing"@,
        LifecyclePhase::Paused => "meta.lifecycle.paused"@,
        LifecyclePhase::Resuming => "meta.lifecycle.resuming"@,
        LifecyclePhase::Resumed => "meta.lifecycle.resumed"@,
        LifecyclePhase::Restarting => "meta.lifecycle.restarting"@,
    }
}

impl LifecyclePhase {
    /// The meta event type name.
    pub fn event_type(&self) -> (r: &'static str)
        ensures
            r@ == lifecycle_type(*self),
    {
        match self {
            LifecyclePhase::Starting => "meta.lifecycle.starting",
            LifecyclePhase::Started => "meta.lifecycle.started",
            LifecyclePhase::Stopping => "meta.lifecycle.stopping",
            LifecyclePhase::Stopped => "meta.lifecycle.stopped",
            LifecyclePhase::Pausing => "meta.lifecycle.pausing",
            LifecyclePhase::Paused => "meta.lifecycle.paused",
            LifecyclePhase::Resuming => "meta.lifecycle.resuming",
            LifecyclePhase::Resumed => "meta.lifecycle.resumed",
            LifecyclePhase::Restarting => "meta.lifecycle.restarting",
        }
    }
}

/// Connection states.
#[derive(Debug, Clone, Copy, PartialEq, Eq, Structural)]
pub enum ConnectionStatus {
    Connected,
    Disconnected,
    Connecting,
    Reconnecting,
    Failed,
}

/// The meta event type name for this ConnectionStatus.
pub open spec fn connection_type(x: ConnectionStatus) -> Seq<char> {
    match x {
        ConnectionStatus::Connected => "meta.connection.connected"@,
        ConnectionStatus::Disconnected => "meta.connection.disconnected"@,
        ConnectionStatus::Connecting => "meta.connection.connecting"@,
        ConnectionStatus::Reconnecting => "meta.connection.reconnecting"@,
        ConnectionStatus::Failed => "meta.connection.failed"@,
    }
}

impl ConnectionStatus {
    /// The meta event type name.
    pub fn event_type(&self) -> (r: &'static str)
        ensures
            r@ == connection_type(*self),
    {
        match self {
            ConnectionStatus::Connected => "meta.connection.connected",
            ConnectionStatus::Disconnected => "meta.connection.disconnected",
            ConnectionStatus::Connecting => "meta.connection.connecting",
            ConnectionStatus::Reconnecting => "meta.connection.reconnecting",
            ConnectionStatus::Failed => "meta.connection.failed",
        }
    }
}

/// Plugin event kinds.
#[derive(Debug, Clone, Copy, PartialEq, Eq, Structural)]
pub enum PluginEventType {
    Load,
    Unload,
    Enable,
    Disable,
    Reload,
    Update,
    Error,
}

/// The meta event type name for this PluginEventType.
pub open spec fn plugin_type_name(x: PluginEventType) -> Seq<char> {
    match x {
        PluginEventType::Load => "meta.plugin.load"@,
        PluginEventType::Unload => "meta.plugin.unload"@,
        PluginEventType::Enable => "meta.plugin.enable"@,
        PluginEventType::Disable => "meta.plugin.disable"@,
        PluginEventType::Reload => "meta.plugin.reload"@,
        PluginEventType::Update => "meta.plugin.update"@,
        PluginEventType::Error => "meta.plugin.error"@,
    }
}

impl PluginEventType {
    /// The meta event type name.
    pub fn event_type(&self) -> (r: &'static str)
        ensures
            r@ == plugin_type_name(*self),
    {
        match self {
            PluginEventType::Load => "meta.plugin.load",
            PluginEventType::Unload => "meta.plugin.unload",
            PluginEventType::Enable => "meta.plugin.enable",
            PluginEventType::Disable => "meta.plugin.disable",
            PluginEventType::Reload => "meta.plugin.reload",
            PluginEventType::Update => "meta.plugin.update",
            PluginEventType::Error => "meta.plugin.error",
        }
    }
}

/// System event kinds.
#[derive(Debug, Clone, PartialEq, Eq)]
pub enum SystemEventType {
    ConfigUpdated,
    DatabaseConnected,
    DatabaseDisconnected,
    CacheConnected,
    CacheDisconnected,
    StorageWarning,
    StorageCritical,
    Other(String),
}

/// The meta event type name for a system event kind.
pub open spec fn system_type(x: SystemEventType) -> Seq<char> {
    match x {
        SystemEventType::ConfigUpdated => "meta.system.config_updated"@,
        SystemEventType::DatabaseConnected => "meta.system.database_connected"@,
        SystemEventType::DatabaseDisconnected => "meta.system.database_disconnected"@,
        SystemEventType::CacheConnected => "meta.system.cache_connected"@,
        SystemEventType::CacheDisconnected => "meta.system.cache_disconnected"@,
        SystemEventType::StorageWarning => "meta.system.storage_warning"@,
        SystemEventType::StorageCritical => "meta.system.storage_critical"@,
        SystemEventType::Other(_) => "meta.system.other"@,
    }
}

impl SystemEventType {
    /// The meta event type name.
    pub fn event_type(&self) -> (r: &'static str)
        ensures
            r@ == system_type(*self),
    {
        match self {
            SystemEventType::ConfigUpdated => "meta.system.config_updated",
            SystemEventType::DatabaseConnected => "meta.system.database_connected",
            SystemEventType::DatabaseDisconnected => "meta.system.database_disconnected",
            SystemEventType::CacheConnected => "meta.system.cache_connected",
            SystemEventType::CacheDisconnected => "meta.system.cache_disconnected",
            SystemEventType::StorageWarning => "meta.system.storage_warning",
            SystemEventType::StorageCritical => "meta.system.storage_critical",
            SystemEventType::Other(_) => "meta.system.other",
        }
    }
}

/// Meta events: system-level events.
#[derive(Debug, Clone, PartialEq)]
pub enum MetaEvent {
    /// A heartbeat; interval in milliseconds.
    Heartbeat {
        interval: u32,
        metadata: EventMetadata,
    },
    /// A lifecycle change.
    Lifecycle {
        phase: LifecyclePhase,
        metadata: EventMetadata,
    },
    /// A connection status change.
    ConnectionChange {
        status: ConnectionStatus,
        conn_type: Option<String>,
        reconnect_count: Option<u32>,
        error: Option<String>,
        metadata: EventMetadata,
    },
    /// A system event.
    System {
        event_type: SystemEventType,
        description: String,
        data: JsonMap,
        metadata: EventMetadata,
    },
    /// Performance figures. CPU and memory percentages are IEEE-754 doubles, held by their bit patterns; memory in bytes.
    Performance {
        cpu_usage_bits: Option<u64>,
        memory_usage: Option<u64>,
        memory_usage_percent_bits: Option<u64>,
        queue_size: Option<u64>,
        metrics: JsonMap,
        metadata: EventMetadata,
    },
    /// A plugin event.
    Plugin {
        plugin_event: PluginEventType,
        plugin_name: String,
        plugin_version: Option<String>,
        description: Option<String>,
        data: JsonMap,
        metadata: EventMetadata,
    },
}

impl MetaEvent {
    /// The metadata of this event.
    pub open spec fn spec_metadata(self) -> EventMetadata {
        match self {
            MetaEvent::Heartbeat { metadata, .. } => metadata,
            MetaEvent::Lifecycle { metadata, .. } => metadata,
            MetaEvent::ConnectionChange { metadata, .. } => metadata,
            MetaEvent::System { metadata, .. } => metadata,
            MetaEvent::Performance { metadata, .. } => metadata,
            MetaEvent::Plugin { metadata, .. } => metadata,
        }
    }

    /// The dotted type name of this event.
    pub open spec fn spec_event_type(self) -> Seq<char> {
        match self {
            MetaEvent::Heartbeat { .. } => "meta.heartbeat"@,
            MetaEvent::Lifecycle { phase, .. } => lifecycle_type(phase),
            MetaEvent::ConnectionChange { status, .. } => connection_type(status),
            MetaEvent::System { event_type, .. } => system_type(event_type),
            MetaEvent::Performance { .. } => "meta.performance"@,
            MetaEvent::Plugin { plugin_event, .. } => plugin_type_name(plugin_event),
        }
    }

    /// The user id this event reports.
    pub open spec fn spec_user_id(self) -> Option<Seq<char>> {
        match self {
            MetaEvent::Heartbeat { metadata, .. } => opt_view(metadata.user_id),
            MetaEvent::Lifecycle { metadata, .. } => opt_view(metadata.user_id),
            MetaEvent::ConnectionChange { metadata, .. } => opt_view(metadata.user_id),
            MetaEvent::System { metadata, .. } => opt_view(metadata.user_id),
            MetaEvent::Performance { metadata, .. } => opt_view(metadata.user_id),
            MetaEvent::Plugin { metadata, .. } => opt_view(metadata.user_id),
        }
    }

    /// The group id this event reports.
    pub open spec fn spec_group_id(self) -> Option<Seq<char>> {
        match self {
            MetaEvent::Heartbeat { metadata, .. } => opt_view(metadata.group_id),
            MetaEvent::Lifecycle { metadata, .. } => opt_view(metadata.group_id),
            MetaEvent::ConnectionChange { metadata, .. } => opt_view(metadata.group_id),
            MetaEvent::System { metadata, .. } => opt_view(metadata.group_id),
            MetaEvent::Performance { metadata, .. } => opt_view(metadata.group_id),
            MetaEvent::Plugin { metadata, .. } => opt_view(metadata.group_id),
        }
    }

    /// The metadata of this event, borrowed.
    pub fn metadata(&self) -> (r: &EventMetadata)
        ensures
            *r == self.spec_metadata(),
    {
        match self {
            MetaEvent::Heartbeat { metadata, .. } => metadata,
            MetaEvent::Lifecycle { metadata, .. } => metadata,
            MetaEvent::ConnectionChange { metadata, .. } => metadata,
            MetaEvent::System { metadata, .. } => metadata,
            MetaEvent::Performance { metadata, .. } => metadata,
            MetaEvent::Plugin { metadata, .. } => metadata,
        }
    }


}

impl Event for MetaEvent {
    fn event_id(&self) -> (r: &str)
        ensures
            r@ == self.spec_metadata().event_id@,
    {
        self.metadata().event_id.as_str()
    }

    fn event_type(&self) -> (r: &str)
        ensures
            r@ == self.spec_event_type(),
    {
        match self {
            MetaEvent::Heartbeat { .. } => "meta.heartbeat",
            MetaEvent::Lifecycle { phase, .. } => phase.event_type(),
            MetaEvent::ConnectionChange { status, .. } => status.event_type(),
            MetaEvent::System { event_type, .. } => event_type.event_type(),
            MetaEvent::Performance { .. } => "meta.performance",
            MetaEvent::Plugin { plugin_event, .. } => plugin_event.event_type(),
        }
    }

    fn timestamp(&self) -> (r: Timestamp)
        ensures
            r == self.spec_metadata().timestamp,
    {
        self.metadata().timestamp
    }

    fn source(&self) -> (r: EventSource)
        ensures
            r == self.spec_metadata().source,
    {
        self.metadata().source.clone()
    }

    fn user_id(&self) -> (r: Option<&str>)
        ensures
            opt_str_view(r) == self.spec_user_id(),
    {
        opt_as_str(&self.metadata().user_id)
    }

    fn group_id(&self) -> (r: Option<&str>)
        ensures
            opt_str_view(r) == self.spec_group_id(),
    {
        opt_as_str(&self.metadata().group_id)
    }

    fn self_id(&self) -> (r: Option<&str>)
        ensures
            opt_str_view(r) == opt_view(self.spec_metadata().self_id),
    {
        opt_as_str(&self.metadata().self_id)
    }

    fn correlation_id(&self) -> (r: Option<&str>)
        ensures
            opt_str_view(r) == opt_view(self.spec_metadata().correlation_id),
    {
        opt_as_str(&self.metadata().correlation_id)
    }
}


/// Each lifecycle phase has its own type name under `meta.lifecycle.`; two phases share a name only when they are the same phase.
pub proof fn lemma_lifecycle_types(a: LifecyclePhase, b: LifecyclePhase)
    ensures
        a is Starting ==> lifecycle_type(a) == "meta.lifecycle.starting"@,
        a is Started ==> lifecycle_type(a) == "meta.lifecycle.started"@,
        a is Stopping ==> lifecycle_type(a) == "meta.lifecycle.stopping"@,
        a is Stopped ==> lifecycle_type(a) == "meta.lifecycle.stopped"@,
        a is Pausing ==> lifecycle_type(a) == "meta.lifecycle.pausing"@,
        a is Paused ==> lifecycle_type(a) == "meta.lifecycle.paused"@,
        a is Resuming ==> lifecycle_type(a) == "meta.lifecycle.resuming"@,
        a is Resumed ==> lifecycle_type(a) == "meta.lifecycle.resumed"@,
        a is Restarting ==> lifecycle_type(a) == "meta.lifecycle.restarting"@,
        lifecycle_type(a) == lifecycle_type(b) ==> ((a is Starting && b is Starting) || (a is Started && b is Started) || (a is Stopping && b is Stopping) || (a is Stopped && b is Stopped) || (a is Pausing && b is Pausing) || (a is Paused && b is Paused) || (a is Resuming && b is Resuming) || (a is Resumed && b is Resumed) || (a is Restarting && b is Restarting)),
{
    reveal_strlit("meta.lifecycle.starting");
    reveal_strlit("meta.lifecycle.started");
    reveal_strlit("meta.lifecycle.stopping");
    reveal_strlit("meta.lifecycle.stopped");
    reveal_strlit("meta.lifecycle.pausing");
    reveal_strlit("meta.lifecycle.paused");
    reveal_strlit("meta.lifecycle.resuming");
    reveal_strlit("meta.lifecycle.resumed");
    reveal_strlit("meta.lifecycle.restarting");
    let x = lifecycle_type(a);
    let y = lifecycle_type(b);
    if x == y {
        assert(x.len() == y.len() && x[17] == y[17]);
    }
}

/// Each connection status has its own type name under `meta.connection.`; two statuses share a name only when they are the same status.
pub proof fn lemma_connection_types(a: ConnectionStatus, b: ConnectionStatus)
    ensures
        a is Connected ==> connection_type(a) == "meta.connection.connected"@,
        a is Disconnected ==> connection_type(a) == "meta.connection.disconnected"@,
        a is Connecting ==> connection_type(a) == "meta.connection.connecting"@,
        a is Reconnecting ==> connection_type(a) == "meta.connection.reconnecting"@,
        a is Failed ==> connection_type(a) == "meta.connection.failed"@,
        connection_type(a) == connection_type(b) ==> ((a is Connected && b is Connected) || (a is Disconnected && b is Disconnected) || (a is Connecting && b is Connecting) || (a is Reconnecting && b is Reconnecting) || (a is Failed && b is Failed)),
{
    reveal_strlit("meta.connection.connected");
    reveal_strlit("meta.connection.disconnected");
    reveal_strlit("meta.connection.connecting");
    reveal_strlit("meta.connection.reconnecting");
    reveal_strlit("meta.connection.failed");
    let x = connection_type(a);
    let y = connection_type(b);
    if x == y {
        assert(x.len() == y.len() && x[16] == y[16]);
    }
}

/// Each plugin event has its own type name under `meta.plugin.`; two plugin events share a name only when they are the same event.
pub proof fn lemma_plugin_event_types(a: PluginEventType, b: PluginEventType)
    ensures
        a is Load ==> plugin_type_name(a) == "meta.plugin.load"@,
        a is Unload ==> plugin_type_name(a) == "meta.plugin.unload"@,
        a is Enable ==> plugin_type_name(a) == "meta.plugin.enable"@,
        a is Disable ==> plugin_type_name(a) == "meta.plugin.disable"@,
        a is Reload ==> plugin_type_name(a) == "meta.plugin.reload"@,
        a is Update ==> plugin_type_name(a) == "meta.plugin.update"@,
        a is Error ==> plugin_type_name(a) == "meta.plugin.error"@,
        plugin_type_name(a) == plugin_type_name(b) ==> ((a is Load && b is Load) || (a is Unload && b is Unload) || (a is Enable && b is Enable) || (a is Disable && b is Disable) || (a is Reload && b is Reload) || (a is Update && b is Update) || (a is Error && b is Error)),
{
    reveal_strlit("meta.plugin.load");
    reveal_strlit("meta.plugin.unload");
    reveal_strlit("meta.plugin.enable");
    reveal_strlit("meta.plugin.disable");
    reveal_strlit("meta.plugin.reload");
    reveal_strlit("meta.plugin.update");
    reveal_strlit("meta.plugin.error");
    let x = plugin_type_name(a);
    let y = plugin_type_name(b);
    if x == y {
        assert(x.len() == y.len() && x[12] == y[12] && x[13] == y[13]);
    }
}

/// Each system event has its own type name under `meta.system.` (every other event is `other`); two system events share a name only when they are of the same kind.
pub proof fn lemma_system_event_types(a: SystemEventType, b: SystemEventType)
    ensures
        a is ConfigUpdated ==> system_type(a) == "meta.system.config_updated"@,
        a is DatabaseConnected ==> system_type(a) == "meta.system.database_connected"@,
        a is DatabaseDisconnected ==> system_type(a) == "meta.system.database_disconnected"@,
        a is CacheConnected ==> system_type(a) == "meta.system.cache_connected"@,
        a is CacheDisconnected ==> system_type(a) == "meta.system.cache_disconnected"@,
        a is StorageWarning ==> system_type(a) == "meta.system.storage_warning"@,
        a is StorageCritical ==> system_type(a) == "meta.system.storage_critical"@,
        a is Other ==> system_type(a) == "meta.system.other"@,
        system_type(a) == system_type(b) ==> ((a is ConfigUpdated && b is ConfigUpdated) || (a is DatabaseConnected && b is DatabaseConnected) || (a is DatabaseDisconnected && b is DatabaseDisconnected) || (a is CacheConnected && b is CacheConnected) || (a is CacheDisconnected && b is CacheDisconnected) || (a is StorageWarning && b is StorageWarning) || (a is StorageCritical && b is StorageCritical) || (a is Other && b is Other)),
{
    reveal_strlit("meta.system.config_updated");
    reveal_strlit("meta.system.database_connected");
    reveal_strlit("meta.system.database_disconnected");
    reveal_strlit("meta.system.cache_connected");
    reveal_strlit("meta.system.cache_disconnected");
    reveal_strlit("meta.system.storage_warning");
    reveal_strlit("meta.system.storage_critical");
    reveal_strlit("meta.system.other");
    let x = system_type(a);
    let y = system_type(b);
    if x == y {
        assert(x.len() == y.len() && x[12] == y[12]);
    }
}

/// A meta event's type: `meta.heartbeat` and `meta.performance` for those
/// kinds, and for the others the type of their phase, status, system event
/// or plugin event.
pub proof fn lemma_meta_types(a: MetaEvent)
    ensures
        a is Heartbeat ==> a.spec_event_type() == "meta.heartbeat"@,
        a is Performance ==> a.spec_event_type() == "meta.performance"@,
        a matches MetaEvent::Lifecycle { phase, .. } ==> a.spec_event_type() == lifecycle_type(phase),
        a matches MetaEvent::ConnectionChange { status, .. } ==> a.spec_event_type()
            == connection_type(status),
        a matches MetaEvent::System { event_type, .. } ==> a.spec_event_type() == system_type(
            event_type,
        ),
        a matches MetaEvent::Plugin { plugin_event, .. } ==> a.spec_event_type()
            == plugin_type_name(plugin_event),
{
}

} // verus!
