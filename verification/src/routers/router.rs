//! The standard router: routes a package by the ids its events carry.

use vstd::prelude::*;
use crate::errors::LoquatError;
use crate::events::block::Block;
use crate::events::event_enum::EventEnum;
use crate::events::group::Group;
use crate::events::package::Package;
use crate::routers::types::{RouteResult, RouteState, RouteTarget, RouterConfig, TargetView};
use crate::text::{opt_view, seq_starts_with, starts_with, concat2};

verus! {

/// Determines routing for packages.
pub trait Router {
    /// The configuration the router holds; each implementation says which.
    open spec fn configured(&self) -> RouterConfig {
        arbitrary()
    }

    /// Whether the router takes `config` as its new configuration; each
    /// implementation says when.
    open spec fn accepts(&self, config: RouterConfig) -> bool {
        arbitrary()
    }

    /// The router's id.
    fn router_id(&self) -> &str;

    /// The router's configuration.
    fn config(&self) -> (r: &RouterConfig)
        ensures
            *r == self.configured(),
    ;

    /// Replace the configuration: on success the router holds `config`; a
    /// refused update leaves the configuration as it was.
    fn set_config(&mut self, config: RouterConfig) -> (r: Result<(), LoquatError>)
        ensures
            r is Ok <==> old(self).accepts(config),
            r is Ok ==> final(self).configured() == config,
            r is Err ==> final(self).configured() == old(self).configured(),
    ;

    /// Route one package.
    fn route_package(&self, package: &Package) -> RouteResult;

    /// Route several packages, one result per package, in order.
    fn route_batch(&self, packages: &[Package]) -> (r: Vec<RouteResult>)
        ensures
            r@.len() == packages@.len(),
    {
        let mut results: Vec<RouteResult> = Vec::new();
        let n = packages.len();
        let mut i: usize = 0;
        while i < n
            invariant
                n == packages@.len(),
                i <= n,
                results@.len() == i,
            decreases n - i,
        {
            results.push(self.route_package(&packages[i]));
            i = i + 1;
        }
        results
    }

    /// Whether automatic routing is on.
    fn is_enabled(&self) -> (r: bool)
        ensures
            r == self.configured().auto_route,
    {
        self.config().auto_route
    }

    /// Turn automatic routing on or off: the configuration becomes the old one
    /// with `auto_route` set to `enabled`, unless the router refuses that
    /// update, which leaves it as it was.
    fn set_enabled(&mut self, enabled: bool)
        ensures
            old(self).accepts(auto_route_set(old(self).configured(), enabled))
                ==> final(self).configured() == auto_route_set(old(self).configured(), enabled),
            !old(self).accepts(auto_route_set(old(self).configured(), enabled))
                ==> final(self).configured() == old(self).configured(),
    {
        let config = copy_config(self.config()).with_auto_route(enabled);
        let _ = self.set_config(config);
    }
}

/// `c` with automatic routing set to `enabled`.
pub open spec fn auto_route_set(c: RouterConfig, enabled: bool) -> RouterConfig {
    RouterConfig { auto_route: enabled, ..c }
}

/// A copy of an optional string.
fn copy_opt(o: &Option<String>) -> (r: Option<String>)
    ensures
        r == *o,
{
    match o {
        Some(s) => Some(s.clone()),
        None => None,
    }
}

/// A copy of a configuration.
fn copy_config(c: &RouterConfig) -> (r: RouterConfig)
    ensures
        r == *c,
{
    RouterConfig {
        default_adapter: copy_opt(&c.default_adapter),
        group_adapter: copy_opt(&c.group_adapter),
        private_adapter: copy_opt(&c.private_adapter),
        channel_adapter: copy_opt(&c.channel_adapter),
        auto_initialize: c.auto_initialize,
        auto_route: c.auto_route,
    }
}

/// The channel type an event indicates: `group:<id>` when it reports a group,
/// else `private:<id>` when it reports a user.
pub open spec fn event_channel(e: EventEnum) -> Option<Seq<char>> {
    match e.spec_group_id() {
        Some(g) => Some("group:"@ + g),
        None => match e.spec_user_id() {
            Some(u) => Some("private:"@ + u),
            None => None,
        },
    }
}

/// The channel type of the first event, in order, that indicates one.
pub open spec fn first_in_events(es: Seq<EventEnum>) -> Option<Seq<char>>
    decreases es.len(),
{
    if es.len() == 0 {
        None
    } else {
        match event_channel(es[0]) {
            Some(c) => Some(c),
            None => first_in_events(es.drop_first()),
        }
    }
}

/// The channel type of the first event, over groups in order.
pub open spec fn first_in_groups(gs: Seq<Group>) -> Option<Seq<char>>
    decreases gs.len(),
{
    if gs.len() == 0 {
        None
    } else {
        match first_in_events(gs[0].events@) {
            Some(c) => Some(c),
            None => first_in_groups(gs.drop_first()),
        }
    }
}

/// The channel type of the first event, over blocks in order.
pub open spec fn first_in_blocks(bs: Seq<Block>) -> Option<Seq<char>>
    decreases bs.len(),
{
    if bs.len() == 0 {
        None
    } else {
        match first_in_groups(bs[0].groups@) {
            Some(c) => Some(c),
            None => first_in_blocks(bs.drop_first()),
        }
    }
}

/// The channel type of a package: that of its first event that indicates one.
pub open spec fn package_channel(p: Package) -> Option<Seq<char>> {
    first_in_blocks(p.blocks@)
}

/// The adapter for a channel type: the adapter configured for its kind
/// (`group:`, `private:`, `channel:` prefix), else the default adapter, else none.
pub open spec fn spec_determine_target(cfg: RouterConfig, ct: Seq<char>) -> TargetView {
    let specific = if seq_starts_with(ct, "group:"@) {
        cfg.group_adapter
    } else if seq_starts_with(ct, "private:"@) {
        cfg.private_adapter
    } else if seq_starts_with(ct, "channel:"@) {
        cfg.channel_adapter
    } else {
        None
    };
    match specific {
        Some(a) => TargetView::Adapter(a@),
        None => match cfg.default_adapter {
            Some(d) => TargetView::Adapter(d@),
            None => TargetView::Nothing,
        },
    }
}

/// An event reporting a group indicates the group channel `group:<id>`,
/// even when it also reports a user; one reporting only a user indicates
/// `private:<id>`; one reporting neither indicates no channel.
pub proof fn lemma_event_channel(e: EventEnum)
    ensures
        e.spec_group_id() is Some ==> event_channel(e) == Some("group:"@ + e.spec_group_id().unwrap()),
        e.spec_group_id() is None && e.spec_user_id() is Some ==> event_channel(e) == Some(
            "private:"@ + e.spec_user_id().unwrap(),
        ),
        e.spec_group_id() is None && e.spec_user_id() is None ==> event_channel(e) is None,
{
}

/// Among events, the first one in order that indicates a channel decides:
/// when event `i` indicates one and no earlier event does, that is the
/// channel; when none does, there is no channel.
pub proof fn lemma_first_event_decides(es: Seq<EventEnum>, i: int)
    ensures
        0 <= i < es.len() && event_channel(es[i]) is Some && (forall|j: int|
            0 <= j < i ==> event_channel(#[trigger] es[j]) is None) ==> first_in_events(es)
            == event_channel(es[i]),
        (forall|j: int| 0 <= j < es.len() ==> event_channel(#[trigger] es[j]) is None)
            ==> first_in_events(es) is None,
    decreases es.len(),
{
    if es.len() > 0 {
        let rest = es.drop_first();
        lemma_first_event_decides(rest, i - 1);
        if (forall|j: int| 0 <= j < es.len() ==> event_channel(#[trigger] es[j]) is None) {
            assert(event_channel(es[0]) is None);
            assert forall|j: int| 0 <= j < rest.len() implies event_channel(#[trigger] rest[j]) is None
                by {
                assert(rest[j] == es[j + 1]);
            }
        }
        if 0 < i < es.len() && event_channel(es[i]) is Some && (forall|j: int|
            0 <= j < i ==> event_channel(#[trigger] es[j]) is None) {
            assert(event_channel(es[0]) is None);
            assert(rest[i - 1] == es[i]);
            assert forall|j: int| 0 <= j < i - 1 implies event_channel(#[trigger] rest[j]) is None
                by {
                assert(rest[j] == es[j + 1]);
            }
        }
    }
}

/// Among groups, the first in order whose events indicate a channel decides.
pub proof fn lemma_first_group_decides(gs: Seq<Group>, i: int)
    ensures
        0 <= i < gs.len() && first_in_events(gs[i].events@) is Some && (forall|j: int|
            0 <= j < i ==> first_in_events(#[trigger] gs[j].events@) is None) ==> first_in_groups(
            gs,
        ) == first_in_events(gs[i].events@),
        (forall|j: int| 0 <= j < gs.len() ==> first_in_events(#[trigger] gs[j].events@) is None)
            ==> first_in_groups(gs) is None,
    decreases gs.len(),
{
    if gs.len() > 0 {
        let rest = gs.drop_first();
        lemma_first_group_decides(rest, i - 1);
        if (forall|j: int| 0 <= j < gs.len() ==> first_in_events(#[trigger] gs[j].events@) is None) {
            assert(first_in_events(gs[0].events@) is None);
            assert forall|j: int| 0 <= j < rest.len() implies first_in_events(
                #[trigger] rest[j].events@,
            ) is None by {
                assert(rest[j] == gs[j + 1]);
            }
        }
        if 0 < i < gs.len() && first_in_events(gs[i].events@) is Some && (forall|j: int|
            0 <= j < i ==> first_in_events(#[trigger] gs[j].events@) is None) {
            assert(first_in_events(gs[0].events@) is None);
            assert(rest[i - 1] == gs[i]);
            assert forall|j: int| 0 <= j < i - 1 implies first_in_events(
                #[trigger] rest[j].events@,
            ) is None by {
                assert(rest[j] == gs[j + 1]);
            }
        }
    }
}

/// Among blocks, the first in order whose groups indicate a channel decides;
/// that is the channel of a package.
pub proof fn lemma_first_block_decides(p: Package, i: int)
    ensures
        ({
            let bs = p.blocks@;
            &&& 0 <= i < bs.len() && first_in_groups(bs[i].groups@) is Some && (forall|j: int|
                0 <= j < i ==> first_in_groups(#[trigger] bs[j].groups@) is None)
                ==> package_channel(p) == first_in_groups(bs[i].groups@)
            &&& (forall|j: int| 0 <= j < bs.len() ==> first_in_groups(#[trigger] bs[j].groups@) is None)
                ==> package_channel(p) is None
        }),
{
    lemma_first_block_decides_in(p.blocks@, i);
}

proof fn lemma_first_block_decides_in(bs: Seq<Block>, i: int)
    ensures
        0 <= i < bs.len() && first_in_groups(bs[i].groups@) is Some && (forall|j: int|
            0 <= j < i ==> first_in_groups(#[trigger] bs[j].groups@) is None) ==> first_in_blocks(
            bs,
        ) == first_in_groups(bs[i].groups@),
        (forall|j: int| 0 <= j < bs.len() ==> first_in_groups(#[trigger] bs[j].groups@) is None)
            ==> first_in_blocks(bs) is None,
    decreases bs.len(),
{
    if bs.len() > 0 {
        let rest = bs.drop_first();
        lemma_first_block_decides_in(rest, i - 1);
        if (forall|j: int| 0 <= j < bs.len() ==> first_in_groups(#[trigger] bs[j].groups@) is None) {
            assert(first_in_groups(bs[0].groups@) is None);
            assert forall|j: int| 0 <= j < rest.len() implies first_in_groups(
                #[trigger] rest[j].groups@,
            ) is None by {
                assert(rest[j] == bs[j + 1]);
            }
        }
        if 0 < i < bs.len() && first_in_groups(bs[i].groups@) is Some && (forall|j: int|
            0 <= j < i ==> first_in_groups(#[trigger] bs[j].groups@) is None) {
            assert(first_in_groups(bs[0].groups@) is None);
            assert(rest[i - 1] == bs[i]);
            assert forall|j: int| 0 <= j < i - 1 implies first_in_groups(
                #[trigger] rest[j].groups@,
            ) is None by {
                assert(rest[j] == bs[j + 1]);
            }
        }
    }
}

/// No channel type starts with two of the kind prefixes.
proof fn lemma_kind_prefixes_exclusive(ct: Seq<char>)
    ensures
        !(seq_starts_with(ct, "group:"@) && seq_starts_with(ct, "private:"@)),
        !(seq_starts_with(ct, "group:"@) && seq_starts_with(ct, "channel:"@)),
        !(seq_starts_with(ct, "private:"@) && seq_starts_with(ct, "channel:"@)),
{
    reveal_strlit("group:");
    reveal_strlit("private:");
    reveal_strlit("channel:");
    if seq_starts_with(ct, "group:"@) && seq_starts_with(ct, "private:"@) {
        assert(ct[0] == "group:"@[0] && ct[0] == "private:"@[0]);
    }
    if seq_starts_with(ct, "group:"@) && seq_starts_with(ct, "channel:"@) {
        assert(ct[0] == "group:"@[0] && ct[0] == "channel:"@[0]);
    }
    if seq_starts_with(ct, "private:"@) && seq_starts_with(ct, "channel:"@) {
        assert(ct[0] == "private:"@[0] && ct[0] == "channel:"@[0]);
    }
}

/// Routing a channel type: a `group:` channel goes to the group adapter, a
/// `private:` one to the private adapter and a `channel:` one to the channel
/// adapter, when that adapter is configured; otherwise, whatever the
/// prefix, it goes to the default adapter when one is configured, and
/// nowhere when none is. The target is never a broadcast.
pub proof fn lemma_target_kind_then_default(cfg: RouterConfig, ct: Seq<char>)
    ensures
        seq_starts_with(ct, "group:"@) && cfg.group_adapter is Some ==> spec_determine_target(
            cfg,
            ct,
        ) == TargetView::Adapter(cfg.group_adapter.unwrap()@),
        seq_starts_with(ct, "private:"@) && cfg.private_adapter is Some ==> spec_determine_target(
            cfg,
            ct,
        ) == TargetView::Adapter(cfg.private_adapter.unwrap()@),
        seq_starts_with(ct, "channel:"@) && cfg.channel_adapter is Some ==> spec_determine_target(
            cfg,
            ct,
        ) == TargetView::Adapter(cfg.channel_adapter.unwrap()@),
        !(seq_starts_with(ct, "group:"@) && cfg.group_adapter is Some) && !(seq_starts_with(
            ct,
            "private:"@,
        ) && cfg.private_adapter is Some) && !(seq_starts_with(ct, "channel:"@)
            && cfg.channel_adapter is Some) ==> spec_determine_target(cfg, ct) == match cfg.default_adapter {
            Some(d) => TargetView::Adapter(d@),
            None => TargetView::Nothing,
        },
        !(spec_determine_target(cfg, ct) is Broadcast),
{
    lemma_kind_prefixes_exclusive(ct);
}

/// Routing a package: with automatic routing off it goes nowhere; with it
/// on, a package whose events indicate a channel goes where that channel
/// type does, and one whose events indicate none goes to the default
/// adapter, or nowhere when none is configured.
pub proof fn lemma_route_by_channel(cfg: RouterConfig, channel: Option<Seq<char>>)
    ensures
        !cfg.auto_route ==> spec_route_target(cfg, channel) == TargetView::Nothing,
        cfg.auto_route && channel is None ==> spec_route_target(cfg, channel) == match cfg.default_adapter {
            Some(d) => TargetView::Adapter(d@),
            None => TargetView::Nothing,
        },
        cfg.auto_route && channel is Some ==> spec_route_target(cfg, channel)
            == spec_determine_target(cfg, channel.unwrap()),
{
}

/// The route state for a package whose channel type is `channel`.
pub open spec fn spec_route_target(cfg: RouterConfig, channel: Option<Seq<char>>) -> TargetView {
    if !cfg.auto_route {
        TargetView::Nothing
    } else {
        match channel {
            Some(ct) => spec_determine_target(cfg, ct),
            None => match cfg.default_adapter {
                Some(d) => TargetView::Adapter(d@),
                None => TargetView::Nothing,
            },
        }
    }
}

/// The channel type recorded in the route state.
pub open spec fn spec_route_channel(cfg: RouterConfig, channel: Option<Seq<char>>) -> Option<Seq<char>> {
    if cfg.auto_route {
        channel
    } else {
        None
    }
}

/// Routes packages by the ids their events carry.
#[derive(Debug)]
pub struct StandardRouter {
    router_id: String,
    config: RouterConfig,
}

impl StandardRouter {
    pub closed spec fn spec_id(&self) -> Seq<char> {
        self.router_id@
    }

    pub closed spec fn spec_config(&self) -> RouterConfig {
        self.config
    }

    /// A router named `standard_router` with the default configuration.
    pub fn new() -> (r: Self)
        ensures
            r.spec_id() == "standard_router"@,
            r.spec_config().auto_route,
            r.spec_config().auto_initialize,
            r.spec_config().default_adapter is None,
            r.spec_config().group_adapter is None,
            r.spec_config().private_adapter is None,
            r.spec_config().channel_adapter is None,
    {
        StandardRouter { router_id: String::from_str("standard_router"), config: RouterConfig::new() }
    }

    /// A router with a custom id and the default configuration.
    pub fn with_id(router_id: String) -> (r: Self)
        ensures
            r.spec_id() == router_id@,
            r.spec_config().auto_route,
            r.spec_config().auto_initialize,
            r.spec_config().default_adapter is None,
            r.spec_config().group_adapter is None,
            r.spec_config().private_adapter is None,
            r.spec_config().channel_adapter is None,
    {
        StandardRouter { router_id, config: RouterConfig::new() }
    }

    /// A router named `standard_router` with a custom configuration.
    pub fn with_config(config: RouterConfig) -> (r: Self)
        ensures
            r.spec_id() == "standard_router"@,
            r.spec_config() == config,
    {
        StandardRouter { router_id: String::from_str("standard_router"), config }
    }

    fn channel_in_events(events: &Vec<EventEnum>) -> (r: Option<String>)
        ensures
            opt_view(r) == first_in_events(events@),
    {
        let n = events.len();
        let mut i: usize = 0;
        assert(events@.skip(0) =~= events@);
        while i < n
            invariant
                n == events@.len(),
                i <= n,
                first_in_events(events@) == first_in_events(events@.skip(i as int)),
            decreases n - i,
        {
            let e = &events[i];
            assert(events@.skip(i as int)[0] == events@[i as int]);
            if let Some(g) = e.group_id() {
                return Some(concat2("group:", g));
            }
            if let Some(u) = e.user_id() {
                return Some(concat2("private:", u));
            }
            assert(events@.skip(i as int).drop_first() =~= events@.skip(i + 1));
            i = i + 1;
        }
        assert(events@.skip(n as int) =~= Seq::<EventEnum>::empty());
        None
    }

    fn channel_in_groups(groups: &Vec<Group>) -> (r: Option<String>)
        ensures
            opt_view(r) == first_in_groups(groups@),
    {
        let n = groups.len();
        let mut i: usize = 0;
        assert(groups@.skip(0) =~= groups@);
        while i < n
            invariant
                n == groups@.len(),
                i <= n,
                first_in_groups(groups@) == first_in_groups(groups@.skip(i as int)),
            decreases n - i,
        {
            assert(groups@.skip(i as int)[0] == groups@[i as int]);
            let found = Self::channel_in_events(&groups[i].events);
            if found.is_some() {
                return found;
            }
            assert(groups@.skip(i as int).drop_first() =~= groups@.skip(i + 1));
            i = i + 1;
        }
        assert(groups@.skip(n as int) =~= Seq::<Group>::empty());
        None
    }

    /// The channel type of the package: `group:<id>` or `private:<id>` from its
    /// first event (in block, group and event order) that reports a group or a user.
    /// (Events carry no channel id: their serialized form holds none at top level.)
    pub fn extract_channel_type(&self, package: &Package) -> (r: Option<String>)
        ensures
            opt_view(r) == package_channel(*package),
    {
        let blocks = &package.blocks;
        let n = blocks.len();
        let mut i: usize = 0;
        assert(blocks@.skip(0) =~= blocks@);
        while i < n
            invariant
                blocks@ == package.blocks@,
                n == blocks@.len(),
                i <= n,
                first_in_blocks(blocks@) == first_in_blocks(blocks@.skip(i as int)),
            decreases n - i,
        {
            assert(blocks@.skip(i as int)[0] == blocks@[i as int]);
            let found = Self::channel_in_groups(&blocks[i].groups);
            if found.is_some() {
                assert(first_in_blocks(blocks@.skip(i as int)) == first_in_groups(blocks@[i as int].groups@));
                return found;
            }
            assert(blocks@.skip(i as int).drop_first() =~= blocks@.skip(i + 1));
            i = i + 1;
        }
        assert(blocks@.skip(n as int) =~= Seq::<Block>::empty());
        None
    }

    /// The route target for a channel type under this router's configuration.
    pub fn determine_target(&self, channel_type: &str) -> (r: RouteTarget)
        ensures
            r@ == spec_determine_target(self.spec_config(), channel_type@),
    {
        let specific = if starts_with(channel_type, "group:") {
            &self.config.group_adapter
        } else if starts_with(channel_type, "private:") {
            &self.config.private_adapter
        } else if starts_with(channel_type, "channel:") {
            &self.config.channel_adapter
        } else {
            &None
        };
        match specific {
            Some(a) => RouteTarget::Adapter(a.clone()),
            None => match &self.config.default_adapter {
                Some(d) => RouteTarget::Adapter(d.clone()),
                None => RouteTarget::NoTarget,
            },
        }
    }

    /// The routing result for a package whose channel type is `channel`.
    pub fn route_channel(&self, channel: Option<String>) -> (r: RouteResult)
        ensures
            r.success,
            r.state.initialized == self.spec_config().auto_initialize,
            r.state.adapter_target@ == spec_route_target(self.spec_config(), opt_view(channel)),
            opt_view(r.state.channel_type) == spec_route_channel(self.spec_config(), opt_view(channel)),
    {
        let mut state = RouteState::new();
        if self.config.auto_initialize {
            state = state.with_initialized();
        }
        if !self.config.auto_route {
            return RouteResult::success(state);
        }
        match channel {
            Some(ct) => {
                let target = self.determine_target(ct.as_str());
                state = state.with_adapter_target(target).with_channel_type(ct.as_str());
                RouteResult::success(state)
            },
            None => {
                if let Some(adapter) = &self.config.default_adapter {
                    state = state.with_adapter_target(RouteTarget::Adapter(adapter.clone()));
                }
                RouteResult::success(state)
            },
        }
    }
}

/// Whether `result` is how a standard router configured with `config` routes
/// `package`.
pub open spec fn standard_routes(config: RouterConfig, package: Package, result: RouteResult) -> bool {
    &&& result.success
    &&& result.state.initialized == config.auto_initialize
    &&& result.state.adapter_target@ == spec_route_target(config, package_channel(package))
    &&& opt_view(result.state.channel_type) == spec_route_channel(config, package_channel(package))
}

impl Router for StandardRouter {
    open spec fn configured(&self) -> RouterConfig {
        self.spec_config()
    }

    open spec fn accepts(&self, config: RouterConfig) -> bool {
        true
    }

    fn router_id(&self) -> (r: &str)
        ensures
            r@ == self.spec_id(),
    {
        self.router_id.as_str()
    }

    fn config(&self) -> (r: &RouterConfig)
        ensures
            *r == self.spec_config(),
    {
        &self.config
    }

    fn set_config(&mut self, config: RouterConfig) -> (r: Result<(), LoquatError>)
        ensures
            r is Ok,
            final(self).spec_config() == config,
            final(self).spec_id() == old(self).spec_id(),
    {
        self.config = config;
        Ok(())
    }

    /// Routes by the package's channel type (see `extract_channel_type`).
    fn route_package(&self, package: &Package) -> (r: RouteResult)
        ensures
            r.success,
            r.state.initialized == self.spec_config().auto_initialize,
            r.state.adapter_target@ == spec_route_target(self.spec_config(), package_channel(*package)),
            opt_view(r.state.channel_type) == spec_route_channel(
                self.spec_config(),
                package_channel(*package),
            ),
    {
        let channel = if self.config.auto_route {
            self.extract_channel_type(package)
        } else {
            None
        };
        self.route_channel(channel)
    }

    /// One result per package, in order, each as `route_package` gives it.
    fn route_batch(&self, packages: &[Package]) -> (r: Vec<RouteResult>)
        ensures
            r@.len() == packages@.len(),
            forall|i: int|
                0 <= i < packages@.len() ==> standard_routes(
                    self.spec_config(),
                    packages@[i],
                    #[trigger] r@[i],
                ),
    {
        let mut results: Vec<RouteResult> = Vec::new();
        let n = packages.len();
        let mut i: usize = 0;
        while i < n
            invariant
                n == packages@.len(),
                i <= n,
                results@.len() == i,
                forall|j: int|
                    0 <= j < i ==> standard_routes(
                        self.spec_config(),
                        packages@[j],
                        #[trigger] results@[j],
                    ),
            decreases n - i,
        {
            results.push(self.route_package(&packages[i]));
            i = i + 1;
        }
        results
    }

    fn is_enabled(&self) -> (r: bool)
        ensures
            r == self.spec_config().auto_route,
    {
        self.config.auto_route
    }
}

} // verus!
