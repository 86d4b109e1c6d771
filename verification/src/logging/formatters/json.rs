//! JSON entry formatting.

use vstd::prelude::*;
use crate::json::{
    json_object_pretty_text, json_object_text, json_quote, json_string_text,
    render_object, render_object_pretty, JsonMap,
};
use crate::logging::traits::{level_name, level_rank, LogEntry, LogFormatter, LogLevel, RequestInfo};
use crate::text::opt_view;
use crate::time::{chrono_rfc3339, decimal_string, int_decimal};

verus! {

/// A member holding the JSON string of `v`, when there is a `v`.
pub open spec fn opt_string_member(key: Seq<char>, v: Option<Seq<char>>) -> Seq<
    (Seq<char>, Seq<char>),
> {
    match v {
        Some(x) => seq![(key, json_string_text(x))],
        None => Seq::empty(),
    }
}

/// The members of the `request` object.
pub open spec fn request_members(r: RequestInfo) -> Seq<(Seq<char>, Seq<char>)> {
    seq![
        ("method"@, json_string_text(r.method@)),
        ("path"@, json_string_text(r.path@)),
        ("user_agent"@, json_string_text(
            match opt_view(r.user_agent) {
                Some(u) => u,
                None => Seq::empty(),
            },
        )),
        ("remote_addr"@, json_string_text(
            match opt_view(r.remote_addr) {
                Some(a) => a,
                None => Seq::empty(),
            },
        )),
    ]
}

/// The `request` member, when the context has a request.
pub open spec fn request_member(e: LogEntry) -> Seq<(Seq<char>, Seq<char>)> {
    if e.context.request_info is Some {
        seq![("request"@, json_object_text(request_members(e.context.request_info.unwrap())))]
    } else {
        Seq::empty()
    }
}

/// The `metadata` member, when asked for and there is metadata.
pub open spec fn metadata_member(include_metadata: bool, e: LogEntry) -> Seq<(Seq<char>, Seq<char>)> {
    if include_metadata && e.context.metadata@.len() > 0 {
        seq![("metadata"@, json_object_text(e.context.metadata@))]
    } else {
        Seq::empty()
    }
}

/// The `line` member, when the entry has a line.
pub open spec fn line_member(e: LogEntry) -> Seq<(Seq<char>, Seq<char>)> {
    match e.line {
        Some(l) => seq![("line"@, int_decimal(l as int))],
        None => Seq::empty(),
    }
}

/// The first three members: time stamp, level and message.
pub open spec fn base_members(e: LogEntry) -> Seq<(Seq<char>, Seq<char>)> {
    seq![
        ("timestamp"@, json_string_text(chrono_rfc3339(e.timestamp.spec_secs(), e.timestamp.spec_nanos()))),
        ("level"@, json_string_text(level_name(e.level))),
        ("message"@, json_string_text(e.message@)),
    ]
}

/// The context members: correlation id, user id, session id, component,
/// request and metadata, as far as present.
pub open spec fn context_members(include_metadata: bool, e: LogEntry) -> Seq<(Seq<char>, Seq<char>)> {
    opt_string_member("correlation_id"@, opt_view(e.context.correlation_id)) + opt_string_member(
        "user_id"@,
        opt_view(e.context.user_id),
    ) + opt_string_member("session_id"@, opt_view(e.context.session_id)) + opt_string_member(
        "component"@,
        opt_view(e.context.component),
    ) + request_member(e) + metadata_member(include_metadata, e)
}

/// The location members: module, file and line, as far as present.
pub open spec fn location_members(e: LogEntry) -> Seq<(Seq<char>, Seq<char>)> {
    opt_string_member("module"@, opt_view(e.module)) + opt_string_member("file"@, opt_view(e.file))
        + line_member(e)
}

/// The members of the JSON object of an entry, in the order they are set.
pub open spec fn entry_members(include_metadata: bool, e: LogEntry) -> Seq<(Seq<char>, Seq<char>)> {
    base_members(e) + context_members(include_metadata, e) + location_members(e)
}

/// A member of either part is a member of the two parts joined.
proof fn lemma_member_in_concat(
    a: Seq<(Seq<char>, Seq<char>)>,
    b: Seq<(Seq<char>, Seq<char>)>,
    x: (Seq<char>, Seq<char>),
)
    ensures
        a.contains(x) ==> (a + b).contains(x),
        b.contains(x) ==> (a + b).contains(x),
{
    if a.contains(x) {
        let i = choose|i: int| 0 <= i < a.len() && a[i] == x;
        assert((a + b)[i] == x);
    }
    if b.contains(x) {
        let i = choose|i: int| 0 <= i < b.len() && b[i] == x;
        assert((a + b)[a.len() + i] == x);
    }
}

/// The JSON object of an entry always has `timestamp` (RFC 3339 text),
/// `level` (the level's name) and `message`, each as a JSON string; it has
/// `correlation_id`, `user_id`, `session_id`, `component`, `module` and
/// `file` as JSON strings exactly when those fields are set (present when
/// set), `line` as a number when there is a line, and a `request` object
/// when the context has a request.
pub proof fn lemma_entry_members(m: bool, e: LogEntry)
    ensures
        ({
            let s = entry_members(m, e);
            &&& s.contains(("timestamp"@, json_string_text(chrono_rfc3339(e.timestamp.spec_secs(), e.timestamp.spec_nanos()))))
            &&& s.contains(("level"@, json_string_text(level_name(e.level))))
            &&& s.contains(("message"@, json_string_text(e.message@)))
            &&& e.context.correlation_id is Some ==> s.contains(("correlation_id"@, json_string_text(e.context.correlation_id.unwrap()@)))
            &&& e.context.user_id is Some ==> s.contains(("user_id"@, json_string_text(e.context.user_id.unwrap()@)))
            &&& e.context.session_id is Some ==> s.contains(("session_id"@, json_string_text(e.context.session_id.unwrap()@)))
            &&& e.context.component is Some ==> s.contains(("component"@, json_string_text(e.context.component.unwrap()@)))
            &&& e.context.request_info is Some ==> s.contains(("request"@, json_object_text(request_members(e.context.request_info.unwrap()))))
            &&& e.module is Some ==> s.contains(("module"@, json_string_text(e.module.unwrap()@)))
            &&& e.file is Some ==> s.contains(("file"@, json_string_text(e.file.unwrap()@)))
            &&& e.line is Some ==> s.contains(("line"@, int_decimal(e.line.unwrap() as int)))
        }),
{
    let base = base_members(e);
    let c1 = opt_string_member("correlation_id"@, opt_view(e.context.correlation_id));
    let c2 = opt_string_member("user_id"@, opt_view(e.context.user_id));
    let c3 = opt_string_member("session_id"@, opt_view(e.context.session_id));
    let c4 = opt_string_member("component"@, opt_view(e.context.component));
    let c5 = request_member(e);
    let c6 = metadata_member(m, e);
    let l1 = opt_string_member("module"@, opt_view(e.module));
    let l2 = opt_string_member("file"@, opt_view(e.file));
    let l3 = line_member(e);
    let ctx = c1 + c2 + c3 + c4 + c5 + c6;
    let loc = l1 + l2 + l3;
    assert(entry_members(m, e) == base + ctx + loc);
    assert forall|x: (Seq<char>, Seq<char>)|
        base.contains(x) || c1.contains(x) || c2.contains(x) || c3.contains(x) || c4.contains(x)
            || c5.contains(x) || c6.contains(x) || l1.contains(x) || l2.contains(x) || l3.contains(x)
        implies #[trigger] entry_members(m, e).contains(x) by {
        lemma_member_in_concat(c1, c2, x);
        lemma_member_in_concat(c1 + c2, c3, x);
        lemma_member_in_concat(c1 + c2 + c3, c4, x);
        lemma_member_in_concat(c1 + c2 + c3 + c4, c5, x);
        lemma_member_in_concat(c1 + c2 + c3 + c4 + c5, c6, x);
        lemma_member_in_concat(l1, l2, x);
        lemma_member_in_concat(l1 + l2, l3, x);
        lemma_member_in_concat(base, ctx, x);
        lemma_member_in_concat(base + ctx, loc, x);
    }
    assert(base[0].0 == "timestamp"@ && base[1].0 == "level"@ && base[2].0 == "message"@);
    assert(base.contains(base[0]) && base.contains(base[1]) && base.contains(base[2]));
    if e.context.correlation_id is Some { assert(c1.contains(c1[0])); }
    if e.context.user_id is Some { assert(c2.contains(c2[0])); }
    if e.context.session_id is Some { assert(c3.contains(c3[0])); }
    if e.context.component is Some { assert(c4.contains(c4[0])); }
    if e.context.request_info is Some { assert(c5.contains(c5[0])); }
    if e.module is Some { assert(l1.contains(l1[0])); }
    if e.file is Some { assert(l2.contains(l2[0])); }
    if e.line is Some { assert(l3.contains(l3[0])); }
}

/// Every key of `s` is one of `keys`.
pub open spec fn keys_among(s: Seq<(Seq<char>, Seq<char>)>, keys: Seq<Seq<char>>) -> bool {
    forall|i: int| 0 <= i < s.len() ==> keys.contains(#[trigger] s[i].0)
}

/// A key that is none of `keys` is absent from members whose keys are among `keys`.
proof fn lemma_key_absent(s: Seq<(Seq<char>, Seq<char>)>, keys: Seq<Seq<char>>, key: Seq<char>)
    requires
        keys_among(s, keys),
        !keys.contains(key),
    ensures
        forall|i: int| 0 <= i < s.len() ==> s[i].0 != key,
{
    assert forall|i: int| 0 <= i < s.len() implies s[i].0 != key by {
        assert(keys.contains(s[i].0));
    }
}

/// Append the member `(key, json)` to `m`, which lacks `key`.
fn push_member(m: &mut JsonMap, key: &str, json: String)
    requires
        forall|i: int| 0 <= i < old(m)@.len() ==> old(m)@[i].0 != key@,
    ensures
        final(m)@ == old(m)@.push((key@, json@)),
{
    m.set(key, json.as_str());
}

/// Append a member holding the JSON string of `v`, when there is a `v`.
fn push_opt_string(m: &mut JsonMap, key: &str, v: &Option<String>)
    requires
        forall|i: int| 0 <= i < old(m)@.len() ==> old(m)@[i].0 != key@,
    ensures
        final(m)@ == old(m)@ + opt_string_member(key@, opt_view(*v)),
{
    match v {
        Some(x) => {
            let q = json_quote(x.as_str());
            push_member(m, key, q);
            assert(final(m)@ =~= old(m)@ + opt_string_member(key@, opt_view(*v)));
        },
        None => {
            assert(old(m)@ + opt_string_member(key@, opt_view(*v)) =~= old(m)@);
        },
    }
}

/// The JSON string of an optional text, empty when absent.
fn quote_or_empty(o: &Option<String>) -> (r: String)
    ensures
        r@ == json_string_text(
            match opt_view(*o) {
                Some(x) => x,
                None => Seq::empty(),
            },
        ),
{
    match o {
        Some(x) => json_quote(x.as_str()),
        None => {
            proof {
                reveal_strlit("");
            }
            assert(""@ =~= Seq::<char>::empty());
            json_quote("")
        },
    }
}

/// Render the request of an entry as a JSON object.
fn request_json(req: &RequestInfo) -> (r: String)
    ensures
        r@ == json_object_text(request_members(*req)),
{
    proof {
        reveal_strlit("method");
        reveal_strlit("path");
        reveal_strlit("user_agent");
        reveal_strlit("remote_addr");
    }
    let mut m = JsonMap::new();
    push_member(&mut m, "method", json_quote(req.method.as_str()));
    assert(m@[0].0 == "method"@ && m@.len() == 1);
    assert("method"@.len() != "path"@.len());
    push_member(&mut m, "path", json_quote(req.path.as_str()));
    assert(m@[0].0 == "method"@ && m@[1].0 == "path"@ && m@.len() == 2);
    let ua = quote_or_empty(&req.user_agent);
    assert("method"@.len() != "user_agent"@.len() && "path"@.len() != "user_agent"@.len());
    push_member(&mut m, "user_agent", ua);
    let ra = quote_or_empty(&req.remote_addr);
    assert(m@[2].0 == "user_agent"@ && m@.len() == 3);
    assert("method"@.len() != "remote_addr"@.len() && "path"@.len() != "remote_addr"@.len()
        && "user_agent"@.len() != "remote_addr"@.len());
    push_member(&mut m, "remote_addr", ra);
    assert(m@ =~= request_members(*req));
    render_object(&m)
}

/// Append a member holding the JSON string of `v` when there is a `v`, the
/// keys of `m` staying among `keys` plus `key`.
fn push_opt_among(m: &mut JsonMap, key: &str, v: &Option<String>, Ghost(keys): Ghost<Seq<Seq<char>>>)
    requires
        keys_among(old(m)@, keys),
        !keys.contains(key@),
    ensures
        final(m)@ == old(m)@ + opt_string_member(key@, opt_view(*v)),
        keys_among(final(m)@, keys.push(key@)),
{
    proof {
        lemma_key_absent(old(m)@, keys, key@);
    }
    push_opt_string(m, key, v);
    proof {
        lemma_keys_among_push(old(m)@, final(m)@, keys, key@);
    }
}

/// Members that grew by members keyed `key` keep their keys among `keys` plus `key`.
proof fn lemma_keys_among_push(
    s: Seq<(Seq<char>, Seq<char>)>,
    t: Seq<(Seq<char>, Seq<char>)>,
    keys: Seq<Seq<char>>,
    key: Seq<char>,
)
    requires
        keys_among(s, keys),
        t.len() >= s.len(),
        forall|i: int| 0 <= i < s.len() ==> t[i] == s[i],
        forall|i: int| s.len() <= i < t.len() ==> t[i].0 == key,
    ensures
        keys_among(t, keys.push(key)),
{
    let k2 = keys.push(key);
    assert forall|i: int| 0 <= i < t.len() implies k2.contains(#[trigger] t[i].0) by {
        if i < s.len() {
            assert(keys.contains(s[i].0));
            let j = choose|j: int| 0 <= j < keys.len() && keys[j] == s[i].0;
            assert(k2[j] == t[i].0);
        } else {
            assert(k2[keys.len() as int] == t[i].0);
        }
    }
}

/// A formatter of entries as JSON objects.
#[derive(Debug, Clone, Copy)]
pub struct JsonFormatter {
    pretty_print: bool,
    include_metadata: bool,
}

impl JsonFormatter {
    /// Whether output is pretty-printed.
    pub closed spec fn spec_pretty_print(&self) -> bool {
        self.pretty_print
    }

    /// Whether metadata is included.
    pub closed spec fn spec_include_metadata(&self) -> bool {
        self.include_metadata
    }

    /// Compact output with metadata.
    pub fn new() -> (r: Self)
        ensures
            !r.spec_pretty_print(),
            r.spec_include_metadata(),
    {
        JsonFormatter { pretty_print: false, include_metadata: true }
    }

    /// Pretty output with metadata.
    pub fn pretty() -> (r: Self)
        ensures
            r.spec_pretty_print(),
            r.spec_include_metadata(),
    {
        JsonFormatter { pretty_print: true, include_metadata: true }
    }

    /// Compact output without metadata.
    pub fn compact() -> (r: Self)
        ensures
            !r.spec_pretty_print(),
            !r.spec_include_metadata(),
    {
        JsonFormatter { pretty_print: false, include_metadata: false }
    }

    /// With or without metadata.
    pub fn with_metadata(self, shown: bool) -> (r: Self)
        ensures
            r.spec_pretty_print() == self.spec_pretty_print(),
            r.spec_include_metadata() == shown,
    {
        JsonFormatter { include_metadata: shown, ..self }
    }

    /// Pretty or compact.
    pub fn with_pretty_print(self, pretty: bool) -> (r: Self)
        ensures
            r.spec_pretty_print() == pretty,
            r.spec_include_metadata() == self.spec_include_metadata(),
    {
        JsonFormatter { pretty_print: pretty, ..self }
    }

    /// The JSON object of an entry.
    pub fn entry_to_json(&self, entry: &LogEntry) -> (r: JsonMap)
        ensures
            r@ == entry_members(self.spec_include_metadata(), *entry),
            keys_among(r@, entry_keys()),
    {
        let mut m = base_json(entry);
        add_context_json(&mut m, entry, self.include_metadata);
        add_location_json(&mut m, entry);
        m
    }

    /// The text of an entry's JSON object, pretty or compact.
    pub fn format_entry(&self, entry: &LogEntry) -> (r: String)
        ensures
            self.spec_pretty_print() ==> r@ == json_object_pretty_text(
                entry_members(self.spec_include_metadata(), *entry),
            ),
            !self.spec_pretty_print() ==> r@ == json_object_text(
                entry_members(self.spec_include_metadata(), *entry),
            ),
    {
        let m = self.entry_to_json(entry);
        if self.pretty_print {
            render_object_pretty(&m)
        } else {
            render_object(&m)
        }
    }
}

impl Default for JsonFormatter {
    fn default() -> (r: Self)
        ensures
            !r.spec_pretty_print(),
            r.spec_include_metadata(),
    {
        Self::new()
    }
}

/// A JSON formatter's output depends on its two settings alone: formatters
/// with the same settings render every entry alike (so a pretty formatter
/// turned compact renders as the default one).
pub proof fn lemma_settings_decide_rendering(
    a: JsonFormatter,
    b: JsonFormatter,
    e: LogEntry,
    t: Seq<char>,
)
    requires
        a.spec_pretty_print() == b.spec_pretty_print(),
        a.spec_include_metadata() == b.spec_include_metadata(),
    ensures
        a.renders(e, t) == b.renders(e, t),
{
}

impl LogFormatter for JsonFormatter {
    open spec fn renders(&self, entry: LogEntry, text: Seq<char>) -> bool {
        let members = entry_members(self.spec_include_metadata(), entry);
        if self.spec_pretty_print() {
            text == json_object_pretty_text(members)
        } else {
            text == json_object_text(members)
        }
    }

    fn format(&self, entry: &LogEntry) -> (r: String)
        ensures
            self.spec_pretty_print() ==> r@ == json_object_pretty_text(
                entry_members(self.spec_include_metadata(), *entry),
            ),
            !self.spec_pretty_print() ==> r@ == json_object_text(
                entry_members(self.spec_include_metadata(), *entry),
            ),
    {
        self.format_entry(entry)
    }
}

/// The keys the members of an entry may have, in order.
pub open spec fn entry_keys() -> Seq<Seq<char>> {
    seq![
        "timestamp"@,
        "level"@,
        "message"@,
        "correlation_id"@,
        "user_id"@,
        "session_id"@,
        "component"@,
        "request"@,
        "metadata"@,
        "module"@,
        "file"@,
        "line"@,
    ]
}

/// The first `n` keys contain no later key.
proof fn lemma_entry_key_fresh(n: int)
    requires
        0 <= n < 12,
    ensures
        !entry_keys().subrange(0, n).contains(entry_keys()[n]),
{
    reveal_strlit("timestamp");
    reveal_strlit("level");
    reveal_strlit("message");
    reveal_strlit("correlation_id");
    reveal_strlit("user_id");
    reveal_strlit("session_id");
    reveal_strlit("component");
    reveal_strlit("request");
    reveal_strlit("metadata");
    reveal_strlit("module");
    reveal_strlit("file");
    reveal_strlit("line");
    let k = entry_keys();
    assert forall|j: int| 0 <= j < n implies k[j] != k[n] by {
        assert(k[j].len() != k[n].len() || k[j][0] != k[n][0] || k[j][1] != k[n][1]);
    }
}

/// The time stamp, level and message members.
fn base_json(entry: &LogEntry) -> (m: JsonMap)
    ensures
        m@ == base_members(*entry),
        keys_among(m@, entry_keys().subrange(0, 3)),
{
    proof {
        reveal_strlit("timestamp");
        reveal_strlit("level");
        reveal_strlit("message");
    }
    let mut m = JsonMap::new();
    push_member(&mut m, "timestamp", json_quote(entry.timestamp.to_rfc3339().as_str()));
    assert(m@[0].0 == "timestamp"@ && m@.len() == 1);
    assert("timestamp"@.len() != "level"@.len());
    push_member(&mut m, "level", json_quote(entry.level.as_str()));
    assert(m@[0].0 == "timestamp"@ && m@[1].0 == "level"@ && m@.len() == 2);
    assert("timestamp"@.len() != "message"@.len() && "level"@.len() != "message"@.len());
    push_member(&mut m, "message", json_quote(entry.message.as_str()));
    assert(m@ =~= base_members(*entry));
    let ghost k = entry_keys().subrange(0, 3);
    assert(k[0] == m@[0].0 && k[1] == m@[1].0 && k[2] == m@[2].0);
    m
}

/// Append the context members.
fn add_context_json(m: &mut JsonMap, entry: &LogEntry, include_metadata: bool)
    requires
        keys_among(old(m)@, entry_keys().subrange(0, 3)),
    ensures
        final(m)@ == old(m)@ + context_members(include_metadata, *entry),
        keys_among(final(m)@, entry_keys().subrange(0, 9)),
{
    let ghost s0 = m@;
    add_ids_json(m, entry);
    let ghost s1 = m@;
    add_request_json(m, entry, include_metadata);
    assert(m@ =~= s0 + context_members(include_metadata, *entry));
}

/// Append the id and component members.
fn add_ids_json(m: &mut JsonMap, entry: &LogEntry)
    requires
        keys_among(old(m)@, entry_keys().subrange(0, 3)),
    ensures
        final(m)@ == old(m)@ + id_members(*entry),
        keys_among(final(m)@, entry_keys().subrange(0, 7)),
{
    let ghost k = entry_keys();
    proof {
        lemma_entry_key_fresh(3);
        reveal_strlit("correlation_id");
        assert(k[3] == "correlation_id"@);
    }
    push_opt_among(m, "correlation_id", &entry.context.correlation_id, Ghost(k.subrange(0, 3)));
    proof {
        assert(k.subrange(0, 3).push(k[3]) =~= k.subrange(0, 4));
        lemma_entry_key_fresh(4);
        reveal_strlit("user_id");
        assert(k[4] == "user_id"@);
    }
    push_opt_among(m, "user_id", &entry.context.user_id, Ghost(k.subrange(0, 4)));
    proof {
        assert(k.subrange(0, 4).push(k[4]) =~= k.subrange(0, 5));
        lemma_entry_key_fresh(5);
        reveal_strlit("session_id");
        assert(k[5] == "session_id"@);
    }
    push_opt_among(m, "session_id", &entry.context.session_id, Ghost(k.subrange(0, 5)));
    proof {
        assert(k.subrange(0, 5).push(k[5]) =~= k.subrange(0, 6));
        lemma_entry_key_fresh(6);
        reveal_strlit("component");
        assert(k[6] == "component"@);
    }
    push_opt_among(m, "component", &entry.context.component, Ghost(k.subrange(0, 6)));
    proof {
        assert(k.subrange(0, 6).push(k[6]) =~= k.subrange(0, 7));
    }
}

/// The id and component members.
pub open spec fn id_members(e: LogEntry) -> Seq<(Seq<char>, Seq<char>)> {
    opt_string_member("correlation_id"@, opt_view(e.context.correlation_id)) + opt_string_member(
        "user_id"@,
        opt_view(e.context.user_id),
    ) + opt_string_member("session_id"@, opt_view(e.context.session_id)) + opt_string_member(
        "component"@,
        opt_view(e.context.component),
    )
}

/// Append the request and metadata members.
fn add_request_json(m: &mut JsonMap, entry: &LogEntry, include_metadata: bool)
    requires
        keys_among(old(m)@, entry_keys().subrange(0, 7)),
    ensures
        final(m)@ == old(m)@ + request_member(*entry) + metadata_member(include_metadata, *entry),
        keys_among(final(m)@, entry_keys().subrange(0, 9)),
{
    let ghost k = entry_keys();
    let ghost before_req = m@;
    proof {
        lemma_entry_key_fresh(7);
        reveal_strlit("request");
        assert(k[7] == "request"@);
        lemma_key_absent(m@, k.subrange(0, 7), "request"@);
    }
    if let Some(req) = &entry.context.request_info {
        let rj = request_json(req);
        push_member(m, "request", rj);
    }
    proof {
        assert(m@ =~= before_req + request_member(*entry));
        lemma_keys_among_push(before_req, m@, k.subrange(0, 7), "request"@);
        assert(k.subrange(0, 7).push(k[7]) =~= k.subrange(0, 8));
        lemma_entry_key_fresh(8);
        reveal_strlit("metadata");
        assert(k[8] == "metadata"@);
        lemma_key_absent(m@, k.subrange(0, 8), "metadata"@);
    }
    let ghost before_meta = m@;
    if include_metadata && !entry.context.metadata.is_empty() {
        let mj = render_object(&entry.context.metadata);
        push_member(m, "metadata", mj);
    }
    proof {
        assert(m@ =~= before_meta + metadata_member(include_metadata, *entry));
        lemma_keys_among_push(before_meta, m@, k.subrange(0, 8), "metadata"@);
        assert(k.subrange(0, 8).push(k[8]) =~= k.subrange(0, 9));
    }
}

/// Append the location members.
fn add_location_json(m: &mut JsonMap, entry: &LogEntry)
    requires
        keys_among(old(m)@, entry_keys().subrange(0, 9)),
    ensures
        final(m)@ == old(m)@ + location_members(*entry),
        keys_among(final(m)@, entry_keys()),
{
    let ghost k = entry_keys();
    proof {
        lemma_entry_key_fresh(9);
        reveal_strlit("module");
        assert(k[9] == "module"@);
    }
    push_opt_among(m, "module", &entry.module, Ghost(k.subrange(0, 9)));
    proof {
        assert(k.subrange(0, 9).push(k[9]) =~= k.subrange(0, 10));
        lemma_entry_key_fresh(10);
        reveal_strlit("file");
        assert(k[10] == "file"@);
    }
    push_opt_among(m, "file", &entry.file, Ghost(k.subrange(0, 10)));
    let ghost before_line = m@;
    proof {
        assert(k.subrange(0, 10).push(k[10]) =~= k.subrange(0, 11));
        lemma_entry_key_fresh(11);
        reveal_strlit("line");
        assert(k[11] == "line"@);
        lemma_key_absent(m@, k.subrange(0, 11), "line"@);
    }
    if let Some(line) = entry.line {
        let lj = decimal_string(line as i64);
        push_member(m, "line", lj);
    }
    assert(m@ =~= before_line + line_member(*entry));
    proof {
        lemma_keys_among_push(before_line, m@, k.subrange(0, 11), "line"@);
        assert(k.subrange(0, 11).push(k[11]) =~= k);
    }
    assert(m@ =~= old(m)@ + location_members(*entry));
}

/// The `performance` member: the entry's time in milliseconds and its level's rank.
pub open spec fn performance_member(e: LogEntry) -> Seq<(Seq<char>, Seq<char>)> {
    seq![
        ("performance"@, json_object_text(
            seq![
                ("timestamp_ms"@, int_decimal(e.timestamp.spec_millis())),
                ("level_priority"@, int_decimal(level_rank(e.level) as int)),
            ],
        )),
    ]
}

/// The `error` member that marks error entries.
pub open spec fn error_member() -> Seq<(Seq<char>, Seq<char>)> {
    seq![
        ("error"@, json_object_text(
            seq![
                ("severity"@, json_string_text("high"@)),
                ("type"@, json_string_text("application_error"@)),
                ("requires_action"@, "true"@),
            ],
        )),
    ]
}

/// The members of an enhanced entry object: the base members, then the
/// performance member when asked for, then the error member for error
/// entries when asked for.
pub open spec fn enhanced_members(
    include_metadata: bool,
    perf: bool,
    details: bool,
    e: LogEntry,
) -> Seq<(Seq<char>, Seq<char>)> {
    entry_members(include_metadata, e) + (if perf {
        performance_member(e)
    } else {
        Seq::empty()
    }) + (if details && e.level == LogLevel::Error {
        error_member()
    } else {
        Seq::empty()
    })
}

/// A JSON formatter that adds performance figures and marks errors.
#[derive(Debug, Clone, Copy)]
pub struct EnhancedJsonFormatter {
    base: JsonFormatter,
    include_performance_metrics: bool,
    include_error_details: bool,
}

impl EnhancedJsonFormatter {
    /// The underlying formatter.
    pub closed spec fn spec_base(&self) -> JsonFormatter {
        self.base
    }

    /// Whether performance figures are added.
    pub closed spec fn spec_performance(&self) -> bool {
        self.include_performance_metrics
    }

    /// Whether error entries are marked.
    pub closed spec fn spec_error_details(&self) -> bool {
        self.include_error_details
    }

    /// Compact output with metadata, performance figures and error marks.
    pub fn new() -> (r: Self)
        ensures
            !r.spec_base().spec_pretty_print(),
            r.spec_base().spec_include_metadata(),
            r.spec_performance(),
            r.spec_error_details(),
    {
        EnhancedJsonFormatter {
            base: JsonFormatter::new(),
            include_performance_metrics: true,
            include_error_details: true,
        }
    }

    /// With or without performance figures.
    pub fn with_performance_metrics(self, shown: bool) -> (r: Self)
        ensures
            r.spec_base() == self.spec_base(),
            r.spec_performance() == shown,
            r.spec_error_details() == self.spec_error_details(),
    {
        EnhancedJsonFormatter { include_performance_metrics: shown, ..self }
    }

    /// With or without error marks.
    pub fn with_error_details(self, shown: bool) -> (r: Self)
        ensures
            r.spec_base() == self.spec_base(),
            r.spec_performance() == self.spec_performance(),
            r.spec_error_details() == shown,
    {
        EnhancedJsonFormatter { include_error_details: shown, ..self }
    }

    /// The members of the object for `entry`.
    pub fn entry_members_json(&self, entry: &LogEntry) -> (r: JsonMap)
        ensures
            r@ == enhanced_members(
                self.spec_base().spec_include_metadata(),
                self.spec_performance(),
                self.spec_error_details(),
                *entry,
            ),
    {
        let mut m = self.base.entry_to_json(entry);
        let ghost base = m@;
        proof {
            reveal_strlit("performance");
            reveal_strlit("error");
            reveal_strlit("timestamp");
            reveal_strlit("level");
            reveal_strlit("message");
            reveal_strlit("correlation_id");
            reveal_strlit("user_id");
            reveal_strlit("session_id");
            reveal_strlit("component");
            reveal_strlit("request");
            reveal_strlit("metadata");
            reveal_strlit("module");
            reveal_strlit("file");
            reveal_strlit("line");
            let k = entry_keys();
            assert forall|j: int| 0 <= j < k.len() implies k[j] != "performance"@ && k[j] != "error"@ by {
                assert(k[j].len() != "performance"@.len() || k[j][0] != "performance"@[0]);
                assert(k[j].len() != "error"@.len() || k[j][0] != "error"@[0]);
            }
            lemma_key_absent(m@, k, "performance"@);
            lemma_key_absent(m@, k, "error"@);
        }
        if self.include_performance_metrics {
            let p = performance_json(entry);
            push_member(&mut m, "performance", p);
        }
        let ghost with_perf = m@;
        assert(with_perf =~= base + (if self.include_performance_metrics {
            performance_member(*entry)
        } else {
            Seq::empty()
        }));
        let is_error = match entry.level {
            LogLevel::Error => true,
            _ => false,
        };
        if self.include_error_details && is_error {
            proof {
                assert forall|i: int| 0 <= i < m@.len() implies m@[i].0 != "error"@ by {
                    if i < base.len() {
                    } else {
                        assert(m@[i].0 == "performance"@);
                        assert("performance"@.len() != "error"@.len());
                    }
                }
            }
            let e = error_json();
            push_member(&mut m, "error", e);
        }
        assert(m@ =~= enhanced_members(
            self.base.spec_include_metadata(),
            self.include_performance_metrics,
            self.include_error_details,
            *entry,
        ));
        m
    }
}

/// Render the performance object of an entry.
fn performance_json(entry: &LogEntry) -> (r: String)
    ensures
        r@ == json_object_text(
            seq![
                ("timestamp_ms"@, int_decimal(entry.timestamp.spec_millis())),
                ("level_priority"@, int_decimal(level_rank(entry.level) as int)),
            ],
        ),
{
    proof {
        reveal_strlit("timestamp_ms");
        reveal_strlit("level_priority");
    }
    let mut m = JsonMap::new();
    push_member(&mut m, "timestamp_ms", decimal_string(entry.timestamp.timestamp_millis()));
    assert(m@[0].0 == "timestamp_ms"@ && m@.len() == 1);
    assert("timestamp_ms"@.len() != "level_priority"@.len());
    push_member(&mut m, "level_priority", decimal_string(entry.level.rank() as i64));
    assert(m@ =~= seq![
        ("timestamp_ms"@, int_decimal(entry.timestamp.spec_millis())),
        ("level_priority"@, int_decimal(level_rank(entry.level) as int)),
    ]);
    render_object(&m)
}

/// Render the object that marks an error entry.
fn error_json() -> (r: String)
    ensures
        r@ == json_object_text(
            seq![
                ("severity"@, json_string_text("high"@)),
                ("type"@, json_string_text("application_error"@)),
                ("requires_action"@, "true"@),
            ],
        ),
{
    proof {
        reveal_strlit("severity");
        reveal_strlit("type");
        reveal_strlit("requires_action");
    }
    let mut m = JsonMap::new();
    push_member(&mut m, "severity", json_quote("high"));
    assert(m@[0].0 == "severity"@ && m@.len() == 1);
    assert("severity"@.len() != "type"@.len());
    push_member(&mut m, "type", json_quote("application_error"));
    assert(m@[0].0 == "severity"@ && m@[1].0 == "type"@ && m@.len() == 2);
    assert("severity"@.len() != "requires_action"@.len() && "type"@.len() != "requires_action"@.len());
    push_member(&mut m, "requires_action", String::from_str("true"));
    assert(m@ =~= seq![
        ("severity"@, json_string_text("high"@)),
        ("type"@, json_string_text("application_error"@)),
        ("requires_action"@, "true"@),
    ]);
    render_object(&m)
}

impl Default for EnhancedJsonFormatter {
    fn default() -> (r: Self)
        ensures
            !r.spec_base().spec_pretty_print(),
            r.spec_base().spec_include_metadata(),
            r.spec_performance(),
            r.spec_error_details(),
    {
        Self::new()
    }
}

impl LogFormatter for EnhancedJsonFormatter {
    open spec fn renders(&self, entry: LogEntry, text: Seq<char>) -> bool {
        let members = enhanced_members(
            self.spec_base().spec_include_metadata(),
            self.spec_performance(),
            self.spec_error_details(),
            entry,
        );
        if self.spec_base().spec_pretty_print() {
            text == json_object_pretty_text(members)
        } else {
            text == json_object_text(members)
        }
    }

    fn format(&self, entry: &LogEntry) -> (r: String)
        ensures
            self.spec_base().spec_pretty_print() ==> r@ == json_object_pretty_text(
                enhanced_members(
                    self.spec_base().spec_include_metadata(),
                    self.spec_performance(),
                    self.spec_error_details(),
                    *entry,
                ),
            ),
            !self.spec_base().spec_pretty_print() ==> r@ == json_object_text(
                enhanced_members(
                    self.spec_base().spec_include_metadata(),
                    self.spec_performance(),
                    self.spec_error_details(),
                    *entry,
                ),
            ),
    {
        let m = self.entry_members_json(entry);
        if self.base.pretty_print {
            render_object_pretty(&m)
        } else {
            render_object(&m)
        }
    }
}

} // verus!
