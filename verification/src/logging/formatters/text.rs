//! Human-readable entry formatting.

use vstd::prelude::*;
use crate::json::JsonMap;
use crate::logging::traits::{level_name, LogEntry, LogFormatter, LogLevel};
use crate::text::{opt_as_str, opt_view};
use crate::time::{chrono_format, Timestamp};

verus! {

/// `parts` joined with `sep` between each two.
pub open spec fn join(parts: Seq<Seq<char>>, sep: Seq<char>) -> Seq<char>
    decreases parts.len(),
{
    if parts.len() == 0 {
        Seq::empty()
    } else if parts.len() == 1 {
        parts[0]
    } else {
        join(parts.drop_last(), sep) + sep + parts.last()
    }
}

/// The views of a sequence of strings.
pub open spec fn views(s: Seq<String>) -> Seq<Seq<char>> {
    s.map_values(|x: String| x@)
}

/// The strings of `parts` joined with `sep`.
pub fn join_strings(parts: &Vec<String>, sep: &str) -> (r: String)
    ensures
        r@ == join(views(parts@), sep@),
{
    let n = parts.len();
    let mut out = String::new();
    let mut i: usize = 0;
    while i < n
        invariant
            n == parts@.len(),
            i <= n,
            out@ == join(views(parts@).subrange(0, i as int), sep@),
        decreases n - i,
    {
        let ghost before = out@;
        if i > 0 {
            out.append(sep);
        }
        out.append(parts[i].as_str());
        proof {
            let v = views(parts@);
            let s = v.subrange(0, i + 1);
            assert(s.drop_last() =~= v.subrange(0, i as int));
            assert(s.last() == parts@[i as int]@);
            if i == 0 {
                assert(out@ =~= join(s, sep@));
            } else {
                assert(out@ =~= before + sep@ + parts@[i as int]@);
            }
        }
        i = i + 1;
    }
    proof {
        assert(views(parts@).subrange(0, n as int) =~= views(parts@));
    }
    out
}

/// The layouts of a text line.
#[derive(Debug, Clone, Copy, PartialEq, Eq, Structural)]
pub enum TextFormatType {
    Simple,
    Detailed,
    Compact,
    Full,
}

/// The strftime pattern of each layout's time stamp (none for Simple).
pub open spec fn timestamp_pattern(t: TextFormatType) -> Seq<char> {
    match t {
        TextFormatType::Simple => Seq::empty(),
        TextFormatType::Compact => "%H:%M:%S%.3f"@,
        TextFormatType::Detailed => "%Y-%m-%d %H:%M:%S%.3f"@,
        TextFormatType::Full => "%Y-%m-%dT%H:%M:%S%.3fZ"@,
    }
}

/// The terminal color code a level is shown in by the detailed layouts.
pub open spec fn level_color(l: LogLevel) -> Seq<char> {
    match l {
        LogLevel::Error => "\x1b[31m"@,
        LogLevel::Warn => "\x1b[33m"@,
        LogLevel::Info => "\x1b[32m"@,
        LogLevel::Debug => "\x1b[36m"@,
        LogLevel::Trace => "\x1b[37m"@,
    }
}

/// The code that ends a color.
pub open spec fn color_reset() -> Seq<char> {
    "\x1b[0m"@
}

/// A formatter of single text lines.
#[derive(Debug, Clone, Copy)]
pub struct TextFormatter {
    include_timestamp: bool,
    include_level: bool,
    include_component: bool,
    include_metadata: bool,
    format_type: TextFormatType,
}

/// The fields of a text formatter.
pub struct TextFormatterView {
    pub include_timestamp: bool,
    pub include_level: bool,
    pub include_component: bool,
    pub include_metadata: bool,
    pub format_type: TextFormatType,
}

impl View for TextFormatter {
    type V = TextFormatterView;

    closed spec fn view(&self) -> TextFormatterView {
        TextFormatterView {
            include_timestamp: self.include_timestamp,
            include_level: self.include_level,
            include_component: self.include_component,
            include_metadata: self.include_metadata,
            format_type: self.format_type,
        }
    }
}

/// The time stamp part of a line.
pub open spec fn spec_timestamp_part(f: TextFormatterView, ts: Timestamp) -> Seq<char> {
    if f.format_type == TextFormatType::Simple {
        Seq::empty()
    } else {
        chrono_format(ts.spec_secs(), ts.spec_nanos(), timestamp_pattern(f.format_type))
    }
}

/// The level part of a line.
pub open spec fn spec_level_part(f: TextFormatterView, l: LogLevel) -> Seq<char> {
    if !f.include_level {
        Seq::empty()
    } else {
        match f.format_type {
            TextFormatType::Simple => "["@ + level_name(l) + "]"@,
            TextFormatType::Compact => level_name(l) + " "@,
            _ => "["@ + level_color(l) + level_name(l) + color_reset() + "]"@,
        }
    }
}

/// The component part of a line.
pub open spec fn spec_component_part(f: TextFormatterView, c: Option<Seq<char>>) -> Seq<char> {
    if !f.include_component {
        Seq::empty()
    } else {
        match c {
            Some(comp) => if f.format_type == TextFormatType::Detailed || f.format_type
                == TextFormatType::Full {
                "["@ + comp + "] "@
            } else {
                Seq::empty()
            },
            None => Seq::empty(),
        }
    }
}

/// `key=value` for each metadata member, in order.
pub open spec fn metadata_pairs(m: Seq<(Seq<char>, Seq<char>)>) -> Seq<Seq<char>> {
    m.map_values(|e: (Seq<char>, Seq<char>)| e.0 + "="@ + e.1)
}

/// The metadata part of a line: shown by the full layout only.
pub open spec fn spec_metadata_part(f: TextFormatterView, m: Seq<(Seq<char>, Seq<char>)>) -> Seq<
    char,
> {
    if !f.include_metadata || m.len() == 0 || f.format_type != TextFormatType::Full {
        Seq::empty()
    } else {
        " | "@ + join(metadata_pairs(m), ", "@)
    }
}

/// The correlation-id piece of the context, if any.
pub open spec fn cid_piece(e: LogEntry) -> Seq<Seq<char>> {
    match e.context.correlation_id {
        Some(c) => seq!["cid:"@ + c@],
        None => Seq::empty(),
    }
}

/// The user-id piece of the context, if any.
pub open spec fn user_piece(e: LogEntry) -> Seq<Seq<char>> {
    match e.context.user_id {
        Some(u) => seq!["user:"@ + u@],
        None => Seq::empty(),
    }
}

/// The request piece of the context (method, then path), if any.
pub open spec fn request_piece(e: LogEntry) -> Seq<Seq<char>> {
    match e.context.request_info {
        Some(r) => seq![r.method@ + r.path@],
        None => Seq::empty(),
    }
}

/// The pieces of context the full layout appends: correlation id, user id,
/// and request method with path.
pub open spec fn context_pieces(e: LogEntry) -> Seq<Seq<char>> {
    cid_piece(e) + user_piece(e) + request_piece(e)
}

/// The context part of a line: shown by the full layout only.
pub open spec fn spec_context_part(f: TextFormatterView, e: LogEntry) -> Seq<char> {
    if context_pieces(e).len() == 0 || f.format_type != TextFormatType::Full {
        Seq::empty()
    } else {
        " ("@ + join(context_pieces(e), ", "@) + ")"@
    }
}

/// The context part a line ends with: only the full layout shows one, and
/// only when the entry's context has a correlation id, a user id or a
/// request; it lists, in that order and separated by `, `, `cid:<id>`,
/// `user:<id>` and the request's method followed by its path, each present
/// exactly when its field is, inside ` (` and `)`.
pub proof fn lemma_context_part(f: TextFormatterView, e: LogEntry)
    ensures
        f.format_type != TextFormatType::Full ==> spec_context_part(f, e) == Seq::<char>::empty(),
        ({
            let c = e.context.correlation_id;
            let u = e.context.user_id;
            let q = e.context.request_info;
            let cid = "cid:"@ + c.unwrap()@;
            let user = "user:"@ + u.unwrap()@;
            let req = q.unwrap().method@ + q.unwrap().path@;
            f.format_type == TextFormatType::Full ==> {
                &&& c is None && u is None && q is None ==> spec_context_part(f, e)
                    == Seq::<char>::empty()
                &&& c is Some && u is None && q is None ==> spec_context_part(f, e) == " ("@ + cid
                    + ")"@
                &&& c is None && u is Some && q is None ==> spec_context_part(f, e) == " ("@ + user
                    + ")"@
                &&& c is None && u is None && q is Some ==> spec_context_part(f, e) == " ("@ + req
                    + ")"@
                &&& c is Some && u is Some && q is None ==> spec_context_part(f, e) == " ("@ + cid
                    + ", "@ + user + ")"@
                &&& c is Some && u is None && q is Some ==> spec_context_part(f, e) == " ("@ + cid
                    + ", "@ + req + ")"@
                &&& c is None && u is Some && q is Some ==> spec_context_part(f, e) == " ("@ + user
                    + ", "@ + req + ")"@
                &&& c is Some && u is Some && q is Some ==> spec_context_part(f, e) == " ("@ + cid
                    + ", "@ + user + ", "@ + req + ")"@
            }
        }),
{
    let c = e.context.correlation_id;
    let u = e.context.user_id;
    let q = e.context.request_info;
    let cp = cid_piece(e);
    let up = user_piece(e);
    let rp = request_piece(e);
    let p = context_pieces(e);
    assert(p == cp + up + rp);
    let sep = ", "@;
    if p.len() == 1 {
        lemma_join_small(p[0], p[0], p[0], sep);
        assert(p =~= seq![p[0]]);
    } else if p.len() == 2 {
        lemma_join_small(p[0], p[1], p[1], sep);
        assert(p =~= seq![p[0], p[1]]);
    } else if p.len() == 3 {
        lemma_join_small(p[0], p[1], p[2], sep);
        assert(p =~= seq![p[0], p[1], p[2]]);
    }
    if c is Some {
        assert(p[0] == "cid:"@ + c.unwrap()@);
    }
    if c is None && u is Some {
        assert(p[0] == "user:"@ + u.unwrap()@);
    }
    if c is Some && u is Some {
        assert(p[1] == "user:"@ + u.unwrap()@);
    }
    if q is Some {
        assert(p[p.len() - 1] == q.unwrap().method@ + q.unwrap().path@);
    }
}

/// Joining one, two or three parts.
proof fn lemma_join_small(a: Seq<char>, b: Seq<char>, c: Seq<char>, sep: Seq<char>)
    ensures
        join(seq![a], sep) == a,
        join(seq![a, b], sep) == a + sep + b,
        join(seq![a, b, c], sep) == a + sep + b + sep + c,
{
    assert(seq![a, b].drop_last() =~= seq![a]);
    assert(seq![a, b, c].drop_last() =~= seq![a, b]);
    assert(join(seq![a], sep) == a);
    assert(join(seq![a, b], sep) == a + sep + b);
}

/// The parts of a line before the message that are present, in order.
pub open spec fn head_parts(f: TextFormatterView, e: LogEntry) -> Seq<Seq<char>> {
    let ts = if f.include_timestamp && spec_timestamp_part(f, e.timestamp).len() > 0 {
        seq![spec_timestamp_part(f, e.timestamp)]
    } else {
        Seq::empty()
    };
    let lv = if spec_level_part(f, e.level).len() > 0 {
        seq![spec_level_part(f, e.level)]
    } else {
        Seq::empty()
    };
    let cp = if spec_component_part(f, opt_view(e.context.component)).len() > 0 {
        seq![spec_component_part(f, opt_view(e.context.component))]
    } else {
        Seq::empty()
    };
    ts + lv + cp
}

/// The line a text formatter writes for an entry: the present head parts and
/// the message joined by spaces, then the metadata and context parts.
pub open spec fn spec_text_line(f: TextFormatterView, e: LogEntry) -> Seq<char> {
    join(head_parts(f, e).push(e.message@), " "@) + spec_metadata_part(f, e.context.metadata@)
        + spec_context_part(f, e)
}

impl TextFormatter {
    /// The detailed layout with time stamp, level and component.
    pub fn new() -> (r: Self)
        ensures
            r@ == (TextFormatterView {
                include_timestamp: true,
                include_level: true,
                include_component: true,
                include_metadata: false,
                format_type: TextFormatType::Detailed,
            }),
    {
        TextFormatter {
            include_timestamp: true,
            include_level: true,
            include_component: true,
            include_metadata: false,
            format_type: TextFormatType::Detailed,
        }
    }

    /// The detailed layout with time stamp, level and component.
    pub fn detailed() -> (r: Self)
        ensures
            r@ == (TextFormatterView {
                include_timestamp: true,
                include_level: true,
                include_component: true,
                include_metadata: false,
                format_type: TextFormatType::Detailed,
            }),
    {
        TextFormatter {
            include_timestamp: true,
            include_level: true,
            include_component: true,
            include_metadata: false,
            format_type: TextFormatType::Detailed,
        }
    }

    /// The simple layout: level and message.
    pub fn simple() -> (r: Self)
        ensures
            r@ == (TextFormatterView {
                include_timestamp: false,
                include_level: true,
                include_component: false,
                include_metadata: false,
                format_type: TextFormatType::Simple,
            }),
    {
        TextFormatter {
            include_timestamp: false,
            include_level: true,
            include_component: false,
            include_metadata: false,
            format_type: TextFormatType::Simple,
        }
    }

    /// The compact layout: time of day, level and message.
    pub fn compact() -> (r: Self)
        ensures
            r@ == (TextFormatterView {
                include_timestamp: true,
                include_level: true,
                include_component: false,
                include_metadata: false,
                format_type: TextFormatType::Compact,
            }),
    {
        TextFormatter {
            include_timestamp: true,
            include_level: true,
            include_component: false,
            include_metadata: false,
            format_type: TextFormatType::Compact,
        }
    }

    /// The full layout: everything, metadata and context included.
    pub fn full() -> (r: Self)
        ensures
            r@ == (TextFormatterView {
                include_timestamp: true,
                include_level: true,
                include_component: true,
                include_metadata: true,
                format_type: TextFormatType::Full,
            }),
    {
        TextFormatter {
            include_timestamp: true,
            include_level: true,
            include_component: true,
            include_metadata: true,
            format_type: TextFormatType::Full,
        }
    }

    /// With or without the time stamp.
    pub fn with_timestamp(self, shown: bool) -> (r: Self)
        ensures
            r@ == (TextFormatterView { include_timestamp: shown, ..self@ }),
    {
        TextFormatter { include_timestamp: shown, ..self }
    }

    /// With or without the level.
    pub fn with_level(self, shown: bool) -> (r: Self)
        ensures
            r@ == (TextFormatterView { include_level: shown, ..self@ }),
    {
        TextFormatter { include_level: shown, ..self }
    }

    /// With or without the component.
    pub fn with_component(self, shown: bool) -> (r: Self)
        ensures
            r@ == (TextFormatterView { include_component: shown, ..self@ }),
    {
        TextFormatter { include_component: shown, ..self }
    }

    /// With or without the metadata.
    pub fn with_metadata(self, shown: bool) -> (r: Self)
        ensures
            r@ == (TextFormatterView { include_metadata: shown, ..self@ }),
    {
        TextFormatter { include_metadata: shown, ..self }
    }

    /// With the layout `format_type`.
    pub fn with_format(self, format_type: TextFormatType) -> (r: Self)
        ensures
            r@ == (TextFormatterView { format_type, ..self@ }),
    {
        TextFormatter { format_type, ..self }
    }

    /// The time stamp as this layout shows it.
    pub fn format_timestamp(&self, timestamp: &Timestamp) -> (r: String)
        ensures
            r@ == spec_timestamp_part(self@, *timestamp),
    {
        match self.format_type {
            TextFormatType::Simple => String::new(),
            TextFormatType::Compact => timestamp.format("%H:%M:%S%.3f"),
            TextFormatType::Detailed => timestamp.format("%Y-%m-%d %H:%M:%S%.3f"),
            TextFormatType::Full => timestamp.format("%Y-%m-%dT%H:%M:%S%.3fZ"),
        }
    }

    /// The level as this layout shows it.
    pub fn format_level(&self, level: LogLevel) -> (r: String)
        ensures
            r@ == spec_level_part(self@, level),
    {
        if !self.include_level {
            return String::new();
        }
        let name = level.as_str();
        match self.format_type {
            TextFormatType::Simple => {
                let mut r = String::from_str("[");
                r.append(name);
                r.append("]");
                r
            },
            TextFormatType::Compact => {
                let mut r = String::from_str(name);
                r.append(" ");
                r
            },
            _ => {
                let color = match level {
                    LogLevel::Error => "\x1b[31m",
                    LogLevel::Warn => "\x1b[33m",
                    LogLevel::Info => "\x1b[32m",
                    LogLevel::Debug => "\x1b[36m",
                    LogLevel::Trace => "\x1b[37m",
                };
                let mut r = String::from_str("[");
                r.append(color);
                r.append(name);
                r.append("\x1b[0m");
                r.append("]");
                r
            },
        }
    }

    /// The component as this layout shows it.
    pub fn format_component(&self, component: Option<&str>) -> (r: String)
        ensures
            r@ == spec_component_part(
                self@,
                match component {
                    Some(c) => Some(c@),
                    None => None,
                },
            ),
    {
        if !self.include_component {
            return String::new();
        }
        match component {
            Some(comp) => match self.format_type {
                TextFormatType::Detailed | TextFormatType::Full => {
                    let mut r = String::from_str("[");
                    r.append(comp);
                    r.append("] ");
                    r
                },
                _ => String::new(),
            },
            None => String::new(),
        }
    }

    /// The metadata as this layout shows it.
    pub fn format_metadata(&self, metadata: &JsonMap) -> (r: String)
        ensures
            r@ == spec_metadata_part(self@, metadata@),
    {
        if !self.include_metadata || metadata.is_empty() {
            return String::new();
        }
        match self.format_type {
            TextFormatType::Full => {},
            _ => {
                return String::new();
            },
        }
        let n = metadata.len();
        let mut pairs: Vec<String> = Vec::new();
        let mut i: usize = 0;
        while i < n
            invariant
                n == metadata@.len(),
                i <= n,
                views(pairs@) == metadata_pairs(metadata@).subrange(0, i as int),
            decreases n - i,
        {
            let e = metadata.entry(i);
            let mut p = String::from_str(e.key.as_str());
            p.append("=");
            p.append(e.json.as_str());
            let ghost before = pairs@;
            pairs.push(p);
            proof {
                assert(views(pairs@) =~= views(before).push(p@));
                assert(metadata_pairs(metadata@).subrange(0, i + 1) =~= metadata_pairs(
                    metadata@,
                ).subrange(0, i as int).push(p@));
            }
            i = i + 1;
        }
        assert(metadata_pairs(metadata@).subrange(0, n as int) =~= metadata_pairs(metadata@));
        let body = join_strings(&pairs, ", ");
        let mut r = String::from_str(" | ");
        r.append(body.as_str());
        r
    }

    /// The context the full layout appends.
    pub fn format_additional_context(&self, entry: &LogEntry) -> (r: String)
        ensures
            r@ == spec_context_part(self@, *entry),
    {
        let mut parts: Vec<String> = Vec::new();
        let ghost a = cid_piece(*entry);
        let ghost b = user_piece(*entry);
        if let Some(cid) = &entry.context.correlation_id {
            let mut p = String::from_str("cid:");
            p.append(cid.as_str());
            pairs_push(&mut parts, p);
        }
        assert(views(parts@) =~= a);
        if let Some(uid) = &entry.context.user_id {
            let mut p = String::from_str("user:");
            p.append(uid.as_str());
            pairs_push(&mut parts, p);
        }
        assert(views(parts@) =~= a + b);
        if let Some(req) = &entry.context.request_info {
            let mut p = String::from_str(req.method.as_str());
            p.append(req.path.as_str());
            pairs_push(&mut parts, p);
        }
        assert(views(parts@) =~= context_pieces(*entry));
        if parts.len() == 0 {
            return String::new();
        }
        match self.format_type {
            TextFormatType::Full => {
                let body = join_strings(&parts, ", ");
                let mut r = String::from_str(" (");
                r.append(body.as_str());
                r.append(")");
                r
            },
            _ => String::new(),
        }
    }

    /// The line for `entry`.
    pub fn format_entry(&self, entry: &LogEntry) -> (r: String)
        ensures
            r@ == spec_text_line(self@, *entry),
    {
        let mut parts: Vec<String> = Vec::new();
        let ghost f = self@;
        let ghost e = *entry;
        let ghost tsp: Seq<Seq<char>> = if f.include_timestamp && spec_timestamp_part(
            f,
            e.timestamp,
        ).len() > 0 {
            seq![spec_timestamp_part(f, e.timestamp)]
        } else {
            Seq::empty()
        };
        let ghost lvp: Seq<Seq<char>> = if spec_level_part(f, e.level).len() > 0 {
            seq![spec_level_part(f, e.level)]
        } else {
            Seq::empty()
        };
        if self.include_timestamp {
            let ts = self.format_timestamp(&entry.timestamp);
            if ts.as_str().unicode_len() > 0 {
                pairs_push(&mut parts, ts);
            }
        }
        assert(views(parts@) =~= tsp);
        let level = self.format_level(entry.level);
        if level.as_str().unicode_len() > 0 {
            pairs_push(&mut parts, level);
        }
        assert(views(parts@) =~= tsp + lvp);
        let component = self.format_component(opt_as_str(&entry.context.component));
        if component.as_str().unicode_len() > 0 {
            pairs_push(&mut parts, component);
        }
        assert(views(parts@) =~= head_parts(f, e));
        pairs_push(&mut parts, entry.message.clone());
        assert(views(parts@) =~= head_parts(f, e).push(e.message@));
        let mut message = join_strings(&parts, " ");
        let metadata = self.format_metadata(&entry.context.metadata);
        message.append(metadata.as_str());
        let context = self.format_additional_context(entry);
        message.append(context.as_str());
        message
    }
}

/// Push `p` onto `parts`.
fn pairs_push(parts: &mut Vec<String>, p: String)
    ensures
        views(final(parts)@) == views(old(parts)@).push(p@),
{
    let ghost before = parts@;
    parts.push(p);
    assert(views(parts@) =~= views(before).push(p@));
}

impl Default for TextFormatter {
    fn default() -> (r: Self)
        ensures
            r@ == (TextFormatterView {
                include_timestamp: true,
                include_level: true,
                include_component: true,
                include_metadata: false,
                format_type: TextFormatType::Detailed,
            }),
    {
        Self::new()
    }
}

impl LogFormatter for TextFormatter {
    open spec fn renders(&self, entry: LogEntry, text: Seq<char>) -> bool {
        text == spec_text_line(self@, entry)
    }

    fn format(&self, entry: &LogEntry) -> (r: String)
        ensures
            r@ == spec_text_line(self@, *entry),
    {
        self.format_entry(entry)
    }
}

/// Calls atty's `is(Stream::Stdout)`: whether standard output is a terminal.
/// Nothing is stated of the result: it depends on the environment.
#[verifier::external_body]
fn stdout_is_tty() -> bool {
    atty::is(atty::Stream::Stdout)
}

/// The line as the colored formatter shows it, given whether colors are in
/// use: errors in red, warnings in yellow, the rest as the text formatter
/// writes them.
pub open spec fn spec_colored_line(base: TextFormatterView, e: LogEntry, colors: bool) -> Seq<char> {
    let line = spec_text_line(base, e);
    if !colors {
        line
    } else {
        match e.level {
            LogLevel::Error => "\x1b[31m"@ + line + color_reset(),
            LogLevel::Warn => "\x1b[33m"@ + line + color_reset(),
            _ => line,
        }
    }
}

/// A text formatter that colors whole lines of errors and warnings on a terminal.
#[derive(Debug, Clone, Copy)]
pub struct ColoredTextFormatter {
    base: TextFormatter,
    enable_colors: bool,
}

impl ColoredTextFormatter {
    /// The layout of its lines.
    pub closed spec fn spec_base(&self) -> TextFormatterView {
        self.base@
    }

    /// Whether it colors at all.
    pub closed spec fn spec_enable_colors(&self) -> bool {
        self.enable_colors
    }

    /// The full layout, colors on.
    pub fn new() -> (r: Self)
        ensures
            r.spec_base() == (TextFormatterView {
                include_timestamp: true,
                include_level: true,
                include_component: true,
                include_metadata: true,
                format_type: TextFormatType::Full,
            }),
            r.spec_enable_colors(),
    {
        ColoredTextFormatter { base: TextFormatter::full(), enable_colors: true }
    }

    /// Colors off.
    pub fn without_colors(self) -> (r: Self)
        ensures
            r.spec_base() == self.spec_base(),
            !r.spec_enable_colors(),
    {
        ColoredTextFormatter { enable_colors: false, ..self }
    }

    /// The line for `entry` when standard output is a terminal exactly when
    /// `tty` holds.
    pub fn format_for_terminal(&self, entry: &LogEntry, tty: bool) -> (r: String)
        ensures
            r@ == spec_colored_line(self.spec_base(), *entry, self.spec_enable_colors() && tty),
    {
        let formatted = self.base.format_entry(entry);
        if !(self.enable_colors && tty) {
            return formatted;
        }
        match entry.level {
            LogLevel::Error => {
                let mut r = String::from_str("\x1b[31m");
                r.append(formatted.as_str());
                r.append("\x1b[0m");
                r
            },
            LogLevel::Warn => {
                let mut r = String::from_str("\x1b[33m");
                r.append(formatted.as_str());
                r.append("\x1b[0m");
                r
            },
            _ => formatted,
        }
    }
}

impl Default for ColoredTextFormatter {
    fn default() -> (r: Self)
        ensures
            r.spec_base() == (TextFormatterView {
                include_timestamp: true,
                include_level: true,
                include_component: true,
                include_metadata: true,
                format_type: TextFormatType::Full,
            }),
            r.spec_enable_colors(),
    {
        Self::new()
    }
}

impl LogFormatter for ColoredTextFormatter {
    open spec fn renders(&self, entry: LogEntry, text: Seq<char>) -> bool {
        text == spec_colored_line(self.spec_base(), entry, false) || text == spec_colored_line(
            self.spec_base(),
            entry,
            self.spec_enable_colors(),
        )
    }

    /// The line for `entry`, colored when colors are on and standard output
    /// is a terminal.
    fn format(&self, entry: &LogEntry) -> (r: String)
        ensures
            r@ == spec_colored_line(self.spec_base(), *entry, false) || r@ == spec_colored_line(
                self.spec_base(),
                *entry,
                self.spec_enable_colors(),
            ),
    {
        let tty = stdout_is_tty();
        self.format_for_terminal(entry, tty)
    }
}

/// How each layout shows the level, when it shows it: simple as `[LEVEL]`,
/// compact as `LEVEL ` (with a trailing space), detailed and full as
/// `[LEVEL]` with the name colored (red error, yellow warn, green info, cyan
/// debug, white trace); a formatter told not to show the level shows
/// nothing.
pub proof fn lemma_level_part(f: TextFormatterView, l: LogLevel)
    ensures
        !f.include_level ==> spec_level_part(f, l) == Seq::<char>::empty(),
        f.include_level && f.format_type == TextFormatType::Simple ==> spec_level_part(f, l) == "["@
            + level_name(l) + "]"@,
        f.include_level && f.format_type == TextFormatType::Compact ==> spec_level_part(f, l)
            == level_name(l) + " "@,
        f.include_level && (f.format_type == TextFormatType::Detailed || f.format_type
            == TextFormatType::Full) ==> spec_level_part(f, l) == "["@ + level_color(l) + level_name(
            l,
        ) + "\x1b[0m"@ + "]"@,
        level_color(LogLevel::Error) == "\x1b[31m"@,
        level_color(LogLevel::Warn) == "\x1b[33m"@,
        level_color(LogLevel::Info) == "\x1b[32m"@,
        level_color(LogLevel::Debug) == "\x1b[36m"@,
        level_color(LogLevel::Trace) == "\x1b[37m"@,
{
}

/// Time stamps: compact shows the time of day to the millisecond, detailed
/// the date and that time, full the RFC 3339-like `T`…`Z` form; simple shows
/// none.
pub proof fn lemma_timestamp_patterns()
    ensures
        timestamp_pattern(TextFormatType::Compact) == "%H:%M:%S%.3f"@,
        timestamp_pattern(TextFormatType::Detailed) == "%Y-%m-%d %H:%M:%S%.3f"@,
        timestamp_pattern(TextFormatType::Full) == "%Y-%m-%dT%H:%M:%S%.3fZ"@,
        forall|f: TextFormatterView, ts: Timestamp|
            f.format_type == TextFormatType::Simple ==> #[trigger] spec_timestamp_part(f, ts)
                == Seq::<char>::empty(),
{
}

/// The component shows as `[component] ` in the detailed and full layouts
/// when the formatter shows components and the context names one, and not
/// otherwise; the metadata shows only in the full layout, when asked for and
/// present, as ` | key=value, …` in order.
pub proof fn lemma_component_and_metadata(
    f: TextFormatterView,
    c: Option<Seq<char>>,
    k: Seq<char>,
    v: Seq<char>,
)
    ensures
        f.include_component && c is Some && (f.format_type == TextFormatType::Detailed
            || f.format_type == TextFormatType::Full) ==> spec_component_part(f, c) == "["@
            + c.unwrap() + "] "@,
        !f.include_component || c is None || f.format_type == TextFormatType::Simple
            || f.format_type == TextFormatType::Compact ==> spec_component_part(f, c)
            == Seq::<char>::empty(),
        f.include_metadata && f.format_type == TextFormatType::Full ==> spec_metadata_part(
            f,
            seq![(k, v)],
        ) == " | "@ + k + "="@ + v,
        !f.include_metadata || f.format_type != TextFormatType::Full ==> forall|
            m: Seq<(Seq<char>, Seq<char>)>,
        | #[trigger] spec_metadata_part(f, m) == Seq::<char>::empty(),
        forall|m: Seq<(Seq<char>, Seq<char>)>|
            m.len() == 0 ==> #[trigger] spec_metadata_part(f, m) == Seq::<char>::empty(),
{
    let pairs = metadata_pairs(seq![(k, v)]);
    assert(pairs =~= seq![k + "="@ + v]);
    assert(join(pairs, ", "@) == k + "="@ + v);
    assert(" | "@ + (k + "="@ + v) =~= " | "@ + k + "="@ + v);
}

/// The simple layout writes `[LEVEL] message`, whatever the entry's context.
pub proof fn lemma_simple_line(e: LogEntry)
    ensures
        spec_text_line(
            TextFormatterView {
                include_timestamp: false,
                include_level: true,
                include_component: false,
                include_metadata: false,
                format_type: TextFormatType::Simple,
            },
            e,
        ) == "["@ + level_name(e.level) + "] "@ + e.message@,
{
    let f = TextFormatterView {
        include_timestamp: false,
        include_level: true,
        include_component: false,
        include_metadata: false,
        format_type: TextFormatType::Simple,
    };
    reveal_strlit("[");
    reveal_strlit("]");
    reveal_strlit("] ");
    reveal_strlit(" ");
    let lp = "["@ + level_name(e.level) + "]"@;
    assert(spec_level_part(f, e.level) == lp);
    assert(lp.len() > 0);
    assert(head_parts(f, e) =~= seq![lp]);
    let parts = seq![lp].push(e.message@);
    assert(parts.drop_last() =~= seq![lp]);
    assert(join(seq![lp], " "@) == lp);
    assert(join(parts, " "@) == lp + " "@ + e.message@);
    assert(lp + " "@ + e.message@ =~= "["@ + level_name(e.level) + "] "@ + e.message@);
    assert(spec_metadata_part(f, e.context.metadata@) =~= Seq::<char>::empty());
    assert(spec_context_part(f, e) =~= Seq::<char>::empty());
}

} // verus!
