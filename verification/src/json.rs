//! JSON objects as the library builds them: an ordered list of distinct keys,
//! each with the JSON text of its value. Rendering goes through serde_json.

use vstd::prelude::*;

verus! {

/// One member: a key and the JSON text of its value.
#[derive(Debug, PartialEq, Eq)]
pub struct JsonEntry {
    pub key: String,
    pub json: String,
}

/// A JSON object: members with distinct keys, in insertion order.
#[derive(Debug, PartialEq, Eq)]
pub struct JsonMap {
    entries: Vec<JsonEntry>,
}

/// The view of a list of members: (key, value text) pairs.
pub open spec fn entries_view(s: Seq<JsonEntry>) -> Seq<(Seq<char>, Seq<char>)> {
    s.map_values(|e: JsonEntry| (e.key@, e.json@))
}

/// No key occurs twice.
pub open spec fn keys_distinct(s: Seq<(Seq<char>, Seq<char>)>) -> bool {
    forall|i: int, j: int| 0 <= i < s.len() && 0 <= j < s.len() && i != j ==> s[i].0 != s[j].0
}

/// The value text stored under `key`, if any.
pub open spec fn map_get(s: Seq<(Seq<char>, Seq<char>)>, key: Seq<char>) -> Option<Seq<char>> {
    if exists|i: int| 0 <= i < s.len() && s[i].0 == key {
        let i = choose|i: int| 0 <= i < s.len() && s[i].0 == key;
        Some(s[i].1)
    } else {
        None
    }
}

/// `s` holds `key` with value text `v` at some position.
pub open spec fn map_has(s: Seq<(Seq<char>, Seq<char>)>, key: Seq<char>, v: Seq<char>) -> bool {
    exists|i: int| 0 <= i < s.len() && s[i].0 == key && s[i].1 == v
}

/// The compact JSON text serde_json renders for the object with these members
/// (serde_json orders object keys).
pub uninterp spec fn json_object_text(members: Seq<(Seq<char>, Seq<char>)>) -> Seq<char>;

/// The pretty-printed JSON text serde_json renders for the object with these members.
pub uninterp spec fn json_object_pretty_text(members: Seq<(Seq<char>, Seq<char>)>) -> Seq<char>;

/// The lowercase hexadecimal digit `d` (0 to 15).
pub open spec fn hex_digit(d: int) -> char {
    "0123456789abcdef"@[d]
}

/// How serde_json writes the character `c` inside a string: `"` and `\` and
/// the control characters with a short form escaped by a backslash, the
/// other control characters below 0x20 as `\u00XX` with lowercase hex
/// digits, every other character as it is.
pub open spec fn json_char_escape(c: char) -> Seq<char> {
    let n = c as int;
    if c == '"' {
        seq!['\\', '"']
    } else if c == '\\' {
        seq!['\\', '\\']
    } else if n == 0x8 {
        seq!['\\', 'b']
    } else if n == 0x9 {
        seq!['\\', 't']
    } else if n == 0xa {
        seq!['\\', 'n']
    } else if n == 0xc {
        seq!['\\', 'f']
    } else if n == 0xd {
        seq!['\\', 'r']
    } else if n < 0x20 {
        seq!['\\', 'u', '0', '0', hex_digit(n / 16), hex_digit(n % 16)]
    } else {
        seq![c]
    }
}

/// The characters of `s`, each as serde_json writes it inside a string.
pub open spec fn json_escaped(s: Seq<char>) -> Seq<char>
    decreases s.len(),
{
    if s.len() == 0 {
        Seq::empty()
    } else {
        json_escaped(s.drop_last()) + json_char_escape(s.last())
    }
}

/// The JSON text serde_json renders for the string `s`: quoted and escaped.
pub open spec fn json_string_text(s: Seq<char>) -> Seq<char> {
    seq!['"'] + json_escaped(s) + seq!['"']
}

impl Clone for JsonEntry {
    fn clone(&self) -> (r: Self)
        ensures
            r == *self,
    {
        JsonEntry { key: self.key.clone(), json: self.json.clone() }
    }
}

impl Clone for JsonMap {
    fn clone(&self) -> (r: Self)
        ensures
            r@ == self@,
    {
        proof {
            use_type_invariant(self);
        }
        let n = self.entries.len();
        let mut out: Vec<JsonEntry> = Vec::new();
        let mut i: usize = 0;
        while i < n
            invariant
                n == self.entries@.len(),
                i <= n,
                out@ == self.entries@.subrange(0, i as int),
            decreases n - i,
        {
            out.push(self.entries[i].clone());
            assert(out@ =~= self.entries@.subrange(0, i + 1));
            i = i + 1;
        }
        assert(out@ =~= self.entries@);
        JsonMap { entries: out }
    }
}

impl View for JsonMap {
    type V = Seq<(Seq<char>, Seq<char>)>;

    closed spec fn view(&self) -> Seq<(Seq<char>, Seq<char>)> {
        entries_view(self.entries@)
    }
}

impl JsonMap {
    #[verifier::type_invariant]
    spec fn well_formed(self) -> bool {
        keys_distinct(entries_view(self.entries@))
    }

    /// An empty object.
    pub fn new() -> (r: JsonMap)
        ensures
            r@ == Seq::<(Seq<char>, Seq<char>)>::empty(),
    {
        let v: Vec<JsonEntry> = Vec::new();
        assert(entries_view(v@) =~= Seq::<(Seq<char>, Seq<char>)>::empty());
        JsonMap { entries: v }
    }

    /// Number of members.
    pub fn len(&self) -> (r: usize)
        ensures
            r == self@.len(),
    {
        self.entries.len()
    }

    /// Whether the object has no members.
    pub fn is_empty(&self) -> (r: bool)
        ensures
            r == (self@.len() == 0),
    {
        self.entries.len() == 0
    }

    /// The member at position `i`.
    pub fn entry(&self, i: usize) -> (r: &JsonEntry)
        requires
            i < self@.len(),
        ensures
            (r.key@, r.json@) == self@[i as int],
    {
        &self.entries[i]
    }

    /// Position of `key`, if present.
    fn find(&self, key: &str) -> (r: Option<usize>)
        ensures
            r matches Some(i) ==> i < self@.len() && self@[i as int].0 == key@,
            r is None ==> forall|i: int| 0 <= i < self@.len() ==> self@[i].0 != key@,
    {
        let n = self.entries.len();
        let mut i: usize = 0;
        while i < n
            invariant
                n == self.entries@.len(),
                i <= n,
                forall|j: int| 0 <= j < i ==> self.entries@[j].key@ != key@,
            decreases n - i,
        {
            if crate::text::str_eq(self.entries[i].key.as_str(), key) {
                return Some(i);
            }
            i = i + 1;
        }
        None
    }

    /// The value text under `key`.
    pub fn get(&self, key: &str) -> (r: Option<&str>)
        ensures
            r matches Some(v) ==> map_has(self@, key@, v@) && map_get(self@, key@) == Some(v@),
            r is None <==> map_get(self@, key@) is None,
    {
        proof {
            use_type_invariant(self);
        }
        match self.find(key) {
            Some(i) => {
                proof {
                    let j = choose|j: int| 0 <= j < self@.len() && self@[j].0 == key@;
                    assert(j == i);
                }
                Some(self.entries[i].json.as_str())
            },
            None => None,
        }
    }

    /// Sets `key` to the value text `json`, replacing an existing member in place
    /// or appending a new one.
    pub fn set(&mut self, key: &str, json: &str)
        ensures
            keys_distinct(final(self)@),
            map_get(final(self)@, key@) == Some(json@),
            forall|k: Seq<char>| k != key@ ==> map_get(final(self)@, k) == map_get(old(self)@, k),
            forall|i: int|
                0 <= i < old(self)@.len() && old(self)@[i].0 == key@ ==> final(self)@ == old(
                    self,
                )@.update(i, (key@, json@)),
            (forall|i: int| 0 <= i < old(self)@.len() ==> old(self)@[i].0 != key@) ==> final(self)@
                == old(self)@.push((key@, json@)),
    {
        proof {
            use_type_invariant(&*self);
        }
        let ghost before = self@;
        let found = self.find(key);
        let entry = JsonEntry { key: String::from_str(key), json: String::from_str(json) };
        match found {
            Some(i) => {
                let mut entries: Vec<JsonEntry> = Vec::new();
                std::mem::swap(&mut entries, &mut self.entries);
                entries.set(i, entry);
                assert(entries_view(entries@) =~= before.update(i as int, (key@, json@)));
                assert(keys_distinct(entries_view(entries@)));
                assert(entries_view(entries@)[i as int] == (key@, json@));
                self.entries = entries;
            },
            None => {
                let mut entries: Vec<JsonEntry> = Vec::new();
                std::mem::swap(&mut entries, &mut self.entries);
                entries.push(entry);
                assert(entries_view(entries@) =~= before.push((key@, json@)));
                assert(keys_distinct(entries_view(entries@)));
                assert(entries_view(entries@)[before.len() as int] == (key@, json@));
                self.entries = entries;
            },
        }
        proof {
            let after = self@;
            assert(after.len() == before.len() || after.len() == before.len() + 1);
            assert forall|k: Seq<char>| k != key@ implies map_get(after, k) == map_get(
                before,
                k,
            ) by {
                if exists|i: int| 0 <= i < before.len() && before[i].0 == k {
                    let i = choose|i: int| 0 <= i < before.len() && before[i].0 == k;
                    assert(after[i].0 == k);
                    let j = choose|j: int| 0 <= j < after.len() && after[j].0 == k;
                    assert(j == i);
                } else {
                    assert forall|j: int| 0 <= j < after.len() implies after[j].0 != k by {
                        if j < before.len() {
                        }
                    }
                }
            }
            let j = choose|j: int| 0 <= j < after.len() && after[j].0 == key@;
            assert(after[j].1 == json@);
        }
    }
}

/// Calls `serde_json::to_string` on a string slice: its quoted, escaped JSON
/// form, as serde_json's escape table (ser.rs) writes it. It cannot fail on
/// a string.
#[verifier::external_body]
pub(crate) fn json_quote(s: &str) -> (r: String)
    ensures
        r@ == json_string_text(s@),
{
    serde_json::to_string(s).unwrap_or_default()
}

/// Builds a `serde_json::Map` from the members (parsing each value text with
/// `serde_json::from_str`, null where it is not JSON) and renders it compactly
/// with `Value::to_string`.
#[verifier::external_body]
pub(crate) fn render_object(m: &JsonMap) -> (r: String)
    ensures
        r@ == json_object_text(m@),
{
    let mut out = serde_json::Map::new();
    for e in m.entries.iter() {
        out.insert(e.key.clone(), serde_json::from_str(&e.json).unwrap_or(serde_json::Value::Null));
    }
    serde_json::Value::Object(out).to_string()
}

/// As `render_object`, rendered with `serde_json::to_string_pretty`.
#[verifier::external_body]
pub(crate) fn render_object_pretty(m: &JsonMap) -> (r: String)
    ensures
        r@ == json_object_pretty_text(m@),
{
    let mut out = serde_json::Map::new();
    for e in m.entries.iter() {
        out.insert(e.key.clone(), serde_json::from_str(&e.json).unwrap_or(serde_json::Value::Null));
    }
    serde_json::to_string_pretty(&serde_json::Value::Object(out)).unwrap_or_default()
}

} // verus!
