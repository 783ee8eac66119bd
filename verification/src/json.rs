//! JSON text as `serde_json` writes it for strings and for objects whose
//! members are strings, and what reading that text back gives.

use vstd::prelude::*;
use crate::text::{chars_of, str_eq};

verus! {

/// The lower-case hexadecimal digit for `n < 16`.
pub open spec fn hex_digit_lower(n: u32) -> char {
    if n < 10 {
        (n + 48) as char
    } else {
        (n + 87) as char
    }
}

/// How one character stands inside a JSON string: `"` and `\` behind a
/// backslash; backspace, tab, line feed, form feed and carriage return as
/// `\b`, `\t`, `\n`, `\f`, `\r`; the other control characters below
/// U+0020 as `\u00xx` in lower-case hex; everything else as itself.
pub open spec fn json_escaped_char(c: char) -> Seq<char> {
    if c == '"' {
        seq!['\\', '"']
    } else if c == '\\' {
        seq!['\\', '\\']
    } else if c == '\x08' {
        seq!['\\', 'b']
    } else if c == '\t' {
        seq!['\\', 't']
    } else if c == '\n' {
        seq!['\\', 'n']
    } else if c == '\x0C' {
        seq!['\\', 'f']
    } else if c == '\r' {
        seq!['\\', 'r']
    } else if (c as u32) < 0x20 {
        seq![
            '\\',
            'u',
            '0',
            '0',
            hex_digit_lower((c as u32) / 16),
            hex_digit_lower((c as u32) % 16),
        ]
    } else {
        seq![c]
    }
}

/// A text with every character escaped for a JSON string.
pub open spec fn json_escaped(s: Seq<char>) -> Seq<char>
    decreases s.len(),
{
    if s.len() == 0 {
        Seq::empty()
    } else {
        json_escaped_char(s[0]) + json_escaped(s.skip(1))
    }
}

/// The JSON string literal of a text.
pub open spec fn json_string(s: Seq<char>) -> Seq<char> {
    seq!['"'] + json_escaped(s) + seq!['"']
}

/// One member of an object: `"key":"value"`.
pub open spec fn json_member(m: (Seq<char>, Seq<char>)) -> Seq<char> {
    json_string(m.0) + seq![':'] + json_string(m.1)
}

/// The members of an object, separated by commas.
pub open spec fn json_members(ms: Seq<(Seq<char>, Seq<char>)>) -> Seq<char>
    decreases ms.len(),
{
    if ms.len() == 0 {
        Seq::empty()
    } else if ms.len() == 1 {
        json_member(ms[0])
    } else {
        json_member(ms[0]) + seq![','] + json_members(ms.skip(1))
    }
}

/// The compact JSON text of an object with these string members, in this
/// order.
pub open spec fn json_object(ms: Seq<(Seq<char>, Seq<char>)>) -> Seq<char> {
    seq!['{'] + json_members(ms) + seq!['}']
}

/// `{"k":"v"}`.
pub open spec fn json_object1(k: Seq<char>, v: Seq<char>) -> Seq<char> {
    json_object(seq![(k, v)])
}

/// `{"k1":"v1","k2":"v2"}`.
pub open spec fn json_object2(k1: Seq<char>, v1: Seq<char>, k2: Seq<char>, v2: Seq<char>) -> Seq<
    char,
> {
    json_object(seq![(k1, v1), (k2, v2)])
}

/// `a` comes before `b` in the order of their characters (the order of
/// `String`, whose UTF-8 bytes compare as the characters do).
pub open spec fn text_less(a: Seq<char>, b: Seq<char>) -> bool
    decreases a.len(),
{
    if a.len() == 0 {
        b.len() > 0
    } else if b.len() == 0 {
        false
    } else if a[0] < b[0] {
        true
    } else if a[0] == b[0] {
        text_less(a.skip(1), b.skip(1))
    } else {
        false
    }
}

/// Each key comes before every later one.
pub open spec fn keys_ascending(ms: Seq<(Seq<char>, Seq<char>)>) -> bool {
    forall|i: int, j: int| 0 <= i < j < ms.len() ==> text_less(#[trigger] ms[i].0, #[trigger] ms[j].0)
}

/// The texts of a list of string pairs.
pub open spec fn pair_texts(v: Seq<(&str, &str)>) -> Seq<(Seq<char>, Seq<char>)> {
    Seq::new(v.len(), |i: int| (v[i].0@, v[i].1@))
}

/// `serde_json::to_string` on a string slice. Trusted: the result is the
/// text in quotes, escaped as the table `ESCAPE` in serde_json's `ser.rs`
/// says (see [`json_escaped_char`]). Serializing into memory cannot fail
/// (the writer is a `Vec<u8>`), so the `unwrap` never panics.
#[verifier::external_body]
pub(crate) fn to_json_string(s: &str) -> (r: String)
    ensures
        r@ == json_string(s@),
{
    serde_json::to_string(s).unwrap()
}

/// `serde_json::to_string` of a `Value::Object` with the given string
/// members. Trusted: with the keys in ascending order (so that the map's
/// own order, sorted or in insertion order, is the order given, and no key
/// repeats) the compact text is `{`, the members as `"key":"value"`
/// separated by commas, and `}`, each text written as by
/// [`to_json_string`]. The `unwrap` never panics, as there.
#[verifier::external_body]
fn to_json_object(members: &Vec<(&str, &str)>) -> (r: String)
    requires
        keys_ascending(pair_texts(members@)),
    ensures
        r@ == json_object(pair_texts(members@)),
{
    let mut map = serde_json::Map::new();
    for (k, v) in members {
        map.insert(k.to_string(), serde_json::Value::String(v.to_string()));
    }
    serde_json::to_string(&serde_json::Value::Object(map)).unwrap()
}

/// The JSON literal of a text, as `serde_json` writes it.
pub fn json_string_literal(s: &str) -> (r: String)
    ensures
        r@ == json_string(s@),
{
    to_json_string(s)
}

/// The members of the object that `serde_json` writes for the two members
/// given in this order: its map keeps its keys in ascending order, and a
/// second member with the same key replaces the value of the first.
pub open spec fn two_members(k1: Seq<char>, v1: Seq<char>, k2: Seq<char>, v2: Seq<char>) -> Seq<
    (Seq<char>, Seq<char>),
> {
    if k1 == k2 {
        seq![(k1, v2)]
    } else if text_less(k1, k2) {
        seq![(k1, v1), (k2, v2)]
    } else {
        seq![(k2, v2), (k1, v1)]
    }
}

/// Of two different texts, one comes before the other.
pub proof fn lemma_text_less_total(a: Seq<char>, b: Seq<char>)
    requires
        a != b,
    ensures
        text_less(a, b) || text_less(b, a),
    decreases a.len(),
{
    if a.len() > 0 && b.len() > 0 && a[0] == b[0] {
        if a.skip(1) == b.skip(1) {
            assert(a =~= seq![a[0]] + a.skip(1));
            assert(b =~= seq![b[0]] + b.skip(1));
        }
        lemma_text_less_total(a.skip(1), b.skip(1));
    } else if a.len() == 0 && b.len() == 0 {
        assert(a =~= b);
    }
}

/// Whether `a` comes before `b` in the order of their characters.
pub fn text_lt(a: &str, b: &str) -> (r: bool)
    ensures
        r == text_less(a@, b@),
{
    let x = chars_of(a);
    let y = chars_of(b);
    let mut i: usize = 0;
    assert(a@.skip(0) =~= a@);
    assert(b@.skip(0) =~= b@);
    while i < x.len() && i < y.len() && x[i] == y[i]
        invariant
            x@ == a@,
            y@ == b@,
            i <= x.len(),
            i <= y.len(),
            text_less(a@, b@) == text_less(a@.skip(i as int), b@.skip(i as int)),
        decreases x.len() - i,
    {
        assert(a@.skip(i as int).skip(1) =~= a@.skip(i + 1));
        assert(b@.skip(i as int).skip(1) =~= b@.skip(i + 1));
        i = i + 1;
    }
    if i == x.len() {
        i < y.len()
    } else if i == y.len() {
        false
    } else {
        x[i] < y[i]
    }
}

/// The compact JSON text of an object whose members are strings, as
/// `serde_json` writes it. Its view is the members, in the order written.
pub struct JsonObject {
    text: String,
    members: Ghost<Seq<(Seq<char>, Seq<char>)>>,
}

impl JsonObject {
    /// The text is the object with these members.
    #[verifier::type_invariant]
    spec fn well_formed(self) -> bool {
        self.text@ == json_object(self.members@)
    }

    /// The members, in the order written.
    pub closed spec fn members(self) -> Seq<(Seq<char>, Seq<char>)> {
        self.members@
    }

    /// The JSON text.
    pub fn as_str(&self) -> (r: &str)
        ensures
            r@ == json_object(self.members()),
    {
        proof {
            use_type_invariant(self);
        }
        self.text.as_str()
    }

    /// The JSON text, owned.
    pub fn into_string(self) -> (r: String)
        ensures
            r@ == json_object(self.members()),
    {
        proof {
            use_type_invariant(&self);
        }
        self.text
    }
}

impl View for JsonObject {
    type V = Seq<(Seq<char>, Seq<char>)>;

    open spec fn view(&self) -> Seq<(Seq<char>, Seq<char>)> {
        self.members()
    }
}

/// `{"k":"v"}`, as `serde_json` writes it.
pub fn json_object_with(k: &str, v: &str) -> (r: JsonObject)
    ensures
        r@ == seq![(k@, v@)],
{
    let members = vec![(k, v)];
    assert(pair_texts(members@) =~= seq![(k@, v@)]);
    let text = to_json_object(&members);
    let ghost ms = seq![(k@, v@)];
    JsonObject { text, members: Ghost(ms) }
}

/// The object that `serde_json` writes for the members `k1: v1` and
/// `k2: v2`: the keys in ascending order, and for equal keys one member
/// with the second value.
pub fn json_object_with_two(k1: &str, v1: &str, k2: &str, v2: &str) -> (r: JsonObject)
    ensures
        r@ == two_members(k1@, v1@, k2@, v2@),
{
    if str_eq(k1, k2) {
        return json_object_with(k1, v2);
    }
    let members = if text_lt(k1, k2) {
        vec![(k1, v1), (k2, v2)]
    } else {
        proof {
            lemma_text_less_total(k1@, k2@);
        }
        vec![(k2, v2), (k1, v1)]
    };
    let ghost ms = two_members(k1@, v1@, k2@, v2@);
    assert(pair_texts(members@) =~= ms);
    let text = to_json_object(&members);
    JsonObject { text, members: Ghost(ms) }
}

// ---- reading JSON text back

/// A hexadecimal digit, in either case.
pub open spec fn is_hex_char(c: char) -> bool {
    ('0' <= c <= '9') || ('a' <= c <= 'f') || ('A' <= c <= 'F')
}

/// The value of a hexadecimal digit.
pub open spec fn hex_char_value(c: char) -> u32 {
    if c <= '9' {
        ((c as u32) - 48) as u32
    } else if c <= 'F' {
        ((c as u32) - 55) as u32
    } else {
        ((c as u32) - 87) as u32
    }
}

/// The character that a two-character escape `\e` stands for.
pub open spec fn short_escape(e: char) -> Option<char> {
    if e == '"' {
        Some('"')
    } else if e == '\\' {
        Some('\\')
    } else if e == '/' {
        Some('/')
    } else if e == 'b' {
        Some('\x08')
    } else if e == 'f' {
        Some('\x0C')
    } else if e == 'n' {
        Some('\n')
    } else if e == 'r' {
        Some('\r')
    } else if e == 't' {
        Some('\t')
    } else {
        None
    }
}

/// `c` followed by what was read after it.
pub open spec fn prepend_read(c: char, r: Option<(Seq<char>, Seq<char>)>) -> Option<
    (Seq<char>, Seq<char>),
> {
    match r {
        Some((text, rest)) => Some((seq![c] + text, rest)),
        None => None,
    }
}

/// Reads the inside of a JSON string up to its closing quote: the text it
/// stands for and what follows the quote. A raw control character, an
/// unknown escape or a missing closing quote is an error. `\uXXXX` is read
/// for code points outside the surrogate range (pairs of surrogate escapes,
/// which `serde_json` never writes for a string, are not read).
pub open spec fn read_string_body(t: Seq<char>) -> Option<(Seq<char>, Seq<char>)>
    decreases t.len(),
{
    if t.len() == 0 {
        None
    } else if t[0] == '"' {
        Some((Seq::empty(), t.skip(1)))
    } else if t[0] == '\\' {
        if t.len() < 2 {
            None
        } else {
            match short_escape(t[1]) {
                Some(c) => prepend_read(c, read_string_body(t.skip(2))),
                None => if t[1] == 'u' && t.len() >= 6 && is_hex_char(t[2]) && is_hex_char(t[3])
                    && is_hex_char(t[4]) && is_hex_char(t[5]) {
                    let v = hex_char_value(t[2]) * 4096 + hex_char_value(t[3]) * 256
                        + hex_char_value(t[4]) * 16 + hex_char_value(t[5]);
                    if 0xD800 <= v <= 0xDFFF {
                        None
                    } else {
                        prepend_read(v as char, read_string_body(t.skip(6)))
                    }
                } else {
                    None
                },
            }
        }
    } else if (t[0] as u32) < 0x20 {
        None
    } else {
        prepend_read(t[0], read_string_body(t.skip(1)))
    }
}

/// Reads a JSON string at the start of `t`: the text it stands for and
/// what follows its closing quote.
pub open spec fn read_json_string(t: Seq<char>) -> Option<(Seq<char>, Seq<char>)> {
    if t.len() > 0 && t[0] == '"' {
        read_string_body(t.skip(1))
    } else {
        None
    }
}

/// Reads `"key":"value"` members separated by commas, at most `n + 1` of
/// them: the members and what follows the last.
pub open spec fn read_members(t: Seq<char>, n: nat) -> Option<
    (Seq<(Seq<char>, Seq<char>)>, Seq<char>),
>
    decreases n,
{
    match read_json_string(t) {
        Some((k, r1)) => if r1.len() > 0 && r1[0] == ':' {
            match read_json_string(r1.skip(1)) {
                Some((v, r2)) => if n > 0 && r2.len() > 0 && r2[0] == ',' {
                    match read_members(r2.skip(1), (n - 1) as nat) {
                        Some((ms, r3)) => Some((seq![(k, v)] + ms, r3)),
                        None => None,
                    }
                } else {
                    Some((seq![(k, v)], r2))
                },
                None => None,
            }
        } else {
            None
        },
        None => None,
    }
}

/// Reads a whole text as a JSON object with string members.
pub open spec fn read_json_object(t: Seq<char>) -> Option<Seq<(Seq<char>, Seq<char>)>> {
    if t.len() >= 2 && t[0] == '{' {
        if t.skip(1) == seq!['}'] {
            Some(Seq::empty())
        } else {
            match read_members(t.skip(1), t.len()) {
                Some((ms, rest)) => if rest == seq!['}'] {
                    Some(ms)
                } else {
                    None
                },
                None => None,
            }
        }
    } else {
        None
    }
}

proof fn lemma_hex_digit_lower(n: u32)
    requires
        n < 16,
    ensures
        is_hex_char(hex_digit_lower(n)),
        hex_char_value(hex_digit_lower(n)) == n,
{
}

proof fn lemma_escaped_char_reads_back(c: char, tail: Seq<char>)
    ensures
        read_string_body(json_escaped_char(c) + tail) == prepend_read(c, read_string_body(tail)),
{
    let e = json_escaped_char(c);
    let t = e + tail;
    if c == '"' || c == '\\' || c == '\x08' || c == '\t' || c == '\n' || c == '\x0C' || c == '\r' {
        assert(t[0] == '\\');
        assert(t[1] == e[1]);
        assert(t.skip(2) =~= tail);
    } else if (c as u32) < 0x20 {
        let hi = (c as u32) / 16;
        let lo = (c as u32) % 16;
        lemma_hex_digit_lower(0);
        lemma_hex_digit_lower(hi);
        lemma_hex_digit_lower(lo);
        assert(t[0] == '\\' && t[1] == 'u' && t[2] == '0' && t[3] == '0');
        assert(t[4] == hex_digit_lower(hi) && t[5] == hex_digit_lower(lo));
        assert(short_escape('u') is None);
        assert(t.skip(6) =~= tail);
        let v = hex_char_value(t[2]) * 4096 + hex_char_value(t[3]) * 256 + hex_char_value(t[4])
            * 16 + hex_char_value(t[5]);
        assert(v == c as u32);
        assert((v as char) == c);
    } else {
        assert(t[0] == c);
        assert(t.skip(1) =~= tail);
    }
}

proof fn lemma_escaped_reads_back(s: Seq<char>, rest: Seq<char>)
    ensures
        read_string_body(json_escaped(s) + seq!['"'] + rest) == Some((s, rest)),
    decreases s.len(),
{
    if s.len() == 0 {
        let t = json_escaped(s) + seq!['"'] + rest;
        assert(t =~= seq!['"'] + rest);
        assert(t.skip(1) =~= rest);
    } else {
        lemma_escaped_reads_back(s.skip(1), rest);
        let tail = json_escaped(s.skip(1)) + seq!['"'] + rest;
        assert(json_escaped(s) + seq!['"'] + rest =~= json_escaped_char(s[0]) + tail);
        lemma_escaped_char_reads_back(s[0], tail);
        assert(seq![s[0]] + s.skip(1) =~= s);
    }
}

/// A JSON string literal reads back as exactly its text, and ends exactly
/// where it ends: whatever follows it is left as it is. No text (quotes,
/// backslashes, line breaks or anything else in it) can end it early.
pub proof fn lemma_json_string_reads_back(s: Seq<char>, rest: Seq<char>)
    ensures
        read_json_string(json_string(s) + rest) == Some((s, rest)),
{
    let t = json_string(s) + rest;
    assert(t.skip(1) =~= json_escaped(s) + seq!['"'] + rest);
    lemma_escaped_reads_back(s, rest);
}

proof fn lemma_members_read_back(ms: Seq<(Seq<char>, Seq<char>)>, tail: Seq<char>, n: nat)
    requires
        ms.len() >= 1,
        n + 1 >= ms.len(),
        tail.len() > 0,
        tail[0] != ',',
    ensures
        read_members(json_members(ms) + tail, n) == Some((ms, tail)),
    decreases ms.len(),
{
    let k = ms[0].0;
    let v = ms[0].1;
    let after = if ms.len() == 1 {
        tail
    } else {
        seq![','] + json_members(ms.skip(1)) + tail
    };
    let t = json_members(ms) + tail;
    assert(t =~= json_string(k) + (seq![':'] + json_string(v) + after));
    lemma_json_string_reads_back(k, seq![':'] + json_string(v) + after);
    assert((seq![':'] + json_string(v) + after).skip(1) =~= json_string(v) + after);
    lemma_json_string_reads_back(v, after);
    if ms.len() > 1 {
        assert(after.skip(1) =~= json_members(ms.skip(1)) + tail);
        lemma_members_read_back(ms.skip(1), tail, (n - 1) as nat);
        assert(seq![(k, v)] + ms.skip(1) =~= ms);
    } else {
        assert(seq![(k, v)] =~= ms);
    }
}

proof fn lemma_members_length(ms: Seq<(Seq<char>, Seq<char>)>)
    ensures
        json_members(ms).len() >= ms.len(),
    decreases ms.len(),
{
    if ms.len() > 1 {
        lemma_members_length(ms.skip(1));
    }
}

/// The text of an object with string members reads back as exactly those
/// members, in order.
pub proof fn lemma_json_object_reads_back(ms: Seq<(Seq<char>, Seq<char>)>)
    ensures
        read_json_object(json_object(ms)) == Some(ms),
{
    let t = json_object(ms);
    if ms.len() == 0 {
        assert(t.skip(1) =~= seq!['}']);
        assert(ms =~= Seq::<(Seq<char>, Seq<char>)>::empty());
    } else {
        assert(t.skip(1) =~= json_members(ms) + seq!['}']);
        assert(json_string(ms[0].0)[0] == '"');
        assert(json_members(ms)[0] == '"');
        assert(t.skip(1)[0] == '"');
        lemma_members_length(ms);
        lemma_members_read_back(ms, seq!['}'], t.len());
    }
}

} // verus!
