//! A minimal JSON document model with a verified text encoder and parser.
//!
//! `JsonValue` is the executable representation; `JVal` is its mathematical
//! model.  Numbers are carried as their literal text, which keeps the model
//! exact without floating point and lets unknown payloads round-trip.

use vstd::prelude::*;

verus! {

/// An executable JSON document tree.
#[derive(Debug, PartialEq)]
pub enum JsonValue {
    Null,
    Bool(bool),
    /// A number, stored as its literal text (e.g. "42", "-1.5e3").
    Num(String),
    Str(String),
    Arr(Vec<JsonValue>),
    Obj(Vec<(String, JsonValue)>),
}

/// The mathematical model of a JSON document.
pub enum JVal {
    Null,
    Bool(bool),
    Num(Seq<char>),
    Str(Seq<char>),
    Arr(Seq<JVal>),
    Obj(Seq<(Seq<char>, JVal)>),
}

/// The model of an executable JSON tree.
pub open spec fn jv(v: JsonValue) -> JVal
    decreases v,
{
    match v {
        JsonValue::Null => JVal::Null,
        JsonValue::Bool(b) => JVal::Bool(b),
        JsonValue::Num(s) => JVal::Num(s@),
        JsonValue::Str(s) => JVal::Str(s@),
        JsonValue::Arr(items) => JVal::Arr(jv_list(items@)),
        JsonValue::Obj(entries) => JVal::Obj(jv_entries(entries@)),
    }
}

/// The model of a sequence of JSON trees.
pub open spec fn jv_list(s: Seq<JsonValue>) -> Seq<JVal>
    decreases s,
{
    if s.len() == 0 {
        Seq::empty()
    } else {
        jv_list(s.drop_last()).push(jv(s.last()))
    }
}

/// The model of a sequence of JSON object entries.
pub open spec fn jv_entries(s: Seq<(String, JsonValue)>) -> Seq<(Seq<char>, JVal)>
    decreases s,
{
    if s.len() == 0 {
        Seq::empty()
    } else {
        jv_entries(s.drop_last()).push((s.last().0@, jv(s.last().1)))
    }
}

impl View for JsonValue {
    type V = JVal;

    open spec fn view(&self) -> JVal {
        jv(*self)
    }
}

impl DeepView for JsonValue {
    type V = JVal;

    open spec fn deep_view(&self) -> JVal {
        jv(*self)
    }
}

/// Appending one tree to a list appends its model to the list's model.
pub proof fn lemma_jv_list_push(s: Seq<JsonValue>, v: JsonValue)
    ensures
        jv_list(s.push(v)) == jv_list(s).push(jv(v)),
{
    assert(s.push(v).drop_last() =~= s);
    assert(s.push(v).last() == v);
}

/// Appending one entry to an entry list appends its model likewise.
pub proof fn lemma_jv_entries_push(s: Seq<(String, JsonValue)>, e: (String, JsonValue))
    ensures
        jv_entries(s.push(e)) == jv_entries(s).push((e.0@, jv(e.1))),
{
    assert(s.push(e).drop_last() =~= s);
    assert(s.push(e).last() == e);
}

impl Clone for JsonValue {
    /// A clone has the same model as the value it copies.
    fn clone(&self) -> (r: Self)
        ensures
            jv(r) == jv(*self),
        decreases *self,
    {
        match self {
            JsonValue::Null => JsonValue::Null,
            JsonValue::Bool(b) => JsonValue::Bool(*b),
            JsonValue::Num(s) => JsonValue::Num(s.clone()),
            JsonValue::Str(s) => JsonValue::Str(s.clone()),
            JsonValue::Arr(items) => {
                let mut out: Vec<JsonValue> = Vec::new();
                let mut i: usize = 0;
                while i < items.len()
                    invariant
                        i <= items.len(),
                        jv_list(out@) == jv_list(items@.subrange(0, i as int)),
                        *self == JsonValue::Arr(*items),
                    decreases items.len() - i,
                {
                    proof {
                        assert(*items == self->Arr_0);
                        assert(decreases_to!(*self => self->Arr_0));
                        vstd::std_specs::vec::axiom_vec_decreases_to_view::<JsonValue>(*items);
                        vstd::seq::axiom_seq_index_decreases::<JsonValue>(items@, i as int);
                        assert(decreases_to!(*self => items@[i as int]));
                    }
                    let c = items[i].clone();
                    proof {
                        lemma_jv_list_push(out@, c);
                        assert(items@.subrange(0, i + 1) =~= items@.subrange(0, i as int).push(
                            items@[i as int],
                        ));
                        lemma_jv_list_push(items@.subrange(0, i as int), items[i as int]);
                    }
                    out.push(c);
                    i = i + 1;
                }
                proof {
                    assert(items@.subrange(0, items@.len() as int) =~= items@);
                }
                JsonValue::Arr(out)
            },
            JsonValue::Obj(entries) => {
                let mut out: Vec<(String, JsonValue)> = Vec::new();
                let mut i: usize = 0;
                while i < entries.len()
                    invariant
                        i <= entries.len(),
                        jv_entries(out@) == jv_entries(entries@.subrange(0, i as int)),
                        *self == JsonValue::Obj(*entries),
                    decreases entries.len() - i,
                {
                    proof {
                        assert(*entries == self->Obj_0);
                        assert(decreases_to!(*self => self->Obj_0));
                        vstd::std_specs::vec::axiom_vec_decreases_to_view::<(String, JsonValue)>(
                            *entries,
                        );
                        vstd::seq::axiom_seq_index_decreases::<(String, JsonValue)>(
                            entries@,
                            i as int,
                        );
                        assert(decreases_to!(entries@[i as int] => entries@[i as int].1));
                        assert(decreases_to!(*self => entries@[i as int].1));
                    }
                    let k = entries[i].0.clone();
                    let v = entries[i].1.clone();
                    proof {
                        lemma_jv_entries_push(out@, (k, v));
                        assert(entries@.subrange(0, i + 1) =~= entries@.subrange(0, i as int).push(
                            entries@[i as int],
                        ));
                        lemma_jv_entries_push(entries@.subrange(0, i as int), entries[i as int]);
                    }
                    out.push((k, v));
                    i = i + 1;
                }
                proof {
                    assert(entries@.subrange(0, entries@.len() as int) =~= entries@);
                }
                JsonValue::Obj(out)
            },
        }
    }
}

/// One hexadecimal digit, lower case.
pub open spec fn hex_digit(n: int) -> Seq<char> {
    if n == 0 {
        "0"@
    } else if n == 1 {
        "1"@
    } else if n == 2 {
        "2"@
    } else if n == 3 {
        "3"@
    } else if n == 4 {
        "4"@
    } else if n == 5 {
        "5"@
    } else if n == 6 {
        "6"@
    } else if n == 7 {
        "7"@
    } else if n == 8 {
        "8"@
    } else if n == 9 {
        "9"@
    } else if n == 10 {
        "a"@
    } else if n == 11 {
        "b"@
    } else if n == 12 {
        "c"@
    } else if n == 13 {
        "d"@
    } else if n == 14 {
        "e"@
    } else {
        "f"@
    }
}

/// How one character appears inside an encoded JSON string.
pub open spec fn esc_char(c: char) -> Seq<char> {
    if c == '"' {
        "\\\""@
    } else if c == '\\' {
        "\\\\"@
    } else if c == '\n' {
        "\\n"@
    } else if c == '\t' {
        "\\t"@
    } else if c == '\r' {
        "\\r"@
    } else if c == '\u{8}' {
        "\\b"@
    } else if c == '\u{c}' {
        "\\f"@
    } else if (c as u32) < 32 {
        "\\u00"@ + hex_digit((c as u32) as int / 16) + hex_digit((c as u32) as int % 16)
    } else {
        seq![c]
    }
}

/// The encoded body of a JSON string (without the surrounding quotes).
pub open spec fn enc_str_body(s: Seq<char>) -> Seq<char>
    decreases s.len(),
{
    if s.len() == 0 {
        Seq::empty()
    } else {
        enc_str_body(s.drop_last()) + esc_char(s.last())
    }
}

/// A complete encoded JSON string.
pub open spec fn enc_string(s: Seq<char>) -> Seq<char> {
    "\""@ + enc_str_body(s) + "\""@
}

/// The canonical text encoding of a JSON document: no whitespace,
/// object keys and array items in order.
pub open spec fn enc_json(v: JVal) -> Seq<char>
    decreases v,
{
    match v {
        JVal::Null => "null"@,
        JVal::Bool(b) => if b {
            "true"@
        } else {
            "false"@
        },
        JVal::Num(s) => s,
        JVal::Str(s) => enc_string(s),
        JVal::Arr(items) => "["@ + enc_list(items) + "]"@,
        JVal::Obj(entries) => "{"@ + enc_entries(entries) + "}"@,
    }
}

/// The encoded items of a JSON array, comma separated.
pub open spec fn enc_list(items: Seq<JVal>) -> Seq<char>
    decreases items,
{
    if items.len() == 0 {
        Seq::empty()
    } else if items.len() == 1 {
        enc_json(items[0])
    } else {
        enc_list(items.drop_last()) + ","@ + enc_json(items.last())
    }
}

/// The encoded entries of a JSON object, comma separated.
pub open spec fn enc_entries(entries: Seq<(Seq<char>, JVal)>) -> Seq<char>
    decreases entries,
{
    if entries.len() == 0 {
        Seq::empty()
    } else if entries.len() == 1 {
        enc_string(entries[0].0) + ":"@ + enc_json(entries[0].1)
    } else {
        enc_entries(entries.drop_last()) + ","@ + enc_string(entries.last().0) + ":"@ + enc_json(
            entries.last().1,
        )
    }
}

/// One lower-case hex digit for a value below 16.
fn hex_digit_str(n: u32) -> (r: &'static str)
    requires
        n < 16,
    ensures
        r@ == hex_digit(n as int),
{
    match n {
        0 => "0",
        1 => "1",
        2 => "2",
        3 => "3",
        4 => "4",
        5 => "5",
        6 => "6",
        7 => "7",
        8 => "8",
        9 => "9",
        10 => "a",
        11 => "b",
        12 => "c",
        13 => "d",
        14 => "e",
        _ => "f",
    }
}

/// Append the escaped form of the character at position `i` of `s` to `out`.
fn write_esc_char(s: &str, i: usize, out: &mut String)
    requires
        i < s@.len(),
        s@.len() <= usize::MAX,
    ensures
        final(out)@ == old(out)@ + esc_char(s@[i as int]),
{
    let c = s.get_char(i);
    if c == '"' {
        out.append("\\\"");
    } else if c == '\\' {
        out.append("\\\\");
    } else if c == '\n' {
        out.append("\\n");
    } else if c == '\t' {
        out.append("\\t");
    } else if c == '\r' {
        out.append("\\r");
    } else if c == '\u{8}' {
        out.append("\\b");
    } else if c == '\u{c}' {
        out.append("\\f");
    } else if (c as u32) < 32 {
        out.append("\\u00");
        out.append(hex_digit_str((c as u32) / 16));
        out.append(hex_digit_str((c as u32) % 16));
    } else {
        let one = s.substring_char(i, i + 1);
        proof {
            assert(s@.subrange(i as int, i + 1) =~= seq![s@[i as int]]);
        }
        out.append(one);
    }
}

/// Append the encoded form of a JSON string (quotes included) to `out`.
fn write_json_string(s: &str, out: &mut String)
    ensures
        final(out)@ == old(out)@ + enc_string(s@),
{
    let n = s.unicode_len();
    out.append("\"");
    let mut i: usize = 0;
    while i < n
        invariant
            n == s@.len(),
            i <= n,
            out@ == old(out)@ + "\""@ + enc_str_body(s@.subrange(0, i as int)),
        decreases n - i,
    {
        write_esc_char(s, i, out);
        proof {
            assert(s@.subrange(0, i + 1).drop_last() =~= s@.subrange(0, i as int));
            assert(s@.subrange(0, i + 1).last() == s@[i as int]);
        }
        i = i + 1;
    }
    out.append("\"");
    proof {
        assert(s@.subrange(0, s@.len() as int) =~= s@);
    }
}

/// Append the canonical text encoding of `v` to `out`.
pub fn write_json(v: &JsonValue, out: &mut String)
    ensures
        final(out)@ == old(out)@ + enc_json(jv(*v)),
    decreases *v,
{
    match v {
        JsonValue::Null => out.append("null"),
        JsonValue::Bool(b) => if *b {
            out.append("true")
        } else {
            out.append("false")
        },
        JsonValue::Num(s) => out.append(s.as_str()),
        JsonValue::Str(s) => write_json_string(s.as_str(), out),
        JsonValue::Arr(items) => {
            out.append("[");
            let mut i: usize = 0;
            while i < items.len()
                invariant
                    i <= items.len(),
                    *v == JsonValue::Arr(*items),
                    out@ == old(out)@ + "["@ + enc_list(jv_list(items@.subrange(0, i as int))),
                decreases items.len() - i,
            {
                if i > 0 {
                    out.append(",");
                }
                proof {
                    assert(*items == v->Arr_0);
                    assert(decreases_to!(*v => v->Arr_0));
                    vstd::std_specs::vec::axiom_vec_decreases_to_view::<JsonValue>(*items);
                    vstd::seq::axiom_seq_index_decreases::<JsonValue>(items@, i as int);
                    assert(decreases_to!(*v => items@[i as int]));
                }
                write_json(&items[i], out);
                proof {
                    assert(items@.subrange(0, i + 1) =~= items@.subrange(0, i as int).push(
                        items@[i as int],
                    ));
                    lemma_jv_list_push(items@.subrange(0, i as int), items@[i as int]);
                    let pre = jv_list(items@.subrange(0, i as int));
                    let cur = jv(items@[i as int]);
                    assert(pre.push(cur).drop_last() =~= pre);
                    assert(pre.push(cur).last() == cur);
                }
                i = i + 1;
            }
            out.append("]");
            proof {
                assert(items@.subrange(0, items@.len() as int) =~= items@);
            }
        },
        JsonValue::Obj(entries) => {
            out.append("{");
            let mut i: usize = 0;
            while i < entries.len()
                invariant
                    i <= entries.len(),
                    *v == JsonValue::Obj(*entries),
                    out@ == old(out)@ + "{"@ + enc_entries(jv_entries(entries@.subrange(0, i as int))),
                decreases entries.len() - i,
            {
                if i > 0 {
                    out.append(",");
                }
                write_json_string(entries[i].0.as_str(), out);
                out.append(":");
                proof {
                    assert(*entries == v->Obj_0);
                    assert(decreases_to!(*v => v->Obj_0));
                    vstd::std_specs::vec::axiom_vec_decreases_to_view::<(String, JsonValue)>(
                        *entries,
                    );
                    vstd::seq::axiom_seq_index_decreases::<(String, JsonValue)>(entries@, i as int);
                    assert(decreases_to!(entries@[i as int] => entries@[i as int].1));
                    assert(decreases_to!(*v => entries@[i as int].1));
                }
                write_json(&entries[i].1, out);
                proof {
                    assert(entries@.subrange(0, i + 1) =~= entries@.subrange(0, i as int).push(
                        entries@[i as int],
                    ));
                    lemma_jv_entries_push(entries@.subrange(0, i as int), entries@[i as int]);
                    let pre = jv_entries(entries@.subrange(0, i as int));
                    let cur = (entries@[i as int].0@, jv(entries@[i as int].1));
                    assert(pre.push(cur).drop_last() =~= pre);
                    assert(pre.push(cur).last() == cur);
                }
                i = i + 1;
            }
            out.append("}");
            proof {
                assert(entries@.subrange(0, entries@.len() as int) =~= entries@);
            }
        },
    }
}

/// The canonical text encoding of a JSON document as a fresh string.
pub fn to_text(v: &JsonValue) -> (r: String)
    ensures
        r@ == enc_json(jv(*v)),
{
    let mut out = String::new();
    write_json(v, &mut out);
    out
}

/// One decimal digit, as text.
pub open spec fn dec_digit(n: int) -> Seq<char> {
    if n == 0 {
        "0"@
    } else if n == 1 {
        "1"@
    } else if n == 2 {
        "2"@
    } else if n == 3 {
        "3"@
    } else if n == 4 {
        "4"@
    } else if n == 5 {
        "5"@
    } else if n == 6 {
        "6"@
    } else if n == 7 {
        "7"@
    } else if n == 8 {
        "8"@
    } else {
        "9"@
    }
}

/// The decimal representation of a machine integer, most significant digit first.
pub open spec fn dec_rep(n: int) -> Seq<char>
    decreases n,
{
    if n < 10 {
        dec_digit(n)
    } else {
        dec_rep(n / 10) + dec_digit(n % 10)
    }
}

/// One decimal digit for a value below 10.
fn dec_digit_str(n: u64) -> (r: &'static str)
    requires
        n < 10,
    ensures
        r@ == dec_digit(n as int),
{
    match n {
        0 => "0",
        1 => "1",
        2 => "2",
        3 => "3",
        4 => "4",
        5 => "5",
        6 => "6",
        7 => "7",
        8 => "8",
        _ => "9",
    }
}

/// Format an integer in decimal, for use as a JSON number literal.
pub fn u64_to_dec(n: u64) -> (r: String)
    ensures
        r@ == dec_rep(n as int),
    decreases n,
{
    if n < 10 {
        let mut s = String::new();
        s.append(dec_digit_str(n));
        s
    } else {
        let mut s = u64_to_dec(n / 10);
        s.append(dec_digit_str(n % 10));
        s
    }
}


// ---------------------------------------------------------------------------
// Parsing: the grammar below is the specification of the wire format the
// crate accepts.  The executable parser is proved to return exactly what the
// specification says, character for character.
// ---------------------------------------------------------------------------

/// JSON insignificant whitespace.
pub open spec fn is_ws(c: char) -> bool {
    c == ' ' || c == '\t' || c == '\n' || c == '\r'
}

/// The first position at or after `i` holding a non-whitespace character.
pub open spec fn sp_ws(s: Seq<char>, i: int) -> int
    decreases s.len() - i,
{
    if 0 <= i < s.len() && is_ws(s[i]) {
        sp_ws(s, i + 1)
    } else {
        i
    }
}

/// An ASCII decimal digit.
pub open spec fn is_digit(c: char) -> bool {
    48 <= c as u32 <= 57
}

/// The value of a hexadecimal digit character.
pub open spec fn hex_val(c: char) -> Option<int> {
    let u = c as u32;
    if 48 <= u <= 57 {
        Some(u - 48)
    } else if 97 <= u <= 102 {
        Some(u - 97 + 10)
    } else if 65 <= u <= 70 {
        Some(u - 65 + 10)
    } else {
        None
    }
}

/// The value of the four hex digits at position `i`.
pub open spec fn hex4(s: Seq<char>, i: int) -> Option<int> {
    if 0 <= i && i + 3 < s.len() {
        match (hex_val(s[i]), hex_val(s[i + 1]), hex_val(s[i + 2]), hex_val(s[i + 3])) {
            (Some(h3), Some(h2), Some(h1), Some(h0)) => Some(
                h3 * 4096 + h2 * 256 + h1 * 16 + h0,
            ),
            _ => None,
        }
    } else {
        None
    }
}

/// A UTF-16 high (leading) surrogate code.
pub open spec fn is_high_surrogate(n: int) -> bool {
    0xD800 <= n < 0xDC00
}

/// A UTF-16 low (trailing) surrogate code.
pub open spec fn is_low_surrogate(n: int) -> bool {
    0xDC00 <= n < 0xE000
}

/// The character denoted by a single-character escape.
pub open spec fn un_esc(c: char) -> Option<char> {
    if c == '"' {
        Some('"')
    } else if c == '\\' {
        Some('\\')
    } else if c == '/' {
        Some('/')
    } else if c == 'n' {
        Some('\n')
    } else if c == 't' {
        Some('\t')
    } else if c == 'r' {
        Some('\r')
    } else if c == 'b' {
        Some('\u{8}')
    } else if c == 'f' {
        Some('\u{c}')
    } else {
        None
    }
}

/// Parse the body of a JSON string starting just after the opening quote.
/// Returns the decoded content and the position just after the closing quote.
/// A `\u` escape may denote any scalar value: four hex digits for a
/// character of the basic plane, a high-low surrogate pair for a
/// supplementary character; a lone or reversed surrogate is rejected.
pub open spec fn sp_str_body(s: Seq<char>, i: int) -> Option<(Seq<char>, int)>
    decreases s.len() - i,
{
    if !(0 <= i < s.len()) {
        None
    } else if s[i] == '"' {
        Some((Seq::empty(), i + 1))
    } else if s[i] == '\\' {
        if i + 1 < s.len() {
            if s[i + 1] == 'u' {
                match hex4(s, i + 2) {
                    Some(code) => {
                        if is_high_surrogate(code) {
                            if i + 7 < s.len() && s[i + 6] == '\\' && s[i + 7] == 'u' {
                                match hex4(s, i + 8) {
                                    Some(lo) => if is_low_surrogate(lo) {
                                        let combined = 0x10000 + (code - 0xD800) * 0x400 + (lo
                                            - 0xDC00);
                                        match sp_str_body(s, i + 12) {
                                            Some((rest, j)) => Some(
                                                (seq![combined as char] + rest, j),
                                            ),
                                            None => None,
                                        }
                                    } else {
                                        None
                                    },
                                    None => None,
                                }
                            } else {
                                None
                            }
                        } else if is_low_surrogate(code) {
                            None
                        } else {
                            match sp_str_body(s, i + 6) {
                                Some((rest, j)) => Some((seq![code as char] + rest, j)),
                                None => None,
                            }
                        }
                    },
                    None => None,
                }
            } else {
                match un_esc(s[i + 1]) {
                    Some(c) => match sp_str_body(s, i + 2) {
                        Some((rest, j)) => Some((seq![c] + rest, j)),
                        None => None,
                    },
                    None => None,
                }
            }
        } else {
            None
        }
    } else if (s[i] as u32) < 32 {
        None
    } else {
        match sp_str_body(s, i + 1) {
            Some((rest, j)) => Some((seq![s[i]] + rest, j)),
            None => None,
        }
    }
}

/// The end of the digit run starting at `i`.
pub open spec fn sp_digits(s: Seq<char>, i: int) -> int
    decreases s.len() - i,
{
    if 0 <= i < s.len() && is_digit(s[i]) {
        sp_digits(s, i + 1)
    } else {
        i
    }
}

/// Parse a JSON number literal starting at `i`; returns the end position.
pub open spec fn sp_number(s: Seq<char>, i: int) -> Option<int> {
    let a = if 0 <= i < s.len() && s[i] == '-' {
        i + 1
    } else {
        i
    };
    if !(0 <= a < s.len() && is_digit(s[a])) {
        None
    } else {
        let b = if s[a] == '0' {
            a + 1
        } else {
            sp_digits(s, a)
        };
        let c = if b < s.len() && s[b] == '.' {
            if b + 1 < s.len() && is_digit(s[b + 1]) {
                Some(sp_digits(s, b + 1))
            } else {
                None
            }
        } else {
            Some(b)
        };
        match c {
            None => None,
            Some(c) => {
                if c < s.len() && (s[c] == 'e' || s[c] == 'E') {
                    let e0 = if c + 1 < s.len() && (s[c + 1] == '+' || s[c + 1] == '-') {
                        c + 2
                    } else {
                        c + 1
                    };
                    if e0 < s.len() && is_digit(s[e0]) {
                        Some(sp_digits(s, e0))
                    } else {
                        None
                    }
                } else {
                    Some(c)
                }
            },
        }
    }
}

/// Parse one JSON value starting at `i` (leading whitespace allowed).
/// Returns the value and the position just after it.
pub open spec fn sp_value(s: Seq<char>, i: int, fuel: nat) -> Option<(JVal, int)>
    decreases fuel,
{
    if fuel == 0 {
        None
    } else {
        let f = (fuel - 1) as nat;
        let j = sp_ws(s, i);
        if !(0 <= j < s.len()) {
            None
        } else {
            let c = s[j];
            if c == 'n' {
                if j + 4 <= s.len() && s[j + 1] == 'u' && s[j + 2] == 'l' && s[j + 3] == 'l' {
                    Some((JVal::Null, j + 4))
                } else {
                    None
                }
            } else if c == 't' {
                if j + 4 <= s.len() && s[j + 1] == 'r' && s[j + 2] == 'u' && s[j + 3] == 'e' {
                    Some((JVal::Bool(true), j + 4))
                } else {
                    None
                }
            } else if c == 'f' {
                if j + 5 <= s.len() && s[j + 1] == 'a' && s[j + 2] == 'l' && s[j + 3] == 's' && s[j
                    + 4] == 'e' {
                    Some((JVal::Bool(false), j + 5))
                } else {
                    None
                }
            } else if c == '"' {
                match sp_str_body(s, j + 1) {
                    Some((cs, k)) => Some((JVal::Str(cs), k)),
                    None => None,
                }
            } else if c == '[' {
                let k = sp_ws(s, j + 1);
                if 0 <= k < s.len() && s[k] == ']' {
                    Some((JVal::Arr(Seq::empty()), k + 1))
                } else {
                    match sp_elems(s, j + 1, f) {
                        Some((vs, m)) => Some((JVal::Arr(vs), m)),
                        None => None,
                    }
                }
            } else if c == '{' {
                let k = sp_ws(s, j + 1);
                if 0 <= k < s.len() && s[k] == '}' {
                    Some((JVal::Obj(Seq::empty()), k + 1))
                } else {
                    match sp_members(s, j + 1, f) {
                        Some((es, m)) => Some((JVal::Obj(es), m)),
                        None => None,
                    }
                }
            } else if c == '-' || is_digit(c) {
                match sp_number(s, j) {
                    Some(e) => Some((JVal::Num(s.subrange(j, e)), e)),
                    None => None,
                }
            } else {
                None
            }
        }
    }
}

/// Parse the elements of a non-empty array, up to and including the `]`.
pub open spec fn sp_elems(s: Seq<char>, i: int, fuel: nat) -> Option<(Seq<JVal>, int)>
    decreases fuel,
{
    if fuel == 0 {
        None
    } else {
        let f = (fuel - 1) as nat;
        match sp_value(s, i, f) {
            Some((v, j)) => {
                let k = sp_ws(s, j);
                if 0 <= k < s.len() && s[k] == ',' {
                    match sp_elems(s, k + 1, f) {
                        Some((vs, m)) => Some((seq![v] + vs, m)),
                        None => None,
                    }
                } else if 0 <= k < s.len() && s[k] == ']' {
                    Some((seq![v], k + 1))
                } else {
                    None
                }
            },
            None => None,
        }
    }
}

/// Parse the members of a non-empty object, up to and including the `}`.
pub open spec fn sp_members(s: Seq<char>, i: int, fuel: nat) -> Option<
    (Seq<(Seq<char>, JVal)>, int),
>
    decreases fuel,
{
    if fuel == 0 {
        None
    } else {
        let f = (fuel - 1) as nat;
        let j = sp_ws(s, i);
        if 0 <= j < s.len() && s[j] == '"' {
            match sp_str_body(s, j + 1) {
                Some((key, k)) => {
                    let m = sp_ws(s, k);
                    if 0 <= m < s.len() && s[m] == ':' {
                        match sp_value(s, m + 1, f) {
                            Some((v, p)) => {
                                let q = sp_ws(s, p);
                                if 0 <= q < s.len() && s[q] == ',' {
                                    match sp_members(s, q + 1, f) {
                                        Some((es, r)) => Some((seq![(key, v)] + es, r)),
                                        None => None,
                                    }
                                } else if 0 <= q < s.len() && s[q] == '}' {
                                    Some((seq![(key, v)], q + 1))
                                } else {
                                    None
                                }
                            },
                            None => None,
                        }
                    } else {
                        None
                    }
                },
                None => None,
            }
        } else {
            None
        }
    }
}

/// The fuel that suffices for any document of the given length: parsing
/// consumes at least one character for every two fuel steps.
pub open spec fn parse_fuel(len: nat) -> nat {
    2 * len + 4
}

/// The document denoted by a complete JSON text: one value, with nothing but
/// whitespace around it.
pub open spec fn json_decode(s: Seq<char>) -> Option<JVal> {
    match sp_value(s, 0, parse_fuel(s.len())) {
        Some((v, j)) => if sp_ws(s, j) == s.len() {
            Some(v)
        } else {
            None
        },
        None => None,
    }
}

/// The model of a one-element list.
pub proof fn lemma_jv_list_singleton(v: JsonValue)
    ensures
        jv_list(seq![v]) == seq![jv(v)],
{
    assert(seq![v].drop_last() =~= Seq::<JsonValue>::empty());
    assert(jv_list(Seq::<JsonValue>::empty()) == Seq::<JVal>::empty());
    assert(seq![v].last() == v);
    assert(jv_list(seq![v]) == jv_list(seq![v].drop_last()).push(jv(v)));
    assert(Seq::<JVal>::empty().push(jv(v)) =~= seq![jv(v)]);
}

/// The model of a one-entry list.
pub proof fn lemma_jv_entries_singleton(e: (String, JsonValue))
    ensures
        jv_entries(seq![e]) == seq![(e.0@, jv(e.1))],
{
    assert(seq![e].drop_last() =~= Seq::<(String, JsonValue)>::empty());
    assert(jv_entries(Seq::<(String, JsonValue)>::empty()) == Seq::<(Seq<char>, JVal)>::empty());
    assert(seq![e].last() == e);
    assert(jv_entries(seq![e]) == jv_entries(seq![e].drop_last()).push((e.0@, jv(e.1))));
    assert(Seq::<(Seq<char>, JVal)>::empty().push((e.0@, jv(e.1))) =~= seq![(e.0@, jv(e.1))]);
}

/// Whether a list of trees models a given list, prepended with one value.
pub proof fn lemma_jv_list_prepend(v: JsonValue, s: Seq<JsonValue>)
    ensures
        jv_list(seq![v] + s) == seq![jv(v)] + jv_list(s),
    decreases s.len(),
{
    if s.len() == 0 {
        assert(seq![v] + s =~= seq![v]);
        lemma_jv_list_singleton(v);
        assert(seq![jv(v)] + jv_list(s) =~= seq![jv(v)]);
    } else {
        lemma_jv_list_prepend(v, s.drop_last());
        assert((seq![v] + s).drop_last() =~= seq![v] + s.drop_last());
        assert((seq![v] + s).last() == s.last());
        assert((seq![jv(v)] + jv_list(s.drop_last())).push(jv(s.last())) =~= seq![jv(v)]
            + jv_list(s.drop_last()).push(jv(s.last())));
    }
}

/// The entry-list analogue of `lemma_jv_list_prepend`.
pub proof fn lemma_jv_entries_prepend(e: (String, JsonValue), s: Seq<(String, JsonValue)>)
    ensures
        jv_entries(seq![e] + s) == seq![(e.0@, jv(e.1))] + jv_entries(s),
    decreases s.len(),
{
    if s.len() == 0 {
        assert(seq![e] + s =~= seq![e]);
        lemma_jv_entries_singleton(e);
        assert(seq![(e.0@, jv(e.1))] + jv_entries(s) =~= seq![(e.0@, jv(e.1))]);
    } else {
        lemma_jv_entries_prepend(e, s.drop_last());
        assert((seq![e] + s).drop_last() =~= seq![e] + s.drop_last());
        assert((seq![e] + s).last() == s.last());
        assert((seq![(e.0@, jv(e.1))] + jv_entries(s.drop_last())).push(
            (s.last().0@, jv(s.last().1)),
        ) =~= seq![(e.0@, jv(e.1))] + jv_entries(s.drop_last()).push((s.last().0@, jv(s.last().1))));
    }
}

fn is_ws_char(c: char) -> (r: bool)
    ensures
        r == is_ws(c),
{
    c == ' ' || c == '\t' || c == '\n' || c == '\r'
}

fn is_digit_char(c: char) -> (r: bool)
    ensures
        r == is_digit(c),
{
    let u = c as u32;
    48 <= u && u <= 57
}

fn hex_val_u32(c: char) -> (r: Option<u32>)
    ensures
        match hex_val(c) {
            Some(h) => r matches Some(u) && u as int == h && u < 16,
            None => r is None,
        },
{
    let u = c as u32;
    if 48 <= u && u <= 57 {
        Some(u - 48)
    } else if 97 <= u && u <= 102 {
        Some(u - 97 + 10)
    } else if 65 <= u && u <= 70 {
        Some(u - 65 + 10)
    } else {
        None
    }
}

fn un_esc_str(c: char) -> (r: Option<&'static str>)
    ensures
        match un_esc(c) {
            Some(ch) => r matches Some(cs) && cs@ == seq![ch],
            None => r is None,
        },
{
    if c == '"' {
        proof {
            reveal_strlit("\"");
        }
        Some("\"")
    } else if c == '\\' {
        proof {
            reveal_strlit("\\");
        }
        Some("\\")
    } else if c == '/' {
        proof {
            reveal_strlit("/");
        }
        Some("/")
    } else if c == 'n' {
        proof {
            reveal_strlit("\n");
        }
        Some("\n")
    } else if c == 't' {
        proof {
            reveal_strlit("\t");
        }
        Some("\t")
    } else if c == 'r' {
        proof {
            reveal_strlit("\r");
        }
        Some("\r")
    } else if c == 'b' {
        proof {
            reveal_strlit("\u{8}");
        }
        Some("\u{8}")
    } else if c == 'f' {
        proof {
            reveal_strlit("\u{c}");
        }
        Some("\u{c}")
    } else {
        None
    }
}

fn p_ws(s: &str, n: usize, i: usize) -> (r: usize)
    requires
        n == s@.len(),
        i <= n,
    ensures
        r as int == sp_ws(s@, i as int),
        i <= r <= n,
{
    let mut j = i;
    loop
        invariant
            n == s@.len(),
            i <= j <= n,
            sp_ws(s@, i as int) == sp_ws(s@, j as int),
        ensures
            i <= j <= n,
            sp_ws(s@, i as int) == j as int,
        decreases n - j,
    {
        if j == n {
            break ;
        }
        let c = s.get_char(j);
        if !is_ws_char(c) {
            break ;
        }
        proof {
            assert(sp_ws(s@, j as int) == sp_ws(s@, j + 1 as int));
        }
        j = j + 1;
    }
    j
}

pub(crate) fn p_digits(s: &str, n: usize, i: usize) -> (r: usize)
    requires
        n == s@.len(),
        i <= n,
    ensures
        r as int == sp_digits(s@, i as int),
        i <= r <= n,
{
    let mut j = i;
    loop
        invariant
            n == s@.len(),
            i <= j <= n,
            sp_digits(s@, i as int) == sp_digits(s@, j as int),
        ensures
            i <= j <= n,
            sp_digits(s@, i as int) == j as int,
        decreases n - j,
    {
        if j == n {
            break ;
        }
        let c = s.get_char(j);
        if !is_digit_char(c) {
            break ;
        }
        proof {
            assert(sp_digits(s@, j as int) == sp_digits(s@, j + 1 as int));
        }
        j = j + 1;
    }
    j
}

/// Relies on char::from_u32: `Some` exactly for Unicode scalar values, and
/// the returned character carries the given code.
#[verifier::external_body]
fn char_from_u32(n: u32) -> (r: Option<char>)
    ensures
        r matches Some(c) ==> c as u32 == n,
        r is Some <==> (n < 0xD800 || (0xE000 <= n && n <= 0x10FFFF)),
{
    char::from_u32(n)
}

/// Relies on String::push: appends exactly the one character.
#[verifier::external_body]
fn push_char(s: &mut String, c: char)
    ensures
        final(s)@ == old(s)@ + seq![c],
{
    s.push(c);
}

fn p_hex4(s: &str, n: usize, i: usize) -> (r: Option<u32>)
    requires
        n == s@.len(),
        i <= n,
    ensures
        match r {
            Some(v) => hex4(s@, i as int) == Some(v as int) && v < 0x10000,
            None => hex4(s@, i as int) is None,
        },
{
    if n - i > 3 {
        let h3 = hex_val_u32(s.get_char(i));
        let h2 = hex_val_u32(s.get_char(i + 1));
        let h1 = hex_val_u32(s.get_char(i + 2));
        let h0 = hex_val_u32(s.get_char(i + 3));
        match (h3, h2, h1, h0) {
            (Some(a3), Some(a2), Some(a1), Some(a0)) => Some(
                a3 * 4096 + a2 * 256 + a1 * 16 + a0,
            ),
            _ => None,
        }
    } else {
        None
    }
}

fn p_str_body(s: &str, n: usize, i: usize) -> (r: Option<(String, usize)>)
    requires
        n == s@.len(),
        i <= n,
    ensures
        (match r {
            Some(p) => sp_str_body(s@, i as int) matches Some(sp) && p.0@ == sp.0 && p.1 as int
                == sp.1 && p.1 <= n,
            None => sp_str_body(s@, i as int) is None,
        }),
    decreases n - i,
{
    if i >= n {
        return None;
    }
    let c = s.get_char(i);
    if c == '"' {
        Some((String::new(), i + 1))
    } else if c == '\\' {
        if i + 1 < n {
            let e = s.get_char(i + 1);
            if e == 'u' {
                match p_hex4(s, n, i + 2) {
                    Some(code) => {
                        if 0xD800 <= code && code < 0xDC00 {
                            if n - i > 7 && s.get_char(i + 6) == '\\' && s.get_char(i + 7) == 'u' {
                                match p_hex4(s, n, i + 8) {
                                    Some(lo) => {
                                        if 0xDC00 <= lo && lo < 0xE000 {
                                            let combined = 0x10000 + (code - 0xD800) * 0x400 + (lo
                                                - 0xDC00);
                                            let c2 = match char_from_u32(combined) {
                                                Some(c2) => c2,
                                                None => {
                                                    proof {
                                                        assert(false);
                                                    }
                                                    return None;
                                                },
                                            };
                                            match p_str_body(s, n, i + 12) {
                                                Some((rest, j)) => {
                                                    let mut out = String::new();
                                                    push_char(&mut out, c2);
                                                    out.append(rest.as_str());
                                                    proof {
                                                        vstd::utf8::char_u32_cast(c2, combined);
                                                    }
                                                    Some((out, j))
                                                },
                                                None => None,
                                            }
                                        } else {
                                            None
                                        }
                                    },
                                    None => None,
                                }
                            } else {
                                None
                            }
                        } else if 0xDC00 <= code && code < 0xE000 {
                            None
                        } else {
                            let c2 = match char_from_u32(code) {
                                Some(c2) => c2,
                                None => {
                                    proof {
                                        assert(false);
                                    }
                                    return None;
                                },
                            };
                            match p_str_body(s, n, i + 6) {
                                Some((rest, j)) => {
                                    let mut out = String::new();
                                    push_char(&mut out, c2);
                                    out.append(rest.as_str());
                                    proof {
                                        vstd::utf8::char_u32_cast(c2, code);
                                    }
                                    Some((out, j))
                                },
                                None => None,
                            }
                        }
                    },
                    None => None,
                }
            } else {
                match un_esc_str(e) {
                    Some(cs) => match p_str_body(s, n, i + 2) {
                        Some((rest, j)) => {
                            let mut out = cs.to_owned();
                            out.append(rest.as_str());
                            Some((out, j))
                        },
                        None => None,
                    },
                    None => None,
                }
            }
        } else {
            None
        }
    } else if (c as u32) < 32 {
        None
    } else {
        match p_str_body(s, n, i + 1) {
            Some((rest, j)) => {
                let one = s.substring_char(i, i + 1);
                proof {
                    assert(s@.subrange(i as int, i + 1) =~= seq![s@[i as int]]);
                }
                let mut out = one.to_owned();
                out.append(rest.as_str());
                Some((out, j))
            },
            None => None,
        }
    }
}

fn p_number(s: &str, n: usize, i: usize) -> (r: Option<usize>)
    requires
        n == s@.len(),
        i < n,
    ensures
        (match r {
            Some(e) => sp_number(s@, i as int) == Some(e as int) && i <= e <= n,
            None => sp_number(s@, i as int) is None,
        }),
{
    let a = if s.get_char(i) == '-' {
        i + 1
    } else {
        i
    };
    if a >= n {
        return None;
    }
    let ca = s.get_char(a);
    if !is_digit_char(ca) {
        return None;
    }
    let b = if ca == '0' {
        a + 1
    } else {
        p_digits(s, n, a)
    };
    let c_end: Option<usize> = if b < n && s.get_char(b) == '.' {
        if b + 1 < n && is_digit_char(s.get_char(b + 1)) {
            Some(p_digits(s, n, b + 1))
        } else {
            None
        }
    } else {
        Some(b)
    };
    match c_end {
        None => None,
        Some(c) => {
            if c < n && (s.get_char(c) == 'e' || s.get_char(c) == 'E') {
                let e0 = if c + 1 < n && (s.get_char(c + 1) == '+' || s.get_char(c + 1) == '-') {
                    c + 2
                } else {
                    c + 1
                };
                if e0 < n && is_digit_char(s.get_char(e0)) {
                    Some(p_digits(s, n, e0))
                } else {
                    None
                }
            } else {
                Some(c)
            }
        },
    }
}

fn p_value(s: &str, n: usize, i: usize, fuel: u128) -> (r: Option<(JsonValue, usize)>)
    requires
        n == s@.len(),
        i <= n,
    ensures
        (match r {
            Some(p) => sp_value(s@, i as int, fuel as nat) matches Some(sp) && jv(p.0) == sp.0
                && p.1 as int == sp.1 && p.1 <= n,
            None => sp_value(s@, i as int, fuel as nat) is None,
        }),
    decreases fuel,
{
    if fuel == 0 {
        return None;
    }
    let j = p_ws(s, n, i);
    if j >= n {
        return None;
    }
    let c = s.get_char(j);
    if c == 'n' {
        if n - j >= 4 && s.get_char(j + 1) == 'u' && s.get_char(j + 2) == 'l' && s.get_char(j + 3)
            == 'l' {
            Some((JsonValue::Null, j + 4))
        } else {
            None
        }
    } else if c == 't' {
        if n - j >= 4 && s.get_char(j + 1) == 'r' && s.get_char(j + 2) == 'u' && s.get_char(j + 3)
            == 'e' {
            Some((JsonValue::Bool(true), j + 4))
        } else {
            None
        }
    } else if c == 'f' {
        if n - j >= 5 && s.get_char(j + 1) == 'a' && s.get_char(j + 2) == 'l' && s.get_char(j + 3)
            == 's' && s.get_char(j + 4) == 'e' {
            Some((JsonValue::Bool(false), j + 5))
        } else {
            None
        }
    } else if c == '"' {
        match p_str_body(s, n, j + 1) {
            Some((cs, k)) => Some((JsonValue::Str(cs), k)),
            None => None,
        }
    } else if c == '[' {
        let k = p_ws(s, n, j + 1);
        if k < n && s.get_char(k) == ']' {
            let items: Vec<JsonValue> = Vec::new();
            proof {
                assert(jv_list(items@) =~= Seq::<JVal>::empty());
            }
            Some((JsonValue::Arr(items), k + 1))
        } else {
            match p_elems(s, n, j + 1, fuel - 1) {
                Some((vs, m)) => Some((JsonValue::Arr(vs), m)),
                None => None,
            }
        }
    } else if c == '{' {
        let k = p_ws(s, n, j + 1);
        if k < n && s.get_char(k) == '}' {
            let entries: Vec<(String, JsonValue)> = Vec::new();
            proof {
                assert(jv_entries(entries@) =~= Seq::<(Seq<char>, JVal)>::empty());
            }
            Some((JsonValue::Obj(entries), k + 1))
        } else {
            match p_members(s, n, j + 1, fuel - 1) {
                Some((es, m)) => Some((JsonValue::Obj(es), m)),
                None => None,
            }
        }
    } else if c == '-' || is_digit_char(c) {
        match p_number(s, n, j) {
            Some(e) => {
                let lit = s.substring_char(j, e);
                Some((JsonValue::Num(lit.to_owned()), e))
            },
            None => None,
        }
    } else {
        None
    }
}

fn p_elems(s: &str, n: usize, i: usize, fuel: u128) -> (r: Option<(Vec<JsonValue>, usize)>)
    requires
        n == s@.len(),
        i <= n,
    ensures
        (match r {
            Some(p) => sp_elems(s@, i as int, fuel as nat) matches Some(sp) && jv_list(p.0@)
                == sp.0 && p.1 as int == sp.1 && p.1 <= n,
            None => sp_elems(s@, i as int, fuel as nat) is None,
        }),
    decreases fuel,
{
    if fuel == 0 {
        return None;
    }
    match p_value(s, n, i, fuel - 1) {
        Some((v, j)) => {
            let k = p_ws(s, n, j);
            if k < n && s.get_char(k) == ',' {
                match p_elems(s, n, k + 1, fuel - 1) {
                    Some((rest, m)) => {
                        let mut out: Vec<JsonValue> = Vec::new();
                        out.push(v);
                        let mut rest = rest;
                        proof {
                            lemma_jv_list_prepend(out@[0], rest@);
                            assert(out@ + rest@ =~= seq![out@[0]] + rest@);
                        }
                        out.append(&mut rest);
                        Some((out, m))
                    },
                    None => None,
                }
            } else if k < n && s.get_char(k) == ']' {
                let mut out: Vec<JsonValue> = Vec::new();
                out.push(v);
                proof {
                    assert(out@ =~= seq![v]);
                    lemma_jv_list_singleton(v);
                }
                Some((out, k + 1))
            } else {
                None
            }
        },
        None => None,
    }
}

fn p_members(s: &str, n: usize, i: usize, fuel: u128) -> (r: Option<
    (Vec<(String, JsonValue)>, usize),
>)
    requires
        n == s@.len(),
        i <= n,
    ensures
        (match r {
            Some(p) => sp_members(s@, i as int, fuel as nat) matches Some(sp) && jv_entries(p.0@)
                == sp.0 && p.1 as int == sp.1 && p.1 <= n,
            None => sp_members(s@, i as int, fuel as nat) is None,
        }),
    decreases fuel,
{
    if fuel == 0 {
        return None;
    }
    let j = p_ws(s, n, i);
    if j < n && s.get_char(j) == '"' {
        match p_str_body(s, n, j + 1) {
            Some((key, k)) => {
                let m = p_ws(s, n, k);
                if m < n && s.get_char(m) == ':' {
                    match p_value(s, n, m + 1, fuel - 1) {
                        Some((v, p)) => {
                            let q = p_ws(s, n, p);
                            if q < n && s.get_char(q) == ',' {
                                match p_members(s, n, q + 1, fuel - 1) {
                                    Some((rest, rpos)) => {
                                        let mut out: Vec<(String, JsonValue)> = Vec::new();
                                        out.push((key, v));
                                        let mut rest = rest;
                                        proof {
                                            lemma_jv_entries_prepend(out@[0], rest@);
                                            assert(out@ + rest@ =~= seq![out@[0]] + rest@);
                                        }
                                        out.append(&mut rest);
                                        Some((out, rpos))
                                    },
                                    None => None,
                                }
                            } else if q < n && s.get_char(q) == '}' {
                                let mut out: Vec<(String, JsonValue)> = Vec::new();
                                out.push((key, v));
                                proof {
                                    assert(out@ =~= seq![(key, v)]);
                                    lemma_jv_entries_singleton(out@[0]);
                                }
                                Some((out, q + 1))
                            } else {
                                None
                            }
                        },
                        None => None,
                    }
                } else {
                    None
                }
            },
            None => None,
        }
    } else {
        None
    }
}

/// Parse a complete JSON text: one value with only whitespace around it.
/// Returns the document, or `None` when the text is not valid JSON.
pub fn parse_json(s: &str) -> (r: Option<JsonValue>)
    ensures
        (match r {
            Some(v) => json_decode(s@) matches Some(sv) && jv(v) == sv,
            None => json_decode(s@) is None,
        }),
{
    let n = s.unicode_len();
    let fuel: u128 = 2 * (n as u128) + 4;
    proof {
        assert(fuel as nat == parse_fuel(s@.len()));
    }
    match p_value(s, n, 0, fuel) {
        Some((v, j)) => {
            let k = p_ws(s, n, j);
            if k == n {
                Some(v)
            } else {
                None
            }
        },
        None => None,
    }
}

// ---------------------------------------------------------------------------
// Helpers for reading decoded documents field by field.
// ---------------------------------------------------------------------------

/// The length and items of a modelled list.
pub proof fn lemma_jv_list_props(s: Seq<JsonValue>)
    ensures
        jv_list(s).len() == s.len(),
        forall|i: int| 0 <= i < s.len() ==> jv_list(s)[i] == jv(s[i]),
    decreases s.len(),
{
    if s.len() > 0 {
        lemma_jv_list_props(s.drop_last());
        assert forall|i: int| 0 <= i < s.len() implies jv_list(s)[i] == jv(s[i]) by {
            if i < s.len() - 1 {
                assert(s.drop_last()[i] == s[i]);
            }
        }
    }
}

/// The length and items of a modelled entry list.
pub proof fn lemma_jv_entries_props(s: Seq<(String, JsonValue)>)
    ensures
        jv_entries(s).len() == s.len(),
        forall|i: int|
            0 <= i < s.len() ==> jv_entries(s)[i] == (s[i].0@, jv(s[i].1)),
    decreases s.len(),
{
    if s.len() > 0 {
        lemma_jv_entries_props(s.drop_last());
        assert forall|i: int|
            0 <= i < s.len() implies jv_entries(s)[i] == (s[i].0@, jv(s[i].1)) by {
            if i < s.len() - 1 {
                assert(s.drop_last()[i] == s[i]);
            }
        }
    }
}

/// The value of the first entry with the given key, searching from `i`.
pub open spec fn jv_get_from(es: Seq<(Seq<char>, JVal)>, key: Seq<char>, i: int) -> Option<JVal>
    decreases es.len() - i,
{
    if !(0 <= i < es.len()) {
        None
    } else if es[i].0 == key {
        Some(es[i].1)
    } else {
        jv_get_from(es, key, i + 1)
    }
}

/// The value of the first entry with the given key, if any.
pub open spec fn jv_get(es: Seq<(Seq<char>, JVal)>, key: Seq<char>) -> Option<JVal> {
    jv_get_from(es, key, 0)
}

/// Relies on str's PartialEq: two string slices compare equal exactly when
/// they hold the same characters.
#[verifier::external_body]
pub fn str_eq(a: &str, b: &str) -> (r: bool)
    ensures
        r == (a@ == b@),
{
    a == b
}

/// Look up the first entry of a decoded object with the given key.
pub fn obj_get<'a>(entries: &'a Vec<(String, JsonValue)>, key: &str) -> (r: Option<&'a JsonValue>)
    ensures
        match r {
            Some(v) => jv_get(jv_entries(entries@), key@) == Some(jv(*v)),
            None => jv_get(jv_entries(entries@), key@) is None,
        },
{
    proof {
        lemma_jv_entries_props(entries@);
    }
    let ghost model = jv_entries(entries@);
    let mut i: usize = 0;
    loop
        invariant
            i <= entries.len(),
            model == jv_entries(entries@),
            model.len() == entries@.len(),
            forall|k: int| 0 <= k < entries@.len() ==> model[k] == (entries@[k].0@, jv(entries@[k].1)),
            jv_get_from(model, key@, 0) == jv_get_from(model, key@, i as int),
        ensures
            i <= entries.len(),
            (i < entries.len() ==> jv_get_from(model, key@, 0) == Some(jv(entries@[i as int].1))
                && entries@[i as int].0@ == key@),
            (i == entries.len() ==> jv_get_from(model, key@, 0) is None),
        decreases entries.len() - i,
    {
        if i == entries.len() {
            break ;
        }
        if str_eq(entries[i].0.as_str(), key) {
            break ;
        }
        proof {
            assert(jv_get_from(model, key@, i as int) == jv_get_from(model, key@, i + 1 as int));
        }
        i = i + 1;
    }
    if i < entries.len() {
        Some(&entries[i].1)
    } else {
        None
    }
}

/// A string as a JSON document.
pub open spec fn spec_str_from(j: JVal) -> Option<Seq<char>> {
    match j {
        JVal::Str(s) => Some(s),
        _ => None,
    }
}

/// A bool as a JSON document.
pub open spec fn spec_bool_from(j: JVal) -> Option<bool> {
    match j {
        JVal::Bool(b) => Some(b),
        _ => None,
    }
}

/// Decode a list of JSON documents as strings, in order.
pub open spec fn dec_str_list(items: Seq<JVal>) -> Option<Seq<Seq<char>>>
    decreases items.len(),
{
    if items.len() == 0 {
        Some(Seq::empty())
    } else {
        match (dec_str_list(items.drop_last()), spec_str_from(items.last())) {
            (Some(init), Some(t)) => Some(init.push(t)),
            _ => None,
        }
    }
}

/// Extending a string list that already fails to decode still fails.
pub proof fn lemma_dec_str_list_none(items: Seq<JVal>, k: int)
    requires
        0 <= k <= items.len(),
        dec_str_list(items.take(k)) is None,
    ensures
        dec_str_list(items) is None,
    decreases items.len() - k,
{
    if k == items.len() {
        assert(items.take(k) =~= items);
    } else {
        assert(items.take(k + 1).drop_last() =~= items.take(k));
        lemma_dec_str_list_none(items, k + 1);
    }
}

/// Decode the values of an entry list as strings, keeping keys and order.
pub open spec fn dec_str_pairs(es: Seq<(Seq<char>, JVal)>) -> Option<Seq<(Seq<char>, Seq<char>)>>
    decreases es.len(),
{
    if es.len() == 0 {
        Some(Seq::empty())
    } else {
        match (dec_str_pairs(es.drop_last()), spec_str_from(es.last().1)) {
            (Some(init), Some(t)) => Some(init.push((es.last().0, t))),
            _ => None,
        }
    }
}

/// Extending an entry list that already fails to decode still fails.
pub proof fn lemma_dec_str_pairs_none(es: Seq<(Seq<char>, JVal)>, k: int)
    requires
        0 <= k <= es.len(),
        dec_str_pairs(es.take(k)) is None,
    ensures
        dec_str_pairs(es) is None,
    decreases es.len() - k,
{
    if k == es.len() {
        assert(es.take(k) =~= es);
    } else {
        assert(es.take(k + 1).drop_last() =~= es.take(k));
        lemma_dec_str_pairs_none(es, k + 1);
    }
}

/// Decode the values of an entry list as booleans, keeping keys and order.
pub open spec fn dec_bool_pairs(es: Seq<(Seq<char>, JVal)>) -> Option<Seq<(Seq<char>, bool)>>
    decreases es.len(),
{
    if es.len() == 0 {
        Some(Seq::empty())
    } else {
        match (dec_bool_pairs(es.drop_last()), spec_bool_from(es.last().1)) {
            (Some(init), Some(t)) => Some(init.push((es.last().0, t))),
            _ => None,
        }
    }
}

/// Extending an entry list that already fails to decode still fails.
pub proof fn lemma_dec_bool_pairs_none(es: Seq<(Seq<char>, JVal)>, k: int)
    requires
        0 <= k <= es.len(),
        dec_bool_pairs(es.take(k)) is None,
    ensures
        dec_bool_pairs(es) is None,
    decreases es.len() - k,
{
    if k == es.len() {
        assert(es.take(k) =~= es);
    } else {
        assert(es.take(k + 1).drop_last() =~= es.take(k));
        lemma_dec_bool_pairs_none(es, k + 1);
    }
}

/// The entries of an object with every entry under the given key removed.
pub open spec fn entries_sans(
    es: Seq<(Seq<char>, JVal)>,
    key: Seq<char>,
) -> Seq<(Seq<char>, JVal)>
    decreases es.len(),
{
    if es.len() == 0 {
        Seq::empty()
    } else {
        let init = entries_sans(es.drop_last(), key);
        if es.last().0 == key {
            init
        } else {
            init.push(es.last())
        }
    }
}

/// Copy an object's entries, dropping every entry under the given key.
pub fn entries_without_key(entries: &Vec<(String, JsonValue)>, key: &str) -> (r: Vec<
    (String, JsonValue),
>)
    ensures
        jv_entries(r@) == entries_sans(jv_entries(entries@), key@),
{
    proof {
        lemma_jv_entries_props(entries@);
    }
    let ghost model = jv_entries(entries@);
    let mut out: Vec<(String, JsonValue)> = Vec::new();
    let mut i: usize = 0;
    while i < entries.len()
        invariant
            i <= entries.len(),
            model == jv_entries(entries@),
            model.len() == entries@.len(),
            forall|k: int| 0 <= k < entries@.len() ==> model[k] == (entries@[k].0@, jv(entries@[k].1)),
            jv_entries(out@) == entries_sans(model.take(i as int), key@),
        decreases entries.len() - i,
    {
        proof {
            assert(model.take(i + 1).drop_last() =~= model.take(i as int));
            assert(model.take(i + 1).last() == model[i as int]);
        }
        if !str_eq(entries[i].0.as_str(), key) {
            let k2 = entries[i].0.clone();
            let v2 = entries[i].1.clone();
            proof {
                lemma_jv_entries_push(out@, (k2, v2));
            }
            out.push((k2, v2));
        }
        i = i + 1;
    }
    proof {
        assert(model.take(model.len() as int) =~= model);
    }
    out
}

/// A list of strings as a JSON document.
pub open spec fn spec_str_list_from(j: JVal) -> Option<Seq<Seq<char>>> {
    match j {
        JVal::Arr(items) => dec_str_list(items),
        _ => None,
    }
}

/// Decode an array of strings.
pub fn j_str_list(v: &JsonValue) -> (r: Option<Vec<String>>)
    ensures
        match r {
            Some(xs) => spec_str_list_from(jv(*v)) == Some(xs.deep_view()),
            None => spec_str_list_from(jv(*v)) is None,
        },
{
    match v {
        JsonValue::Arr(items) => {
            proof {
                lemma_jv_list_props(items@);
            }
            let ghost model = jv_list(items@);
            let mut out: Vec<String> = Vec::new();
            let mut i: usize = 0;
            while i < items.len()
                invariant
                    i <= items.len(),
                    *v == JsonValue::Arr(*items),
                    model == jv_list(items@),
                    model.len() == items@.len(),
                    forall|k: int| 0 <= k < items@.len() ==> model[k] == jv(items@[k]),
                    dec_str_list(model.take(i as int)) == Some(out.deep_view()),
                    out@.len() == i,
                decreases items.len() - i,
            {
                proof {
                    assert(model.take(i + 1).drop_last() =~= model.take(i as int));
                    assert(model.take(i + 1).last() == model[i as int]);
                }
                match &items[i] {
                    JsonValue::Str(s) => {
                        let ghost pre = out.deep_view();
                        out.push(s.clone());
                        proof {
                            assert(out.deep_view() =~= pre.push(s@));
                        }
                    },
                    _ => {
                        proof {
                            assert(model[i as int] == jv(items@[i as int]));
                            assert(spec_str_from(jv(items@[i as int])) is None);
                            lemma_dec_str_list_none(model, i + 1);
                            assert(jv(*v) == JVal::Arr(model));
                            assert(spec_str_list_from(JVal::Arr(model)) is None);
                        }
                        return None;
                    },
                }
                i = i + 1;
            }
            proof {
                assert(model.take(model.len() as int) =~= model);
            }
            Some(out)
        },
        _ => None,
    }
}

/// An object whose values are all strings, as ordered key-value pairs.
pub open spec fn spec_str_map_from(j: JVal) -> Option<Seq<(Seq<char>, Seq<char>)>> {
    match j {
        JVal::Obj(es) => dec_str_pairs(es),
        _ => None,
    }
}

/// Decode an object of string values into ordered key-value pairs.
pub fn j_str_map(v: &JsonValue) -> (r: Option<Vec<(String, String)>>)
    ensures
        match r {
            Some(xs) => spec_str_map_from(jv(*v)) == Some(xs.deep_view()),
            None => spec_str_map_from(jv(*v)) is None,
        },
{
    match v {
        JsonValue::Obj(entries) => {
            proof {
                lemma_jv_entries_props(entries@);
            }
            let ghost model = jv_entries(entries@);
            let mut out: Vec<(String, String)> = Vec::new();
            let mut i: usize = 0;
            while i < entries.len()
                invariant
                    i <= entries.len(),
                    *v == JsonValue::Obj(*entries),
                    model == jv_entries(entries@),
                    model.len() == entries@.len(),
                    forall|k: int| 0 <= k < entries@.len() ==> model[k] == (entries@[k].0@, jv(entries@[k].1)),
                    dec_str_pairs(model.take(i as int)) == Some(out.deep_view()),
                    out@.len() == i,
                decreases entries.len() - i,
            {
                proof {
                    assert(model.take(i + 1).drop_last() =~= model.take(i as int));
                    assert(model.take(i + 1).last() == model[i as int]);
                }
                match &entries[i].1 {
                    JsonValue::Str(s) => {
                        let ghost pre = out.deep_view();
                        let key = entries[i].0.clone();
                        out.push((key, s.clone()));
                        proof {
                            assert(out.deep_view() =~= pre.push((entries@[i as int].0@, s@)));
                        }
                    },
                    _ => {
                        proof {
                            assert(model[i as int].1 == jv(entries@[i as int].1));
                            assert(spec_str_from(jv(entries@[i as int].1)) is None);
                            lemma_dec_str_pairs_none(model, i + 1);
                            assert(jv(*v) == JVal::Obj(model));
                            assert(spec_str_map_from(JVal::Obj(model)) is None);
                        }
                        return None;
                    },
                }
                i = i + 1;
            }
            proof {
                assert(model.take(model.len() as int) =~= model);
            }
            Some(out)
        },
        _ => None,
    }
}

/// An object whose values are all booleans, as ordered key-value pairs.
pub open spec fn spec_bool_map_from(j: JVal) -> Option<Seq<(Seq<char>, bool)>> {
    match j {
        JVal::Obj(es) => dec_bool_pairs(es),
        _ => None,
    }
}

/// Decode an object of boolean values into ordered key-value pairs.
pub fn j_bool_map(v: &JsonValue) -> (r: Option<Vec<(String, bool)>>)
    ensures
        match r {
            Some(xs) => spec_bool_map_from(jv(*v)) == Some(xs.deep_view()),
            None => spec_bool_map_from(jv(*v)) is None,
        },
{
    match v {
        JsonValue::Obj(entries) => {
            proof {
                lemma_jv_entries_props(entries@);
            }
            let ghost model = jv_entries(entries@);
            let mut out: Vec<(String, bool)> = Vec::new();
            let mut i: usize = 0;
            while i < entries.len()
                invariant
                    i <= entries.len(),
                    *v == JsonValue::Obj(*entries),
                    model == jv_entries(entries@),
                    model.len() == entries@.len(),
                    forall|k: int| 0 <= k < entries@.len() ==> model[k] == (entries@[k].0@, jv(entries@[k].1)),
                    dec_bool_pairs(model.take(i as int)) == Some(out.deep_view()),
                    out@.len() == i,
                decreases entries.len() - i,
            {
                proof {
                    assert(model.take(i + 1).drop_last() =~= model.take(i as int));
                    assert(model.take(i + 1).last() == model[i as int]);
                }
                match &entries[i].1 {
                    JsonValue::Bool(b) => {
                        let ghost pre = out.deep_view();
                        let key = entries[i].0.clone();
                        out.push((key, *b));
                        proof {
                            assert(out.deep_view() =~= pre.push((entries@[i as int].0@, jv(entries@[i as int].1)->Bool_0)));
                        }
                    },
                    _ => {
                        proof {
                            assert(model[i as int].1 == jv(entries@[i as int].1));
                            assert(spec_bool_from(jv(entries@[i as int].1)) is None);
                            lemma_dec_bool_pairs_none(model, i + 1);
                            assert(jv(*v) == JVal::Obj(model));
                            assert(spec_bool_map_from(JVal::Obj(model)) is None);
                        }
                        return None;
                    },
                }
                i = i + 1;
            }
            proof {
                assert(model.take(model.len() as int) =~= model);
            }
            Some(out)
        },
        _ => None,
    }
}

/// A list of strings as a JSON array document.
pub open spec fn enc_str_list(ss: Seq<Seq<char>>) -> JVal {
    JVal::Arr(ss.map_values(|x: Seq<char>| JVal::Str(x)))
}

/// Encode a list of strings as a JSON array.
pub fn str_list_to_json(items: &Vec<String>) -> (r: JsonValue)
    ensures
        jv(r) == enc_str_list(items.deep_view()),
{
    let mut out: Vec<JsonValue> = Vec::new();
    let mut i: usize = 0;
    while i < items.len()
        invariant
            i <= items.len(),
            jv_list(out@) =~= items.deep_view().take(i as int).map_values(
                |x: Seq<char>| JVal::Str(x),
            ),
        decreases items.len() - i,
    {
        let e = JsonValue::Str(items[i].clone());
        proof {
            lemma_jv_list_push(out@, e);
        }
        out.push(e);
        proof {
            assert(jv_list(out@) =~= items.deep_view().take(i + 1).map_values(
                |x: Seq<char>| JVal::Str(x),
            ));
        }
        i = i + 1;
    }
    proof {
        assert(items.deep_view().take(items@.len() as int) =~= items.deep_view());
    }
    JsonValue::Arr(out)
}

/// A list of string pairs as a JSON object document.
pub open spec fn enc_str_map(ps: Seq<(Seq<char>, Seq<char>)>) -> JVal {
    JVal::Obj(ps.map_values(|p: (Seq<char>, Seq<char>)| (p.0, JVal::Str(p.1))))
}

/// Encode string pairs as a JSON object.
pub fn str_map_to_json(items: &Vec<(String, String)>) -> (r: JsonValue)
    ensures
        jv(r) == enc_str_map(items.deep_view()),
{
    let mut out: Vec<(String, JsonValue)> = Vec::new();
    let mut i: usize = 0;
    while i < items.len()
        invariant
            i <= items.len(),
            jv_entries(out@) =~= items.deep_view().take(i as int).map_values(
                |p: (Seq<char>, Seq<char>)| (p.0, JVal::Str(p.1)),
            ),
        decreases items.len() - i,
    {
        let k = items[i].0.clone();
        let e = JsonValue::Str(items[i].1.clone());
        proof {
            lemma_jv_entries_push(out@, (k, e));
        }
        out.push((k, e));
        proof {
            assert(jv_entries(out@) =~= items.deep_view().take(i + 1).map_values(
                |p: (Seq<char>, Seq<char>)| (p.0, JVal::Str(p.1)),
            ));
        }
        i = i + 1;
    }
    proof {
        assert(items.deep_view().take(items@.len() as int) =~= items.deep_view());
    }
    JsonValue::Obj(out)
}

/// A list of key-bool pairs as a JSON object document.
pub open spec fn enc_bool_map(ps: Seq<(Seq<char>, bool)>) -> JVal {
    JVal::Obj(ps.map_values(|p: (Seq<char>, bool)| (p.0, JVal::Bool(p.1))))
}

/// Encode key-bool pairs as a JSON object.
pub fn bool_map_to_json(items: &Vec<(String, bool)>) -> (r: JsonValue)
    ensures
        jv(r) == enc_bool_map(items.deep_view()),
{
    let mut out: Vec<(String, JsonValue)> = Vec::new();
    let mut i: usize = 0;
    while i < items.len()
        invariant
            i <= items.len(),
            jv_entries(out@) =~= items.deep_view().take(i as int).map_values(
                |p: (Seq<char>, bool)| (p.0, JVal::Bool(p.1)),
            ),
        decreases items.len() - i,
    {
        let k = items[i].0.clone();
        let e = JsonValue::Bool(items[i].1);
        proof {
            lemma_jv_entries_push(out@, (k, e));
        }
        out.push((k, e));
        proof {
            assert(jv_entries(out@) =~= items.deep_view().take(i + 1).map_values(
                |p: (Seq<char>, bool)| (p.0, JVal::Bool(p.1)),
            ));
        }
        i = i + 1;
    }
    proof {
        assert(items.deep_view().take(items@.len() as int) =~= items.deep_view());
    }
    JsonValue::Obj(out)
}

/// Append one keyed entry to an object under construction.
pub fn push_entry(out: &mut Vec<(String, JsonValue)>, key: &str, v: JsonValue)
    ensures
        jv_entries(final(out)@) == jv_entries(old(out)@).push((key@, jv(v))),
{
    let e = (String::from_str(key), v);
    proof {
        lemma_jv_entries_push(out@, e);
    }
    out.push(e);
}

/// Append clones of an object's entries to another object under construction.
pub fn append_entries_cloned(out: &mut Vec<(String, JsonValue)>, src: &Vec<(String, JsonValue)>)
    ensures
        jv_entries(final(out)@) == jv_entries(old(out)@) + jv_entries(src@),
{
    proof {
        lemma_jv_entries_props(src@);
    }
    let ghost model = jv_entries(src@);
    let mut i: usize = 0;
    while i < src.len()
        invariant
            i <= src.len(),
            model == jv_entries(src@),
            model.len() == src@.len(),
            forall|k: int| 0 <= k < src@.len() ==> model[k] == (src@[k].0@, jv(src@[k].1)),
            jv_entries(out@) == jv_entries(old(out)@) + model.take(i as int),
        decreases src.len() - i,
    {
        let k2 = src[i].0.clone();
        let v2 = src[i].1.clone();
        proof {
            lemma_jv_entries_push(out@, (k2, v2));
            assert(model.take(i + 1) =~= model.take(i as int).push(model[i as int]));
            assert((jv_entries(old(out)@) + model.take(i as int)).push(model[i as int]) =~= jv_entries(
                old(out)@,
            ) + model.take(i + 1));
        }
        out.push((k2, v2));
        i = i + 1;
    }
    proof {
        assert(model.take(model.len() as int) =~= model);
    }
}

/// The text with every double-quote character removed.  Query-parameter
/// values are the JSON encoding of the field with quote characters stripped.
pub open spec fn strip_quotes(s: Seq<char>) -> Seq<char>
    decreases s.len(),
{
    if s.len() == 0 {
        Seq::empty()
    } else {
        let init = strip_quotes(s.drop_last());
        if s.last() == '"' {
            init
        } else {
            init.push(s.last())
        }
    }
}

/// Remove every double-quote character from a string.
pub fn strip_quotes_exec(s: &str) -> (r: String)
    ensures
        r@ == strip_quotes(s@),
{
    let n = s.unicode_len();
    let mut out = String::new();
    let mut i: usize = 0;
    while i < n
        invariant
            n == s@.len(),
            i <= n,
            out@ == strip_quotes(s@.subrange(0, i as int)),
        decreases n - i,
    {
        proof {
            assert(s@.subrange(0, i + 1).drop_last() =~= s@.subrange(0, i as int));
            assert(s@.subrange(0, i + 1).last() == s@[i as int]);
        }
        let c = s.get_char(i);
        if c != '"' {
            let one = s.substring_char(i, i + 1);
            proof {
                assert(s@.subrange(i as int, i + 1) =~= seq![s@[i as int]]);
            }
            out.append(one);
            proof {
                assert(strip_quotes(s@.subrange(0, i as int)).push(s@[i as int]) =~= strip_quotes(
                    s@.subrange(0, i as int),
                ) + seq![s@[i as int]]);
            }
        }
        i = i + 1;
    }
    proof {
        assert(s@.subrange(0, s@.len() as int) =~= s@);
    }
    out
}

/// Append one query parameter to a parameter list under construction.
pub fn push_param(out: &mut Vec<(String, String)>, key: &str, val: String)
    ensures
        final(out).deep_view() == old(out).deep_view().push((key@, val@)),
{
    let ghost pre = out.deep_view();
    let ghost vv = val@;
    out.push((String::from_str(key), val));
    proof {
        assert(out.deep_view() =~= pre.push((key@, vv)));
    }
}

/// The query-parameter form of a string field: its JSON encoding with the
/// quote characters stripped.
pub fn query_string_value(s: &String) -> (r: String)
    ensures
        r@ == strip_quotes(enc_string(s@)),
{
    let enc = to_text(&JsonValue::Str(s.clone()));
    strip_quotes_exec(enc.as_str())
}

/// The query-parameter form of a list-of-strings field.
pub fn query_list_value(items: &Vec<String>) -> (r: String)
    ensures
        r@ == strip_quotes(enc_json(enc_str_list(items.deep_view()))),
{
    let j = str_list_to_json(items);
    let enc = to_text(&j);
    strip_quotes_exec(enc.as_str())
}

/// Whether a parameter list holds a parameter under the given key.
pub open spec fn params_has_key(ps: Seq<(Seq<char>, Seq<char>)>, key: Seq<char>) -> bool {
    exists|i: int| 0 <= i < ps.len() && ps[i].0 == key
}

/// Whether a parameter list holds exactly the given parameter.
pub open spec fn params_has_pair(ps: Seq<(Seq<char>, Seq<char>)>, p: (Seq<char>, Seq<char>)) -> bool {
    exists|i: int| 0 <= i < ps.len() && ps[i] == p
}

/// How concatenation changes key and pair membership.
pub proof fn lemma_params_concat(x: Seq<(Seq<char>, Seq<char>)>, y: Seq<(Seq<char>, Seq<char>)>)
    ensures
        forall|k: Seq<char>| #![trigger params_has_key(x + y, k)]
            params_has_key(x + y, k) <==> (params_has_key(x, k) || params_has_key(y, k)),
        forall|r: (Seq<char>, Seq<char>)| #![trigger params_has_pair(x + y, r)]
            params_has_pair(x + y, r) <==> (params_has_pair(x, r) || params_has_pair(y, r)),
{
    assert forall|k: Seq<char>|
        params_has_key(x + y, k) <==> (params_has_key(x, k) || params_has_key(y, k)) by {
        if params_has_key(x, k) {
            let i = choose|i: int| 0 <= i < x.len() && x[i].0 == k;
            assert((x + y)[i].0 == k);
        }
        if params_has_key(y, k) {
            let i = choose|i: int| 0 <= i < y.len() && y[i].0 == k;
            assert((x + y)[x.len() + i].0 == k);
        }
        if params_has_key(x + y, k) {
            let i = choose|i: int| 0 <= i < (x + y).len() && (x + y)[i].0 == k;
            if i < x.len() {
                assert(x[i].0 == k);
            } else {
                assert(y[i - x.len()].0 == k);
            }
        }
    }
    assert forall|r: (Seq<char>, Seq<char>)|
        params_has_pair(x + y, r) <==> (params_has_pair(x, r) || params_has_pair(y, r)) by {
        if params_has_pair(x, r) {
            let i = choose|i: int| 0 <= i < x.len() && x[i] == r;
            assert((x + y)[i] == r);
        }
        if params_has_pair(y, r) {
            let i = choose|i: int| 0 <= i < y.len() && y[i] == r;
            assert((x + y)[x.len() + i] == r);
        }
        if params_has_pair(x + y, r) {
            let i = choose|i: int| 0 <= i < (x + y).len() && (x + y)[i] == r;
            if i < x.len() {
                assert(x[i] == r);
            } else {
                assert(y[i - x.len()] == r);
            }
        }
    }
}

/// A parameter list built from four conditional entries, in order.
pub open spec fn param_chain4(
    c1: bool,
    p1: (Seq<char>, Seq<char>),
    c2: bool,
    p2: (Seq<char>, Seq<char>),
    c3: bool,
    p3: (Seq<char>, Seq<char>),
    c4: bool,
    p4: (Seq<char>, Seq<char>),
) -> Seq<(Seq<char>, Seq<char>)> {
    let s0 = Seq::<(Seq<char>, Seq<char>)>::empty();
    let s1 = if c1 {
        s0.push(p1)
    } else {
        s0
    };
    let s2 = if c2 {
        s1.push(p2)
    } else {
        s1
    };
    let s3 = if c3 {
        s2.push(p3)
    } else {
        s2
    };
    let s4 = if c4 {
        s3.push(p4)
    } else {
        s3
    };
    s4
}

/// Membership in a conditional chain: a key or pair occurs exactly when one
/// of the chain's entries is enabled and matches.
pub proof fn lemma_param_chain4(
    c1: bool,
    p1: (Seq<char>, Seq<char>),
    c2: bool,
    p2: (Seq<char>, Seq<char>),
    c3: bool,
    p3: (Seq<char>, Seq<char>),
    c4: bool,
    p4: (Seq<char>, Seq<char>),
)
    ensures
        forall|k: Seq<char>|
            #![trigger params_has_key(param_chain4(c1, p1, c2, p2, c3, p3, c4, p4), k)]
            params_has_key(param_chain4(c1, p1, c2, p2, c3, p3, c4, p4), k) <==> ((c1 && p1.0 == k)
                || (c2 && p2.0 == k) || (c3 && p3.0 == k) || (c4 && p4.0 == k)),
        forall|r: (Seq<char>, Seq<char>)|
            #![trigger params_has_pair(param_chain4(c1, p1, c2, p2, c3, p3, c4, p4), r)]
            params_has_pair(param_chain4(c1, p1, c2, p2, c3, p3, c4, p4), r) <==> ((c1 && p1 == r)
                || (c2 && p2 == r) || (c3 && p3 == r) || (c4 && p4 == r)),
{
    let ch = param_chain4(c1, p1, c2, p2, c3, p3, c4, p4);
        if c1 && c2 && c3 && c4 {
            assert(ch == Seq::<(Seq<char>, Seq<char>)>::empty().push(p1).push(p2).push(p3).push(p4));
            assert(ch.len() == 4);
            assert(ch[0] == p1);
            assert(ch[1] == p2);
            assert(ch[2] == p3);
            assert(ch[3] == p4);
            assert forall|k: Seq<char>|
                params_has_key(ch, k) <==> ((c1 && p1.0 == k) || (c2 && p2.0 == k) || (c3
                && p3.0 == k) || (c4 && p4.0 == k)) by {
                if params_has_key(ch, k) {
                    let i = choose|i: int| 0 <= i < ch.len() && ch[i].0 == k;
                    if i == 0 {
                        assert(p1.0 == k);
                    }
                    if i == 1 {
                        assert(p2.0 == k);
                    }
                    if i == 2 {
                        assert(p3.0 == k);
                    }
                    if i == 3 {
                        assert(p4.0 == k);
                    }
                }
                if p1.0 == k {
                    assert(ch[0].0 == k);
                }
                if p2.0 == k {
                    assert(ch[1].0 == k);
                }
                if p3.0 == k {
                    assert(ch[2].0 == k);
                }
                if p4.0 == k {
                    assert(ch[3].0 == k);
                }
            }
            assert forall|r: (Seq<char>, Seq<char>)|
                params_has_pair(ch, r) <==> ((c1 && p1 == r) || (c2 && p2 == r) || (c3 && p3
                == r) || (c4 && p4 == r)) by {
                if params_has_pair(ch, r) {
                    let i = choose|i: int| 0 <= i < ch.len() && ch[i] == r;
                    if i == 0 {
                        assert(p1 == r);
                    }
                    if i == 1 {
                        assert(p2 == r);
                    }
                    if i == 2 {
                        assert(p3 == r);
                    }
                    if i == 3 {
                        assert(p4 == r);
                    }
                }
                if p1 == r {
                    assert(ch[0] == r);
                }
                if p2 == r {
                    assert(ch[1] == r);
                }
                if p3 == r {
                    assert(ch[2] == r);
                }
                if p4 == r {
                    assert(ch[3] == r);
                }
            }
        }
        if c1 && c2 && c3 && !c4 {
            assert(ch == Seq::<(Seq<char>, Seq<char>)>::empty().push(p1).push(p2).push(p3));
            assert(ch.len() == 3);
            assert(ch[0] == p1);
            assert(ch[1] == p2);
            assert(ch[2] == p3);
            assert forall|k: Seq<char>|
                params_has_key(ch, k) <==> ((c1 && p1.0 == k) || (c2 && p2.0 == k) || (c3
                && p3.0 == k) || (c4 && p4.0 == k)) by {
                if params_has_key(ch, k) {
                    let i = choose|i: int| 0 <= i < ch.len() && ch[i].0 == k;
                    if i == 0 {
                        assert(p1.0 == k);
                    }
                    if i == 1 {
                        assert(p2.0 == k);
                    }
                    if i == 2 {
                        assert(p3.0 == k);
                    }
                }
                if p1.0 == k {
                    assert(ch[0].0 == k);
                }
                if p2.0 == k {
                    assert(ch[1].0 == k);
                }
                if p3.0 == k {
                    assert(ch[2].0 == k);
                }
            }
            assert forall|r: (Seq<char>, Seq<char>)|
                params_has_pair(ch, r) <==> ((c1 && p1 == r) || (c2 && p2 == r) || (c3 && p3
                == r) || (c4 && p4 == r)) by {
                if params_has_pair(ch, r) {
                    let i = choose|i: int| 0 <= i < ch.len() && ch[i] == r;
                    if i == 0 {
                        assert(p1 == r);
                    }
                    if i == 1 {
                        assert(p2 == r);
                    }
                    if i == 2 {
                        assert(p3 == r);
                    }
                }
                if p1 == r {
                    assert(ch[0] == r);
                }
                if p2 == r {
                    assert(ch[1] == r);
                }
                if p3 == r {
                    assert(ch[2] == r);
                }
            }
        }
        if c1 && c2 && !c3 && c4 {
            assert(ch == Seq::<(Seq<char>, Seq<char>)>::empty().push(p1).push(p2).push(p4));
            assert(ch.len() == 3);
            assert(ch[0] == p1);
            assert(ch[1] == p2);
            assert(ch[2] == p4);
            assert forall|k: Seq<char>|
                params_has_key(ch, k) <==> ((c1 && p1.0 == k) || (c2 && p2.0 == k) || (c3
                && p3.0 == k) || (c4 && p4.0 == k)) by {
                if params_has_key(ch, k) {
                    let i = choose|i: int| 0 <= i < ch.len() && ch[i].0 == k;
                    if i == 0 {
                        assert(p1.0 == k);
                    }
                    if i == 1 {
                        assert(p2.0 == k);
                    }
                    if i == 2 {
                        assert(p4.0 == k);
                    }
                }
                if p1.0 == k {
                    assert(ch[0].0 == k);
                }
                if p2.0 == k {
                    assert(ch[1].0 == k);
                }
                if p4.0 == k {
                    assert(ch[2].0 == k);
                }
            }
            assert forall|r: (Seq<char>, Seq<char>)|
                params_has_pair(ch, r) <==> ((c1 && p1 == r) || (c2 && p2 == r) || (c3 && p3
                == r) || (c4 && p4 == r)) by {
                if params_has_pair(ch, r) {
                    let i = choose|i: int| 0 <= i < ch.len() && ch[i] == r;
                    if i == 0 {
                        assert(p1 == r);
                    }
                    if i == 1 {
                        assert(p2 == r);
                    }
                    if i == 2 {
                        assert(p4 == r);
                    }
                }
                if p1 == r {
                    assert(ch[0] == r);
                }
                if p2 == r {
                    assert(ch[1] == r);
                }
                if p4 == r {
                    assert(ch[2] == r);
                }
            }
        }
        if c1 && c2 && !c3 && !c4 {
            assert(ch == Seq::<(Seq<char>, Seq<char>)>::empty().push(p1).push(p2));
            assert(ch.len() == 2);
            assert(ch[0] == p1);
            assert(ch[1] == p2);
            assert forall|k: Seq<char>|
                params_has_key(ch, k) <==> ((c1 && p1.0 == k) || (c2 && p2.0 == k) || (c3
                && p3.0 == k) || (c4 && p4.0 == k)) by {
                if params_has_key(ch, k) {
                    let i = choose|i: int| 0 <= i < ch.len() && ch[i].0 == k;
                    if i == 0 {
                        assert(p1.0 == k);
                    }
                    if i == 1 {
                        assert(p2.0 == k);
                    }
                }
                if p1.0 == k {
                    assert(ch[0].0 == k);
                }
                if p2.0 == k {
                    assert(ch[1].0 == k);
                }
            }
            assert forall|r: (Seq<char>, Seq<char>)|
                params_has_pair(ch, r) <==> ((c1 && p1 == r) || (c2 && p2 == r) || (c3 && p3
                == r) || (c4 && p4 == r)) by {
                if params_has_pair(ch, r) {
                    let i = choose|i: int| 0 <= i < ch.len() && ch[i] == r;
                    if i == 0 {
                        assert(p1 == r);
                    }
                    if i == 1 {
                        assert(p2 == r);
                    }
                }
                if p1 == r {
                    assert(ch[0] == r);
                }
                if p2 == r {
                    assert(ch[1] == r);
                }
            }
        }
        if c1 && !c2 && c3 && c4 {
            assert(ch == Seq::<(Seq<char>, Seq<char>)>::empty().push(p1).push(p3).push(p4));
            assert(ch.len() == 3);
            assert(ch[0] == p1);
            assert(ch[1] == p3);
            assert(ch[2] == p4);
            assert forall|k: Seq<char>|
                params_has_key(ch, k) <==> ((c1 && p1.0 == k) || (c2 && p2.0 == k) || (c3
                && p3.0 == k) || (c4 && p4.0 == k)) by {
                if params_has_key(ch, k) {
                    let i = choose|i: int| 0 <= i < ch.len() && ch[i].0 == k;
                    if i == 0 {
                        assert(p1.0 == k);
                    }
                    if i == 1 {
                        assert(p3.0 == k);
                    }
                    if i == 2 {
                        assert(p4.0 == k);
                    }
                }
                if p1.0 == k {
                    assert(ch[0].0 == k);
                }
                if p3.0 == k {
                    assert(ch[1].0 == k);
                }
                if p4.0 == k {
                    assert(ch[2].0 == k);
                }
            }
            assert forall|r: (Seq<char>, Seq<char>)|
                params_has_pair(ch, r) <==> ((c1 && p1 == r) || (c2 && p2 == r) || (c3 && p3
                == r) || (c4 && p4 == r)) by {
                if params_has_pair(ch, r) {
                    let i = choose|i: int| 0 <= i < ch.len() && ch[i] == r;
                    if i == 0 {
                        assert(p1 == r);
                    }
                    if i == 1 {
                        assert(p3 == r);
                    }
                    if i == 2 {
                        assert(p4 == r);
                    }
                }
                if p1 == r {
                    assert(ch[0] == r);
                }
                if p3 == r {
                    assert(ch[1] == r);
                }
                if p4 == r {
                    assert(ch[2] == r);
                }
            }
        }
        if c1 && !c2 && c3 && !c4 {
            assert(ch == Seq::<(Seq<char>, Seq<char>)>::empty().push(p1).push(p3));
            assert(ch.len() == 2);
            assert(ch[0] == p1);
            assert(ch[1] == p3);
            assert forall|k: Seq<char>|
                params_has_key(ch, k) <==> ((c1 && p1.0 == k) || (c2 && p2.0 == k) || (c3
                && p3.0 == k) || (c4 && p4.0 == k)) by {
                if params_has_key(ch, k) {
                    let i = choose|i: int| 0 <= i < ch.len() && ch[i].0 == k;
                    if i == 0 {
                        assert(p1.0 == k);
                    }
                    if i == 1 {
                        assert(p3.0 == k);
                    }
                }
                if p1.0 == k {
                    assert(ch[0].0 == k);
                }
                if p3.0 == k {
                    assert(ch[1].0 == k);
                }
            }
            assert forall|r: (Seq<char>, Seq<char>)|
                params_has_pair(ch, r) <==> ((c1 && p1 == r) || (c2 && p2 == r) || (c3 && p3
                == r) || (c4 && p4 == r)) by {
                if params_has_pair(ch, r) {
                    let i = choose|i: int| 0 <= i < ch.len() && ch[i] == r;
                    if i == 0 {
                        assert(p1 == r);
                    }
                    if i == 1 {
                        assert(p3 == r);
                    }
                }
                if p1 == r {
                    assert(ch[0] == r);
                }
                if p3 == r {
                    assert(ch[1] == r);
                }
            }
        }
        if c1 && !c2 && !c3 && c4 {
            assert(ch == Seq::<(Seq<char>, Seq<char>)>::empty().push(p1).push(p4));
            assert(ch.len() == 2);
            assert(ch[0] == p1);
            assert(ch[1] == p4);
            assert forall|k: Seq<char>|
                params_has_key(ch, k) <==> ((c1 && p1.0 == k) || (c2 && p2.0 == k) || (c3
                && p3.0 == k) || (c4 && p4.0 == k)) by {
                if params_has_key(ch, k) {
                    let i = choose|i: int| 0 <= i < ch.len() && ch[i].0 == k;
                    if i == 0 {
                        assert(p1.0 == k);
                    }
                    if i == 1 {
                        assert(p4.0 == k);
                    }
                }
                if p1.0 == k {
                    assert(ch[0].0 == k);
                }
                if p4.0 == k {
                    assert(ch[1].0 == k);
                }
            }
            assert forall|r: (Seq<char>, Seq<char>)|
                params_has_pair(ch, r) <==> ((c1 && p1 == r) || (c2 && p2 == r) || (c3 && p3
                == r) || (c4 && p4 == r)) by {
                if params_has_pair(ch, r) {
                    let i = choose|i: int| 0 <= i < ch.len() && ch[i] == r;
                    if i == 0 {
                        assert(p1 == r);
                    }
                    if i == 1 {
                        assert(p4 == r);
                    }
                }
                if p1 == r {
                    assert(ch[0] == r);
                }
                if p4 == r {
                    assert(ch[1] == r);
                }
            }
        }
        if c1 && !c2 && !c3 && !c4 {
            assert(ch == Seq::<(Seq<char>, Seq<char>)>::empty().push(p1));
            assert(ch.len() == 1);
            assert(ch[0] == p1);
            assert forall|k: Seq<char>|
                params_has_key(ch, k) <==> ((c1 && p1.0 == k) || (c2 && p2.0 == k) || (c3
                && p3.0 == k) || (c4 && p4.0 == k)) by {
                if params_has_key(ch, k) {
                    let i = choose|i: int| 0 <= i < ch.len() && ch[i].0 == k;
                    if i == 0 {
                        assert(p1.0 == k);
                    }
                }
                if p1.0 == k {
                    assert(ch[0].0 == k);
                }
            }
            assert forall|r: (Seq<char>, Seq<char>)|
                params_has_pair(ch, r) <==> ((c1 && p1 == r) || (c2 && p2 == r) || (c3 && p3
                == r) || (c4 && p4 == r)) by {
                if params_has_pair(ch, r) {
                    let i = choose|i: int| 0 <= i < ch.len() && ch[i] == r;
                    if i == 0 {
                        assert(p1 == r);
                    }
                }
                if p1 == r {
                    assert(ch[0] == r);
                }
            }
        }
        if !c1 && c2 && c3 && c4 {
            assert(ch == Seq::<(Seq<char>, Seq<char>)>::empty().push(p2).push(p3).push(p4));
            assert(ch.len() == 3);
            assert(ch[0] == p2);
            assert(ch[1] == p3);
            assert(ch[2] == p4);
            assert forall|k: Seq<char>|
                params_has_key(ch, k) <==> ((c1 && p1.0 == k) || (c2 && p2.0 == k) || (c3
                && p3.0 == k) || (c4 && p4.0 == k)) by {
                if params_has_key(ch, k) {
                    let i = choose|i: int| 0 <= i < ch.len() && ch[i].0 == k;
                    if i == 0 {
                        assert(p2.0 == k);
                    }
                    if i == 1 {
                        assert(p3.0 == k);
                    }
                    if i == 2 {
                        assert(p4.0 == k);
                    }
                }
                if p2.0 == k {
                    assert(ch[0].0 == k);
                }
                if p3.0 == k {
                    assert(ch[1].0 == k);
                }
                if p4.0 == k {
                    assert(ch[2].0 == k);
                }
            }
            assert forall|r: (Seq<char>, Seq<char>)|
                params_has_pair(ch, r) <==> ((c1 && p1 == r) || (c2 && p2 == r) || (c3 && p3
                == r) || (c4 && p4 == r)) by {
                if params_has_pair(ch, r) {
                    let i = choose|i: int| 0 <= i < ch.len() && ch[i] == r;
                    if i == 0 {
                        assert(p2 == r);
                    }
                    if i == 1 {
                        assert(p3 == r);
                    }
                    if i == 2 {
                        assert(p4 == r);
                    }
                }
                if p2 == r {
                    assert(ch[0] == r);
                }
                if p3 == r {
                    assert(ch[1] == r);
                }
                if p4 == r {
                    assert(ch[2] == r);
                }
            }
        }
        if !c1 && c2 && c3 && !c4 {
            assert(ch == Seq::<(Seq<char>, Seq<char>)>::empty().push(p2).push(p3));
            assert(ch.len() == 2);
            assert(ch[0] == p2);
            assert(ch[1] == p3);
            assert forall|k: Seq<char>|
                params_has_key(ch, k) <==> ((c1 && p1.0 == k) || (c2 && p2.0 == k) || (c3
                && p3.0 == k) || (c4 && p4.0 == k)) by {
                if params_has_key(ch, k) {
                    let i = choose|i: int| 0 <= i < ch.len() && ch[i].0 == k;
                    if i == 0 {
                        assert(p2.0 == k);
                    }
                    if i == 1 {
                        assert(p3.0 == k);
                    }
                }
                if p2.0 == k {
                    assert(ch[0].0 == k);
                }
                if p3.0 == k {
                    assert(ch[1].0 == k);
                }
            }
            assert forall|r: (Seq<char>, Seq<char>)|
                params_has_pair(ch, r) <==> ((c1 && p1 == r) || (c2 && p2 == r) || (c3 && p3
                == r) || (c4 && p4 == r)) by {
                if params_has_pair(ch, r) {
                    let i = choose|i: int| 0 <= i < ch.len() && ch[i] == r;
                    if i == 0 {
                        assert(p2 == r);
                    }
                    if i == 1 {
                        assert(p3 == r);
                    }
                }
                if p2 == r {
                    assert(ch[0] == r);
                }
                if p3 == r {
                    assert(ch[1] == r);
                }
            }
        }
        if !c1 && c2 && !c3 && c4 {
            assert(ch == Seq::<(Seq<char>, Seq<char>)>::empty().push(p2).push(p4));
            assert(ch.len() == 2);
            assert(ch[0] == p2);
            assert(ch[1] == p4);
            assert forall|k: Seq<char>|
                params_has_key(ch, k) <==> ((c1 && p1.0 == k) || (c2 && p2.0 == k) || (c3
                && p3.0 == k) || (c4 && p4.0 == k)) by {
                if params_has_key(ch, k) {
                    let i = choose|i: int| 0 <= i < ch.len() && ch[i].0 == k;
                    if i == 0 {
                        assert(p2.0 == k);
                    }
                    if i == 1 {
                        assert(p4.0 == k);
                    }
                }
                if p2.0 == k {
                    assert(ch[0].0 == k);
                }
                if p4.0 == k {
                    assert(ch[1].0 == k);
                }
            }
            assert forall|r: (Seq<char>, Seq<char>)|
                params_has_pair(ch, r) <==> ((c1 && p1 == r) || (c2 && p2 == r) || (c3 && p3
                == r) || (c4 && p4 == r)) by {
                if params_has_pair(ch, r) {
                    let i = choose|i: int| 0 <= i < ch.len() && ch[i] == r;
                    if i == 0 {
                        assert(p2 == r);
                    }
                    if i == 1 {
                        assert(p4 == r);
                    }
                }
                if p2 == r {
                    assert(ch[0] == r);
                }
                if p4 == r {
                    assert(ch[1] == r);
                }
            }
        }
        if !c1 && c2 && !c3 && !c4 {
            assert(ch == Seq::<(Seq<char>, Seq<char>)>::empty().push(p2));
            assert(ch.len() == 1);
            assert(ch[0] == p2);
            assert forall|k: Seq<char>|
                params_has_key(ch, k) <==> ((c1 && p1.0 == k) || (c2 && p2.0 == k) || (c3
                && p3.0 == k) || (c4 && p4.0 == k)) by {
                if params_has_key(ch, k) {
                    let i = choose|i: int| 0 <= i < ch.len() && ch[i].0 == k;
                    if i == 0 {
                        assert(p2.0 == k);
                    }
                }
                if p2.0 == k {
                    assert(ch[0].0 == k);
                }
            }
            assert forall|r: (Seq<char>, Seq<char>)|
                params_has_pair(ch, r) <==> ((c1 && p1 == r) || (c2 && p2 == r) || (c3 && p3
                == r) || (c4 && p4 == r)) by {
                if params_has_pair(ch, r) {
                    let i = choose|i: int| 0 <= i < ch.len() && ch[i] == r;
                    if i == 0 {
                        assert(p2 == r);
                    }
                }
                if p2 == r {
                    assert(ch[0] == r);
                }
            }
        }
        if !c1 && !c2 && c3 && c4 {
            assert(ch == Seq::<(Seq<char>, Seq<char>)>::empty().push(p3).push(p4));
            assert(ch.len() == 2);
            assert(ch[0] == p3);
            assert(ch[1] == p4);
            assert forall|k: Seq<char>|
                params_has_key(ch, k) <==> ((c1 && p1.0 == k) || (c2 && p2.0 == k) || (c3
                && p3.0 == k) || (c4 && p4.0 == k)) by {
                if params_has_key(ch, k) {
                    let i = choose|i: int| 0 <= i < ch.len() && ch[i].0 == k;
                    if i == 0 {
                        assert(p3.0 == k);
                    }
                    if i == 1 {
                        assert(p4.0 == k);
                    }
                }
                if p3.0 == k {
                    assert(ch[0].0 == k);
                }
                if p4.0 == k {
                    assert(ch[1].0 == k);
                }
            }
            assert forall|r: (Seq<char>, Seq<char>)|
                params_has_pair(ch, r) <==> ((c1 && p1 == r) || (c2 && p2 == r) || (c3 && p3
                == r) || (c4 && p4 == r)) by {
                if params_has_pair(ch, r) {
                    let i = choose|i: int| 0 <= i < ch.len() && ch[i] == r;
                    if i == 0 {
                        assert(p3 == r);
                    }
                    if i == 1 {
                        assert(p4 == r);
                    }
                }
                if p3 == r {
                    assert(ch[0] == r);
                }
                if p4 == r {
                    assert(ch[1] == r);
                }
            }
        }
        if !c1 && !c2 && c3 && !c4 {
            assert(ch == Seq::<(Seq<char>, Seq<char>)>::empty().push(p3));
            assert(ch.len() == 1);
            assert(ch[0] == p3);
            assert forall|k: Seq<char>|
                params_has_key(ch, k) <==> ((c1 && p1.0 == k) || (c2 && p2.0 == k) || (c3
                && p3.0 == k) || (c4 && p4.0 == k)) by {
                if params_has_key(ch, k) {
                    let i = choose|i: int| 0 <= i < ch.len() && ch[i].0 == k;
                    if i == 0 {
                        assert(p3.0 == k);
                    }
                }
                if p3.0 == k {
                    assert(ch[0].0 == k);
                }
            }
            assert forall|r: (Seq<char>, Seq<char>)|
                params_has_pair(ch, r) <==> ((c1 && p1 == r) || (c2 && p2 == r) || (c3 && p3
                == r) || (c4 && p4 == r)) by {
                if params_has_pair(ch, r) {
                    let i = choose|i: int| 0 <= i < ch.len() && ch[i] == r;
                    if i == 0 {
                        assert(p3 == r);
                    }
                }
                if p3 == r {
                    assert(ch[0] == r);
                }
            }
        }
        if !c1 && !c2 && !c3 && c4 {
            assert(ch == Seq::<(Seq<char>, Seq<char>)>::empty().push(p4));
            assert(ch.len() == 1);
            assert(ch[0] == p4);
            assert forall|k: Seq<char>|
                params_has_key(ch, k) <==> ((c1 && p1.0 == k) || (c2 && p2.0 == k) || (c3
                && p3.0 == k) || (c4 && p4.0 == k)) by {
                if params_has_key(ch, k) {
                    let i = choose|i: int| 0 <= i < ch.len() && ch[i].0 == k;
                    if i == 0 {
                        assert(p4.0 == k);
                    }
                }
                if p4.0 == k {
                    assert(ch[0].0 == k);
                }
            }
            assert forall|r: (Seq<char>, Seq<char>)|
                params_has_pair(ch, r) <==> ((c1 && p1 == r) || (c2 && p2 == r) || (c3 && p3
                == r) || (c4 && p4 == r)) by {
                if params_has_pair(ch, r) {
                    let i = choose|i: int| 0 <= i < ch.len() && ch[i] == r;
                    if i == 0 {
                        assert(p4 == r);
                    }
                }
                if p4 == r {
                    assert(ch[0] == r);
                }
            }
        }
        if !c1 && !c2 && !c3 && !c4 {
            assert(ch == Seq::<(Seq<char>, Seq<char>)>::empty());
            assert(ch.len() == 0);
            assert forall|k: Seq<char>|
                params_has_key(ch, k) <==> ((c1 && p1.0 == k) || (c2 && p2.0 == k) || (c3
                && p3.0 == k) || (c4 && p4.0 == k)) by {
                if params_has_key(ch, k) {
                    let i = choose|i: int| 0 <= i < ch.len() && ch[i].0 == k;
                }
            }
            assert forall|r: (Seq<char>, Seq<char>)|
                params_has_pair(ch, r) <==> ((c1 && p1 == r) || (c2 && p2 == r) || (c3 && p3
                == r) || (c4 && p4 == r)) by {
                if params_has_pair(ch, r) {
                    let i = choose|i: int| 0 <= i < ch.len() && ch[i] == r;
                }
            }
        }
}

} // verus!
