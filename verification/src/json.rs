use vstd::prelude::*;
use vstd::string::StrSliceExecFns;

verus! {

/// A parsed JSON document. Numbers keep their decimal text, so no field of the
/// tree carries machine floating point.
pub enum JsonValue {
    Null,
    Bool(bool),
    Num(String),
    Str(String),
    Arr(Vec<JsonValue>),
    Obj(Vec<(String, JsonValue)>),
}

#[verifier::external_type_specification]
#[verifier::external_body]
pub struct ExSerdeValue(serde_json::Value);

/// The document encoded by `bytes`: `Some` exactly on JSON the parser accepts
/// (well-formed text within its fixed nesting limit). What counts as accepted
/// takes the whole JSON grammar to state, so the result is only named here;
/// `parse_json` relates it to the bytes.
pub uninterp spec fn json_doc(bytes: Seq<u8>) -> Option<JsonValue>;

/// Relies on `serde_json::from_slice::<serde_json::Value>`: whether it succeeds
/// and the document it returns are functions of the bytes alone, and it
/// succeeds exactly on well-formed JSON within its nesting limit. The result is
/// mirrored into the library's tree by `from_serde`.
#[verifier::external_body]
pub(crate) fn parse_json(bytes: &[u8]) -> (r: Result<JsonValue, String>)
    ensures
        r is Ok <==> json_doc(bytes@) is Some,
        r matches Ok(v) ==> Some(v) == json_doc(bytes@),
{
    match serde_json::from_slice::<serde_json::Value>(bytes) {
        Ok(v) => Ok(from_serde(v)),
        Err(e) => Err(e.to_string()),
    }
}

/// Mirrors `serde_json::Value` into the library's tree, one variant per arm,
/// moving fields only; a number becomes its decimal text. Called only from
/// `parse_json`, whose contract covers the combined conversion.
#[verifier::external_body]
fn from_serde(v: serde_json::Value) -> JsonValue {
    match v {
        serde_json::Value::Null => JsonValue::Null,
        serde_json::Value::Bool(b) => JsonValue::Bool(b),
        serde_json::Value::Number(n) => JsonValue::Num(n.to_string()),
        serde_json::Value::String(s) => JsonValue::Str(s),
        serde_json::Value::Array(items) => JsonValue::Arr(
            items.into_iter().map(from_serde).collect(),
        ),
        serde_json::Value::Object(fields) => JsonValue::Obj(
            fields.into_iter().map(|(k, w)| (k, from_serde(w))).collect(),
        ),
    }
}

/// The value under `key`, taking the first field whose name matches.
pub open spec fn obj_lookup(fields: Seq<(String, JsonValue)>, key: Seq<char>) -> Option<JsonValue>
    decreases fields.len(),
{
    if fields.len() == 0 {
        None
    } else if fields[0].0@ == key {
        Some(fields[0].1)
    } else {
        obj_lookup(fields.skip(1), key)
    }
}

/// Finds the first field of `fields` named `key`.
pub fn obj_get<'a>(fields: &'a Vec<(String, JsonValue)>, key: &str) -> (r: Option<&'a JsonValue>)
    ensures
        r is Some <==> obj_lookup(fields@, key@) is Some,
        r matches Some(v) ==> Some(*v) == obj_lookup(fields@, key@),
{
    let n = fields.len();
    proof {
        assert(fields@.skip(0) =~= fields@);
    }
    for i in 0..n
        invariant
            n == fields@.len(),
            obj_lookup(fields@, key@) == obj_lookup(fields@.skip(i as int), key@),
    {
        proof {
            assert(fields@.skip(i as int)[0] == fields@[i as int]);
        }
        if crate::text::str_eq(fields[i].0.as_str(), key) {
            return Some(&fields[i].1);
        }
        proof {
            assert(fields@.skip(i as int).skip(1) =~= fields@.skip(i + 1));
        }
    }
    proof {
        assert(fields@.skip(n as int) =~= Seq::<(String, JsonValue)>::empty());
    }
    None
}

/// The character for a hexadecimal digit value, lower case.
pub open spec fn hex_digit(d: nat) -> char {
    if d < 10 {
        ((48 + d) as u8) as char
    } else {
        ((87 + d) as u8) as char
    }
}

/// How one character appears inside a JSON string literal: quote and backslash
/// are escaped, the named control characters use their short escapes, any other
/// control character uses `\u00..`, and everything else stands as itself.
pub open spec fn escape_char(c: char) -> Seq<char> {
    if c == '"' {
        seq!['\\', '"']
    } else if c == '\\' {
        seq!['\\', '\\']
    } else if c == '\u{8}' {
        seq!['\\', 'b']
    } else if c == '\t' {
        seq!['\\', 't']
    } else if c == '\n' {
        seq!['\\', 'n']
    } else if c == '\u{c}' {
        seq!['\\', 'f']
    } else if c == '\r' {
        seq!['\\', 'r']
    } else if (c as u32) < 32 {
        seq!['\\', 'u', '0', '0', hex_digit((c as u32 / 16) as nat), hex_digit(
            (c as u32 % 16) as nat,
        )]
    } else {
        seq![c]
    }
}

/// The body of a JSON string literal holding the characters of `s`.
pub open spec fn escape_seq(s: Seq<char>) -> Seq<char>
    decreases s.len(),
{
    if s.len() == 0 {
        Seq::empty()
    } else {
        escape_seq(s.drop_last()) + escape_char(s.last())
    }
}

/// A complete JSON string literal for `s`.
pub open spec fn quote(s: Seq<char>) -> Seq<char> {
    seq!['"'] + escape_seq(s) + seq!['"']
}

/// Appends the escaped body of a string literal for `s` to `out`.
pub fn push_escaped(out: &mut Vec<char>, s: &str)
    ensures
        final(out)@ == old(out)@ + escape_seq(s@),
{
    let n = s.unicode_len();
    for i in 0..n
        invariant
            n == s@.len(),
            out@ == old(out)@ + escape_seq(s@.take(i as int)),
    {
        let c = s.get_char(i);
        if c == '"' {
            out.push('\\');
            out.push('"');
        } else if c == '\\' {
            out.push('\\');
            out.push('\\');
        } else if c == '\u{8}' {
            out.push('\\');
            out.push('b');
        } else if c == '\t' {
            out.push('\\');
            out.push('t');
        } else if c == '\n' {
            out.push('\\');
            out.push('n');
        } else if c == '\u{c}' {
            out.push('\\');
            out.push('f');
        } else if c == '\r' {
            out.push('\\');
            out.push('r');
        } else if (c as u32) < 32 {
            out.push('\\');
            out.push('u');
            out.push('0');
            out.push('0');
            let hi = (c as u32 / 16) as u8;
            let lo = (c as u32 % 16) as u8;
            out.push(if hi < 10 { (48 + hi) as char } else { (87 + hi) as char });
            out.push(if lo < 10 { (48 + lo) as char } else { (87 + lo) as char });
        } else {
            out.push(c);
        }
        proof {
            assert(s@.take(i + 1).drop_last() =~= s@.take(i as int));
            assert(s@.take(i + 1).last() == s@[i as int]);
            assert(out@ =~= old(out)@ + escape_seq(s@.take(i + 1)));
        }
    }
    proof {
        assert(s@.take(n as int) =~= s@);
    }
}

/// Appends a complete JSON string literal for `s` to `out`.
pub fn push_quoted(out: &mut Vec<char>, s: &str)
    ensures
        final(out)@ == old(out)@ + quote(s@),
{
    out.push('"');
    push_escaped(out, s);
    out.push('"');
    proof {
        assert(final(out)@ =~= old(out)@ + quote(s@));
    }
}

/// A complete JSON string literal for `s`, as a fresh vector.
pub fn quote_chars(s: &str) -> (r: Vec<char>)
    ensures
        r@ == quote(s@),
{
    let mut out: Vec<char> = Vec::new();
    push_quoted(&mut out, s);
    proof {
        assert(Seq::<char>::empty() + quote(s@) =~= quote(s@));
    }
    out
}

/// `d` levels of single-space indentation.
pub open spec fn indent(d: nat) -> Seq<char>
    decreases d,
{
    if d == 0 {
        Seq::empty()
    } else {
        indent((d - 1) as nat) + seq![' ']
    }
}

/// Appends `d` levels of single-space indentation to `out`.
pub fn push_indent(out: &mut Vec<char>, d: usize)
    ensures
        final(out)@ == old(out)@ + indent(d as nat),
{
    for j in 0..d
        invariant
            out@ == old(out)@ + indent(j as nat),
    {
        out.push(' ');
        proof {
            assert(out@ =~= old(out)@ + indent(j as nat + 1));
        }
    }
}

/// One `"key": value` line of a pretty-printed object, at indentation `d`.
/// `key` is the text between the quotes, already escaped where that is needed.
pub open spec fn entry_text(key: Seq<char>, val: Seq<char>, d: nat) -> Seq<char> {
    indent(d) + seq!['"'] + key + seq!['"', ':', ' '] + val
}

/// The entry lines of a pretty-printed object, separated by `,` and newline.
pub open spec fn entries_join(es: Seq<(Seq<char>, Seq<char>)>, d: nat) -> Seq<char>
    decreases es.len(),
{
    if es.len() == 0 {
        Seq::empty()
    } else if es.len() == 1 {
        entry_text(es[0].0, es[0].1, d)
    } else {
        entries_join(es.drop_last(), d) + seq![',', '\n'] + entry_text(es.last().0, es.last().1, d)
    }
}

/// A pretty-printed JSON object at indentation `d`, in the style of a
/// single-space indent: `{}` when empty, otherwise one entry per line indented
/// one level deeper, with the closing brace back at `d`.
pub open spec fn obj_text(es: Seq<(Seq<char>, Seq<char>)>, d: nat) -> Seq<char> {
    if es.len() == 0 {
        seq!['{', '}']
    } else {
        seq!['{', '\n'] + entries_join(es, d + 1) + seq!['\n'] + indent(d) + seq!['}']
    }
}

/// The item lines of a pretty-printed array.
pub open spec fn items_join(items: Seq<Seq<char>>, d: nat) -> Seq<char>
    decreases items.len(),
{
    if items.len() == 0 {
        Seq::empty()
    } else if items.len() == 1 {
        indent(d) + items[0]
    } else {
        items_join(items.drop_last(), d) + seq![',', '\n'] + indent(d) + items.last()
    }
}

/// A pretty-printed JSON array at indentation `d`.
pub open spec fn arr_text(items: Seq<Seq<char>>, d: nat) -> Seq<char> {
    if items.len() == 0 {
        seq!['[', ']']
    } else {
        seq!['[', '\n'] + items_join(items, d + 1) + seq!['\n'] + indent(d) + seq![']']
    }
}

/// The (key, rendered value) pairs an entry vector stands for.
pub open spec fn entries_view(es: Seq<(Vec<char>, Vec<char>)>) -> Seq<(Seq<char>, Seq<char>)> {
    es.map_values(|p: (Vec<char>, Vec<char>)| (p.0@, p.1@))
}

/// The texts an item vector stands for.
pub open spec fn items_view(items: Seq<Vec<char>>) -> Seq<Seq<char>> {
    items.map_values(|v: Vec<char>| v@)
}

/// Appends a pretty-printed object with the given entries to `out`.
pub fn push_obj(out: &mut Vec<char>, entries: &Vec<(Vec<char>, Vec<char>)>, d: usize)
    requires
        d < 100,
    ensures
        final(out)@ == old(out)@ + obj_text(entries_view(entries@), d as nat),
{
    let n = entries.len();
    if n == 0 {
        out.push('{');
        out.push('}');
        proof {
            assert(final(out)@ =~= old(out)@ + obj_text(entries_view(entries@), d as nat));
        }
        return ;
    }
    out.push('{');
    out.push('\n');
    for i in 0..n
        invariant
            n == entries@.len(),
            n > 0,
            d < 100,
            out@ == old(out)@ + seq!['{', '\n'] + entries_join(
                entries_view(entries@).take(i as int),
                d as nat + 1,
            ),
    {
        if i > 0 {
            out.push(',');
            out.push('\n');
        }
        push_indent(out, d + 1);
        out.push('"');
        crate::text::push_chars(out, &entries[i].0);
        out.push('"');
        out.push(':');
        out.push(' ');
        crate::text::push_chars(out, &entries[i].1);
        proof {
            let ev = entries_view(entries@);
            assert(ev.take(i + 1).drop_last() =~= ev.take(i as int));
            assert(ev.take(i + 1).last() == ev[i as int]);
            assert(out@ =~= old(out)@ + seq!['{', '\n'] + entries_join(
                ev.take(i + 1),
                d as nat + 1,
            ));
        }
    }
    out.push('\n');
    push_indent(out, d);
    out.push('}');
    proof {
        assert(entries_view(entries@).take(n as int) =~= entries_view(entries@));
        assert(final(out)@ =~= old(out)@ + obj_text(entries_view(entries@), d as nat));
    }
}

/// Appends a pretty-printed array with the given rendered items to `out`.
pub fn push_arr(out: &mut Vec<char>, items: &Vec<Vec<char>>, d: usize)
    requires
        d < 100,
    ensures
        final(out)@ == old(out)@ + arr_text(items_view(items@), d as nat),
{
    let n = items.len();
    if n == 0 {
        out.push('[');
        out.push(']');
        proof {
            assert(final(out)@ =~= old(out)@ + arr_text(items_view(items@), d as nat));
        }
        return ;
    }
    out.push('[');
    out.push('\n');
    for i in 0..n
        invariant
            n == items@.len(),
            n > 0,
            d < 100,
            out@ == old(out)@ + seq!['[', '\n'] + items_join(
                items_view(items@).take(i as int),
                d as nat + 1,
            ),
    {
        if i > 0 {
            out.push(',');
            out.push('\n');
        }
        push_indent(out, d + 1);
        crate::text::push_chars(out, &items[i]);
        proof {
            let iv = items_view(items@);
            assert(iv.take(i + 1).drop_last() =~= iv.take(i as int));
            assert(iv.take(i + 1).last() == iv[i as int]);
            assert(out@ =~= old(out)@ + seq!['[', '\n'] + items_join(iv.take(i + 1), d as nat + 1));
        }
    }
    out.push('\n');
    push_indent(out, d);
    out.push(']');
    proof {
        assert(items_view(items@).take(n as int) =~= items_view(items@));
        assert(final(out)@ =~= old(out)@ + arr_text(items_view(items@), d as nat));
    }
}

} // verus!
