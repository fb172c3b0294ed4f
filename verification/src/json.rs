//! Verified JSON text construction.
//!
//! The wire payloads of this library are flat JSON objects whose values are
//! strings, integers, or nested string-to-string objects. This module defines
//! the JSON text of such an object as a spec-level function of its field list,
//! and provides executable builders proved to produce exactly that text.

use vstd::prelude::*;
use vstd::string::StrSliceExecFns;

verus! {

/// A JSON value as it appears in this library's payloads: a string, an
/// integer, or a nested object mapping string keys to string values.
pub enum JsonV {
    JStr(Seq<char>),
    JInt(int),
    JObj(Seq<(Seq<char>, Seq<char>)>),
}

/// The lowercase hexadecimal digit for `n` (0 to 15).
pub open spec fn hex_digit(n: nat) -> char {
    if n == 0 {
        '0'
    } else if n == 1 {
        '1'
    } else if n == 2 {
        '2'
    } else if n == 3 {
        '3'
    } else if n == 4 {
        '4'
    } else if n == 5 {
        '5'
    } else if n == 6 {
        '6'
    } else if n == 7 {
        '7'
    } else if n == 8 {
        '8'
    } else if n == 9 {
        '9'
    } else if n == 10 {
        'a'
    } else if n == 11 {
        'b'
    } else if n == 12 {
        'c'
    } else if n == 13 {
        'd'
    } else if n == 14 {
        'e'
    } else {
        'f'
    }
}

/// The escape of one character inside a JSON string literal: quote and
/// backslash get a backslash escape, the named control characters get their
/// short escapes, every other control character below 0x20 gets a `\u00XX`
/// escape, and all remaining characters stand for themselves.
pub open spec fn esc_char(c: char) -> Seq<char> {
    if c == '"' {
        seq!['\\', '"']
    } else if c == '\\' {
        seq!['\\', '\\']
    } else if c == '\n' {
        seq!['\\', 'n']
    } else if c == '\r' {
        seq!['\\', 'r']
    } else if c == '\t' {
        seq!['\\', 't']
    } else if c == '\u{8}' {
        seq!['\\', 'b']
    } else if c == '\u{c}' {
        seq!['\\', 'f']
    } else if (c as u32) < 0x20 {
        seq!['\\', 'u', '0', '0', hex_digit((c as u32 / 16) as nat), hex_digit((c as u32 % 16) as nat)]
    } else {
        seq![c]
    }
}

/// The body of a JSON string literal: each character replaced by its escape.
pub open spec fn escaped(s: Seq<char>) -> Seq<char>
    decreases s.len(),
{
    if s.len() == 0 {
        Seq::empty()
    } else {
        esc_char(s[0]) + escaped(s.drop_first())
    }
}

/// A complete JSON string literal: the escaped body between double quotes.
pub open spec fn quoted(s: Seq<char>) -> Seq<char> {
    seq!['"'] + escaped(s) + seq!['"']
}

/// The decimal digit character for `n` (0 to 9).
pub open spec fn digit_char(n: nat) -> char {
    hex_digit(n % 10)
}

/// The decimal text of a natural number, without sign or leading zeros
/// (a single `'0'` for zero).
pub open spec fn dec_nat(n: nat) -> Seq<char>
    decreases n,
{
    if n < 10 {
        seq![digit_char(n)]
    } else {
        dec_nat(n / 10).push(digit_char(n % 10))
    }
}

/// The decimal text of an integer: a leading minus sign for negatives.
pub open spec fn dec_int(i: int) -> Seq<char> {
    if i < 0 {
        seq!['-'] + dec_nat((-i) as nat)
    } else {
        dec_nat(i as nat)
    }
}

/// One entry of a nested string-to-string object: `"key":"value"`.
pub open spec fn entry_text(e: (Seq<char>, Seq<char>)) -> Seq<char> {
    quoted(e.0) + seq![':'] + quoted(e.1)
}

/// Every entry of `m`, each preceded by a comma.
pub open spec fn entries_tail_text(m: Seq<(Seq<char>, Seq<char>)>) -> Seq<char>
    decreases m.len(),
{
    if m.len() == 0 {
        Seq::empty()
    } else {
        seq![','] + entry_text(m[0]) + entries_tail_text(m.drop_first())
    }
}

/// The text of a string-to-string JSON object, entries in the order of `m`.
pub open spec fn strmap_text(m: Seq<(Seq<char>, Seq<char>)>) -> Seq<char> {
    if m.len() == 0 {
        seq!['{', '}']
    } else {
        seq!['{'] + entry_text(m[0]) + entries_tail_text(m.drop_first()) + seq!['}']
    }
}

/// The text of one JSON value.
pub open spec fn render_json(v: JsonV) -> Seq<char> {
    match v {
        JsonV::JStr(s) => quoted(s),
        JsonV::JInt(i) => dec_int(i),
        JsonV::JObj(m) => strmap_text(m),
    }
}

/// One field of a top-level object: `"key":value`.
pub open spec fn field_text(f: (Seq<char>, JsonV)) -> Seq<char> {
    quoted(f.0) + seq![':'] + render_json(f.1)
}

/// Every field of `fs`, each preceded by a comma.
pub open spec fn fields_tail_text(fs: Seq<(Seq<char>, JsonV)>) -> Seq<char>
    decreases fs.len(),
{
    if fs.len() == 0 {
        Seq::empty()
    } else {
        seq![','] + field_text(fs[0]) + fields_tail_text(fs.drop_first())
    }
}

/// The inner text of a non-empty JSON object: the first field, then each
/// further field behind a comma.
pub open spec fn body_text(fs: Seq<(Seq<char>, JsonV)>) -> Seq<char>
    recommends
        fs.len() >= 1,
{
    field_text(fs[0]) + fields_tail_text(fs.drop_first())
}

/// The text of a JSON object with the fields of `fs`, in their order.
pub open spec fn obj_text(fs: Seq<(Seq<char>, JsonV)>) -> Seq<char> {
    if fs.len() == 0 {
        seq!['{', '}']
    } else {
        seq!['{'] + body_text(fs) + seq!['}']
    }
}

/// The key/value view of a vector of string pairs.
pub open spec fn strmap_view(m: Seq<(String, String)>) -> Seq<(Seq<char>, Seq<char>)> {
    m.map_values(|p: (String, String)| (p.0@, p.1@))
}

/// The entries of a string-to-string map taken as top-level string fields,
/// as the flattened portion of a payload object.
pub open spec fn flat_fields(m: Seq<(Seq<char>, Seq<char>)>) -> Seq<(Seq<char>, JsonV)> {
    m.map_values(|e: (Seq<char>, Seq<char>)| (e.0, JsonV::JStr(e.1)))
}

/// The view of an optional string.
pub open spec fn opt_view(o: Option<String>) -> Option<Seq<char>> {
    match o {
        Some(s) => Some(s@),
        None => None,
    }
}

/// The key/value view of an optional vector of string pairs.
pub open spec fn opt_strmap_view(o: Option<Vec<(String, String)>>) -> Option<
    Seq<(Seq<char>, Seq<char>)>,
> {
    match o {
        Some(v) => Some(strmap_view(v@)),
        None => None,
    }
}

/// The string field under `key`, present exactly when the value is set.
pub open spec fn opt_str_field(key: Seq<char>, v: Option<Seq<char>>) -> Seq<(Seq<char>, JsonV)> {
    match v {
        Some(s) => seq![(key, JsonV::JStr(s))],
        None => Seq::empty(),
    }
}

/// The integer field under `key`, present exactly when the value is set.
pub open spec fn opt_i64_field(key: Seq<char>, v: Option<i64>) -> Seq<(Seq<char>, JsonV)> {
    match v {
        Some(t) => seq![(key, JsonV::JInt(t as int))],
        None => Seq::empty(),
    }
}

/// The nested-object field under `key`, present exactly when the map is set.
pub open spec fn opt_obj_field(key: Seq<char>, m: Option<Seq<(Seq<char>, Seq<char>)>>) -> Seq<
    (Seq<char>, JsonV),
> {
    match m {
        Some(s) => seq![(key, JsonV::JObj(s))],
        None => Seq::empty(),
    }
}

/// The entries of an optional map taken as top-level string fields, nothing
/// when the map is absent.
pub open spec fn opt_flat_fields(m: Option<Seq<(Seq<char>, Seq<char>)>>) -> Seq<
    (Seq<char>, JsonV),
> {
    match m {
        Some(s) => flat_fields(s),
        None => Seq::empty(),
    }
}

/// Whether the field list holds a field under key `k`.
pub open spec fn has_key(fs: Seq<(Seq<char>, JsonV)>, k: Seq<char>) -> bool {
    exists|i: int| 0 <= i < fs.len() && fs[i].0 == k
}

/// A key occurs in a concatenation of field lists exactly when it occurs in
/// one of the parts.
pub proof fn lemma_has_key_concat(a: Seq<(Seq<char>, JsonV)>, b: Seq<(Seq<char>, JsonV)>, k: Seq<char>)
    ensures
        has_key(a + b, k) <==> (has_key(a, k) || has_key(b, k)),
{
    if has_key(a, k) {
        let i = choose|i: int| 0 <= i < a.len() && a[i].0 == k;
        assert((a + b)[i].0 == k);
    }
    if has_key(b, k) {
        let i = choose|i: int| 0 <= i < b.len() && b[i].0 == k;
        assert((a + b)[a.len() + i].0 == k);
    }
    if has_key(a + b, k) {
        let i = choose|i: int| 0 <= i < (a + b).len() && (a + b)[i].0 == k;
        if i < a.len() {
            assert(a[i].0 == k);
        } else {
            assert(b[i - a.len()].0 == k);
        }
    }
}

/// What the left part of a concatenation holds, the whole holds.
pub proof fn lemma_contains_left<A>(a: Seq<A>, b: Seq<A>, x: A)
    requires
        a.contains(x),
    ensures
        (a + b).contains(x),
{
    let i = choose|i: int| 0 <= i < a.len() && a[i] == x;
    assert((a + b)[i] == x);
}

/// What the right part of a concatenation holds, the whole holds.
pub proof fn lemma_contains_right<A>(a: Seq<A>, b: Seq<A>, x: A)
    requires
        b.contains(x),
    ensures
        (a + b).contains(x),
{
    let i = choose|i: int| 0 <= i < b.len() && b[i] == x;
    assert((a + b)[a.len() + i] == x);
}

/// Sequence concatenation is associative.
pub proof fn lemma_concat_assoc<A>(a: Seq<A>, b: Seq<A>, c: Seq<A>)
    ensures
        (a + b) + c == a + (b + c),
{
    assert((a + b) + c =~= a + (b + c));
}

/// The empty sequence is neutral on the right.
pub proof fn lemma_concat_empty<A>(a: Seq<A>)
    ensures
        a + Seq::<A>::empty() == a,
{
    assert(a + Seq::<A>::empty() =~= a);
}

/// Pushing one element is concatenating a singleton.
pub proof fn lemma_push_concat<A>(a: Seq<A>, x: A)
    ensures
        a.push(x) == a + seq![x],
{
    assert(a.push(x) =~= a + seq![x]);
}

/// Escaping a concatenation escapes each part.
pub proof fn lemma_escaped_concat(a: Seq<char>, b: Seq<char>)
    ensures
        escaped(a + b) == escaped(a) + escaped(b),
    decreases a.len(),
{
    if a.len() == 0 {
        assert(a + b =~= b);
        assert(escaped(a) + escaped(b) =~= escaped(b));
    } else {
        lemma_escaped_concat(a.drop_first(), b);
        assert((a + b).drop_first() =~= a.drop_first() + b);
        assert(escaped(a + b) =~= escaped(a) + escaped(b));
    }
}

/// The comma-prefixed field text of a concatenation is the concatenation of
/// the comma-prefixed field texts.
pub proof fn lemma_fields_tail_concat(a: Seq<(Seq<char>, JsonV)>, b: Seq<(Seq<char>, JsonV)>)
    ensures
        fields_tail_text(a + b) == fields_tail_text(a) + fields_tail_text(b),
    decreases a.len(),
{
    if a.len() == 0 {
        assert(a + b =~= b);
        assert(fields_tail_text(a) + fields_tail_text(b) =~= fields_tail_text(b));
    } else {
        lemma_fields_tail_concat(a.drop_first(), b);
        assert((a + b).drop_first() =~= a.drop_first() + b);
        assert(fields_tail_text(a + b) =~= fields_tail_text(a) + fields_tail_text(b));
    }
}

/// The comma-prefixed entry text of a concatenation is the concatenation of
/// the comma-prefixed entry texts.
pub proof fn lemma_entries_tail_concat(a: Seq<(Seq<char>, Seq<char>)>, b: Seq<(Seq<char>, Seq<char>)>)
    ensures
        entries_tail_text(a + b) == entries_tail_text(a) + entries_tail_text(b),
    decreases a.len(),
{
    if a.len() == 0 {
        assert(a + b =~= b);
        assert(entries_tail_text(a) + entries_tail_text(b) =~= entries_tail_text(b));
    } else {
        lemma_entries_tail_concat(a.drop_first(), b);
        assert((a + b).drop_first() =~= a.drop_first() + b);
        assert(entries_tail_text(a + b) =~= entries_tail_text(a) + entries_tail_text(b));
    }
}

/// A single comma-prefixed field.
pub proof fn lemma_fields_tail_single(f: (Seq<char>, JsonV))
    ensures
        fields_tail_text(seq![f]) == seq![','] + field_text(f),
{
    assert(seq![f].drop_first() =~= Seq::<(Seq<char>, JsonV)>::empty());
    assert(fields_tail_text(seq![f]) =~= seq![','] + field_text(f)) by {
        reveal_with_fuel(fields_tail_text, 2);
    }
}

/// A single comma-prefixed entry.
pub proof fn lemma_entries_tail_single(e: (Seq<char>, Seq<char>))
    ensures
        entries_tail_text(seq![e]) == seq![','] + entry_text(e),
{
    assert(seq![e].drop_first() =~= Seq::<(Seq<char>, Seq<char>)>::empty());
    assert(entries_tail_text(seq![e]) =~= seq![','] + entry_text(e)) by {
        reveal_with_fuel(entries_tail_text, 2);
    }
}

/// Appending fields to a non-empty field list appends their comma-prefixed
/// text to the object's inner text.
pub proof fn lemma_body_concat(a: Seq<(Seq<char>, JsonV)>, b: Seq<(Seq<char>, JsonV)>)
    requires
        a.len() >= 1,
    ensures
        body_text(a + b) == body_text(a) + fields_tail_text(b),
{
    assert((a + b)[0] == a[0]);
    assert((a + b).drop_first() =~= a.drop_first() + b);
    lemma_fields_tail_concat(a.drop_first(), b);
    assert(body_text(a + b) =~= body_text(a) + fields_tail_text(b));
}

/// Relies on std's `String::push`: appends exactly the one character.
#[verifier::external_body]
pub(crate) fn push_char(out: &mut String, c: char)
    ensures
        final(out)@ == old(out)@.push(c),
{
    out.push(c);
}

/// The lowercase hexadecimal digit character for `n` (0 to 15).
fn hex_char(n: u32) -> (c: char)
    requires
        n < 16,
    ensures
        c == hex_digit(n as nat),
{
    if n == 0 {
        '0'
    } else if n == 1 {
        '1'
    } else if n == 2 {
        '2'
    } else if n == 3 {
        '3'
    } else if n == 4 {
        '4'
    } else if n == 5 {
        '5'
    } else if n == 6 {
        '6'
    } else if n == 7 {
        '7'
    } else if n == 8 {
        '8'
    } else if n == 9 {
        '9'
    } else if n == 10 {
        'a'
    } else if n == 11 {
        'b'
    } else if n == 12 {
        'c'
    } else if n == 13 {
        'd'
    } else if n == 14 {
        'e'
    } else {
        'f'
    }
}

/// Appends the escaped body of `s` to `out`.
pub fn append_escaped(out: &mut String, s: &str)
    ensures
        final(out)@ == old(out)@ + escaped(s@),
{
    let n = s.unicode_len();
    let mut i: usize = 0;
    while i < n
        invariant
            n == s@.len(),
            i <= n,
            out@ == old(out)@ + escaped(s@.take(i as int)),
        decreases n - i,
    {
        let c = s.get_char(i);
        let ghost pre = out@;
        if c == '"' {
            push_char(out, '\\');
            push_char(out, '"');
        } else if c == '\\' {
            push_char(out, '\\');
            push_char(out, '\\');
        } else if c == '\n' {
            push_char(out, '\\');
            push_char(out, 'n');
        } else if c == '\r' {
            push_char(out, '\\');
            push_char(out, 'r');
        } else if c == '\t' {
            push_char(out, '\\');
            push_char(out, 't');
        } else if c == '\u{8}' {
            push_char(out, '\\');
            push_char(out, 'b');
        } else if c == '\u{c}' {
            push_char(out, '\\');
            push_char(out, 'f');
        } else if (c as u32) < 0x20 {
            push_char(out, '\\');
            push_char(out, 'u');
            push_char(out, '0');
            push_char(out, '0');
            let code = c as u32;
            push_char(out, hex_char(code / 16));
            push_char(out, hex_char(code % 16));
        } else {
            push_char(out, c);
        }
        proof {
            assert(out@ =~= pre + esc_char(s@[i as int]));
            assert(s@.take(i + 1 as int) =~= s@.take(i as int) + seq![s@[i as int]]);
            lemma_escaped_concat(s@.take(i as int), seq![s@[i as int]]);
            assert(seq![s@[i as int]].drop_first() =~= Seq::<char>::empty());
            assert(escaped(seq![s@[i as int]]) =~= esc_char(s@[i as int])) by {
                reveal_with_fuel(escaped, 2);
            }
            assert(out@ =~= old(out)@ + escaped(s@.take(i + 1 as int)));
        }
        i = i + 1;
    }
    proof {
        assert(s@.take(n as int) =~= s@);
    }
}

/// Appends the JSON string literal for `s` (quotes and escapes) to `out`.
pub fn append_quoted(out: &mut String, s: &str)
    ensures
        final(out)@ == old(out)@ + quoted(s@),
{
    push_char(out, '"');
    append_escaped(out, s);
    push_char(out, '"');
    proof {
        assert(final(out)@ =~= old(out)@ + quoted(s@));
    }
}

/// Appends the decimal text of `n` to `out`.
pub fn append_u64(out: &mut String, n: u64)
    ensures
        final(out)@ == old(out)@ + dec_nat(n as nat),
{
    let mut digits: Vec<char> = Vec::new();
    let mut m: u64 = n;
    loop
        invariant_except_break
            dec_nat(n as nat) == dec_nat(m as nat) + digits@.reverse(),
        ensures
            dec_nat(n as nat) == digits@.reverse(),
        decreases m,
    {
        let ghost pre = digits@;
        let d: u64 = m % 10;
        digits.push(hex_char(d as u32));
        proof {
            assert(digits@.reverse() =~= seq![digit_char(m as nat % 10)] + pre.reverse());
        }
        let next: u64 = m / 10;
        if next == 0 {
            proof {
                assert(dec_nat(m as nat) =~= seq![digit_char(m as nat % 10)]);
                assert(dec_nat(n as nat) =~= digits@.reverse());
            }
            break;
        }
        proof {
            assert(dec_nat(m as nat) =~= dec_nat(m as nat / 10) + seq![digit_char(m as nat % 10)]);
            assert(dec_nat(n as nat) =~= dec_nat(next as nat) + digits@.reverse());
        }
        m = next;
    }
    let k = digits.len();
    let mut i: usize = 0;
    while i < k
        invariant
            k == digits@.len(),
            i <= k,
            out@ == old(out)@ + digits@.reverse().take(i as int),
        decreases k - i,
    {
        push_char(out, digits[k - 1 - i]);
        proof {
            assert(digits@.reverse()[i as int] == digits@[k - 1 - i as int]);
            assert(digits@.reverse().take(i + 1 as int) =~= digits@.reverse().take(i as int).push(
                digits@[k - 1 - i as int],
            ));
        }
        i = i + 1;
    }
    proof {
        assert(digits@.reverse().take(k as int) =~= digits@.reverse());
    }
}

/// Appends `"key":"value"`, the text of an object's first field.
pub fn append_field_str_first(out: &mut String, key: &str, val: &str)
    ensures
        final(out)@ == old(out)@ + field_text((key@, JsonV::JStr(val@))),
{
    append_quoted(out, key);
    push_char(out, ':');
    append_quoted(out, val);
    proof {
        assert(out@ =~= old(out)@ + field_text((key@, JsonV::JStr(val@))));
    }
}

/// Appends `,"key":"value"`, the text of one further string field.
pub fn append_field_str(out: &mut String, key: &str, val: &str)
    ensures
        final(out)@ == old(out)@ + fields_tail_text(seq![(key@, JsonV::JStr(val@))]),
{
    push_char(out, ',');
    append_quoted(out, key);
    push_char(out, ':');
    append_quoted(out, val);
    proof {
        lemma_fields_tail_single((key@, JsonV::JStr(val@)));
        assert(out@ =~= old(out)@ + fields_tail_text(seq![(key@, JsonV::JStr(val@))]));
    }
}

/// Appends `,"key":value`, the text of one further integer field.
pub fn append_field_i64(out: &mut String, key: &str, v: i64)
    ensures
        final(out)@ == old(out)@ + fields_tail_text(seq![(key@, JsonV::JInt(v as int))]),
{
    push_char(out, ',');
    append_quoted(out, key);
    push_char(out, ':');
    append_i64(out, v);
    proof {
        lemma_fields_tail_single((key@, JsonV::JInt(v as int)));
        assert(out@ =~= old(out)@ + fields_tail_text(seq![(key@, JsonV::JInt(v as int))]));
    }
}

/// Appends `,"key":{...}`, the text of one further field holding a nested
/// string-to-string object with the entries of `m`, in order.
pub fn append_field_obj(out: &mut String, key: &str, m: &Vec<(String, String)>)
    ensures
        final(out)@ == old(out)@ + fields_tail_text(
            seq![(key@, JsonV::JObj(strmap_view(m@)))],
        ),
{
    let ghost mv = strmap_view(m@);
    push_char(out, ',');
    append_quoted(out, key);
    push_char(out, ':');
    push_char(out, '{');
    let ghost base = out@;
    if m.len() > 0 {
        let p: &(String, String) = &m[0];
        append_quoted(out, p.0.as_str());
        push_char(out, ':');
        append_quoted(out, p.1.as_str());
        proof {
            assert(out@ =~= base + entry_text(mv[0]));
        }
        let n = m.len();
        let mut i: usize = 1;
        while i < n
            invariant
                n == m@.len(),
                mv == strmap_view(m@),
                mv.len() == n,
                1 <= i <= n,
                out@ == base + entry_text(mv[0]) + entries_tail_text(mv.subrange(1, i as int)),
            decreases n - i,
        {
            let ghost pre = out@;
            push_char(out, ',');
            let q: &(String, String) = &m[i];
            append_quoted(out, q.0.as_str());
            push_char(out, ':');
            append_quoted(out, q.1.as_str());
            proof {
                lemma_entries_tail_single(mv[i as int]);
                assert(out@ =~= pre + entries_tail_text(seq![mv[i as int]]));
                lemma_entries_tail_concat(mv.subrange(1, i as int), seq![mv[i as int]]);
                assert(mv.subrange(1, i + 1 as int) =~= mv.subrange(1, i as int) + seq![mv[
                    i as int]]);
            }
            i = i + 1;
        }
        proof {
            assert(mv.subrange(1, n as int) =~= mv.drop_first());
        }
    }
    push_char(out, '}');
    proof {
        assert(out@ =~= old(out)@ + fields_tail_text(seq![(key@, JsonV::JObj(mv))])) by {
            lemma_fields_tail_single((key@, JsonV::JObj(mv)));
        }
    }
}

/// Appends the entries of `m` as further top-level string fields of the
/// surrounding object, each preceded by a comma: the flattened rendering.
pub fn append_flat_fields(out: &mut String, m: &Vec<(String, String)>)
    ensures
        final(out)@ == old(out)@ + fields_tail_text(flat_fields(strmap_view(m@))),
{
    let ghost fs = flat_fields(strmap_view(m@));
    let n = m.len();
    let mut i: usize = 0;
    while i < n
        invariant
            n == m@.len(),
            fs == flat_fields(strmap_view(m@)),
            fs.len() == n,
            i <= n,
            out@ == old(out)@ + fields_tail_text(fs.take(i as int)),
        decreases n - i,
    {
        let ghost pre = out@;
        let p: &(String, String) = &m[i];
        append_field_str(out, p.0.as_str(), p.1.as_str());
        proof {
            assert(out@ =~= pre + fields_tail_text(seq![fs[i as int]]));
            lemma_fields_tail_concat(fs.take(i as int), seq![fs[i as int]]);
            assert(fs.take(i + 1 as int) =~= fs.take(i as int) + seq![fs[i as int]]);
        }
        i = i + 1;
    }
    proof {
        assert(fs.take(n as int) =~= fs);
    }
}

/// Appends the string field for an optional value: `,"key":"value"` when it
/// is set, nothing when it is absent.
pub fn append_opt_str_field(out: &mut String, key: &str, v: &Option<String>)
    ensures
        final(out)@ == old(out)@ + fields_tail_text(opt_str_field(key@, opt_view(*v))),
{
    if let Some(s) = v {
        append_field_str(out, key, s.as_str());
    } else {
        proof {
            lemma_concat_empty(out@);
        }
    }
}

/// Appends the integer field for an optional value: `,"key":value` when it
/// is set, nothing when it is absent.
pub fn append_opt_i64_field(out: &mut String, key: &str, v: &Option<i64>)
    ensures
        final(out)@ == old(out)@ + fields_tail_text(opt_i64_field(key@, *v)),
{
    if let Some(t) = v {
        append_field_i64(out, key, *t);
    } else {
        proof {
            lemma_concat_empty(out@);
        }
    }
}

/// Appends the nested-object field for an optional map: `,"key":{...}` when
/// it is set, nothing when it is absent.
pub fn append_opt_obj_field(out: &mut String, key: &str, m: &Option<Vec<(String, String)>>)
    ensures
        final(out)@ == old(out)@ + fields_tail_text(opt_obj_field(key@, opt_strmap_view(*m))),
{
    if let Some(v) = m {
        append_field_obj(out, key, v);
    } else {
        proof {
            lemma_concat_empty(out@);
        }
    }
}

/// Appends the flattened entries of an optional map as further top-level
/// string fields, nothing when the map is absent.
pub fn append_opt_flat_fields(out: &mut String, m: &Option<Vec<(String, String)>>)
    ensures
        final(out)@ == old(out)@ + fields_tail_text(opt_flat_fields(opt_strmap_view(*m))),
{
    if let Some(v) = m {
        append_flat_fields(out, v);
    } else {
        proof {
            lemma_concat_empty(out@);
        }
    }
}

/// Appends the decimal text of `i`, with a minus sign for negatives, to `out`.
pub fn append_i64(out: &mut String, i: i64)
    ensures
        final(out)@ == old(out)@ + dec_int(i as int),
{
    if i >= 0 {
        append_u64(out, i as u64);
    } else {
        push_char(out, '-');
        let u: u64 = if i == i64::MIN {
            9223372036854775808u64
        } else {
            (-i) as u64
        };
        assert(u as nat == (-(i as int)) as nat);
        append_u64(out, u);
        proof {
            assert(final(out)@ =~= old(out)@ + dec_int(i as int));
        }
    }
}

} // verus!
