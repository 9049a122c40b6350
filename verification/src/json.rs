//! A schema-less JSON value and a verified encoder for it.
//!
//! Notifications carry an open `metadata` bag, and the wire formats (webhook
//! body, socket envelope) are JSON, so the library defines the document shape
//! once: `JsonValue` is the executable tree, `JsonView` its mathematical
//! mirror, and `json_text` the exact character sequence the encoder emits.

use vstd::prelude::*;

verus! {

/// A JSON document: the tagged union behind notification `metadata` and the
/// wire envelopes. Numbers are 64-bit integers; the subsystem never puts
/// fractional values on the wire.
#[derive(Debug, PartialEq)]
pub enum JsonValue {
    Null,
    Bool(bool),
    Int(i64),
    Str(String),
    Arr(Vec<JsonValue>),
    Obj(Vec<(String, JsonValue)>),
}

/// The mathematical mirror of `JsonValue`.
#[verifier::ext_equal]
pub enum JsonView {
    Null,
    Bool(bool),
    Int(int),
    Str(Seq<char>),
    Arr(Seq<JsonView>),
    Obj(Seq<(Seq<char>, JsonView)>),
}

pub open spec fn view_of_json(v: JsonValue) -> JsonView
    decreases v,
{
    match v {
        JsonValue::Null => JsonView::Null,
        JsonValue::Bool(b) => JsonView::Bool(b),
        JsonValue::Int(i) => JsonView::Int(i as int),
        JsonValue::Str(s) => JsonView::Str(s@),
        JsonValue::Arr(vs) => JsonView::Arr(view_of_json_seq(vs@)),
        JsonValue::Obj(ps) => JsonView::Obj(view_of_json_pairs(ps@)),
    }
}

pub open spec fn view_of_json_seq(s: Seq<JsonValue>) -> Seq<JsonView>
    decreases s,
{
    if s.len() == 0 {
        Seq::empty()
    } else {
        view_of_json_seq(s.drop_last()).push(view_of_json(s[s.len() - 1]))
    }
}

pub open spec fn view_of_json_pairs(s: Seq<(String, JsonValue)>) -> Seq<(Seq<char>, JsonView)>
    decreases s,
{
    if s.len() == 0 {
        Seq::empty()
    } else {
        view_of_json_pairs(s.drop_last()).push(
            (s[s.len() - 1].0@, view_of_json(s[s.len() - 1].1)),
        )
    }
}

impl View for JsonValue {
    type V = JsonView;

    open spec fn view(&self) -> JsonView {
        view_of_json(*self)
    }
}

/// The character a decimal digit value denotes.
pub open spec fn digit_char(d: int) -> char {
    if d == 0 { '0' }
    else if d == 1 { '1' }
    else if d == 2 { '2' }
    else if d == 3 { '3' }
    else if d == 4 { '4' }
    else if d == 5 { '5' }
    else if d == 6 { '6' }
    else if d == 7 { '7' }
    else if d == 8 { '8' }
    else { '9' }
}

/// The character a hexadecimal digit value denotes, lower case.
pub open spec fn hex_digit_char(d: int) -> char {
    if d < 10 { digit_char(d) }
    else if d == 10 { 'a' }
    else if d == 11 { 'b' }
    else if d == 12 { 'c' }
    else if d == 13 { 'd' }
    else if d == 14 { 'e' }
    else { 'f' }
}

/// Decimal text of a non-negative integer, no leading zeros.
pub open spec fn dec_text(n: int) -> Seq<char>
    decreases n,
{
    if n < 10 {
        seq![digit_char(n)]
    } else {
        dec_text(n / 10).push(digit_char(n % 10))
    }
}

/// Decimal text of an integer, with a leading minus sign when negative.
pub open spec fn int_text(n: int) -> Seq<char> {
    if n < 0 {
        seq!['-'] + dec_text(-n)
    } else {
        dec_text(n)
    }
}

/// How one character appears inside a JSON string literal: quote and
/// backslash get a backslash escape, control characters a `\u00XX` escape,
/// and every other character stands as itself.
pub open spec fn escaped_char(c: char) -> Seq<char> {
    if c == '"' {
        seq!['\\', '"']
    } else if c == '\\' {
        seq!['\\', '\\']
    } else if (c as u32) < 0x20 {
        seq!['\\', 'u', '0', '0', hex_digit_char((c as u32) as int / 16), hex_digit_char(
            (c as u32) as int % 16,
        )]
    } else {
        seq![c]
    }
}

/// A whole text under the JSON string escaping.
pub open spec fn escaped_text(s: Seq<char>) -> Seq<char>
    decreases s,
{
    if s.len() == 0 {
        Seq::empty()
    } else {
        escaped_text(s.drop_last()) + escaped_char(s[s.len() - 1])
    }
}

/// A JSON string literal: the escaped text between double quotes.
pub open spec fn string_text(s: Seq<char>) -> Seq<char> {
    seq!['"'] + escaped_text(s) + seq!['"']
}

/// The exact character sequence the encoder emits for a document: compact
/// form, no whitespace, members in the order they are held.
pub open spec fn json_text(v: JsonView) -> Seq<char>
    decreases v,
{
    match v {
        JsonView::Null => seq!['n', 'u', 'l', 'l'],
        JsonView::Bool(b) => if b {
            seq!['t', 'r', 'u', 'e']
        } else {
            seq!['f', 'a', 'l', 's', 'e']
        },
        JsonView::Int(i) => int_text(i),
        JsonView::Str(s) => string_text(s),
        JsonView::Arr(vs) => seq!['['] + json_items_text(vs) + seq![']'],
        JsonView::Obj(ps) => seq!['{'] + json_members_text(ps) + seq!['}'],
    }
}

/// Array elements joined by commas.
pub open spec fn json_items_text(s: Seq<JsonView>) -> Seq<char>
    decreases s,
{
    if s.len() == 0 {
        Seq::empty()
    } else if s.len() == 1 {
        json_text(s[0])
    } else {
        json_items_text(s.drop_last()) + seq![','] + json_text(s[s.len() - 1])
    }
}

/// Object members, `"key":value` joined by commas.
pub open spec fn json_members_text(s: Seq<(Seq<char>, JsonView)>) -> Seq<char>
    decreases s,
{
    if s.len() == 0 {
        Seq::empty()
    } else if s.len() == 1 {
        string_text(s[0].0) + seq![':'] + json_text(s[0].1)
    } else {
        json_members_text(s.drop_last()) + seq![','] + string_text(s[s.len() - 1].0) + seq![':']
            + json_text(s[s.len() - 1].1)
    }
}

/// Structural size of a document, the measure the encoder recurses on.
pub open spec fn json_size(v: JsonValue) -> nat
    decreases v,
{
    match v {
        JsonValue::Null => 1,
        JsonValue::Bool(_) => 1,
        JsonValue::Int(_) => 1,
        JsonValue::Str(_) => 1,
        JsonValue::Arr(vs) => 1 + json_size_seq(vs@),
        JsonValue::Obj(ps) => 1 + json_size_pairs(ps@),
    }
}

pub open spec fn json_size_seq(s: Seq<JsonValue>) -> nat
    decreases s,
{
    if s.len() == 0 {
        0
    } else {
        json_size_seq(s.drop_last()) + json_size(s[s.len() - 1])
    }
}

pub open spec fn json_size_pairs(s: Seq<(String, JsonValue)>) -> nat
    decreases s,
{
    if s.len() == 0 {
        0
    } else {
        json_size_pairs(s.drop_last()) + json_size(s[s.len() - 1].1)
    }
}

proof fn lemma_json_size_seq_elem(s: Seq<JsonValue>, i: int)
    requires
        0 <= i < s.len(),
    ensures
        json_size(s[i]) <= json_size_seq(s),
    decreases s.len(),
{
    if i == s.len() - 1 {
    } else {
        lemma_json_size_seq_elem(s.drop_last(), i);
        assert(s.drop_last()[i] == s[i]);
    }
}

proof fn lemma_json_size_pairs_elem(s: Seq<(String, JsonValue)>, i: int)
    requires
        0 <= i < s.len(),
    ensures
        json_size(s[i].1) <= json_size_pairs(s),
    decreases s.len(),
{
    if i == s.len() - 1 {
    } else {
        lemma_json_size_pairs_elem(s.drop_last(), i);
        assert(s.drop_last()[i] == s[i]);
    }
}

proof fn lemma_view_seq_take(s: Seq<JsonValue>, i: int)
    requires
        0 <= i < s.len(),
    ensures
        view_of_json_seq(s.take(i + 1)) == view_of_json_seq(s.take(i)).push(view_of_json(s[i])),
{
    assert(s.take(i + 1).drop_last() =~= s.take(i));
    assert(s.take(i + 1)[s.take(i + 1).len() - 1] == s[i]);
}

proof fn lemma_view_pairs_take(s: Seq<(String, JsonValue)>, i: int)
    requires
        0 <= i < s.len(),
    ensures
        view_of_json_pairs(s.take(i + 1)) == view_of_json_pairs(s.take(i)).push(
            (s[i].0@, view_of_json(s[i].1)),
        ),
{
    assert(s.take(i + 1).drop_last() =~= s.take(i));
    assert(s.take(i + 1)[s.take(i + 1).len() - 1] == s[i]);
}

proof fn lemma_view_seq_len(s: Seq<JsonValue>)
    ensures
        view_of_json_seq(s).len() == s.len(),
    decreases s.len(),
{
    if s.len() > 0 {
        lemma_view_seq_len(s.drop_last());
    }
}

proof fn lemma_view_pairs_len(s: Seq<(String, JsonValue)>)
    ensures
        view_of_json_pairs(s).len() == s.len(),
    decreases s.len(),
{
    if s.len() > 0 {
        lemma_view_pairs_len(s.drop_last());
    }
}

proof fn lemma_escaped_take(s: Seq<char>, i: int)
    requires
        0 <= i < s.len(),
    ensures
        escaped_text(s.take(i + 1)) == escaped_text(s.take(i)) + escaped_char(s[i]),
{
    assert(s.take(i + 1).drop_last() =~= s.take(i));
    assert(s.take(i + 1)[s.take(i + 1).len() - 1] == s[i]);
}

/// Append the decimal digits of `n`.
fn push_dec(n: u64, out: &mut Vec<char>)
    ensures
        final(out)@ == old(out)@ + dec_text(n as int),
    decreases n,
{
    if n < 10 {
        let d = digit_of(n);
        out.push(d);
    } else {
        push_dec(n / 10, out);
        let d = digit_of(n % 10);
        out.push(d);
        assert(out@ =~= old(out)@ + dec_text(n as int));
    }
}

/// The decimal digit character for a value below ten.
fn digit_of(d: u64) -> (c: char)
    requires
        d < 10,
    ensures
        c == digit_char(d as int),
{
    if d == 0 { '0' }
    else if d == 1 { '1' }
    else if d == 2 { '2' }
    else if d == 3 { '3' }
    else if d == 4 { '4' }
    else if d == 5 { '5' }
    else if d == 6 { '6' }
    else if d == 7 { '7' }
    else if d == 8 { '8' }
    else { '9' }
}

/// The lower-case hexadecimal digit character for a value below sixteen.
fn hex_digit_of(d: u32) -> (c: char)
    requires
        d < 16,
    ensures
        c == hex_digit_char(d as int),
{
    if d < 10 {
        digit_of(d as u64)
    } else if d == 10 { 'a' }
    else if d == 11 { 'b' }
    else if d == 12 { 'c' }
    else if d == 13 { 'd' }
    else if d == 14 { 'e' }
    else { 'f' }
}

/// Append the decimal text of a signed integer.
fn push_int(n: i64, out: &mut Vec<char>)
    ensures
        final(out)@ == old(out)@ + int_text(n as int),
{
    if n >= 0 {
        push_dec(n as u64, out);
    } else {
        out.push('-');
        let m: u64 = ((-(n as i128)) as u64);
        assert(m as int == -(n as int));
        push_dec(m, out);
        assert(out@ =~= old(out)@ + int_text(n as int));
    }
}

/// Append one character of a JSON string literal, escaped as needed.
fn push_escaped_char(c: char, out: &mut Vec<char>)
    ensures
        final(out)@ == old(out)@ + escaped_char(c),
{
    if c == '"' {
        out.push('\\');
        out.push('"');
        assert(out@ =~= old(out)@ + escaped_char(c));
    } else if c == '\\' {
        out.push('\\');
        out.push('\\');
        assert(out@ =~= old(out)@ + escaped_char(c));
    } else if (c as u32) < 0x20 {
        out.push('\\');
        out.push('u');
        out.push('0');
        out.push('0');
        let hi = hex_digit_of((c as u32) / 16);
        out.push(hi);
        let lo = hex_digit_of((c as u32) % 16);
        out.push(lo);
        assert(out@ =~= old(out)@ + escaped_char(c));
    } else {
        out.push(c);
        assert(out@ =~= old(out)@ + escaped_char(c));
    }
}

/// Append a JSON string literal for `s`: quotes around the escaped text.
#[verifier::loop_isolation(false)]
fn push_string_literal(s: &str, out: &mut Vec<char>)
    ensures
        final(out)@ == old(out)@ + string_text(s@),
{
    out.push('"');
    let ghost base = out@;
    let n = s.unicode_len();
    for i in 0..n
        invariant
            n == s@.len(),
            out@ == base + escaped_text(s@.take(i as int)),
    {
        let c = s.get_char(i);
        proof {
            lemma_escaped_take(s@, i as int);
        }
        push_escaped_char(c, out);
    }
    proof {
        assert(s@.take(n as int) =~= s@);
    }
    out.push('"');
    assert(out@ =~= old(out)@ + string_text(s@));
}

/// Append the compact JSON text of a document.
#[verifier::loop_isolation(false)]
#[verifier::rlimit(100)]
fn push_json(v: &JsonValue, out: &mut Vec<char>)
    ensures
        final(out)@ == old(out)@ + json_text(v@),
    decreases json_size(*v),
{
    match v {
        JsonValue::Null => {
            out.push('n');
            out.push('u');
            out.push('l');
            out.push('l');
            assert(out@ =~= old(out)@ + json_text(v@));
        },
        JsonValue::Bool(b) => {
            if *b {
                out.push('t');
                out.push('r');
                out.push('u');
                out.push('e');
            } else {
                out.push('f');
                out.push('a');
                out.push('l');
                out.push('s');
                out.push('e');
            }
            assert(out@ =~= old(out)@ + json_text(v@));
        },
        JsonValue::Int(i) => {
            push_int(*i, out);
        },
        JsonValue::Str(s) => {
            push_string_literal(s.as_str(), out);
        },
        JsonValue::Arr(vs) => {
            out.push('[');
            let ghost base = out@;
            for i in 0..vs.len()
                invariant
                    out@ == base + json_items_text(view_of_json_seq(vs@.take(i as int))),
            {
                if i > 0 {
                    out.push(',');
                }
                proof {
                    lemma_json_size_seq_elem(vs@, i as int);
                    lemma_view_seq_len(vs@.take(i as int));
                    lemma_view_seq_take(vs@, i as int);
                    assert(view_of_json_seq(vs@.take(i as int)).push(
                        view_of_json(vs@[i as int]),
                    ).drop_last() =~= view_of_json_seq(vs@.take(i as int)));
                }
                push_json(&vs[i], out);
                assert(out@ =~= base + json_items_text(view_of_json_seq(vs@.take(i as int + 1))));
            }
            proof {
                assert(vs@.take(vs@.len() as int) =~= vs@);
            }
            out.push(']');
            assert(out@ =~= old(out)@ + json_text(v@));
        },
        JsonValue::Obj(ps) => {
            out.push('{');
            let ghost base = out@;
            for i in 0..ps.len()
                invariant
                    out@ == base + json_members_text(view_of_json_pairs(ps@.take(i as int))),
            {
                if i > 0 {
                    out.push(',');
                }
                proof {
                    lemma_json_size_pairs_elem(ps@, i as int);
                    lemma_view_pairs_len(ps@.take(i as int));
                    lemma_view_pairs_take(ps@, i as int);
                    assert(view_of_json_pairs(ps@.take(i as int)).push(
                        (ps@[i as int].0@, view_of_json(ps@[i as int].1)),
                    ).drop_last() =~= view_of_json_pairs(ps@.take(i as int)));
                }
                push_string_literal(ps[i].0.as_str(), out);
                out.push(':');
                push_json(&ps[i].1, out);
                assert(out@ =~= base + json_members_text(view_of_json_pairs(ps@.take(i as int + 1))));
            }
            proof {
                assert(ps@.take(ps@.len() as int) =~= ps@);
            }
            out.push('}');
            assert(out@ =~= old(out)@ + json_text(v@));
        },
    }
}

/// Relies on `String`'s `FromIterator<char>` impl: collecting characters
/// yields the string of exactly those characters in order.
#[verifier::external_body]
fn chars_to_string(v: &Vec<char>) -> (r: String)
    ensures
        r@ == v@,
{
    v.iter().collect()
}

/// The compact JSON text of a document, the exact bytes every wire format
/// of this subsystem carries.
pub fn to_json_string(v: &JsonValue) -> (r: String)
    ensures
        r@ == json_text(v@),
{
    let mut out: Vec<char> = Vec::new();
    push_json(v, &mut out);
    chars_to_string(&out)
}

proof fn lemma_view_seq_push(s: Seq<JsonValue>, x: JsonValue)
    ensures
        view_of_json_seq(s.push(x)) == view_of_json_seq(s).push(view_of_json(x)),
{
    assert(s.push(x).drop_last() =~= s);
}

proof fn lemma_view_pairs_push(s: Seq<(String, JsonValue)>, x: (String, JsonValue))
    ensures
        view_of_json_pairs(s.push(x)) == view_of_json_pairs(s).push((x.0@, view_of_json(x.1))),
{
    assert(s.push(x).drop_last() =~= s);
}

/// Add one member to an object under construction.
pub fn obj_push(ps: &mut Vec<(String, JsonValue)>, key: &str, val: JsonValue)
    ensures
        view_of_json_pairs(final(ps)@) == view_of_json_pairs(old(ps)@).push((key@, val@)),
{
    let k = String::from_str(key);
    let ghost gval = val@;
    ps.push((k, val));
    proof {
        lemma_view_pairs_push(old(ps)@, ps@[ps@.len() - 1]);
        assert(ps@.drop_last() =~= old(ps)@);
        assert(ps@ =~= old(ps)@.push(ps@[ps@.len() - 1]));
    }
}

/// A deep copy of a document: the same tree, member for member.
#[verifier::loop_isolation(false)]
pub fn clone_json(v: &JsonValue) -> (r: JsonValue)
    ensures
        r@ == v@,
    decreases json_size(*v),
{
    match v {
        JsonValue::Null => JsonValue::Null,
        JsonValue::Bool(b) => JsonValue::Bool(*b),
        JsonValue::Int(i) => JsonValue::Int(*i),
        JsonValue::Str(s) => JsonValue::Str(s.clone()),
        JsonValue::Arr(vs) => {
            let mut out: Vec<JsonValue> = Vec::new();
            for i in 0..vs.len()
                invariant
                    view_of_json_seq(out@) == view_of_json_seq(vs@.take(i as int)),
            {
                proof {
                    lemma_json_size_seq_elem(vs@, i as int);
                }
                let c = clone_json(&vs[i]);
                proof {
                    lemma_view_seq_push(out@, c);
                    lemma_view_seq_take(vs@, i as int);
                }
                out.push(c);
            }
            proof {
                assert(vs@.take(vs@.len() as int) =~= vs@);
            }
            JsonValue::Arr(out)
        },
        JsonValue::Obj(ps) => {
            let mut out: Vec<(String, JsonValue)> = Vec::new();
            for i in 0..ps.len()
                invariant
                    view_of_json_pairs(out@) == view_of_json_pairs(ps@.take(i as int)),
            {
                proof {
                    lemma_json_size_pairs_elem(ps@, i as int);
                }
                let k = ps[i].0.clone();
                let c = clone_json(&ps[i].1);
                proof {
                    lemma_view_pairs_push(out@, (k, c));
                    lemma_view_pairs_take(ps@, i as int);
                }
                out.push((k, c));
            }
            proof {
                assert(ps@.take(ps@.len() as int) =~= ps@);
            }
            JsonValue::Obj(out)
        },
    }
}

} // verus!
