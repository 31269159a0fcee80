//! The structured documents carried by the wire protocol, with a verified
//! text codec: a document type, its mathematical view, a serializer whose
//! output is pinned down character by character, and a parser proved to
//! implement a definitional grammar.  A round-trip law connects the two.
use vstd::prelude::*;

use crate::strutil::{dec_int, dec_nat, digit_char, push_char, push_i64};

verus! {

/// A structured document: the abstract, specification-level form.
pub ghost enum JsonV {
    Null,
    Bool(bool),
    Int(int),
    Str(Seq<char>),
    Arr(Seq<JsonV>),
    Obj(Seq<(Seq<char>, JsonV)>),
}

/// A structured document as held at run time.  Numbers are signed 64-bit
/// integers; object members keep their order and may repeat.
#[derive(Debug)]
pub enum JsonValue {
    Null,
    Bool(bool),
    Int(i64),
    Str(String),
    Arr(Vec<JsonValue>),
    Obj(Vec<(String, JsonValue)>),
}

/// The abstract document denoted by a run-time document.
pub open spec fn jv_of(v: JsonValue) -> JsonV
    decreases v, 1int,
{
    match v {
        JsonValue::Null => JsonV::Null,
        JsonValue::Bool(b) => JsonV::Bool(b),
        JsonValue::Int(i) => JsonV::Int(i as int),
        JsonValue::Str(s) => JsonV::Str(s@),
        JsonValue::Arr(xs) => JsonV::Arr(jv_of_seq(xs@)),
        JsonValue::Obj(ps) => JsonV::Obj(jv_of_pairs(ps@)),
    }
}

/// The abstract documents denoted by a sequence of run-time documents.
pub open spec fn jv_of_seq(xs: Seq<JsonValue>) -> Seq<JsonV>
    decreases xs, 0int,
{
    if xs.len() == 0 {
        Seq::empty()
    } else {
        jv_of_seq(xs.drop_last()).push(jv_of(xs.last()))
    }
}

/// The abstract members denoted by a sequence of run-time members.
pub open spec fn jv_of_pairs(ps: Seq<(String, JsonValue)>) -> Seq<(Seq<char>, JsonV)>
    decreases ps, 0int,
{
    if ps.len() == 0 {
        Seq::empty()
    } else {
        jv_of_pairs(ps.drop_last()).push((ps.last().0@, jv_of(ps.last().1)))
    }
}

/// The element-wise reading of `jv_of_seq`.
pub proof fn lemma_jv_of_seq(xs: Seq<JsonValue>)
    ensures
        jv_of_seq(xs).len() == xs.len(),
        forall|i: int| 0 <= i < xs.len() ==> jv_of_seq(xs)[i] == jv_of(xs[i]),
    decreases xs.len(),
{
    if xs.len() > 0 {
        lemma_jv_of_seq(xs.drop_last());
    }
}

/// The element-wise reading of `jv_of_pairs`.
pub proof fn lemma_jv_of_pairs(ps: Seq<(String, JsonValue)>)
    ensures
        jv_of_pairs(ps).len() == ps.len(),
        forall|i: int| 0 <= i < ps.len() ==> jv_of_pairs(ps)[i] == (ps[i].0@, jv_of(ps[i].1)),
    decreases ps.len(),
{
    if ps.len() > 0 {
        lemma_jv_of_pairs(ps.drop_last());
    }
}

impl View for JsonValue {
    type V = JsonV;

    open spec fn view(&self) -> JsonV {
        jv_of(*self)
    }
}

/// Whether every number in the document fits a signed 64-bit integer;
/// documents built at run time always satisfy this.
pub open spec fn wf_json(v: JsonV) -> bool
    decreases v,
{
    match v {
        JsonV::Null => true,
        JsonV::Bool(_) => true,
        JsonV::Int(i) => i64::MIN <= i <= i64::MAX,
        JsonV::Str(_) => true,
        JsonV::Arr(xs) => forall|i: int| 0 <= i < xs.len() ==> wf_json(#[trigger] xs[i]),
        JsonV::Obj(ps) => forall|i: int| 0 <= i < ps.len() ==> wf_json(#[trigger] ps[i].1),
    }
}

/// The rendering of one character inside a string literal: quote,
/// backslash, newline, carriage return and tab are escaped, all other
/// characters stand for themselves.
pub open spec fn esc_frag(c: char) -> Seq<char> {
    if c == '"' {
        seq!['\\', '"']
    } else if c == '\\' {
        seq!['\\', '\\']
    } else if c == '\n' {
        seq!['\\', 'n']
    } else if c == '\r' {
        seq!['\\', 'r']
    } else if c == '\t' {
        seq!['\\', 't']
    } else {
        seq![c]
    }
}

/// The rendering of string contents from position `k` on.
pub open spec fn esc_from(s: Seq<char>, k: int) -> Seq<char>
    decreases s.len() - k,
{
    if k < 0 || k >= s.len() {
        Seq::empty()
    } else {
        esc_frag(s[k]) + esc_from(s, k + 1)
    }
}

/// The rendering of a whole string literal, quotes included.
pub open spec fn str_chars(s: Seq<char>) -> Seq<char> {
    seq!['"'] + esc_from(s, 0) + seq!['"']
}

/// The serialized text of a document.  No whitespace is emitted.
pub open spec fn json_chars(v: JsonV) -> Seq<char>
    decreases v, 1int,
{
    match v {
        JsonV::Null => seq!['n', 'u', 'l', 'l'],
        JsonV::Bool(b) => if b {
            seq!['t', 'r', 'u', 'e']
        } else {
            seq!['f', 'a', 'l', 's', 'e']
        },
        JsonV::Int(i) => dec_int(i),
        JsonV::Str(s) => str_chars(s),
        JsonV::Arr(xs) => seq!['['] + arr_chars_from(xs, 0) + seq![']'],
        JsonV::Obj(ps) => seq!['{'] + obj_chars_from(ps, 0) + seq!['}'],
    }
}

/// The comma-separated renderings of the array elements from index `k` on.
pub open spec fn arr_chars_from(xs: Seq<JsonV>, k: int) -> Seq<char>
    decreases xs, xs.len() - k, 0int,
{
    if k < 0 || k >= xs.len() {
        Seq::empty()
    } else {
        (if k > 0 {
            seq![',']
        } else {
            Seq::empty()
        }) + json_chars(xs[k]) + arr_chars_from(xs, k + 1)
    }
}

/// The comma-separated renderings of the object members from index `k` on.
pub open spec fn obj_chars_from(ps: Seq<(Seq<char>, JsonV)>, k: int) -> Seq<char>
    decreases ps, ps.len() - k, 0int,
{
    if k < 0 || k >= ps.len() {
        Seq::empty()
    } else {
        (if k > 0 {
            seq![',']
        } else {
            Seq::empty()
        }) + str_chars(ps[k].0) + seq![':'] + json_chars(ps[k].1) + obj_chars_from(ps, k + 1)
    }
}

/// Appends the rendering of string contents to `out`, escaping as
/// `esc_frag` says.
fn write_escaped(s: &str, out: &mut String)
    ensures
        final(out)@ == old(out)@ + esc_from(s@, 0),
{
    let len = s.unicode_len();
    let mut i: usize = 0;
    while i < len
        invariant
            i <= len,
            len == s@.len(),
            out@ + esc_from(s@, i as int) == old(out)@ + esc_from(s@, 0),
        decreases len - i,
    {
        let ghost pre = out@;
        let c = s.get_char(i);
        if c == '"' {
            push_char(out, '\\');
            push_char(out, '"');
        } else if c == '\\' {
            push_char(out, '\\');
            push_char(out, '\\');
        } else if c == '\n' {
            push_char(out, '\\');
            push_char(out, 'n');
        } else if c == '\r' {
            push_char(out, '\\');
            push_char(out, 'r');
        } else if c == '\t' {
            push_char(out, '\\');
            push_char(out, 't');
        } else {
            push_char(out, c);
        }
        proof {
            assert(out@ =~= pre + esc_frag(s@[i as int]));
            assert(pre + (esc_frag(s@[i as int]) + esc_from(s@, i + 1))
                =~= (pre + esc_frag(s@[i as int])) + esc_from(s@, i + 1));
        }
        i = i + 1;
    }
    proof {
        assert(final(out)@ =~= final(out)@ + esc_from(s@, len as int));
    }
}

/// Appends a whole string literal, quotes included.
fn write_string(s: &str, out: &mut String)
    ensures
        final(out)@ == old(out)@ + str_chars(s@),
{
    push_char(out, '"');
    write_escaped(s, out);
    push_char(out, '"');
    proof {
        assert(old(out)@ + seq!['"'] + esc_from(s@, 0) + seq!['"']
            =~= old(out)@ + str_chars(s@));
    }
}

/// Appends the serialized text of a document to `out`.
pub fn write_json(v: &JsonValue, out: &mut String)
    ensures
        final(out)@ == old(out)@ + json_chars(v@),
    decreases *v,
{
    match v {
        JsonValue::Null => {
            push_char(out, 'n');
            push_char(out, 'u');
            push_char(out, 'l');
            push_char(out, 'l');
            proof {
                assert(final(out)@ =~= old(out)@ + json_chars(v@));
            }
        },
        JsonValue::Bool(b) => {
            if *b {
                push_char(out, 't');
                push_char(out, 'r');
                push_char(out, 'u');
                push_char(out, 'e');
            } else {
                push_char(out, 'f');
                push_char(out, 'a');
                push_char(out, 'l');
                push_char(out, 's');
                push_char(out, 'e');
            }
            proof {
                assert(final(out)@ =~= old(out)@ + json_chars(v@));
            }
        },
        JsonValue::Int(i) => {
            push_i64(out, *i);
        },
        JsonValue::Str(s) => {
            write_string(s.as_str(), out);
        },
        JsonValue::Arr(xs) => {
            push_char(out, '[');
            let ghost base = out@;
            let n = xs.len();
            let mut i: usize = 0;
            while i < n
                invariant
                    i <= n,
                    n == xs@.len(),
                    v == JsonValue::Arr(*xs),
                    out@ + arr_chars_from(v@->Arr_0, i as int) == base + arr_chars_from(
                        v@->Arr_0,
                        0,
                    ),
                decreases n - i,
            {
                let ghost pre = out@;
                if i > 0 {
                    push_char(out, ',');
                }
                proof {
                    assert(decreases_to!(*v => xs@[i as int]));
                }
                write_json(&xs[i], out);
                proof {
                    let ghost s = v@->Arr_0;
                    lemma_jv_of_seq(xs@);
                    assert(s[i as int] == jv_of(xs@[i as int]));
                    let comma: Seq<char> = if i > 0 {
                        seq![',']
                    } else {
                        Seq::empty()
                    };
                    assert(out@ =~= pre + (comma + json_chars(s[i as int])));
                    assert(pre + (comma + json_chars(s[i as int]) + arr_chars_from(s, i + 1))
                        =~= (pre + (comma + json_chars(s[i as int]))) + arr_chars_from(s, i + 1));
                }
                i = i + 1;
            }
            push_char(out, ']');
            proof {
                let ghost s = v@->Arr_0;
                lemma_jv_of_seq(xs@);
                assert(out@ + arr_chars_from(s, n as int) =~= out@);
                assert(old(out)@ + seq!['['] + arr_chars_from(s, 0) + seq![']']
                    =~= old(out)@ + json_chars(v@));
                assert(final(out)@ =~= old(out)@ + json_chars(v@));
            }
        },
        JsonValue::Obj(ps) => {
            push_char(out, '{');
            let ghost base = out@;
            let n = ps.len();
            let mut i: usize = 0;
            while i < n
                invariant
                    i <= n,
                    n == ps@.len(),
                    v == JsonValue::Obj(*ps),
                    out@ + obj_chars_from(v@->Obj_0, i as int) == base + obj_chars_from(
                        v@->Obj_0,
                        0,
                    ),
                decreases n - i,
            {
                let ghost pre = out@;
                if i > 0 {
                    push_char(out, ',');
                }
                write_string(ps[i].0.as_str(), out);
                push_char(out, ':');
                proof {
                    assert(decreases_to!(*v => ps@[i as int].1));
                }
                write_json(&ps[i].1, out);
                proof {
                    let ghost s = v@->Obj_0;
                    lemma_jv_of_pairs(ps@);
                    assert(s[i as int] == (ps@[i as int].0@, jv_of(ps@[i as int].1)));
                    let comma: Seq<char> = if i > 0 {
                        seq![',']
                    } else {
                        Seq::empty()
                    };
                    assert(out@ =~= pre + (comma + str_chars(s[i as int].0) + seq![':']
                        + json_chars(s[i as int].1)));
                    assert(pre + (comma + str_chars(s[i as int].0) + seq![':'] + json_chars(
                        s[i as int].1,
                    ) + obj_chars_from(s, i + 1)) =~= (pre + (comma + str_chars(s[i as int].0)
                        + seq![':'] + json_chars(s[i as int].1))) + obj_chars_from(s, i + 1));
                }
                i = i + 1;
            }
            push_char(out, '}');
            proof {
                let ghost s = v@->Obj_0;
                lemma_jv_of_pairs(ps@);
                assert(out@ + obj_chars_from(s, n as int) =~= out@);
                assert(old(out)@ + seq!['{'] + obj_chars_from(s, 0) + seq!['}']
                    =~= old(out)@ + json_chars(v@));
                assert(final(out)@ =~= old(out)@ + json_chars(v@));
            }
        },
    }
}

/// Whether a character counts as insignificant whitespace between tokens.
pub open spec fn is_ws(c: char) -> bool {
    c == ' ' || c == '\n' || c == '\t' || c == '\r'
}

/// The first position at or after `i` holding a non-whitespace character.
pub open spec fn skip_ws(s: Seq<char>, i: int) -> int
    decreases s.len() - i,
{
    if 0 <= i < s.len() && is_ws(s[i]) {
        skip_ws(s, i + 1)
    } else {
        i
    }
}

pub proof fn lemma_skip_ws(s: Seq<char>, i: int)
    requires
        0 <= i <= s.len(),
    ensures
        i <= skip_ws(s, i) <= s.len(),
    decreases s.len() - i,
{
    if i < s.len() && is_ws(s[i]) {
        lemma_skip_ws(s, i + 1);
    }
}

/// The value of a decimal digit character, negative for any other
/// character.
pub open spec fn digit_val(c: char) -> int {
    if c == '0' {
        0
    } else if c == '1' {
        1
    } else if c == '2' {
        2
    } else if c == '3' {
        3
    } else if c == '4' {
        4
    } else if c == '5' {
        5
    } else if c == '6' {
        6
    } else if c == '7' {
        7
    } else if c == '8' {
        8
    } else if c == '9' {
        9
    } else {
        -1
    }
}

/// The character denoted by a backslash escape, if the escape is known.
pub open spec fn unescape(c: char) -> Option<char> {
    if c == '"' {
        Some('"')
    } else if c == '\\' {
        Some('\\')
    } else if c == '/' {
        Some('/')
    } else if c == 'n' {
        Some('\n')
    } else if c == 'r' {
        Some('\r')
    } else if c == 't' {
        Some('\t')
    } else if c == 'b' {
        Some('\u{0008}')
    } else if c == 'f' {
        Some('\u{000C}')
    } else {
        None
    }
}

/// Reads string contents starting just after the opening quote; yields
/// the contents and the position just past the closing quote.
pub open spec fn parse_string(s: Seq<char>, i: int) -> Option<(Seq<char>, int)>
    decreases s.len() - i,
{
    if i < 0 || i >= s.len() {
        None
    } else if s[i] == '"' {
        Some((Seq::empty(), i + 1))
    } else if s[i] == '\\' {
        if i + 1 < s.len() {
            match unescape(s[i + 1]) {
                None => None,
                Some(c) => match parse_string(s, i + 2) {
                    None => None,
                    Some((t, j)) => Some((seq![c] + t, j)),
                },
            }
        } else {
            None
        }
    } else {
        match parse_string(s, i + 1) {
            None => None,
            Some((t, j)) => Some((seq![s[i]] + t, j)),
        }
    }
}

/// Reads a run of decimal digits starting at `i`, folding them onto
/// `acc`; magnitudes above 2^63 do not parse.
pub open spec fn parse_digits(s: Seq<char>, i: int, acc: int) -> Option<(int, int)>
    decreases s.len() - i,
{
    if i < 0 || i >= s.len() || digit_val(s[i]) < 0 {
        None
    } else {
        let acc2 = acc * 10 + digit_val(s[i]);
        if acc2 > 0x8000_0000_0000_0000 {
            None
        } else if i + 1 < s.len() && digit_val(s[i + 1]) >= 0 {
            parse_digits(s, i + 1, acc2)
        } else {
            Some((acc2, i + 1))
        }
    }
}

/// Reads one document starting at `i` (no leading whitespace); yields it
/// and the position just past its last character.
pub open spec fn parse_value(s: Seq<char>, i: int) -> Option<(JsonV, int)>
    decreases s.len() - i, 0int,
    via parse_value_dec
{
    if i < 0 || i >= s.len() {
        None
    } else if s[i] == 'n' {
        if i + 4 <= s.len() && s[i + 1] == 'u' && s[i + 2] == 'l' && s[i + 3] == 'l' {
            Some((JsonV::Null, i + 4))
        } else {
            None
        }
    } else if s[i] == 't' {
        if i + 4 <= s.len() && s[i + 1] == 'r' && s[i + 2] == 'u' && s[i + 3] == 'e' {
            Some((JsonV::Bool(true), i + 4))
        } else {
            None
        }
    } else if s[i] == 'f' {
        if i + 5 <= s.len() && s[i + 1] == 'a' && s[i + 2] == 'l' && s[i + 3] == 's' && s[i + 4]
            == 'e' {
            Some((JsonV::Bool(false), i + 5))
        } else {
            None
        }
    } else if s[i] == '"' {
        match parse_string(s, i + 1) {
            None => None,
            Some((t, j)) => Some((JsonV::Str(t), j)),
        }
    } else if s[i] == '-' {
        match parse_digits(s, i + 1, 0) {
            None => None,
            Some((m, j)) => Some((JsonV::Int(-m), j)),
        }
    } else if digit_val(s[i]) >= 0 {
        match parse_digits(s, i, 0) {
            None => None,
            Some((m, j)) => if m <= 0x7fff_ffff_ffff_ffff {
                Some((JsonV::Int(m), j))
            } else {
                None
            },
        }
    } else if s[i] == '[' {
        let j = skip_ws(s, i + 1);
        if j < s.len() && s[j] == ']' {
            Some((JsonV::Arr(Seq::empty()), j + 1))
        } else {
            match parse_elems(s, j) {
                None => None,
                Some((vs, k)) => Some((JsonV::Arr(vs), k)),
            }
        }
    } else if s[i] == '{' {
        let j = skip_ws(s, i + 1);
        if j < s.len() && s[j] == '}' {
            Some((JsonV::Obj(Seq::empty()), j + 1))
        } else {
            match parse_members(s, j) {
                None => None,
                Some((ps, k)) => Some((JsonV::Obj(ps), k)),
            }
        }
    } else {
        None
    }
}

/// Reads the elements of a non-empty array, the opening bracket already
/// consumed; yields them and the position just past the closing bracket.
pub open spec fn parse_elems(s: Seq<char>, i: int) -> Option<(Seq<JsonV>, int)>
    decreases s.len() - i, 1int,
    via parse_elems_dec
{
    match parse_value(s, i) {
        None => None,
        Some((v, k)) => if !(i < k <= s.len()) {
            None
        } else {
            let k2 = skip_ws(s, k);
            if k2 < s.len() && s[k2] == ',' {
                match parse_elems(s, skip_ws(s, k2 + 1)) {
                    None => None,
                    Some((vs, j)) => Some((seq![v] + vs, j)),
                }
            } else if k2 < s.len() && s[k2] == ']' {
                Some((seq![v], k2 + 1))
            } else {
                None
            }
        },
    }
}

/// Reads the members of a non-empty object, the opening brace already
/// consumed; yields them and the position just past the closing brace.
pub open spec fn parse_members(s: Seq<char>, i: int) -> Option<(Seq<(Seq<char>, JsonV)>, int)>
    decreases s.len() - i, 1int,
    via parse_members_dec
{
    if !(0 <= i < s.len() && s[i] == '"') {
        None
    } else {
        match parse_string(s, i + 1) {
            None => None,
            Some((key, k)) => if !(i < k <= s.len()) {
                None
            } else {
                let k2 = skip_ws(s, k);
                if !(k2 < s.len() && s[k2] == ':') {
                    None
                } else {
                    let k3 = skip_ws(s, k2 + 1);
                    match parse_value(s, k3) {
                        None => None,
                        Some((v, k4)) => if !(k3 < k4 <= s.len()) {
                            None
                        } else {
                            let k5 = skip_ws(s, k4);
                            if k5 < s.len() && s[k5] == ',' {
                                match parse_members(s, skip_ws(s, k5 + 1)) {
                                    None => None,
                                    Some((ps, j)) => Some((seq![(key, v)] + ps, j)),
                                }
                            } else if k5 < s.len() && s[k5] == '}' {
                                Some((seq![(key, v)], k5 + 1))
                            } else {
                                None
                            }
                        },
                    }
                }
            },
        }
    }
}

#[via_fn]
proof fn parse_value_dec(s: Seq<char>, i: int) {
    assert forall|j: int| 0 <= j <= s.len() implies j <= #[trigger] skip_ws(s, j) <= s.len() by {
        lemma_skip_ws(s, j);
    }
}

#[via_fn]
proof fn parse_elems_dec(s: Seq<char>, i: int) {
    assert forall|j: int| 0 <= j <= s.len() implies j <= #[trigger] skip_ws(s, j) <= s.len() by {
        lemma_skip_ws(s, j);
    }
}

#[via_fn]
proof fn parse_members_dec(s: Seq<char>, i: int) {
    assert forall|j: int| 0 <= j <= s.len() implies j <= #[trigger] skip_ws(s, j) <= s.len() by {
        lemma_skip_ws(s, j);
    }
}

/// The document denoted by a whole line of text: one document surrounded
/// by optional whitespace, nothing else.
pub open spec fn parse_text(s: Seq<char>) -> Option<JsonV> {
    let i = skip_ws(s, 0);
    match parse_value(s, i) {
        None => None,
        Some((v, k)) => if 0 <= k <= s.len() && skip_ws(s, k) == s.len() {
            Some(v)
        } else {
            None
        },
    }
}

fn p_skip(s: &str, len: usize, i: usize) -> (j: usize)
    requires
        len == s@.len(),
        i <= len,
    ensures
        j as int == skip_ws(s@, i as int),
        i <= j <= len,
    decreases len - i,
{
    if i < len {
        let c = s.get_char(i);
        if c == ' ' || c == '\n' || c == '\t' || c == '\r' {
            return p_skip(s, len, i + 1);
        }
    }
    i
}

pub fn digit_of(c: char) -> (r: Option<u64>)
    ensures
        match r {
            Some(d) => digit_val(c) == d as int && d < 10,
            None => digit_val(c) < 0,
        },
{
    if c == '0' {
        Some(0)
    } else if c == '1' {
        Some(1)
    } else if c == '2' {
        Some(2)
    } else if c == '3' {
        Some(3)
    } else if c == '4' {
        Some(4)
    } else if c == '5' {
        Some(5)
    } else if c == '6' {
        Some(6)
    } else if c == '7' {
        Some(7)
    } else if c == '8' {
        Some(8)
    } else if c == '9' {
        Some(9)
    } else {
        None
    }
}

fn unesc_char(c: char) -> (r: Option<char>)
    ensures
        r == unescape(c),
{
    if c == '"' {
        Some('"')
    } else if c == '\\' {
        Some('\\')
    } else if c == '/' {
        Some('/')
    } else if c == 'n' {
        Some('\n')
    } else if c == 'r' {
        Some('\r')
    } else if c == 't' {
        Some('\t')
    } else if c == 'b' {
        Some('\u{0008}')
    } else if c == 'f' {
        Some('\u{000C}')
    } else {
        None
    }
}

fn p_string(s: &str, len: usize, i: usize) -> (r: Option<(String, usize)>)
    requires
        len == s@.len(),
        i <= len,
    ensures
        match r {
            Some(t) => parse_string(s@, i as int) == Some((t.0@, t.1 as int)) && i < t.1 <= len,
            None => parse_string(s@, i as int) is None,
        },
    decreases len - i,
{
    if i >= len {
        return None;
    }
    let c = s.get_char(i);
    if c == '"' {
        Some((String::new(), i + 1))
    } else if c == '\\' {
        if i + 1 < len {
            match unesc_char(s.get_char(i + 1)) {
                None => None,
                Some(c2) => match p_string(s, len, i + 2) {
                    None => None,
                    Some((t, j)) => {
                        let mut out = String::new();
                        push_char(&mut out, c2);
                        out.append(t.as_str());
                        proof {
                            assert(out@ =~= seq![c2] + t@);
                        }
                        Some((out, j))
                    },
                },
            }
        } else {
            None
        }
    } else {
        match p_string(s, len, i + 1) {
            None => None,
            Some((t, j)) => {
                let mut out = String::new();
                push_char(&mut out, c);
                out.append(t.as_str());
                proof {
                    assert(out@ =~= seq![s@[i as int]] + t@);
                }
                Some((out, j))
            },
        }
    }
}

fn p_digits(s: &str, len: usize, i: usize, acc: u64) -> (r: Option<(u64, usize)>)
    requires
        len == s@.len(),
        i <= len,
        acc <= 0x8000_0000_0000_0000u64,
    ensures
        match r {
            Some(t) => parse_digits(s@, i as int, acc as int) == Some((t.0 as int, t.1 as int))
                && i < t.1 <= len && t.0 <= 0x8000_0000_0000_0000u64,
            None => parse_digits(s@, i as int, acc as int) is None,
        },
    decreases len - i,
{
    if i >= len {
        return None;
    }
    match digit_of(s.get_char(i)) {
        None => None,
        Some(dv) => {
            match acc.checked_mul(10) {
                None => None,
                Some(p) => match p.checked_add(dv) {
                    None => None,
                    Some(a2) => {
                        if a2 > 0x8000_0000_0000_0000u64 {
                            None
                        } else if i + 1 < len {
                            match digit_of(s.get_char(i + 1)) {
                                Some(_) => p_digits(s, len, i + 1, a2),
                                None => Some((a2, i + 1)),
                            }
                        } else {
                            Some((a2, i + 1))
                        }
                    },
                },
            }
        },
    }
}

fn p_value(s: &str, len: usize, i: usize) -> (r: Option<(JsonValue, usize)>)
    requires
        len == s@.len(),
        i <= len,
    ensures
        match r {
            Some(t) => parse_value(s@, i as int) == Some((t.0@, t.1 as int)) && i < t.1 <= len,
            None => parse_value(s@, i as int) is None,
        },
    decreases len - i, 0int,
{
    if i >= len {
        return None;
    }
    let c = s.get_char(i);
    if c == 'n' {
        if len - i >= 4 && s.get_char(i + 1) == 'u' && s.get_char(i + 2) == 'l' && s.get_char(
            i + 3,
        ) == 'l' {
            Some((JsonValue::Null, i + 4))
        } else {
            None
        }
    } else if c == 't' {
        if len - i >= 4 && s.get_char(i + 1) == 'r' && s.get_char(i + 2) == 'u' && s.get_char(
            i + 3,
        ) == 'e' {
            Some((JsonValue::Bool(true), i + 4))
        } else {
            None
        }
    } else if c == 'f' {
        if len - i >= 5 && s.get_char(i + 1) == 'a' && s.get_char(i + 2) == 'l' && s.get_char(
            i + 3,
        ) == 's' && s.get_char(i + 4) == 'e' {
            Some((JsonValue::Bool(false), i + 5))
        } else {
            None
        }
    } else if c == '"' {
        match p_string(s, len, i + 1) {
            None => None,
            Some((t, j)) => Some((JsonValue::Str(t), j)),
        }
    } else if c == '-' {
        match p_digits(s, len, i + 1, 0) {
            None => None,
            Some((m, j)) => {
                let x: i64 = if m == 0x8000_0000_0000_0000u64 {
                    i64::MIN
                } else {
                    -(m as i64)
                };
                Some((JsonValue::Int(x), j))
            },
        }
    } else if digit_of(c).is_some() {
        match p_digits(s, len, i, 0) {
            None => None,
            Some((m, j)) => {
                if m <= 0x7fff_ffff_ffff_ffffu64 {
                    Some((JsonValue::Int(m as i64), j))
                } else {
                    None
                }
            },
        }
    } else if c == '[' {
        let j = p_skip(s, len, i + 1);
        if j < len && s.get_char(j) == ']' {
            Some((JsonValue::Arr(Vec::new()), j + 1))
        } else {
            match p_elems(s, len, j) {
                None => None,
                Some((vs, k)) => Some((JsonValue::Arr(vs), k)),
            }
        }
    } else if c == '{' {
        let j = p_skip(s, len, i + 1);
        if j < len && s.get_char(j) == '}' {
            Some((JsonValue::Obj(Vec::new()), j + 1))
        } else {
            match p_members(s, len, j) {
                None => None,
                Some((ps, k)) => Some((JsonValue::Obj(ps), k)),
            }
        }
    } else {
        None
    }
}

fn p_elems(s: &str, len: usize, i: usize) -> (r: Option<(Vec<JsonValue>, usize)>)
    requires
        len == s@.len(),
        i <= len,
    ensures
        match r {
            Some(t) => parse_elems(s@, i as int) == Some((jv_of_seq(t.0@), t.1 as int)) && i < t.1
                <= len,
            None => parse_elems(s@, i as int) is None,
        },
    decreases len - i, 1int,
{
    match p_value(s, len, i) {
        None => None,
        Some((v, k)) => {
            let k2 = p_skip(s, len, k);
            if k2 < len && s.get_char(k2) == ',' {
                let nxt = p_skip(s, len, k2 + 1);
                match p_elems(s, len, nxt) {
                    None => None,
                    Some((mut vs, j)) => {
                        let ghost prev = vs@;
                        vs.insert(0, v);
                        proof {
                            assert(vs@ =~= seq![v] + prev);
                            lemma_jv_of_seq(vs@);
                            lemma_jv_of_seq(prev);
                            assert(jv_of_seq(vs@) =~= seq![jv_of(v)] + jv_of_seq(prev));
                        }
                        Some((vs, j))
                    },
                }
            } else if k2 < len && s.get_char(k2) == ']' {
                let mut vs: Vec<JsonValue> = Vec::new();
                vs.push(v);
                proof {
                    lemma_jv_of_seq(vs@);
                    assert(jv_of_seq(vs@) =~= seq![jv_of(v)]);
                }
                Some((vs, k2 + 1))
            } else {
                None
            }
        },
    }
}

fn p_members(s: &str, len: usize, i: usize) -> (r: Option<(Vec<(String, JsonValue)>, usize)>)
    requires
        len == s@.len(),
        i <= len,
    ensures
        match r {
            Some(t) => parse_members(s@, i as int) == Some((jv_of_pairs(t.0@), t.1 as int)) && i
                < t.1 <= len,
            None => parse_members(s@, i as int) is None,
        },
    decreases len - i, 1int,
{
    if !(i < len && s.get_char(i) == '"') {
        return None;
    }
    match p_string(s, len, i + 1) {
        None => None,
        Some((key, k)) => {
            let k2 = p_skip(s, len, k);
            if !(k2 < len && s.get_char(k2) == ':') {
                return None;
            }
            let k3 = p_skip(s, len, k2 + 1);
            match p_value(s, len, k3) {
                None => None,
                Some((v, k4)) => {
                    let k5 = p_skip(s, len, k4);
                    if k5 < len && s.get_char(k5) == ',' {
                        let nxt = p_skip(s, len, k5 + 1);
                        match p_members(s, len, nxt) {
                            None => None,
                            Some((mut ps, j)) => {
                                let ghost prev = ps@;
                                let ghost gk = key@;
                                let ghost gv = jv_of(v);
                                ps.insert(0, (key, v));
                                proof {
                                    assert(ps@[0].0@ == gk && jv_of(ps@[0].1) == gv);
                                    assert(ps@ =~= seq![ps@[0]] + prev);
                                    lemma_jv_of_pairs(ps@);
                                    lemma_jv_of_pairs(prev);
                                    assert(jv_of_pairs(ps@) =~= seq![(gk, gv)] + jv_of_pairs(
                                        prev,
                                    ));
                                }
                                Some((ps, j))
                            },
                        }
                    } else if k5 < len && s.get_char(k5) == '}' {
                        let mut ps: Vec<(String, JsonValue)> = Vec::new();
                        ps.push((key, v));
                        proof {
                            lemma_jv_of_pairs(ps@);
                            assert(jv_of_pairs(ps@) =~= seq![(ps@[0].0@, jv_of(ps@[0].1))]);
                        }
                        Some((ps, k5 + 1))
                    } else {
                        None
                    }
                },
            }
        },
    }
}

/// Reads a whole line of text as one document: the inverse direction of
/// the codec.  The result is pinned to the definitional grammar.
pub fn parse_json(s: &str) -> (r: Option<JsonValue>)
    ensures
        match r {
            Some(v) => parse_text(s@) == Some(v@),
            None => parse_text(s@) is None,
        },
{
    let len = s.unicode_len();
    let i = p_skip(s, len, 0);
    match p_value(s, len, i) {
        None => None,
        Some((v, k)) => {
            let k2 = p_skip(s, len, k);
            if k2 == len {
                Some(v)
            } else {
                None
            }
        },
    }
}

/// The value of a run of digit characters folded left onto `acc`.
pub open spec fn digits_acc(d: Seq<char>, acc: int) -> int
    decreases d.len(),
{
    if d.len() == 0 {
        acc
    } else {
        digits_acc(d.drop_first(), acc * 10 + digit_val(d[0]))
    }
}

pub proof fn lemma_digits_acc_mono(d: Seq<char>, acc: int)
    requires
        0 <= acc,
        forall|j: int| 0 <= j < d.len() ==> digit_val(#[trigger] d[j]) >= 0,
    ensures
        digits_acc(d, acc) >= acc,
    decreases d.len(),
{
    if d.len() > 0 {
        assert(digit_val(d[0]) >= 0);
        lemma_digits_acc_mono(d.drop_first(), acc * 10 + digit_val(d[0]));
    }
}

pub proof fn lemma_digits_acc_concat(a: Seq<char>, b: Seq<char>, acc: int)
    ensures
        digits_acc(a + b, acc) == digits_acc(b, digits_acc(a, acc)),
    decreases a.len(),
{
    if a.len() == 0 {
        assert(a + b =~= b);
    } else {
        assert((a + b).drop_first() =~= a.drop_first() + b);
        assert((a + b)[0] == a[0]);
        lemma_digits_acc_concat(a.drop_first(), b, acc * 10 + digit_val(a[0]));
    }
}

proof fn lemma_digit_inverse(d: nat)
    requires
        d < 10,
    ensures
        digit_val(digit_char(d)) == d,
{
}

proof fn lemma_dec_nat_digits(n: nat)
    ensures
        dec_nat(n).len() >= 1,
        forall|j: int| 0 <= j < dec_nat(n).len() ==> digit_val(#[trigger] dec_nat(n)[j]) >= 0,
    decreases n,
{
    lemma_digit_inverse(n % 10);
    if n < 10 {
        assert(digit_val(dec_nat(n)[0]) == n % 10);
    } else {
        lemma_dec_nat_digits(n / 10);
        assert forall|j: int| 0 <= j < dec_nat(n).len() implies digit_val(
            #[trigger] dec_nat(n)[j],
        ) >= 0 by {
            if j < dec_nat(n / 10).len() {
                assert(dec_nat(n)[j] == dec_nat(n / 10)[j]);
            } else {
                assert(dec_nat(n)[j] == digit_char(n % 10));
            }
        }
    }
}

proof fn lemma_dec_nat_val(n: nat)
    ensures
        digits_acc(dec_nat(n), 0) == n,
    decreases n,
{
    lemma_digit_inverse(n % 10);
    if n < 10 {
        let d = digit_char(n);
        assert(dec_nat(n) == seq![d]);
        assert(seq![d].drop_first() =~= Seq::<char>::empty());
        assert(digits_acc(seq![d].drop_first(), digit_val(d)) == digit_val(d));
        assert(digits_acc(seq![d], 0) == digit_val(d));
    } else {
        lemma_dec_nat_val(n / 10);
        lemma_digits_acc_concat(dec_nat(n / 10), seq![digit_char(n % 10)], 0);
        let d = digit_char(n % 10);
        let m = (n / 10) as int;
        assert(seq![d].drop_first() =~= Seq::<char>::empty());
        assert(digits_acc(seq![d].drop_first(), m * 10 + digit_val(d)) == m * 10 + digit_val(d));
        assert(digits_acc(seq![d], m) == m * 10 + digit_val(d));
        assert(m * 10 + (n % 10) == n as int);
    }
}

proof fn lemma_skip_noop(s: Seq<char>, i: int)
    requires
        0 <= i,
        i >= s.len() || !is_ws(s[i]),
    ensures
        skip_ws(s, i) == i,
{
}

/// From an equality of a subrange with `e`, the characters of `s` from
/// `i` on read as `e` does.
proof fn lemma_subrange_index(s: Seq<char>, i: int, e: Seq<char>)
    requires
        0 <= i,
        i + e.len() <= s.len(),
        s.subrange(i, i + e.len()) == e,
    ensures
        forall|j: int| 0 <= j < e.len() ==> s[i + j] == #[trigger] e[j],
{
    assert forall|j: int| 0 <= j < e.len() implies s[i + j] == #[trigger] e[j] by {
        assert(s.subrange(i, i + e.len())[j] == s[i + j]);
    }
}

/// A subrange equal to a concatenation splits into the two parts.
proof fn lemma_subrange_split(s: Seq<char>, i: int, a: Seq<char>, b: Seq<char>)
    requires
        0 <= i,
        i + a.len() + b.len() <= s.len(),
        s.subrange(i, i + a.len() + b.len()) == a + b,
    ensures
        s.subrange(i, i + a.len()) == a,
        s.subrange(i + a.len(), i + a.len() + b.len()) == b,
{
    lemma_subrange_index(s, i, a + b);
    assert forall|j: int| 0 <= j < a.len() implies s.subrange(i, i + a.len())[j] == a[j] by {
        assert((a + b)[j] == a[j]);
        assert(s[i + j] == (a + b)[j]);
    }
    assert(s.subrange(i, i + a.len()) =~= a);
    assert forall|j: int| 0 <= j < b.len() implies s.subrange(
        i + a.len(),
        i + a.len() + b.len(),
    )[j] == b[j] by {
        assert((a + b)[a.len() + j] == b[j]);
        assert(s[i + (a.len() + j)] == (a + b)[a.len() + j]);
        assert(s.subrange(i + a.len(), i + a.len() + b.len())[j] == s[i + a.len() + j]);
    }
    assert(s.subrange(i + a.len(), i + a.len() + b.len()) =~= b);
}

/// The one character of a singleton subrange.
proof fn lemma_subrange_char(s: Seq<char>, i: int, c: char)
    requires
        0 <= i,
        i + 1 <= s.len(),
        s.subrange(i, i + 1) == seq![c],
    ensures
        s[i] == c,
{
    assert(s.subrange(i, i + 1)[0] == s[i]);
}

proof fn lemma_rt_digits(s: Seq<char>, i: int, acc: int, m: int)
    requires
        0 <= i < m <= s.len(),
        forall|j: int| i <= j < m ==> digit_val(#[trigger] s[j]) >= 0,
        m == s.len() || digit_val(s[m]) < 0,
        0 <= acc,
        digits_acc(s.subrange(i, m), acc) <= 0x8000_0000_0000_0000,
    ensures
        parse_digits(s, i, acc) == Some((digits_acc(s.subrange(i, m), acc), m)),
    decreases m - i,
{
    let d = s.subrange(i, m);
    let acc2 = acc * 10 + digit_val(s[i]);
    assert(d[0] == s[i]);
    assert(d.drop_first() =~= s.subrange(i + 1, m));
    assert(digits_acc(d, acc) == digits_acc(s.subrange(i + 1, m), acc2));
    assert forall|j: int| 0 <= j < s.subrange(i + 1, m).len() implies digit_val(
        #[trigger] s.subrange(i + 1, m)[j],
    ) >= 0 by {
        assert(s.subrange(i + 1, m)[j] == s[i + 1 + j]);
    }
    lemma_digits_acc_mono(s.subrange(i + 1, m), acc2);
    assert(acc2 <= 0x8000_0000_0000_0000);
    if i + 1 < m {
        lemma_rt_digits(s, i + 1, acc2, m);
    } else {
        assert(s.subrange(i + 1, m) =~= Seq::<char>::empty());
    }
}

/// The first character of a serialized document: never whitespace, never
/// a delimiter that closes an enclosing construct.
proof fn lemma_json_first(v: JsonV)
    ensures
        json_chars(v).len() >= 1,
        json_chars(v)[0] == 'n' || json_chars(v)[0] == 't' || json_chars(v)[0] == 'f'
            || json_chars(v)[0] == '"' || json_chars(v)[0] == '-' || digit_val(json_chars(v)[0])
            >= 0 || json_chars(v)[0] == '[' || json_chars(v)[0] == '{',
{
    match v {
        JsonV::Int(i) => {
            if i < 0 {
                assert(json_chars(v)[0] == '-');
            } else {
                lemma_dec_nat_digits(i as nat);
                assert(json_chars(v)[0] == dec_nat(i as nat)[0]);
            }
        },
        _ => {},
    }
}

proof fn lemma_rt_string_from(t: Seq<char>, k: int, s: Seq<char>, i: int)
    requires
        0 <= k <= t.len(),
        0 <= i,
        i + esc_from(t, k).len() + 1 <= s.len(),
        s.subrange(i, i + esc_from(t, k).len()) == esc_from(t, k),
        s[i + esc_from(t, k).len()] == '"',
    ensures
        parse_string(s, i) == Some((t.subrange(k, t.len() as int), i + esc_from(t, k).len() + 1)),
    decreases t.len() - k,
{
    let e = esc_from(t, k);
    if k == t.len() {
        assert(e =~= Seq::<char>::empty());
        assert(s[i] == '"');
        assert(t.subrange(k, t.len() as int) =~= Seq::<char>::empty());
    } else {
        let f = esc_frag(t[k]);
        let rest = esc_from(t, k + 1);
        assert(e == f + rest);
        lemma_subrange_split(s, i, f, rest);
        lemma_subrange_index(s, i, f);
        let i2 = i + f.len();
        assert(s[i2 + rest.len()] == '"');
        lemma_rt_string_from(t, k + 1, s, i2);
        assert(parse_string(s, i2) == Some((t.subrange(k + 1, t.len() as int), i + e.len() + 1)));
        if f.len() == 2 {
            assert(s[i + 0] == f[0]);
            assert(s[i + 1] == f[1]);
            assert(s[i] == '\\');
            assert(unescape(f[1]) == Some(t[k]));
            assert(seq![t[k]] + t.subrange(k + 1, t.len() as int) =~= t.subrange(
                k,
                t.len() as int,
            ));
        } else {
            assert(f.len() == 1);
            assert(s[i + 0] == f[0]);
            assert(s[i] == t[k]);
            assert(t[k] != '"' && t[k] != '\\');
            assert(seq![s[i]] + t.subrange(k + 1, t.len() as int) =~= t.subrange(
                k,
                t.len() as int,
            ));
        }
    }
}

proof fn lemma_rt_value(v: JsonV, s: Seq<char>, i: int)
    requires
        wf_json(v),
        0 <= i,
        i + json_chars(v).len() <= s.len(),
        s.subrange(i, i + json_chars(v).len()) == json_chars(v),
        v is Int ==> (i + json_chars(v).len() == s.len() || digit_val(
            s[i + json_chars(v).len()],
        ) < 0),
    ensures
        parse_value(s, i) == Some((v, i + json_chars(v).len())),
    decreases v, 0int,
{
    let e = json_chars(v);
    let end = i + e.len();
    lemma_json_first(v);
    lemma_subrange_index(s, i, e);
    match v {
        JsonV::Null => {
            assert(s[i + 0] == e[0] && s[i + 1] == e[1] && s[i + 2] == e[2] && s[i + 3] == e[3]);
        },
        JsonV::Bool(b) => {
            if b {
                assert(s[i + 0] == e[0] && s[i + 1] == e[1] && s[i + 2] == e[2] && s[i + 3]
                    == e[3]);
            } else {
                assert(s[i + 0] == e[0] && s[i + 1] == e[1] && s[i + 2] == e[2] && s[i + 3]
                    == e[3] && s[i + 4] == e[4]);
            }
        },
        JsonV::Int(n) => {
            if n < 0 {
                let mag = (-n) as nat;
                lemma_dec_nat_digits(mag);
                lemma_dec_nat_val(mag);
                assert(e == seq!['-'] + dec_nat(mag));
                lemma_subrange_split(s, i, seq!['-'], dec_nat(mag));
                lemma_subrange_char(s, i, '-');
                lemma_subrange_index(s, i + 1, dec_nat(mag));
                assert(s.subrange(i + 1, end) == dec_nat(mag));
                assert forall|j: int| i + 1 <= j < end implies digit_val(#[trigger] s[j]) >= 0 by {
                    assert(s[(i + 1) + (j - i - 1)] == dec_nat(mag)[j - i - 1]);
                }
                assert(digits_acc(s.subrange(i + 1, end), 0) == mag);
                assert(mag <= 0x8000_0000_0000_0000);
                lemma_rt_digits(s, i + 1, 0, end);
                assert(parse_digits(s, i + 1, 0) == Some((mag as int, end)));
                assert(digit_val('-') < 0);
                assert(s[i] == '-');
            } else {
                let mag = n as nat;
                lemma_dec_nat_digits(mag);
                lemma_dec_nat_val(mag);
                assert(e == dec_nat(mag));
                assert(s.subrange(i, end) == dec_nat(mag));
                assert forall|j: int| i <= j < end implies digit_val(#[trigger] s[j]) >= 0 by {
                    assert(s[i + (j - i)] == dec_nat(mag)[j - i]);
                }
                assert(digit_val(s[i]) >= 0);
                assert(digits_acc(s.subrange(i, end), 0) == mag);
                assert(mag <= 0x7fff_ffff_ffff_ffff);
                lemma_rt_digits(s, i, 0, end);
                assert(parse_digits(s, i, 0) == Some((mag as int, end)));
            }
        },
        JsonV::Str(t) => {
            assert(e == (seq!['"'] + esc_from(t, 0)) + seq!['"']);
            lemma_subrange_split(s, i, seq!['"'] + esc_from(t, 0), seq!['"']);
            lemma_subrange_split(s, i, seq!['"'], esc_from(t, 0));
            lemma_subrange_char(s, i, '"');
            lemma_subrange_char(s, i + 1 + esc_from(t, 0).len(), '"');
            lemma_rt_string_from(t, 0, s, i + 1);
            assert(t.subrange(0, t.len() as int) =~= t);
        },
        JsonV::Arr(xs) => {
            let inner = arr_chars_from(xs, 0);
            assert(e == (seq!['['] + inner) + seq![']']);
            lemma_subrange_split(s, i, seq!['['] + inner, seq![']']);
            lemma_subrange_split(s, i, seq!['['], inner);
            lemma_subrange_char(s, i, '[');
            lemma_subrange_char(s, i + 1 + inner.len(), ']');
            if xs.len() == 0 {
                assert(inner =~= Seq::<char>::empty());
                assert(s[i + 1] == ']');
                lemma_skip_noop(s, i + 1);
                assert(JsonV::Arr(xs) == JsonV::Arr(Seq::<JsonV>::empty())) by {
                    assert(xs =~= Seq::<JsonV>::empty());
                }
            } else {
                lemma_json_first(xs[0]);
                assert(inner == json_chars(xs[0]) + arr_chars_from(xs, 1));
                lemma_subrange_index(s, i + 1, inner);
                assert(s[i + 1 + 0] == inner[0]);
                assert(inner[0] == json_chars(xs[0])[0]);
                lemma_skip_noop(s, i + 1);
                lemma_rt_elems(xs, 0, s, i + 1, end);
                assert(xs.subrange(0, xs.len() as int) =~= xs);
            }
        },
        JsonV::Obj(ps) => {
            let inner = obj_chars_from(ps, 0);
            assert(e == (seq!['{'] + inner) + seq!['}']);
            lemma_subrange_split(s, i, seq!['{'] + inner, seq!['}']);
            lemma_subrange_split(s, i, seq!['{'], inner);
            lemma_subrange_char(s, i, '{');
            lemma_subrange_char(s, i + 1 + inner.len(), '}');
            if ps.len() == 0 {
                assert(inner =~= Seq::<char>::empty());
                assert(s[i + 1] == '}');
                lemma_skip_noop(s, i + 1);
                assert(JsonV::Obj(ps) == JsonV::Obj(Seq::<(Seq<char>, JsonV)>::empty())) by {
                    assert(ps =~= Seq::<(Seq<char>, JsonV)>::empty());
                }
            } else {
                assert(inner == str_chars(ps[0].0) + seq![':'] + json_chars(ps[0].1)
                    + obj_chars_from(ps, 1));
                lemma_subrange_index(s, i + 1, inner);
                assert(s[i + 1 + 0] == inner[0]);
                assert(inner[0] == '"');
                lemma_skip_noop(s, i + 1);
                lemma_rt_members(ps, 0, s, i + 1, end);
                assert(ps.subrange(0, ps.len() as int) =~= ps);
            }
        },
    }
}

proof fn lemma_rt_elems(xs: Seq<JsonV>, k: int, s: Seq<char>, i: int, end: int)
    requires
        0 <= k < xs.len(),
        forall|j: int| 0 <= j < xs.len() ==> wf_json(#[trigger] xs[j]),
        0 <= i,
        end <= s.len(),
        end - 1 == i + json_chars(xs[k]).len() + arr_chars_from(xs, k + 1).len(),
        s.subrange(i, end - 1) == json_chars(xs[k]) + arr_chars_from(xs, k + 1),
        s[end - 1] == ']',
    ensures
        parse_elems(s, i) == Some((xs.subrange(k, xs.len() as int), end)),
    decreases xs, xs.len() - k, 0int,
{
    let e = json_chars(xs[k]);
    let rest = arr_chars_from(xs, k + 1);
    let m = i + e.len();
    lemma_json_first(xs[k]);
    lemma_subrange_split(s, i, e, rest);
    lemma_subrange_index(s, m, rest);
    if k + 1 < xs.len() {
        assert(rest[0] == ',');
        assert(s[m + 0] == rest[0]);
        assert(s[m] == ',');
    } else {
        assert(rest =~= Seq::<char>::empty());
        assert(s[m] == ']');
    }
    assert(digit_val(',') < 0 && digit_val(']') < 0);
    lemma_rt_value(xs[k], s, i);
    assert(parse_value(s, i) == Some((xs[k], m)));
    lemma_skip_noop(s, m);
    if k + 1 < xs.len() {
        let e2 = json_chars(xs[k + 1]);
        let rest2 = arr_chars_from(xs, k + 2);
        assert(rest == (seq![','] + e2) + rest2) by {
            assert(rest =~= (seq![','] + e2) + rest2);
        }
        lemma_subrange_split(s, m, seq![','] + e2, rest2);
        lemma_subrange_split(s, m, seq![','], e2);
        lemma_json_first(xs[k + 1]);
        lemma_subrange_index(s, m + 1, e2);
        assert(s[m + 1 + 0] == e2[0]);
        lemma_skip_noop(s, m + 1);
        assert(s.subrange(m + 1, end - 1) =~= e2 + rest2) by {
            lemma_subrange_index(s, m + 1, e2);
            lemma_subrange_index(s, m + 1 + e2.len(), rest2);
            assert forall|j: int| 0 <= j < e2.len() + rest2.len() implies s.subrange(
                m + 1,
                end - 1,
            )[j] == (e2 + rest2)[j] by {
                assert(s.subrange(m + 1, end - 1)[j] == s[m + 1 + j]);
                if j < e2.len() {
                    assert(s[(m + 1) + j] == e2[j]);
                } else {
                    assert(s[(m + 1 + e2.len()) + (j - e2.len())] == rest2[j - e2.len()]);
                }
            }
        }
        lemma_rt_elems(xs, k + 1, s, m + 1, end);
        assert(seq![xs[k]] + xs.subrange(k + 1, xs.len() as int) =~= xs.subrange(
            k,
            xs.len() as int,
        ));
    } else {
        assert(m == end - 1);
        assert(seq![xs[k]] =~= xs.subrange(k, xs.len() as int));
    }
}

proof fn lemma_rt_members(ps: Seq<(Seq<char>, JsonV)>, k: int, s: Seq<char>, i: int, end: int)
    requires
        0 <= k < ps.len(),
        forall|j: int| 0 <= j < ps.len() ==> wf_json(#[trigger] ps[j].1),
        0 <= i,
        end <= s.len(),
        end - 1 == i + str_chars(ps[k].0).len() + 1 + json_chars(ps[k].1).len()
            + obj_chars_from(ps, k + 1).len(),
        s.subrange(i, end - 1) == str_chars(ps[k].0) + seq![':'] + json_chars(ps[k].1)
            + obj_chars_from(ps, k + 1),
        s[end - 1] == '}',
    ensures
        parse_members(s, i) == Some((ps.subrange(k, ps.len() as int), end)),
    decreases ps, ps.len() - k, 0int,
{
    let key = ps[k].0;
    let v = ps[k].1;
    let ks = str_chars(key);
    let e = json_chars(v);
    let rest = obj_chars_from(ps, k + 1);
    assert(ks + seq![':'] + e + rest == ((ks + seq![':']) + e) + rest) by {
        assert(ks + seq![':'] + e + rest =~= ((ks + seq![':']) + e) + rest);
    }
    lemma_subrange_split(s, i, (ks + seq![':']) + e, rest);
    lemma_subrange_split(s, i, ks + seq![':'], e);
    lemma_subrange_split(s, i, ks, seq![':']);
    // the key string
    assert(ks == (seq!['"'] + esc_from(key, 0)) + seq!['"']);
    lemma_subrange_split(s, i, seq!['"'] + esc_from(key, 0), seq!['"']);
    lemma_subrange_split(s, i, seq!['"'], esc_from(key, 0));
    lemma_subrange_char(s, i, '"');
    let kq = i + ks.len();
    lemma_subrange_char(s, i + 1 + esc_from(key, 0).len(), '"');
    lemma_rt_string_from(key, 0, s, i + 1);
    assert(key.subrange(0, key.len() as int) =~= key);
    assert(parse_string(s, i + 1) == Some((key, kq)));
    // the colon
    lemma_subrange_char(s, kq, ':');
    lemma_skip_noop(s, kq);
    let m0 = kq + 1;
    let m = m0 + e.len();
    lemma_json_first(v);
    lemma_subrange_index(s, m0, e);
    assert(s[m0 + 0] == e[0]);
    lemma_skip_noop(s, m0);
    // the value, terminated by ',' or '}'
    lemma_subrange_index(s, m, rest);
    if k + 1 < ps.len() {
        assert(rest[0] == ',');
        assert(s[m + 0] == rest[0]);
        assert(s[m] == ',');
    } else {
        assert(rest =~= Seq::<char>::empty());
        assert(s[m] == '}');
    }
    assert(digit_val(',') < 0 && digit_val('}') < 0);
    lemma_rt_value(v, s, m0);
    assert(parse_value(s, m0) == Some((v, m)));
    lemma_skip_noop(s, m);
    if k + 1 < ps.len() {
        let ks2 = str_chars(ps[k + 1].0);
        let e2 = json_chars(ps[k + 1].1);
        let rest2 = obj_chars_from(ps, k + 2);
        let tail = ks2 + seq![':'] + e2 + rest2;
        assert(rest == seq![','] + tail) by {
            assert(rest =~= seq![','] + tail);
        }
        lemma_subrange_split(s, m, seq![','], tail);
        lemma_subrange_index(s, m + 1, tail);
        assert(s[m + 1 + 0] == tail[0]);
        assert(tail[0] == '"');
        lemma_skip_noop(s, m + 1);
        lemma_rt_members(ps, k + 1, s, m + 1, end);
        assert(seq![ps[k]] + ps.subrange(k + 1, ps.len() as int) =~= ps.subrange(
            k,
            ps.len() as int,
        ));
    } else {
        assert(m == end - 1);
        assert(seq![ps[k]] =~= ps.subrange(k, ps.len() as int));
    }
}

/// Serializing a well-formed document and reading the text back yields
/// the same document: the codec round-trips.
pub proof fn lemma_json_round_trip(v: JsonV)
    requires
        wf_json(v),
    ensures
        parse_text(json_chars(v)) == Some(v),
{
    let s = json_chars(v);
    lemma_json_first(v);
    lemma_skip_noop(s, 0);
    assert(s.subrange(0, s.len() as int) =~= s);
    lemma_rt_value(v, s, 0);
    lemma_skip_noop(s, s.len() as int);
}

/// Every document built at run time is well-formed.
pub proof fn lemma_jv_wf(v: JsonValue)
    ensures
        wf_json(v@),
    decreases v,
{
    match v {
        JsonValue::Arr(xs) => {
            lemma_jv_of_seq(xs@);
            assert forall|i: int| 0 <= i < jv_of_seq(xs@).len() implies wf_json(
                #[trigger] jv_of_seq(xs@)[i],
            ) by {
                assert(decreases_to!(v => xs@[i]));
                lemma_jv_wf(xs@[i]);
            }
        },
        JsonValue::Obj(ps) => {
            lemma_jv_of_pairs(ps@);
            assert forall|i: int| 0 <= i < jv_of_pairs(ps@).len() implies wf_json(
                #[trigger] jv_of_pairs(ps@)[i].1,
            ) by {
                assert(decreases_to!(v => ps@[i].1));
                lemma_jv_wf(ps@[i].1);
            }
        },
        _ => {},
    }
}

/// The value under `key` among the members from index `i` on: the first
/// occurrence wins.
pub open spec fn lookup_from(ps: Seq<(Seq<char>, JsonV)>, key: Seq<char>, i: int) -> Option<JsonV>
    decreases ps.len() - i,
{
    if i < 0 || i >= ps.len() {
        None
    } else if ps[i].0 == key {
        Some(ps[i].1)
    } else {
        lookup_from(ps, key, i + 1)
    }
}

/// The value under `key` in an object's member list.
pub open spec fn lookup(ps: Seq<(Seq<char>, JsonV)>, key: Seq<char>) -> Option<JsonV> {
    lookup_from(ps, key, 0)
}

/// Looks a member up in an object's member list, first occurrence first.
pub fn obj_get<'a>(ps: &'a Vec<(String, JsonValue)>, key: &str) -> (r: Option<&'a JsonValue>)
    ensures
        match r {
            Some(v) => lookup(jv_of_pairs(ps@), key@) == Some(v@),
            None => lookup(jv_of_pairs(ps@), key@) is None,
        },
{
    proof {
        lemma_jv_of_pairs(ps@);
    }
    let ghost g = jv_of_pairs(ps@);
    let n = ps.len();
    let mut i: usize = 0;
    while i < n
        invariant
            i <= n,
            n == ps@.len(),
            g == jv_of_pairs(ps@),
            g.len() == n,
            forall|j: int| 0 <= j < n ==> #[trigger] g[j] == (ps@[j].0@, jv_of(ps@[j].1)),
            lookup(g, key@) == lookup_from(g, key@, i as int),
        decreases n - i,
    {
        if crate::strutil::string_eq(&ps[i].0, key) {
            return Some(&ps[i].1);
        }
        i = i + 1;
    }
    None
}

impl JsonValue {
    /// A deep copy: the same document.
    pub fn duplicate(&self) -> (r: JsonValue)
        ensures
            r@ == self@,
        decreases *self,
    {
        match self {
            JsonValue::Null => JsonValue::Null,
            JsonValue::Bool(b) => JsonValue::Bool(*b),
            JsonValue::Int(i) => JsonValue::Int(*i),
            JsonValue::Str(s) => JsonValue::Str(s.clone()),
            JsonValue::Arr(xs) => {
                let n = xs.len();
                let mut out: Vec<JsonValue> = Vec::new();
                let mut i: usize = 0;
                while i < n
                    invariant
                        i <= n,
                        n == xs@.len(),
                        self == JsonValue::Arr(*xs),
                        out@.len() == i,
                        forall|j: int| 0 <= j < i ==> jv_of(#[trigger] out@[j]) == jv_of(xs@[j]),
                    decreases n - i,
                {
                    proof {
                        assert((*self)->Arr_0 == *xs);
                        assert(decreases_to!(*self => (*self)->Arr_0));
                        assert(decreases_to!(*xs => xs@));
                        assert(decreases_to!(xs@ => xs@[i as int]));
                        assert(decreases_to!(*self => xs@[i as int]));
                    }
                    let d = xs[i].duplicate();
                    out.push(d);
                    i = i + 1;
                }
                proof {
                    lemma_jv_of_seq(out@);
                    lemma_jv_of_seq(xs@);
                    assert forall|j: int| 0 <= j < n implies jv_of_seq(out@)[j] == jv_of_seq(
                        xs@,
                    )[j] by {
                        assert(jv_of(out@[j]) == jv_of(xs@[j]));
                    }
                    assert(jv_of_seq(out@) =~= jv_of_seq(xs@));
                }
                JsonValue::Arr(out)
            },
            JsonValue::Obj(ps) => {
                let n = ps.len();
                let mut out: Vec<(String, JsonValue)> = Vec::new();
                let mut i: usize = 0;
                while i < n
                    invariant
                        i <= n,
                        n == ps@.len(),
                        self == JsonValue::Obj(*ps),
                        out@.len() == i,
                        forall|j: int| 0 <= j < i ==> ((#[trigger] out@[j]).0@ == ps@[j].0@
                            && jv_of(out@[j].1) == jv_of(ps@[j].1)),
                    decreases n - i,
                {
                    proof {
                        assert((*self)->Obj_0 == *ps);
                        assert(decreases_to!(*self => (*self)->Obj_0));
                        assert(decreases_to!(*ps => ps@));
                        assert(decreases_to!(ps@ => ps@[i as int]));
                        assert(decreases_to!(ps@[i as int] => ps@[i as int].1));
                        assert(decreases_to!(*self => ps@[i as int].1));
                    }
                    let d = ps[i].1.duplicate();
                    let k = ps[i].0.clone();
                    out.push((k, d));
                    i = i + 1;
                }
                proof {
                    lemma_jv_of_pairs(out@);
                    lemma_jv_of_pairs(ps@);
                    assert forall|j: int| 0 <= j < n implies jv_of_pairs(out@)[j] == jv_of_pairs(
                        ps@,
                    )[j] by {
                        assert((out@[j]).0@ == ps@[j].0@ && jv_of(out@[j].1) == jv_of(ps@[j].1));
                    }
                    assert(jv_of_pairs(out@) =~= jv_of_pairs(ps@));
                }
                JsonValue::Obj(out)
            },
        }
    }
}

/// The serialized text of a document as an owned string.
pub fn to_text(v: &JsonValue) -> (r: String)
    ensures
        r@ == json_chars(v@),
{
    let mut out = String::new();
    write_json(v, &mut out);
    proof {
        assert(out@ =~= json_chars(v@));
    }
    out
}

} // verus!
