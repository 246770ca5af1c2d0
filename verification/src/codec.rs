//! The JSON document format of the echoed payload: an object with exactly
//! the members `title` and `description`, in either order, each a string.
//! Strings accept the escapes `\"` and `\\`; any other byte stands for
//! itself. Whitespace (space, tab, carriage return, line feed) may appear
//! between tokens. The encoder writes the canonical form: no whitespace,
//! `title` first, and only the two escapes.

use vstd::prelude::*;

use crate::bytes::{bytes_eq, key_description, key_description_vec, key_title, key_title_vec};
use crate::todo::{Todo, TodoModel};

verus! {

pub const QUOTE: u8 = 34;

pub const BACKSLASH: u8 = 92;

pub const LBRACE: u8 = 123;

pub const RBRACE: u8 = 125;

pub const COLON: u8 = 58;

pub const COMMA: u8 = 44;

/// JSON whitespace.
pub open spec fn is_ws(b: u8) -> bool {
    b == 32 || b == 9 || b == 10 || b == 13
}

/// The first position at or after `i` that does not hold whitespace (the
/// length of `s` when only whitespace is left).
pub open spec fn skip_ws(s: Seq<u8>, i: int) -> int
    decreases s.len() - i,
{
    if 0 <= i < s.len() && is_ws(s[i]) {
        skip_ws(s, i + 1)
    } else {
        i
    }
}

/// Prefixes the parsed string of `r` with `pre`, leaving a failure alone.
pub open spec fn with_prefix(pre: Seq<u8>, r: Option<(Seq<u8>, int)>) -> Option<(Seq<u8>, int)> {
    match r {
        Some(p) => Some((pre + p.0, p.1)),
        None => None,
    }
}

/// Parses the remainder of a string literal, after its opening quote: the
/// decoded bytes and the position after the closing quote. `\"` and `\\`
/// decode to one byte; every other byte up to the closing quote stands for
/// itself; a lone backslash or a missing closing quote fails.
pub open spec fn parse_str_body(s: Seq<u8>, i: int) -> Option<(Seq<u8>, int)>
    decreases s.len() - i,
{
    if !(0 <= i < s.len()) {
        None
    } else if s[i] == QUOTE {
        Some((Seq::empty(), i + 1))
    } else if s[i] == BACKSLASH {
        if i + 1 < s.len() && (s[i + 1] == QUOTE || s[i + 1] == BACKSLASH) {
            with_prefix(seq![s[i + 1]], parse_str_body(s, i + 2))
        } else {
            None
        }
    } else {
        with_prefix(seq![s[i]], parse_str_body(s, i + 1))
    }
}

/// Parses a string literal at `i`: an opening quote, then its body.
pub open spec fn parse_string(s: Seq<u8>, i: int) -> Option<(Seq<u8>, int)> {
    if 0 <= i < s.len() && s[i] == QUOTE {
        parse_str_body(s, i + 1)
    } else {
        None
    }
}

/// The payload the two members stand for: `title` then `description`, or
/// the same pair the other way round; any other pair of keys fails.
pub open spec fn pair_to_todo(k1: Seq<u8>, v1: Seq<u8>, k2: Seq<u8>, v2: Seq<u8>) -> Option<
    TodoModel,
> {
    if k1 == key_title() && k2 == key_description() {
        Some(TodoModel { title: v1, description: v2 })
    } else if k1 == key_description() && k2 == key_title() {
        Some(TodoModel { title: v2, description: v1 })
    } else {
        None
    }
}

/// What decoding a request body yields: the `Todo` of a well-formed
/// two-member object, `None` for anything else (including trailing bytes).
pub open spec fn spec_parse_todo(s: Seq<u8>) -> Option<TodoModel> {
    let i0 = skip_ws(s, 0);
    if !(i0 < s.len() && s[i0] == LBRACE) {
        None
    } else {
        match parse_string(s, skip_ws(s, i0 + 1)) {
            None => None,
            Some((k1, i2)) => {
                let i3 = skip_ws(s, i2);
                if !(i3 < s.len() && s[i3] == COLON) {
                    None
                } else {
                    match parse_string(s, skip_ws(s, i3 + 1)) {
                        None => None,
                        Some((v1, i5)) => {
                            let i6 = skip_ws(s, i5);
                            if !(i6 < s.len() && s[i6] == COMMA) {
                                None
                            } else {
                                match parse_string(s, skip_ws(s, i6 + 1)) {
                                    None => None,
                                    Some((k2, i8)) => {
                                        let i9 = skip_ws(s, i8);
                                        if !(i9 < s.len() && s[i9] == COLON) {
                                            None
                                        } else {
                                            match parse_string(s, skip_ws(s, i9 + 1)) {
                                                None => None,
                                                Some((v2, i11)) => {
                                                    let i12 = skip_ws(s, i11);
                                                    if !(i12 < s.len() && s[i12] == RBRACE) {
                                                        None
                                                    } else if skip_ws(s, i12 + 1) != s.len() {
                                                        None
                                                    } else {
                                                        pair_to_todo(k1, v1, k2, v2)
                                                    }
                                                },
                                            }
                                        }
                                    },
                                }
                            }
                        },
                    }
                }
            },
        }
    }
}

/// The escaped form of a byte string: `"` and `\` get a backslash put in
/// front, every other byte stands as it is.
pub open spec fn esc(v: Seq<u8>) -> Seq<u8>
    decreases v.len(),
{
    if v.len() == 0 {
        Seq::empty()
    } else {
        let head = if v[0] == QUOTE || v[0] == BACKSLASH {
            seq![BACKSLASH, v[0]]
        } else {
            seq![v[0]]
        };
        head + esc(v.drop_first())
    }
}

/// A string literal: the escaped bytes between quotes.
pub open spec fn quoted(v: Seq<u8>) -> Seq<u8> {
    seq![QUOTE] + esc(v) + seq![QUOTE]
}

/// The canonical document of a two-member object: no whitespace between
/// tokens, the members in the given order.
pub open spec fn spec_object(k1: Seq<u8>, v1: Seq<u8>, k2: Seq<u8>, v2: Seq<u8>) -> Seq<u8> {
    seq![LBRACE] + quoted(k1) + seq![COLON] + quoted(v1) + seq![COMMA] + quoted(k2) + seq![COLON]
        + quoted(v2) + seq![RBRACE]
}

/// The canonical document of a payload: no whitespace, `title` first.
pub open spec fn spec_encode_todo(t: TodoModel) -> Seq<u8> {
    spec_object(key_title(), t.title, key_description(), t.description)
}

/// Escaping distributes over concatenation.
proof fn lemma_esc_append(a: Seq<u8>, b: Seq<u8>)
    ensures
        esc(a + b) == esc(a) + esc(b),
    decreases a.len(),
{
    if a.len() == 0 {
        assert(a + b =~= b);
        assert(esc(a) + esc(b) =~= esc(b));
    } else {
        assert((a + b).drop_first() =~= a.drop_first() + b);
        lemma_esc_append(a.drop_first(), b);
        assert((a + b)[0] == a[0]);
        assert(esc(a + b) =~= esc(a) + esc(b));
    }
}

/// Appends the escaped form of `v` to `out`.
fn push_escaped(out: &mut Vec<u8>, v: &Vec<u8>)
    ensures
        final(out)@ == old(out)@ + esc(v@),
{
    let ghost base = out@;
    let mut i: usize = 0;
    assert(v@.take(0) =~= Seq::<u8>::empty());
    assert(base + esc(v@.take(0)) =~= base);
    while i < v.len()
        invariant
            0 <= i <= v@.len(),
            out@ == base + esc(v@.take(i as int)),
        decreases v@.len() - i,
    {
        let b = v[i];
        proof {
            assert(v@.take(i as int + 1) =~= v@.take(i as int) + seq![v@[i as int]]);
            lemma_esc_append(v@.take(i as int), seq![v@[i as int]]);
            assert(seq![v@[i as int]].drop_first() =~= Seq::<u8>::empty());
            assert(esc(Seq::<u8>::empty()) =~= Seq::<u8>::empty());
            if b == QUOTE || b == BACKSLASH {
                assert(esc(seq![v@[i as int]]) =~= seq![BACKSLASH, v@[i as int]]);
            } else {
                assert(esc(seq![v@[i as int]]) =~= seq![v@[i as int]]);
            }
        }
        if b == QUOTE || b == BACKSLASH {
            out.push(BACKSLASH);
            out.push(b);
            assert(out@ =~= base + esc(v@.take(i as int + 1)));
        } else {
            out.push(b);
            assert(out@ =~= base + esc(v@.take(i as int + 1)));
        }
        i += 1;
    }
    assert(v@.take(v@.len() as int) =~= v@);
}

/// Appends the string literal of `v` to `out`.
fn push_quoted(out: &mut Vec<u8>, v: &Vec<u8>)
    ensures
        final(out)@ == old(out)@ + quoted(v@),
{
    out.push(QUOTE);
    push_escaped(out, v);
    out.push(QUOTE);
    assert(out@ =~= old(out)@ + quoted(v@));
}

/// Encodes a payload as its canonical document.
pub fn encode_todo(t: &Todo) -> (r: Vec<u8>)
    ensures
        r@ == spec_encode_todo(t@),
{
    let mut out: Vec<u8> = Vec::new();
    out.push(LBRACE);
    let title_key = key_title_vec();
    push_quoted(&mut out, &title_key);
    out.push(COLON);
    push_quoted(&mut out, &t.title);
    out.push(COMMA);
    let description_key = key_description_vec();
    push_quoted(&mut out, &description_key);
    out.push(COLON);
    push_quoted(&mut out, &t.description);
    out.push(RBRACE);
    assert(out@ =~= spec_encode_todo(t@));
    out
}

/// Moves past whitespace, starting at `i`.
fn skip_ws_exec(s: &Vec<u8>, i: usize) -> (r: usize)
    requires
        i <= s@.len(),
    ensures
        r == skip_ws(s@, i as int),
        i <= r <= s@.len(),
{
    let mut j = i;
    while j < s.len() && (s[j] == 32 || s[j] == 9 || s[j] == 10 || s[j] == 13)
        invariant
            i <= j <= s@.len(),
            skip_ws(s@, i as int) == skip_ws(s@, j as int),
        decreases s@.len() - j,
    {
        j += 1;
    }
    j
}

/// Parses a string literal at `i`, returning the decoded bytes and the
/// position after the closing quote.
fn parse_string_exec(s: &Vec<u8>, i: usize) -> (r: Option<(Vec<u8>, usize)>)
    requires
        i <= s@.len(),
    ensures
        match r {
            Some(p) => parse_string(s@, i as int) == Some((p.0@, p.1 as int)) && i < p.1
                <= s@.len(),
            None => parse_string(s@, i as int) is None,
        },
{
    if i >= s.len() || s[i] != QUOTE {
        return None;
    }
    let mut acc: Vec<u8> = Vec::new();
    let mut j = i + 1;
    assert(acc@ + parse_str_body(s@, j as int)->Some_0.0 =~= parse_str_body(
        s@,
        j as int,
    )->Some_0.0);
    while j < s.len()
        invariant
            i as int + 1 <= j <= s@.len(),
            i < s@.len(),
            s@[i as int] == QUOTE,
            parse_str_body(s@, i as int + 1) == with_prefix(acc@, parse_str_body(s@, j as int)),
        decreases s@.len() - j,
    {
        let b = s[j];
        if b == QUOTE {
            assert(parse_str_body(s@, j as int) == Some((Seq::<u8>::empty(), j as int + 1)));
            assert(acc@ + Seq::<u8>::empty() =~= acc@);
            return Some((acc, j + 1));
        } else if b == BACKSLASH {
            if j + 1 < s.len() && (s[j + 1] == QUOTE || s[j + 1] == BACKSLASH) {
                let c = s[j + 1];
                proof {
                    if parse_str_body(s@, j as int + 2) is Some {
                        let inner = parse_str_body(s@, j as int + 2)->Some_0;
                        assert(acc@ + (seq![c] + inner.0) =~= (acc@ + seq![c]) + inner.0);
                    }
                }
                acc.push(c);
                j += 2;
            } else {
                assert(parse_str_body(s@, j as int) is None);
                return None;
            }
        } else {
            proof {
                if parse_str_body(s@, j as int + 1) is Some {
                    let inner = parse_str_body(s@, j as int + 1)->Some_0;
                    assert(acc@ + (seq![b] + inner.0) =~= (acc@ + seq![b]) + inner.0);
                }
            }
            acc.push(b);
            j += 1;
        }
    }
    assert(parse_str_body(s@, j as int) is None);
    None
}

/// A string body that starts with the escaped form of `v` followed by a
/// closing quote parses to exactly `v`, ending after that quote.
proof fn lemma_parse_str_body_of_esc(s: Seq<u8>, i: int, v: Seq<u8>)
    requires
        0 <= i,
        i + esc(v).len() + 1 <= s.len(),
        s.subrange(i, i + esc(v).len() + 1) == esc(v) + seq![QUOTE],
    ensures
        parse_str_body(s, i) == Some((v, i + esc(v).len() + 1)),
    decreases v.len(),
{
    let e = esc(v);
    let sub = s.subrange(i, i + e.len() + 1);
    if v.len() == 0 {
        assert(e =~= Seq::<u8>::empty());
        assert(s[i] == sub[0]);
        assert(s[i] == QUOTE);
    } else {
        let v1 = v.drop_first();
        let e1 = esc(v1);
        if v[0] == QUOTE || v[0] == BACKSLASH {
            assert(e == seq![BACKSLASH, v[0]] + e1);
            assert((e + seq![QUOTE]) =~= seq![BACKSLASH, v[0]] + (e1 + seq![QUOTE]));
            assert(s[i] == sub[0]);
            assert(s[i] == BACKSLASH);
            assert(s[i + 1] == sub[1]);
            assert(s[i + 1] == v[0]);
            assert(s.subrange(i + 2, i + 2 + e1.len() + 1) =~= e1 + seq![QUOTE]) by {
                assert(forall|j: int|
                    0 <= j < e1.len() + 1 ==> #[trigger] s.subrange(
                        i + 2,
                        i + 2 + e1.len() + 1,
                    )[j] == sub[j + 2]);
            }
            lemma_parse_str_body_of_esc(s, i + 2, v1);
            assert(seq![v[0]] + v1 =~= v);
            assert(parse_str_body(s, i) == Some((v, i + e.len() + 1)));
        } else {
            assert(e == seq![v[0]] + e1);
            assert((e + seq![QUOTE]) =~= seq![v[0]] + (e1 + seq![QUOTE]));
            assert(s[i] == sub[0]);
            assert(s[i] == v[0]);
            assert(s.subrange(i + 1, i + 1 + e1.len() + 1) =~= e1 + seq![QUOTE]) by {
                assert(forall|j: int|
                    0 <= j < e1.len() + 1 ==> #[trigger] s.subrange(
                        i + 1,
                        i + 1 + e1.len() + 1,
                    )[j] == sub[j + 1]);
            }
            lemma_parse_str_body_of_esc(s, i + 1, v1);
            assert(seq![v[0]] + v1 =~= v);
            assert(parse_str_body(s, i) == Some((v, i + e.len() + 1)));
        }
    }
}

/// A string literal that stands at `i` as `quoted(v)` parses to exactly
/// `v`, ending right after it.
proof fn lemma_parse_string_of_quoted(s: Seq<u8>, i: int, v: Seq<u8>)
    requires
        0 <= i,
        i + quoted(v).len() <= s.len(),
        s.subrange(i, i + quoted(v).len()) == quoted(v),
    ensures
        parse_string(s, i) == Some((v, i + quoted(v).len())),
{
    let q = quoted(v);
    let e = esc(v);
    let sub = s.subrange(i, i + q.len());
    assert(q =~= seq![QUOTE] + (e + seq![QUOTE]));
    assert(s[i] == sub[0]);
    assert(s[i] == QUOTE);
    assert(s.subrange(i + 1, i + 1 + e.len() + 1) =~= e + seq![QUOTE]) by {
        assert(forall|j: int|
            0 <= j < e.len() + 1 ==> #[trigger] s.subrange(i + 1, i + 1 + e.len() + 1)[j] == sub[j
                + 1]);
    }
    lemma_parse_str_body_of_esc(s, i + 1, v);
}

/// Parsing the canonical document of two members yields exactly what the
/// member pair stands for.
proof fn lemma_parse_object(k1: Seq<u8>, v1: Seq<u8>, k2: Seq<u8>, v2: Seq<u8>)
    ensures
        spec_parse_todo(spec_object(k1, v1, k2, v2)) == pair_to_todo(k1, v1, k2, v2),
{
    let s = spec_object(k1, v1, k2, v2);
    let q1 = quoted(k1);
    let a = quoted(v1);
    let q2 = quoted(k2);
    let b = quoted(v2);
    let i2 = 1 + q1.len() as int;
    let i5 = i2 + 1 + a.len() as int;
    let i8 = i5 + 1 + q2.len() as int;
    let i11 = i8 + 1 + b.len() as int;
    assert(s.len() == i11 + 1);
    assert(s[0] == LBRACE);
    assert(q1[0] == QUOTE);
    assert(s[1] == QUOTE);
    assert(s.subrange(1, 1 + q1.len() as int) =~= q1);
    lemma_parse_string_of_quoted(s, 1, k1);
    assert(s[i2] == COLON);
    assert(a[0] == QUOTE);
    assert(s[i2 + 1] == QUOTE);
    assert(s.subrange(i2 + 1, i2 + 1 + a.len() as int) =~= a);
    lemma_parse_string_of_quoted(s, i2 + 1, v1);
    assert(s[i5] == COMMA);
    assert(q2[0] == QUOTE);
    assert(s[i5 + 1] == QUOTE);
    assert(s.subrange(i5 + 1, i5 + 1 + q2.len() as int) =~= q2);
    lemma_parse_string_of_quoted(s, i5 + 1, k2);
    assert(s[i8] == COLON);
    assert(b[0] == QUOTE);
    assert(s[i8 + 1] == QUOTE);
    assert(s.subrange(i8 + 1, i8 + 1 + b.len() as int) =~= b);
    lemma_parse_string_of_quoted(s, i8 + 1, v2);
    assert(s[i11] == RBRACE);
    assert(skip_ws(s, 0) == 0);
    assert(skip_ws(s, 1) == 1);
    assert(skip_ws(s, i2) == i2);
    assert(skip_ws(s, i2 + 1) == i2 + 1);
    assert(skip_ws(s, i5) == i5);
    assert(skip_ws(s, i5 + 1) == i5 + 1);
    assert(skip_ws(s, i8) == i8);
    assert(skip_ws(s, i8 + 1) == i8 + 1);
    assert(skip_ws(s, i11) == i11);
    assert(skip_ws(s, i11 + 1) == s.len());
}

/// The round-trip law of the codec: decoding a canonical document gives
/// back exactly the payload it was encoded from.
pub proof fn lemma_encode_parse_round_trip(t: TodoModel)
    ensures
        spec_parse_todo(spec_encode_todo(t)) == Some(t),
{
    lemma_parse_object(key_title(), t.title, key_description(), t.description);
}

/// The other direction of the round trip: a canonical document decodes,
/// and re-encoding what it decodes to gives back the very same bytes.
pub proof fn lemma_parse_encode_round_trip(s: Seq<u8>, t: TodoModel)
    requires
        s == spec_encode_todo(t),
    ensures
        spec_parse_todo(s) == Some(t),
        spec_encode_todo(spec_parse_todo(s)->Some_0) == s,
{
    lemma_encode_parse_round_trip(t);
}

/// Decodes a request body as a payload; `None` on anything but a
/// well-formed two-member object.
pub fn parse_todo(s: &Vec<u8>) -> (r: Option<Todo>)
    ensures
        match r {
            Some(t) => spec_parse_todo(s@) == Some(t@),
            None => spec_parse_todo(s@) is None,
        },
{
    let title_key = key_title_vec();
    let description_key = key_description_vec();
    let i0 = skip_ws_exec(s, 0);
    if !(i0 < s.len() && s[i0] == LBRACE) {
        return None;
    }
    let i1 = skip_ws_exec(s, i0 + 1);
    let (k1, i2) = match parse_string_exec(s, i1) {
        Some(p) => p,
        None => {
            return None;
        },
    };
    let i3 = skip_ws_exec(s, i2);
    if !(i3 < s.len() && s[i3] == COLON) {
        return None;
    }
    let i4 = skip_ws_exec(s, i3 + 1);
    let (v1, i5) = match parse_string_exec(s, i4) {
        Some(p) => p,
        None => {
            return None;
        },
    };
    let i6 = skip_ws_exec(s, i5);
    if !(i6 < s.len() && s[i6] == COMMA) {
        return None;
    }
    let i7 = skip_ws_exec(s, i6 + 1);
    let (k2, i8) = match parse_string_exec(s, i7) {
        Some(p) => p,
        None => {
            return None;
        },
    };
    let i9 = skip_ws_exec(s, i8);
    if !(i9 < s.len() && s[i9] == COLON) {
        return None;
    }
    let i10 = skip_ws_exec(s, i9 + 1);
    let (v2, i11) = match parse_string_exec(s, i10) {
        Some(p) => p,
        None => {
            return None;
        },
    };
    let i12 = skip_ws_exec(s, i11);
    if !(i12 < s.len() && s[i12] == RBRACE) {
        return None;
    }
    if skip_ws_exec(s, i12 + 1) != s.len() {
        return None;
    }
    if bytes_eq(&k1, &title_key) && bytes_eq(&k2, &description_key) {
        Some(Todo { title: v1, description: v2 })
    } else if bytes_eq(&k1, &description_key) && bytes_eq(&k2, &title_key) {
        Some(Todo { title: v2, description: v1 })
    } else {
        None
    }
}

} // verus!
