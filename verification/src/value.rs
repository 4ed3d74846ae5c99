//! The structured payload value and its deterministic textual rendering.
//!
//! Command payloads carry a loosely-typed structured value (the `options` of
//! the data-processing command). The library owns a tagged value type for it,
//! so handlers can match on presence and shape, and renders it to text with a
//! fixed, deterministic syntax: `null`, `true`/`false`, decimal integers,
//! quoted strings, `[..]` arrays and `{..}` objects, members in stored order
//! with no whitespace.

use vstd::prelude::*;
use vstd::string::StrSliceExecFns;
use vstd::string::StringExecFns;

verus! {

/// A structured payload value: a tagged tree of scalars, arrays and objects.
///
/// Object members keep their stored order, and two objects that differ only
/// in member order render differently; a caller that wants a canonical
/// rendering stores the members in a canonical order.
pub enum JsonValue {
    Null,
    Bool(bool),
    Int(i64),
    Str(String),
    Arr(Vec<JsonValue>),
    Obj(Vec<Member>),
}

/// One object member: a key and its value.
pub struct Member {
    pub key: String,
    pub value: JsonValue,
}

/// The decimal digits of `n`, most significant first, no sign and no
/// leading zero (a single `0` for zero).
pub open spec fn dec_digits_spec(n: nat) -> Seq<char>
    decreases n,
{
    if n < 10 {
        seq![digit_char_spec(n)]
    } else {
        dec_digits_spec(n / 10).push(digit_char_spec(n % 10))
    }
}

/// The character for one decimal digit.
pub open spec fn digit_char_spec(d: nat) -> char {
    if d == 0 {
        '0'
    } else if d == 1 {
        '1'
    } else if d == 2 {
        '2'
    } else if d == 3 {
        '3'
    } else if d == 4 {
        '4'
    } else if d == 5 {
        '5'
    } else if d == 6 {
        '6'
    } else if d == 7 {
        '7'
    } else if d == 8 {
        '8'
    } else {
        '9'
    }
}

/// The rendering of a signed integer: a minus sign for negative values,
/// then the decimal digits of the magnitude.
pub open spec fn int_chars_spec(x: int) -> Seq<char> {
    if x >= 0 {
        dec_digits_spec(x as nat)
    } else {
        seq!['-'] + dec_digits_spec((-x) as nat)
    }
}

/// The rendering of string contents: each `"` or `\` is preceded by a
/// backslash, every other character stands as itself.
pub open spec fn escaped_spec(s: Seq<char>) -> Seq<char>
    decreases s.len(),
{
    if s.len() == 0 {
        Seq::<char>::empty()
    } else {
        escaped_char_spec(s[0]) + escaped_spec(s.subrange(1, s.len() as int))
    }
}

/// The rendering of one string character.
pub open spec fn escaped_char_spec(c: char) -> Seq<char> {
    if c == '"' || c == '\\' {
        seq!['\\', c]
    } else {
        seq![c]
    }
}

/// The rendering of a whole value.
pub open spec fn render_spec(v: JsonValue) -> Seq<char>
    decreases v,
{
    match v {
        JsonValue::Null => seq!['n', 'u', 'l', 'l'],
        JsonValue::Bool(b) => if b {
            seq!['t', 'r', 'u', 'e']
        } else {
            seq!['f', 'a', 'l', 's', 'e']
        },
        JsonValue::Int(x) => int_chars_spec(x as int),
        JsonValue::Str(s) => seq!['"'] + escaped_spec(s@) + seq!['"'],
        JsonValue::Arr(vs) => seq!['['] + render_elems_spec(vs@) + seq![']'],
        JsonValue::Obj(ps) => seq!['{'] + render_members_spec(ps@) + seq!['}'],
    }
}

/// The rendering of array elements, comma-separated.
pub open spec fn render_elems_spec(vs: Seq<JsonValue>) -> Seq<char>
    decreases vs,
{
    if vs.len() == 0 {
        Seq::<char>::empty()
    } else if vs.len() == 1 {
        render_spec(vs[0])
    } else {
        render_spec(vs[0]) + seq![','] + render_elems_spec(vs.subrange(1, vs.len() as int))
    }
}

/// The rendering of object members, comma-separated.
pub open spec fn render_members_spec(ps: Seq<Member>) -> Seq<char>
    decreases ps,
{
    if ps.len() == 0 {
        Seq::<char>::empty()
    } else if ps.len() == 1 {
        render_member_spec(ps[0])
    } else {
        render_member_spec(ps[0]) + seq![','] + render_members_spec(ps.subrange(1, ps.len() as int))
    }
}

/// The rendering of one object member: quoted key, colon, value.
pub open spec fn render_member_spec(p: Member) -> Seq<char>
    decreases p,
{
    seq!['"'] + escaped_spec(p.key@) + seq!['"', ':'] + render_spec(p.value)
}

/// Relies on String::push: appends the given character to the end of the
/// string.
#[verifier::external_body]
fn push_char(s: &mut String, c: char)
    ensures
        final(s)@ == old(s)@.push(c),
{
    s.push(c);
}

/// The character for one decimal digit.
fn digit_char(d: u64) -> (c: char)
    requires
        d < 10,
    ensures
        c == digit_char_spec(d as nat),
{
    if d == 0 {
        '0'
    } else if d == 1 {
        '1'
    } else if d == 2 {
        '2'
    } else if d == 3 {
        '3'
    } else if d == 4 {
        '4'
    } else if d == 5 {
        '5'
    } else if d == 6 {
        '6'
    } else if d == 7 {
        '7'
    } else if d == 8 {
        '8'
    } else {
        '9'
    }
}

/// Append the decimal digits of `n` to `out`.
fn push_digits(n: u64, out: &mut String)
    ensures
        final(out)@ == old(out)@ + dec_digits_spec(n as nat),
    decreases n,
{
    if n < 10 {
        let c = digit_char(n);
        push_char(out, c);
        proof {
            assert(out@ =~= old(out)@ + dec_digits_spec(n as nat));
        }
    } else {
        push_digits(n / 10, out);
        let c = digit_char(n % 10);
        push_char(out, c);
        proof {
            assert(out@ =~= old(out)@ + dec_digits_spec(n as nat));
        }
    }
}

/// Append the rendering of a signed integer to `out`.
fn push_int(x: i64, out: &mut String)
    ensures
        final(out)@ == old(out)@ + int_chars_spec(x as int),
{
    if x >= 0 {
        push_digits(x as u64, out);
    } else {
        push_char(out, '-');
        let magnitude: u64 = ((-(x + 1)) as u64) + 1;
        proof {
            assert(magnitude as int == -(x as int));
        }
        push_digits(magnitude, out);
        proof {
            assert(out@ =~= old(out)@ + int_chars_spec(x as int));
        }
    }
}

/// Append the escaped contents of `s` to `out`.
fn push_escaped(s: &str, out: &mut String)
    ensures
        final(out)@ == old(out)@ + escaped_spec(s@),
{
    let len = s.unicode_len();
    let mut i: usize = 0;
    while i < len
        invariant
            len == s@.len(),
            i <= len,
            out@ == old(out)@ + escaped_spec(s@.subrange(0, i as int)),
        decreases len - i,
    {
        let c = s.get_char(i);
        if c == '"' || c == '\\' {
            push_char(out, '\\');
        }
        push_char(out, c);
        proof {
            lemma_escaped_snoc(s@.subrange(0, i + 1));
            assert(s@.subrange(0, i + 1).drop_last() =~= s@.subrange(0, i as int));
            assert(s@.subrange(0, i + 1).last() == s@[i as int]);
            assert(out@ =~= old(out)@ + escaped_spec(s@.subrange(0, i + 1)));
        }
        i = i + 1;
    }
    proof {
        assert(s@.subrange(0, len as int) =~= s@);
    }
}

/// Escaping a string renders its first part, then its last character.
proof fn lemma_escaped_snoc(s: Seq<char>)
    requires
        s.len() >= 1,
    ensures
        escaped_spec(s) == escaped_spec(s.drop_last()) + escaped_char_spec(s.last()),
    decreases s.len(),
{
    if s.len() == 1 {
        let empty = Seq::<char>::empty();
        assert(s.drop_last() =~= empty);
        assert(s.subrange(1, s.len() as int) =~= empty);
        assert(escaped_spec(empty) == empty);
        assert(escaped_spec(s) == escaped_char_spec(s[0]) + empty);
        assert(escaped_spec(s) =~= escaped_spec(s.drop_last()) + escaped_char_spec(s.last()));
    } else {
        let tail = s.subrange(1, s.len() as int);
        lemma_escaped_snoc(tail);
        assert(tail.drop_last() =~= s.drop_last().subrange(1, s.drop_last().len() as int));
        assert(tail.last() == s.last());
        let head = escaped_char_spec(s[0]);
        let mid = escaped_spec(tail.drop_last());
        let lastc = escaped_char_spec(s.last());
        assert(escaped_spec(tail) == mid + lastc);
        assert(escaped_spec(s) == head + (mid + lastc));
        assert(s.drop_last().len() >= 1);
        assert(s.drop_last()[0] == s[0]);
        assert(escaped_spec(s.drop_last()) == head + mid);
        assert(head + (mid + lastc) =~= (head + mid) + lastc);
        assert(escaped_spec(s) == escaped_spec(s.drop_last()) + lastc);
    }
}

/// Rendering the first `k + 1` elements extends rendering the first `k`.
proof fn lemma_render_elems_snoc(vs: Seq<JsonValue>)
    requires
        vs.len() >= 1,
    ensures
        render_elems_spec(vs) == if vs.len() == 1 {
            render_spec(vs.last())
        } else {
            render_elems_spec(vs.drop_last()) + seq![','] + render_spec(vs.last())
        },
    decreases vs.len(),
{
    if vs.len() == 1 {
    } else if vs.len() == 2 {
        let tail = vs.subrange(1, vs.len() as int);
        assert(tail.len() == 1);
        assert(tail[0] == vs.last());
        assert(vs.drop_last() =~= vs.subrange(0, 1));
        assert(render_elems_spec(tail) == render_spec(vs.last()));
        assert(render_elems_spec(vs.drop_last()) == render_spec(vs[0]));
        assert(render_elems_spec(vs) == (render_spec(vs[0]) + seq![',']) + render_spec(vs.last()));
    } else {
        let tail = vs.subrange(1, vs.len() as int);
        lemma_render_elems_snoc(tail);
        assert(tail.len() >= 2);
        assert(tail.drop_last() =~= vs.drop_last().subrange(1, vs.drop_last().len() as int));
        assert(tail.last() == vs.last());
        let head = render_spec(vs[0]) + seq![','];
        let mid = render_elems_spec(tail.drop_last());
        let lastr = render_spec(vs.last());
        assert(render_elems_spec(tail) == (mid + seq![',']) + lastr);
        assert(render_elems_spec(vs) == head + ((mid + seq![',']) + lastr));
        assert(vs.drop_last().len() >= 2);
        assert(vs.drop_last()[0] == vs[0]);
        assert(render_elems_spec(vs.drop_last()) == head + mid);
        assert(head + ((mid + seq![',']) + lastr) =~= (((head + mid) + seq![',']) + lastr));
        assert(render_elems_spec(vs) == (render_elems_spec(vs.drop_last()) + seq![',']) + lastr);
    }
}

/// Rendering the first `k + 1` members extends rendering the first `k`.
proof fn lemma_render_members_snoc(ps: Seq<Member>)
    requires
        ps.len() >= 1,
    ensures
        render_members_spec(ps) == if ps.len() == 1 {
            render_member_spec(ps.last())
        } else {
            render_members_spec(ps.drop_last()) + seq![','] + render_member_spec(ps.last())
        },
    decreases ps.len(),
{
    if ps.len() == 1 {
    } else if ps.len() == 2 {
        let tail = ps.subrange(1, ps.len() as int);
        assert(tail.len() == 1);
        assert(tail[0] == ps.last());
        assert(ps.drop_last() =~= ps.subrange(0, 1));
        assert(render_members_spec(tail) == render_member_spec(ps.last()));
        assert(render_members_spec(ps.drop_last()) == render_member_spec(ps[0]));
        assert(render_members_spec(ps) == (render_member_spec(ps[0]) + seq![','])
            + render_member_spec(ps.last()));
    } else {
        let tail = ps.subrange(1, ps.len() as int);
        lemma_render_members_snoc(tail);
        assert(tail.len() >= 2);
        assert(tail.drop_last() =~= ps.drop_last().subrange(1, ps.drop_last().len() as int));
        assert(tail.last() == ps.last());
        let head = render_member_spec(ps[0]) + seq![','];
        let mid = render_members_spec(tail.drop_last());
        let lastr = render_member_spec(ps.last());
        assert(render_members_spec(tail) == (mid + seq![',']) + lastr);
        assert(render_members_spec(ps) == head + ((mid + seq![',']) + lastr));
        assert(ps.drop_last().len() >= 2);
        assert(ps.drop_last()[0] == ps[0]);
        assert(render_members_spec(ps.drop_last()) == head + mid);
        assert(head + ((mid + seq![',']) + lastr) =~= (((head + mid) + seq![',']) + lastr));
        assert(render_members_spec(ps) == (render_members_spec(ps.drop_last()) + seq![','])
            + lastr);
    }
}

/// Append the rendering of `v` to `out`.
#[verifier::loop_isolation(false)]
fn render_into(v: &JsonValue, out: &mut String)
    ensures
        final(out)@ == old(out)@ + render_spec(*v),
    decreases *v,
{
    match v {
        JsonValue::Null => {
            out.append("null");
            proof {
                reveal_strlit("null");
                assert(out@ =~= old(out)@ + render_spec(*v));
            }
        },
        JsonValue::Bool(b) => {
            if *b {
                out.append("true");
                proof {
                    reveal_strlit("true");
                    assert(out@ =~= old(out)@ + render_spec(*v));
                }
            } else {
                out.append("false");
                proof {
                    reveal_strlit("false");
                    assert(out@ =~= old(out)@ + render_spec(*v));
                }
            }
        },
        JsonValue::Int(x) => {
            push_int(*x, out);
        },
        JsonValue::Str(s) => {
            push_char(out, '"');
            push_escaped(s.as_str(), out);
            push_char(out, '"');
            proof {
                assert(out@ =~= old(out)@ + render_spec(*v));
            }
        },
        JsonValue::Arr(vs) => {
            push_char(out, '[');
            let ghost base = out@;
            let n = vs.len();
            let mut i: usize = 0;
            while i < n
                invariant
                    n == vs@.len(),
                    i <= n,
                    out@ == base + render_elems_spec(vs@.subrange(0, i as int)),
                decreases n - i,
            {
                if i > 0 {
                    push_char(out, ',');
                }
                proof {
                    assert(*v is Arr);
                    assert(decreases_to!(*v => v->Arr_0));
                    assert(decreases_to!(v->Arr_0 => vs@));
                    assert(decreases_to!(vs@ => vs@[i as int]));
                }
                render_into(&vs[i], out);
                proof {
                    lemma_render_elems_snoc(vs@.subrange(0, i + 1));
                    assert(vs@.subrange(0, i + 1).drop_last() =~= vs@.subrange(0, i as int));
                    assert(vs@.subrange(0, i + 1).last() == vs@[i as int]);
                    assert(out@ =~= base + render_elems_spec(vs@.subrange(0, i + 1)));
                }
                i = i + 1;
            }
            push_char(out, ']');
            proof {
                assert(vs@.subrange(0, n as int) =~= vs@);
                assert(out@ =~= old(out)@ + render_spec(*v));
            }
        },
        JsonValue::Obj(ps) => {
            push_char(out, '{');
            let ghost base = out@;
            let n = ps.len();
            let mut i: usize = 0;
            while i < n
                invariant
                    n == ps@.len(),
                    i <= n,
                    out@ == base + render_members_spec(ps@.subrange(0, i as int)),
                decreases n - i,
            {
                if i > 0 {
                    push_char(out, ',');
                }
                push_char(out, '"');
                push_escaped(ps[i].key.as_str(), out);
                push_char(out, '"');
                push_char(out, ':');
                proof {
                    assert(*v is Obj);
                    assert(decreases_to!(*v => v->Obj_0));
                    assert(decreases_to!(v->Obj_0 => ps@));
                    assert(decreases_to!(ps@ => ps@[i as int]));
                    assert(decreases_to!(ps@[i as int] => ps@[i as int].value));
                }
                render_into(&ps[i].value, out);
                proof {
                    lemma_render_members_snoc(ps@.subrange(0, i + 1));
                    assert(ps@.subrange(0, i + 1).drop_last() =~= ps@.subrange(0, i as int));
                    assert(ps@.subrange(0, i + 1).last() == ps@[i as int]);
                    assert(out@ =~= base + render_members_spec(ps@.subrange(0, i + 1)));
                }
                i = i + 1;
            }
            push_char(out, '}');
            proof {
                assert(ps@.subrange(0, n as int) =~= ps@);
                assert(out@ =~= old(out)@ + render_spec(*v));
            }
        },
    }
}

impl JsonValue {
    /// The deterministic textual rendering of this value.
    pub fn render(&self) -> (s: String)
        ensures
            s@ == render_spec(*self),
    {
        let mut out = String::new();
        render_into(self, &mut out);
        out
    }
}

} // verus!
