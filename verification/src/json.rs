//! A generic tagged JSON tree and the tolerant extraction helpers on it.
//!
//! The upstream service returns loosely-typed JSON; nothing here assumes
//! a key exists or has a given shape without an explicit check.  A key
//! that is missing or holds a value of an unexpected shape yields
//! "absent", never an error.

use vstd::prelude::*;
use crate::strutil::str_eq;

verus! {

/// A generic JSON value.  Numbers keep the exact digits the source text
/// carried, so no information is lost and no floating point is involved.
#[derive(Debug, PartialEq)]
pub enum Json {
    Null,
    Bool(bool),
    Num(String),
    Str(String),
    Arr(Vec<Json>),
    Obj(Vec<(String, Json)>),
}

/// The value under `key` in an association list of object fields: the
/// first binding wins, `None` when the key is absent.
pub open spec fn assoc_get(fields: Seq<(String, Json)>, key: Seq<char>) -> Option<Json>
    decreases fields.len(),
{
    if fields.len() == 0 {
        None
    } else if fields[0].0@ == key {
        Some(fields[0].1)
    } else {
        assoc_get(fields.drop_first(), key)
    }
}

/// The value under `key` when `j` is an object holding that key;
/// `None` for every other shape.
pub open spec fn obj_get(j: Json, key: Seq<char>) -> Option<Json> {
    match j {
        Json::Obj(fields) => assoc_get(fields@, key),
        _ => None,
    }
}

/// The string under `key`, provided `j` is an object and the value is a
/// string; any other shape counts as absent.
pub open spec fn str_field(j: Json, key: Seq<char>) -> Option<Seq<char>> {
    match obj_get(j, key) {
        Some(Json::Str(s)) => Some(s@),
        _ => None,
    }
}

/// The array under `key`, provided `j` is an object and the value is an
/// array; any other shape counts as absent.
pub open spec fn arr_field(j: Json, key: Seq<char>) -> Option<Seq<Json>> {
    match obj_get(j, key) {
        Some(Json::Arr(elems)) => Some(elems@),
        _ => None,
    }
}

/// The hexadecimal digit for a nibble value, as serialized text uses it.
pub open spec fn hex_digit(n: int) -> char {
    if n == 0 { '0' } else if n == 1 { '1' } else if n == 2 { '2' } else if n == 3 { '3' }
    else if n == 4 { '4' } else if n == 5 { '5' } else if n == 6 { '6' } else if n == 7 { '7' }
    else if n == 8 { '8' } else if n == 9 { '9' } else if n == 10 { 'a' } else if n == 11 { 'b' }
    else if n == 12 { 'c' } else if n == 13 { 'd' } else if n == 14 { 'e' } else { 'f' }
}

/// How one character appears inside a serialized JSON string: quotes,
/// backslashes and control characters are escaped, everything else
/// stands as itself.
pub open spec fn esc_char(c: char) -> Seq<char> {
    if c == '"' { seq!['\\', '"'] }
    else if c == '\\' { seq!['\\', '\\'] }
    else if c == '\n' { seq!['\\', 'n'] }
    else if c == '\r' { seq!['\\', 'r'] }
    else if c == '\t' { seq!['\\', 't'] }
    else if c == '\u{0008}' { seq!['\\', 'b'] }
    else if c == '\u{000C}' { seq!['\\', 'f'] }
    else if (c as u32) < 0x20 {
        seq!['\\', 'u', '0', '0',
            hex_digit(((c as u32) / 16) as int), hex_digit(((c as u32) % 16) as int)]
    } else {
        seq![c]
    }
}

/// A character sequence with every character escaped for JSON text.
pub open spec fn esc_str(s: Seq<char>) -> Seq<char>
    decreases s.len(),
{
    if s.len() == 0 {
        Seq::empty()
    } else {
        esc_str(s.drop_last()) + esc_char(s.last())
    }
}

/// The serialized JSON text of a value, in compact form: no spaces,
/// object fields in the order the tree holds them.
pub open spec fn text_of(j: Json) -> Seq<char>
    decreases j,
{
    match j {
        Json::Null => seq!['n', 'u', 'l', 'l'],
        Json::Bool(b) => if b { seq!['t', 'r', 'u', 'e'] } else { seq!['f', 'a', 'l', 's', 'e'] },
        Json::Num(s) => s@,
        Json::Str(s) => seq!['"'] + esc_str(s@) + seq!['"'],
        Json::Arr(elems) => seq!['['] + arr_text(elems@) + seq![']'],
        Json::Obj(fields) => seq!['{'] + obj_text(fields@) + seq!['}'],
    }
}

/// The comma-separated serialized texts of the elements of an array.
pub open spec fn arr_text(elems: Seq<Json>) -> Seq<char>
    decreases elems,
{
    if elems.len() == 0 {
        Seq::empty()
    } else if elems.len() == 1 {
        text_of(elems[0])
    } else {
        arr_text(elems.drop_last()) + seq![','] + text_of(elems.last())
    }
}

/// The comma-separated serialized `"key":value` entries of an object.
pub open spec fn obj_text(fields: Seq<(String, Json)>) -> Seq<char>
    decreases fields,
{
    if fields.len() == 0 {
        Seq::empty()
    } else {
        let lead = if fields.len() == 1 {
            Seq::<char>::empty()
        } else {
            obj_text(fields.drop_last()) + seq![',']
        };
        lead + seq!['"'] + esc_str(fields.last().0@) + seq!['"', ':'] + text_of(fields.last().1)
    }
}

/// Looks a key up in an object, tolerantly: `None` both when the key is
/// missing and when `j` is not an object at all.
pub fn get_field<'a>(j: &'a Json, key: &str) -> (r: Option<&'a Json>)
    ensures
        r matches Some(v) ==> obj_get(*j, key@) == Some(*v),
        r is None ==> obj_get(*j, key@) is None,
{
    match j {
        Json::Obj(fields) => {
            let n = fields.len();
            let mut i: usize = 0;
            proof {
                assert(fields@.skip(0) =~= fields@);
            }
            while i < n
                invariant
                    n == fields@.len(),
                    i <= n,
                    obj_get(*j, key@) == assoc_get(fields@, key@),
                    assoc_get(fields@, key@) == assoc_get(fields@.skip(i as int), key@),
                decreases n - i,
            {
                let pair = &fields[i];
                proof {
                    assert(fields@.skip(i as int)[0] == fields@[i as int]);
                }
                if str_eq(pair.0.as_str(), key) {
                    proof {
                        assert(assoc_get(fields@.skip(i as int), key@)
                            == Some(fields@[i as int].1));
                    }
                    return Some(&pair.1);
                }
                proof {
                    assert(fields@.skip(i as int).drop_first() =~= fields@.skip(i as int + 1));
                }
                i += 1;
            }
            proof {
                assert(fields@.skip(n as int) =~= Seq::<(String, Json)>::empty());
            }
            None
        },
        _ => None,
    }
}

/// Extracts the string attribute under `key`, or absence on any shape
/// mismatch.
pub fn get_str_field(j: &Json, key: &str) -> (r: Option<String>)
    ensures
        r.deep_view() == str_field(*j, key@),
{
    match get_field(j, key) {
        Some(Json::Str(s)) => Some(s.clone()),
        _ => None,
    }
}

/// Extracts the array attribute under `key`, or absence on any shape
/// mismatch.
pub fn get_arr_field<'a>(j: &'a Json, key: &str) -> (r: Option<&'a Vec<Json>>)
    ensures
        r matches Some(v) ==> arr_field(*j, key@) == Some(v@),
        r is None ==> arr_field(*j, key@) is None,
{
    match get_field(j, key) {
        Some(Json::Arr(elems)) => Some(elems),
        _ => None,
    }
}

/// The hexadecimal digit for a nibble value.
fn hex_digit_char(n: u32) -> (c: char)
    ensures
        c == hex_digit(n as int),
{
    if n == 0 { '0' } else if n == 1 { '1' } else if n == 2 { '2' } else if n == 3 { '3' }
    else if n == 4 { '4' } else if n == 5 { '5' } else if n == 6 { '6' } else if n == 7 { '7' }
    else if n == 8 { '8' } else if n == 9 { '9' } else if n == 10 { 'a' } else if n == 11 { 'b' }
    else if n == 12 { 'c' } else if n == 13 { 'd' } else if n == 14 { 'e' } else { 'f' }
}

/// Writes the escaped form of `s` onto `out`.
fn write_escaped(s: &str, out: &mut Vec<char>)
    ensures
        final(out)@ == old(out)@ + esc_str(s@),
{
    let cs = crate::strutil::string_chars(s);
    let n = cs.len();
    let mut k: usize = 0;
    proof {
        assert(s@.take(0) =~= Seq::<char>::empty());
        assert(out@ =~= old(out)@ + esc_str(s@.take(0)));
    }
    while k < n
        invariant
            n == cs@.len(),
            cs@ == s@,
            k <= n,
            out@ == old(out)@ + esc_str(s@.take(k as int)),
        decreases n - k,
    {
        let c = cs[k];
        if c == '"' {
            out.push('\\');
            out.push('"');
        } else if c == '\\' {
            out.push('\\');
            out.push('\\');
        } else if c == '\n' {
            out.push('\\');
            out.push('n');
        } else if c == '\r' {
            out.push('\\');
            out.push('r');
        } else if c == '\t' {
            out.push('\\');
            out.push('t');
        } else if c == '\u{0008}' {
            out.push('\\');
            out.push('b');
        } else if c == '\u{000C}' {
            out.push('\\');
            out.push('f');
        } else if (c as u32) < 0x20 {
            out.push('\\');
            out.push('u');
            out.push('0');
            out.push('0');
            out.push(hex_digit_char((c as u32) / 16));
            out.push(hex_digit_char((c as u32) % 16));
        } else {
            out.push(c);
        }
        proof {
            assert(s@.take(k as int + 1).drop_last() =~= s@.take(k as int));
            assert(s@.take(k as int + 1).last() == s@[k as int]);
            assert(out@ =~= old(out)@ + esc_str(s@.take(k as int + 1)));
        }
        k += 1;
    }
    proof {
        assert(s@.take(n as int) =~= s@);
    }
}

/// Writes the serialized JSON text of `j` onto `out`.
fn write_json(j: &Json, out: &mut Vec<char>)
    ensures
        final(out)@ == old(out)@ + text_of(*j),
    decreases *j,
{
    match j {
        Json::Null => {
            out.push('n');
            out.push('u');
            out.push('l');
            out.push('l');
            proof {
                assert(out@ =~= old(out)@ + text_of(*j));
            }
        },
        Json::Bool(b) => {
            if *b {
                out.push('t');
                out.push('r');
                out.push('u');
                out.push('e');
            } else {
                out.push('f');
                out.push('a');
                out.push('l');
                out.push('s');
                out.push('e');
            }
            proof {
                assert(out@ =~= old(out)@ + text_of(*j));
            }
        },
        Json::Num(s) => {
            let cs = crate::strutil::string_chars(s.as_str());
            let n = cs.len();
            let mut k: usize = 0;
            proof {
                assert(out@ =~= old(out)@ + s@.take(0));
            }
            while k < n
                invariant
                    n == cs@.len(),
                    cs@ == s@,
                    k <= n,
                    out@ == old(out)@ + s@.take(k as int),
                decreases n - k,
            {
                out.push(cs[k]);
                proof {
                    assert(out@ =~= old(out)@ + s@.take(k as int + 1));
                }
                k += 1;
            }
            proof {
                assert(s@.take(n as int) =~= s@);
            }
        },
        Json::Str(s) => {
            out.push('"');
            write_escaped(s.as_str(), out);
            out.push('"');
            proof {
                assert(out@ =~= old(out)@ + text_of(*j));
            }
        },
        Json::Arr(elems) => {
            out.push('[');
            let n = elems.len();
            let mut i: usize = 0;
            proof {
                assert(arr_text(elems@.take(0)) =~= Seq::<char>::empty());
                assert(out@ =~= old(out)@ + seq!['['] + arr_text(elems@.take(0)));
            }
            while i < n
                invariant
                    n == elems@.len(),
                    i <= n,
                    *j == Json::Arr(*elems),
                    out@ == old(out)@ + seq!['['] + arr_text(elems@.take(i as int)),
                decreases n - i,
            {
                if i > 0 {
                    out.push(',');
                }
                proof {
                    assert(decreases_to!(*j => j->Arr_0));
                    assert(decreases_to!(*elems => elems@));
                    assert(decreases_to!(elems@ => elems@[i as int]));
                }
                write_json(&elems[i], out);
                proof {
                    if i == 0 {
                        assert(elems@.take(1)[0] == elems@[0]);
                        assert(arr_text(elems@.take(1)) == text_of(elems@[0]));
                    } else {
                        assert(elems@.take(i as int + 1).drop_last() =~= elems@.take(i as int));
                        assert(elems@.take(i as int + 1).last() == elems@[i as int]);
                    }
                    assert(out@ =~= old(out)@ + seq!['['] + arr_text(elems@.take(i as int + 1)));
                }
                i += 1;
            }
            out.push(']');
            proof {
                assert(elems@.take(n as int) =~= elems@);
                assert(out@ =~= old(out)@ + text_of(*j));
            }
        },
        Json::Obj(fields) => {
            out.push('{');
            let n = fields.len();
            let mut i: usize = 0;
            proof {
                assert(obj_text(fields@.take(0)) =~= Seq::<char>::empty());
                assert(out@ =~= old(out)@ + seq!['{'] + obj_text(fields@.take(0)));
            }
            while i < n
                invariant
                    n == fields@.len(),
                    i <= n,
                    *j == Json::Obj(*fields),
                    out@ == old(out)@ + seq!['{'] + obj_text(fields@.take(i as int)),
                decreases n - i,
            {
                if i > 0 {
                    out.push(',');
                }
                out.push('"');
                let pair = &fields[i];
                write_escaped(pair.0.as_str(), out);
                out.push('"');
                out.push(':');
                proof {
                    assert(decreases_to!(*j => j->Obj_0));
                    assert(decreases_to!(*fields => fields@));
                    assert(decreases_to!(fields@ => fields@[i as int]));
                    assert(decreases_to!(fields@[i as int] => fields@[i as int].1));
                }
                write_json(&pair.1, out);
                proof {
                    assert(fields@.take(i as int + 1).last() == fields@[i as int]);
                    if i > 0 {
                        assert(fields@.take(i as int + 1).drop_last() =~= fields@.take(i as int));
                    }
                    assert(out@ =~= old(out)@ + seq!['{'] + obj_text(fields@.take(i as int + 1)));
                }
                i += 1;
            }
            out.push('}');
            proof {
                assert(fields@.take(n as int) =~= fields@);
                assert(out@ =~= old(out)@ + text_of(*j));
            }
        },
    }
}

/// The serialized JSON text of a value: the form a raw tag value or an
/// unrecognized node is shown in.
pub fn render(j: &Json) -> (r: String)
    ensures
        r@ == text_of(*j),
{
    let mut out: Vec<char> = Vec::new();
    write_json(j, &mut out);
    crate::strutil::chars_to_string(&out)
}

} // verus!
