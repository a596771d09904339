//! Reading the wire text form back into a document tree: a recursive
//! descent over the characters, with the usual JSON grammar — objects,
//! arrays, string escapes (including surrogate pairs), raw number
//! tokens, the three literals, and insignificant whitespace.
//!
//! A success always consumes at least one character and never passes the
//! end of the text; a malformed text is rejected with the position of
//! the offending character. Whether a given text is accepted is checked
//! by the test suite against an independent JSON reader.

use vstd::prelude::*;
use crate::codec::DecodeError;
use crate::json::{chars_to_string, str_chars, Json};

verus! {

/// The character with a given code point.
///
/// Relies on `char::from_u32`: it returns a character exactly when the
/// argument is a Unicode scalar value (not a surrogate, at most
/// 0x10FFFF), and that character's code is the argument.
#[verifier::external_body]
fn char_from_u32(u: u32) -> (r: Option<char>)
    ensures
        r matches Some(c) ==> c as u32 == u,
        r is Some <==> (u < 0xD800 || (0xE000 <= u && u <= 0x10FFFF)),
{
    char::from_u32(u)
}

/// Whether a character is insignificant whitespace.
pub open spec fn is_ws(c: char) -> bool {
    c as u32 == 32 || c as u32 == 9 || c as u32 == 10 || c as u32 == 13
}

/// The first position at or after `pos` that does not hold whitespace.
pub open spec fn ws_end(s: Seq<char>, pos: int) -> int
    decreases s.len() - pos,
    when 0 <= pos <= s.len()
{
    if pos < s.len() && is_ws(s[pos]) {
        ws_end(s, pos + 1)
    } else {
        pos
    }
}

/// Skips spaces, tabs, newlines and carriage returns.
fn skip_ws(cs: &Vec<char>, pos: usize) -> (r: usize)
    requires
        pos <= cs@.len(),
    ensures
        pos <= r <= cs@.len(),
        r == ws_end(cs@, pos as int),
{
    let n = cs.len();
    let mut i = pos;
    while i < n
        invariant
            pos <= i <= n == cs@.len(),
            ws_end(cs@, pos as int) == ws_end(cs@, i as int),
        decreases n - i,
    {
        let u = cs[i] as u32;
        if u == 32 || u == 9 || u == 10 || u == 13 {
            i += 1;
        } else {
            return i;
        }
    }
    i
}

/// Reads one hexadecimal digit: its value when the character is one, an
/// error exactly otherwise.
fn hex_digit(cs: &Vec<char>, i: usize) -> (r: Result<u32, DecodeError>)
    requires
        i < cs@.len(),
    ensures
        r matches Ok(v) ==> v < 16 && ((48 <= cs@[i as int] as u32 <= 57 && v == cs@[i as int]
            as u32 - 48) || (97 <= cs@[i as int] as u32 <= 102 && v == cs@[i as int] as u32 - 87)
            || (65 <= cs@[i as int] as u32 <= 70 && v == cs@[i as int] as u32 - 55)),
        r is Err ==> !(48 <= cs@[i as int] as u32 <= 57 || 97 <= cs@[i as int] as u32 <= 102 || 65
            <= cs@[i as int] as u32 <= 70),
{
    let u = cs[i] as u32;
    if 48 <= u && u <= 57 {
        Ok(u - 48)
    } else if 97 <= u && u <= 102 {
        Ok(u - 87)
    } else if 65 <= u && u <= 70 {
        Ok(u - 55)
    } else {
        Err(DecodeError::Syntax(i))
    }
}

/// Reads the four hexadecimal digits of a `\u` escape.
fn hex4(cs: &Vec<char>, pos: usize) -> (r: Result<(u32, usize), DecodeError>)
    requires
        pos <= cs@.len(),
    ensures
        r matches Ok((v, p)) ==> pos < p <= cs@.len() && v < 65536,
{
    let n = cs.len();
    if n - pos < 4 {
        return Err(DecodeError::Syntax(pos));
    }
    let d0 = match hex_digit(cs, pos) {
        Ok(d) => d,
        Err(e) => {
            return Err(e);
        },
    };
    let d1 = match hex_digit(cs, pos + 1) {
        Ok(d) => d,
        Err(e) => {
            return Err(e);
        },
    };
    let d2 = match hex_digit(cs, pos + 2) {
        Ok(d) => d,
        Err(e) => {
            return Err(e);
        },
    };
    let d3 = match hex_digit(cs, pos + 3) {
        Ok(d) => d,
        Err(e) => {
            return Err(e);
        },
    };
    Ok((d0 * 4096 + d1 * 256 + d2 * 16 + d3, pos + 4))
}

/// Reads a quoted string literal, decoding its escapes.
fn parse_string(cs: &Vec<char>, pos: usize) -> (r: Result<(String, usize), DecodeError>)
    requires
        pos < cs@.len(),
    ensures
        r matches Ok((v, p)) ==> pos < p <= cs@.len(),
{
    let n = cs.len();
    if (cs[pos] as u32) != 34 {
        return Err(DecodeError::Syntax(pos));
    }
    let mut out: Vec<char> = Vec::new();
    let mut i = pos + 1;
    while i < n
        invariant
            pos < i <= n == cs@.len(),
        decreases n - i,
    {
        let c = cs[i];
        let u = c as u32;
        if u == 34 {
            return Ok((chars_to_string(&out), i + 1));
        } else if u == 92 {
            if i + 1 >= n {
                return Err(DecodeError::Syntax(i));
            }
            let e = cs[i + 1] as u32;
            if e == 34 {
                out.push('"');
                i += 2;
            } else if e == 92 {
                out.push('\\');
                i += 2;
            } else if e == 47 {
                out.push('/');
                i += 2;
            } else if e == 98 {
                out.push('\u{8}');
                i += 2;
            } else if e == 102 {
                out.push('\u{c}');
                i += 2;
            } else if e == 110 {
                out.push('\n');
                i += 2;
            } else if e == 114 {
                out.push('\r');
                i += 2;
            } else if e == 116 {
                out.push('\t');
                i += 2;
            } else if e == 117 {
                let (hi, p1) = match hex4(cs, i + 2) {
                    Ok(hp) => hp,
                    Err(err) => {
                        return Err(err);
                    },
                };
                if 0xD800 <= hi && hi <= 0xDBFF {
                    if n - p1 < 2 || (cs[p1] as u32) != 92 || (cs[p1 + 1] as u32) != 117 {
                        return Err(DecodeError::Syntax(p1));
                    }
                    let (lo, p2) = match hex4(cs, p1 + 2) {
                        Ok(hp) => hp,
                        Err(err) => {
                            return Err(err);
                        },
                    };
                    if !(0xDC00 <= lo && lo <= 0xDFFF) {
                        return Err(DecodeError::Syntax(p1 + 2));
                    }
                    let code: u32 = 0x10000 + (hi - 0xD800) * 0x400 + (lo - 0xDC00);
                    match char_from_u32(code) {
                        Some(ch) => out.push(ch),
                        None => {
                            return Err(DecodeError::Syntax(i));
                        },
                    }
                    i = p2;
                } else {
                    match char_from_u32(hi) {
                        Some(ch) => out.push(ch),
                        None => {
                            return Err(DecodeError::Syntax(i));
                        },
                    }
                    i = p1;
                }
            } else {
                return Err(DecodeError::Syntax(i + 1));
            }
        } else if u < 32 {
            return Err(DecodeError::Syntax(i));
        } else {
            out.push(c);
            i += 1;
        }
    }
    Err(DecodeError::Syntax(i))
}

/// Reads a raw number token: optional sign, integer part without a
/// leading zero, optional fraction, optional exponent. A returned token
/// is exactly the text consumed.
#[verifier::loop_isolation(false)]
fn parse_number(cs: &Vec<char>, pos: usize) -> (r: Result<(String, usize), DecodeError>)
    requires
        pos < cs@.len(),
    ensures
        r matches Ok((v, p)) ==> pos < p <= cs@.len() && v@ == cs@.subrange(pos as int, p as int),
{
    let n = cs.len();
    let mut raw: Vec<char> = Vec::new();
    let mut i = pos;
    if (cs[i] as u32) == 45 {
        raw.push(cs[i]);
        i += 1;
    }
    proof {
        assert(raw@ =~= cs@.subrange(pos as int, i as int));
    }
    if i >= n {
        return Err(DecodeError::Syntax(i));
    }
    let first = cs[i] as u32;
    if first == 48 {
        raw.push(cs[i]);
        i += 1;
        proof {
            assert(raw@ =~= cs@.subrange(pos as int, i as int));
        }
    } else if 49 <= first && first <= 57 {
        raw.push(cs[i]);
        i += 1;
        proof {
            assert(raw@ =~= cs@.subrange(pos as int, i as int));
        }
        while i < n
            invariant
                pos < i <= n == cs@.len(),
                raw@ == cs@.subrange(pos as int, i as int),
            decreases n - i,
        {
            let u = cs[i] as u32;
            if 48 <= u && u <= 57 {
                raw.push(cs[i]);
                i += 1;
                proof {
                    assert(raw@ =~= cs@.subrange(pos as int, i as int));
                }
            } else {
                break ;
            }
        }
    } else {
        return Err(DecodeError::Syntax(i));
    }
    if i < n && (cs[i] as u32) == 46 {
        raw.push(cs[i]);
        i += 1;
        proof {
            assert(raw@ =~= cs@.subrange(pos as int, i as int));
        }
        if i >= n {
            return Err(DecodeError::Syntax(i));
        }
        if !(48 <= (cs[i] as u32) && (cs[i] as u32) <= 57) {
            return Err(DecodeError::Syntax(i));
        }
        while i < n
            invariant
                pos < i <= n == cs@.len(),
                raw@ == cs@.subrange(pos as int, i as int),
            decreases n - i,
        {
            let u = cs[i] as u32;
            if 48 <= u && u <= 57 {
                raw.push(cs[i]);
                i += 1;
                proof {
                    assert(raw@ =~= cs@.subrange(pos as int, i as int));
                }
            } else {
                break ;
            }
        }
    }
    if i < n && ((cs[i] as u32) == 101 || (cs[i] as u32) == 69) {
        raw.push(cs[i]);
        i += 1;
        if i < n && ((cs[i] as u32) == 43 || (cs[i] as u32) == 45) {
            raw.push(cs[i]);
            i += 1;
        }
        proof {
            assert(raw@ =~= cs@.subrange(pos as int, i as int));
        }
        if i >= n {
            return Err(DecodeError::Syntax(i));
        }
        if !(48 <= (cs[i] as u32) && (cs[i] as u32) <= 57) {
            return Err(DecodeError::Syntax(i));
        }
        while i < n
            invariant
                pos < i <= n == cs@.len(),
                raw@ == cs@.subrange(pos as int, i as int),
            decreases n - i,
        {
            let u = cs[i] as u32;
            if 48 <= u && u <= 57 {
                raw.push(cs[i]);
                i += 1;
                proof {
                    assert(raw@ =~= cs@.subrange(pos as int, i as int));
                }
            } else {
                break ;
            }
        }
    }
    Ok((chars_to_string(&raw), i))
}

/// Expects the given keyword at `pos`: succeeds exactly when the text
/// holds it there, consuming it.
fn expect_word(cs: &Vec<char>, pos: usize, word: &str) -> (r: Result<usize, DecodeError>)
    requires
        pos <= cs@.len(),
    ensures
        r matches Ok(p) ==> pos <= p <= cs@.len() && p == pos + word@.len() && cs@.subrange(
            pos as int,
            p as int,
        ) == word@,
        r is Err ==> !(pos + word@.len() <= cs@.len() && cs@.subrange(
            pos as int,
            pos + word@.len(),
        ) == word@),
{
    let n = cs.len();
    let w = str_chars(word);
    if n - pos < w.len() {
        return Err(DecodeError::Syntax(pos));
    }
    let mut i: usize = 0;
    while i < w.len()
        invariant
            0 <= i <= w@.len(),
            n == cs@.len(),
            w@ == word@,
            pos <= n,
            w@.len() <= n - pos,
            forall|j: int| 0 <= j < i ==> cs@[pos + j] == w@[j],
        decreases w@.len() - i,
    {
        if (cs[pos + i] as u32) != (w[i] as u32) {
            proof {
                assert(cs@.subrange(pos as int, pos + word@.len())[i as int] == cs@[pos + i]);
                assert(cs@[pos + i] != w@[i as int]) by {
                    vstd::utf8::char_u32_cast(cs@[pos + i], cs@[pos + i] as u32);
                    vstd::utf8::char_u32_cast(w@[i as int], w@[i as int] as u32);
                }
            }
            return Err(DecodeError::Syntax(pos + i));
        }
        proof {
            assert(cs@[pos + i] == w@[i as int]) by {
                vstd::utf8::char_u32_cast(cs@[pos + i], cs@[pos + i] as u32);
                vstd::utf8::char_u32_cast(w@[i as int], w@[i as int] as u32);
            }
        }
        i += 1;
    }
    proof {
        assert(cs@.subrange(pos as int, pos + word@.len()) =~= word@);
    }
    Ok(pos + w.len())
}

/// Reads one value starting exactly at `pos` (no leading whitespace).
fn parse_value(cs: &Vec<char>, pos: usize) -> (r: Result<(Json, usize), DecodeError>)
    requires
        pos <= cs@.len(),
    ensures
        r matches Ok((v, p)) ==> pos < p <= cs@.len(),
    decreases cs@.len() - pos,
{
    let n = cs.len();
    if pos >= n {
        return Err(DecodeError::Syntax(pos));
    }
    let u = cs[pos] as u32;
    if u == 110 {
        let p = match expect_word(cs, pos, "null") {
            Ok(p) => p,
            Err(e) => {
                return Err(e);
            },
        };
        proof {
            reveal_strlit("null");
        }
        Ok((Json::Null, p))
    } else if u == 116 {
        let p = match expect_word(cs, pos, "true") {
            Ok(p) => p,
            Err(e) => {
                return Err(e);
            },
        };
        proof {
            reveal_strlit("true");
        }
        Ok((Json::Bool(true), p))
    } else if u == 102 {
        let p = match expect_word(cs, pos, "false") {
            Ok(p) => p,
            Err(e) => {
                return Err(e);
            },
        };
        proof {
            reveal_strlit("false");
        }
        Ok((Json::Bool(false), p))
    } else if u == 34 {
        match parse_string(cs, pos) {
            Ok((s, p)) => Ok((Json::Str(s), p)),
            Err(e) => Err(e),
        }
    } else if u == 45 || (48 <= u && u <= 57) {
        match parse_number(cs, pos) {
            Ok((s, p)) => Ok((Json::Num(s), p)),
            Err(e) => Err(e),
        }
    } else if u == 91 {
        let mut items: Vec<Json> = Vec::new();
        let mut cur = skip_ws(cs, pos + 1);
        if cur < n && (cs[cur] as u32) == 93 {
            return Ok((Json::Arr(items), cur + 1));
        }
        loop
            invariant
                pos < cur <= n == cs@.len(),
            decreases n - cur,
        {
            let (v, p) = match parse_value(cs, cur) {
                Ok(vp) => vp,
                Err(e) => {
                    return Err(e);
                },
            };
            items.push(v);
            cur = skip_ws(cs, p);
            if cur >= n {
                return Err(DecodeError::Syntax(cur));
            }
            let d = cs[cur] as u32;
            if d == 93 {
                return Ok((Json::Arr(items), cur + 1));
            } else if d == 44 {
                cur = skip_ws(cs, cur + 1);
                if cur >= n {
                    return Err(DecodeError::Syntax(cur));
                }
            } else {
                return Err(DecodeError::Syntax(cur));
            }
        }
    } else if u == 123 {
        let mut pairs: Vec<(String, Json)> = Vec::new();
        let mut cur = skip_ws(cs, pos + 1);
        if cur < n && (cs[cur] as u32) == 125 {
            return Ok((Json::Obj(pairs), cur + 1));
        }
        loop
            invariant
                pos < cur <= n == cs@.len(),
            decreases n - cur,
        {
            if cur >= n {
                return Err(DecodeError::Syntax(cur));
            }
            let (k, p1) = match parse_string(cs, cur) {
                Ok(kp) => kp,
                Err(e) => {
                    return Err(e);
                },
            };
            let p2 = skip_ws(cs, p1);
            if p2 >= n || (cs[p2] as u32) != 58 {
                return Err(DecodeError::Syntax(p2));
            }
            let p3 = skip_ws(cs, p2 + 1);
            let (v, p4) = match parse_value(cs, p3) {
                Ok(vp) => vp,
                Err(e) => {
                    return Err(e);
                },
            };
            pairs.push((k, v));
            cur = skip_ws(cs, p4);
            if cur >= n {
                return Err(DecodeError::Syntax(cur));
            }
            let d = cs[cur] as u32;
            if d == 125 {
                return Ok((Json::Obj(pairs), cur + 1));
            } else if d == 44 {
                cur = skip_ws(cs, cur + 1);
            } else {
                return Err(DecodeError::Syntax(cur));
            }
        }
    } else {
        Err(DecodeError::Syntax(pos))
    }
}

/// Reads a whole text as one document value: one value surrounded by
/// optional whitespace, nothing after it.
pub fn parse_text(s: &str) -> (r: Result<Json, DecodeError>) {
    let cs = str_chars(s);
    let start = skip_ws(&cs, 0);
    let (v, p) = match parse_value(&cs, start) {
        Ok(vp) => vp,
        Err(e) => {
            return Err(e);
        },
    };
    let end = skip_ws(&cs, p);
    if end != cs.len() {
        return Err(DecodeError::Syntax(end));
    }
    Ok(v)
}

} // verus!
