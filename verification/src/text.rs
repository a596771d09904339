//! The wire text form: how a document tree is written out as JSON text,
//! in the compact and in the human-formatted variant.

use vstd::prelude::*;
use crate::json::{JVal, Json};

verus! {

/// The hexadecimal digit character for `d` (0 through 15), lower case.
pub open spec fn hex_char(d: nat) -> char {
    if d < 10 {
        ((48 + d) as u8) as char
    } else {
        ((87 + d) as u8) as char
    }
}

/// The escape of one character inside a string literal: quote and
/// backslash are escaped, the five named controls use their short form,
/// other controls use `\u00..`, everything else stands as itself.
pub open spec fn esc_char(c: char) -> Seq<char> {
    if c as u32 == 34 {
        seq!['\\', '"']
    } else if c as u32 == 92 {
        seq!['\\', '\\']
    } else if c as u32 == 8 {
        seq!['\\', 'b']
    } else if c as u32 == 9 {
        seq!['\\', 't']
    } else if c as u32 == 10 {
        seq!['\\', 'n']
    } else if c as u32 == 12 {
        seq!['\\', 'f']
    } else if c as u32 == 13 {
        seq!['\\', 'r']
    } else if (c as u32) < 32 {
        seq!['\\', 'u', '0', '0'] + seq![hex_char((c as u32 / 16) as nat)] + seq![hex_char(
            (c as u32 % 16) as nat,
        )]
    } else {
        seq![c]
    }
}

/// The escaped body of a string literal.
pub open spec fn esc_str(s: Seq<char>) -> Seq<char>
    decreases s.len(),
{
    if s.len() == 0 {
        Seq::empty()
    } else {
        esc_str(s.drop_last()) + esc_char(s.last())
    }
}

/// A string literal: quote, escaped body, quote.
pub open spec fn enc_string(s: Seq<char>) -> Seq<char> {
    seq!['"'] + esc_str(s) + seq!['"']
}

/// The compact text of a value: no whitespace anywhere.
pub open spec fn enc(v: JVal) -> Seq<char>
    decreases v,
{
    match v {
        JVal::Null => seq!['n', 'u', 'l', 'l'],
        JVal::Bool(b) => if b {
            seq!['t', 'r', 'u', 'e']
        } else {
            seq!['f', 'a', 'l', 's', 'e']
        },
        JVal::Num(s) => s,
        JVal::Str(s) => enc_string(s),
        JVal::Arr(items) => seq!['['] + enc_list(items) + seq![']'],
        JVal::Obj(pairs) => seq!['{'] + enc_members(pairs) + seq!['}'],
    }
}

/// The comma-separated elements of an array.
pub open spec fn enc_list(items: Seq<JVal>) -> Seq<char>
    decreases items,
{
    if items.len() == 0 {
        Seq::empty()
    } else if items.len() == 1 {
        enc(items[0])
    } else {
        enc(items[0]) + seq![','] + enc_list(items.drop_first())
    }
}

/// The comma-separated members of an object.
pub open spec fn enc_members(pairs: Seq<(Seq<char>, JVal)>) -> Seq<char>
    decreases pairs,
{
    if pairs.len() == 0 {
        Seq::empty()
    } else if pairs.len() == 1 {
        enc_string(pairs[0].0) + seq![':'] + enc(pairs[0].1)
    } else {
        enc_string(pairs[0].0) + seq![':'] + enc(pairs[0].1) + seq![','] + enc_members(
            pairs.drop_first(),
        )
    }
}

/// Appending one element extends the comma-separated list at its end.
pub proof fn lemma_enc_list_snoc(items: Seq<JVal>, x: JVal)
    ensures
        enc_list(items.push(x)) == if items.len() == 0 {
            enc(x)
        } else {
            enc_list(items) + seq![','] + enc(x)
        },
    decreases items.len(),
{
    let p = items.push(x);
    if items.len() == 0 {
        assert(p.len() == 1);
        assert(p[0] == x);
    } else {
        assert(p[0] == items[0]);
        assert(p.drop_first() =~= items.drop_first().push(x));
        lemma_enc_list_snoc(items.drop_first(), x);
        if items.len() == 1 {
            assert(enc_list(p) == enc(items[0]) + seq![','] + enc(x));
            assert(enc_list(items) == enc(items[0]));
        } else {
            assert(enc_list(items) + seq![','] + enc(x) =~= enc(items[0]) + seq![','] + (enc_list(
                items.drop_first(),
            ) + seq![','] + enc(x)));
        }
    }
}

/// Appending one member extends the comma-separated members at the end.
pub proof fn lemma_enc_members_snoc(pairs: Seq<(Seq<char>, JVal)>, x: (Seq<char>, JVal))
    ensures
        enc_members(pairs.push(x)) == if pairs.len() == 0 {
            enc_string(x.0) + seq![':'] + enc(x.1)
        } else {
            enc_members(pairs) + seq![','] + (enc_string(x.0) + seq![':'] + enc(x.1))
        },
    decreases pairs.len(),
{
    let p = pairs.push(x);
    if pairs.len() == 0 {
        assert(p.len() == 1);
        assert(p[0] == x);
    } else {
        assert(p[0] == pairs[0]);
        assert(p.drop_first() =~= pairs.drop_first().push(x));
        lemma_enc_members_snoc(pairs.drop_first(), x);
        let m0 = enc_string(pairs[0].0) + seq![':'] + enc(pairs[0].1);
        let mx = enc_string(x.0) + seq![':'] + enc(x.1);
        if pairs.len() == 1 {
            assert(enc_members(p) == m0 + seq![','] + mx);
            assert(enc_members(pairs) == m0);
        } else {
            assert(enc_members(pairs) + seq![','] + mx =~= m0 + seq![','] + (enc_members(
                pairs.drop_first(),
            ) + seq![','] + mx));
        }
    }
}

/// Writes the escaped, quoted form of a string.
#[verifier::loop_isolation(false)]
fn write_string(s: &str, out: &mut Vec<char>)
    ensures
        final(out)@ == old(out)@ + enc_string(s@),
{
    let cs = crate::json::str_chars(s);
    out.push('"');
    let mut i: usize = 0;
    while i < cs.len()
        invariant
            0 <= i <= cs@.len(),
            out@ == old(out)@ + seq!['"'] + esc_str(s@.take(i as int)),
        decreases cs@.len() - i,
    {
        let c = cs[i];
        proof {
            assert(s@.take(i + 1).drop_last() =~= s@.take(i as int));
            assert(s@.take(i + 1).last() == s@[i as int]);
        }
        let u = c as u32;
        if u == 34 {
            out.push('\\');
            out.push('"');
        } else if u == 92 {
            out.push('\\');
            out.push('\\');
        } else if u == 8 {
            out.push('\\');
            out.push('b');
        } else if u == 9 {
            out.push('\\');
            out.push('t');
        } else if u == 10 {
            out.push('\\');
            out.push('n');
        } else if u == 12 {
            out.push('\\');
            out.push('f');
        } else if u == 13 {
            out.push('\\');
            out.push('r');
        } else if u < 32 {
            out.push('\\');
            out.push('u');
            out.push('0');
            out.push('0');
            let hi = (u / 16) as u8;
            let lo = (u % 16) as u8;
            out.push(if hi < 10 {
                (48 + hi) as char
            } else {
                (87 + hi) as char
            });
            out.push(if lo < 10 {
                (48 + lo) as char
            } else {
                (87 + lo) as char
            });
        } else {
            out.push(c);
        }
        proof {
            assert(out@ =~= old(out)@ + seq!['"'] + esc_str(s@.take(i + 1)));
        }
        i += 1;
    }
    out.push('"');
    proof {
        assert(s@.take(s@.len() as int) =~= s@);
        assert(out@ =~= old(out)@ + enc_string(s@));
    }
}

/// Writes the compact text of a value onto the end of `out`.
#[verifier::loop_isolation(false)]
#[verifier::rlimit(50)]
pub fn write_json(v: &Json, out: &mut Vec<char>)
    ensures
        final(out)@ == old(out)@ + enc(v@),
    decreases v,
{
    match v {
        Json::Null => {
            out.push('n');
            out.push('u');
            out.push('l');
            out.push('l');
            proof {
                assert(out@ =~= old(out)@ + enc(v@));
            }
        },
        Json::Bool(b) => {
            if *b {
                out.push('t');
                out.push('r');
                out.push('u');
                out.push('e');
            } else {
                out.push('f');
                out.push('a');
                out.push('l');
                out.push('s');
                out.push('e');
            }
            proof {
                assert(out@ =~= old(out)@ + enc(v@));
            }
        },
        Json::Num(s) => {
            let cs = crate::json::str_chars(s.as_str());
            let mut i: usize = 0;
            while i < cs.len()
                invariant
                    0 <= i <= cs@.len(),
                    cs@ == s@,
                    out@ == old(out)@ + s@.take(i as int),
                decreases cs@.len() - i,
            {
                out.push(cs[i]);
                proof {
                    assert(out@ =~= old(out)@ + s@.take(i + 1));
                }
                i += 1;
            }
            proof {
                assert(s@.take(s@.len() as int) =~= s@);
            }
        },
        Json::Str(s) => {
            write_string(s.as_str(), out);
        },
        Json::Arr(items) => {
            out.push('[');
            let ghost iv = crate::json::jvals_of(items@);
            proof {
                crate::json::lemma_jvals_of(items@);
            }
            let mut i: usize = 0;
            while i < items.len()
                invariant
                    0 <= i <= items@.len(),
                    iv.len() == items@.len(),
                    forall|j: int| 0 <= j < items@.len() ==> iv[j] == #[trigger] items@[j]@,
                    out@ == old(out)@ + seq!['['] + enc_list(iv.take(i as int)),
                decreases items@.len() - i,
            {
                if i > 0 {
                    out.push(',');
                }
                write_json(&items[i], out);
                proof {
                    assert(iv.take(i + 1) =~= iv.take(i as int).push(iv[i as int]));
                    lemma_enc_list_snoc(iv.take(i as int), iv[i as int]);
                    assert(out@ =~= old(out)@ + seq!['['] + enc_list(iv.take(i + 1)));
                }
                i += 1;
            }
            out.push(']');
            proof {
                assert(iv.take(iv.len() as int) =~= iv);
                assert(out@ =~= old(out)@ + enc(v@));
            }
        },
        Json::Obj(pairs) => {
            out.push('{');
            let ghost pv = crate::json::jpairs_of(pairs@);
            proof {
                crate::json::lemma_jpairs_of(pairs@);
            }
            let mut i: usize = 0;
            while i < pairs.len()
                invariant
                    0 <= i <= pairs@.len(),
                    pv.len() == pairs@.len(),
                    forall|j: int|
                        0 <= j < pairs@.len() ==> pv[j] == (#[trigger] pairs@[j].0@, pairs@[j].1@),
                    out@ == old(out)@ + seq!['{'] + enc_members(pv.take(i as int)),
                decreases pairs@.len() - i,
            {
                if i > 0 {
                    out.push(',');
                }
                write_string(pairs[i].0.as_str(), out);
                out.push(':');
                write_json(&pairs[i].1, out);
                proof {
                    assert(pv.take(i + 1) =~= pv.take(i as int).push(pv[i as int]));
                    lemma_enc_members_snoc(pv.take(i as int), pv[i as int]);
                    assert(out@ =~= old(out)@ + seq!['{'] + enc_members(pv.take(i + 1)));
                }
                i += 1;
            }
            out.push('}');
            proof {
                assert(pv.take(pv.len() as int) =~= pv);
                assert(out@ =~= old(out)@ + enc(v@));
            }
        },
    }
}

impl Json {
    /// The compact text of this value.
    pub fn to_text(&self) -> (r: String)
        ensures
            r@ == enc(self@),
    {
        let mut out: Vec<char> = Vec::new();
        write_json(self, &mut out);
        crate::json::chars_to_string(&out)
    }
}


/// One level of human-formatted indentation.
pub open spec fn indent_step() -> Seq<char> {
    seq![' ', ' ']
}

/// The human-formatted text of a value at the given indentation: two
/// spaces per level, members on their own lines, a space after each
/// member's colon, empty containers on one line.
pub open spec fn enc_pretty(v: JVal, ind: Seq<char>) -> Seq<char>
    decreases v,
{
    match v {
        JVal::Null => seq!['n', 'u', 'l', 'l'],
        JVal::Bool(b) => if b {
            seq!['t', 'r', 'u', 'e']
        } else {
            seq!['f', 'a', 'l', 's', 'e']
        },
        JVal::Num(s) => s,
        JVal::Str(s) => enc_string(s),
        JVal::Arr(items) => if items.len() == 0 {
            seq!['[', ']']
        } else {
            seq!['['] + enc_plist(items, ind + indent_step()) + seq!['\n'] + ind + seq![']']
        },
        JVal::Obj(pairs) => if pairs.len() == 0 {
            seq!['{', '}']
        } else {
            seq!['{'] + enc_pmembers(pairs, ind + indent_step()) + seq!['\n'] + ind + seq!['}']
        },
    }
}

/// The elements of a formatted array, each on its own indented line.
pub open spec fn enc_plist(items: Seq<JVal>, ind: Seq<char>) -> Seq<char>
    decreases items,
{
    if items.len() == 0 {
        Seq::empty()
    } else if items.len() == 1 {
        seq!['\n'] + ind + enc_pretty(items[0], ind)
    } else {
        seq!['\n'] + ind + enc_pretty(items[0], ind) + seq![','] + enc_plist(
            items.drop_first(),
            ind,
        )
    }
}

/// The members of a formatted object, each on its own indented line.
pub open spec fn enc_pmembers(pairs: Seq<(Seq<char>, JVal)>, ind: Seq<char>) -> Seq<char>
    decreases pairs,
{
    if pairs.len() == 0 {
        Seq::empty()
    } else if pairs.len() == 1 {
        seq!['\n'] + ind + enc_string(pairs[0].0) + seq![':', ' '] + enc_pretty(pairs[0].1, ind)
    } else {
        seq!['\n'] + ind + enc_string(pairs[0].0) + seq![':', ' '] + enc_pretty(pairs[0].1, ind)
            + seq![','] + enc_pmembers(pairs.drop_first(), ind)
    }
}

/// Appending one element extends the formatted list at its end.
pub proof fn lemma_enc_plist_snoc(items: Seq<JVal>, x: JVal, ind: Seq<char>)
    ensures
        enc_plist(items.push(x), ind) == if items.len() == 0 {
            seq!['\n'] + ind + enc_pretty(x, ind)
        } else {
            enc_plist(items, ind) + seq![','] + (seq!['\n'] + ind + enc_pretty(x, ind))
        },
    decreases items.len(),
{
    let p = items.push(x);
    if items.len() == 0 {
        assert(p.len() == 1);
        assert(p[0] == x);
    } else {
        assert(p[0] == items[0]);
        assert(p.drop_first() =~= items.drop_first().push(x));
        lemma_enc_plist_snoc(items.drop_first(), x, ind);
        let m0 = seq!['\n'] + ind + enc_pretty(items[0], ind);
        let mx = seq!['\n'] + ind + enc_pretty(x, ind);
        if items.len() == 1 {
            assert(enc_plist(p, ind) =~= m0 + seq![','] + mx);
            assert(enc_plist(items, ind) == m0);
        } else {
            assert(enc_plist(items, ind) + seq![','] + mx =~= m0 + seq![','] + (enc_plist(
                items.drop_first(),
                ind,
            ) + seq![','] + mx));
            assert(enc_plist(p, ind) =~= m0 + seq![','] + enc_plist(items.drop_first().push(x), ind));
        }
    }
}

/// Appending one member extends the formatted members at the end.
pub proof fn lemma_enc_pmembers_snoc(pairs: Seq<(Seq<char>, JVal)>, x: (Seq<char>, JVal), ind: Seq<char>)
    ensures
        enc_pmembers(pairs.push(x), ind) == if pairs.len() == 0 {
            seq!['\n'] + ind + enc_string(x.0) + seq![':', ' '] + enc_pretty(x.1, ind)
        } else {
            enc_pmembers(pairs, ind) + seq![','] + (seq!['\n'] + ind + enc_string(x.0) + seq![
                ':',
                ' ',
            ] + enc_pretty(x.1, ind))
        },
    decreases pairs.len(),
{
    let p = pairs.push(x);
    if pairs.len() == 0 {
        assert(p.len() == 1);
        assert(p[0] == x);
    } else {
        assert(p[0] == pairs[0]);
        assert(p.drop_first() =~= pairs.drop_first().push(x));
        lemma_enc_pmembers_snoc(pairs.drop_first(), x, ind);
        let m0 = seq!['\n'] + ind + enc_string(pairs[0].0) + seq![':', ' '] + enc_pretty(
            pairs[0].1,
            ind,
        );
        let mx = seq!['\n'] + ind + enc_string(x.0) + seq![':', ' '] + enc_pretty(x.1, ind);
        if pairs.len() == 1 {
            assert(enc_pmembers(p, ind) =~= m0 + seq![','] + mx);
            assert(enc_pmembers(pairs, ind) == m0);
        } else {
            assert(enc_pmembers(pairs, ind) + seq![','] + mx =~= m0 + seq![','] + (enc_pmembers(
                pairs.drop_first(),
                ind,
            ) + seq![','] + mx));
            assert(enc_pmembers(p, ind) =~= m0 + seq![','] + enc_pmembers(
                pairs.drop_first().push(x),
                ind,
            ));
        }
    }
}

/// Appends a copy of the given characters.
fn push_chars(out: &mut Vec<char>, ind: &Vec<char>)
    ensures
        final(out)@ == old(out)@ + ind@,
{
    let mut i: usize = 0;
    while i < ind.len()
        invariant
            0 <= i <= ind@.len(),
            out@ == old(out)@ + ind@.take(i as int),
        decreases ind@.len() - i,
    {
        out.push(ind[i]);
        proof {
            assert(out@ =~= old(out)@ + ind@.take(i + 1));
        }
        i += 1;
    }
    proof {
        assert(ind@.take(ind@.len() as int) =~= ind@);
    }
}

/// Writes the human-formatted text of a value onto the end of `out`.
#[verifier::loop_isolation(false)]
pub fn write_json_pretty(v: &Json, ind: &Vec<char>, out: &mut Vec<char>)
    ensures
        final(out)@ == old(out)@ + enc_pretty(v@, ind@),
    decreases v,
{
    match v {
        Json::Null => {
            out.push('n');
            out.push('u');
            out.push('l');
            out.push('l');
            proof {
                assert(out@ =~= old(out)@ + enc_pretty(v@, ind@));
            }
        },
        Json::Bool(b) => {
            if *b {
                out.push('t');
                out.push('r');
                out.push('u');
                out.push('e');
            } else {
                out.push('f');
                out.push('a');
                out.push('l');
                out.push('s');
                out.push('e');
            }
            proof {
                assert(out@ =~= old(out)@ + enc_pretty(v@, ind@));
            }
        },
        Json::Num(s) => {
            let cs = crate::json::str_chars(s.as_str());
            push_chars(out, &cs);
            proof {
                assert(out@ =~= old(out)@ + enc_pretty(v@, ind@));
            }
        },
        Json::Str(s) => {
            write_string(s.as_str(), out);
        },
        Json::Arr(items) => {
            write_arr_pretty(items, ind, out);
            proof {
                assert(out@ =~= old(out)@ + enc_pretty(v@, ind@));
            }
        },
        Json::Obj(pairs) => {
            write_obj_pretty(pairs, ind, out);
            proof {
                assert(out@ =~= old(out)@ + enc_pretty(v@, ind@));
            }
        },
    }
}

/// Writes a formatted array.
#[verifier::loop_isolation(false)]
#[verifier::rlimit(50)]
fn write_arr_pretty(items: &Vec<Json>, ind: &Vec<char>, out: &mut Vec<char>)
    ensures
        final(out)@ == old(out)@ + (if crate::json::jvals_of(items@).len() == 0 {
            seq!['[', ']']
        } else {
            seq!['['] + enc_plist(crate::json::jvals_of(items@), ind@ + indent_step())
                + seq!['\n'] + ind@ + seq![']']
        }),
    decreases items,
{
    proof {
        crate::json::lemma_jvals_of(items@);
    }
    let ghost iv = crate::json::jvals_of(items@);
    if items.len() == 0 {
        out.push('[');
        out.push(']');
        proof {
            assert(out@ =~= old(out)@ + seq!['[', ']']);
        }
        return ;
    }
    let mut child: Vec<char> = Vec::new();
    push_chars(&mut child, ind);
    child.push(' ');
    child.push(' ');
    proof {
        assert(child@ =~= ind@ + indent_step());
    }
    out.push('[');
    let mut i: usize = 0;
    while i < items.len()
        invariant
            0 <= i <= items@.len(),
            child@ == ind@ + indent_step(),
            out@ == old(out)@ + seq!['['] + enc_plist(iv.take(i as int), child@),
        decreases items@.len() - i,
    {
        if i > 0 {
            out.push(',');
        }
        out.push('\n');
        push_chars(out, &child);
        write_json_pretty(&items[i], &child, out);
        proof {
            assert(iv[i as int] == items@[i as int]@);
            assert(iv.take(i + 1) =~= iv.take(i as int).push(iv[i as int]));
            lemma_enc_plist_snoc(iv.take(i as int), iv[i as int], child@);
            assert(out@ =~= old(out)@ + seq!['['] + enc_plist(iv.take(i + 1), child@));
        }
        i += 1;
    }
    out.push('\n');
    push_chars(out, ind);
    out.push(']');
    proof {
        assert(iv.take(iv.len() as int) =~= iv);
        assert(out@ =~= old(out)@ + (seq!['['] + enc_plist(iv, ind@ + indent_step()) + seq!['\n']
            + ind@ + seq![']']));
    }
}

/// Writes a formatted object.
#[verifier::loop_isolation(false)]
#[verifier::rlimit(50)]
fn write_obj_pretty(pairs: &Vec<(String, Json)>, ind: &Vec<char>, out: &mut Vec<char>)
    ensures
        final(out)@ == old(out)@ + (if crate::json::jpairs_of(pairs@).len() == 0 {
            seq!['{', '}']
        } else {
            seq!['{'] + enc_pmembers(crate::json::jpairs_of(pairs@), ind@ + indent_step())
                + seq!['\n'] + ind@ + seq!['}']
        }),
    decreases pairs,
{
    proof {
        crate::json::lemma_jpairs_of(pairs@);
    }
    let ghost pv = crate::json::jpairs_of(pairs@);
    if pairs.len() == 0 {
        out.push('{');
        out.push('}');
        proof {
            assert(out@ =~= old(out)@ + seq!['{', '}']);
        }
        return ;
    }
    let mut child: Vec<char> = Vec::new();
    push_chars(&mut child, ind);
    child.push(' ');
    child.push(' ');
    proof {
        assert(child@ =~= ind@ + indent_step());
    }
    out.push('{');
    let mut i: usize = 0;
    while i < pairs.len()
        invariant
            0 <= i <= pairs@.len(),
            child@ == ind@ + indent_step(),
            out@ == old(out)@ + seq!['{'] + enc_pmembers(pv.take(i as int), child@),
        decreases pairs@.len() - i,
    {
        if i > 0 {
            out.push(',');
        }
        out.push('\n');
        push_chars(out, &child);
        write_string(pairs[i].0.as_str(), out);
        out.push(':');
        out.push(' ');
        proof {
            assert(decreases_to!(*pairs => (*pairs)[i as int]));
        }
        write_json_pretty(&pairs[i].1, &child, out);
        proof {
            assert(pv[i as int] == (pairs@[i as int].0@, pairs@[i as int].1@));
            assert(pv.take(i + 1) =~= pv.take(i as int).push(pv[i as int]));
            lemma_enc_pmembers_snoc(pv.take(i as int), pv[i as int], child@);
            assert(out@ =~= old(out)@ + seq!['{'] + enc_pmembers(pv.take(i + 1), child@));
        }
        i += 1;
    }
    out.push('\n');
    push_chars(out, ind);
    out.push('}');
    proof {
        assert(pv.take(pv.len() as int) =~= pv);
        assert(out@ =~= old(out)@ + (seq!['{'] + enc_pmembers(pv, ind@ + indent_step())
            + seq!['\n'] + ind@ + seq!['}']));
    }
}

impl Json {
    /// The human-formatted text of this value.
    pub fn to_text_pretty(&self) -> (r: String)
        ensures
            r@ == enc_pretty(self@, Seq::empty()),
    {
        let ind: Vec<char> = Vec::new();
        let mut out: Vec<char> = Vec::new();
        write_json_pretty(self, &ind, &mut out);
        proof {
            assert(ind@ =~= Seq::<char>::empty());
        }
        crate::json::chars_to_string(&out)
    }
}

} // verus!
