//! Framing text for rollout lines: the JSON string escapes, written and read
//! back by verified code, with the round trip proved.
use vstd::prelude::*;
use vstd::string::StrSliceExecFns;

verus! {

/// How one character is written inside a framed string: the quote, the
/// backslash and the three common control characters get two-character
/// escapes; everything else stands for itself.
pub open spec fn escape_char(c: char) -> Seq<char> {
    if c == '"' {
        seq!['\\', '"']
    } else if c == '\\' {
        seq!['\\', '\\']
    } else if c == '\n' {
        seq!['\\', 'n']
    } else if c == '\r' {
        seq!['\\', 'r']
    } else if c == '\t' {
        seq!['\\', 't']
    } else {
        seq![c]
    }
}

/// A whole string, escaped character by character.
pub open spec fn escaped(s: Seq<char>) -> Seq<char>
    decreases s.len(),
{
    if s.len() == 0 {
        Seq::<char>::empty()
    } else {
        escape_char(s[0]) + escaped(s.drop_first())
    }
}

/// The character an escape code stands for.
pub open spec fn unescape_code(c: char) -> Option<char> {
    if c == '"' {
        Some('"')
    } else if c == '\\' {
        Some('\\')
    } else if c == 'n' {
        Some('\n')
    } else if c == 'r' {
        Some('\r')
    } else if c == 't' {
        Some('\t')
    } else {
        None
    }
}

/// Read a framed string back: a backslash must carry a known code, and a
/// raw quote cannot appear (it would end the frame).
pub open spec fn unescaped(s: Seq<char>) -> Option<Seq<char>>
    decreases s.len(),
{
    if s.len() == 0 {
        Some(Seq::<char>::empty())
    } else if s[0] == '\\' {
        if s.len() == 1 {
            None
        } else {
            match unescape_code(s[1]) {
                Some(c) => match unescaped(s.skip(2)) {
                    Some(rest) => Some(seq![c] + rest),
                    None => None,
                },
                None => None,
            }
        }
    } else if s[0] == '"' {
        None
    } else {
        match unescaped(s.drop_first()) {
            Some(rest) => Some(seq![s[0]] + rest),
            None => None,
        }
    }
}

/// Escaping distributes over concatenation.
pub proof fn lemma_escaped_add(a: Seq<char>, b: Seq<char>)
    ensures
        escaped(a + b) == escaped(a) + escaped(b),
    decreases a.len(),
{
    if a.len() == 0 {
        assert(a + b =~= b);
        assert(escaped(a) + escaped(b) =~= escaped(b));
    } else {
        lemma_escaped_add(a.drop_first(), b);
        assert((a + b).drop_first() =~= a.drop_first() + b);
        assert((a + b)[0] == a[0]);
        assert(escape_char(a[0]) + (escaped(a.drop_first()) + escaped(b)) =~= (escape_char(a[0])
            + escaped(a.drop_first())) + escaped(b));
    }
}

/// Whatever was escaped reads back as itself: the round trip is exact.
pub proof fn lemma_escape_round_trip(s: Seq<char>)
    ensures
        unescaped(escaped(s)) == Some(s),
    decreases s.len(),
{
    if s.len() == 0 {
    } else {
        lemma_escape_round_trip(s.drop_first());
        let c = s[0];
        let e = escaped(s);
        assert(e == escape_char(c) + escaped(s.drop_first()));
        if c == '"' || c == '\\' || c == '\n' || c == '\r' || c == '\t' {
            assert(escape_char(c).len() == 2);
            assert(e[0] == '\\');
            assert(e[1] == escape_char(c)[1]);
            assert(unescape_code(escape_char(c)[1]) == Some(c));
            assert(e.skip(2) =~= escaped(s.drop_first()));
            assert(seq![c] + s.drop_first() =~= s);
        } else {
            assert(escape_char(c) =~= seq![c]);
            assert(e[0] == c);
            assert(e.drop_first() =~= escaped(s.drop_first()));
            assert(seq![c] + s.drop_first() =~= s);
        }
    }
}

/// Relies on String::push: appends exactly one character.
#[verifier::external_body]
fn push_char(s: &mut String, c: char)
    ensures
        final(s)@ == old(s)@.push(c),
{
    s.push(c);
}

/// Write a string with the rollout frame's escapes.
pub fn escape_json_fragment(s: &str) -> (r: String)
    ensures
        r@ == escaped(s@),
{
    let n = s.unicode_len();
    let mut out = String::new();
    for i in 0..n
        invariant
            n == s@.len(),
            out@ == escaped(s@.take(i as int)),
    {
        let c = s.get_char(i);
        proof {
            lemma_escaped_add(s@.take(i as int), seq![s@[i as int]]);
            assert(s@.take(i + 1) =~= s@.take(i as int) + seq![s@[i as int]]);
            assert(seq![s@[i as int]].drop_first() =~= Seq::<char>::empty());
            assert(escaped(Seq::<char>::empty()) =~= Seq::<char>::empty());
            assert(escaped(seq![s@[i as int]]) =~= escape_char(s@[i as int]) + escaped(
                Seq::<char>::empty(),
            ));
            assert(escaped(seq![s@[i as int]]) =~= escape_char(s@[i as int]));
        }
        if c == '"' {
            push_char(&mut out, '\\');
            push_char(&mut out, '"');
        } else if c == '\\' {
            push_char(&mut out, '\\');
            push_char(&mut out, '\\');
        } else if c == '\n' {
            push_char(&mut out, '\\');
            push_char(&mut out, 'n');
        } else if c == '\r' {
            push_char(&mut out, '\\');
            push_char(&mut out, 'r');
        } else if c == '\t' {
            push_char(&mut out, '\\');
            push_char(&mut out, 't');
        } else {
            push_char(&mut out, c);
        }
        proof {
            assert(out@ =~= escaped(s@.take(i as int)) + escape_char(s@[i as int]));
        }
    }
    proof {
        assert(s@.take(n as int) =~= s@);
    }
    out
}

/// Read a framed string back; `None` when the text is not a valid frame.
pub fn unescape_json_fragment(s: &str) -> (r: Option<String>)
    ensures
        (match r {
            Some(out) => unescaped(s@) == Some(out@),
            None => unescaped(s@) is None,
        }),
{
    let n = s.unicode_len();
    let mut out = String::new();
    let mut i: usize = 0;
    proof {
        assert(s@.skip(0) =~= s@);
        match unescaped(s@) {
            Some(rest) => {
                assert(Seq::<char>::empty() + rest =~= rest);
            },
            None => {},
        }
    }
    while i < n
        invariant
            n == s@.len(),
            i <= n,
            (match unescaped(s@.skip(i as int)) {
                Some(rest) => unescaped(s@) == Some(out@ + rest),
                None => unescaped(s@) is None,
            }),
        decreases n - i,
    {
        let c = s.get_char(i);
        proof {
            assert(s@.skip(i as int)[0] == s@[i as int]);
        }
        if c == '\\' {
            if i + 1 == n {
                proof {
                    assert(s@.skip(i as int).len() == 1);
                }
                return None;
            }
            let code = s.get_char(i + 1);
            proof {
                assert(s@.skip(i as int)[1] == s@[i + 1]);
                assert(s@.skip(i as int).skip(2) =~= s@.skip(i + 2));
            }
            let decoded = if code == '"' {
                Some('"')
            } else if code == '\\' {
                Some('\\')
            } else if code == 'n' {
                Some('\n')
            } else if code == 'r' {
                Some('\r')
            } else if code == 't' {
                Some('\t')
            } else {
                None
            };
            match decoded {
                Some(d) => {
                    let ghost pre_out = out@;
                    let ghost sk = s@.skip(i as int);
                    push_char(&mut out, d);
                    proof {
                        assert(unescape_code(sk[1]) == Some(d));
                        match unescaped(s@.skip(i + 2)) {
                            Some(rest2) => {
                                assert(unescaped(sk) == Some(seq![d] + rest2));
                                assert(pre_out + (seq![d] + rest2) =~= out@ + rest2);
                            },
                            None => {
                                assert(unescaped(sk) is None);
                            },
                        }
                    }
                    i = i + 2;
                },
                None => {
                    proof {
                        assert(unescape_code(s@.skip(i as int)[1]) is None);
                        assert(unescaped(s@.skip(i as int)) is None);
                    }
                    return None;
                },
            }
        } else if c == '"' {
            proof {
                assert(unescaped(s@.skip(i as int)) is None);
            }
            return None;
        } else {
            let ghost pre_out = out@;
            let ghost sk = s@.skip(i as int);
            push_char(&mut out, c);
            proof {
                assert(sk.drop_first() =~= s@.skip(i + 1));
                match unescaped(s@.skip(i + 1)) {
                    Some(rest2) => {
                        assert(unescaped(sk) == Some(seq![sk[0]] + rest2));
                        assert(pre_out + (seq![sk[0]] + rest2) =~= out@ + rest2);
                    },
                    None => {
                        assert(unescaped(sk) is None);
                    },
                }
            }
            i = i + 1;
        }
    }
    proof {
        assert(s@.skip(n as int).len() == 0);
        assert(out@ + Seq::<char>::empty() =~= out@);
    }
    Some(out)
}

} // verus!
