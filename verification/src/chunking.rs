//! Token estimation and paragraph-based chunking of long texts, used to keep
//! each request to the translation backend under a token budget.

use vstd::prelude::*;
use vstd::string::StringSliceAdditionalSpecFns;

verus! {

/// Rough token count of a text: one token per four bytes, rounded up.
pub open spec fn spec_estimate_tokens(bytes: Seq<u8>) -> nat {
    (bytes.len() + 3) / 4
}

/// Estimates how many tokens a text costs: its byte length divided by four,
/// rounded up.
pub fn estimate_tokens(text: &str) -> (r: usize)
    ensures
        r == spec_estimate_tokens(text.spec_bytes()),
{
    broadcast use vstd::slice::axiom_spec_len;

    let len = text.as_bytes().len();
    let q = len / 4;
    let m = len % 4;
    proof {
        vstd::arithmetic::div_mod::lemma_fundamental_div_mod(len as int, 4);
        if m == 0 {
            vstd::arithmetic::div_mod::lemma_fundamental_div_mod_converse(
                len as int + 3,
                4,
                q as int,
                3,
            );
        } else {
            vstd::arithmetic::div_mod::lemma_fundamental_div_mod_converse(
                len as int + 3,
                4,
                q as int + 1,
                m as int - 1,
            );
        }
    }
    if m == 0 {
        q
    } else {
        q + 1
    }
}

/// Token cost of a character sequence, by its UTF-8 byte length.
pub open spec fn spec_token_cost(s: Seq<char>) -> nat {
    spec_estimate_tokens(vstd::utf8::encode_utf8(s))
}

/// The paragraph separator: a blank line.
pub open spec fn spec_sep() -> Seq<char> {
    seq!['\n', '\n']
}

/// The parts joined back together with the separator between them.
pub open spec fn spec_join_sep(ps: Seq<Seq<char>>) -> Seq<char>
    decreases ps.len(),
{
    if ps.len() == 0 {
        Seq::<char>::empty()
    } else if ps.len() == 1 {
        ps[0]
    } else {
        ps[0] + spec_sep() + spec_join_sep(ps.drop_first())
    }
}

/// Splitting on the separator, scanned left to right: `rest` is the text
/// still to scan, `cur` the part being built, `acc` the parts finished.
pub open spec fn spec_split_acc(rest: Seq<char>, cur: Seq<char>, acc: Seq<Seq<char>>) -> Seq<
    Seq<char>,
>
    decreases rest.len(),
{
    if rest.len() >= 2 && rest[0] == '\n' && rest[1] == '\n' {
        spec_split_acc(rest.skip(2), Seq::<char>::empty(), acc.push(cur))
    } else if rest.len() == 0 {
        acc.push(cur)
    } else {
        spec_split_acc(rest.skip(1), cur.push(rest[0]), acc)
    }
}

/// The text split on blank lines; always at least one part.
pub open spec fn spec_split(s: Seq<char>) -> Seq<Seq<char>> {
    spec_split_acc(s, Seq::<char>::empty(), Seq::<Seq<char>>::empty())
}

/// Joining a parts list whose last part was split in two at a separator
/// gives the same text as joining it with the two halves glued together.
proof fn lemma_join_sep_split(ps: Seq<Seq<char>>, a: Seq<char>, b: Seq<char>)
    ensures
        spec_join_sep(ps.push(a).push(b)) == spec_join_sep(ps.push(a + spec_sep() + b)),
    decreases ps.len(),
{
    if ps.len() == 0 {
        let two = ps.push(a).push(b);
        assert(two.len() == 2);
        assert(two[0] == a && two[1] == b);
        assert(two.drop_first() =~= Seq::<Seq<char>>::empty().push(b));
        assert(two.drop_first().len() == 1 && two.drop_first()[0] == b);
        assert(spec_join_sep(two.drop_first()) == b);
        assert(spec_join_sep(two) == a + spec_sep() + b);
        assert(ps.push(a + spec_sep() + b)[0] == a + spec_sep() + b);
    } else {
        let l = ps.push(a).push(b);
        let r = ps.push(a + spec_sep() + b);
        assert(l[0] == ps[0] && r[0] == ps[0]);
        assert(l.len() >= 2);
        assert(l.drop_first() =~= ps.drop_first().push(a).push(b));
        assert(r.drop_first() =~= ps.drop_first().push(a + spec_sep() + b));
        lemma_join_sep_split(ps.drop_first(), a, b);
        if ps.len() == 1 {
            assert(r.len() == 2);
        }
    }
}

/// Joining what the split scanner will produce gives back the finished
/// parts, the pending part, and the unscanned text, in order.
proof fn lemma_split_acc_join(rest: Seq<char>, cur: Seq<char>, acc: Seq<Seq<char>>)
    ensures
        spec_join_sep(spec_split_acc(rest, cur, acc)) == spec_join_sep(acc.push(cur + rest)),
    decreases rest.len(),
{
    if rest.len() >= 2 && rest[0] == '\n' && rest[1] == '\n' {
        lemma_split_acc_join(rest.skip(2), Seq::<char>::empty(), acc.push(cur));
        assert(Seq::<char>::empty() + rest.skip(2) =~= rest.skip(2));
        lemma_join_sep_split(acc, cur, rest.skip(2));
        assert(cur + spec_sep() + rest.skip(2) =~= cur + rest);
    } else if rest.len() == 0 {
        assert(cur + rest =~= cur);
    } else {
        lemma_split_acc_join(rest.skip(1), cur.push(rest[0]), acc);
        assert(cur.push(rest[0]) + rest.skip(1) =~= cur + rest);
    }
}

/// Split round-trip law: joining the split parts with blank lines restores
/// the text.
pub proof fn lemma_split_roundtrip(s: Seq<char>)
    ensures
        spec_join_sep(spec_split(s)) == s,
{
    lemma_split_acc_join(s, Seq::<char>::empty(), Seq::<Seq<char>>::empty());
    let one = Seq::<Seq<char>>::empty().push(Seq::<char>::empty() + s);
    assert(one.len() == 1);
    assert(one[0] == Seq::<char>::empty() + s);
    assert(Seq::<char>::empty() + s =~= s);
}

/// Splits the text into its blank-line-separated paragraphs.
pub fn split_paragraphs(text: &str) -> (parts: Vec<String>)
    ensures
        parts.deep_view() == spec_split(text@),
        spec_join_sep(parts.deep_view()) == text@,
{
    let v = crate::strutil::str_to_chars(text);
    let len = v.len();
    let mut parts: Vec<String> = Vec::new();
    let mut cur = String::new();
    let mut i: usize = 0;
    proof {
        assert(text@.skip(0) =~= text@);
        assert(parts.deep_view() =~= Seq::<Seq<char>>::empty());
    }
    while i < len
        invariant
            i <= len,
            len == v@.len(),
            v@ == text@,
            spec_split(text@) == spec_split_acc(text@.skip(i as int), cur@, parts.deep_view()),
        decreases len - i,
    {
        let ghost rest = text@.skip(i as int);
        proof {
            assert(rest[0] == text@[i as int]);
            if rest.len() >= 2 {
                assert(rest[1] == text@[i + 1]);
            }
            assert(rest.skip(1) =~= text@.skip(i + 1));
            if rest.len() >= 2 {
                assert(rest.skip(2) =~= text@.skip(i + 2));
            }
        }
        if i + 1 < len && v[i] == '\n' && v[i + 1] == '\n' {
            let ghost old_parts = parts.deep_view();
            let ghost cur_view = cur@;
            proof {
                assert(spec_split_acc(rest, cur_view, old_parts) == spec_split_acc(
                    rest.skip(2),
                    Seq::<char>::empty(),
                    old_parts.push(cur_view),
                ));
            }
            parts.push(cur);
            proof {
                assert(parts.deep_view() =~= old_parts.push(cur_view));
            }
            cur = String::new();
            i += 2;
        } else {
            proof {
                assert(spec_split_acc(rest, cur@, parts.deep_view()) == spec_split_acc(
                    rest.skip(1),
                    cur@.push(rest[0]),
                    parts.deep_view(),
                ));
            }
            crate::strutil::push_char(&mut cur, v[i]);
            i += 1;
        }
    }
    proof {
        assert(text@.skip(len as int) =~= Seq::<char>::empty());
    }
    let ghost old_parts = parts.deep_view();
    let ghost cur_view = cur@;
    parts.push(cur);
    proof {
        assert(parts.deep_view() =~= old_parts.push(cur_view));
        lemma_split_roundtrip(text@);
    }
    parts
}

/// One greedy packing step's combination: the pending chunk, a blank line,
/// and the next paragraph — or the paragraph alone when nothing is pending.
pub open spec fn spec_combine(cur: Seq<char>, p: Seq<char>) -> Seq<char> {
    if cur.len() == 0 {
        p
    } else {
        cur + spec_sep() + p
    }
}

/// Greedy packing of paragraphs into chunks of at most `max` tokens: each
/// paragraph is appended to the pending chunk unless that would burst the
/// budget, in which case the pending chunk is finished; a paragraph too
/// large on its own becomes a chunk of its own.
pub open spec fn spec_pack(ps: Seq<Seq<char>>, max: nat, cur: Seq<char>, acc: Seq<Seq<char>>)
    -> Seq<Seq<char>>
    decreases ps.len(),
{
    if ps.len() == 0 {
        if cur.len() == 0 {
            acc
        } else {
            acc.push(cur)
        }
    } else {
        let combined = spec_combine(cur, ps[0]);
        if spec_token_cost(combined) > max {
            if cur.len() == 0 {
                spec_pack(ps.drop_first(), max, Seq::<char>::empty(), acc.push(ps[0]))
            } else {
                spec_pack(ps.drop_first(), max, ps[0], acc.push(cur))
            }
        } else {
            spec_pack(ps.drop_first(), max, combined, acc)
        }
    }
}

/// Splits a long text into chunks of at most `max_tokens` tokens along
/// paragraph boundaries.  A text within the budget stays whole; anything
/// longer is split on blank lines and packed greedily.
pub fn chunk_by_paragraphs(text: &str, max_tokens: usize) -> (r: Vec<String>)
    ensures
        spec_estimate_tokens(text.spec_bytes()) <= max_tokens ==> r.deep_view() =~= seq![text@],
        spec_estimate_tokens(text.spec_bytes()) > max_tokens ==> r.deep_view() == spec_pack(
            spec_split(text@),
            max_tokens as nat,
            Seq::<char>::empty(),
            Seq::<Seq<char>>::empty(),
        ),
{
    if estimate_tokens(text) <= max_tokens {
        let mut r: Vec<String> = Vec::new();
        r.push(text.to_owned());
        proof {
            assert(r.deep_view() =~= seq![text@]);
        }
        return r;
    }
    proof {
        reveal_strlit("\n\n");
        assert("\n\n"@ =~= spec_sep());
    }
    let parts = split_paragraphs(text);
    let mut chunks: Vec<String> = Vec::new();
    let mut cur = String::new();
    let mut k: usize = 0;
    proof {
        assert(parts.deep_view().skip(0) =~= parts.deep_view());
        assert(chunks.deep_view() =~= Seq::<Seq<char>>::empty());
    }
    while k < parts.len()
        invariant
            k <= parts@.len(),
            parts.deep_view() == spec_split(text@),
            "\n\n"@ == spec_sep(),
            spec_pack(
                spec_split(text@),
                max_tokens as nat,
                Seq::<char>::empty(),
                Seq::<Seq<char>>::empty(),
            ) == spec_pack(
                parts.deep_view().skip(k as int),
                max_tokens as nat,
                cur@,
                chunks.deep_view(),
            ),
        decreases parts@.len() - k,
    {
        let ghost rem = parts.deep_view().skip(k as int);
        proof {
            assert(rem[0] == parts.deep_view()[k as int]);
            assert(rem.drop_first() =~= parts.deep_view().skip(k + 1));
        }
        let p = &parts[k];
        let combined: String = if cur.as_str().is_empty() {
            p.clone()
        } else {
            let mut c = cur.clone();
            c.append("\n\n");
            c.append(p.as_str());
            c
        };
        proof {
            assert(combined@ == spec_combine(cur@, p@));
        }
        if estimate_tokens(combined.as_str()) > max_tokens {
            if !cur.as_str().is_empty() {
                let ghost old_chunks = chunks.deep_view();
                let ghost old_cur = cur@;
                proof {
                    assert(spec_pack(rem, max_tokens as nat, old_cur, old_chunks) == spec_pack(
                        rem.drop_first(),
                        max_tokens as nat,
                        rem[0],
                        old_chunks.push(old_cur),
                    ));
                }
                chunks.push(cur);
                proof {
                    assert(chunks.deep_view() =~= old_chunks.push(old_cur));
                }
                cur = p.clone();
            } else {
                let ghost old_chunks = chunks.deep_view();
                proof {
                    assert(spec_pack(rem, max_tokens as nat, cur@, old_chunks) == spec_pack(
                        rem.drop_first(),
                        max_tokens as nat,
                        Seq::<char>::empty(),
                        old_chunks.push(rem[0]),
                    ));
                }
                chunks.push(p.clone());
                proof {
                    assert(chunks.deep_view() =~= old_chunks.push(parts.deep_view()[k as int]));
                }
            }
        } else {
            proof {
                assert(spec_pack(rem, max_tokens as nat, cur@, chunks.deep_view()) == spec_pack(
                    rem.drop_first(),
                    max_tokens as nat,
                    combined@,
                    chunks.deep_view(),
                ));
            }
            cur = combined;
        }
        k += 1;
    }
    proof {
        assert(parts.deep_view().skip(parts.deep_view().len() as int) =~= Seq::<
            Seq<char>,
        >::empty());
    }
    if !cur.as_str().is_empty() {
        let ghost old_chunks = chunks.deep_view();
        let ghost old_cur = cur@;
        proof {
            assert(spec_pack(Seq::<Seq<char>>::empty(), max_tokens as nat, old_cur, old_chunks)
                == old_chunks.push(old_cur));
        }
        chunks.push(cur);
        proof {
            assert(chunks.deep_view() =~= old_chunks.push(old_cur));
        }
    } else {
        proof {
            assert(spec_pack(
                Seq::<Seq<char>>::empty(),
                max_tokens as nat,
                cur@,
                chunks.deep_view(),
            ) == chunks.deep_view());
        }
    }
    chunks
}

} // verus!
