//! Handling of the backend's streamed responses: buffering raw chunks into
//! complete lines, recognising server-sent-event data lines, and digging the
//! partial result text out of a half-received tool-call argument string.

use vstd::prelude::*;
use vstd::string::StrSliceExecFns;

verus! {

use crate::strutil::push_char;
use crate::strutil::str_to_chars;
use crate::strutil::str_eq;
use crate::strutil::find_sub;
use crate::strutil::spec_contains;

/// Whether the text holds a newline.
pub open spec fn spec_has_newline(s: Seq<char>) -> bool {
    exists|j: int| 0 <= j < s.len() && s[j] == '\n'
}

/// The lines joined back together, a newline after each.
pub open spec fn spec_join_terminated(parts: Seq<Seq<char>>) -> Seq<char>
    decreases parts.len(),
{
    if parts.len() == 0 {
        Seq::<char>::empty()
    } else {
        parts[0].push('\n') + spec_join_terminated(parts.drop_first())
    }
}

/// Joining distributes over appending one more line.
proof fn lemma_join_push(parts: Seq<Seq<char>>, p: Seq<char>)
    ensures
        spec_join_terminated(parts.push(p)) == spec_join_terminated(parts) + p.push('\n'),
    decreases parts.len(),
{
    let ps = parts.push(p);
    if parts.len() == 0 {
        assert(ps.len() == 1);
        assert(ps[0] == p);
        assert(ps.drop_first() =~= Seq::<Seq<char>>::empty());
        assert(spec_join_terminated(ps) == p.push('\n') + spec_join_terminated(
            Seq::<Seq<char>>::empty(),
        ));
        assert(p.push('\n') + Seq::<char>::empty() =~= p.push('\n'));
        assert(spec_join_terminated(parts) + p.push('\n') =~= p.push('\n'));
    } else {
        assert(ps[0] == parts[0]);
        assert(ps.drop_first() =~= parts.drop_first().push(p));
        lemma_join_push(parts.drop_first(), p);
        assert(spec_join_terminated(ps) == parts[0].push('\n') + (spec_join_terminated(
            parts.drop_first(),
        ) + p.push('\n')));
        assert(parts[0].push('\n') + (spec_join_terminated(parts.drop_first()) + p.push('\n'))
            =~= (parts[0].push('\n') + spec_join_terminated(parts.drop_first())) + p.push('\n'));
    }
}

/// Buffers a stream of raw chunks and hands out only complete lines; the
/// trailing text of a chunk that ends mid-line waits for the next chunk.
#[derive(Clone, Debug)]
pub struct LineBuffer {
    /// Text received after the last newline so far.
    pub pending: String,
}

impl LineBuffer {
    /// An empty buffer.
    pub fn new() -> (b: LineBuffer)
        ensures
            b.pending@ == Seq::<char>::empty(),
    {
        LineBuffer { pending: String::new() }
    }

    /// Feeds one raw chunk in and returns the complete lines now available,
    /// without their newlines.  Everything buffered and fed in is accounted
    /// for: the returned lines, a newline after each, followed by the new
    /// pending text, spell out exactly the old pending text plus the chunk.
    pub fn push_chunk(&mut self, chunk: &str) -> (lines: Vec<String>)
        ensures
            old(self).pending@ + chunk@ == spec_join_terminated(lines.deep_view())
                + final(self).pending@,
            forall|i: int|
                0 <= i < lines.deep_view().len() ==> !spec_has_newline(
                    #[trigger] lines.deep_view()[i],
                ),
            !spec_has_newline(final(self).pending@),
            chunk@.len() > 0 && chunk@[chunk@.len() - 1] == '\n' ==> final(self).pending@
                == Seq::<char>::empty(),
    {
        let mut text = self.pending.clone();
        text.append(chunk);
        let v = str_to_chars(text.as_str());
        let len = v.len();
        let mut lines: Vec<String> = Vec::new();
        let mut cur = String::new();
        let mut i: usize = 0;
        while i < len
            invariant
                i <= len,
                len == v@.len(),
                v@ == text@,
                spec_join_terminated(lines.deep_view()) + cur@ == text@.subrange(0, i as int),
                forall|k: int|
                    0 <= k < lines.deep_view().len() ==> !spec_has_newline(
                        #[trigger] lines.deep_view()[k],
                    ),
                !spec_has_newline(cur@),
                cur@.len() <= i,
                cur@ == text@.subrange(i - cur@.len(), i as int),
            decreases len - i,
        {
            let c = v[i];
            let ghost old_cur = cur@;
            if c == '\n' {
                proof {
                    lemma_join_push(lines.deep_view(), cur@);
                }
                let ghost old_lines = lines.deep_view();
                lines.push(cur);
                proof {
                    let jl = spec_join_terminated(old_lines);
                    assert(lines.deep_view() =~= old_lines.push(old_cur));
                    assert(old_cur.push('\n') =~= old_cur + seq!['\n']);
                    assert(jl + (old_cur + seq!['\n']) =~= (jl + old_cur) + seq!['\n']);
                    assert(text@.subrange(0, i as int) + seq![text@[i as int]] =~= text@.subrange(
                        0,
                        i + 1,
                    ));
                    assert(text@[i as int] == '\n');
                    assert(spec_join_terminated(lines.deep_view()) == text@.subrange(0, i + 1));
                }
                cur = String::new();
                proof {
                    assert(cur@ =~= text@.subrange(i + 1 - 0, i + 1));
                }
            } else {
                push_char(&mut cur, c);
                proof {
                    let jl = spec_join_terminated(lines.deep_view());
                    assert(cur@ == old_cur.push(c));
                    assert(old_cur.push(c) =~= old_cur + seq![c]);
                    assert(jl + (old_cur + seq![c]) =~= (jl + old_cur) + seq![c]);
                    assert(text@.subrange(0, i as int) + seq![text@[i as int]] =~= text@.subrange(
                        0,
                        i + 1,
                    ));
                    assert(jl + cur@ == text@.subrange(0, i + 1));
                    assert(cur@ =~= text@.subrange(i + 1 - cur@.len(), i + 1));
                }
            }
            i += 1;
        }
        proof {
            assert(text@.subrange(0, len as int) =~= text@);
            assert(text@ == old(self).pending@ + chunk@);
            if chunk@.len() > 0 && chunk@[chunk@.len() - 1] == '\n' {
                // The text ends in a newline; a non-empty remainder would
                // have to end in that newline, which it cannot hold.
                if cur@.len() > 0 {
                    assert(cur@[cur@.len() - 1] == text@[len - 1]);
                    assert(text@[len - 1] == '\n');
                    assert(spec_has_newline(cur@));
                }
                assert(cur@ =~= Seq::<char>::empty());
            }
        }
        self.pending = cur;
        lines
    }
}

/// The payload of a server-sent-event data line: what follows the
/// `data: ` prefix.
pub fn sse_data(line: &str) -> (r: Option<String>)
    ensures
        match r {
            Some(d) => line@.len() >= 6 && line@.subrange(0, 6) == "data: "@ && d@ == line@.skip(
                6,
            ),
            None => line@.len() < 6 || line@.subrange(0, 6) != "data: "@,
        },
{
    let len = line.unicode_len();
    proof {
        reveal_strlit("data: ");
    }
    if len < 6 {
        return None;
    }
    let ok = line.get_char(0) == 'd' && line.get_char(1) == 'a' && line.get_char(2) == 't'
        && line.get_char(3) == 'a' && line.get_char(4) == ':' && line.get_char(5) == ' ';
    if !ok {
        proof {
            let sub = line@.subrange(0, 6);
            let lit = "data: "@;
            if sub == lit {
                assert(sub[0] == 'd' && sub[1] == 'a' && sub[2] == 't' && sub[3] == 'a' && sub[4]
                    == ':' && sub[5] == ' ');
                assert(line@[0] == 'd' && line@[1] == 'a' && line@[2] == 't' && line@[3] == 'a'
                    && line@[4] == ':' && line@[5] == ' ');
            }
        }
        return None;
    }
    proof {
        assert(line@.subrange(0, 6) =~= "data: "@);
    }
    let rest = line.substring_char(6, len);
    proof {
        assert(rest@ =~= line@.skip(6));
    }
    Some(rest.to_owned())
}

/// Whether a data payload is the stream's end marker.
pub fn sse_is_done(data: &str) -> (r: bool)
    ensures
        r == (data@ == "[DONE]"@),
{
    str_eq(data, "[DONE]")
}

/// The JSON field that carries the result text for a given tool name.
pub fn field_for_tool(tool_name: &str) -> (f: String)
    ensures
        tool_name@ == "provide_translation"@ ==> f@ == "translated_text"@,
        tool_name@ == "provide_corrected_text"@ ==> f@ == "corrected_text"@,
        tool_name@ == "provide_improved_text"@ ==> f@ == "improved_text"@,
        tool_name@ != "provide_translation"@ && tool_name@ != "provide_corrected_text"@
            && tool_name@ != "provide_improved_text"@ ==> f@ == "translated_text"@,
{
    proof {
        reveal_strlit("provide_translation");
        reveal_strlit("provide_corrected_text");
        reveal_strlit("provide_improved_text");
    }
    proof {
        assert("provide_translation"@.len() == 19);
        assert("provide_corrected_text"@.len() == 22);
        assert("provide_improved_text"@.len() == 21);
    }
    if str_eq(tool_name, "provide_corrected_text") {
        "corrected_text".to_owned()
    } else if str_eq(tool_name, "provide_improved_text") {
        "improved_text".to_owned()
    } else {
        "translated_text".to_owned()
    }
}

/// What one escape sequence in a JSON-style string stands for; an unknown
/// escape is kept verbatim, backslash included.
pub open spec fn spec_escape_char(c: char) -> Seq<char> {
    if c == 'n' {
        seq!['\n']
    } else if c == 't' {
        seq!['\t']
    } else if c == 'r' {
        seq!['\r']
    } else if c == '"' {
        seq!['"']
    } else if c == '\\' {
        seq!['\\']
    } else {
        seq!['\\', c]
    }
}

/// The text read out of a JSON-style string body, up to its closing quote:
/// escape pairs are decoded, and a dangling backslash at the end of the
/// half-received text contributes nothing.
pub open spec fn spec_unescaped(s: Seq<char>) -> Seq<char>
    decreases s.len(),
{
    if s.len() == 0 {
        Seq::<char>::empty()
    } else if s[0] == '"' {
        Seq::<char>::empty()
    } else if s[0] == '\\' {
        if s.len() == 1 {
            Seq::<char>::empty()
        } else {
            spec_escape_char(s[1]) + spec_unescaped(s.skip(2))
        }
    } else {
        seq![s[0]] + spec_unescaped(s.skip(1))
    }
}

/// The text the extractor searches for: `"<field>":"`.
pub open spec fn spec_field_pattern(field: Seq<char>) -> Seq<char> {
    seq!['"'] + field + seq!['"', ':', '"']
}

/// Digs the value of `"<field_name>":"..."` out of a possibly truncated
/// JSON text: the characters after the first occurrence of the pattern,
/// unescaped, up to the closing quote or the end of the text.  `None` when
/// the pattern does not occur or the value read is empty.
pub fn extract_partial_text(json: &str, field_name: &str) -> (r: Option<String>)
    ensures
        ({
            let pat = spec_field_pattern(field_name@);
            match r {
                Some(res) => exists|i: int|
                    {
                        &&& 0 <= i <= json@.len() - pat.len()
                        &&& #[trigger] json@.subrange(i, i + pat.len()) == pat
                        &&& (forall|k: int|
                            0 <= k < i ==> #[trigger] json@.subrange(k, k + pat.len()) != pat)
                        &&& res@ == spec_unescaped(json@.skip(i + pat.len()))
                        &&& res@.len() > 0
                    },
                None => {
                    ||| !spec_contains(json@, pat)
                    ||| exists|i: int|
                        {
                            &&& 0 <= i <= json@.len() - pat.len()
                            &&& #[trigger] json@.subrange(i, i + pat.len()) == pat
                            &&& (forall|k: int|
                                0 <= k < i ==> #[trigger] json@.subrange(k, k + pat.len()) != pat)
                            &&& spec_unescaped(json@.skip(i + pat.len())).len() == 0
                        }
                },
            }
        }),
{
    // Build the pattern "<quote><field><quote>:<quote>".
    let mut pattern = String::new();
    push_char(&mut pattern, '"');
    pattern.append(field_name);
    push_char(&mut pattern, '"');
    push_char(&mut pattern, ':');
    push_char(&mut pattern, '"');
    proof {
        assert(pattern@ =~= spec_field_pattern(field_name@));
    }
    let start_idx = match find_sub(json, pattern.as_str()) {
        Some(i) => i,
        None => {
            return None;
        },
    };
    let v = str_to_chars(json);
    let len = v.len();
    let plen = pattern.as_str().unicode_len();
    let start = start_idx + plen;
    let ghost tail = json@.skip(start as int);
    let mut result = String::new();
    let mut p: usize = start;
    let mut done = false;
    while p < len && !done
        invariant
            start <= p <= len,
            len == v@.len(),
            v@ == json@,
            tail == json@.skip(start as int),
            spec_unescaped(tail) == result@ + spec_unescaped(v@.skip(p as int)),
            done ==> spec_unescaped(v@.skip(p as int)) == Seq::<char>::empty(),
        decreases len - p, (if done { 0int } else { 1int }),
    {
        let ghost rest = v@.skip(p as int);
        proof {
            assert(rest[0] == v@[p as int]);
            assert(rest.skip(1) =~= v@.skip(p + 1));
            if rest.len() >= 2 {
                assert(rest[1] == v@[p + 1]);
                assert(rest.skip(2) =~= v@.skip(p + 2));
            }
        }
        let c = v[p];
        if c == '"' {
            done = true;
        } else if c == '\\' {
            if p + 1 < len {
                let e = v[p + 1];
                if e == 'n' {
                    push_char(&mut result, '\n');
                } else if e == 't' {
                    push_char(&mut result, '\t');
                } else if e == 'r' {
                    push_char(&mut result, '\r');
                } else if e == '"' {
                    push_char(&mut result, '"');
                } else if e == '\\' {
                    push_char(&mut result, '\\');
                } else {
                    push_char(&mut result, '\\');
                    push_char(&mut result, e);
                }
                proof {
                    assert(result@ + spec_unescaped(v@.skip(p + 2)) =~= spec_unescaped(tail));
                }
                p += 2;
            } else {
                // A dangling backslash at the end of the truncated text.
                done = true;
            }
        } else {
            push_char(&mut result, c);
            proof {
                assert(result@ + spec_unescaped(v@.skip(p + 1)) =~= spec_unescaped(tail));
            }
            p += 1;
        }
    }
    proof {
        if !done {
            assert(v@.skip(p as int) =~= Seq::<char>::empty());
        }
        assert(result@ =~= spec_unescaped(tail));
    }
    if result.as_str().is_empty() {
        None
    } else {
        Some(result)
    }
}

} // verus!
