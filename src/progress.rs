use vstd::prelude::*;

use crate::job::find_char;
use crate::text::{chars_of, parse_u64, same_text, string_of, trim_text, trimmed, u64_of};

verus! {

/// Position of the first `c` in `s`, or its length.
pub open spec fn first_at(s: Seq<char>, c: char) -> nat
    decreases s.len(),
{
    if s.len() == 0 {
        0
    } else if s[0] == c {
        0
    } else {
        1 + first_at(s.drop_first(), c)
    }
}

/// The lines of `s`, split at each newline (`n` newlines give `n + 1`
/// lines).
pub open spec fn lines(s: Seq<char>) -> Seq<Seq<char>>
    decreases s.len(),
{
    let i = first_at(s, '\n');
    if i >= s.len() {
        seq![s]
    } else {
        seq![s.take(i as int)] + lines(s.skip(i as int + 1))
    }
}

/// The trimmed key and value of a `key=value` line, split at its first `=`.
pub open spec fn pair_of(line: Seq<char>) -> Option<(Seq<char>, Seq<char>)> {
    let i = first_at(line, '=');
    if i < line.len() {
        Some((trimmed(line.take(i as int)), trimmed(line.skip(i as int + 1))))
    } else {
        None
    }
}

/// The value of the last line among `ls` whose key is `key`.
pub open spec fn last_value(ls: Seq<Seq<char>>, key: Seq<char>) -> Option<Seq<char>>
    decreases ls.len(),
{
    if ls.len() == 0 {
        None
    } else {
        match pair_of(ls.last()) {
            Some((k, v)) => if k == key {
                Some(v)
            } else {
                last_value(ls.drop_last(), key)
            },
            None => last_value(ls.drop_last(), key),
        }
    }
}

proof fn lemma_first_at(s: Seq<char>, c: char, k: int)
    requires
        0 <= k <= s.len(),
        forall|j: int| 0 <= j < k ==> s[j] != c,
        k < s.len() ==> s[k] == c,
    ensures
        first_at(s, c) == k,
    decreases k,
{
    if k > 0 {
        assert forall|j: int| 0 <= j < k - 1 implies s.drop_first()[j] != c by {
            assert(s.drop_first()[j] == s[j + 1]);
        }
        lemma_first_at(s.drop_first(), c, k - 1);
    }
}

/// What one record of the transcoder's progress stream reports: the frame
/// count when its `frame` value is an integer, and the text of its `fps`
/// value. Later lines win over earlier ones with the same key.
#[derive(Debug)]
pub struct ProgressReport {
    pub frame: Option<u64>,
    pub fps: Option<String>,
}

/// The key and value of one line, when it has a `=`.
fn split_pair(cs: &Vec<char>, lo: usize, hi: usize) -> (r: Option<(String, String)>)
    requires
        lo <= hi <= cs@.len(),
    ensures
        r matches Some((k, v)) ==> pair_of(cs@.subrange(lo as int, hi as int)) == Some((k@, v@)),
        r is None ==> pair_of(cs@.subrange(lo as int, hi as int)) is None,
{
    let line = string_of(cs, lo, hi);
    let lc = chars_of(line.as_str());
    let i = find_char(&lc, '=', 0);
    proof {
        lemma_first_at(lc@, '=', i as int);
    }
    if i == lc.len() {
        return None;
    }
    let key = string_of(&lc, 0, i);
    let value = string_of(&lc, i + 1, lc.len());
    assert(value@ == lc@.skip(i + 1));
    Some((trim_text(key.as_str()), trim_text(value.as_str())))
}

/// Parses one record of the transcoder's progress stream.
pub fn parse_progress_record(record: &str) -> (r: ProgressReport)
    ensures
        r.frame == (match last_value(lines(record@), "frame"@) {
            Some(v) => u64_of(v),
            None => None,
        }),
        r.fps matches Some(f) ==> last_value(lines(record@), "fps"@) == Some(f@),
        r.fps is None ==> last_value(lines(record@), "fps"@) is None,
{
    let cs = chars_of(record);
    let n = cs.len();
    let mut frame: Option<String> = None;
    let mut fps: Option<String> = None;
    let mut pos: usize = 0;
    let ghost mut done: Seq<Seq<char>> = seq![];
    assert(cs@.skip(0) == cs@);
    assert(done + lines(cs@) == lines(cs@));
    proof {
        reveal_strlit("frame");
        reveal_strlit("fps");
        assert("frame"@ != "fps"@) by {
            assert("frame"@.len() != "fps"@.len());
        }
    }
    loop
        invariant_except_break
            lines(record@) == done + lines(cs@.skip(pos as int)),
        invariant
            pos <= n == cs@.len(),
            cs@ == record@,
            "frame"@ != "fps"@,
            frame matches Some(f) ==> last_value(done, "frame"@) == Some(f@),
            frame is None ==> last_value(done, "frame"@) is None,
            fps matches Some(f) ==> last_value(done, "fps"@) == Some(f@),
            fps is None ==> last_value(done, "fps"@) is None,
        ensures
            lines(record@) == done,
        decreases n - pos,
    {
        let i = find_char(&cs, '\n', pos);
        let ghost rest = cs@.skip(pos as int);
        proof {
            assert forall|j: int| 0 <= j < i - pos implies rest[j] != '\n' by {
                assert(rest[j] == cs@[pos + j]);
            }
            if i < n {
                assert(rest[i - pos] == cs@[i as int]);
            }
            lemma_first_at(rest, '\n', i - pos);
            assert(rest.take(i - pos) == cs@.subrange(pos as int, i as int));
        }
        let pair = split_pair(&cs, pos, i);
        let ghost line = cs@.subrange(pos as int, i as int);
        if let Some((k, v)) = pair {
            if same_text(k.as_str(), "frame") {
                frame = Some(v);
            } else if same_text(k.as_str(), "fps") {
                fps = Some(v);
            }
        }
        proof {
            let d2 = done.push(line);
            assert(d2.drop_last() == done);
            assert(d2.last() == line);
            done = d2;
        }
        if i >= n {
            assert(rest == line);
            assert(lines(record@) == done);
            break;
        }
        proof {
            assert(rest.skip(i - pos + 1) == cs@.skip(i + 1));
            assert(lines(rest) == seq![line] + lines(cs@.skip(i + 1)));
            assert(lines(record@) == done + lines(cs@.skip(i + 1)));
        }
        pos = i + 1;
    }
    let frame_count = match frame {
        Some(f) => parse_u64(f.as_str()),
        None => None,
    };
    ProgressReport { frame: frame_count, fps }
}

} // verus!
