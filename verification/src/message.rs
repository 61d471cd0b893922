//! Commit-message sanitization.
//!
//! A message collected through an editor buffer is used only after
//! tidying: surrounding whitespace is trimmed, every line that starts with
//! the comment marker `#` is dropped (the line break it ends with
//! included), and a message that is blank after that is rejected.  The
//! engine treats a rejected message as a validation failure.
//!
//! Everything here works on bytes; the marker and the line break are ASCII,
//! so multi-byte characters pass through untouched and a valid UTF-8 buffer
//! stays valid.

use vstd::prelude::*;

verus! {

/// Line feed.
pub const NL_BYTE: u8 = 10;

/// The comment marker: lines starting with it are dropped.
pub const COMMENT_BYTE: u8 = 35;

/// ASCII whitespace: space, tab, line feed, carriage return.
pub open spec fn is_ws(b: u8) -> bool {
    b == 32 || b == 9 || b == 10 || b == 13
}

/// Number of leading whitespace bytes.
pub open spec fn leading_ws(s: Seq<u8>) -> int
    decreases s.len(),
{
    if s.len() == 0 || !is_ws(s[0]) {
        0
    } else {
        1 + leading_ws(s.drop_first())
    }
}

/// Number of trailing whitespace bytes.
pub open spec fn trailing_ws(s: Seq<u8>) -> int
    decreases s.len(),
{
    if s.len() == 0 || !is_ws(s.last()) {
        0
    } else {
        1 + trailing_ws(s.drop_last())
    }
}

/// The bytes with leading and trailing whitespace removed.
pub open spec fn trimmed(s: Seq<u8>) -> Seq<u8> {
    if leading_ws(s) == s.len() {
        Seq::empty()
    } else {
        s.subrange(leading_ws(s), s.len() - trailing_ws(s))
    }
}

/// Nothing here but whitespace.
pub open spec fn is_blank(s: Seq<u8>) -> bool {
    forall|j: int| 0 <= j < s.len() ==> is_ws(s[j])
}

/// Index just past the first line: past its line feed, or the end when no
/// line feed remains.
pub open spec fn first_line_end(s: Seq<u8>) -> int
    decreases s.len(),
{
    if s.len() == 0 {
        0
    } else if s[0] == NL_BYTE {
        1
    } else {
        1 + first_line_end(s.drop_first())
    }
}

/// Where the first line ends: within the bytes, and past at least the first
/// byte when there is one.
pub proof fn lemma_fle_range(s: Seq<u8>)
    ensures
        0 <= first_line_end(s) <= s.len(),
        s.len() > 0 ==> first_line_end(s) >= 1,
    decreases s.len(),
{
    if s.len() > 0 && s[0] != NL_BYTE {
        lemma_fle_range(s.drop_first());
    }
}

#[via_fn]
proof fn strip_comments_decreases(s: Seq<u8>) {
    if s.len() > 0 {
        lemma_fle_range(s);
    }
}

/// The bytes with every line that starts with the comment marker dropped,
/// its line break included; every other line is kept whole.
pub open spec fn strip_comments(s: Seq<u8>) -> Seq<u8>
    decreases s.len(),
        via strip_comments_decreases
{
    if s.len() == 0 {
        s
    } else {
        let e = first_line_end(s);
        let rest = s.subrange(e, s.len() as int);
        if s[0] == COMMENT_BYTE {
            strip_comments(rest)
        } else {
            s.subrange(0, e) + strip_comments(rest)
        }
    }
}

/// The sanitized message: trim, drop comment lines, and reject what is
/// blank after that.
pub open spec fn sanitized_message(raw: Seq<u8>) -> Option<Seq<u8>> {
    let kept = strip_comments(trimmed(raw));
    if is_blank(kept) {
        None
    } else {
        Some(kept)
    }
}

// --- how the scans of the executable code meet the definitions ---

/// A scan that saw whitespace up to the first non-whitespace byte found the
/// leading run.
proof fn lemma_leading_at(s: Seq<u8>, i: int)
    requires
        0 <= i < s.len(),
        forall|j: int| 0 <= j < i ==> is_ws(s[j]),
        !is_ws(s[i]),
    ensures
        leading_ws(s) == i,
    decreases i,
{
    if i > 0 {
        lemma_leading_at(s.drop_first(), i - 1);
    }
}

/// All whitespace: the leading run is everything.
proof fn lemma_leading_all(s: Seq<u8>)
    requires
        is_blank(s),
    ensures
        leading_ws(s) == s.len(),
    decreases s.len(),
{
    if s.len() > 0 {
        lemma_leading_all(s.drop_first());
    }
}

/// A backwards scan that saw whitespace down to the last non-whitespace
/// byte found the trailing run.
proof fn lemma_trailing_at(s: Seq<u8>, e: int)
    requires
        0 < e <= s.len(),
        forall|j: int| e <= j < s.len() ==> is_ws(s[j]),
        !is_ws(s[e - 1]),
    ensures
        trailing_ws(s) == s.len() - e,
    decreases s.len(),
{
    if e < s.len() {
        lemma_trailing_at(s.drop_last(), e);
    }
}

/// A scan that found the first line feed found the end of the first line.
proof fn lemma_fle_at(s: Seq<u8>, j: int)
    requires
        0 <= j < s.len(),
        s[j] == NL_BYTE,
        forall|k: int| 0 <= k < j ==> s[k] != NL_BYTE,
    ensures
        first_line_end(s) == j + 1,
    decreases j,
{
    if j > 0 {
        lemma_fle_at(s.drop_first(), j - 1);
    }
}

/// No line feed at all: the first line is everything.
proof fn lemma_fle_none(s: Seq<u8>)
    requires
        forall|k: int| 0 <= k < s.len() ==> s[k] != NL_BYTE,
    ensures
        first_line_end(s) == s.len(),
    decreases s.len(),
{
    if s.len() > 0 {
        lemma_fle_none(s.drop_first());
    }
}

/// Is this byte ASCII whitespace?
fn byte_is_ws(b: u8) -> (r: bool)
    ensures
        r == is_ws(b),
{
    b == 32 || b == 9 || b == 10 || b == 13
}

/// Sanitize an editor buffer into a usable commit message: trim surrounding
/// whitespace, drop every line that starts with the comment marker, and
/// reject (with `None`) a message that is blank after that.
pub fn sanitize_commit_message(raw: &Vec<u8>) -> (r: Option<Vec<u8>>)
    ensures
        match r {
            Some(v) => sanitized_message(raw@) == Some(v@),
            None => sanitized_message(raw@) is None,
        },
{
    // trim: scan the leading and trailing whitespace runs
    let n = raw.len();
    let mut start: usize = 0;
    while start < n && byte_is_ws(raw[start])
        invariant
            n == raw@.len(),
            start <= n,
            forall|j: int| 0 <= j < start ==> is_ws(raw@[j]),
        decreases n - start,
    {
        start += 1;
    }
    if start == n {
        // nothing but whitespace: trimming leaves nothing, so nothing is kept
        proof {
            lemma_leading_all(raw@);
            assert(trimmed(raw@) =~= Seq::<u8>::empty());
        }
        return None;
    }
    let mut end: usize = n;
    while end > start && byte_is_ws(raw[end - 1])
        invariant
            n == raw@.len(),
            start <= end <= n,
            start < n,
            !is_ws(raw@[start as int]),
            forall|j: int| end <= j < n ==> is_ws(raw@[j]),
        decreases end,
    {
        end -= 1;
    }
    let ghost t = raw@.subrange(start as int, end as int);
    proof {
        lemma_leading_at(raw@, start as int);
        assert(end > start);
        lemma_trailing_at(raw@, end as int);
        assert(t == trimmed(raw@));
    }
    // walk the trimmed bytes line by line, copying the lines that are kept
    let mut out: Vec<u8> = Vec::new();
    let mut i: usize = start;
    while i < end
        invariant
            n == raw@.len(),
            start <= i <= end,
            end <= n,
            t == raw@.subrange(start as int, end as int),
            strip_comments(t) == out@ + strip_comments(
                raw@.subrange(i as int, end as int),
            ),
        decreases end - i,
    {
        let ghost u = raw@.subrange(i as int, end as int);
        // find the end of this line: just past its line feed, or `end`
        let mut j = i;
        while j < end && raw[j] != NL_BYTE
            invariant
                n == raw@.len(),
                i <= j <= end,
                end <= n,
                forall|k: int| i <= k < j ==> raw@[k] != NL_BYTE,
            decreases end - j,
        {
            j += 1;
        }
        let e = if j < end {
            j + 1
        } else {
            j
        };
        proof {
            if j < end {
                lemma_fle_at(u, j - i);
            } else {
                lemma_fle_none(u);
            }
            assert(first_line_end(u) == e - i);
            assert(u.subrange(e - i, u.len() as int) =~= raw@.subrange(e as int, end as int));
        }
        if raw[i] == COMMENT_BYTE {
            // a comment line: dropped whole
            proof {
                assert(strip_comments(u) == strip_comments(raw@.subrange(e as int, end as int)));
            }
            i = e;
        } else {
            // a kept line: copied whole
            let ghost out0 = out@;
            let mut k = i;
            while k < e
                invariant
                    n == raw@.len(),
                    i <= k <= e,
                    e <= end <= n,
                    out@ == out0 + raw@.subrange(i as int, k as int),
                decreases e - k,
            {
                let b = raw[k];
                out.push(b);
                proof {
                    assert(out@ =~= out0 + raw@.subrange(i as int, k as int + 1));
                }
                k += 1;
            }
            proof {
                assert(u.subrange(0, e - i) =~= raw@.subrange(i as int, e as int));
                assert(strip_comments(u) == u.subrange(0, e - i) + strip_comments(
                    raw@.subrange(e as int, end as int),
                ));
                assert(out0 + raw@.subrange(i as int, e as int) + strip_comments(
                    raw@.subrange(e as int, end as int),
                ) =~= out0 + (raw@.subrange(i as int, e as int) + strip_comments(
                    raw@.subrange(e as int, end as int),
                )));
            }
            i = e;
        }
    }
    proof {
        assert(raw@.subrange(end as int, end as int) =~= Seq::<u8>::empty());
        assert(strip_comments(t) =~= out@);
    }
    // reject a message that is blank once the comment lines are gone
    let mut k: usize = 0;
    while k < out.len()
        invariant
            k <= out@.len(),
            out@ == strip_comments(trimmed(raw@)),
            forall|j: int| 0 <= j < k ==> is_ws(out@[j]),
        decreases out@.len() - k,
    {
        if !byte_is_ws(out[k]) {
            assert(!is_blank(out@));
            return Some(out);
        }
        k += 1;
    }
    None
}

} // verus!
