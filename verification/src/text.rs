//! Character-level text helpers: trimming, token splitting and greedy word
//! wrapping, used by the chat-command parser and the message display.

use vstd::prelude::*;
use vstd::string::StrSliceExecFns;
use vstd::string::StringExecFns;

verus! {

broadcast use vstd::string::group_string_axioms;

/// Whitespace, for the purposes of chat-line tokenisation.
pub open spec fn is_space_char(c: char) -> bool {
    c == ' ' || c == '\t' || c == '\r' || c == '\n'
}

fn is_space(c: char) -> (r: bool)
    ensures
        r == is_space_char(c),
{
    c == ' ' || c == '\t' || c == '\r' || c == '\n'
}

/// The sequence with its leading whitespace run removed.
pub open spec fn trim_start_spec(s: Seq<char>) -> Seq<char>
    decreases s.len(),
{
    if s.len() > 0 && is_space_char(s[0]) {
        trim_start_spec(s.drop_first())
    } else {
        s
    }
}

/// The sequence with its trailing whitespace run removed.
pub open spec fn trim_end_spec(s: Seq<char>) -> Seq<char>
    decreases s.len(),
{
    if s.len() > 0 && is_space_char(s[s.len() - 1]) {
        trim_end_spec(s.drop_last())
    } else {
        s
    }
}

/// The sequence with leading and trailing whitespace removed.
pub open spec fn trim_spec(s: Seq<char>) -> Seq<char> {
    trim_end_spec(trim_start_spec(s))
}

/// The maximal whitespace-free prefix of the sequence.
pub open spec fn token_spec(s: Seq<char>) -> Seq<char>
    decreases s.len(),
{
    if s.len() > 0 && !is_space_char(s[0]) {
        seq![s[0]] + token_spec(s.drop_first())
    } else {
        Seq::empty()
    }
}

/// What follows the leading token and the whitespace run after it.
pub open spec fn rest_spec(s: Seq<char>) -> Seq<char> {
    trim_start_spec(s.skip(token_spec(s).len() as int))
}

pub proof fn lemma_token_len(s: Seq<char>)
    ensures
        token_spec(s).len() <= s.len(),
    decreases s.len(),
{
    if s.len() > 0 && !is_space_char(s[0]) {
        lemma_token_len(s.drop_first());
    }
}

proof fn lemma_trim_start_range(s: Seq<char>, i: int)
    requires
        0 <= i <= s.len(),
        forall|k: int| 0 <= k < i ==> is_space_char(s[k]),
        i < s.len() ==> !is_space_char(s[i]),
    ensures
        trim_start_spec(s) == s.subrange(i, s.len() as int),
    decreases i,
{
    if i == 0 {
        assert(trim_start_spec(s) =~= s.subrange(0, s.len() as int));
    } else {
        assert(is_space_char(s[0]));
        let t = s.drop_first();
        assert forall|k: int| 0 <= k < i - 1 implies is_space_char(t[k]) by {
            assert(t[k] == s[k + 1]);
        }
        lemma_trim_start_range(t, i - 1);
        assert(t.subrange(i - 1, t.len() as int) =~= s.subrange(i, s.len() as int));
    }
}

proof fn lemma_trim_end_range(s: Seq<char>, j: int)
    requires
        0 <= j <= s.len(),
        forall|k: int| j <= k < s.len() ==> is_space_char(s[k]),
        j > 0 ==> !is_space_char(s[j - 1]),
    ensures
        trim_end_spec(s) == s.subrange(0, j),
    decreases s.len() - j,
{
    if j == s.len() {
        if s.len() > 0 && is_space_char(s[s.len() - 1]) {
            let t = s.drop_last();
            assert forall|k: int| t.len() <= k < t.len() implies is_space_char(t[k]) by {}
            lemma_trim_end_range(t, j - 1);
            assert(t.subrange(0, j - 1) =~= s.subrange(0, j - 1));
            assert(false);
        } else {
            assert(trim_end_spec(s) =~= s.subrange(0, j));
        }
    } else {
        assert(is_space_char(s[s.len() - 1]));
        let t = s.drop_last();
        assert forall|k: int| j <= k < t.len() implies is_space_char(t[k]) by {
            assert(t[k] == s[k]);
        }
        lemma_trim_end_range(t, j);
        assert(t.subrange(0, j) =~= s.subrange(0, j));
    }
}

proof fn lemma_token_range(s: Seq<char>, i: int)
    requires
        0 <= i <= s.len(),
        forall|k: int| 0 <= k < i ==> !is_space_char(s[k]),
        i < s.len() ==> is_space_char(s[i]),
    ensures
        token_spec(s) == s.subrange(0, i),
    decreases i,
{
    if i == 0 {
        assert(token_spec(s) =~= s.subrange(0, 0));
    } else {
        assert(!is_space_char(s[0]));
        let t = s.drop_first();
        assert forall|k: int| 0 <= k < i - 1 implies !is_space_char(t[k]) by {
            assert(t[k] == s[k + 1]);
        }
        lemma_token_range(t, i - 1);
        assert(seq![s[0]] + t.subrange(0, i - 1) =~= s.subrange(0, i));
    }
}

/// Removes leading and trailing whitespace.
pub fn trim(s: &str) -> (r: &str)
    ensures
        r@ == trim_spec(s@),
{
    let n = s.unicode_len();
    let mut start: usize = 0;
    while start < n && is_space(s.get_char(start))
        invariant
            n == s@.len(),
            0 <= start <= n,
            forall|k: int| 0 <= k < start ==> is_space_char(s@[k]),
        decreases n - start,
    {
        start = start + 1;
    }
    let mut end: usize = n;
    while end > start && is_space(s.get_char(end - 1))
        invariant
            n == s@.len(),
            start <= end <= n,
            forall|k: int| end <= k < n ==> is_space_char(s@[k]),
        decreases end,
    {
        end = end - 1;
    }
    let r = s.substring_char(start, end);
    proof {
        lemma_trim_start_range(s@, start as int);
        let t = s@.subrange(start as int, n as int);
        assert forall|k: int| end - start <= k < t.len() implies is_space_char(t[k]) by {
            assert(t[k] == s@[start + k]);
        }
        lemma_trim_end_range(t, end - start);
        assert(t.subrange(0, end - start) =~= s@.subrange(start as int, end as int));
    }
    r
}

/// Splits off the leading token; the second component is what remains after
/// the whitespace run that follows it.
pub fn split_first(s: &str) -> (r: (&str, &str))
    ensures
        r.0@ == token_spec(s@),
        r.1@ == rest_spec(s@),
{
    let n = s.unicode_len();
    let mut i: usize = 0;
    while i < n && !is_space(s.get_char(i))
        invariant
            n == s@.len(),
            0 <= i <= n,
            forall|k: int| 0 <= k < i ==> !is_space_char(s@[k]),
        decreases n - i,
    {
        i = i + 1;
    }
    let mut j: usize = i;
    while j < n && is_space(s.get_char(j))
        invariant
            n == s@.len(),
            i <= j <= n,
            forall|k: int| i <= k < j ==> is_space_char(s@[k]),
        decreases n - j,
    {
        j = j + 1;
    }
    let tok = s.substring_char(0, i);
    let rest = s.substring_char(j, n);
    proof {
        lemma_token_range(s@, i as int);
        assert(token_spec(s@).len() == i);
        let t = s@.skip(i as int);
        assert forall|k: int| 0 <= k < j - i implies is_space_char(t[k]) by {
            assert(t[k] == s@[i + k]);
        }
        if j - i < t.len() {
            assert(t[j - i] == s@[j as int]);
        }
        lemma_trim_start_range(t, j - i);
        assert(t.subrange(j - i, t.len() as int) =~= s@.subrange(j as int, n as int));
    }
    (tok, rest)
}

/// Character-wise equality of two string slices.
pub fn str_eq(a: &str, b: &str) -> (r: bool)
    ensures
        r == (a@ == b@),
{
    let na = a.unicode_len();
    let nb = b.unicode_len();
    if na != nb {
        return false;
    }
    let mut i: usize = 0;
    while i < na
        invariant
            na == a@.len(),
            na == b@.len(),
            0 <= i <= na,
            forall|k: int| 0 <= k < i ==> a@[k] == b@[k],
        decreases na - i,
    {
        if a.get_char(i) != b.get_char(i) {
            return false;
        }
        i = i + 1;
    }
    proof {
        assert(a@ =~= b@);
    }
    true
}

/// The wrapped text from position `i` on, with `line_len` characters already
/// on the current output line: words are joined by single spaces and a line
/// break is inserted before any word that would push the line past `max_len`.
pub open spec fn wrap_from(s: Seq<char>, i: int, line_len: int, max_len: int) -> Seq<char>
    decreases s.len() - i,
{
    if i < 0 || i >= s.len() {
        Seq::empty()
    } else if is_space_char(s[i]) {
        wrap_from(s, i + 1, line_len, max_len)
    } else {
        let w = token_spec(s.skip(i));
        proof {
            let t = s.skip(i);
            assert(t[0] == s[i]);
            assert(token_spec(t) == seq![t[0]] + token_spec(t.drop_first()));
            lemma_token_len(t);
        }
        let extra: int = if line_len > 0 {
            1
        } else {
            0
        };
        if line_len + w.len() + extra > max_len {
            seq!['\n'] + w + wrap_from(s, i + w.len(), w.len() as int, max_len)
        } else {
            (if line_len > 0 {
                seq![' ']
            } else {
                Seq::<char>::empty()
            }) + w + wrap_from(s, i + w.len(), line_len + extra + w.len(), max_len)
        }
    }
}

/// Greedy word wrap of the whole input.
pub open spec fn wrap_spec(s: Seq<char>, max_len: int) -> Seq<char> {
    wrap_from(s, 0, 0, max_len)
}

/// Re-flows the input so that no line of words joined by single spaces grows
/// past `max_len` characters (a single word longer than `max_len` stands on
/// a line of its own).
pub fn wrap_text(input: &str, max_len: usize) -> (r: String)
    ensures
        r@ == wrap_spec(input@, max_len as int),
{
    let n = input.unicode_len();
    let mut result = String::new();
    let mut line_len: usize = 0;
    let mut i: usize = 0;
    while i < n
        invariant
            n == input@.len(),
            0 <= i <= n,
            wrap_spec(input@, max_len as int) == result@ + wrap_from(
                input@,
                i as int,
                line_len as int,
                max_len as int,
            ),
        decreases n - i,
    {
        if is_space(input.get_char(i)) {
            i = i + 1;
        } else {
            let mut j: usize = i + 1;
            while j < n && !is_space(input.get_char(j))
                invariant
                    n == input@.len(),
                    i < j <= n,
                    forall|k: int| i <= k < j ==> !is_space_char(input@[k]),
                decreases n - j,
            {
                j = j + 1;
            }
            proof {
                let t = input@.skip(i as int);
                assert forall|k: int| 0 <= k < j - i implies !is_space_char(t[k]) by {
                    assert(t[k] == input@[i + k]);
                }
                if j - i < t.len() {
                    assert(t[j - i] == input@[j as int]);
                }
                lemma_token_range(t, j - i);
                assert(t.subrange(0, j - i) =~= input@.subrange(i as int, j as int));
            }
            let wlen = j - i;
            let word = input.substring_char(i, j);
            let brk: bool;
            if wlen > max_len {
                brk = true;
            } else {
                let rem = max_len - wlen;
                if line_len == 0 {
                    brk = false;
                } else {
                    brk = line_len >= rem;
                }
            }
            proof {
                let extra: int = if line_len > 0 {
                    1
                } else {
                    0
                };
                assert(brk == (line_len as int + (j - i) + extra > max_len as int));
                reveal_strlit("\n");
                reveal_strlit(" ");
                assert("\n"@ =~= seq!['\n']);
                assert(" "@ =~= seq![' ']);
            }
            if brk {
                result.append("\n");
                result.append(word);
                line_len = wlen;
            } else {
                if line_len > 0 {
                    result.append(" ");
                    line_len = line_len + 1;
                }
                result.append(word);
                line_len = line_len + wlen;
            }
            i = j;
        }
    }
    result
}

} // verus!
