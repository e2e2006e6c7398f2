//! Character-level text utilities: Unicode whitespace trimming and the removal
//! of the markdown fence that language models often wrap around JSON replies.
use vstd::prelude::*;

verus! {

/// The Unicode `White_Space` property, the notion of whitespace that
/// `str::trim` uses.
pub open spec fn is_white_space(c: char) -> bool {
    let u: u32 = c as u32;
    ||| 0x09 <= u <= 0x0d
    ||| u == 0x20
    ||| u == 0x85
    ||| u == 0xa0
    ||| u == 0x1680
    ||| 0x2000 <= u <= 0x200a
    ||| u == 0x2028
    ||| u == 0x2029
    ||| u == 0x202f
    ||| u == 0x205f
    ||| u == 0x3000
}

/// `s` without its leading whitespace.
pub open spec fn trim_start_spec(s: Seq<char>) -> Seq<char>
    decreases s.len(),
{
    if s.len() > 0 && is_white_space(s[0]) {
        trim_start_spec(s.drop_first())
    } else {
        s
    }
}

/// `s` without its trailing whitespace.
pub open spec fn trim_end_spec(s: Seq<char>) -> Seq<char>
    decreases s.len(),
{
    if s.len() > 0 && is_white_space(s.last()) {
        trim_end_spec(s.drop_last())
    } else {
        s
    }
}

/// `s` without leading and trailing whitespace.
pub open spec fn trim_spec(s: Seq<char>) -> Seq<char> {
    trim_end_spec(trim_start_spec(s))
}

/// Whether `c` is Unicode whitespace.
pub fn is_whitespace(c: char) -> (b: bool)
    ensures
        b == is_white_space(c),
{
    let u: u32 = c as u32;
    (0x09 <= u && u <= 0x0d) || u == 0x20 || u == 0x85 || u == 0xa0 || u == 0x1680 || (0x2000 <= u
        && u <= 0x200a) || u == 0x2028 || u == 0x2029 || u == 0x202f || u == 0x205f || u == 0x3000
}

/// Removes leading and trailing whitespace, as `str::trim` does.
pub fn trim(s: &str) -> (r: &str)
    ensures
        r@ == trim_spec(s@),
{
    let n: usize = s.unicode_len();
    let mut i: usize = 0;
    assert(s@.subrange(0, n as int) =~= s@);
    loop
        invariant
            n == s@.len(),
            i <= n,
            trim_start_spec(s@) == trim_start_spec(s@.subrange(i as int, n as int)),
        ensures
            i <= n,
            trim_start_spec(s@) == s@.subrange(i as int, n as int),
        decreases n - i,
    {
        if i == n {
            break;
        }
        if !is_whitespace(s.get_char(i)) {
            break;
        }
        assert(s@.subrange(i as int, n as int).drop_first() =~= s@.subrange(i + 1, n as int));
        i = i + 1;
    }
    let mut j: usize = n;
    loop
        invariant
            n == s@.len(),
            i <= j <= n,
            trim_spec(s@) == trim_end_spec(s@.subrange(i as int, j as int)),
        ensures
            i <= j <= n,
            trim_spec(s@) == s@.subrange(i as int, j as int),
        decreases j - i,
    {
        if j == i {
            break;
        }
        if !is_whitespace(s.get_char(j - 1)) {
            break;
        }
        assert(s@.subrange(i as int, j as int).drop_last() =~= s@.subrange(i as int, j - 1));
        j = j - 1;
    }
    s.substring_char(i, j)
}

/// `s` with the prefix `p` removed, if `s` starts with `p`.
pub open spec fn strip_prefix_spec(s: Seq<char>, p: Seq<char>) -> Option<Seq<char>> {
    if p.len() <= s.len() && s.take(p.len() as int) == p {
        Some(s.skip(p.len() as int))
    } else {
        None
    }
}

/// `s` with the suffix `p` removed, if `s` ends with `p`.
pub open spec fn strip_suffix_spec(s: Seq<char>, p: Seq<char>) -> Option<Seq<char>> {
    if p.len() <= s.len() && s.skip(s.len() - p.len()) == p {
        Some(s.take(s.len() - p.len()))
    } else {
        None
    }
}

/// The line that opens a markdown code block of JSON.
pub open spec fn json_fence_open() -> Seq<char> {
    seq!['`', '`', '`', 'j', 's', 'o', 'n']
}

/// The line that closes a markdown code block.
pub open spec fn fence_close() -> Seq<char> {
    seq!['`', '`', '`']
}

/// The inside of the JSON code block that `s` is, or `s` itself when `s` does
/// not both start with the opening and end with the closing fence.
pub open spec fn unfenced_spec(s: Seq<char>) -> Seq<char> {
    match strip_prefix_spec(s, json_fence_open()) {
        Some(rest) => match strip_suffix_spec(rest, fence_close()) {
            Some(inner) => inner,
            None => s,
        },
        None => s,
    }
}

/// The JSON text that a model reply carries: the reply without its code
/// fence, if it has one, and without surrounding whitespace.
pub open spec fn json_payload_spec(s: Seq<char>) -> Seq<char> {
    trim_spec(unfenced_spec(s))
}

fn opens_json_fence(s: &str) -> (b: bool)
    requires
        s@.len() >= 7,
    ensures
        b == (s@.take(7) == json_fence_open()),
{
    let b = s.get_char(0) == '`' && s.get_char(1) == '`' && s.get_char(2) == '`' && s.get_char(3)
        == 'j' && s.get_char(4) == 's' && s.get_char(5) == 'o' && s.get_char(6) == 'n';
    if b {
        assert(s@.take(7) =~= json_fence_open());
    } else {
        assert(s@.take(7) != json_fence_open()) by {
            if s@.take(7) == json_fence_open() {
                assert(s@.take(7)[0] == json_fence_open()[0]);
                assert(s@.take(7)[1] == json_fence_open()[1]);
                assert(s@.take(7)[2] == json_fence_open()[2]);
                assert(s@.take(7)[3] == json_fence_open()[3]);
                assert(s@.take(7)[4] == json_fence_open()[4]);
                assert(s@.take(7)[5] == json_fence_open()[5]);
                assert(s@.take(7)[6] == json_fence_open()[6]);
            }
        }
    }
    b
}

fn closes_fence(s: &str, n: usize) -> (b: bool)
    requires
        n == s@.len(),
        n >= 3,
    ensures
        b == (s@.skip(n - 3) == fence_close()),
{
    let b = s.get_char(n - 3) == '`' && s.get_char(n - 2) == '`' && s.get_char(n - 1) == '`';
    if b {
        assert(s@.skip(n - 3) =~= fence_close());
    } else {
        assert(s@.skip(n - 3) != fence_close()) by {
            if s@.skip(n - 3) == fence_close() {
                assert(s@.skip(n - 3)[0] == fence_close()[0]);
                assert(s@.skip(n - 3)[1] == fence_close()[1]);
                assert(s@.skip(n - 3)[2] == fence_close()[2]);
            }
        }
    }
    b
}

/// Removes the markdown code fence around a JSON reply: when `s` starts with
/// "```json" and what follows ends with "```", the part in between; else `s`.
pub fn unfenced(s: &str) -> (r: &str)
    ensures
        r@ == unfenced_spec(s@),
{
    let n: usize = s.unicode_len();
    if n >= 7 && opens_json_fence(s) {
        let ghost rest = s@.skip(7);
        if n >= 10 && closes_fence(s, n) {
            assert(rest.skip(rest.len() - 3) =~= s@.skip(n - 3));
            assert(rest.take(rest.len() - 3) =~= s@.subrange(7, n - 3));
            s.substring_char(7, n - 3)
        } else {
            if n >= 10 {
                assert(rest.skip(rest.len() - 3) =~= s@.skip(n - 3));
            }
            s
        }
    } else {
        s
    }
}

/// The JSON text of a model reply: the reply without its code fence, if it
/// has one, trimmed of whitespace.
pub fn json_payload(s: &str) -> (r: &str)
    ensures
        r@ == json_payload_spec(s@),
        s@.len() >= 10 && s@.take(7) == seq!['`', '`', '`', 'j', 's', 'o', 'n'] && s@.skip(
            s@.len() - 3,
        ) == seq!['`', '`', '`'] ==> r@ == trim_spec(s@.subrange(7, s@.len() - 3)),
        !(s@.len() >= 10 && s@.take(7) == seq!['`', '`', '`', 'j', 's', 'o', 'n'] && s@.skip(
            s@.len() - 3,
        ) == seq!['`', '`', '`']) ==> r@ == trim_spec(s@),
{
    proof {
        lemma_payload_of_fenced_reply(s@);
    }
    trim(unfenced(s))
}

/// A reply that starts with "```json" and ends with "```" (the two fences not
/// overlapping) carries the trimmed text strictly between the fences, whatever
/// its length; any other reply carries itself, trimmed.
pub proof fn lemma_payload_of_fenced_reply(s: Seq<char>)
    ensures
        s.len() >= 10 && s.take(7) == seq!['`', '`', '`', 'j', 's', 'o', 'n'] && s.skip(s.len() - 3)
            == seq!['`', '`', '`'] ==> json_payload_spec(s) == trim_spec(s.subrange(7, s.len() - 3)),
        !(s.len() >= 10 && s.take(7) == seq!['`', '`', '`', 'j', 's', 'o', 'n'] && s.skip(s.len()
            - 3) == seq!['`', '`', '`']) ==> json_payload_spec(s) == trim_spec(s),
{
    let open = seq!['`', '`', '`', 'j', 's', 'o', 'n'];
    let close = seq!['`', '`', '`'];
    assert(json_fence_open() =~= open);
    assert(fence_close() =~= close);
    if s.len() >= 7 && s.take(7) == open {
        let rest = s.skip(7);
        if s.len() >= 10 {
            assert(rest.skip(rest.len() - 3) =~= s.skip(s.len() - 3));
            assert(rest.take(rest.len() - 3) =~= s.subrange(7, s.len() - 3));
        }
    }
}

/// Wrapping any text `j` in the JSON fences gives a reply that carries `j`,
/// trimmed.
pub proof fn lemma_payload_of_wrapped(j: Seq<char>)
    ensures
        json_payload_spec(seq!['`', '`', '`', 'j', 's', 'o', 'n'] + j + seq!['`', '`', '`'])
            == trim_spec(j),
{
    let s = seq!['`', '`', '`', 'j', 's', 'o', 'n'] + j + seq!['`', '`', '`'];
    assert(s.take(7) =~= seq!['`', '`', '`', 'j', 's', 'o', 'n']);
    assert(s.skip(s.len() - 3) =~= seq!['`', '`', '`']);
    assert(s.subrange(7, s.len() - 3) =~= j);
    lemma_payload_of_fenced_reply(s);
}

proof fn lemma_trim_start_bound(s: Seq<char>) -> (i: int)
    ensures
        0 <= i <= s.len(),
        trim_start_spec(s) == s.skip(i),
        forall|k: int| 0 <= k < i ==> is_white_space(#[trigger] s[k]),
        i < s.len() ==> !is_white_space(s[i]),
    decreases s.len(),
{
    if s.len() > 0 && is_white_space(s[0]) {
        let t = s.drop_first();
        let i0 = lemma_trim_start_bound(t);
        assert(t.skip(i0) =~= s.skip(i0 + 1));
        assert forall|k: int| 0 <= k < i0 + 1 implies is_white_space(#[trigger] s[k]) by {
            if k > 0 {
                assert(s[k] == t[k - 1]);
            }
        }
        i0 + 1
    } else {
        assert(s.skip(0) =~= s);
        0
    }
}

proof fn lemma_trim_end_bound(s: Seq<char>) -> (j: int)
    ensures
        0 <= j <= s.len(),
        trim_end_spec(s) == s.take(j),
        forall|k: int| j <= k < s.len() ==> is_white_space(#[trigger] s[k]),
        j > 0 ==> !is_white_space(s[j - 1]),
    decreases s.len(),
{
    if s.len() > 0 && is_white_space(s.last()) {
        let t = s.drop_last();
        let j0 = lemma_trim_end_bound(t);
        assert(t.take(j0) =~= s.take(j0));
        assert forall|k: int| j0 <= k < s.len() implies is_white_space(#[trigger] s[k]) by {
            if k < s.len() - 1 {
                assert(s[k] == t[k]);
            }
        }
        j0
    } else {
        assert(s.take(s.len() as int) =~= s);
        s.len() as int
    }
}

/// Trimming keeps a contiguous part of the text and removes only whitespace:
/// the result is `s[i..j]`, everything before `i` and from `j` on is
/// whitespace, and a non-empty result starts and ends with non-whitespace.
pub proof fn lemma_trim_bounds(s: Seq<char>) -> (b: (int, int))
    ensures
        0 <= b.0 <= b.1 <= s.len(),
        trim_spec(s) == s.subrange(b.0, b.1),
        forall|k: int| 0 <= k < b.0 ==> is_white_space(#[trigger] s[k]),
        forall|k: int| b.1 <= k < s.len() ==> is_white_space(#[trigger] s[k]),
        b.0 < b.1 ==> !is_white_space(s[b.0]) && !is_white_space(s[b.1 - 1]),
{
    let i = lemma_trim_start_bound(s);
    let t = s.skip(i);
    let j = lemma_trim_end_bound(t);
    assert(t.take(j) =~= s.subrange(i, i + j));
    assert forall|k: int| i + j <= k < s.len() implies is_white_space(#[trigger] s[k]) by {
        if k >= i {
            assert(s[k] == t[k - i]);
        }
    }
    if j > 0 {
        assert(s[i] == t[0]);
        assert(s[i + j - 1] == t[j - 1]);
        if j == t.len() && i < s.len() {
            assert(!is_white_space(s[i]));
        }
    }
    (i, i + j)
}

} // verus!
