//! Reading the routing facts out of a request path or URI.
use vstd::prelude::*;
use vstd::string::*;

verus! {

/// True when `pat` occurs in `s` as a contiguous run of characters.
pub open spec fn contains_seq(s: Seq<char>, pat: Seq<char>) -> bool {
    exists|i: int| 0 <= i <= s.len() - pat.len() && #[trigger] s.subrange(i, i + pat.len()) == pat
}

/// Whether `pat` starts at position `i` of `s`.
pub open spec fn occurs_at(s: Seq<char>, pat: Seq<char>, i: int) -> bool {
    0 <= i && i + pat.len() <= s.len() && s.subrange(i, i + pat.len()) == pat
}

/// Start of the segment that ends at position `i`: one past the nearest '/'
/// before `i`, or 0 when there is none.
pub open spec fn segment_start_before(s: Seq<char>, i: int) -> int
    decreases i,
{
    if i <= 0 {
        0
    } else if s[i - 1] == '/' {
        i
    } else {
        segment_start_before(s, i - 1)
    }
}

/// The last '/'-separated segment of `s`.
pub open spec fn last_segment(s: Seq<char>) -> Seq<char> {
    s.subrange(segment_start_before(s, s.len() as int), s.len() as int)
}

/// Position of the first ':' at or after `i`, or the length when there is none.
pub open spec fn colon_from(s: Seq<char>, i: int) -> int
    decreases s.len() - i,
{
    if i >= s.len() {
        s.len() as int
    } else if s[i] == ':' {
        i
    } else {
        colon_from(s, i + 1)
    }
}

/// `s` cut at its first ':' (the whole of `s` when it has none).
pub open spec fn before_colon(s: Seq<char>) -> Seq<char> {
    s.subrange(0, colon_from(s, 0))
}

/// The model named by a native path: its last segment without any `:action` suffix.
pub open spec fn path_model(path: Seq<char>) -> Seq<char> {
    before_colon(last_segment(path))
}

proof fn lemma_segment_start_bounds(s: Seq<char>, i: int)
    requires
        0 <= i <= s.len(),
    ensures
        0 <= segment_start_before(s, i) <= i,
        forall|j: int| segment_start_before(s, i) <= j < i ==> s[j] != '/',
    decreases i,
{
    if i > 0 && s[i - 1] != '/' {
        lemma_segment_start_bounds(s, i - 1);
    }
}

proof fn lemma_colon_from_bounds(s: Seq<char>, i: int)
    requires
        0 <= i <= s.len(),
    ensures
        i <= colon_from(s, i) <= s.len(),
        forall|j: int| i <= j < colon_from(s, i) ==> s[j] != ':',
    decreases s.len() - i,
{
    if i < s.len() && s[i] != ':' {
        lemma_colon_from_bounds(s, i + 1);
    }
}

proof fn lemma_segment_start_at(s: Seq<char>, k: int, i: int)
    requires
        0 < k <= i <= s.len(),
        s[k - 1] == '/',
        forall|j: int| k <= j < i ==> s[j] != '/',
    ensures
        segment_start_before(s, i) == k,
    decreases i,
{
    if i > k {
        lemma_segment_start_at(s, k, i - 1);
    }
}

proof fn lemma_colon_at(s: Seq<char>, i: int, c: int)
    requires
        0 <= i <= c < s.len(),
        s[c] == ':',
        forall|j: int| i <= j < c ==> s[j] != ':',
    ensures
        colon_from(s, i) == c,
    decreases c - i,
{
    if i < c {
        lemma_colon_at(s, i + 1, c);
    }
}

/// A path that ends in `/{id}:{action}` names the model `id`, when `id` holds
/// neither '/' nor ':' and `action` holds no '/'.
pub proof fn lemma_model_before_action(head: Seq<char>, id: Seq<char>, action: Seq<char>)
    requires
        forall|j: int| 0 <= j < id.len() ==> id[j] != '/' && id[j] != ':',
        forall|j: int| 0 <= j < action.len() ==> action[j] != '/',
    ensures
        path_model(head + seq!['/'] + id + seq![':'] + action) == id,
{
    let s = head + seq!['/'] + id + seq![':'] + action;
    let k: int = head.len() as int + 1;
    let c: int = k + id.len();
    assert(s[k - 1] == '/');
    assert(s[c] == ':');
    assert forall|j: int| k <= j < s.len() implies s[j] != '/' by {
        if j < c {
            assert(s[j] == id[j - k]);
        } else if j > c {
            assert(s[j] == action[j - c - 1]);
        }
    }
    lemma_segment_start_at(s, k, s.len() as int);
    let seg = last_segment(s);
    assert(seg =~= id + seq![':'] + action);
    assert forall|j: int| 0 <= j < id.len() implies seg[j] != ':' by {
        assert(seg[j] == id[j]);
    }
    lemma_colon_at(seg, 0, id.len() as int);
    assert(before_colon(seg) =~= id);
}

/// Whether `pat` occurs in `s`.
pub fn contains_str(s: &str, pat: &str) -> (r: bool)
    ensures
        r == contains_seq(s@, pat@),
{
    let n = s.unicode_len();
    let m = pat.unicode_len();
    if m > n {
        assert forall|i: int| 0 <= i <= s@.len() - pat@.len() implies #[trigger] s@.subrange(
            i,
            i + pat@.len(),
        ) != pat@ by {}
        return false;
    }
    let mut i: usize = 0;
    while i <= n - m
        invariant
            n == s@.len(),
            m == pat@.len(),
            m <= n,
            i <= n - m + 1,
            forall|k: int| 0 <= k < i ==> !occurs_at(s@, pat@, k),
        decreases n - m + 1 - i,
    {
        let mut j: usize = 0;
        let mut matched = true;
        while j < m
            invariant
                n == s@.len(),
                m == pat@.len(),
                i + m <= n,
                j <= m,
                matched == (forall|k: int| 0 <= k < j ==> s@[i + k] == pat@[k]),
            decreases m - j,
        {
            if s.get_char(i + j) != pat.get_char(j) {
                matched = false;
            }
            j = j + 1;
        }
        if matched {
            assert(s@.subrange(i as int, i + m) =~= pat@);
            return true;
        }
        assert(!occurs_at(s@, pat@, i as int)) by {
            if s@.subrange(i as int, i + m) == pat@ {
                assert forall|k: int| 0 <= k < m implies s@[i + k] == pat@[k] by {
                    assert(s@.subrange(i as int, i + m)[k] == s@[i + k]);
                }
            }
        }
        i = i + 1;
    }
    assert forall|k: int| 0 <= k <= s@.len() - pat@.len() implies #[trigger] s@.subrange(
        k,
        k + pat@.len(),
    ) != pat@ by {
        assert(!occurs_at(s@, pat@, k));
    }
    false
}

/// The model that a native path names: the text after its last '/', up to
/// the first ':' of that segment.
pub fn model_from_path(path: &str) -> (r: String)
    ensures
        r@ == path_model(path@),
{
    let n = path.unicode_len();
    let mut start: usize = n;
    while start > 0 && path.get_char(start - 1) != '/'
        invariant
            n == path@.len(),
            start <= n,
            segment_start_before(path@, start as int) == segment_start_before(path@, n as int),
        decreases start,
    {
        start = start - 1;
    }
    proof {
        lemma_segment_start_bounds(path@, n as int);
    }
    let ghost seg = last_segment(path@);
    assert(seg =~= path@.subrange(start as int, n as int));
    let mut end: usize = start;
    while end < n && path.get_char(end) != ':'
        invariant
            n == path@.len(),
            start <= end <= n,
            colon_from(seg, (end - start) as int) == colon_from(seg, 0),
            seg =~= path@.subrange(start as int, n as int),
        decreases n - end,
    {
        end = end + 1;
    }
    let r = path.substring_char(start, end).to_owned();
    assert(r@ =~= before_colon(seg));
    r
}

} // verus!
