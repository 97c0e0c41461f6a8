use vstd::prelude::*;
use vstd::string::*;

verus! {

/// The characters with the Unicode `White_Space` property.
pub open spec fn is_unicode_whitespace(c: char) -> bool {
    let u = c as u32;
    ||| 0x9 <= u <= 0xD
    ||| u == 0x20
    ||| u == 0x85
    ||| u == 0xA0
    ||| u == 0x1680
    ||| 0x2000 <= u <= 0x200A
    ||| u == 0x2028
    ||| u == 0x2029
    ||| u == 0x202F
    ||| u == 0x205F
    ||| u == 0x3000
}

/// `s` without its leading white space.
pub open spec fn trim_start(s: Seq<char>) -> Seq<char>
    decreases s.len(),
{
    if s.len() > 0 && is_unicode_whitespace(s[0]) {
        trim_start(s.drop_first())
    } else {
        s
    }
}

/// `s` without its trailing white space.
pub open spec fn trim_end(s: Seq<char>) -> Seq<char>
    decreases s.len(),
{
    if s.len() > 0 && is_unicode_whitespace(s.last()) {
        trim_end(s.drop_last())
    } else {
        s
    }
}

/// `s` without white space at either end.
pub open spec fn trimmed(s: Seq<char>) -> Seq<char> {
    trim_end(trim_start(s))
}

/// The index of the last `' '` in `s`, if there is one.
pub open spec fn last_space_index(s: Seq<char>) -> Option<int>
    decreases s.len(),
{
    if s.len() == 0 {
        None
    } else if s.last() == ' ' {
        Some(s.len() - 1)
    } else {
        last_space_index(s.drop_last())
    }
}

/// A found space lies inside the sequence, and no space follows it; when
/// none is found, the sequence has no space.
pub proof fn lemma_last_space_index_in_bounds(s: Seq<char>)
    ensures
        last_space_index(s) matches Some(i) ==> 0 <= i < s.len() && s[i] == ' ' && forall|j: int|
            i < j < s.len() ==> s[j] != ' ',
        last_space_index(s) is None ==> forall|j: int| 0 <= j < s.len() ==> s[j] != ' ',
    decreases s.len(),
{
    if s.len() > 0 && s.last() != ' ' {
        lemma_last_space_index_in_bounds(s.drop_last());
        assert forall|j: int| 0 <= j < s.len() - 1 implies s[j] == s.drop_last()[j] by {}
    }
}

/// The ellipsis appended to a shortened name.
pub open spec fn ellipsis() -> Seq<char> {
    seq!['.', '.', '.']
}

/// How many characters of a too long prompt a derived name keeps before the
/// ellipsis: `max_len - 3`, so that the ellipsis still fits within `max_len`;
/// when not even the ellipsis fits (`max_len < 3`), `max_len` itself.
pub open spec fn kept_prefix_len(max_len: nat) -> nat {
    if max_len >= 3 {
        (max_len - 3) as nat
    } else {
        max_len
    }
}

/// The name derived from a prompt: the trimmed prompt when it has at most
/// `max_len` characters; otherwise its first `kept_prefix_len(max_len)`
/// characters, cut back to before the last space among them when there is
/// one, followed by `...`.
pub open spec fn name_from_prompt(prompt: Seq<char>, max_len: nat) -> Seq<char> {
    let t = trimmed(prompt);
    if t.len() <= max_len {
        t
    } else {
        let cut = t.take(kept_prefix_len(max_len) as int);
        match last_space_index(cut) {
            Some(i) => cut.take(i) + ellipsis(),
            None => cut + ellipsis(),
        }
    }
}

/// A derived name is the whole trimmed prompt when that has at most
/// `max_len` characters; otherwise it is a prefix of at most
/// `kept_prefix_len(max_len)` characters of the trimmed prompt followed by
/// `...`. So, whenever the
/// ellipsis itself fits (`max_len >= 3`), a derived name never has more than
/// `max_len` characters.
pub proof fn law_derived_name_is_prefix_of_prompt(prompt: Seq<char>, max_len: nat)
    ensures
        ({
            let t = trimmed(prompt);
            let n = name_from_prompt(prompt, max_len);
            ||| t.len() <= max_len && n == t
            ||| t.len() > max_len && exists|k: int|
                0 <= k <= kept_prefix_len(max_len) && n == t.take(k) + ellipsis()
        }),
        max_len >= 3 ==> name_from_prompt(prompt, max_len).len() <= max_len,
{
    let t = trimmed(prompt);
    if t.len() > max_len {
        let keep = kept_prefix_len(max_len) as int;
        let cut = t.take(keep);
        lemma_last_space_index_in_bounds(cut);
        match last_space_index(cut) {
            Some(i) => {
                assert(cut.take(i) =~= t.take(i));
            },
            None => {
                assert(cut =~= t.take(keep));
            },
        }
    }
}

/// How a too long prompt is cut: the name keeps the trimmed prompt's first
/// `k` characters and adds `...`, where `k` is the position of the last
/// space among its first `max_len - 3` characters (`max_len` of them when
/// `max_len < 3`), or all of those characters when they hold no space. A
/// prompt that fits, once trimmed, is the name itself.
pub proof fn law_derived_name_cuts_at_last_space(prompt: Seq<char>, max_len: nat)
    ensures
        ({
            let t = trimmed(prompt);
            let n = name_from_prompt(prompt, max_len);
            let keep: int = if max_len >= 3 {
                max_len - 3
            } else {
                max_len as int
            };
            &&& t.len() <= max_len ==> n == t
            &&& t.len() > max_len ==> exists|k: int|
                #![trigger t.take(k)]
                {
                    &&& 0 <= k <= keep
                    &&& n == t.take(k) + seq!['.', '.', '.']
                    &&& k < keep ==> t[k] == ' ' && forall|j: int| k < j < keep ==> t[j] != ' '
                    &&& k == keep ==> forall|j: int| 0 <= j < keep ==> t[j] != ' '
                }
        }),
{
    let t = trimmed(prompt);
    if t.len() > max_len {
        let keep = kept_prefix_len(max_len) as int;
        let cut = t.take(keep);
        lemma_last_space_index_in_bounds(cut);
        match last_space_index(cut) {
            Some(i) => {
                assert(cut.take(i) =~= t.take(i));
                assert forall|j: int| i < j < keep implies t[j] != ' ' by {
                    assert(cut[j] == t[j]);
                }
                assert(cut[i] == t[i]);
            },
            None => {
                assert(cut =~= t.take(keep));
                assert forall|j: int| 0 <= j < keep implies t[j] != ' ' by {
                    assert(cut[j] == t[j]);
                }
            },
        }
    }
}

/// Trimming removes white space at both ends and nothing else: the trimmed
/// text is a stretch of the original, everything before and after it is
/// white space, and it neither starts nor ends with white space.
pub proof fn law_trimmed_drops_only_outer_white_space(s: Seq<char>)
    ensures
        exists|a: int, b: int|
            #![trigger s.subrange(a, b)]
            {
                &&& 0 <= a <= b <= s.len()
                &&& trimmed(s) == s.subrange(a, b)
                &&& forall|i: int| 0 <= i < a ==> is_unicode_whitespace(#[trigger] s[i])
                &&& forall|i: int| b <= i < s.len() ==> is_unicode_whitespace(#[trigger] s[i])
                &&& a < b ==> !is_unicode_whitespace(s[a]) && !is_unicode_whitespace(s[b - 1])
            },
{
    let a = lemma_trim_start_bounds(s);
    let u = s.subrange(a, s.len() as int);
    let b = lemma_trim_end_bounds(u);
    assert(u.subrange(0, b) =~= s.subrange(a, a + b));
    assert forall|i: int| a + b <= i < s.len() implies is_unicode_whitespace(#[trigger] s[i]) by {
        assert(u[i - a] == s[i]);
    }
    if b > 0 {
        assert(u[0] == s[a]);
        assert(u[b - 1] == s[a + b - 1]);
    }
    assert(trimmed(s) == s.subrange(a, a + b));
}

proof fn lemma_trim_start_bounds(s: Seq<char>) -> (a: int)
    ensures
        0 <= a <= s.len(),
        trim_start(s) == s.subrange(a, s.len() as int),
        forall|i: int| 0 <= i < a ==> is_unicode_whitespace(#[trigger] s[i]),
        a < s.len() ==> !is_unicode_whitespace(s[a]),
    decreases s.len(),
{
    if s.len() > 0 && is_unicode_whitespace(s[0]) {
        let r = s.drop_first();
        let a0 = lemma_trim_start_bounds(r);
        assert(r.subrange(a0, r.len() as int) =~= s.subrange(a0 + 1, s.len() as int));
        assert forall|i: int| 0 <= i < a0 + 1 implies is_unicode_whitespace(#[trigger] s[i]) by {
            if i > 0 {
                assert(s[i] == r[i - 1]);
            }
        }
        if a0 < r.len() {
            assert(s[a0 + 1] == r[a0]);
        }
        a0 + 1
    } else {
        assert(s.subrange(0, s.len() as int) =~= s);
        0
    }
}

proof fn lemma_trim_end_bounds(s: Seq<char>) -> (b: int)
    ensures
        0 <= b <= s.len(),
        trim_end(s) == s.subrange(0, b),
        forall|i: int| b <= i < s.len() ==> is_unicode_whitespace(#[trigger] s[i]),
        b > 0 ==> !is_unicode_whitespace(s[b - 1]),
    decreases s.len(),
{
    if s.len() > 0 && is_unicode_whitespace(s.last()) {
        let r = s.drop_last();
        let b0 = lemma_trim_end_bounds(r);
        assert(r.subrange(0, b0) =~= s.subrange(0, b0));
        assert forall|i: int| b0 <= i < s.len() implies is_unicode_whitespace(#[trigger] s[i]) by {
            if i < r.len() {
                assert(s[i] == r[i]);
            }
        }
        if b0 > 0 {
            assert(s[b0 - 1] == r[b0 - 1]);
        }
        b0
    } else {
        assert(s.subrange(0, s.len() as int) =~= s);
        if s.len() > 0 {
            assert(s[s.len() - 1] == s.last());
        }
        s.len() as int
    }
}

/// Whether `c` is white space in Unicode's sense, as `char::is_whitespace`
/// answers: whether it has the `White_Space` property.
pub(crate) fn char_is_whitespace(c: char) -> (r: bool)
    ensures
        r == is_unicode_whitespace(c),
{
    let u = c as u32;
    (0x9 <= u && u <= 0xD) || u == 0x20 || u == 0x85 || u == 0xA0 || u == 0x1680 || (0x2000 <= u
        && u <= 0x200A) || u == 0x2028 || u == 0x2029 || u == 0x202F || u == 0x205F || u == 0x3000
}

/// The characters of `s`, in order.
pub fn chars_of(s: &str) -> (v: Vec<char>)
    ensures
        v@ == s@,
{
    broadcast use vstd::string::group_string_axioms;

    let mut v: Vec<char> = Vec::new();
    for c in it: s.chars()
        invariant
            v@ == it.seq().take(it.index() as int),
            it.seq() == s@,
    {
        v.push(c);
    }
    assert(v@ =~= s@);
    v
}

/// The bounds `(lo, hi)` of the trimmed part of `cs`.
pub fn trim_bounds(cs: &Vec<char>) -> (r: (usize, usize))
    ensures
        r.0 <= r.1 <= cs@.len(),
        cs@.subrange(r.0 as int, r.1 as int) == trimmed(cs@),
{
    let n = cs.len();
    let mut lo: usize = 0;
    assert(cs@.subrange(0, n as int) =~= cs@);
    loop
        invariant
            n == cs@.len(),
            lo <= n,
            trim_start(cs@) == trim_start(cs@.subrange(lo as int, n as int)),
        ensures
            lo <= n,
            trim_start(cs@) == trim_start(cs@.subrange(lo as int, n as int)),
            lo == n || !is_unicode_whitespace(cs@[lo as int]),
        decreases n - lo,
    {
        if lo == n {
            assert(cs@.subrange(lo as int, n as int).len() == 0);
            break;
        }
        if !char_is_whitespace(cs[lo]) {
            break;
        }
        assert(cs@.subrange(lo as int, n as int).drop_first() =~= cs@.subrange(lo + 1, n as int));
        lo = lo + 1;
    }
    let ghost start = cs@.subrange(lo as int, n as int);
    if lo < n {
        assert(start[0] == cs@[lo as int]);
    }
    assert(trim_start(cs@) == start);
    let mut hi: usize = n;
    loop
        invariant
            n == cs@.len(),
            lo <= hi <= n,
            start == cs@.subrange(lo as int, n as int),
            trim_end(start) == trim_end(cs@.subrange(lo as int, hi as int)),
        ensures
            lo <= hi <= n,
            trim_end(start) == trim_end(cs@.subrange(lo as int, hi as int)),
            hi == lo || !is_unicode_whitespace(cs@[hi - 1]),
        decreases hi - lo,
    {
        if hi == lo {
            assert(cs@.subrange(lo as int, hi as int).len() == 0);
            break;
        }
        if !char_is_whitespace(cs[hi - 1]) {
            break;
        }
        assert(cs@.subrange(lo as int, hi as int).drop_last() =~= cs@.subrange(lo as int, hi - 1));
        hi = hi - 1;
    }
    if hi > lo {
        assert(cs@.subrange(lo as int, hi as int).last() == cs@[hi - 1]);
    }
    (lo, hi)
}

/// The index in `cs` just past the last `' '` in `cs[lo..hi]`, or `lo` when
/// there is none.
pub fn last_space_end(cs: &Vec<char>, lo: usize, hi: usize) -> (j: usize)
    requires
        lo <= hi <= cs@.len(),
    ensures
        lo <= j <= hi,
        match last_space_index(cs@.subrange(lo as int, hi as int)) {
            Some(i) => j == lo + i + 1,
            None => j == lo,
        },
{
    let ghost cut = cs@.subrange(lo as int, hi as int);
    let mut j: usize = hi;
    assert(cut.take(hi - lo) =~= cut);
    loop
        invariant
            lo <= j <= hi <= cs@.len(),
            cut == cs@.subrange(lo as int, hi as int),
            last_space_index(cut) == last_space_index(cut.take(j - lo)),
        decreases j - lo,
    {
        if j == lo {
            assert(cut.take(0).len() == 0);
            return j;
        }
        if cs[j - 1] == ' ' {
            assert(cut.take(j - lo).last() == cs@[j - 1]);
            return j;
        }
        assert(cut.take(j - lo).drop_last() =~= cut.take(j - 1 - lo));
        j = j - 1;
    }
}

} // verus!
