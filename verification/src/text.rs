//! Character-level text helpers: Unicode white space, trimming, exact
//! comparison and decimal rendering of integers.
use vstd::prelude::*;

verus! {

/// The Unicode `White_Space` property: the characters that `str::trim`
/// removes from either end of a string.
pub open spec fn is_white_space(c: char) -> bool {
    let u = c as u32;
    ||| 0x09 <= u <= 0x0D
    ||| u == 0x20
    ||| u == 0x85
    ||| u == 0xA0
    ||| u == 0x1680
    ||| 0x2000 <= u <= 0x200A
    ||| u == 0x2028
    ||| u == 0x2029
    ||| u == 0x202F
    ||| u == 0x205F
    ||| u == 0x3000
}

/// `s` without its leading white space.
pub open spec fn trim_start_seq(s: Seq<char>) -> Seq<char>
    decreases s.len(),
{
    if s.len() > 0 && is_white_space(s[0]) {
        trim_start_seq(s.drop_first())
    } else {
        s
    }
}

/// `s` without its trailing white space.
pub open spec fn trim_end_seq(s: Seq<char>) -> Seq<char>
    decreases s.len(),
{
    if s.len() > 0 && is_white_space(s.last()) {
        trim_end_seq(s.drop_last())
    } else {
        s
    }
}

/// `s` without white space at either end.
pub open spec fn trim_seq(s: Seq<char>) -> Seq<char> {
    trim_end_seq(trim_start_seq(s))
}

/// Whether `c` has the Unicode `White_Space` property.
pub fn is_whitespace(c: char) -> (r: bool)
    ensures
        r == is_white_space(c),
{
    let u = c as u32;
    (0x09 <= u && u <= 0x0D) || u == 0x20 || u == 0x85 || u == 0xA0 || u == 0x1680 || (0x2000
        <= u && u <= 0x200A) || u == 0x2028 || u == 0x2029 || u == 0x202F || u == 0x205F || u
        == 0x3000
}

/// Dropping a prefix made only of white space does not change what
/// trimming the start gives.
pub proof fn lemma_trim_start_skip(s: Seq<char>, i: int)
    requires
        0 <= i <= s.len(),
        forall|k: int| 0 <= k < i ==> is_white_space(#[trigger] s[k]),
    ensures
        trim_start_seq(s) == trim_start_seq(s.subrange(i, s.len() as int)),
    decreases i,
{
    if i > 0 {
        assert(s.drop_first() =~= s.subrange(1, s.len() as int));
        let t = s.drop_first();
        assert forall|k: int| 0 <= k < i - 1 implies is_white_space(#[trigger] t[k]) by {
            assert(t[k] == s[k + 1]);
        }
        lemma_trim_start_skip(t, i - 1);
        assert(t.subrange(i - 1, t.len() as int) =~= s.subrange(i, s.len() as int));
    } else {
        assert(s.subrange(0, s.len() as int) =~= s);
    }
}

/// Dropping a suffix made only of white space does not change what
/// trimming the end gives.
pub proof fn lemma_trim_end_skip(s: Seq<char>, j: int)
    requires
        0 <= j <= s.len(),
        forall|k: int| j <= k < s.len() ==> is_white_space(#[trigger] s[k]),
    ensures
        trim_end_seq(s) == trim_end_seq(s.subrange(0, j)),
    decreases s.len() - j,
{
    if j < s.len() {
        let t = s.drop_last();
        assert(t =~= s.subrange(0, s.len() - 1));
        assert forall|k: int| j <= k < t.len() implies is_white_space(#[trigger] t[k]) by {
            assert(t[k] == s[k]);
        }
        lemma_trim_end_skip(t, j);
        assert(t.subrange(0, j) =~= s.subrange(0, j));
    } else {
        assert(s.subrange(0, j) =~= s);
    }
}

/// Trimming is the subrange between the first and the last character that is
/// not white space.
pub proof fn lemma_trim_is_subrange(s: Seq<char>, i: int, j: int)
    requires
        0 <= i <= j <= s.len(),
        forall|k: int| 0 <= k < i ==> is_white_space(#[trigger] s[k]),
        forall|k: int| j <= k < s.len() ==> is_white_space(#[trigger] s[k]),
        i < j ==> !is_white_space(s[i]),
        i < j ==> !is_white_space(s[j - 1]),
        i == j ==> j == s.len(),
    ensures
        trim_seq(s) == s.subrange(i, j),
{
    lemma_trim_start_skip(s, i);
    let t = s.subrange(i, s.len() as int);
    if i < j {
        assert(t[0] == s[i]);
        assert(trim_start_seq(t) == t);
        let jj = j - i;
        assert forall|k: int| jj <= k < t.len() implies is_white_space(#[trigger] t[k]) by {
            assert(t[k] == s[k + i]);
        }
        lemma_trim_end_skip(t, jj);
        let u = t.subrange(0, jj);
        assert(u =~= s.subrange(i, j));
        assert(u.last() == s[j - 1]);
    } else {
        assert(t.len() == 0);
        assert(trim_start_seq(t) == t);
        assert(t =~= s.subrange(i, j));
    }
}

/// Trimming twice is the same as trimming once.
pub proof fn lemma_trim_idempotent(s: Seq<char>)
    ensures
        trim_seq(trim_seq(s)) == trim_seq(s),
{
    lemma_trim_bounds(s);
    let (i, j) = trim_bounds(s);
    let t = s.subrange(i, j);
    if i < j {
        assert(t[0] == s[i]);
        assert(t[t.len() - 1] == s[j - 1]);
        lemma_trim_is_subrange(t, 0, t.len() as int);
        assert(t.subrange(0, t.len() as int) =~= t);
    } else {
        assert(t.len() == 0);
        lemma_trim_is_subrange(t, 0, 0);
        assert(t.subrange(0, 0) =~= t);
    }
}

/// The first index that is not white space, and one past the last such index
/// (both equal to the length when every character is white space).
pub open spec fn trim_bounds(s: Seq<char>) -> (int, int) {
    let i = first_non_space(s, 0);
    let j = if i == s.len() {
        s.len() as int
    } else {
        last_non_space_end(s, s.len() as int)
    };
    (i, j)
}

/// The first index at or after `from` whose character is not white space.
pub open spec fn first_non_space(s: Seq<char>, from: int) -> int
    decreases s.len() - from,
{
    if from < 0 || from >= s.len() {
        s.len() as int
    } else if is_white_space(s[from]) {
        first_non_space(s, from + 1)
    } else {
        from
    }
}

/// One past the last index before `to` whose character is not white space.
pub open spec fn last_non_space_end(s: Seq<char>, to: int) -> int
    decreases to,
{
    if to <= 0 || to > s.len() {
        0
    } else if is_white_space(s[to - 1]) {
        last_non_space_end(s, to - 1)
    } else {
        to
    }
}

proof fn lemma_first_non_space(s: Seq<char>, from: int)
    requires
        0 <= from <= s.len(),
    ensures
        from <= first_non_space(s, from) <= s.len(),
        forall|k: int| from <= k < first_non_space(s, from) ==> is_white_space(#[trigger] s[k]),
        first_non_space(s, from) < s.len() ==> !is_white_space(s[first_non_space(s, from)]),
    decreases s.len() - from,
{
    if from < s.len() && is_white_space(s[from]) {
        lemma_first_non_space(s, from + 1);
    }
}

proof fn lemma_last_non_space(s: Seq<char>, to: int, floor: int)
    requires
        0 <= floor < to <= s.len(),
        !is_white_space(s[floor]),
    ensures
        floor < last_non_space_end(s, to) <= to,
        forall|k: int| last_non_space_end(s, to) <= k < to ==> is_white_space(#[trigger] s[k]),
        !is_white_space(s[last_non_space_end(s, to) - 1]),
    decreases to,
{
    if is_white_space(s[to - 1]) {
        lemma_last_non_space(s, to - 1, floor);
    }
}

/// What `trim_bounds` gives satisfies the premises of
/// `lemma_trim_is_subrange`.
pub proof fn lemma_trim_bounds(s: Seq<char>)
    ensures
        ({
            let (i, j) = trim_bounds(s);
            &&& 0 <= i <= j <= s.len()
            &&& forall|k: int| 0 <= k < i ==> is_white_space(#[trigger] s[k])
            &&& forall|k: int| j <= k < s.len() ==> is_white_space(#[trigger] s[k])
            &&& i < j ==> !is_white_space(s[i])
            &&& i < j ==> !is_white_space(s[j - 1])
            &&& i == j ==> j == s.len()
            &&& trim_seq(s) == s.subrange(i, j)
        }),
{
    lemma_first_non_space(s, 0);
    let i = first_non_space(s, 0);
    if i < s.len() {
        lemma_last_non_space(s, s.len() as int, i);
    }
    let (i, j) = trim_bounds(s);
    lemma_trim_is_subrange(s, i, j);
}

/// `s` without the white space at either end (what `str::trim` returns).
pub fn trim(s: &str) -> (r: &str)
    ensures
        r@ == trim_seq(s@),
{
    let n = s.unicode_len();
    let mut i: usize = 0;
    while i < n && is_whitespace(s.get_char(i))
        invariant
            n == s@.len(),
            i <= n,
            forall|k: int| 0 <= k < i ==> is_white_space(#[trigger] s@[k]),
        decreases n - i,
    {
        i = i + 1;
    }
    let mut j: usize = n;
    if i < n {
        while j > i && is_whitespace(s.get_char(j - 1))
            invariant
                n == s@.len(),
                i < j <= n,
                i < n,
                !is_white_space(s@[i as int]),
                forall|k: int| j <= k < n ==> is_white_space(#[trigger] s@[k]),
            decreases j,
        {
            j = j - 1;
        }
    }
    proof {
        lemma_trim_is_subrange(s@, i as int, j as int);
    }
    s.substring_char(i, j)
}

/// Whether the two texts hold the same characters.
pub fn text_eq(a: &str, b: &str) -> (r: bool)
    ensures
        r == (a@ == b@),
{
    let n = a.unicode_len();
    if n != b.unicode_len() {
        return false;
    }
    let mut i: usize = 0;
    while i < n
        invariant
            n == a@.len(),
            n == b@.len(),
            i <= n,
            forall|k: int| 0 <= k < i ==> a@[k] == b@[k],
        decreases n - i,
    {
        if a.get_char(i) != b.get_char(i) {
            return false;
        }
        i = i + 1;
    }
    assert(a@ =~= b@);
    true
}

/// Whether the text is empty once trimmed.
pub fn is_blank(s: &str) -> (r: bool)
    ensures
        r == (trim_seq(s@).len() == 0),
{
    let t = trim(s);
    t.unicode_len() == 0
}

/// The decimal digit character for `d`.
pub open spec fn digit_char(d: int) -> char {
    (48 + d) as char
}

/// The decimal rendering of `n`, without leading zeros.
pub open spec fn decimal(n: nat) -> Seq<char>
    decreases n,
{
    if n < 10 {
        seq![digit_char(n as int)]
    } else {
        decimal(n / 10) + seq![digit_char((n % 10) as int)]
    }
}

/// The one-character text of a decimal digit.
fn digit_text(d: u64) -> (r: &'static str)
    requires
        d < 10,
    ensures
        r@ == seq![digit_char(d as int)],
{
    proof {
        reveal_strlit("0");
        reveal_strlit("1");
        reveal_strlit("2");
        reveal_strlit("3");
        reveal_strlit("4");
        reveal_strlit("5");
        reveal_strlit("6");
        reveal_strlit("7");
        reveal_strlit("8");
        reveal_strlit("9");
    }
    let r = match d {
        0 => "0",
        1 => "1",
        2 => "2",
        3 => "3",
        4 => "4",
        5 => "5",
        6 => "6",
        7 => "7",
        8 => "8",
        _ => "9",
    };
    assert(r@ =~= seq![digit_char(d as int)]);
    r
}

/// Appends the decimal rendering of `n` to `out`.
pub fn push_decimal(out: &mut String, n: u64)
    ensures
        final(out)@ == old(out)@ + decimal(n as nat),
    decreases n,
{
    if n < 10 {
        out.append(digit_text(n));
    } else {
        push_decimal(out, n / 10);
        out.append(digit_text(n % 10));
        assert(old(out)@ + decimal(n as nat) =~= old(out)@ + decimal((n / 10) as nat) + seq![
            digit_char((n % 10) as int),
        ]);
    }
}

/// The decimal rendering of `n` (what `n.to_string()` gives).
pub fn decimal_string(n: u64) -> (r: String)
    ensures
        r@ == decimal(n as nat),
{
    let mut s = String::new();
    push_decimal(&mut s, n);
    assert(s@ =~= decimal(n as nat));
    s
}

} // verus!
