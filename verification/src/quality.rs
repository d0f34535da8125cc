//! The connection quality grade: four dimension scores of one to five
//! points each are averaged, and the whole part of the average gives the
//! letter grade.
use vstd::prelude::*;

verus! {

/// Points of each dimension: latency, download, upload, packet loss.
pub struct DimensionScores {
    pub ping: u8,
    pub download: u8,
    pub upload: u8,
    pub loss: u8,
}

impl DimensionScores {
    /// Each dimension scores from one to five points.
    pub open spec fn wf(self) -> bool {
        &&& 1 <= self.ping <= 5
        &&& 1 <= self.download <= 5
        &&& 1 <= self.upload <= 5
        &&& 1 <= self.loss <= 5
    }

    /// The sum of the four dimension scores.
    pub open spec fn total_spec(self) -> int {
        self.ping + self.download + self.upload + self.loss
    }

    /// The sum of the four dimension scores; the quality score is this
    /// divided by four.
    pub fn total(&self) -> (r: u32)
        ensures
            r == self.total_spec(),
    {
        self.ping as u32 + self.download as u32 + self.upload as u32 + self.loss as u32
    }
}

/// The letter for a whole quality level.
pub open spec fn letter_for_level(level: int) -> Seq<char> {
    if level == 5 {
        "A"@
    } else if level == 4 {
        "B"@
    } else if level == 3 {
        "C"@
    } else if level == 2 {
        "D"@
    } else {
        "F"@
    }
}

/// The letter grade for a sum of dimension scores: the whole part of the
/// average (the sum divided by four) picks the letter.
pub fn grade_letter(total: u32) -> (r: String)
    ensures
        r@ == letter_for_level((total / 4) as int),
{
    let level = total / 4;
    if level == 5 {
        String::from_str("A")
    } else if level == 4 {
        String::from_str("B")
    } else if level == 3 {
        String::from_str("C")
    } else if level == 2 {
        String::from_str("D")
    } else {
        String::from_str("F")
    }
}

/// The rank of a level among the letters, from F (1) to A (5).
pub open spec fn grade_rank(total: int) -> int {
    let level = total / 4;
    if 2 <= level <= 5 {
        level
    } else {
        1
    }
}

/// For sums of valid dimension scores, a larger sum never gets a lower
/// grade, and the letter is the one of that rank.
pub proof fn lemma_grade_monotone(a: int, b: int)
    requires
        4 <= a <= b <= 20,
    ensures
        grade_rank(a) <= grade_rank(b),
        letter_for_level(a / 4) == letter_for_level(grade_rank(a)),
{
}

/// The sum of valid dimension scores gives a level from one to five.
pub proof fn lemma_total_in_range(s: DimensionScores)
    requires
        s.wf(),
    ensures
        4 <= s.total_spec() <= 20,
        1 <= s.total_spec() / 4 <= 5,
{
}

/// The number of filled stars for a sum of dimension scores: the whole part
/// of the average (the sum divided by four), the same level that picks the
/// letter grade.
pub fn star_count(total: u32) -> (r: u32)
    ensures
        r == total / 4,
        4 * r <= total < 4 * r + 4,
{
    total / 4
}

/// Each letter grade shows as many filled stars as its level: five for A,
/// four for B, three for C, two for D and one for F (for sums of valid
/// dimension scores).
pub proof fn lemma_stars_match_grade(total: int)
    requires
        4 <= total <= 20,
    ensures
        grade_rank(total) == total / 4,
        letter_for_level(total / 4) == letter_for_level(grade_rank(total)),
        forall|i: int| 0 <= i < total / 4 ==> #[trigger] stars_spec((total / 4) as nat)[i] == '★',
        forall|i: int|
            total / 4 <= i < 5 ==> #[trigger] stars_spec((total / 4) as nat)[i] == '☆',
{
}

/// The star rating: `filled` full stars followed by empty stars up to five.
pub open spec fn stars_spec(filled: nat) -> Seq<char> {
    let empty: nat = if filled < 5 {
        (5 - filled) as nat
    } else {
        0
    };
    Seq::new(filled, |i: int| '★') + Seq::new(empty, |i: int| '☆')
}

/// The star rating shown for a quality score: `filled` full stars followed
/// by empty stars up to five.
pub fn stars_text(filled: usize) -> (r: String)
    ensures
        r@ == stars_spec(filled as nat),
{
    proof {
        reveal_strlit("★");
        reveal_strlit("☆");
    }
    let mut s = String::new();
    let mut i: usize = 0;
    while i < filled
        invariant
            i <= filled,
            s@ == Seq::new(i as nat, |k: int| '★'),
        decreases filled - i,
    {
        s.append("★");
        proof {
            reveal_strlit("★");
        }
        i = i + 1;
        assert(s@ =~= Seq::new(i as nat, |k: int| '★'));
    }
    let empty: usize = if filled < 5 {
        5 - filled
    } else {
        0
    };
    let ghost full = s@;
    let mut j: usize = 0;
    while j < empty
        invariant
            j <= empty,
            full == Seq::new(filled as nat, |k: int| '★'),
            s@ == full + Seq::new(j as nat, |k: int| '☆'),
        decreases empty - j,
    {
        s.append("☆");
        proof {
            reveal_strlit("☆");
        }
        j = j + 1;
        assert(s@ =~= full + Seq::new(j as nat, |k: int| '☆'));
    }
    s
}

/// A rating of at most five filled stars is always five symbols long.
pub proof fn lemma_five_stars(filled: nat)
    requires
        filled <= 5,
    ensures
        stars_spec(filled).len() == 5,
{
}

} // verus!
