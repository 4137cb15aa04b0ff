//! Score counters: one or more display instances, each an independent
//! counter starting at zero. A scoring contact increments every active
//! display (broadcast semantics), not a single shared counter.

use vstd::prelude::*;
use vstd::pervasive::VecAdditionalExecFns;
use vstd::string::StringExecFns;

verus! {

/// The counter after one scoring event: one more, saturating at the
/// machine limit.
pub open spec fn spec_inc_sat(v: u64) -> u64 {
    if v == u64::MAX {
        v
    } else {
        (v + 1) as u64
    }
}

/// One score display instance.
#[derive(Clone, Copy, PartialEq, Eq, Structural, Debug)]
pub struct ScoreCounter {
    pub value: u64,
}

impl ScoreCounter {
    /// A fresh display reads zero.
    pub fn new() -> (s: ScoreCounter)
        ensures
            s.value == 0,
    {
        ScoreCounter { value: 0 }
    }

    /// The display after one scoring event.
    pub fn incremented(self) -> (s: ScoreCounter)
        ensures
            s.value == spec_inc_sat(self.value),
    {
        if self.value == u64::MAX {
            self
        } else {
            ScoreCounter { value: self.value + 1 }
        }
    }
}

/// All active displays after a broadcast increment.
pub open spec fn spec_all_incremented(scores: Seq<ScoreCounter>) -> Seq<ScoreCounter> {
    scores.map_values(|c: ScoreCounter| ScoreCounter { value: spec_inc_sat(c.value) })
}

/// Increment every active score display by one.
pub fn increment_all(scores: &mut Vec<ScoreCounter>)
    ensures
        final(scores)@ == spec_all_incremented(old(scores)@),
{
    let mut i: usize = 0;
    while i < scores.len()
        invariant
            i <= scores.len(),
            scores.len() == old(scores).len(),
            forall|j: int| 0 <= j < i ==> scores@[j] == spec_all_incremented(old(scores)@)[j],
            forall|j: int| i <= j < scores.len() ==> scores@[j] == old(scores)@[j],
        decreases scores.len() - i,
    {
        let c = scores[i];
        scores.set(i, c.incremented());
        i = i + 1;
    }
    proof {
        assert(scores@ =~= spec_all_incremented(old(scores)@));
    }
}

/// The character for one decimal digit.
pub open spec fn spec_digit_char(d: nat) -> char {
    if d == 0 {
        '0'
    } else if d == 1 {
        '1'
    } else if d == 2 {
        '2'
    } else if d == 3 {
        '3'
    } else if d == 4 {
        '4'
    } else if d == 5 {
        '5'
    } else if d == 6 {
        '6'
    } else if d == 7 {
        '7'
    } else if d == 8 {
        '8'
    } else {
        '9'
    }
}

/// The decimal digits of `n`, most significant first.
pub open spec fn spec_decimal(n: nat) -> Seq<char>
    decreases n,
{
    if n < 10 {
        seq![spec_digit_char(n)]
    } else {
        spec_decimal(n / 10).push(spec_digit_char(n % 10))
    }
}

/// The display text of a score: its decimal value, zero-padded on the left
/// to at least two characters.
pub open spec fn spec_score_text(n: nat) -> Seq<char> {
    if n < 10 {
        seq!['0'] + spec_decimal(n)
    } else {
        spec_decimal(n)
    }
}

/// The characters of a run of decimal digits (least significant first),
/// reversed into display order.
pub open spec fn rev_chars(ds: Seq<u64>) -> Seq<char>
    decreases ds.len(),
{
    if ds.len() == 0 {
        Seq::empty()
    } else {
        seq![spec_digit_char(ds.last() as nat)] + rev_chars(ds.drop_last())
    }
}

/// Reversal peels the first digit onto the end of the display order.
proof fn lemma_rev_chars_drop_first(ds: Seq<u64>)
    requires
        ds.len() >= 1,
    ensures
        rev_chars(ds) =~= rev_chars(ds.drop_first()) + seq![spec_digit_char(ds[0] as nat)],
    decreases ds.len(),
{
    assert(rev_chars(Seq::<u64>::empty()) =~= Seq::<char>::empty());
    if ds.len() == 1 {
        assert(ds.drop_last() =~= Seq::<u64>::empty());
        assert(ds.drop_first() =~= Seq::<u64>::empty());
    } else {
        lemma_rev_chars_drop_first(ds.drop_last());
        assert(ds.drop_last().drop_first() =~= ds.drop_first().drop_last());
        assert(ds.drop_last()[0] == ds[0]);
        assert(ds.drop_first().last() == ds.last());
    }
}

/// One decimal digit as text.
fn digit_str(d: u64) -> (s: &'static str)
    requires
        d < 10,
    ensures
        s@ == seq![spec_digit_char(d as nat)],
{
    if d == 0 {
        proof {
            reveal_strlit("0");
            assert("0"@ =~= seq!['0']);
        }
        "0"
    } else if d == 1 {
        proof {
            reveal_strlit("1");
            assert("1"@ =~= seq!['1']);
        }
        "1"
    } else if d == 2 {
        proof {
            reveal_strlit("2");
            assert("2"@ =~= seq!['2']);
        }
        "2"
    } else if d == 3 {
        proof {
            reveal_strlit("3");
            assert("3"@ =~= seq!['3']);
        }
        "3"
    } else if d == 4 {
        proof {
            reveal_strlit("4");
            assert("4"@ =~= seq!['4']);
        }
        "4"
    } else if d == 5 {
        proof {
            reveal_strlit("5");
            assert("5"@ =~= seq!['5']);
        }
        "5"
    } else if d == 6 {
        proof {
            reveal_strlit("6");
            assert("6"@ =~= seq!['6']);
        }
        "6"
    } else if d == 7 {
        proof {
            reveal_strlit("7");
            assert("7"@ =~= seq!['7']);
        }
        "7"
    } else if d == 8 {
        proof {
            reveal_strlit("8");
            assert("8"@ =~= seq!['8']);
        }
        "8"
    } else {
        proof {
            reveal_strlit("9");
            assert("9"@ =~= seq!['9']);
        }
        "9"
    }
}

/// Render a score for its display: decimal, zero-padded to two digits.
pub fn score_text(value: u64) -> (text: String)
    ensures
        text@ == spec_score_text(value as nat),
{
    let mut digits: Vec<u64> = Vec::new();
    let mut n: u64 = value;
    digits.push(n % 10);
    n = n / 10;
    proof {
        vstd::arithmetic::div_mod::lemma_fundamental_div_mod(value as int, 10);
        assert(digits@.drop_last() =~= Seq::<u64>::empty());
        assert(rev_chars(Seq::<u64>::empty()) =~= Seq::<char>::empty());
        if n > 0 {
            assert(spec_decimal(value as nat) =~= spec_decimal(n as nat) + rev_chars(digits@));
        } else {
            assert(spec_decimal(value as nat) =~= rev_chars(digits@));
        }
    }
    while n > 0
        invariant
            digits@.len() >= 1,
            forall|j: int| 0 <= j < digits@.len() ==> digits@[j] < 10,
            spec_decimal(value as nat) == (if n > 0 {
                spec_decimal(n as nat) + rev_chars(digits@)
            } else {
                rev_chars(digits@)
            }),
        decreases n,
    {
        let d = n % 10;
        proof {
            vstd::arithmetic::div_mod::lemma_fundamental_div_mod(n as int, 10);
        }
        let ghost prev = digits@;
        digits.push(d);
        n = n / 10;
        proof {
            assert(digits@.drop_last() =~= prev);
            assert(digits@.last() == d);
            if n > 0 {
                assert(spec_decimal(value as nat) =~= spec_decimal(n as nat) + rev_chars(digits@));
            } else {
                assert(spec_decimal(value as nat) =~= rev_chars(digits@));
            }
        }
    }
    let mut text = String::new();
    if value < 10 {
        proof {
            reveal_strlit("0");
            assert("0"@ =~= seq!['0']);
        }
        text.append("0");
    }
    let ghost pad = text@;
    let mut k: usize = digits.len();
    proof {
        assert(digits@.subrange(k as int, digits@.len() as int) =~= Seq::<u64>::empty());
        assert(text@ =~= pad + rev_chars(digits@.subrange(k as int, digits@.len() as int)));
    }
    while k > 0
        invariant
            k <= digits@.len(),
            forall|j: int| 0 <= j < digits@.len() ==> digits@[j] < 10,
            text@ == pad + rev_chars(digits@.subrange(k as int, digits@.len() as int)),
        decreases k,
    {
        k = k - 1;
        let piece = digit_str(digits[k]);
        text.append(piece);
        proof {
            let tail = digits@.subrange(k as int, digits@.len() as int);
            lemma_rev_chars_drop_first(tail);
            assert(tail.drop_first() =~= digits@.subrange(k as int + 1, digits@.len() as int));
            assert(text@ =~= pad + rev_chars(tail));
        }
    }
    proof {
        assert(digits@.subrange(0, digits@.len() as int) =~= digits@);
        if value < 10 {
            assert(text@ =~= spec_score_text(value as nat));
        } else {
            assert(pad =~= Seq::<char>::empty());
            assert(text@ =~= spec_score_text(value as nat));
        }
    }
    text
}

} // verus!
