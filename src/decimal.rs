//! Decimal numbers as the wire writes them (coordinates, areas): a sign, a
//! whole part and the digits after the point, kept exactly as read.

use vstd::prelude::*;
use vstd::string::*;
use crate::text::{
    all_digits, decimal_text, digit_char, digit_value, is_digit, lemma_decimal_text_round_trip,
    lemma_u64_text_round_trip, parse_digits, push_char, u64_string, digits_u64,
};

verus! {

/// `-`? whole (`.` fraction)?; `fraction` holds digit values 0 to 9.
#[derive(Debug, PartialEq, Eq)]
pub struct Decimal {
    negative: bool,
    whole: u64,
    fraction: Vec<u8>,
}

pub open spec fn digit_chars(ds: Seq<u8>) -> Seq<char> {
    ds.map_values(|d: u8| digit_char(d as nat))
}

pub open spec fn char_digits(cs: Seq<char>) -> Seq<u8> {
    cs.map_values(|c: char| digit_value(c) as u8)
}

impl Decimal {
    pub closed spec fn wf(&self) -> bool {
        forall|i: int| 0 <= i < self.fraction@.len() ==> #[trigger] self.fraction@[i] < 10
    }

    pub closed spec fn spec_whole(&self) -> u64 {
        self.whole
    }

    pub closed spec fn spec_negative(&self) -> bool {
        self.negative
    }

    #[verifier::type_invariant]
    spec fn inv(&self) -> bool {
        self.wf()
    }

    /// The text of the number: sign, whole part, then the point and the
    /// fraction digits when there are any.
    pub closed spec fn text(&self) -> Seq<char> {
        (if self.negative {
            seq!['-']
        } else {
            Seq::empty()
        }) + decimal_text(self.whole as nat) + (if self.fraction@.len() == 0 {
            Seq::empty()
        } else {
            seq!['.'] + digit_chars(self.fraction@)
        })
    }

    /// The whole part, as an integer; the sign is kept apart.
    pub fn whole(&self) -> (r: u64)
        ensures
            r == self.spec_whole(),
    {
        self.whole
    }

    pub fn is_negative(&self) -> (r: bool)
        ensures
            r == self.spec_negative(),
    {
        self.negative
    }

    /// Reads a decimal number.
    pub fn parse(s: &str) -> (r: Option<Decimal>)
        ensures
            r is Some <==> decimal_valid(s@),
            r matches Some(d) ==> d.wf() && decimal_of(s@, d),
    {
        parse_decimal(s)
    }

    pub fn to_text(&self) -> (r: String)
        ensures
            r@ == self.text(),
            self.wf(),
    {
        proof {
            use_type_invariant(self);
        }
        let mut out = String::new();
        if self.negative {
            push_char(&mut out, '-');
        }
        let w = u64_string(self.whole);
        out.append(w.as_str());
        if self.fraction.len() > 0 {
            push_char(&mut out, '.');
            let ghost head = out@;
            let mut i: usize = 0;
            while i < self.fraction.len()
                invariant
                    self.wf(),
                    i <= self.fraction@.len(),
                    out@ == head + digit_chars(self.fraction@.subrange(0, i as int)),
                decreases self.fraction@.len() - i,
            {
                let d = self.fraction[i];
                let c = (d + 48u8) as char;
                push_char(&mut out, c);
                assert(digit_chars(self.fraction@.subrange(0, i + 1)) =~= digit_chars(
                    self.fraction@.subrange(0, i as int),
                ).push(c));
                i = i + 1;
            }
            assert(self.fraction@.subrange(0, self.fraction@.len() as int) =~= self.fraction@);
        }
        assert(out@ =~= self.text());
        out
    }
}

/// Position of the first `.` in `s`, or its length.
pub open spec fn point_at(s: Seq<char>) -> int
    decreases s.len(),
{
    if s.len() == 0 {
        0
    } else if s[0] == '.' {
        0
    } else {
        1 + point_at(s.drop_first())
    }
}

pub open spec fn unsigned_part(s: Seq<char>) -> Seq<char> {
    if s.len() > 0 && s[0] == '-' {
        s.drop_first()
    } else {
        s
    }
}

pub open spec fn whole_part(s: Seq<char>) -> Seq<char> {
    unsigned_part(s).take(point_at(unsigned_part(s)))
}

pub open spec fn fraction_part(s: Seq<char>) -> Seq<char> {
    let u = unsigned_part(s);
    if point_at(u) < u.len() {
        u.skip(point_at(u) + 1)
    } else {
        Seq::empty()
    }
}

/// `s` is the text of a decimal: an optional `-`, digits whose value fits
/// in 64 bits, and optionally a point followed by one or more digits.
pub open spec fn decimal_valid(s: Seq<char>) -> bool {
    let u = unsigned_part(s);
    &&& digits_u64(whole_part(s)) is Some
    &&& point_at(u) < u.len() ==> fraction_part(s).len() > 0 && all_digits(fraction_part(s))
}

/// `d` is the number that the valid text `s` spells.
pub closed spec fn decimal_of(s: Seq<char>, d: Decimal) -> bool {
    &&& d.negative == (s.len() > 0 && s[0] == '-')
    &&& Some(d.whole) == digits_u64(whole_part(s))
    &&& d.fraction@ == char_digits(fraction_part(s))
}

proof fn lemma_point_at_find(s: Seq<char>, k: int)
    requires
        0 <= k <= s.len(),
        k < s.len() ==> s[k] == '.',
        forall|i: int| 0 <= i < k ==> s[i] != '.',
    ensures
        point_at(s) == k,
    decreases s.len(),
{
    if s.len() > 0 && k > 0 {
        assert forall|i: int| 0 <= i < k - 1 implies s.drop_first()[i] != '.' by {
            assert(s.drop_first()[i] == s[i + 1]);
        }
        lemma_point_at_find(s.drop_first(), k - 1);
    }
}

/// Reads a decimal number.
pub fn parse_decimal(s: &str) -> (r: Option<Decimal>)
    ensures
        r is Some <==> decimal_valid(s@),
        r matches Some(d) ==> d.wf() && decimal_of(s@, d),
{
    let n = s.unicode_len();
    let negative = n > 0 && s.get_char(0) == '-';
    let start: usize = if negative {
        1
    } else {
        0
    };
    let ghost u = unsigned_part(s@);
    assert(u =~= s@.subrange(start as int, n as int));
    // find the point
    let mut k: usize = start;
    while k < n && s.get_char(k) != '.'
        invariant
            start <= k <= n,
            n == s@.len(),
            forall|i: int| start <= i < k ==> s@[i] != '.',
        decreases n - k,
    {
        k = k + 1;
    }
    proof {
        assert forall|i: int| 0 <= i < k - start implies u[i] != '.' by {
            assert(u[i] == s@[i + start]);
        }
        lemma_point_at_find(u, k - start);
    }
    let whole_text = s.substring_char(start, k);
    assert(whole_text@ =~= whole_part(s@));
    let whole = match parse_digits(whole_text) {
        Some(w) => w,
        None => {
            return None;
        },
    };
    let mut fraction: Vec<u8> = Vec::new();
    if k < n {
        let frac_text = s.substring_char(k + 1, n);
        assert(frac_text@ =~= fraction_part(s@));
        let cs = crate::text::chars_of(frac_text);
        if cs.len() == 0 {
            return None;
        }
        let mut i: usize = 0;
        while i < cs.len()
            invariant
                cs@ == fraction_part(s@),
                i <= cs@.len(),
                all_digits(cs@.subrange(0, i as int)),
                fraction@ == char_digits(cs@.subrange(0, i as int)),
                forall|j: int| 0 <= j < fraction@.len() ==> #[trigger] fraction@[j] < 10,
            decreases cs@.len() - i,
        {
            let c = cs[i];
            if !('0' <= c && c <= '9') {
                assert(!is_digit(cs@[i as int]));
                return None;
            }
            fraction.push((c as u32 - 48) as u8);
            assert(char_digits(cs@.subrange(0, i + 1)) =~= char_digits(
                cs@.subrange(0, i as int),
            ).push((c as u32 - 48) as u8));
            assert(all_digits(cs@.subrange(0, i + 1))) by {
                assert forall|j: int| 0 <= j < i + 1 implies is_digit(
                    #[trigger] cs@.subrange(0, i + 1)[j],
                ) by {
                    if j < i {
                        assert(cs@.subrange(0, i + 1)[j] == cs@.subrange(0, i as int)[j]);
                    }
                }
            }
            i = i + 1;
        }
        assert(cs@.subrange(0, cs@.len() as int) =~= cs@);
    } else {
        assert(fraction@ =~= char_digits(fraction_part(s@)));
    }
    Some(Decimal { negative, whole, fraction })
}

/// Reading back the text of a decimal gives the same decimal.
pub proof fn lemma_decimal_round_trip(d: Decimal)
    requires
        d.wf(),
    ensures
        decimal_valid(d.text()),
        decimal_of(d.text(), d),
{
    let s = d.text();
    let w = decimal_text(d.whole as nat);
    lemma_decimal_text_round_trip(d.whole as nat);
    lemma_u64_text_round_trip(d.whole);
    let tail = if d.fraction@.len() == 0 {
        Seq::<char>::empty()
    } else {
        seq!['.'] + digit_chars(d.fraction@)
    };
    let u = w + tail;
    assert(unsigned_part(s) =~= u) by {
        if d.negative {
            assert(s =~= seq!['-'] + u);
        } else {
            assert(s =~= u);
            assert(is_digit(w[0]));
        }
    }
    assert forall|i: int| 0 <= i < w.len() implies u[i] != '.' by {
        assert(u[i] == w[i]);
        assert(is_digit(w[i]));
    }
    lemma_point_at_find(u, w.len() as int);
    assert(whole_part(s) =~= w);
    assert forall|i: int| 0 <= i < d.fraction@.len() implies is_digit(
        #[trigger] digit_chars(d.fraction@)[i],
    ) && digit_value(digit_chars(d.fraction@)[i]) == d.fraction@[i] by {
        let c = digit_char(d.fraction@[i] as nat);
        assert(c as u32 == d.fraction@[i] + 48);
    }
    if d.fraction@.len() > 0 {
        assert(fraction_part(s) =~= digit_chars(d.fraction@));
        assert(char_digits(digit_chars(d.fraction@)) =~= d.fraction@);
    } else {
        assert(fraction_part(s) =~= Seq::<char>::empty());
        assert(char_digits(Seq::<char>::empty()) =~= d.fraction@);
    }
}

} // verus!
