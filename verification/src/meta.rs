//! Per-key metadata and its human-readable formatting rules.
//!
//! Every field is optional: different discovery calls populate different
//! fields, and missing data renders as an "unknown" placeholder rather
//! than failing.
use vstd::prelude::*;

verus! {

broadcast use vstd::string::group_string_axioms;

/// Seconds above which a duration renders in minutes.
pub const MINUTE_THRESHOLD: u64 = 50;
/// Seconds above which a duration renders in hours.
pub const HOUR_THRESHOLD: u64 = 50 * 60;
/// Seconds above which a duration renders in days.
pub const DAY_THRESHOLD: u64 = 23 * 60 * 60;
/// Seconds above which a duration renders in weeks.
pub const WEEK_THRESHOLD: u64 = 6 * 24 * 60 * 60;
/// Seconds above which a duration renders in months.
pub const MONTH_THRESHOLD: u64 = 4 * 7 * 24 * 60 * 60;
/// Seconds above which a duration renders in years.
pub const YEAR_THRESHOLD: u64 = 12 * 30 * 24 * 60 * 60;

/// Bytes above which a size renders in kilobytes.
pub const KB_THRESHOLD: u64 = 1024;
/// Bytes above which a size renders in megabytes.
pub const MB_THRESHOLD: u64 = 1024 * 1024;
/// Bytes above which a size renders in gigabytes.
pub const GB_THRESHOLD: u64 = 1024 * 1024 * 1024;

/// The character for a single decimal digit.
pub open spec fn digit_char(d: nat) -> char {
    if d == 0 {
        '0'
    } else if d == 1 {
        '1'
    } else if d == 2 {
        '2'
    } else if d == 3 {
        '3'
    } else if d == 4 {
        '4'
    } else if d == 5 {
        '5'
    } else if d == 6 {
        '6'
    } else if d == 7 {
        '7'
    } else if d == 8 {
        '8'
    } else {
        '9'
    }
}

/// The decimal rendering of a number: most significant digit first,
/// no leading zeroes (`0` renders as the single digit `0`).
pub open spec fn decimal_chars(n: nat) -> Seq<char>
    decreases n,
{
    if n < 10 {
        seq![digit_char(n)]
    } else {
        decimal_chars(n / 10).push(digit_char(n % 10))
    }
}

/// The decimal rendering of a digit sequence that was collected least
/// significant digit first: its characters in reverse order.
pub open spec fn digits_rev_chars(ds: Seq<u64>) -> Seq<char>
    decreases ds.len(),
{
    if ds.len() == 0 {
        Seq::empty()
    } else {
        digits_rev_chars(ds.skip(1)).push(digit_char(ds[0] as nat))
    }
}

proof fn lemma_digits_rev_chars_push(ds: Seq<u64>, x: u64)
    ensures
        digits_rev_chars(ds.push(x)) == seq![digit_char(x as nat)] + digits_rev_chars(ds),
    decreases ds.len(),
{
    if ds.len() == 0 {
        assert(ds.push(x).skip(1) =~= Seq::<u64>::empty());
        assert(digits_rev_chars(Seq::<u64>::empty()) == Seq::<char>::empty());
        assert(ds.push(x)[0] == x);
        assert(digits_rev_chars(ds.push(x)) == Seq::<char>::empty().push(digit_char(x as nat)));
        assert(digits_rev_chars(ds.push(x)) =~= seq![digit_char(x as nat)] + digits_rev_chars(ds));
    } else {
        assert(ds.push(x).skip(1) =~= ds.skip(1).push(x));
        lemma_digits_rev_chars_push(ds.skip(1), x);
        assert(ds.push(x)[0] == ds[0]);
        assert(digits_rev_chars(ds.push(x)) == digits_rev_chars(ds.skip(1).push(x)).push(
            digit_char(ds[0] as nat),
        ));
        assert(digits_rev_chars(ds) == digits_rev_chars(ds.skip(1)).push(digit_char(ds[0] as nat)));
        assert(digits_rev_chars(ds.push(x)) =~= seq![digit_char(x as nat)] + digits_rev_chars(ds));
    }
}

fn digit_str(d: u64) -> (r: &'static str)
    requires
        d < 10,
    ensures
        r@ == seq![digit_char(d as nat)],
{
    if d == 0 {
        proof {
            reveal_strlit("0");
            assert("0"@ =~= seq![digit_char(0)]);
        }
        "0"
    } else if d == 1 {
        proof {
            reveal_strlit("1");
            assert("1"@ =~= seq![digit_char(1)]);
        }
        "1"
    } else if d == 2 {
        proof {
            reveal_strlit("2");
            assert("2"@ =~= seq![digit_char(2)]);
        }
        "2"
    } else if d == 3 {
        proof {
            reveal_strlit("3");
            assert("3"@ =~= seq![digit_char(3)]);
        }
        "3"
    } else if d == 4 {
        proof {
            reveal_strlit("4");
            assert("4"@ =~= seq![digit_char(4)]);
        }
        "4"
    } else if d == 5 {
        proof {
            reveal_strlit("5");
            assert("5"@ =~= seq![digit_char(5)]);
        }
        "5"
    } else if d == 6 {
        proof {
            reveal_strlit("6");
            assert("6"@ =~= seq![digit_char(6)]);
        }
        "6"
    } else if d == 7 {
        proof {
            reveal_strlit("7");
            assert("7"@ =~= seq![digit_char(7)]);
        }
        "7"
    } else if d == 8 {
        proof {
            reveal_strlit("8");
            assert("8"@ =~= seq![digit_char(8)]);
        }
        "8"
    } else {
        proof {
            reveal_strlit("9");
            assert("9"@ =~= seq![digit_char(9)]);
        }
        "9"
    }
}

/// Renders a number in decimal, most significant digit first.
pub fn u64_to_decimal(n: u64) -> (r: String)
    ensures
        r@ == decimal_chars(n as nat),
{
    let mut digits: Vec<u64> = Vec::new();
    let mut m: u64 = n;
    proof {
        assert(decimal_chars(n as nat) =~= decimal_chars(n as nat) + digits_rev_chars(digits@));
    }
    loop
        invariant_except_break
            forall|j: int| 0 <= j < digits@.len() ==> digits@[j] < 10,
            decimal_chars(n as nat) == decimal_chars(m as nat) + digits_rev_chars(digits@),
        ensures
            forall|j: int| 0 <= j < digits@.len() ==> digits@[j] < 10,
            decimal_chars(n as nat) == digits_rev_chars(digits@),
        decreases m,
    {
        let ghost pre = digits@;
        let d = m % 10;
        digits.push(d);
        proof {
            lemma_digits_rev_chars_push(pre, d);
        }
        let next = m / 10;
        if next == 0 {
            proof {
                assert(decimal_chars(m as nat) =~= seq![digit_char((m % 10) as nat)]);
                assert(decimal_chars(n as nat) =~= digits_rev_chars(digits@));
            }
            break;
        }
        proof {
            assert(decimal_chars(m as nat) =~= decimal_chars((m / 10) as nat).push(
                digit_char((m % 10) as nat),
            ));
            assert(decimal_chars(n as nat) =~= decimal_chars(next as nat) + digits_rev_chars(
                digits@,
            ));
        }
        m = next;
    }
    let mut s = String::new();
    while digits.len() > 0
        invariant
            forall|j: int| 0 <= j < digits@.len() ==> digits@[j] < 10,
            decimal_chars(n as nat) == s@ + digits_rev_chars(digits@),
        decreases digits@.len(),
    {
        let ghost pre = digits@;
        let d = digits.pop().unwrap();
        proof {
            assert(pre =~= digits@.push(d));
            lemma_digits_rev_chars_push(digits@, d);
        }
        let piece = digit_str(d);
        s = s.concat(piece);
        proof {
            assert(decimal_chars(n as nat) =~= s@ + digits_rev_chars(digits@));
        }
    }
    proof {
        assert(decimal_chars(n as nat) =~= s@);
    }
    s
}

/// What `ttl_as_human_delta` must return for a given time-to-live.
pub open spec fn ttl_human_spec(ttl: Option<u64>) -> Seq<char> {
    match ttl {
        Option::Some(t) => {
            if t > YEAR_THRESHOLD {
                decimal_chars((t / YEAR_THRESHOLD) as nat).push('y')
            } else if t > MONTH_THRESHOLD {
                decimal_chars((t / MONTH_THRESHOLD) as nat).push('M')
            } else if t > WEEK_THRESHOLD {
                decimal_chars((t / WEEK_THRESHOLD) as nat).push('w')
            } else if t > DAY_THRESHOLD {
                decimal_chars((t / DAY_THRESHOLD) as nat).push('d')
            } else if t > HOUR_THRESHOLD {
                decimal_chars((t / HOUR_THRESHOLD) as nat).push('h')
            } else if t > MINUTE_THRESHOLD {
                decimal_chars((t / MINUTE_THRESHOLD) as nat).push('m')
            } else {
                decimal_chars(t as nat).push('s')
            }
        },
        Option::None => seq!['N', '/', 'A'],
    }
}

/// What `size_as_human` must return for a given byte count.
pub open spec fn size_human_spec(size: Option<u64>) -> Seq<char> {
    match size {
        Option::Some(b) => {
            if b < KB_THRESHOLD {
                decimal_chars(b as nat) + seq!['B']
            } else if b < MB_THRESHOLD {
                decimal_chars((b / KB_THRESHOLD) as nat) + seq!['K', 'B']
            } else if b < GB_THRESHOLD {
                decimal_chars((b / MB_THRESHOLD) as nat) + seq!['M', 'B']
            } else {
                decimal_chars((b / GB_THRESHOLD) as nat) + seq!['G', 'B']
            }
        },
        Option::None => seq!['-'],
    }
}

/// Immutable-per-refresh record of what is known about one key.
pub struct KeyMetadata {
    /// Value type tag as the store reports it, when known.
    pub type_tag: Option<String>,
    /// Remaining time to live in seconds; absent when the key has no
    /// expiry or the lookup failed.
    pub ttl: Option<u64>,
    /// Value size in bytes, when known.
    pub size: Option<u64>,
}

impl KeyMetadata {
    pub fn new(type_tag: Option<String>, ttl: Option<u64>, size: Option<u64>) -> (r: KeyMetadata)
        ensures
            r.type_tag == type_tag,
            r.ttl == ttl,
            r.size == size,
    {
        KeyMetadata { type_tag, ttl, size }
    }

    /// The value type tag, or `-` when unknown.
    pub fn value_type(&self) -> (r: String)
        ensures
            r@ == (match self.type_tag {
                Option::Some(t) => t@,
                Option::None => seq!['-'],
            }),
    {
        match &self.type_tag {
            Option::Some(t) => t.clone(),
            Option::None => {
                proof {
                    reveal_strlit("-");
                }
                let r = "-".to_owned();
                proof {
                    assert(r@ =~= seq!['-']);
                }
                r
            },
        }
    }

    /// The time to live as a coarse human-readable delta (`10s`, `2h`,
    /// `3d`, ...), or `N/A` when unknown.
    pub fn ttl_as_human_delta(&self) -> (r: String)
        ensures
            r@ == ttl_human_spec(self.ttl),
    {
        match self.ttl {
            Option::Some(t) => {
                if t > YEAR_THRESHOLD {
                    proof {
                        reveal_strlit("y");
                    }
                    let r = u64_to_decimal(t / YEAR_THRESHOLD).concat("y");
                    proof {
                        assert(r@ =~= ttl_human_spec(self.ttl));
                    }
                    r
                } else if t > MONTH_THRESHOLD {
                    proof {
                        reveal_strlit("M");
                    }
                    let r = u64_to_decimal(t / MONTH_THRESHOLD).concat("M");
                    proof {
                        assert(r@ =~= ttl_human_spec(self.ttl));
                    }
                    r
                } else if t > WEEK_THRESHOLD {
                    proof {
                        reveal_strlit("w");
                    }
                    let r = u64_to_decimal(t / WEEK_THRESHOLD).concat("w");
                    proof {
                        assert(r@ =~= ttl_human_spec(self.ttl));
                    }
                    r
                } else if t > DAY_THRESHOLD {
                    proof {
                        reveal_strlit("d");
                    }
                    let r = u64_to_decimal(t / DAY_THRESHOLD).concat("d");
                    proof {
                        assert(r@ =~= ttl_human_spec(self.ttl));
                    }
                    r
                } else if t > HOUR_THRESHOLD {
                    proof {
                        reveal_strlit("h");
                    }
                    let r = u64_to_decimal(t / HOUR_THRESHOLD).concat("h");
                    proof {
                        assert(r@ =~= ttl_human_spec(self.ttl));
                    }
                    r
                } else if t > MINUTE_THRESHOLD {
                    proof {
                        reveal_strlit("m");
                    }
                    let r = u64_to_decimal(t / MINUTE_THRESHOLD).concat("m");
                    proof {
                        assert(r@ =~= ttl_human_spec(self.ttl));
                    }
                    r
                } else {
                    proof {
                        reveal_strlit("s");
                    }
                    let r = u64_to_decimal(t).concat("s");
                    proof {
                        assert(r@ =~= ttl_human_spec(self.ttl));
                    }
                    r
                }
            },
            Option::None => {
                proof {
                    reveal_strlit("N/A");
                }
                let r = "N/A".to_owned();
                proof {
                    assert(r@ =~= seq!['N', '/', 'A']);
                }
                r
            },
        }
    }

    /// The size as a coarse human-readable amount (`512B`, `3KB`, ...),
    /// or `-` when unknown.
    pub fn size_as_human(&self) -> (r: String)
        ensures
            r@ == size_human_spec(self.size),
    {
        match self.size {
            Option::Some(b) => {
                if b < KB_THRESHOLD {
                    proof {
                        reveal_strlit("B");
                    }
                    let r = u64_to_decimal(b).concat("B");
                    proof {
                        assert("B"@ =~= seq!['B']);
                    }
                    r
                } else if b < MB_THRESHOLD {
                    proof {
                        reveal_strlit("KB");
                    }
                    let r = u64_to_decimal(b / KB_THRESHOLD).concat("KB");
                    proof {
                        assert("KB"@ =~= seq!['K', 'B']);
                    }
                    r
                } else if b < GB_THRESHOLD {
                    proof {
                        reveal_strlit("MB");
                    }
                    let r = u64_to_decimal(b / MB_THRESHOLD).concat("MB");
                    proof {
                        assert("MB"@ =~= seq!['M', 'B']);
                    }
                    r
                } else {
                    proof {
                        reveal_strlit("GB");
                    }
                    let r = u64_to_decimal(b / GB_THRESHOLD).concat("GB");
                    proof {
                        assert("GB"@ =~= seq!['G', 'B']);
                    }
                    r
                }
            },
            Option::None => {
                proof {
                    reveal_strlit("-");
                }
                let r = "-".to_owned();
                proof {
                    assert(r@ =~= seq!['-']);
                }
                r
            },
        }
    }
}

} // verus!
