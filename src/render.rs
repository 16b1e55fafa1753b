use vstd::prelude::*;
use vstd::math::abs;
use vstd::arithmetic::div_mod::lemma_fundamental_div_mod_converse;
use vstd::string::StringExecFns;
use crate::percentage::Percentage;

verus! {

/// The decimal digit for `d` in `0..10`.
pub open spec fn digit_char(d: int) -> char {
    if d == 0 {
        '0'
    } else if d == 1 {
        '1'
    } else if d == 2 {
        '2'
    } else if d == 3 {
        '3'
    } else if d == 4 {
        '4'
    } else if d == 5 {
        '5'
    } else if d == 6 {
        '6'
    } else if d == 7 {
        '7'
    } else if d == 8 {
        '8'
    } else {
        '9'
    }
}

/// `n` in decimal, without leading zeros.
pub open spec fn decimal(n: nat) -> Seq<char>
    decreases n,
{
    if n < 10 {
        seq![digit_char(n as int)]
    } else {
        decimal(n / 10) + seq![digit_char((n % 10) as int)]
    }
}

/// The digits after the decimal point of `f` hundredths, `f` in `0..100`:
/// none for `0`, and no trailing zero.
pub open spec fn hundredths(f: int) -> Seq<char> {
    if f == 0 {
        seq![]
    } else if f % 10 == 0 {
        seq!['.', digit_char(f / 10)]
    } else {
        seq!['.', digit_char(f / 10), digit_char(f % 10)]
    }
}

/// A percentage of `bp` basis points as text: its value out of a hundred in
/// decimal, then `%` (`5000` is `50%`, `4901` is `49.01%`, `-50` is `-0.5%`).
pub open spec fn rendered(bp: int) -> Seq<char> {
    let m = abs(bp);
    (if bp < 0 {
        seq!['-']
    } else {
        seq![]
    }) + decimal(m / 100) + hundredths((m % 100) as int) + seq!['%']
}

fn digit_str(d: u128) -> (r: &'static str)
    requires
        d < 10,
    ensures
        r@ == seq![digit_char(d as int)],
{
    if d == 0 {
        proof {
            reveal_strlit("0");
        }
        "0"
    } else if d == 1 {
        proof {
            reveal_strlit("1");
        }
        "1"
    } else if d == 2 {
        proof {
            reveal_strlit("2");
        }
        "2"
    } else if d == 3 {
        proof {
            reveal_strlit("3");
        }
        "3"
    } else if d == 4 {
        proof {
            reveal_strlit("4");
        }
        "4"
    } else if d == 5 {
        proof {
            reveal_strlit("5");
        }
        "5"
    } else if d == 6 {
        proof {
            reveal_strlit("6");
        }
        "6"
    } else if d == 7 {
        proof {
            reveal_strlit("7");
        }
        "7"
    } else if d == 8 {
        proof {
            reveal_strlit("8");
        }
        "8"
    } else {
        proof {
            reveal_strlit("9");
        }
        "9"
    }
}

fn push_decimal(s: &mut String, n: u128)
    ensures
        final(s)@ == old(s)@ + decimal(n as nat),
    decreases n,
{
    if n >= 10 {
        push_decimal(s, n / 10);
    }
    s.append(digit_str(n % 10));
    assert(final(s)@ =~= old(s)@ + decimal(n as nat));
}

/// The digits of `w * 100 + d`, for `w` positive and `d` below `100`:
/// those of `w`, then two for `d`.
proof fn lemma_decimal_hundreds(w: nat, d: nat)
    requires
        w > 0,
        d < 100,
    ensures
        decimal(w * 100 + d) == decimal(w) + seq![digit_char((d / 10) as int), digit_char((d % 10) as int)],
{
    let x = w * 100 + d;
    let y = w * 10 + d / 10;
    lemma_fundamental_div_mod_converse(d as int, 10, (d / 10) as int, (d % 10) as int);
    lemma_fundamental_div_mod_converse(x as int, 10, y as int, (d % 10) as int);
    lemma_fundamental_div_mod_converse(y as int, 10, w as int, (d / 10) as int);
    assert(decimal(x) == decimal(y) + seq![digit_char((d % 10) as int)]);
    assert(decimal(y) == decimal(w) + seq![digit_char((d / 10) as int)]);
    assert(decimal(x) =~= decimal(w) + seq![digit_char((d / 10) as int), digit_char((d % 10) as int)]);
}

impl Percentage {
    /// This percentage as text, out of a hundred: `50%`, `0%`, `49.01%`.
    #[verifier::rlimit(50)]
    pub fn to_string(&self) -> (r: String)
        ensures
            r@ == rendered(self@),
    {
        let (negative, w, f) = self.parts();
        let ghost m = w * 10000 + f;
        proof {
            lemma_fundamental_div_mod_converse(f as int, 100, (f / 100) as int, (f % 100) as int);
            lemma_fundamental_div_mod_converse(
                m,
                100,
                (w * 100 + f / 100) as int,
                (f % 100) as int,
            );
            assert(abs(self@) == m);
        }
        let mut s = if negative && (w > 0 || f > 0) {
            proof {
                reveal_strlit("-");
            }
            String::from_str("-")
        } else {
            proof {
                reveal_strlit("");
            }
            String::from_str("")
        };
        let hundred = f / 100;
        if w > 0 {
            push_decimal(&mut s, w);
            s.append(digit_str((hundred / 10) as u128));
            s.append(digit_str((hundred % 10) as u128));
            proof {
                lemma_decimal_hundreds(w as nat, hundred as nat);
            }
        } else {
            push_decimal(&mut s, hundred as u128);
        }
        let c = f % 100;
        if c != 0 {
            proof {
                reveal_strlit(".");
            }
            s.append(".");
            s.append(digit_str((c / 10) as u128));
            if c % 10 != 0 {
                s.append(digit_str((c % 10) as u128));
            }
        }
        proof {
            reveal_strlit("%");
        }
        s.append("%");
        assert(s@ =~= rendered(self@));
        s
    }
}

} // verus!
