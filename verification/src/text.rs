use vstd::prelude::*;
use vstd::string::StringExecFns;

verus! {

/// The decimal digit character for a value below ten.
pub open spec fn dec_digit(d: nat) -> char {
    if d == 0 {
        '0'
    } else if d == 1 {
        '1'
    } else if d == 2 {
        '2'
    } else if d == 3 {
        '3'
    } else if d == 4 {
        '4'
    } else if d == 5 {
        '5'
    } else if d == 6 {
        '6'
    } else if d == 7 {
        '7'
    } else if d == 8 {
        '8'
    } else {
        '9'
    }
}

/// The canonical decimal text of a natural number, most significant digit
/// first and without leading zeros (a lone zero for zero itself).
pub open spec fn dec_str(n: nat) -> Seq<char>
    decreases n,
{
    if n < 10 {
        seq![dec_digit(n)]
    } else {
        dec_str(n / 10) + seq![dec_digit(n % 10)]
    }
}

/// The canonical boolean text, as std's formatting writes it.
pub open spec fn bool_str(b: bool) -> Seq<char> {
    if b {
        "true"@
    } else {
        "false"@
    }
}

fn dec_digit_text(d: u64) -> (r: &'static str)
    requires
        d < 10,
    ensures
        r@ == seq![dec_digit(d as nat)],
{
    if d == 0 {
        let r = "0";
        proof {
            reveal_strlit("0");
            assert(r@ =~= seq![dec_digit(d as nat)]);
        }
        r
    } else if d == 1 {
        let r = "1";
        proof {
            reveal_strlit("1");
            assert(r@ =~= seq![dec_digit(d as nat)]);
        }
        r
    } else if d == 2 {
        let r = "2";
        proof {
            reveal_strlit("2");
            assert(r@ =~= seq![dec_digit(d as nat)]);
        }
        r
    } else if d == 3 {
        let r = "3";
        proof {
            reveal_strlit("3");
            assert(r@ =~= seq![dec_digit(d as nat)]);
        }
        r
    } else if d == 4 {
        let r = "4";
        proof {
            reveal_strlit("4");
            assert(r@ =~= seq![dec_digit(d as nat)]);
        }
        r
    } else if d == 5 {
        let r = "5";
        proof {
            reveal_strlit("5");
            assert(r@ =~= seq![dec_digit(d as nat)]);
        }
        r
    } else if d == 6 {
        let r = "6";
        proof {
            reveal_strlit("6");
            assert(r@ =~= seq![dec_digit(d as nat)]);
        }
        r
    } else if d == 7 {
        let r = "7";
        proof {
            reveal_strlit("7");
            assert(r@ =~= seq![dec_digit(d as nat)]);
        }
        r
    } else if d == 8 {
        let r = "8";
        proof {
            reveal_strlit("8");
            assert(r@ =~= seq![dec_digit(d as nat)]);
        }
        r
    } else {
        let r = "9";
        proof {
            reveal_strlit("9");
            assert(r@ =~= seq![dec_digit(d as nat)]);
        }
        r
    }
}

/// Writes a number in decimal, exactly as `dec_str` states it.
pub fn u64_to_dec(n: u64) -> (r: String)
    ensures
        r@ == dec_str(n as nat),
    decreases n,
{
    if n < 10 {
        let d = dec_digit_text(n);
        String::from_str(d)
    } else {
        proof {
            assert(n / 10 < n) by (nonlinear_arith)
                requires
                    n >= 10,
            ;
        }
        let mut s = u64_to_dec(n / 10);
        let d = dec_digit_text(n % 10);
        s.append(d);
        s
    }
}

/// Writes a boolean as `true` or `false`, exactly as `bool_str` states it.
pub fn bool_to_text(b: bool) -> (r: &'static str)
    ensures
        r@ == bool_str(b),
{
    if b {
        "true"
    } else {
        "false"
    }
}

} // verus!
