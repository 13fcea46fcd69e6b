use vstd::prelude::*;
use vstd::string::StringExecFns;

verus! {

/// The decimal digit `d` as a character.
pub open spec fn digit_char(d: nat) -> char {
    if d == 0 { '0' } else if d == 1 { '1' } else if d == 2 { '2' } else if d == 3 { '3' }
    else if d == 4 { '4' } else if d == 5 { '5' } else if d == 6 { '6' } else if d == 7 { '7' }
    else if d == 8 { '8' } else { '9' }
}

/// `n` written in decimal, without leading zeros.
pub open spec fn decimal(n: nat) -> Seq<char>
    decreases n,
{
    if n < 10 {
        seq![digit_char(n)]
    } else {
        decimal(n / 10) + seq![digit_char(n % 10)]
    }
}

/// `"Component "`
pub open spec fn component_prefix() -> Seq<char> {
    seq!['C', 'o', 'm', 'p', 'o', 'n', 'e', 'n', 't', ' ']
}

/// `"Factor "`
pub open spec fn factor_prefix() -> Seq<char> {
    seq!['F', 'a', 'c', 't', 'o', 'r', ' ']
}

fn digit_str(d: usize) -> (r: &'static str)
    requires
        d < 10,
    ensures
        r@ == seq![digit_char(d as nat)],
{
    proof {
        reveal_strlit("0");
        reveal_strlit("1");
        reveal_strlit("2");
        reveal_strlit("3");
        reveal_strlit("4");
        reveal_strlit("5");
        reveal_strlit("6");
        reveal_strlit("7");
        reveal_strlit("8");
        reveal_strlit("9");
    }
    match d {
        0 => "0",
        1 => "1",
        2 => "2",
        3 => "3",
        4 => "4",
        5 => "5",
        6 => "6",
        7 => "7",
        8 => "8",
        _ => "9",
    }
}

fn append_decimal(s: &mut String, n: usize)
    ensures
        final(s)@ == old(s)@ + decimal(n as nat),
    decreases n,
{
    if n >= 10 {
        append_decimal(s, n / 10);
    }
    s.append(digit_str(n % 10));
    proof {
        if n >= 10 {
            assert(final(s)@ =~= old(s)@ + decimal(n as nat));
        } else {
            assert(final(s)@ =~= old(s)@ + decimal(n as nat));
        }
    }
}

/// `"Component n"`
pub fn component_label(n: usize) -> (r: String)
    ensures
        r@ == component_prefix() + decimal(n as nat),
{
    proof {
        reveal_strlit("Component ");
    }
    let mut s = String::from_str("Component ");
    append_decimal(&mut s, n);
    s
}

/// `"Factor n"`
pub fn factor_label(n: usize) -> (r: String)
    ensures
        r@ == factor_prefix() + decimal(n as nat),
{
    proof {
        reveal_strlit("Factor ");
    }
    let mut s = String::from_str("Factor ");
    append_decimal(&mut s, n);
    s
}

/// The score column labels `"Factor 1"` to `"Factor k"`, in retained-factor
/// order.
pub fn factor_labels(k: usize) -> (r: Vec<String>)
    ensures
        r@.len() == k,
        forall|j: int| 0 <= j < k ==> (#[trigger] r@[j])@ == factor_prefix() + decimal((j + 1) as nat),
{
    let mut r: Vec<String> = Vec::new();
    let mut j: usize = 0;
    while j < k
        invariant
            j <= k,
            r@.len() == j,
            forall|b: int| 0 <= b < j ==> (#[trigger] r@[b])@ == factor_prefix() + decimal((b + 1) as nat),
        decreases k - j,
    {
        r.push(factor_label(j + 1));
        j += 1;
    }
    r
}

} // verus!
