use vstd::prelude::*;

verus! {

/// The decimal digit character for `d` (`'0'` to `'9'`).
pub open spec fn digit_char(d: nat) -> char {
    if d == 0 { '0' }
    else if d == 1 { '1' }
    else if d == 2 { '2' }
    else if d == 3 { '3' }
    else if d == 4 { '4' }
    else if d == 5 { '5' }
    else if d == 6 { '6' }
    else if d == 7 { '7' }
    else if d == 8 { '8' }
    else { '9' }
}

/// The decimal representation of `n`, most significant digit first,
/// without leading zeros (`0` is written `"0"`).
pub open spec fn decimal(n: nat) -> Seq<char>
    decreases n,
{
    if n < 10 {
        seq![digit_char(n)]
    } else {
        decimal(n / 10) + seq![digit_char(n % 10)]
    }
}

/// The text reported for an exhausted budget: `"timing budget exceeded (used/budgetms)"`.
pub open spec fn exceeded_message(used_ms: u64, budget_ms: u64) -> Seq<char> {
    seq!['t', 'i', 'm', 'i', 'n', 'g', ' ', 'b', 'u', 'd', 'g', 'e', 't', ' ',
         'e', 'x', 'c', 'e', 'e', 'd', 'e', 'd', ' ', '(']
        + decimal(used_ms as nat) + seq!['/'] + decimal(budget_ms as nat)
        + seq!['m', 's', ')']
}

fn digit_str(d: u64) -> (s: &'static str)
    requires
        d < 10,
    ensures
        s@ == seq![digit_char(d as nat)],
{
    match d {
        0 => { proof { reveal_strlit("0"); } "0" },
        1 => { proof { reveal_strlit("1"); } "1" },
        2 => { proof { reveal_strlit("2"); } "2" },
        3 => { proof { reveal_strlit("3"); } "3" },
        4 => { proof { reveal_strlit("4"); } "4" },
        5 => { proof { reveal_strlit("5"); } "5" },
        6 => { proof { reveal_strlit("6"); } "6" },
        7 => { proof { reveal_strlit("7"); } "7" },
        8 => { proof { reveal_strlit("8"); } "8" },
        _ => { proof { reveal_strlit("9"); } "9" },
    }
}

/// Appends the decimal representation of `n` to `out`.
pub(crate) fn push_decimal(out: &mut String, n: u64)
    ensures
        final(out)@ == old(out)@ + decimal(n as nat),
    decreases n,
{
    if n >= 10 {
        push_decimal(out, n / 10);
    }
    out.append(digit_str(n % 10));
    proof {
        assert(old(out)@ + decimal(n as nat) =~= out@) by {
            if n >= 10 {
                assert(decimal(n as nat) == decimal((n / 10) as nat) + seq![digit_char((n % 10) as nat)]);
            }
        }
    }
}

/// Renders `exceeded_message(used_ms, budget_ms)` as a `String`.
pub(crate) fn render_exceeded(used_ms: u64, budget_ms: u64) -> (s: String)
    ensures
        s@ == exceeded_message(used_ms, budget_ms),
{
    let mut s = String::from_str("timing budget exceeded (");
    push_decimal(&mut s, used_ms);
    s.append("/");
    push_decimal(&mut s, budget_ms);
    s.append("ms)");
    proof {
        reveal_strlit("timing budget exceeded (");
        reveal_strlit("/");
        reveal_strlit("ms)");
        assert(s@ =~= exceeded_message(used_ms, budget_ms));
    }
    s
}

} // verus!
