//! The bus channel naming convention. The name derived from a
//! participant id is the sole coupling contract between that
//! participant's source pipeline (publish side) and the room mix
//! pipeline (subscribe side): both must spell it identically.

use vstd::prelude::*;

verus! {

/// The decimal digit character for `d` (meaningful for `d < 10`).
pub open spec fn digit_char(d: nat) -> char {
    if d == 0 {
        '0'
    } else if d == 1 {
        '1'
    } else if d == 2 {
        '2'
    } else if d == 3 {
        '3'
    } else if d == 4 {
        '4'
    } else if d == 5 {
        '5'
    } else if d == 6 {
        '6'
    } else if d == 7 {
        '7'
    } else if d == 8 {
        '8'
    } else {
        '9'
    }
}

/// The decimal digits of `n`, most significant first, no leading zeros
/// (a single zero for zero itself).
pub open spec fn dec_rep(n: nat) -> Seq<char>
    decreases n,
{
    if n < 10 {
        seq![digit_char(n)]
    } else {
        dec_rep(n / 10).push(digit_char(n % 10))
    }
}

/// The channel name participant `id` publishes to and the room mix
/// subscribes to.
pub open spec fn channel_name_seq(id: nat) -> Seq<char> {
    "user-"@ + dec_rep(id) + "-stream"@
}

/// Appends the decimal digits of `n` to `s`.
fn push_decimal(n: u32, s: &mut String)
    ensures
        final(s)@ == old(s)@ + dec_rep(n as nat),
    decreases n,
{
    if n >= 10 {
        push_decimal(n / 10, s);
    }
    let d = n % 10;
    proof {
        reveal_strlit("0");
        reveal_strlit("1");
        reveal_strlit("2");
        reveal_strlit("3");
        reveal_strlit("4");
        reveal_strlit("5");
        reveal_strlit("6");
        reveal_strlit("7");
        reveal_strlit("8");
        reveal_strlit("9");
    }
    let digit: &str = if d == 0 {
        "0"
    } else if d == 1 {
        "1"
    } else if d == 2 {
        "2"
    } else if d == 3 {
        "3"
    } else if d == 4 {
        "4"
    } else if d == 5 {
        "5"
    } else if d == 6 {
        "6"
    } else if d == 7 {
        "7"
    } else if d == 8 {
        "8"
    } else {
        "9"
    };
    proof {
        assert(digit@ =~= seq![digit_char((n % 10) as nat)]);
    }
    s.append(digit);
    proof {
        if n < 10 {
            assert(s@ =~= old(s)@ + dec_rep(n as nat));
        } else {
            assert(s@ =~= old(s)@ + dec_rep(n as nat));
        }
    }
}

/// A decimal representation holds at least one digit.
pub proof fn lemma_dec_rep_len(n: nat)
    ensures
        dec_rep(n).len() >= 1,
    decreases n,
{
    if n >= 10 {
        lemma_dec_rep_len(n / 10);
    }
}

/// Distinct digits have distinct characters.
proof fn lemma_digit_char_injective(a: nat, b: nat)
    requires
        a < 10,
        b < 10,
        digit_char(a) == digit_char(b),
    ensures
        a == b,
{
}

/// The decimal representation is injective: two numbers with the same
/// digits are the same number.
pub proof fn lemma_dec_rep_injective(a: nat, b: nat)
    requires
        dec_rep(a) == dec_rep(b),
    ensures
        a == b,
    decreases a,
{
    lemma_dec_rep_len(a / 10);
    lemma_dec_rep_len(b / 10);
    if a < 10 && b < 10 {
        assert(dec_rep(a) == seq![digit_char(a)]);
        assert(dec_rep(b) == seq![digit_char(b)]);
        assert(digit_char(a) == dec_rep(a)[0]);
        assert(digit_char(b) == dec_rep(b)[0]);
        lemma_digit_char_injective(a, b);
    } else if a < 10 {
        assert(dec_rep(a).len() == 1);
        assert(dec_rep(b).len() == dec_rep(b / 10).len() + 1);
    } else if b < 10 {
        assert(dec_rep(b).len() == 1);
        assert(dec_rep(a).len() == dec_rep(a / 10).len() + 1);
    } else {
        assert(dec_rep(a).last() == digit_char(a % 10));
        assert(dec_rep(b).last() == digit_char(b % 10));
        lemma_digit_char_injective(a % 10, b % 10);
        assert(dec_rep(a).drop_last() =~= dec_rep(a / 10));
        assert(dec_rep(b).drop_last() =~= dec_rep(b / 10));
        assert(dec_rep(a / 10) =~= dec_rep(b / 10));
        lemma_dec_rep_injective(a / 10, b / 10);
        assert(a == 10 * (a / 10) + a % 10);
        assert(b == 10 * (b / 10) + b % 10);
    }
}

/// Distinct participant ids map to distinct channel names: no two
/// publishers can ever contend for the same bus channel.
pub proof fn lemma_channel_names_distinct(a: u32, b: u32)
    requires
        a != b,
    ensures
        channel_name_seq(a as nat) != channel_name_seq(b as nat),
{
    if channel_name_seq(a as nat) == channel_name_seq(b as nat) {
        let prefix = "user-"@;
        let suffix = "-stream"@;
        let da = dec_rep(a as nat);
        let db = dec_rep(b as nat);
        assert((prefix + da + suffix).len() == (prefix + db + suffix).len());
        assert(da.len() == db.len());
        assert forall|k: int| 0 <= k < da.len() implies da[k] == db[k] by {
            assert((prefix + da + suffix)[prefix.len() + k] == da[k]);
            assert((prefix + db + suffix)[prefix.len() + k] == db[k]);
        }
        assert(da =~= db);
        lemma_dec_rep_injective(a as nat, b as nat);
    }
}

/// Builds the channel name `id` maps to under the naming convention.
pub fn channel_name(id: u32) -> (r: String)
    ensures
        r@ == channel_name_seq(id as nat),
{
    let mut s = String::new();
    s.append("user-");
    push_decimal(id, &mut s);
    s.append("-stream");
    proof {
        assert(s@ =~= channel_name_seq(id as nat));
    }
    s
}

} // verus!
