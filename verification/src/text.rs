use vstd::prelude::*;

verus! {

/// The character of a decimal digit.
pub open spec fn digit_char(d: nat) -> char {
    if d == 0 {
        '0'
    } else if d == 1 {
        '1'
    } else if d == 2 {
        '2'
    } else if d == 3 {
        '3'
    } else if d == 4 {
        '4'
    } else if d == 5 {
        '5'
    } else if d == 6 {
        '6'
    } else if d == 7 {
        '7'
    } else if d == 8 {
        '8'
    } else {
        '9'
    }
}

/// `n` written in decimal, without sign or leading zeros.
pub open spec fn decimal(n: nat) -> Seq<char>
    decreases n,
{
    if n < 10 {
        seq![digit_char(n)]
    } else {
        decimal(n / 10).push(digit_char(n % 10))
    }
}

fn digit_str(d: u32) -> (s: &'static str)
    requires
        d < 10,
    ensures
        s@ == seq![digit_char(d as nat)],
{
    if d == 0 {
        proof {
            reveal_strlit("0");
        }
        "0"
    } else if d == 1 {
        proof {
            reveal_strlit("1");
        }
        "1"
    } else if d == 2 {
        proof {
            reveal_strlit("2");
        }
        "2"
    } else if d == 3 {
        proof {
            reveal_strlit("3");
        }
        "3"
    } else if d == 4 {
        proof {
            reveal_strlit("4");
        }
        "4"
    } else if d == 5 {
        proof {
            reveal_strlit("5");
        }
        "5"
    } else if d == 6 {
        proof {
            reveal_strlit("6");
        }
        "6"
    } else if d == 7 {
        proof {
            reveal_strlit("7");
        }
        "7"
    } else if d == 8 {
        proof {
            reveal_strlit("8");
        }
        "8"
    } else {
        proof {
            reveal_strlit("9");
        }
        "9"
    }
}

/// Appends `n` in decimal to `out`.
pub(crate) fn push_decimal(out: &mut String, n: u32)
    ensures
        final(out)@ == old(out)@ + decimal(n as nat),
    decreases n,
{
    if n >= 10 {
        push_decimal(out, n / 10);
    }
    out.append(digit_str(n % 10));
    proof {
        if n >= 10 {
            assert(decimal(n as nat) == decimal((n / 10) as nat).push(digit_char((n % 10) as nat)));
        }
    }
}

/// `n` written in decimal.
pub fn decimal_string(n: u32) -> (s: String)
    ensures
        s@ == decimal(n as nat),
{
    let mut s = String::new();
    push_decimal(&mut s, n);
    s
}

/// The text of a gauge: `prefix`, then `value/max`.
pub open spec fn gauge_text(prefix: Seq<char>, value: u32, max: u32) -> Seq<char> {
    prefix + decimal(value as nat) + "/"@ + decimal(max as nat)
}

/// Writes `prefix` followed by `value/max`.
pub fn gauge_string(prefix: &str, value: u32, max: u32) -> (s: String)
    ensures
        s@ == gauge_text(prefix@, value, max),
{
    let mut s = String::from_str(prefix);
    push_decimal(&mut s, value);
    s.append("/");
    push_decimal(&mut s, max);
    s
}

/// The text of a menu entry: marked with "> " where the cursor is on it.
pub open spec fn entry_text(label: Seq<char>, selected: bool) -> Seq<char> {
    if selected {
        "> "@ + label
    } else {
        label
    }
}

/// Writes a menu entry, marked where the cursor is on it.
pub fn entry_string(label: &str, selected: bool) -> (s: String)
    ensures
        s@ == entry_text(label@, selected),
{
    if selected {
        let mut s = String::from_str("> ");
        s.append(label);
        s
    } else {
        String::from_str(label)
    }
}

/// The line of the victory screen that names the experience won.
pub open spec fn exp_gained_text(reward: u32) -> Seq<char> {
    "Gained "@ + decimal(reward as nat) + " EXP"@
}

/// Writes the line of the victory screen that names the experience won.
pub fn exp_gained_string(reward: u32) -> (s: String)
    ensures
        s@ == exp_gained_text(reward),
{
    let mut s = String::from_str("Gained ");
    push_decimal(&mut s, reward);
    s.append(" EXP");
    s
}

/// The line of the victory screen that announces a level gained.
pub open spec fn level_up_text(level: u32) -> Seq<char> {
    "Level up! Now level "@ + decimal(level as nat)
}

/// Writes the line of the victory screen that announces a level gained.
pub fn level_up_string(level: u32) -> (s: String)
    ensures
        s@ == level_up_text(level),
{
    let mut s = String::from_str("Level up! Now level ");
    push_decimal(&mut s, level);
    s
}

/// The message shown when a spell costs more MP than the caster has.
pub open spec fn not_enough_mp_text(spell_name: Seq<char>) -> Seq<char> {
    "Not enough MP for "@ + spell_name + "!"@
}

/// Writes the message shown when a spell costs more MP than the caster
/// has.
pub fn not_enough_mp_string(spell_name: &str) -> (s: String)
    ensures
        s@ == not_enough_mp_text(spell_name@),
{
    let mut s = String::from_str("Not enough MP for ");
    s.append(spell_name);
    s.append("!");
    s
}

} // verus!
