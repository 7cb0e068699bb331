use vstd::prelude::*;
use vstd::string::*;

verus! {

/// What a controller is mapped to.
#[derive(Clone, Debug)]
pub enum Action {
    /// Tap the named key (down, then up).
    Key { code: String },
    /// Spawn the command as it stands.
    Command { cmd: String },
    /// Spawn the template with `{}` replaced by the value as a percentage,
    /// only when that percentage changed.
    Linear { template: String },
    /// Spawn `inc_cmd` when the value rose, `dec_cmd` when it fell.
    Relative { inc_cmd: String, dec_cmd: String },
}

/// A side effect that the engine asks for.
#[derive(Clone, Debug)]
pub enum Effect {
    /// Emit a key-down followed by a key-up of this key code.
    KeyTap { code: String },
    /// Spawn this shell command, detached.
    Spawn { cmd: String },
}

/// The mathematical value of an [`Effect`].
pub ghost enum EffectModel {
    KeyTap(Seq<char>),
    Spawn(Seq<char>),
}

impl View for Effect {
    type V = EffectModel;

    open spec fn view(&self) -> EffectModel {
        match self {
            Effect::KeyTap { code } => EffectModel::KeyTap(code@),
            Effect::Spawn { cmd } => EffectModel::Spawn(cmd@),
        }
    }
}

/// The value of an optional effect.
pub open spec fn effect_view(e: Option<Effect>) -> Option<EffectModel> {
    match e {
        Some(e) => Some(e@),
        None => None,
    }
}

/// `round(value / 127 * 100)`. No value lies exactly half-way between two
/// integers, since 127 is odd and divides `200 * value` only for 0 and 127.
pub open spec fn percent_spec(value: u8) -> u8 {
    ((200 * value as int + 127) / 254) as u8
}

/// The rounded percentage of a raw value in `0..=127` (larger bytes give
/// values above 100 by the same formula).
pub fn percent_of(value: u8) -> (r: u8)
    ensures
        r == percent_spec(value),
        value <= 127 ==> r <= 100,
{
    ((200 * value as u32 + 127) / 254) as u8
}

/// The decimal digit `d` as a character.
pub open spec fn digit_char(d: nat) -> char {
    if d == 0 {
        '0'
    } else if d == 1 {
        '1'
    } else if d == 2 {
        '2'
    } else if d == 3 {
        '3'
    } else if d == 4 {
        '4'
    } else if d == 5 {
        '5'
    } else if d == 6 {
        '6'
    } else if d == 7 {
        '7'
    } else if d == 8 {
        '8'
    } else {
        '9'
    }
}

/// The decimal digits of `n`, without leading zeros.
pub open spec fn decimal(n: nat) -> Seq<char>
    decreases n,
{
    if n < 10 {
        seq![digit_char(n)]
    } else {
        decimal(n / 10).push(digit_char(n % 10))
    }
}

fn digit_text(d: u8) -> (r: &'static str)
    requires
        d < 10,
    ensures
        r@ == seq![digit_char(d as nat)],
{
    proof {
        reveal_strlit("0");
        reveal_strlit("1");
        reveal_strlit("2");
        reveal_strlit("3");
        reveal_strlit("4");
        reveal_strlit("5");
        reveal_strlit("6");
        reveal_strlit("7");
        reveal_strlit("8");
        reveal_strlit("9");
    }
    if d == 0 {
        "0"
    } else if d == 1 {
        "1"
    } else if d == 2 {
        "2"
    } else if d == 3 {
        "3"
    } else if d == 4 {
        "4"
    } else if d == 5 {
        "5"
    } else if d == 6 {
        "6"
    } else if d == 7 {
        "7"
    } else if d == 8 {
        "8"
    } else {
        "9"
    }
}

/// `n` written in decimal.
pub fn percent_text(n: u8) -> (r: String)
    ensures
        r@ == decimal(n as nat),
{
    let mut s = String::new();
    if n >= 100 {
        s.append(digit_text(n / 100));
    }
    if n >= 10 {
        s.append(digit_text((n / 10) % 10));
    }
    s.append(digit_text(n % 10));
    proof {
        let k = n as nat;
        if k >= 100 {
            assert((k / 10) / 10 == k / 100);
            assert(k / 100 < 10);
            assert(decimal(k / 100) == seq![digit_char(k / 100)]);
            assert(decimal(k / 10) =~= seq![digit_char(k / 100), digit_char((k / 10) % 10)]);
        } else if k >= 10 {
            assert(decimal(k / 10) == seq![digit_char(k / 10)]);
        }
        assert(s@ =~= decimal(k));
    }
    s
}

/// The template with every `{}` replaced by `text`, scanned left to right.
pub open spec fn fill(t: Seq<char>, text: Seq<char>) -> Seq<char>
    decreases t.len(),
{
    if t.len() < 2 {
        t
    } else if t[0] == '{' && t[1] == '}' {
        text + fill(t.skip(2), text)
    } else {
        seq![t[0]] + fill(t.skip(1), text)
    }
}

/// Replaces every `{}` placeholder of `template` by `text`.
pub fn fill_template(template: &str, text: &str) -> (r: String)
    ensures
        r@ == fill(template@, text@),
{
    let n = template.unicode_len();
    let mut out = String::new();
    let mut i: usize = 0;
    assert(template@.skip(0) =~= template@);
    assert(out@ + template@ =~= template@);
    while n - i > 1
        invariant
            n == template@.len(),
            i <= n,
            out@ + fill(template@.skip(i as int), text@) == fill(template@, text@),
        decreases n - i,
    {
        let rest = Ghost(template@.skip(i as int));
        if template.get_char(i) == '{' && template.get_char(i + 1) == '}' {
            out.append(text);
            assert(rest@.skip(2) =~= template@.skip(i + 2));
            i = i + 2;
        } else {
            out.append(template.substring_char(i, i + 1));
            assert(rest@.skip(1) =~= template@.skip(i + 1));
            assert(template@.subrange(i as int, i + 1) =~= seq![rest@[0]]);
            i = i + 1;
        }
    }
    let tail = template.substring_char(i, n);
    assert(tail@ =~= template@.skip(i as int));
    out.append(tail);
    assert(out@ =~= fill(template@, text@));
    out
}

} // verus!
