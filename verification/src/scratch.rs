use vstd::prelude::*;
use vstd::string::StringExecFns;

verus! {

/// The character that stands for a decimal digit.
pub open spec fn digit_char(digit: nat) -> char
    recommends
        digit < 10,
{
    if digit == 0 {
        '0'
    } else if digit == 1 {
        '1'
    } else if digit == 2 {
        '2'
    } else if digit == 3 {
        '3'
    } else if digit == 4 {
        '4'
    } else if digit == 5 {
        '5'
    } else if digit == 6 {
        '6'
    } else if digit == 7 {
        '7'
    } else if digit == 8 {
        '8'
    } else {
        '9'
    }
}

/// The decimal numeral of `n`: most significant digit first, no leading
/// zero, and the single digit `0` for zero.
pub open spec fn decimal(n: nat) -> Seq<char>
    decreases n,
{
    if n < 10 {
        seq![digit_char(n)]
    } else {
        decimal(n / 10).push(digit_char(n % 10))
    }
}

/// The character that parts the guild from the file's name in a scratch
/// name. It is no digit, so the numeral ends where it stands.
pub open spec fn separator() -> char {
    '_'
}

/// Whether the character is one of the ten decimal digits.
pub open spec fn is_digit(c: char) -> bool {
    c == '0' || c == '1' || c == '2' || c == '3' || c == '4' || c == '5' || c == '6' || c == '7'
        || c == '8' || c == '9'
}

/// The name of the scratch file that holds the clip `filename` uploaded in
/// `guild`: the guild's decimal numeral, the separator, and the file's name.
/// No two pairs of guild and file name share a scratch name.
pub open spec fn spec_scratch_name(guild: u64, filename: Seq<char>) -> Seq<char> {
    decimal(guild as nat).push(separator()) + filename
}

fn digit_text(digit: u64) -> (text: &'static str)
    requires
        digit < 10,
    ensures
        text@ == seq![digit_char(digit as nat)],
{
    proof {
        reveal_strlit("0");
        reveal_strlit("1");
        reveal_strlit("2");
        reveal_strlit("3");
        reveal_strlit("4");
        reveal_strlit("5");
        reveal_strlit("6");
        reveal_strlit("7");
        reveal_strlit("8");
        reveal_strlit("9");
    }
    let text = match digit {
        0 => "0",
        1 => "1",
        2 => "2",
        3 => "3",
        4 => "4",
        5 => "5",
        6 => "6",
        7 => "7",
        8 => "8",
        _ => "9",
    };
    assert(text@ =~= seq![digit_char(digit as nat)]);
    text
}

/// Writes `n` as a decimal numeral.
pub fn decimal_text(n: u64) -> (text: String)
    ensures
        text@ == decimal(n as nat),
    decreases n,
{
    if n < 10 {
        String::from_str(digit_text(n))
    } else {
        let mut text = decimal_text(n / 10);
        text.append(digit_text(n % 10));
        assert(text@ =~= decimal(n as nat));
        text
    }
}

/// The name under which the clip `filename` uploaded in `guild` is stored in
/// the scratch directory.
pub fn scratch_name(guild: u64, filename: &str) -> (name: String)
    ensures
        name@ == spec_scratch_name(guild, filename@),
{
    proof {
        reveal_strlit("_");
    }
    let mut name = decimal_text(guild);
    name.append("_");
    assert(name@ =~= decimal(guild as nat).push(separator()));
    name.append(filename);
    name
}

/// A numeral has at least one digit.
pub proof fn lemma_decimal_nonempty(n: nat)
    ensures
        decimal(n).len() >= 1,
    decreases n,
{
    if n >= 10 {
        lemma_decimal_nonempty(n / 10);
    }
}

/// Different numbers have different numerals.
pub proof fn lemma_decimal_injective(a: nat, b: nat)
    requires
        decimal(a) == decimal(b),
    ensures
        a == b,
    decreases a,
{
    if a < 10 && b < 10 {
        assert(decimal(a)[0] == digit_char(a));
        assert(decimal(b)[0] == digit_char(b));
    } else if a < 10 {
        lemma_decimal_nonempty(b / 10);
    } else if b < 10 {
        lemma_decimal_nonempty(a / 10);
    } else {
        let da = decimal(a / 10);
        let db = decimal(b / 10);
        assert(decimal(a).len() == da.len() + 1);
        assert(decimal(b).len() == db.len() + 1);
        assert(decimal(a)[da.len() as int] == digit_char(a % 10));
        assert(decimal(b)[db.len() as int] == digit_char(b % 10));
        assert(a % 10 == b % 10);
        assert(da =~= decimal(a).drop_last());
        assert(db =~= decimal(b).drop_last());
        lemma_decimal_injective(a / 10, b / 10);
    }
}

/// A numeral is made of digits only.
pub proof fn lemma_decimal_is_digits(n: nat)
    ensures
        forall|i: int| 0 <= i < decimal(n).len() ==> is_digit(#[trigger] decimal(n)[i]),
    decreases n,
{
    if n >= 10 {
        lemma_decimal_is_digits(n / 10);
        let head = decimal(n / 10);
        assert forall|i: int| 0 <= i < decimal(n).len() implies is_digit(
            #[trigger] decimal(n)[i],
        ) by {
            if i < head.len() {
                assert(decimal(n)[i] == head[i]);
            } else {
                assert(decimal(n)[i] == digit_char(n % 10));
            }
        }
    } else {
        assert(decimal(n)[0] == digit_char(n));
    }
}

/// Scratch names are unique per guild and file name: two uploads that get the
/// same scratch name come from the same guild and carry the same file name.
pub proof fn lemma_scratch_name_injective(
    guild_a: u64,
    file_a: Seq<char>,
    guild_b: u64,
    file_b: Seq<char>,
)
    requires
        spec_scratch_name(guild_a, file_a) == spec_scratch_name(guild_b, file_b),
    ensures
        guild_a == guild_b,
        file_a == file_b,
{
    let name_a = spec_scratch_name(guild_a, file_a);
    let name_b = spec_scratch_name(guild_b, file_b);
    let num_a = decimal(guild_a as nat);
    let num_b = decimal(guild_b as nat);
    let len_a = num_a.len() as int;
    let len_b = num_b.len() as int;
    lemma_decimal_is_digits(guild_a as nat);
    lemma_decimal_is_digits(guild_b as nat);
    assert(name_a[len_a] == separator());
    assert(name_b[len_b] == separator());
    if len_a < len_b {
        assert(name_b[len_a] == num_b[len_a]);
        assert(is_digit(num_b[len_a]));
    } else if len_b < len_a {
        assert(name_a[len_b] == num_a[len_b]);
        assert(is_digit(num_a[len_b]));
    }
    assert(len_a == len_b);
    assert(num_a =~= name_a.subrange(0, len_a));
    assert(num_b =~= name_b.subrange(0, len_b));
    lemma_decimal_injective(guild_a as nat, guild_b as nat);
    assert(name_a.len() == len_a + 1 + file_a.len());
    assert(name_b.len() == len_b + 1 + file_b.len());
    assert(file_a =~= name_a.subrange(len_a + 1, name_a.len() as int));
    assert(file_b =~= name_b.subrange(len_b + 1, name_b.len() as int));
}

} // verus!
