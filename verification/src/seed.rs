//! The seed of the app's network: a fresh one for every launch.

use vstd::arithmetic::div_mod::{
    lemma_basic_div, lemma_div_denominator, lemma_fundamental_div_mod,
};
use vstd::arithmetic::power::{lemma_pow_positive, pow};
use vstd::prelude::*;

use crate::text::digit_char;

verus! {

/// The hexadecimal digit at the position `at` of a number of 32 such digits, the highest first.
pub open spec fn hex_digit(n: nat, at: int) -> int {
    (n as int / pow(16, (31 - at) as nat)) % 16
}

/// A number that is a UUID drawn at random: its digits say version 4 and the usual variant.
pub open spec fn is_random_uuid(n: nat) -> bool {
    &&& hex_digit(n, 12) == 4
    &&& 8 <= hex_digit(n, 16) <= 11
}

/// The places of the hyphens in the text of a UUID.
pub open spec fn is_hyphen_place(at: int) -> bool {
    at == 8 || at == 13 || at == 18 || at == 23
}

/// How many hyphens stand before a place in the text of a UUID.
pub open spec fn hyphens_before(at: int) -> int {
    if at <= 8 {
        0
    } else if at <= 13 {
        1
    } else if at <= 18 {
        2
    } else if at <= 23 {
        3
    } else {
        4
    }
}

/// The text of a UUID: lower-case digits in groups of 8, 4, 4, 4 and 12, parted by hyphens.
pub open spec fn uuid_chars(n: nat) -> Seq<char> {
    Seq::new(
        36,
        |at: int|
            if is_hyphen_place(at) {
                '-'
            } else {
                digit_char(hex_digit(n, at - hyphens_before(at)))
            },
    )
}

/// `uuid::Uuid::new_v4`, as the number that `as_u128` makes of its result. Which number comes
/// depends on the system's random source; whatever comes has the digits of version 4 and of the
/// usual variant. The call panics where the system has no random bytes to give.
#[verifier::external_body]
fn random_uuid() -> (n: u128)
    ensures
        is_random_uuid(n as nat),
{
    uuid::Uuid::new_v4().as_u128()
}

/// `to_string` of `uuid::Uuid`, on the UUID that `from_u128` makes of a number: the hyphenated
/// lower-case text.
#[verifier::external_body]
fn uuid_to_string(n: u128) -> (text: String)
    ensures
        text@ == uuid_chars(n as nat),
{
    uuid::Uuid::from_u128(n).to_string()
}

/// The network seed that stands for a number.
pub fn seed_text(n: u128) -> (seed: String)
    ensures
        seed@ == uuid_chars(n as nat),
{
    uuid_to_string(n)
}

/// A fresh network seed: the text of a random UUID.
pub fn random_network_seed() -> (seed: String)
    ensures
        exists|n: u128| is_random_uuid(n as nat) && seed@ == #[trigger] uuid_chars(n as nat),
{
    let n: u128 = random_uuid();
    seed_text(n)
}

/// The text of a random UUID has 36 characters, shows the version in its third group and the
/// variant in its fourth.
pub proof fn random_seed_shows_its_kind(n: nat)
    requires
        is_random_uuid(n),
    ensures
        uuid_chars(n).len() == 36,
        forall|at: int| 0 <= at < 36 ==> (uuid_chars(n)[at] == '-' <==> is_hyphen_place(at)),
        uuid_chars(n)[14] == '4',
        uuid_chars(n)[19] == '8' || uuid_chars(n)[19] == '9' || uuid_chars(n)[19] == 'a'
            || uuid_chars(n)[19] == 'b',
{
}

proof fn leading_digits_agree(m: nat, n: nat, count: nat)
    requires
        m < pow(16, 32),
        n < pow(16, 32),
        count <= 32,
        forall|at: int| 0 <= at < 32 ==> #[trigger] hex_digit(m, at) == hex_digit(n, at),
    ensures
        m as int / pow(16, (32 - count) as nat) == n as int / pow(16, (32 - count) as nat),
    decreases count,
{
    if count == 0 {
        lemma_basic_div(m as int, pow(16, 32));
        lemma_basic_div(n as int, pow(16, 32));
    } else {
        leading_digits_agree(m, n, (count - 1) as nat);
        let unit = pow(16, (32 - count) as nat);
        lemma_pow_positive(16, (32 - count) as nat);
        reveal_with_fuel(pow, 2);
        assert(pow(16, (32 - count + 1) as nat) == 16 * unit);
        lemma_div_denominator(m as int, unit, 16);
        lemma_div_denominator(n as int, unit, 16);
        assert(unit * 16 == 16 * unit) by (nonlinear_arith);
        lemma_fundamental_div_mod(m as int / unit, 16);
        lemma_fundamental_div_mod(n as int / unit, 16);
        assert(hex_digit(m, count - 1) == hex_digit(n, count - 1));
    }
}

/// Different numbers have different seeds.
pub proof fn seeds_tell_numbers_apart(m: u128, n: u128)
    requires
        uuid_chars(m as nat) == uuid_chars(n as nat),
    ensures
        m == n,
{
    assert forall|at: int| 0 <= at < 32 implies #[trigger] hex_digit(m as nat, at) == hex_digit(
        n as nat,
        at,
    ) by {
        let place = if at < 8 {
            at
        } else if at < 12 {
            at + 1
        } else if at < 16 {
            at + 2
        } else if at < 20 {
            at + 3
        } else {
            at + 4
        };
        assert(uuid_chars(m as nat)[place] == digit_char(hex_digit(m as nat, at)));
        assert(uuid_chars(n as nat)[place] == digit_char(hex_digit(n as nat, at)));
    }
    assert(pow(16, 32) == 0x1_0000_0000_0000_0000_0000_0000_0000_0000) by {
        reveal_with_fuel(pow, 33);
    }
    leading_digits_agree(m as nat, n as nat, 32);
    assert(pow(16, 0) == 1) by {
        reveal(pow);
    }
}

/// The number that the text of a UUID stands for: its hexadecimal digits, read over the hyphens.
pub open spec fn uuid_value(text: Seq<char>) -> int
    decreases text.len(),
{
    if text.len() == 0 {
        0
    } else if text.last() == '-' {
        uuid_value(text.drop_last())
    } else if '0' <= text.last() <= '9' {
        16 * uuid_value(text.drop_last()) + (text.last() as int - '0' as int)
    } else {
        16 * uuid_value(text.drop_last()) + (text.last() as int - 'a' as int) + 10
    }
}

proof fn prefix_reads_back(n: nat, count: nat)
    requires
        n < pow(16, 32),
        count <= 36,
    ensures
        uuid_value(uuid_chars(n).take(count as int)) == n as int / pow(
            16,
            (32 - (count - hyphens_before(count as int))) as nat,
        ),
    decreases count,
{
    let prefix = uuid_chars(n).take(count as int);
    if count == 0 {
        lemma_basic_div(n as int, pow(16, 32));
    } else {
        let at = count - 1;
        prefix_reads_back(n, at as nat);
        assert(prefix.drop_last() =~= uuid_chars(n).take(at));
        assert(prefix.last() == uuid_chars(n)[at]);
        if !is_hyphen_place(at) {
            let digits = at - hyphens_before(at);
            let unit = pow(16, (31 - digits) as nat);
            lemma_pow_positive(16, (31 - digits) as nat);
            reveal_with_fuel(pow, 2);
            assert(pow(16, (32 - digits) as nat) == 16 * unit);
            lemma_div_denominator(n as int, unit, 16);
            assert(unit * 16 == 16 * unit) by (nonlinear_arith);
            lemma_fundamental_div_mod(n as int / unit, 16);
        }
    }
}

/// A seed has 36 characters, digits of the lower case but for the hyphens after the 8th, the
/// 12th, the 16th and the 20th digit, and reads back as the number that it stands for.
pub proof fn seed_reads_back(n: u128)
    ensures
        uuid_chars(n as nat).len() == 36,
        forall|at: int|
            0 <= at < 36 ==> (#[trigger] uuid_chars(n as nat)[at] == '-' <==> at == 8 || at == 13
                || at == 18 || at == 23),
        forall|at: int|
            0 <= at < 36 ==> ({
                let c = #[trigger] uuid_chars(n as nat)[at];
                c == '-' || '0' <= c <= '9' || 'a' <= c <= 'f'
            }),
        uuid_value(uuid_chars(n as nat)) == n,
{
    assert(pow(16, 32) == 0x1_0000_0000_0000_0000_0000_0000_0000_0000) by {
        reveal_with_fuel(pow, 33);
    }
    prefix_reads_back(n as nat, 36);
    assert(uuid_chars(n as nat).take(36) =~= uuid_chars(n as nat));
    assert(pow(16, 0) == 1) by {
        reveal(pow);
    }
}

/// A network seed is the text of a UUID of version 4: 36 characters in their groups, with the
/// digits of the version and of the variant in their places.
pub proof fn network_seed_is_a_random_uuid(seed: String)
    requires
        call_ensures(random_network_seed, (), seed),
    ensures
        seed@.len() == 36,
        seed@[8] == '-' && seed@[13] == '-' && seed@[18] == '-' && seed@[23] == '-',
        seed@[14] == '4',
        seed@[19] == '8' || seed@[19] == '9' || seed@[19] == 'a' || seed@[19] == 'b',
{
    let n = choose|n: u128| is_random_uuid(n as nat) && seed@ == #[trigger] uuid_chars(n as nat);
    random_seed_shows_its_kind(n as nat);
}

/// The seed of a number reads back as that number.
pub proof fn seed_of_a_number_reads_back(n: u128, seed: String)
    requires
        call_ensures(seed_text, (n,), seed),
    ensures
        uuid_value(seed@) == n,
{
    seed_reads_back(n);
}

} // verus!
