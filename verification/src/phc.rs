//! The layout of an encoded hash string:
//! `$argon2id$v=19$m=<memory>,t=<time>,p=<lanes>$<salt>$<digest>`.
//!
//! The string itself is written and read by the primitive. The
//! specification functions here say, character for character, what it
//! holds; the one executable function looks into the parameter field of a
//! string that is to be verified.

use crate::options::HashOptions;
use vstd::prelude::*;

verus! {

/// The largest lane count that the primitive supports. Its numeral has
/// eight digits.
pub const MAX_PARALLELISM: u32 = 0xFF_FFFF;

/// The character of the decimal digit `d`, for `0 <= d <= 9`.
pub open spec fn digit(d: nat) -> char {
    (('0' as u8) + d) as char
}

/// Whether a character is a decimal digit.
pub open spec fn is_digit(c: char) -> bool {
    '0' <= c <= '9'
}

/// The decimal numeral of `n`, without leading zeros.
pub open spec fn decimal(n: nat) -> Seq<char>
    decreases n,
{
    if n < 10 {
        seq![digit(n)]
    } else {
        decimal(n / 10).push(digit(n % 10))
    }
}

/// The field that every encoded hash begins with: the algorithm's name
/// between two separators.
pub open spec fn algorithm_field() -> Seq<char> {
    "$argon2id$"@
}

/// The parameter field: the three costs in the order memory, time, lanes.
pub open spec fn parameter_text(costs: HashOptions) -> Seq<char> {
    "m="@ + decimal(costs.memory_cost as nat) + ",t="@ + decimal(costs.time_cost as nat) + ",p="@
        + decimal(costs.parallelism as nat)
}

/// What follows the algorithm field: version, parameters, salt and digest,
/// each but the first after a separator.
pub open spec fn remaining_fields(costs: HashOptions, salt: Seq<char>, digest: Seq<char>) -> Seq<
    char,
> {
    "v=19$"@ + parameter_text(costs) + "$"@ + salt + "$"@ + digest
}

/// The encoded hash string for the given costs, salt text and digest text.
pub open spec fn encoded(costs: HashOptions, salt: Seq<char>, digest: Seq<char>) -> Seq<char> {
    algorithm_field() + remaining_fields(costs, salt, digest)
}

/// Holds where a lane count of nine digits or more is written at index `i`:
/// the letter `p`, the sign `=`, and nine digits.
pub open spec fn long_lane_count_at(text: Seq<char>, i: int) -> bool {
    &&& 0 <= i
    &&& i + 11 <= text.len()
    &&& text[i] == 'p'
    &&& text[i + 1] == '='
    &&& forall|k: int| i + 2 <= k < i + 11 ==> is_digit(#[trigger] text[k])
}

/// Holds of a parameter field in which a lane count of nine digits or more
/// is written. Such a count is beyond [`MAX_PARALLELISM`], whatever else the
/// field holds.
pub open spec fn has_long_lane_count(text: Seq<char>) -> bool {
    exists|i: int| long_lane_count_at(text, i)
}

/// Every encoded hash string starts with the algorithm field.
pub proof fn lemma_encoded_starts_with_algorithm(
    costs: HashOptions,
    salt: Seq<char>,
    digest: Seq<char>,
)
    ensures
        algorithm_field().is_prefix_of(encoded(costs, salt, digest)),
{
    let rest = remaining_fields(costs, salt, digest);
    assert((algorithm_field() + rest).subrange(0, algorithm_field().len() as int)
        =~= algorithm_field());
}

/// A decimal numeral is not empty and holds digits only.
pub proof fn lemma_decimal_holds_digits(n: nat)
    ensures
        decimal(n).len() >= 1,
        forall|j: int| 0 <= j < decimal(n).len() ==> is_digit(#[trigger] decimal(n)[j]),
    decreases n,
{
    if n >= 10 {
        lemma_decimal_holds_digits(n / 10);
    }
}

/// The numeral of a number below ten to the eighth has at most eight digits.
pub proof fn lemma_decimal_of_lane_count_is_short(n: nat)
    requires
        n < 100_000_000,
    ensures
        decimal(n).len() <= 8,
{
    reveal_with_fuel(decimal, 9);
}

/// The parameter field that the primitive writes for a supported lane count
/// holds no long lane count.
pub proof fn lemma_written_parameters_have_no_long_lane_count(costs: HashOptions)
    requires
        costs.parallelism <= MAX_PARALLELISM,
    ensures
        !has_long_lane_count(parameter_text(costs)),
{
    let memory = decimal(costs.memory_cost as nat);
    let time = decimal(costs.time_cost as nat);
    let lanes = decimal(costs.parallelism as nat);
    let text = parameter_text(costs);
    lemma_decimal_holds_digits(costs.memory_cost as nat);
    lemma_decimal_holds_digits(costs.time_cost as nat);
    lemma_decimal_holds_digits(costs.parallelism as nat);
    lemma_decimal_of_lane_count_is_short(costs.parallelism as nat);
    reveal_strlit("m=");
    reveal_strlit(",t=");
    reveal_strlit(",p=");
    let a = 2 + memory.len();
    let b = a + 3 + time.len();
    assert(text.len() == b + 3 + lanes.len());
    assert forall|i: int| !long_lane_count_at(text, i) by {
        if 0 <= i && i + 11 <= text.len() && text[i] == 'p' && text[i + 1] == '=' {
            // The letter stands in no numeral and in neither of the first
            // two names, so it is the one before the lane count.
            assert(i == b + 1) by {
                if i < 2 {
                } else if i < a {
                    assert(text[i] == memory[i - 2]);
                } else if i < a + 3 {
                } else if i < b {
                    assert(text[i] == time[i - a - 3]);
                } else if i < b + 3 {
                } else {
                    assert(text[i] == lanes[i - b - 3]);
                }
            }
            assert(false);
        }
    }
}

/// Looks at the eleven characters from index `i` on, in a text of `n`
/// characters.
fn long_lane_count_starts(parameters: &str, n: usize, i: usize) -> (found: bool)
    requires
        n == parameters@.len(),
        i + 11 <= n,
    ensures
        found == long_lane_count_at(parameters@, i as int),
{
    if parameters.get_char(i) != 'p' || parameters.get_char(i + 1) != '=' {
        return false;
    }
    let mut k: usize = i + 2;
    while k < i + 11
        invariant
            i + 2 <= k <= i + 11,
            n == parameters@.len(),
            i + 11 <= n,
            forall|j: int| i + 2 <= j < k ==> is_digit(#[trigger] parameters@[j]),
        decreases i + 11 - k,
    {
        let c = parameters.get_char(k);
        if c < '0' || c > '9' {
            return false;
        }
        k += 1;
    }
    true
}

/// Tells whether a parameter field holds a lane count of nine digits or
/// more.
pub fn scan_lane_count(parameters: &str) -> (found: bool)
    ensures
        found == has_long_lane_count(parameters@),
{
    let n = parameters.unicode_len();
    if n < 11 {
        return false;
    }
    let mut i: usize = 0;
    while i <= n - 11
        invariant
            n == parameters@.len(),
            n >= 11,
            i <= n - 10,
            forall|j: int| 0 <= j < i ==> !long_lane_count_at(parameters@, j),
        decreases n - i,
    {
        if long_lane_count_starts(parameters, n, i) {
            return true;
        }
        i += 1;
    }
    false
}

} // verus!
