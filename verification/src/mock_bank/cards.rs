//! The bank's test cards and the Luhn check of card numbers.
use vstd::prelude::*;
use crate::text::str_eq;

verus! {

/// A card the mock bank knows, with its balance and what it is meant to test.
#[derive(Debug, Clone, Copy)]
pub struct TestCard {
    pub number: &'static str,
    pub cvv: &'static str,
    pub expiry: &'static str,
    pub balance_cents: i64,
    pub usage: &'static str,
}

/// A test card with its texts taken as character sequences.
pub struct TestCardView {
    pub number: Seq<char>,
    pub cvv: Seq<char>,
    pub expiry: Seq<char>,
    pub balance_cents: i64,
    pub usage: Seq<char>,
}

impl View for TestCard {
    type V = TestCardView;

    open spec fn view(&self) -> TestCardView {
        TestCardView {
            number: self.number@,
            cvv: self.cvv@,
            expiry: self.expiry@,
            balance_cents: self.balance_cents,
            usage: self.usage@,
        }
    }
}

/// The cards the bank knows, in order.
pub open spec fn test_card_table() -> Seq<TestCardView> {
    seq![
        TestCardView {
            number: "4111111111111111"@,
            cvv: "123"@,
            expiry: "12/2030"@,
            balance_cents: 1000000,
            usage: "Happy path"@,
        },
        TestCardView {
            number: "4242424242424242"@,
            cvv: "456"@,
            expiry: "06/2030"@,
            balance_cents: 50000,
            usage: "Low balance"@,
        },
        TestCardView {
            number: "5555555555554444"@,
            cvv: "789"@,
            expiry: "09/2030"@,
            balance_cents: 0,
            usage: "Insufficient funds"@,
        },
        TestCardView {
            number: "5105105105105100"@,
            cvv: "321"@,
            expiry: "03/2020"@,
            balance_cents: 500000,
            usage: "Expired card"@,
        },
    ]
}

/// The cards the bank knows, in order.
pub fn test_cards() -> (v: Vec<TestCard>)
    ensures
        v@.len() == test_card_table().len(),
        forall|i: int| 0 <= i < v@.len() ==> #[trigger] v@[i]@ == test_card_table()[i],
{
    let mut v: Vec<TestCard> = Vec::new();
    v.push(
        TestCard {
            number: "4111111111111111",
            cvv: "123",
            expiry: "12/2030",
            balance_cents: 1000000,
            usage: "Happy path",
        },
    );
    v.push(
        TestCard {
            number: "4242424242424242",
            cvv: "456",
            expiry: "06/2030",
            balance_cents: 50000,
            usage: "Low balance",
        },
    );
    v.push(
        TestCard {
            number: "5555555555554444",
            cvv: "789",
            expiry: "09/2030",
            balance_cents: 0,
            usage: "Insufficient funds",
        },
    );
    v.push(
        TestCard {
            number: "5105105105105100",
            cvv: "321",
            expiry: "03/2020",
            balance_cents: 500000,
            usage: "Expired card",
        },
    );
    v
}

/// The first card of `cards` whose number is `number`.
pub open spec fn find_card(cards: Seq<TestCardView>, number: Seq<char>) -> Option<TestCardView>
    decreases cards.len(),
{
    if cards.len() == 0 {
        None
    } else if cards[0].number == number {
        Some(cards[0])
    } else {
        find_card(cards.drop_first(), number)
    }
}

/// A card found by number carries that number.
pub proof fn lemma_found_card_has_number(cards: Seq<TestCardView>, number: Seq<char>)
    ensures
        find_card(cards, number) matches Some(c) ==> c.number == number,
    decreases cards.len(),
{
    if cards.len() > 0 && cards[0].number != number {
        lemma_found_card_has_number(cards.drop_first(), number);
    }
}

/// The test card with the given number, if the bank knows one.
pub fn get_card(number: &str) -> (r: Option<TestCard>)
    ensures
        match r {
            Some(c) => find_card(test_card_table(), number@) == Some(c@),
            None => find_card(test_card_table(), number@) is None,
        },
{
    let cards = test_cards();
    let ghost table = test_card_table();
    let mut i: usize = 0;
    assert(table.skip(0) =~= table);
    while i < cards.len()
        invariant
            i <= cards@.len() == table.len(),
            table == test_card_table(),
            forall|j: int| 0 <= j < cards@.len() ==> #[trigger] cards@[j]@ == table[j],
            find_card(table, number@) == find_card(table.skip(i as int), number@),
        decreases cards@.len() - i,
    {
        let c = cards[i];
        assert(table.skip(i as int)[0] == table[i as int]);
        assert(table.skip(i as int).drop_first() =~= table.skip(i + 1));
        assert(c@ == table[i as int]);
        if str_eq(c.number, number) {
            return Some(c);
        }
        i = i + 1;
    }
    None
}

/// The value of a decimal digit character, or `None` for any other character.
pub open spec fn digit_value(c: char) -> Option<nat> {
    if '0' <= c && c <= '9' {
        Some((c as nat - '0' as nat) as nat)
    } else {
        None
    }
}

/// A digit's contribution to the Luhn sum: doubled digits above 4 count
/// their doubled value less nine.
pub open spec fn luhn_term(d: nat, doubled: bool) -> nat {
    if doubled {
        if 2 * d > 9 { (2 * d - 9) as nat } else { 2 * d }
    } else {
        d
    }
}

/// Whether every character is a decimal digit.
pub open spec fn all_digits(s: Seq<char>) -> bool {
    forall|i: int| 0 <= i < s.len() ==> #[trigger] digit_value(s[i]) is Some
}

/// The Luhn sum of a digit string, counting from its right end, where the
/// last character is doubled when `doubled` holds and every other one after
/// it alternately.
pub open spec fn luhn_sum(s: Seq<char>, doubled: bool) -> nat
    decreases s.len(),
{
    if s.len() == 0 {
        0
    } else {
        let d = match digit_value(s.last()) {
            Some(d) => d,
            None => 0,
        };
        luhn_term(d, doubled) + luhn_sum(s.drop_last(), !doubled)
    }
}

/// Whether a card number passes the Luhn check: all digits, with a Luhn sum
/// divisible by ten (so the empty number passes).
pub open spec fn luhn_valid(s: Seq<char>) -> bool {
    all_digits(s) && luhn_sum(s, false) % 10 == 0
}

/// Whether the character at index `i` of a string of length `n` is doubled
/// in its Luhn sum, when the last character is doubled exactly if `doubled`.
pub open spec fn doubled_at(n: int, i: int, doubled: bool) -> bool {
    if (n - 1 - i) % 2 == 0 {
        doubled
    } else {
        !doubled
    }
}

/// Replacing one digit changes the Luhn sum by the difference of the two
/// digits' terms at that position.
proof fn lemma_luhn_sum_update(s: Seq<char>, i: int, c: char, doubled: bool)
    requires
        0 <= i < s.len(),
        digit_value(s[i]) is Some,
        digit_value(c) is Some,
    ensures
        luhn_sum(s.update(i, c), doubled) + luhn_term(
            digit_value(s[i])->0,
            doubled_at(s.len() as int, i, doubled),
        ) == luhn_sum(s, doubled) + luhn_term(
            digit_value(c)->0,
            doubled_at(s.len() as int, i, doubled),
        ),
    decreases s.len(),
{
    let t = s.update(i, c);
    if i == s.len() - 1 {
        assert(t.drop_last() =~= s.drop_last());
        assert(t.last() == c);
    } else {
        assert(t.drop_last() =~= s.drop_last().update(i, c));
        assert(t.last() == s.last());
        lemma_luhn_sum_update(s.drop_last(), i, c, !doubled);
        assert(doubled_at(s.len() - 1, i, !doubled) == doubled_at(s.len() as int, i, doubled));
    }
}

/// The Luhn check catches every single-digit error: replacing one digit of a
/// valid number by another digit makes it invalid.
pub proof fn law_luhn_detects_single_digit_errors(s: Seq<char>, i: int, c: char)
    requires
        luhn_valid(s),
        0 <= i < s.len(),
        digit_value(c) is Some,
        c != s[i],
    ensures
        !luhn_valid(s.update(i, c)),
{
    assert(digit_value(s[i]) is Some);
    lemma_luhn_sum_update(s, i, c, false);
    let d = doubled_at(s.len() as int, i, false);
    let a = luhn_term(digit_value(s[i])->0, d) as int;
    let b = luhn_term(digit_value(c)->0, d) as int;
    assert(a != b && 0 <= a <= 9 && 0 <= b <= 9);
    let total = luhn_sum(s, false) as int;
    let changed = luhn_sum(s.update(i, c), false) as int;
    assert(changed % 10 != 0) by (nonlinear_arith)
        requires
            total % 10 == 0,
            changed + a == total + b,
            a != b,
            0 <= a <= 9,
            0 <= b <= 9,
            changed >= 0,
    ;
}

/// What a digit adds to the Luhn total in the usual statement of the check:
/// itself, or when doubled the sum of the decimal digits of its double.
pub open spec fn luhn_contribution(d: nat, doubled: bool) -> nat {
    if doubled {
        (2 * d) / 10 + (2 * d) % 10
    } else {
        d
    }
}

/// The Luhn total of the first `k` characters of `s`, as usually stated:
/// a digit is doubled when an odd number of characters follow it in `s`.
pub open spec fn luhn_total(s: Seq<char>, k: int) -> nat
    decreases k,
{
    if k <= 0 {
        0
    } else {
        let d = match digit_value(s[k - 1]) {
            Some(d) => d,
            None => 0,
        };
        luhn_total(s, k - 1) + luhn_contribution(d, (s.len() - k) % 2 == 1)
    }
}

/// The total of the first `k` characters, each doubled as the sum from the
/// right end with flag `doubled` doubles it.
spec fn aligned_total(s: Seq<char>, k: int, doubled: bool) -> nat
    decreases k,
{
    if k <= 0 {
        0
    } else {
        let d = match digit_value(s[k - 1]) {
            Some(d) => d,
            None => 0,
        };
        aligned_total(s, k - 1, doubled) + luhn_contribution(
            d,
            doubled_at(s.len() as int, k - 1, doubled),
        )
    }
}

/// A character's digit value, where there is one, is below ten.
proof fn lemma_digit_below_ten(c: char)
    ensures
        digit_value(c) matches Some(d) ==> d <= 9,
{
}

/// The term of the sum from the right is the usual contribution.
proof fn lemma_term_is_contribution(d: nat, doubled: bool)
    requires
        d <= 9,
    ensures
        luhn_term(d, doubled) == luhn_contribution(d, doubled),
{
    if doubled {
        assert(luhn_term(d, true) == luhn_contribution(d, true)) by (nonlinear_arith)
            requires
                d <= 9,
        ;
    }
}

/// Dropping the last character and flipping the flag leaves the prefix
/// totals of the shorter string as they were.
proof fn lemma_aligned_drop_last(s: Seq<char>, k: int, doubled: bool)
    requires
        s.len() > 0,
        0 <= k <= s.len() - 1,
    ensures
        aligned_total(s.drop_last(), k, !doubled) == aligned_total(s, k, doubled),
    decreases k,
{
    if k > 0 {
        lemma_aligned_drop_last(s, k - 1, doubled);
        assert(s.drop_last()[k - 1] == s[k - 1]);
        assert(doubled_at(s.len() - 1, k - 1, !doubled) == doubled_at(s.len() as int, k - 1, doubled));
    }
}

/// The sum from the right equals the aligned total of the whole string.
proof fn lemma_luhn_sum_is_aligned(s: Seq<char>, doubled: bool)
    ensures
        luhn_sum(s, doubled) == aligned_total(s, s.len() as int, doubled),
    decreases s.len(),
{
    if s.len() > 0 {
        lemma_luhn_sum_is_aligned(s.drop_last(), !doubled);
        lemma_aligned_drop_last(s, s.len() - 1, doubled);
        lemma_digit_below_ten(s.last());
        let d = match digit_value(s.last()) {
            Some(d) => d,
            None => 0,
        };
        lemma_term_is_contribution(d, doubled);
    }
}

/// The aligned total from the last character undoubled is the usual total.
proof fn lemma_aligned_is_usual(s: Seq<char>, k: int)
    requires
        k <= s.len(),
    ensures
        aligned_total(s, k, false) == luhn_total(s, k),
    decreases k,
{
    if k > 0 {
        lemma_aligned_is_usual(s, k - 1);
    }
}

/// The check agrees with the Luhn algorithm as usually stated: a number
/// passes exactly when it is all digits and the total, with every second
/// digit from the right doubled and each double counted by its digit sum,
/// is divisible by ten.
pub proof fn law_luhn_is_the_usual_check(s: Seq<char>)
    ensures
        luhn_valid(s) <==> all_digits(s) && luhn_total(s, s.len() as int) % 10 == 0,
{
    lemma_luhn_sum_is_aligned(s, false);
    lemma_aligned_is_usual(s, s.len() as int);
}

/// One step of the Luhn check from the right: adding the next digit's term
/// to the running sum (kept below ten) keeps it in step with the full sum.
proof fn lemma_luhn_step(s: Seq<char>, i: int, double: bool, sum: int, digit: int, total: int)
    requires
        0 < i <= s.len(),
        0 <= sum < 10,
        digit_value(s[i - 1]) is Some,
        digit == luhn_term(digit_value(s[i - 1]).unwrap(), double),
        (sum + luhn_sum(s.take(i), double)) % 10 == total,
    ensures
        ((sum + digit) % 10 + luhn_sum(s.take(i - 1), !double)) % 10 == total,
{
    let t = s.take(i);
    assert(t.last() == s[i - 1]);
    assert(t.drop_last() =~= s.take(i - 1));
    let rest = luhn_sum(s.take(i - 1), !double) as int;
    assert(luhn_sum(t, double) == digit + rest);
    vstd::arithmetic::div_mod::lemma_add_mod_noop(sum + digit, rest, 10);
    vstd::arithmetic::div_mod::lemma_add_mod_noop((sum + digit) % 10, rest, 10);
    vstd::arithmetic::div_mod::lemma_mod_twice(sum + digit, 10);
}

/// Checks a card number with the Luhn algorithm.
pub fn validate_luhn(card_number: &str) -> (r: bool)
    ensures
        r == luhn_valid(card_number@),
{
    let n = card_number.unicode_len();
    let ghost s = card_number@;
    let mut i: usize = n;
    let mut sum: u32 = 0;
    let mut double = false;
    assert(s.take(n as int) =~= s);
    while i > 0
        invariant
            n == s.len(),
            s == card_number@,
            i <= n,
            sum < 10,
            (sum + luhn_sum(s.take(i as int), double)) % 10 == luhn_sum(s, false) % 10,
            forall|j: int| i <= j < n ==> #[trigger] digit_value(s[j]) is Some,
        decreases i,
    {
        let c = card_number.get_char(i - 1);
        if '0' <= c && c <= '9' {
            let mut digit: u32 = (c as u32) - ('0' as u32);
            if double {
                digit = digit * 2;
                if digit > 9 {
                    digit = digit - 9;
                }
            }
            proof {
                lemma_luhn_step(s, i as int, double, sum as int, digit as int, (luhn_sum(s, false) % 10) as int);
            }
            sum = (sum + digit) % 10;
            double = !double;
            i = i - 1;
        } else {
            assert(!all_digits(s)) by {
                assert(digit_value(s[i - 1]) is None);
            }
            return false;
        }
    }
    proof {
        assert(s.take(0) =~= Seq::<char>::empty());
        assert(all_digits(s));
    }
    sum == 0
}

} // verus!
