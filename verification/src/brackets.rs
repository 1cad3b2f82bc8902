//! Progressive income tax over a schedule of brackets.

use vstd::prelude::*;
use crate::amount::ExactAmount;

verus! {

/// The upper bound of a bracket that has none.
pub const UNBOUNDED: u64 = 18_446_744_073_709_551_615;

/// One bracket of a progressive schedule: the part of an income above
/// `lower_bound` and up to `upper_bound` is taxed at `rate`.
#[derive(Clone, Copy, Debug, PartialEq, Eq, Structural)]
pub struct TaxBracket {
    /// Where the bracket begins, in rupiah; income up to here is not its concern.
    pub lower_bound: u64,
    /// Where the bracket ends, in rupiah; [`UNBOUNDED`] if it does not end.
    pub upper_bound: u64,
    /// The rate in basis points: 500 is 5 %.
    pub rate: u32,
}

/// The part of an income that lies in a bracket: what of it is above the
/// lower bound, as far as the upper bound; nothing unless the income exceeds
/// the lower bound.
pub open spec fn taxed_span(income: int, bracket: TaxBracket) -> int {
    if income > bracket.lower_bound {
        if income < bracket.upper_bound {
            income - bracket.lower_bound
        } else {
            bracket.upper_bound - bracket.lower_bound
        }
    } else {
        0
    }
}

/// The tax that one bracket lays on an income, in ten-thousandths of a rupiah:
/// its rate times the part of the income that lies in it.
pub open spec fn bracket_tax(income: int, bracket: TaxBracket) -> int {
    bracket.rate * taxed_span(income, bracket)
}

/// The tax on an income under a schedule, in ten-thousandths of a rupiah: the
/// sum of what each bracket lays on it.
pub open spec fn income_tax(income: int, brackets: Seq<TaxBracket>) -> int
    decreases brackets.len(),
{
    if brackets.len() == 0 {
        0
    } else {
        income_tax(income, brackets.drop_last()) + bracket_tax(income, brackets.last())
    }
}

/// A schedule is ordered if no bracket ends before it begins and each begins
/// no earlier than the one before it ends: ascending and without overlap.
pub open spec fn brackets_ordered(brackets: Seq<TaxBracket>) -> bool {
    &&& forall|i: int|
        0 <= i < brackets.len() ==> (#[trigger] brackets[i]).lower_bound <= brackets[i].upper_bound
    &&& forall|i: int|
        0 <= i && i + 1 < brackets.len() ==> (#[trigger] brackets[i]).upper_bound <= brackets[i
            + 1].lower_bound
}

/// The general income tax schedule of 2023: 5 % up to 50 million rupiah, 15 % up
/// to 250 million, 25 % up to 500 million, and 30 % above.
pub open spec fn standard_schedule() -> Seq<TaxBracket> {
    seq![
        TaxBracket { lower_bound: 0, upper_bound: 50_000_000, rate: 500 },
        TaxBracket { lower_bound: 50_000_000, upper_bound: 250_000_000, rate: 1_500 },
        TaxBracket { lower_bound: 250_000_000, upper_bound: 500_000_000, rate: 2_500 },
        TaxBracket { lower_bound: 500_000_000, upper_bound: UNBOUNDED, rate: 3_000 },
    ]
}

/// In an ordered schedule a later bracket begins no earlier than an earlier
/// one ends.
pub proof fn lemma_ordered_apart(brackets: Seq<TaxBracket>, i: int, j: int)
    requires
        brackets_ordered(brackets),
        0 <= i < j < brackets.len(),
    ensures
        brackets[i].upper_bound <= brackets[j].lower_bound,
        brackets[i].lower_bound <= brackets[j].lower_bound,
    decreases j - i,
{
    if i + 1 < j {
        lemma_ordered_apart(brackets, i, j - 1);
        assert(brackets[j - 1].lower_bound <= brackets[j - 1].upper_bound);
        assert(brackets[j - 1].upper_bound <= brackets[j - 1 + 1].lower_bound);
    } else {
        assert(brackets[i].lower_bound <= brackets[i].upper_bound);
        assert(brackets[i].upper_bound <= brackets[i + 1].lower_bound);
    }
}

/// Brackets that begin at or above the income add nothing: the tax is that
/// under the brackets before them.
pub proof fn lemma_untaxed_tail(income: int, brackets: Seq<TaxBracket>, k: int)
    requires
        0 <= k <= brackets.len(),
        forall|j: int| k <= j < brackets.len() ==> income <= (#[trigger] brackets[j]).lower_bound,
    ensures
        income_tax(income, brackets) == income_tax(income, brackets.take(k)),
    decreases brackets.len(),
{
    if k == brackets.len() {
        assert(brackets.take(k) =~= brackets);
    } else {
        let shorter = brackets.drop_last();
        assert(income <= brackets[brackets.len() - 1].lower_bound);
        assert forall|j: int| k <= j < shorter.len() implies income <= (
        #[trigger] shorter[j]).lower_bound by {
            assert(shorter[j] == brackets[j]);
        }
        lemma_untaxed_tail(income, shorter, k);
        assert(shorter.take(k) =~= brackets.take(k));
    }
}

/// An income of nothing, or of less, is not taxed, whatever the schedule.
pub proof fn lemma_no_income_no_tax(income: int, brackets: Seq<TaxBracket>)
    requires
        income <= 0,
    ensures
        income_tax(income, brackets) == 0,
    decreases brackets.len(),
{
    if brackets.len() > 0 {
        lemma_no_income_no_tax(income, brackets.drop_last());
    }
}

/// An income at the boundary between two adjoining brackets is taxed by the
/// lower one over its full span and by the upper one not at all; nor by any
/// bracket after it.
pub proof fn lemma_income_at_boundary(brackets: Seq<TaxBracket>, i: int)
    requires
        brackets_ordered(brackets),
        0 <= i,
        i + 1 < brackets.len(),
        brackets[i].upper_bound == brackets[i + 1].lower_bound,
    ensures
        bracket_tax(brackets[i].upper_bound as int, brackets[i]) == brackets[i].rate * (
        brackets[i].upper_bound - brackets[i].lower_bound),
        bracket_tax(brackets[i].upper_bound as int, brackets[i + 1]) == 0,
        income_tax(brackets[i].upper_bound as int, brackets) == income_tax(
            brackets[i].upper_bound as int,
            brackets.take(i + 1),
        ),
{
    let income = brackets[i].upper_bound as int;
    let span = income - brackets[i].lower_bound;
    assert(brackets[i].lower_bound <= brackets[i].upper_bound);
    assert(span == 0 ==> brackets[i].rate * span == 0) by (nonlinear_arith);
    assert forall|j: int| i + 1 <= j < brackets.len() implies income <= (
    #[trigger] brackets[j]).lower_bound by {
        lemma_ordered_apart(brackets, i, j);
    }
    lemma_untaxed_tail(income, brackets, i + 1);
}

/// No rate of the schedule is above 100 %.
pub open spec fn rates_within_whole(brackets: Seq<TaxBracket>) -> bool {
    forall|i: int| 0 <= i < brackets.len() ==> (#[trigger] brackets[i]).rate <= 10_000
}

/// What a bracket lays on an income is never less than nothing, and at a rate
/// of at most 100 % no more than the part of the income that lies in it.
pub proof fn lemma_bracket_tax_bounds(income: int, bracket: TaxBracket)
    requires
        bracket.lower_bound <= bracket.upper_bound,
    ensures
        0 <= bracket_tax(income, bracket),
        bracket.rate <= 10_000 ==> bracket_tax(income, bracket) <= 10_000 * taxed_span(
            income,
            bracket,
        ),
{
    let span = taxed_span(income, bracket);
    let rate = bracket.rate as int;
    assert(0 <= rate * span) by (nonlinear_arith)
        requires
            0 <= rate,
            0 <= span,
    ;
    if rate <= 10_000 {
        assert(rate * span <= 10_000 * span) by (nonlinear_arith)
            requires
                0 <= rate <= 10_000,
                0 <= span,
        ;
    }
}

/// Under an ordered schedule without a rate above 100 %, the first `k`
/// brackets take no more than the income, and no more than what reaches up to
/// the end of the last of them.
proof fn lemma_tax_within_reach(income: int, brackets: Seq<TaxBracket>, k: int)
    requires
        brackets_ordered(brackets),
        rates_within_whole(brackets),
        0 <= income,
        0 < k <= brackets.len(),
    ensures
        0 <= income_tax(income, brackets.take(k)),
        income_tax(income, brackets.take(k)) <= 10_000 * income,
        income_tax(income, brackets.take(k)) <= 10_000 * brackets[k - 1].upper_bound,
    decreases k,
{
    let last = brackets[k - 1];
    let taken = brackets.take(k);
    assert(last.lower_bound <= last.upper_bound);
    assert(last.rate <= 10_000);
    assert(taken.len() == k);
    assert(taken.drop_last() =~= brackets.take(k - 1));
    assert(taken.last() == last);
    assert(income_tax(income, taken) == income_tax(income, brackets.take(k - 1)) + bracket_tax(
        income,
        last,
    ));
    lemma_bracket_tax_bounds(income, last);
    if k == 1 {
        assert(brackets.take(0) =~= Seq::<TaxBracket>::empty());
        assert(income_tax(income, brackets.take(0)) == 0);
    } else {
        lemma_tax_within_reach(income, brackets, k - 1);
        assert(brackets[k - 2].upper_bound <= brackets[k - 2 + 1].lower_bound);
    }
}

/// Where no rate is above 100 %, an ordered schedule takes no more than the
/// income, and never less than nothing.
pub proof fn lemma_tax_within_income(income: int, brackets: Seq<TaxBracket>)
    requires
        brackets_ordered(brackets),
        rates_within_whole(brackets),
        0 <= income,
    ensures
        0 <= income_tax(income, brackets) <= 10_000 * income,
{
    if brackets.len() > 0 {
        lemma_tax_within_reach(income, brackets, brackets.len() as int);
        assert(brackets.take(brackets.len() as int) =~= brackets);
    }
}

/// Computes the progressive tax on `income` rupiah under `tax_brackets`.
///
/// The brackets are walked in ascending order; each one that the income
/// exceeds the lower bound of adds its rate times the part of the income that
/// lies in it, and the walk ends at the first that the income does not exceed.
/// The result is exact, with the fraction kept.
pub fn calculate_income_tax(income: u64, tax_brackets: &[TaxBracket]) -> (tax: ExactAmount)
    requires
        brackets_ordered(tax_brackets@),
    ensures
        tax.parts == income_tax(income as int, tax_brackets@),
        income == 0 ==> tax.parts == 0,
{
    let mut total: u128 = 0;
    let mut i: usize = 0;
    let ghost mut reach: int = 0;
    proof {
        assert(tax_brackets@.take(0) =~= Seq::<TaxBracket>::empty());
    }
    while i < tax_brackets.len() && income > tax_brackets[i].lower_bound
        invariant
            i <= tax_brackets.len(),
            brackets_ordered(tax_brackets@),
            total == income_tax(income as int, tax_brackets@.take(i as int)),
            0 <= reach <= income,
            total <= 0xffff_ffff * reach,
            income == 0 ==> total == 0,
            forall|j: int|
                i <= j < tax_brackets.len() ==> reach <= (#[trigger] tax_brackets@[j]).lower_bound,
        decreases tax_brackets.len() - i,
    {
        let bracket = tax_brackets[i];
        let top = if income < bracket.upper_bound {
            income
        } else {
            bracket.upper_bound
        };
        proof {
            assert(tax_brackets@[i as int].lower_bound <= tax_brackets@[i as int].upper_bound);
            assert(reach <= tax_brackets@[i as int].lower_bound);
        }
        let span: u128 = (top - bracket.lower_bound) as u128;
        let rate: u128 = bracket.rate as u128;
        proof {
            assert(span * rate <= 0xffff_ffff * span) by (nonlinear_arith)
                requires
                    rate <= 0xffff_ffff,
                    span >= 0,
            ;
            assert(span * rate == bracket.rate * (top - bracket.lower_bound)) by (nonlinear_arith)
                requires
                    span == top - bracket.lower_bound,
                    rate == bracket.rate,
            ;
            let longer = tax_brackets@.take(i as int + 1);
            assert(longer.drop_last() =~= tax_brackets@.take(i as int));
            assert(longer.last() == bracket);
            assert forall|j: int| i + 1 <= j < tax_brackets.len() implies top <= (
            #[trigger] tax_brackets@[j]).lower_bound by {
                lemma_ordered_apart(tax_brackets@, i as int, j);
            }
            reach = top as int;
        }
        total = total + span * rate;
        i = i + 1;
    }
    proof {
        if i < tax_brackets.len() {
            assert forall|j: int| i <= j < tax_brackets.len() implies income <= (
            #[trigger] tax_brackets@[j]).lower_bound by {
                if i < j {
                    lemma_ordered_apart(tax_brackets@, i as int, j);
                }
            }
        }
        lemma_untaxed_tail(income as int, tax_brackets@, i as int);
    }
    ExactAmount { parts: total }
}

/// Computes what is left of `income` rupiah after the progressive tax under
/// `tax_brackets`; `None` where the tax is more than the income, which takes a
/// rate above 100 %.
pub fn income_after_tax(income: u64, tax_brackets: &[TaxBracket]) -> (net: Option<ExactAmount>)
    requires
        brackets_ordered(tax_brackets@),
    ensures
        income_tax(income as int, tax_brackets@) <= income * 10_000 ==> net == Some(
            (ExactAmount {
                parts: (income * 10_000 - income_tax(income as int, tax_brackets@)) as u128,
            }),
        ),
        income_tax(income as int, tax_brackets@) > income * 10_000 ==> net.is_none(),
        rates_within_whole(tax_brackets@) ==> net.is_some(),
{
    proof {
        if rates_within_whole(tax_brackets@) {
            lemma_tax_within_income(income as int, tax_brackets@);
        }
    }
    let tax = calculate_income_tax(income, tax_brackets);
    ExactAmount::from_rupiah(income).checked_sub(tax)
}

/// Tells whether a schedule is ordered, as `calculate_income_tax` needs it.
pub fn brackets_are_ordered(tax_brackets: &[TaxBracket]) -> (ordered: bool)
    ensures
        ordered == brackets_ordered(tax_brackets@),
{
    let mut i: usize = 0;
    while i < tax_brackets.len()
        invariant
            i <= tax_brackets.len(),
            forall|k: int|
                0 <= k < i ==> (#[trigger] tax_brackets@[k]).lower_bound
                    <= tax_brackets@[k].upper_bound,
            forall|k: int|
                0 <= k && k + 1 < tax_brackets.len() && k < i ==> (
                #[trigger] tax_brackets@[k]).upper_bound <= tax_brackets@[k + 1].lower_bound,
        decreases tax_brackets.len() - i,
    {
        if tax_brackets[i].lower_bound > tax_brackets[i].upper_bound {
            return false;
        }
        if i + 1 < tax_brackets.len() && tax_brackets[i].upper_bound > tax_brackets[i
            + 1].lower_bound {
            return false;
        }
        i = i + 1;
    }
    true
}

/// Builds the general income tax schedule of 2023.
pub fn standard_brackets() -> (brackets: Vec<TaxBracket>)
    ensures
        brackets@ == standard_schedule(),
        brackets_ordered(brackets@),
        rates_within_whole(brackets@),
{
    let mut brackets: Vec<TaxBracket> = Vec::new();
    brackets.push(TaxBracket { lower_bound: 0, upper_bound: 50_000_000, rate: 500 });
    brackets.push(TaxBracket { lower_bound: 50_000_000, upper_bound: 250_000_000, rate: 1_500 });
    brackets.push(TaxBracket { lower_bound: 250_000_000, upper_bound: 500_000_000, rate: 2_500 });
    brackets.push(TaxBracket { lower_bound: 500_000_000, upper_bound: UNBOUNDED, rate: 3_000 });
    assert(brackets@ =~= standard_schedule());
    brackets
}

} // verus!
