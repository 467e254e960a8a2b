//! The rules of the ledger, stated over the contract that the store keeps:
//! an update adds the amount to the balance in one indivisible step, and an
//! update with a guard is refused, and writes nothing, on a balance below it.

use vstd::prelude::*;
use crate::dao::{account_result, is_account_write, min_balance_guard, number_text};
use crate::decimal::{lemma_aligned_sign, lemma_normal_form_same_number, DecimalValue};
use crate::service::{reads_as, Account};
use crate::error::AppError;
use crate::store::{find_attribute, PutItem};

verus! {

/// What the store makes of a balance on an update by `amount`: the new
/// balance, or nothing where the guard refuses the update.
pub open spec fn store_update(
    balance: DecimalValue,
    amount: DecimalValue,
    guard: Option<DecimalValue>,
) -> Option<DecimalValue> {
    match guard {
        Some(min_balance) => if balance.at_least(min_balance) {
            Some(balance.plus(amount))
        } else {
            None
        },
        None => Some(balance.plus(amount)),
    }
}

/// What an adjustment by `amount` makes of a balance: the new balance, or
/// nothing where it is rejected for insufficient funds.
pub open spec fn adjust(balance: DecimalValue, amount: DecimalValue) -> Option<DecimalValue> {
    store_update(balance, amount, min_balance_guard(amount))
}

/// The balance after a sequence of adjustments, of which a rejected one
/// leaves the balance as it was.
pub open spec fn balance_after(balance: DecimalValue, amounts: Seq<DecimalValue>) -> DecimalValue
    decreases amounts.len(),
{
    if amounts.len() == 0 {
        balance
    } else {
        let before = balance_after(balance, amounts.drop_last());
        match adjust(before, amounts.last()) {
            Some(after) => after,
            None => before,
        }
    }
}

/// The exact sum of a balance and a sequence of amounts.
pub open spec fn total(balance: DecimalValue, amounts: Seq<DecimalValue>) -> DecimalValue
    decreases amounts.len(),
{
    if amounts.len() == 0 {
        balance
    } else {
        total(balance, amounts.drop_last()).plus(amounts.last())
    }
}

/// A debit is accepted exactly where it leaves a balance of zero or more, a
/// credit always; and what is accepted adds exactly.
pub proof fn lemma_adjust_accepts(balance: DecimalValue, amount: DecimalValue)
    ensures
        amount.is_negative() ==> (adjust(balance, amount).is_some() <==> !balance.plus(
            amount,
        ).is_negative()),
        !amount.is_negative() ==> adjust(balance, amount).is_some(),
        adjust(balance, amount).is_some() ==> adjust(balance, amount) == Some(balance.plus(amount)),
{
    let scale = balance.common_scale(amount);
    lemma_aligned_sign(amount, scale);
}

/// From a balance that is not negative, any sequence of adjustments whose
/// running sums all stay at zero or above is applied in full: the final
/// balance is the exact sum of the initial balance and all the amounts, and
/// its normal form, which a read returns, stands for that same number.
pub proof fn lemma_adjustments_sum_exactly(balance: DecimalValue, amounts: Seq<DecimalValue>)
    requires
        !balance.is_negative(),
        forall|k: int| 1 <= k <= amounts.len() ==> !(#[trigger] total(balance, amounts.take(k))).is_negative(),
    ensures
        balance_after(balance, amounts) == total(balance, amounts),
        !balance_after(balance, amounts).is_negative(),
        balance_after(balance, amounts).normal_form().same_number(total(balance, amounts)),
    decreases amounts.len(),
{
    if amounts.len() > 0 {
        let earlier = amounts.drop_last();
        assert forall|k: int| 1 <= k <= earlier.len() implies !(#[trigger] total(
            balance,
            earlier.take(k),
        )).is_negative() by {
            assert(earlier.take(k) =~= amounts.take(k));
        }
        lemma_adjustments_sum_exactly(balance, earlier);
        let before = total(balance, earlier);
        assert(balance_after(balance, earlier) == before);
        assert(amounts.take(amounts.len() as int) =~= amounts);
        assert(total(balance, amounts) == before.plus(amounts.last()));
        assert(!total(balance, amounts.take(amounts.len() as int)).is_negative());
        lemma_adjust_accepts(before, amounts.last());
        assert(adjust(before, amounts.last()) == Some(before.plus(amounts.last())));
    }
    lemma_normal_form_same_number(balance_after(balance, amounts));
}

/// A balance that is not negative stays so under every sequence of
/// adjustments, accepted or rejected.
pub proof fn lemma_balance_never_negative(balance: DecimalValue, amounts: Seq<DecimalValue>)
    requires
        !balance.is_negative(),
    ensures
        !balance_after(balance, amounts).is_negative(),
    decreases amounts.len(),
{
    if amounts.len() > 0 {
        lemma_balance_never_negative(balance, amounts.drop_last());
        let before = balance_after(balance, amounts.drop_last());
        let amount = amounts.last();
        let scale = before.common_scale(amount);
        lemma_adjust_accepts(before, amount);
        lemma_aligned_sign(before, scale);
        lemma_aligned_sign(amount, scale);
    }
}

/// An adjustment that would take a balance below zero is rejected, and the
/// balance stays as it was. This holds of every debit, and of every
/// adjustment to a balance that is not negative.
pub proof fn lemma_overdraft_rejected(balance: DecimalValue, amount: DecimalValue)
    requires
        balance.plus(amount).is_negative(),
        amount.is_negative() || !balance.is_negative(),
    ensures
        adjust(balance, amount).is_none(),
        balance_after(balance, seq![amount]) == balance,
{
    let scale = balance.common_scale(amount);
    lemma_aligned_sign(amount, scale);
    lemma_aligned_sign(balance, scale);
    let one = seq![amount];
    assert(one.drop_last() =~= Seq::<DecimalValue>::empty());
    assert(one.last() == amount);
    assert(balance_after(balance, one.drop_last()) == balance);
}

/// A debit of exactly the balance is accepted and leaves exactly zero.
pub proof fn lemma_full_debit_accepted(balance: DecimalValue, debit: DecimalValue)
    requires
        debit.is_negative(),
        balance.same_number(debit.negated()),
    ensures
        adjust(balance, debit) == Some(balance.plus(debit)),
        balance.plus(debit).unscaled == 0,
{
    let scale = balance.common_scale(debit);
    lemma_aligned_sign(debit, scale);
}

/// Of the debits of an amount from an account that holds exactly that amount,
/// taken in any order one after another, the first is accepted and leaves
/// zero, and every later one is rejected.
pub proof fn lemma_one_full_debit_succeeds(balance: DecimalValue, debit: DecimalValue)
    requires
        debit.is_negative(),
        balance.same_number(debit.negated()),
    ensures
        adjust(balance, debit) == Some(balance.plus(debit)),
        adjust(balance.plus(debit), debit).is_none(),
{
    lemma_full_debit_accepted(balance, debit);
    let after = balance.plus(debit);
    let scale = after.common_scale(debit);
    lemma_aligned_sign(debit, scale);
    lemma_aligned_sign(after, scale);
}

/// Reading back the item that a create wrote gives the identifier that was
/// written, and as balance the normal form of the number that the written
/// text reads as.
pub proof fn lemma_read_after_create(
    put: PutItem,
    account_id: Seq<char>,
    balance: DecimalValue,
    read_back: DecimalValue,
    result: Result<Account, AppError>,
)
    requires
        is_account_write(put, account_id, balance),
        reads_as(number_text(balance), read_back),
        read_back.normalizable(),
        account_result(put.item@, result),
    ensures
        result matches Ok(account) && account.account_id@ == account_id && account.balance@
            == read_back.normal_form(),
{
    reveal_strlit("accountId");
    reveal_strlit("balance");
    let attrs = put.item@;
    assert("accountId"@.len() != "balance"@.len());
    assert(attrs.skip(1)[0] == attrs[1]);
    assert(find_attribute(attrs, "accountId"@) == Some(attrs[0].value));
    assert(find_attribute(attrs.skip(1), "balance"@) == Some(attrs[1].value));
    assert(find_attribute(attrs, "balance"@) == Some(attrs[1].value));
}

} // verus!
