//! The account entity and the operations that the request layer calls.

use vstd::prelude::*;
use crate::dao::{account_result, balance_result, is_balance_update, is_guarded_by, is_unguarded, min_balance_guard, AccountDao};
use crate::decimal::{parsed_decimal, Decimal, DecimalValue};
use crate::error::{AppError, Classification, ErrorView};
use crate::store::{GetItem, GetItemOutput, PutItem, UpdateError, UpdateItem, UpdateItemOutput};

verus! {

/// An account: its identifier and its balance.
#[derive(Debug)]
pub struct Account {
    pub account_id: String,
    pub balance: Decimal,
}

/// A signed amount by which a balance is to change.
#[derive(Debug)]
pub struct Adjustment {
    pub amount: Decimal,
}

/// The balance of an account after an adjustment.
#[derive(Debug)]
pub struct Balance {
    pub balance: Decimal,
}

/// The text is one that an amount is read from, and `value` was read from it.
pub open spec fn reads_as(text: Seq<char>, value: DecimalValue) -> bool {
    parsed_decimal(text) == Some((value.unscaled, value.scale))
}

/// The validation failure for a text that is no decimal number.
pub open spec fn invalid_number() -> ErrorView {
    ErrorView::Business("invalid decimal number"@, Classification::Validation)
}

impl Account {
    /// An account from its identifier and the text of its balance. An empty
    /// identifier or a text that is no decimal number is a validation failure.
    pub fn parse(account_id: String, balance: &str) -> (parsed: Result<Account, AppError>)
        ensures
            match parsed {
                Ok(account) => {
                    &&& account_id@.len() > 0
                    &&& account.account_id@ == account_id@
                    &&& account.balance.wf()
                    &&& reads_as(balance@, account.balance@)
                },
                Err(e) => if account_id@.len() == 0 {
                    e@ == ErrorView::Business("missing account id"@, Classification::Validation)
                } else {
                    parsed_decimal(balance@).is_none() && e@ == invalid_number()
                },
            },
    {
        if account_id.as_str().unicode_len() == 0 {
            return Err(AppError::bad_request_str("missing account id"));
        }
        match Decimal::parse(balance) {
            Ok(balance) => Ok(Account { account_id, balance }),
            Err(e) => Err(e),
        }
    }
}

impl Adjustment {
    /// An adjustment from the text of its amount. A text that is no decimal
    /// number is a validation failure.
    pub fn parse(amount: &str) -> (parsed: Result<Adjustment, AppError>)
        ensures
            match parsed {
                Ok(adjustment) => adjustment.amount.wf() && reads_as(amount@, adjustment.amount@),
                Err(e) => parsed_decimal(amount@).is_none() && e@ == invalid_number(),
            },
    {
        match Decimal::parse(amount) {
            Ok(amount) => Ok(Adjustment { amount }),
            Err(e) => Err(e),
        }
    }
}

/// The ledger's operations. Each comes in two halves: the request to send to
/// the store, and the result that the store's answer stands for.
pub struct AccountService {
    pub account_dao: AccountDao,
}

impl AccountService {
    pub fn new(account_dao: AccountDao) -> (service: Self)
        ensures
            service.account_dao == account_dao,
    {
        Self { account_dao }
    }

    /// The update that changes the balance of `account_id` by the amount:
    /// unconditional for a credit, and for a debit guarded by a balance of at
    /// least the amount debited.
    pub fn adjust_balance(&self, account_id: String, adjustment: &Adjustment) -> (update: UpdateItem)
        requires
            adjustment.amount.wf(),
        ensures
            is_balance_update(update, account_id@, adjustment.amount@),
            match min_balance_guard(adjustment.amount@) {
                Some(min_balance) => is_guarded_by(update, min_balance),
                None => is_unguarded(update),
            },
    {
        self.account_dao.adjust_account(account_id, &adjustment.amount)
    }

    /// The balance that the store's answer to an adjustment stands for.
    pub fn adjusted_balance(&self, outcome: Result<UpdateItemOutput, UpdateError>) -> (result: Result<Balance, AppError>)
        ensures
            match outcome {
                Err(UpdateError::ConditionalCheckFailed) => result matches Err(e) && e@
                    == ErrorView::Business("insufficient funds"@, Classification::RuleViolation),
                Err(UpdateError::Other(cause)) => result matches Err(e) && e@ == ErrorView::Internal(
                    cause@,
                ),
                Ok(output) => match output.attributes {
                    None => result matches Err(e) && e@ == ErrorView::Business(
                        "not found"@,
                        Classification::NotFound,
                    ),
                    Some(attrs) => match result {
                        Ok(balance) => balance_result(attrs@, Ok(balance.balance)),
                        Err(e) => balance_result(attrs@, Err(e)),
                    },
                },
            },
    {
        match self.account_dao.adjusted_balance(outcome) {
            Ok(balance) => Ok(Balance { balance }),
            Err(e) => Err(e),
        }
    }

    /// The write that stores the account, whatever was stored under its
    /// identifier before.
    pub fn create_account(&self, account: &Account) -> (put: PutItem)
        requires
            account.balance.wf(),
        ensures
            crate::dao::is_account_write(put, account.account_id@, account.balance@),
    {
        self.account_dao.create_account(account)
    }

    /// The result that the store's answer to a write stands for.
    pub fn account_created(&self, outcome: Result<(), String>) -> (result: Result<(), AppError>)
        ensures
            match outcome {
                Ok(_) => result.is_ok(),
                Err(cause) => result matches Err(e) && e@ == ErrorView::Internal(cause@),
            },
    {
        self.account_dao.account_created(outcome)
    }

    /// The lookup of the account `account_id`; it need not see the latest write.
    pub fn read_account(&self, account_id: String) -> (get: GetItem)
        ensures
            crate::dao::is_account_lookup(get, account_id@),
    {
        self.account_dao.read_account(account_id)
    }

    /// The account that the store's answer to a lookup stands for.
    pub fn account_read(&self, outcome: Result<GetItemOutput, String>) -> (result: Result<Account, AppError>)
        ensures
            match outcome {
                Err(cause) => result matches Err(e) && e@ == ErrorView::Internal(cause@),
                Ok(output) => match output.item {
                    None => result matches Err(e) && e@ == ErrorView::Business(
                        "not found"@,
                        Classification::NotFound,
                    ),
                    Some(attrs) => account_result(attrs@, result),
                },
            },
    {
        self.account_dao.account_read(outcome)
    }
}

} // verus!
