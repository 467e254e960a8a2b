//! The protocol between the ledger and its store: which request each
//! operation sends, and how each answer of the store is classified.

use vstd::prelude::*;
use vstd::string::*;
use crate::decimal::{parsed_decimal, rendered_decimal, Decimal, DecimalValue, Sign};
use crate::error::{AppError, Classification, ErrorView};
use crate::service::Account;
use crate::store::{distinct_names, find_attribute, get_attribute, number_attr, number_attribute, string_attr, string_attribute, Attribute, AttributeValue, GetItem, GetItemOutput, PutItem, ReturnValue, UpdateError, UpdateItem, UpdateItemOutput};

verus! {

/// The balance that must be there before an adjustment by `amount` may be
/// applied: the amount debited, and none for a credit or for zero.
pub open spec fn min_balance_guard(amount: DecimalValue) -> Option<DecimalValue> {
    if amount.is_negative() {
        Some(amount.negated())
    } else {
        None
    }
}

/// The text that a number is sent to the store as.
pub open spec fn number_text(value: DecimalValue) -> Seq<char> {
    rendered_decimal(value.unscaled, value.scale)
}

/// The update adds `amount` to the balance of `account_id` and asks for the
/// new balance back.
pub open spec fn is_balance_update(update: UpdateItem, account_id: Seq<char>, amount: DecimalValue) -> bool {
    &&& update.table_name@ == "Accounts"@
    &&& string_attribute(update.key, "accountId"@, account_id)
    &&& update.update_expression@ == "SET balance = balance + :amount"@
    &&& update.return_values == ReturnValue::UpdatedNew
    &&& update.expression_attribute_values@.len() >= 1
    &&& number_attribute(update.expression_attribute_values@[0], ":amount"@, number_text(amount))
}

/// The update carries no condition, and no value but the amount.
pub open spec fn is_unguarded(update: UpdateItem) -> bool {
    &&& update.condition_expression.is_none()
    &&& update.expression_attribute_values@.len() == 1
    &&& distinct_names(update.expression_attribute_values@)
}

/// The update is applied only to a balance of at least `min_balance`.
pub open spec fn is_guarded_by(update: UpdateItem, min_balance: DecimalValue) -> bool {
    &&& update.condition_expression matches Some(condition) && condition@ == "balance >= :min_bal"@
    &&& update.expression_attribute_values@.len() == 2
    &&& number_attribute(
        update.expression_attribute_values@[1],
        ":min_bal"@,
        number_text(min_balance),
    )
    &&& distinct_names(update.expression_attribute_values@)
}

/// The write stores an item with the given identifier and balance, each
/// under its own name.
pub open spec fn is_account_write(put: PutItem, account_id: Seq<char>, balance: DecimalValue) -> bool {
    &&& put.table_name@ == "Accounts"@
    &&& put.item@.len() == 2
    &&& distinct_names(put.item@)
    &&& string_attribute(put.item@[0], "accountId"@, account_id)
    &&& number_attribute(put.item@[1], "balance"@, number_text(balance))
}

/// The lookup reads the item with the given identifier, without asking for a
/// consistent read.
pub open spec fn is_account_lookup(get: GetItem, account_id: Seq<char>) -> bool {
    &&& get.table_name@ == "Accounts"@
    &&& string_attribute(get.key, "accountId"@, account_id)
    &&& !get.consistent_read
}

/// The cause of the internal failure for an attribute that the store did not
/// return, or returned with another type.
pub open spec fn missing_attribute(name: Seq<char>) -> ErrorView {
    ErrorView::Internal(name + " not returned by dynamodb"@)
}

/// The cause of the internal failure for a stored number whose normal form
/// has a scale that no number can hold.
pub open spec fn out_of_range(name: Seq<char>) -> ErrorView {
    ErrorView::Internal(name + " out of range"@)
}

/// `result` is what the string attribute `name` of `attrs` stands for: the
/// string, or an internal failure where it is missing or no string.
pub open spec fn string_result(attrs: Seq<Attribute>, name: Seq<char>, result: Result<String, AppError>) -> bool {
    match find_attribute(attrs, name) {
        Some(AttributeValue::S(s)) => result matches Ok(value) && value@ == s@,
        _ => result matches Err(e) && e@ == missing_attribute(name),
    }
}

/// `result` is what the number attribute `name` of `attrs` stands for: the
/// number as it was written, or an internal failure where it is missing, no
/// number, or a text that is no decimal number.
pub open spec fn decimal_result(attrs: Seq<Attribute>, name: Seq<char>, result: Result<Decimal, AppError>) -> bool {
    match find_attribute(attrs, name) {
        Some(AttributeValue::N(text)) => match parsed_decimal(text@) {
            Some(p) => result matches Ok(d) && d.wf() && d@ == (DecimalValue {
                unscaled: p.0,
                scale: p.1,
            }),
            None => result matches Err(e) && e@ is Internal,
        },
        _ => result matches Err(e) && e@ == missing_attribute(name),
    }
}

/// `result` is what the attribute `balance` of `attrs` stands for: the number
/// in normal form, or an internal failure.
pub open spec fn balance_result(attrs: Seq<Attribute>, result: Result<Decimal, AppError>) -> bool {
    match find_attribute(attrs, "balance"@) {
        Some(AttributeValue::N(text)) => match parsed_decimal(text@) {
            Some(p) => {
                let stored = DecimalValue { unscaled: p.0, scale: p.1 };
                if stored.normalizable() {
                    result matches Ok(d) && d.wf() && d@ == stored.normal_form()
                } else {
                    result matches Err(e) && e@ == out_of_range("balance"@)
                }
            },
            None => result matches Err(e) && e@ is Internal,
        },
        _ => result matches Err(e) && e@ == missing_attribute("balance"@),
    }
}

/// `result` is the account that `attrs` stand for: its identifier and its
/// balance in normal form, or the internal failure of the first attribute
/// that is missing or malformed.
pub open spec fn account_result(attrs: Seq<Attribute>, result: Result<Account, AppError>) -> bool {
    match find_attribute(attrs, "accountId"@) {
        Some(AttributeValue::S(id)) => match result {
            Ok(account) => account.account_id@ == id@ && balance_result(attrs, Ok(account.balance)),
            Err(e) => balance_result(attrs, Err(e)),
        },
        _ => result matches Err(e) && e@ == missing_attribute("accountId"@),
    }
}

/// The internal failure with the given cause.
pub fn app_err(message: String) -> (err: AppError)
    ensures
        err@ == ErrorView::Internal(message@),
{
    AppError::internal_s(message)
}

/// The failure for an attribute that the store did not return.
fn not_returned(attr_name: &str) -> (err: AppError)
    ensures
        err@ == missing_attribute(attr_name@),
{
    app_err(attr_name.to_owned().concat(" not returned by dynamodb"))
}

/// Whether the store refused an update because its condition did not hold.
pub fn is_condition_failure(upd_err: &UpdateError) -> (failed: bool)
    ensures
        failed == (upd_err is ConditionalCheckFailed),
{
    match upd_err {
        UpdateError::ConditionalCheckFailed => true,
        UpdateError::Other(_) => false,
    }
}

/// A failed condition is a rule violation with the given message; any other
/// failure of an update is internal.
pub fn map_condition_failure_to(upd_err: UpdateError, message: &str) -> (err: AppError)
    ensures
        match upd_err {
            UpdateError::ConditionalCheckFailed => err@ == ErrorView::Business(
                message@,
                Classification::RuleViolation,
            ),
            UpdateError::Other(cause) => err@ == ErrorView::Internal(cause@),
        },
{
    if is_condition_failure(&upd_err) {
        AppError::unprocessable(message)
    } else {
        match upd_err {
            UpdateError::ConditionalCheckFailed => AppError::unprocessable(message),
            UpdateError::Other(cause) => AppError::Internal(cause),
        }
    }
}

/// The string that the attribute `attr_name` holds.
pub fn str_attr(attrs: &Vec<Attribute>, attr_name: &str) -> (result: Result<String, AppError>)
    ensures
        string_result(attrs@, attr_name@, result),
{
    match get_attribute(attrs, attr_name) {
        Some(AttributeValue::S(s)) => Ok(s.clone()),
        _ => Err(not_returned(attr_name)),
    }
}

/// The number that the attribute `attr_name` holds.
pub fn decimal_attr(attrs: &Vec<Attribute>, attr_name: &str) -> (result: Result<Decimal, AppError>)
    ensures
        decimal_result(attrs@, attr_name@, result),
{
    match get_attribute(attrs, attr_name) {
        Some(AttributeValue::N(text)) => Decimal::parse_stored(text.as_str()),
        _ => Err(not_returned(attr_name)),
    }
}

/// The normal form of a stored balance.
fn normal_balance(balance: Decimal) -> (result: Result<Decimal, AppError>)
    requires
        balance.wf(),
    ensures
        if balance@.normalizable() {
            result matches Ok(d) && d.wf() && d@ == balance@.normal_form()
        } else {
            result matches Err(e) && e@ == out_of_range("balance"@)
        },
{
    match balance.normalized() {
        Some(normal) => Ok(normal),
        None => Err(app_err("balance".to_owned().concat(" out of range"))),
    }
}

/// The balance that the attributes of an updated item hold.
pub fn unpack_balance(attrs: Vec<Attribute>) -> (result: Result<Decimal, AppError>)
    ensures
        balance_result(attrs@, result),
{
    match decimal_attr(&attrs, "balance") {
        Ok(balance) => normal_balance(balance),
        Err(e) => Err(e),
    }
}

/// The account that the attributes of a stored item hold.
pub fn unpack_account(attrs: Vec<Attribute>) -> (result: Result<Account, AppError>)
    ensures
        account_result(attrs@, result),
{
    let account_id = match str_attr(&attrs, "accountId") {
        Ok(id) => id,
        Err(e) => {
            return Err(e);
        },
    };
    match unpack_balance(attrs) {
        Ok(balance) => Ok(Account { account_id, balance }),
        Err(e) => Err(e),
    }
}

/// The ledger's side of the store protocol for the table of accounts.
pub struct AccountDao {}

impl AccountDao {
    pub fn new() -> (dao: Self)
        ensures
            dao == (AccountDao {  }),
    {
        AccountDao {  }
    }

    /// The update that changes the balance of `account_id` by `amount`:
    /// unconditional where the amount is zero or more, and else guarded by a
    /// balance of at least the amount debited.
    pub fn adjust_account(&self, account_id: String, amount: &Decimal) -> (update: UpdateItem)
        requires
            amount.wf(),
        ensures
            is_balance_update(update, account_id@, amount@),
            match min_balance_guard(amount@) {
                Some(min_balance) => is_guarded_by(update, min_balance),
                None => is_unguarded(update),
            },
    {
        if amount.sign() != Sign::Minus {
            self.update_to_change_balance(account_id, amount)
        } else {
            let min_balance = amount.neg();
            self.update_with_min_balance_condition(account_id, amount, &min_balance)
        }
    }

    /// The unconditional update that adds `amount` to the balance.
    pub fn update_to_change_balance(&self, account_id: String, amount: &Decimal) -> (update: UpdateItem)
        requires
            amount.wf(),
        ensures
            is_balance_update(update, account_id@, amount@),
            is_unguarded(update),
    {
        let mut values: Vec<Attribute> = Vec::new();
        values.push(number_attr(":amount", amount.render()));
        UpdateItem {
            table_name: "Accounts".to_owned(),
            key: string_attr("accountId", account_id),
            update_expression: "SET balance = balance + :amount".to_owned(),
            condition_expression: None,
            expression_attribute_values: values,
            return_values: ReturnValue::UpdatedNew,
        }
    }

    /// The update that adds `amount` to a balance of at least `min_balance`,
    /// and is refused on any other.
    pub fn update_with_min_balance_condition(
        &self,
        account_id: String,
        amount: &Decimal,
        min_balance: &Decimal,
    ) -> (update: UpdateItem)
        requires
            amount.wf(),
            min_balance.wf(),
        ensures
            is_balance_update(update, account_id@, amount@),
            is_guarded_by(update, min_balance@),
    {
        let mut update = self.update_to_change_balance(account_id, amount);
        update.condition_expression = Some("balance >= :min_bal".to_owned());
        update.expression_attribute_values.push(number_attr(":min_bal", min_balance.render()));
        proof {
            reveal_strlit(":amount");
            reveal_strlit(":min_bal");
            assert(":amount"@.len() != ":min_bal"@.len());
        }
        update
    }

    /// The balance that the store's answer to an adjustment stands for: the
    /// new balance in normal form; a rule violation where the condition
    /// failed; not-found where no attributes came back; and an internal
    /// failure for anything else.
    pub fn adjusted_balance(&self, outcome: Result<UpdateItemOutput, UpdateError>) -> (result: Result<Decimal, AppError>)
        ensures
            match outcome {
                Err(UpdateError::ConditionalCheckFailed) => result matches Err(e) && e@
                    == ErrorView::Business("insufficient funds"@, Classification::RuleViolation),
                Err(UpdateError::Other(cause)) => result matches Err(e) && e@ == ErrorView::Internal(
                    cause@,
                ),
                Ok(output) => match output.attributes {
                    None => result matches Err(e) && e@ == ErrorView::Business(
                        "not found"@,
                        Classification::NotFound,
                    ),
                    Some(attrs) => balance_result(attrs@, result),
                },
            },
    {
        match outcome {
            Err(upd_err) => Err(map_condition_failure_to(upd_err, "insufficient funds")),
            Ok(output) => match output.attributes {
                None => Err(AppError::not_found()),
                Some(attrs) => unpack_balance(attrs),
            },
        }
    }

    /// The write that stores the account, whatever was stored under its
    /// identifier before.
    pub fn create_account(&self, account: &Account) -> (put: PutItem)
        requires
            account.balance.wf(),
        ensures
            is_account_write(put, account.account_id@, account.balance@),
    {
        let mut item: Vec<Attribute> = Vec::new();
        item.push(string_attr("accountId", account.account_id.clone()));
        item.push(number_attr("balance", account.balance.render()));
        proof {
            reveal_strlit("accountId");
            reveal_strlit("balance");
            assert("accountId"@.len() != "balance"@.len());
        }
        PutItem { table_name: "Accounts".to_owned(), item }
    }

    /// The result that the store's answer to a write stands for: any failure
    /// is internal.
    pub fn account_created(&self, outcome: Result<(), String>) -> (result: Result<(), AppError>)
        ensures
            match outcome {
                Ok(_) => result.is_ok(),
                Err(cause) => result matches Err(e) && e@ == ErrorView::Internal(cause@),
            },
    {
        match outcome {
            Ok(_) => Ok(()),
            Err(cause) => Err(AppError::Internal(cause)),
        }
    }

    /// The lookup of the account `account_id`; it need not see the latest write.
    pub fn read_account(&self, account_id: String) -> (get: GetItem)
        ensures
            is_account_lookup(get, account_id@),
    {
        GetItem {
            table_name: "Accounts".to_owned(),
            key: string_attr("accountId", account_id),
            consistent_read: false,
        }
    }

    /// The account that the store's answer to a lookup stands for: not-found
    /// where there is no item, an internal failure where the lookup failed or
    /// the item is malformed.
    pub fn account_read(&self, outcome: Result<GetItemOutput, String>) -> (result: Result<Account, AppError>)
        ensures
            match outcome {
                Err(cause) => result matches Err(e) && e@ == ErrorView::Internal(cause@),
                Ok(output) => match output.item {
                    None => result matches Err(e) && e@ == ErrorView::Business(
                        "not found"@,
                        Classification::NotFound,
                    ),
                    Some(attrs) => account_result(attrs@, result),
                },
            },
    {
        match outcome {
            Err(cause) => Err(AppError::Internal(cause)),
            Ok(output) => match output.item {
                None => Err(AppError::not_found()),
                Some(attrs) => unpack_account(attrs),
            },
        }
    }
}

} // verus!
