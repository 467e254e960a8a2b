use account_ledger::dao::{decimal_attr, is_condition_failure, map_condition_failure_to, str_attr, unpack_account, unpack_balance};
use account_ledger::store::{get_attribute, number_attr, string_attr, Attribute, AttributeValue, GetItem, GetItemOutput, PutItem, ReturnValue, UpdateError, UpdateItem, UpdateItemOutput};
use account_ledger::{Account, AccountDao, AccountService, Adjustment, AppError, Classification, Decimal, Sign};
use bigdecimal::BigDecimal;
use std::collections::HashMap;
use std::str::FromStr;

/// An in-memory table that keeps the store's side of the protocol.
struct Table {
    items: HashMap<String, HashMap<String, String>>,
}

fn text_of(value: &AttributeValue) -> String {
    match value {
        AttributeValue::S(s) => s.clone(),
        AttributeValue::N(n) => n.clone(),
        AttributeValue::Other => panic!("unexpected attribute"),
    }
}

fn value_named(values: &Vec<Attribute>, name: &str) -> BigDecimal {
    let found = get_attribute(values, name).expect("value missing");
    BigDecimal::from_str(&text_of(found)).expect("value is no number")
}

impl Table {
    fn new() -> Table {
        Table { items: HashMap::new() }
    }

    fn put(&mut self, put: PutItem) -> Result<(), String> {
        assert_eq!(put.table_name, "Accounts");
        let mut item = HashMap::new();
        for a in put.item.iter() {
            item.insert(a.name.clone(), text_of(&a.value));
        }
        let key = item.get("accountId").expect("no key").clone();
        self.items.insert(key, item);
        Ok(())
    }

    fn get(&self, get: GetItem) -> Result<GetItemOutput, String> {
        assert_eq!(get.table_name, "Accounts");
        assert_eq!(get.key.name, "accountId");
        let item = self.items.get(&text_of(&get.key.value)).map(|item| {
            vec![
                string_attr("accountId", item["accountId"].clone()),
                number_attr("balance", item["balance"].clone()),
            ]
        });
        Ok(GetItemOutput { item })
    }

    fn update(&mut self, update: UpdateItem) -> Result<UpdateItemOutput, UpdateError> {
        assert_eq!(update.table_name, "Accounts");
        assert_eq!(update.update_expression, "SET balance = balance + :amount");
        assert_eq!(update.return_values, ReturnValue::UpdatedNew);
        let item = match self.items.get_mut(&text_of(&update.key.value)) {
            Some(item) => item,
            None => return Err(UpdateError::Other("no such item".to_string())),
        };
        let balance = BigDecimal::from_str(&item["balance"]).expect("stored balance");
        if let Some(condition) = &update.condition_expression {
            assert_eq!(condition, "balance >= :min_bal");
            if balance < value_named(&update.expression_attribute_values, ":min_bal") {
                return Err(UpdateError::ConditionalCheckFailed);
            }
        }
        let after = balance + value_named(&update.expression_attribute_values, ":amount");
        item.insert("balance".to_string(), after.to_string());
        Ok(UpdateItemOutput { attributes: Some(vec![number_attr("balance", after.to_string())]) })
    }
}

fn service() -> AccountService {
    AccountService::new(AccountDao::new())
}

fn create(table: &mut Table, id: &str, balance: &str) -> Result<(), AppError> {
    let svc = service();
    let account = Account::parse(id.to_string(), balance)?;
    let put = svc.create_account(&account);
    let outcome = table.put(put);
    svc.account_created(outcome)
}

fn read(table: &Table, id: &str) -> Result<Account, AppError> {
    let svc = service();
    let outcome = table.get(svc.read_account(id.to_string()));
    svc.account_read(outcome)
}

fn adjust(table: &mut Table, id: &str, amount: &str) -> Result<String, AppError> {
    let svc = service();
    let adjustment = Adjustment::parse(amount)?;
    let outcome = table.update(svc.adjust_balance(id.to_string(), &adjustment));
    svc.adjusted_balance(outcome).map(|b| b.balance.render())
}

fn number(text: &str) -> BigDecimal {
    BigDecimal::from_str(text).expect("failed to parse number")
}

fn business(err: AppError) -> (String, Classification) {
    match err {
        AppError::Business(message, class) => (message, class),
        AppError::Internal(cause) => panic!("internal failure: {}", cause),
    }
}

fn internal(err: AppError) -> String {
    match err {
        AppError::Internal(cause) => cause,
        AppError::Business(message, _) => panic!("business failure: {}", message),
    }
}

#[test]
fn should_create_new_account() {
    let account_id = "NEWACC001".to_string();
    let amount = number("10.10");
    let mut table = Table::new();

    create(&mut table, &account_id, "10.10").expect("could not create account");

    let current_account = read(&table, &account_id).expect("could not read account");
    assert_eq!(current_account.account_id, account_id);
    assert_eq!(number(&current_account.balance.render()), amount);
}

#[test]
fn adjustments_follow_the_ledger_scenario() {
    let mut table = Table::new();
    create(&mut table, "A1", "0.00").expect("create");
    assert_eq!(number(&adjust(&mut table, "A1", "10.10").expect("credit")), number("10.10"));
    assert_eq!(number(&adjust(&mut table, "A1", "-5.00").expect("debit")), number("5.10"));
    let last = adjust(&mut table, "A1", "-5.10").expect("full debit");
    assert_eq!(number(&last), number("0.00"));
    assert_eq!(last, "0");
    let (message, class) = business(adjust(&mut table, "A1", "-0.01").expect_err("overdraft"));
    assert_eq!(message, "insufficient funds");
    assert_eq!(class, Classification::RuleViolation);
    assert_eq!(class.status_code(), 422);
    let account = read(&table, "A1").expect("read");
    assert_eq!(account.account_id, "A1");
    assert_eq!(number(&account.balance.render()), number("0.00"));
}

#[test]
fn adjustments_sum_exactly() {
    let mut table = Table::new();
    create(&mut table, "SUM", "0.1").expect("create");
    let amounts = ["0.2", "-0.3", "123.456789", "-23.456789", "0", "-100"];
    let mut expected = number("0.1");
    for a in amounts.iter() {
        expected = expected + number(a);
        let balance = adjust(&mut table, "SUM", a).expect("adjust");
        assert_eq!(number(&balance), expected);
    }
    let account = read(&table, "SUM").expect("read");
    assert_eq!(account.balance.render(), "0");
}

#[test]
fn overdraft_is_rejected_and_balance_unchanged() {
    let mut table = Table::new();
    create(&mut table, "OD", "3.50").expect("create");
    let (message, class) = business(adjust(&mut table, "OD", "-3.51").expect_err("overdraft"));
    assert_eq!(message, "insufficient funds");
    assert_eq!(class, Classification::RuleViolation);
    let account = read(&table, "OD").expect("read");
    assert_eq!(account.balance.render(), "3.5");
}

#[test]
fn reading_unknown_account_is_not_found() {
    let table = Table::new();
    let (message, class) = business(read(&table, "NOBODY").expect_err("unknown"));
    assert_eq!(message, "not found");
    assert_eq!(class, Classification::NotFound);
    assert_eq!(class.status_code(), 404);
}

#[test]
fn only_one_full_debit_succeeds() {
    let mut table = Table::new();
    create(&mut table, "X", "7.25").expect("create");
    let mut accepted = 0;
    let mut rejected = 0;
    for _ in 0..4 {
        match adjust(&mut table, "X", "-7.25") {
            Ok(balance) => {
                assert_eq!(balance, "0");
                accepted += 1;
            }
            Err(e) => {
                assert_eq!(business(e).0, "insufficient funds");
                rejected += 1;
            }
        }
    }
    assert_eq!(accepted, 1);
    assert_eq!(rejected, 3);
}

#[test]
fn decimal_text_round_trips() {
    for text in ["0.10", "-5", "123.456789", "0", "0.00", "-0.000000000000000000001", "99999999999999999999999999.5"] {
        let first = Decimal::parse(text).expect("valid");
        let rendered = first.render();
        let second = Decimal::parse(&rendered).expect("rendered text is valid");
        assert_eq!(second.render(), rendered);
        assert_eq!(number(&rendered), number(text));
        assert_eq!(second.sign(), first.sign());
    }
    assert_eq!(Decimal::parse("0.10").expect("valid").render(), "0.10");
    assert_eq!(Decimal::parse("-5").expect("valid").render(), "-5");
    assert_eq!(Decimal::parse("123.456789").expect("valid").render(), "123.456789");
}

#[test]
fn malformed_decimal_is_a_validation_failure() {
    for text in ["", "abc", "1.2.3", "--1", "12a"] {
        let (message, class) = business(Decimal::parse(text).expect_err("malformed"));
        assert_eq!(message, "invalid decimal number");
        assert_eq!(class, Classification::Validation);
        assert_eq!(class.status_code(), 400);
    }
    let err = Adjustment::parse("ten").expect_err("malformed");
    assert_eq!(err.status_code(), 400);
    assert_eq!(err.client_message(), Some("invalid decimal number".to_string()));
}

#[test]
fn malformed_stored_number_is_internal() {
    let err = Decimal::parse_stored("1.2.3").expect_err("malformed");
    assert_eq!(err.status_code(), 500);
    assert_eq!(err.client_message(), None);
    assert!(!internal(err).is_empty());
    assert_eq!(Decimal::parse_stored("1.20").expect("valid").render(), "1.20");
}

#[test]
fn account_needs_an_identifier() {
    let (message, class) = business(Account::parse(String::new(), "1").expect_err("no id"));
    assert_eq!(message, "missing account id");
    assert_eq!(class, Classification::Validation);
    let (message, _) = business(Account::parse("A".to_string(), "x").expect_err("bad balance"));
    assert_eq!(message, "invalid decimal number");
    let account = Account::parse("A".to_string(), "-2.50").expect("valid");
    assert_eq!(account.account_id, "A");
    assert_eq!(account.balance.render(), "-2.50");
}

#[test]
fn sign_and_negation() {
    assert_eq!(Decimal::parse("-1").unwrap().sign(), Sign::Minus);
    assert_eq!(Decimal::parse("0").unwrap().sign(), Sign::NoSign);
    assert_eq!(Decimal::parse("0.00").unwrap().sign(), Sign::NoSign);
    assert_eq!(Decimal::parse("1").unwrap().sign(), Sign::Plus);
    assert_eq!(Decimal::parse("-5.10").unwrap().neg().render(), "5.10");
    assert_eq!(Decimal::parse("5.10").unwrap().neg().render(), "-5.10");
    assert_eq!(Decimal::parse("0.0").unwrap().neg().render(), "0");
}

#[test]
fn normal_form_drops_trailing_zeros() {
    assert_eq!(Decimal::parse("5.100").unwrap().normalized().unwrap().render(), "5.1");
    assert_eq!(Decimal::parse("-10.00").unwrap().normalized().unwrap().render(), "-10");
    assert_eq!(Decimal::parse("0.000").unwrap().normalized().unwrap().render(), "0");
    assert_eq!(Decimal::parse("123.456789").unwrap().normalized().unwrap().render(), "123.456789");
    assert_eq!(number(&Decimal::parse("1200").unwrap().normalized().unwrap().render()), number("1200"));
}

#[test]
fn normal_form_needs_room_in_the_scale() {
    let edge = Decimal::parse("10E9223372036854775808").expect("valid");
    assert!(edge.normalized().is_none());
    let fits = Decimal::parse("1E9223372036854775808").expect("valid");
    assert!(fits.normalized().is_some());
    let attrs = vec![number_attr("balance", "10E9223372036854775808".to_string())];
    assert_eq!(internal(unpack_balance(attrs).expect_err("no room")), "balance out of range");
}

#[test]
fn credit_is_sent_without_a_condition() {
    let dao = AccountDao::new();
    for (text, sent) in [("10.10", "10.10"), ("0", "0"), ("0.00", "0")] {
        let amount = Decimal::parse(text).unwrap();
        let update = dao.adjust_account("A1".to_string(), &amount);
        assert_eq!(update.table_name, "Accounts");
        assert_eq!(update.key.name, "accountId");
        assert!(matches!(&update.key.value, AttributeValue::S(id) if id == "A1"));
        assert_eq!(update.update_expression, "SET balance = balance + :amount");
        assert_eq!(update.condition_expression, None);
        assert_eq!(update.return_values, ReturnValue::UpdatedNew);
        assert_eq!(update.expression_attribute_values.len(), 1);
        assert_eq!(update.expression_attribute_values[0].name, ":amount");
        assert!(matches!(&update.expression_attribute_values[0].value, AttributeValue::N(n) if n == sent));
    }
}

#[test]
fn debit_is_guarded_by_the_amount_debited() {
    let dao = AccountDao::new();
    let amount = Decimal::parse("-5.10").unwrap();
    let update = dao.adjust_account("A1".to_string(), &amount);
    assert_eq!(update.condition_expression, Some("balance >= :min_bal".to_string()));
    assert_eq!(update.expression_attribute_values.len(), 2);
    assert_eq!(update.expression_attribute_values[0].name, ":amount");
    assert!(matches!(&update.expression_attribute_values[0].value, AttributeValue::N(n) if n == "-5.10"));
    assert_eq!(update.expression_attribute_values[1].name, ":min_bal");
    assert!(matches!(&update.expression_attribute_values[1].value, AttributeValue::N(n) if n == "5.10"));

    let min = Decimal::parse("2").unwrap();
    let explicit = dao.update_with_min_balance_condition("B".to_string(), &amount, &min);
    assert!(matches!(&explicit.expression_attribute_values[1].value, AttributeValue::N(n) if n == "2"));
    let plain = dao.update_to_change_balance("B".to_string(), &amount);
    assert_eq!(plain.condition_expression, None);
}

#[test]
fn create_and_read_requests() {
    let dao = AccountDao::new();
    let account = Account::parse("NEW".to_string(), "10.10").unwrap();
    let put = dao.create_account(&account);
    assert_eq!(put.table_name, "Accounts");
    assert_eq!(put.item.len(), 2);
    assert_eq!(put.item[0].name, "accountId");
    assert!(matches!(&put.item[0].value, AttributeValue::S(id) if id == "NEW"));
    assert_eq!(put.item[1].name, "balance");
    assert!(matches!(&put.item[1].value, AttributeValue::N(n) if n == "10.10"));
    let get = dao.read_account("NEW".to_string());
    assert_eq!(get.table_name, "Accounts");
    assert_eq!(get.key.name, "accountId");
    assert!(matches!(&get.key.value, AttributeValue::S(id) if id == "NEW"));
    assert!(!get.consistent_read);
}

#[test]
fn store_failures_are_classified() {
    let dao = AccountDao::new();
    assert!(is_condition_failure(&UpdateError::ConditionalCheckFailed));
    assert!(!is_condition_failure(&UpdateError::Other("timeout".to_string())));
    let (message, class) = business(map_condition_failure_to(UpdateError::ConditionalCheckFailed, "no"));
    assert_eq!(message, "no");
    assert_eq!(class, Classification::RuleViolation);
    assert_eq!(internal(map_condition_failure_to(UpdateError::Other("timeout".to_string()), "no")), "timeout");

    let err = dao.adjusted_balance(Err(UpdateError::Other("connection reset".to_string()))).expect_err("failure");
    assert_eq!(err.status_code(), 500);
    assert_eq!(internal(err), "connection reset");
    let (message, class) = business(dao.adjusted_balance(Ok(UpdateItemOutput { attributes: None })).expect_err("no attributes"));
    assert_eq!(message, "not found");
    assert_eq!(class, Classification::NotFound);
    assert_eq!(internal(dao.account_created(Err("throttled".to_string())).expect_err("failure")), "throttled");
    assert!(dao.account_created(Ok(())).is_ok());
    assert_eq!(internal(dao.account_read(Err("unreachable host".to_string())).expect_err("failure")), "unreachable host");
}

#[test]
fn malformed_items_are_internal() {
    let no_balance = vec![string_attr("accountId", "A".to_string())];
    assert_eq!(internal(unpack_balance(no_balance).expect_err("missing")), "balance not returned by dynamodb");
    let wrong_type = vec![string_attr("balance", "1".to_string())];
    assert_eq!(internal(decimal_attr(&wrong_type, "balance").expect_err("no number")), "balance not returned by dynamodb");
    let not_numeric = vec![number_attr("balance", "1.2.3".to_string())];
    assert_eq!(unpack_balance(not_numeric).expect_err("malformed").status_code(), 500);
    let no_id = vec![number_attr("balance", "1".to_string())];
    assert_eq!(internal(unpack_account(no_id).expect_err("missing")), "accountId not returned by dynamodb");
    let id_is_number = vec![number_attr("accountId", "1".to_string()), number_attr("balance", "1".to_string())];
    assert_eq!(internal(str_attr(&id_is_number, "accountId").expect_err("no string")), "accountId not returned by dynamodb");
    let other = vec![Attribute { name: "balance".to_string(), value: AttributeValue::Other }];
    assert_eq!(internal(unpack_balance(other).expect_err("other")), "balance not returned by dynamodb");

    let good = vec![number_attr("balance", "12.500".to_string()), string_attr("accountId", "Z9".to_string())];
    assert_eq!(str_attr(&good, "accountId").expect("string"), "Z9");
    assert_eq!(decimal_attr(&good, "balance").expect("number").render(), "12.500");
    let account = unpack_account(good).expect("account");
    assert_eq!(account.account_id, "Z9");
    assert_eq!(account.balance.render(), "12.5");
}

#[test]
fn error_constructors_classify() {
    assert_eq!(business(AppError::bad_request_str("bad")), ("bad".to_string(), Classification::Validation));
    assert_eq!(business(AppError::bad_request("worse".to_string())), ("worse".to_string(), Classification::Validation));
    assert_eq!(business(AppError::not_found()), ("not found".to_string(), Classification::NotFound));
    assert_eq!(business(AppError::unprocessable("no")), ("no".to_string(), Classification::RuleViolation));
    assert_eq!(internal(AppError::internal_s("cause".to_string())), "cause");
    assert_eq!(internal(AppError::internal("static cause")), "static cause");
    assert_eq!(internal(account_ledger::dao::app_err("x".to_string())), "x");
    assert_eq!(AppError::not_found().status_code(), 404);
    assert_eq!(AppError::bad_request_str("bad").status_code(), 400);
    assert_eq!(AppError::unprocessable("no").status_code(), 422);
    assert_eq!(AppError::internal("boom").status_code(), 500);
    assert_eq!(AppError::internal("boom").client_message(), None);
    assert_eq!(AppError::unprocessable("no").client_message(), Some("no".to_string()));
}

#[test]
fn balance_never_goes_below_zero() {
    let mut table = Table::new();
    create(&mut table, "NN", "1.00").expect("create");
    for a in ["-0.75", "-0.50", "0.10", "-0.36", "-0.35", "-0.01", "0", "-0.000001"] {
        let _ = adjust(&mut table, "NN", a);
        let account = read(&table, "NN").expect("read");
        assert!(number(&account.balance.render()) >= number("0"));
    }
    assert_eq!(read(&table, "NN").expect("read").balance.render(), "0");
}

#[test]
fn credit_to_a_negative_balance_is_accepted() {
    let mut table = Table::new();
    create(&mut table, "NEG", "-5").expect("create");
    assert_eq!(adjust(&mut table, "NEG", "1").expect("credit"), "-4");
    let (message, _) = business(adjust(&mut table, "NEG", "-1").expect_err("debit"));
    assert_eq!(message, "insufficient funds");
}

#[test]
fn errors_describe_themselves() {
    assert_eq!(AppError::internal("internal error").describe(), "internal error");
    assert_eq!(AppError::unprocessable("insufficient funds").describe(), "Business: insufficient funds 422 Unprocessable Entity");
    assert_eq!(AppError::not_found().describe(), "Business: not found 404 Not Found");
    assert_eq!(AppError::bad_request_str("missing payload").describe(), "Business: missing payload 400 Bad Request");
}
