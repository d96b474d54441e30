use dld::common::accounts::{Account, AccountError, AccountRecord, AccountStore};

#[test]
fn test_format_cookie() {
    // plain formatting
    assert_eq!(
        Account::format_cookie("openId=user123; accessToken=tokenABC; newuin=123").unwrap(),
        "openId=user123; accessToken=tokenABC; newuin=123"
    );
    // extra fields are dropped
    assert_eq!(
        Account::format_cookie(
            "openId=foo; accessToken=bar; newuin=123; expires=Wed, 21 Oct 2026 07:28:00 GMT"
        )
        .unwrap(),
        "openId=foo; accessToken=bar; newuin=123"
    );
    // spaces are tolerated
    assert_eq!(
        Account::format_cookie(" openId = value1 ; accessToken = value2 ; newuin = 123 ").unwrap(),
        "openId=value1; accessToken=value2; newuin=123"
    );
}

#[test]
fn test_format_cookie_missing_field() {
    let cookie = "accessToken=abc; newuin=123";
    assert!(Account::format_cookie(cookie).is_err());
    let cookie = "openId=123; newuin=123";
    assert!(Account::format_cookie(cookie).is_err());
    let cookie = "openId=123; accessToken=abc";
    assert!(Account::format_cookie(cookie).is_err());
}

#[test]
fn test_format_cookie_empty_value() {
    assert!(Account::format_cookie("openId=; accessToken=abc; newuin=123").is_err());
    assert!(Account::format_cookie("openId=abc; accessToken=; newuin=123").is_err());
    assert!(Account::format_cookie("openId=abc; accessToken=bar; newuin=").is_err());
}

#[test]
fn test_extract_qq() {
    let cookie = "openId=user123; accessToken=tokenABC; newuin=10001";
    assert_eq!(Account::extract_qq(cookie).unwrap(), "10001");
}

#[test]
fn test_extract_qq_missing() {
    assert!(Account::extract_qq("openId=user123; accessToken=tokenABC").is_err());
}

#[test]
fn test_extract_qq_empty_value() {
    assert!(Account::extract_qq("openId=user123; accessToken=tokenABC; newuin=").is_err());
}

#[test]
fn test_extract_qq_non_numeric() {
    assert!(Account::extract_qq("openId=user123; accessToken=tokenABC; newuin=abc123").is_err());
}

fn sample_account(qq: &str) -> Account {
    Account {
        qq: qq.to_string(),
        record: AccountRecord {
            cookie: format!("openId=x; accessToken=y; newuin={qq}"),
        },
    }
}

fn temp_store() -> AccountStore {
    AccountStore::new("accounts.json")
}

#[test]
fn test_save_and_load_all() {
    let mut store = temp_store();
    store.save(&sample_account("10001"));

    let loaded = store.load_all().unwrap();
    assert_eq!(loaded.len(), 1);
    assert_eq!(loaded[0].qq, "10001");
    assert_eq!(loaded[0].record.cookie, "openId=x; accessToken=y; newuin=10001");
}

#[test]
fn test_save_overwrites_existing() {
    let mut store = temp_store();
    store.save(&sample_account("10001"));

    let updated = Account {
        qq: "10001".to_string(),
        record: AccountRecord {
            cookie: "openId=new; accessToken=new; newuin=10001".to_string(),
        },
    };
    store.save(&updated);

    let loaded = store.load_all().unwrap();
    assert_eq!(loaded.len(), 1);
    assert_eq!(loaded[0].record.cookie, "openId=new; accessToken=new; newuin=10001");
}

#[test]
fn test_list_qqs_multiple() {
    let mut store = temp_store();
    store.save(&sample_account("10001"));
    store.save(&sample_account("20002"));

    let mut qqs = store.list_qqs();
    qqs.sort();
    assert_eq!(qqs, vec!["10001", "20002"]);
}

#[test]
fn test_load_all_empty() {
    let store = AccountStore::new("nonexistent.json");
    assert!(store.load_all().is_err());
}

#[test]
fn test_find_success() {
    let mut store = temp_store();
    store.save(&sample_account("10001"));

    let found = store.find("10001").unwrap();
    assert_eq!(found.qq, "10001");
    assert_eq!(found.record.cookie, "openId=x; accessToken=y; newuin=10001");
}

#[test]
fn test_find_not_found() {
    let mut store = temp_store();
    store.save(&sample_account("10001"));

    assert!(store.find("99999").is_err());
}

#[test]
fn test_remove_success() {
    let mut store = temp_store();
    store.save(&sample_account("10001"));
    assert!(store.remove("10001"));

    assert!(store.load_all().is_err());
}

#[test]
fn test_remove_nonexistent() {
    let mut store = temp_store();
    // removing an account that was never saved is no error
    assert!(!store.remove("99999"));
    assert!(store.list_qqs().is_empty());
}

#[test]
fn from_cookie_takes_qq_and_formats() {
    let acc = Account::from_cookie(" newuin = 42 ; openId = a ; accessToken = b ; x=y").unwrap();
    assert_eq!(acc.qq, "42");
    assert_eq!(acc.record.cookie, "openId=a; accessToken=b; newuin=42");
}

#[test]
fn error_variants_come_from_their_inputs() {
    assert!(matches!(Account::format_cookie("openId=a; newuin=1"), Err(AccountError::MissingFields)));
    assert!(matches!(Account::extract_qq("openId=a"), Err(AccountError::NoQqField)));
    assert!(matches!(Account::extract_qq("newuin=1x"), Err(AccountError::NonNumericQq(_))));
    let store = temp_store();
    assert!(matches!(store.load_all(), Err(AccountError::NoAccounts)));
    assert!(matches!(store.find("1"), Err(AccountError::NotFound(_))));
}

#[test]
fn lookup_after_save_and_remove() {
    let mut store = temp_store();
    store.save(&sample_account("1"));
    store.save(&sample_account("2"));
    assert_eq!(store.find("2").unwrap().qq, "2");
    assert!(store.remove("1"));
    assert!(store.find("1").is_err());
    assert_eq!(store.find("2").unwrap().record.cookie, "openId=x; accessToken=y; newuin=2");
}

#[test]
fn parse_cookie_parts_trims_pairs() {
    let parts = Account::parse_cookie_parts(" a = 1 ; b=2;c");
    assert_eq!(parts, vec![("a".to_string(), "1".to_string()), ("b".to_string(), "2".to_string())]);
}

#[test]
fn standard_form_is_stable() {
    let raw = " newuin = 1 ; openId = a=b ; x=y; accessToken = t ; newuin = 42 ";
    let once = Account::format_cookie(raw).unwrap();
    assert_eq!(once, "openId=a=b; accessToken=t; newuin=42");
    assert_eq!(Account::format_cookie(&once).unwrap(), once);
    assert_eq!(Account::extract_qq(&once).unwrap(), "42");
    let account = Account::from_cookie(raw).unwrap();
    assert_eq!(account.qq, "42");
    assert_eq!(Account::from_cookie(&account.record.cookie).unwrap().record.cookie, account.record.cookie);
}

#[test]
fn account_error_messages() {
    assert_eq!(
        Account::from_cookie("openId=a; accessToken=b").unwrap_err().message(),
        "Cookie 必须包含 openId、accessToken、newuin 三个字段"
    );
    assert_eq!(
        Account::from_cookie("openId=a; accessToken=b; newuin=12x").unwrap_err().message(),
        "newuin 必须为纯数字，当前值: 12x"
    );
    assert_eq!(AccountError::NoQqField.message(), "未找到 newuin 字段");
    assert_eq!(AccountError::NoAccounts.message(), "没有已登记的账号，请先使用「登记」命令添加 Cookie");
    assert_eq!(AccountError::NotFound("42".to_string()).message(), "未找到 QQ 号为 42 的账号");
}
