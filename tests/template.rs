use native_vault::error::ContractError;
use native_vault::template::{
    execute, execute_update_config, join_operators, only_operator, query, query_config, Config, ExecuteMsg,
    QueryMsg,
};

fn config() -> Config {
    Config {
        cw721_address: "nft".to_string(),
        operators: vec!["alice".to_string(), "bob".to_string()],
        label: "vault".to_string(),
        unstake_period: 1_209_600,
    }
}

fn attr(attrs: &[(String, String)], key: &str) -> String {
    attrs.iter().find(|(k, _)| k == key).map(|(_, v)| v.clone()).unwrap()
}

#[test]
fn only_operator_accepts_any_operator() {
    let c = config();
    assert_eq!(only_operator(&"bob".to_string(), &c), Ok("bob".to_string()));
    assert_eq!(only_operator(&"alice".to_string(), &c), Ok("alice".to_string()));
    assert_eq!(
        only_operator(&"eve".to_string(), &c),
        Err(ContractError::Unauthorized("only an operator can call this function".to_string()))
    );
}

#[test]
fn update_config_by_stranger_is_unauthorized() {
    let mut c = config();
    let r = execute_update_config(&mut c, &"eve".to_string(), None, Some("new".to_string()), Some(5));
    assert!(matches!(r, Err(ContractError::Unauthorized(_))));
    assert_eq!(c.label, "vault");
    assert_eq!(c.unstake_period, 1_209_600);
}

#[test]
fn update_config_changes_only_given_fields() {
    let mut c = config();
    let attrs = execute_update_config(&mut c, &"alice".to_string(), None, Some("renamed".to_string()), None).unwrap();
    assert_eq!(c.label, "renamed");
    assert_eq!(c.operators, vec!["alice".to_string(), "bob".to_string()]);
    assert_eq!(c.unstake_period, 1_209_600);
    assert_eq!(attr(&attrs, "action"), "update_config");
    assert_eq!(attr(&attrs, "operators"), "alice,bob");
    assert_eq!(attr(&attrs, "cw721_address"), "nft");
    assert_eq!(attr(&attrs, "label"), "renamed");
    assert_eq!(attr(&attrs, "unstake_period"), "1209600");
}

#[test]
fn update_config_replaces_operators_and_period() {
    let mut c = config();
    let msg = ExecuteMsg::UpdateConfig { operators: Some(vec!["carol".to_string()]), label: None, unstake_period: Some(0) };
    let attrs = execute(&mut c, &"bob".to_string(), msg).unwrap();
    assert_eq!(c.operators, vec!["carol".to_string()]);
    assert_eq!(attr(&attrs, "operators"), "carol");
    assert_eq!(attr(&attrs, "unstake_period"), "0");
    assert!(only_operator(&"bob".to_string(), &c).is_err());
}

#[test]
fn join_operators_uses_commas() {
    assert_eq!(join_operators(&vec![]), "");
    assert_eq!(join_operators(&vec!["a".to_string()]), "a");
    assert_eq!(join_operators(&vec!["a".to_string(), "b".to_string(), "c".to_string()]), "a,b,c");
}

#[test]
fn query_config_returns_every_field() {
    let c = config();
    let r = query_config(&c);
    assert_eq!(r.cw721_address, "nft");
    assert_eq!(r.operators, vec!["alice".to_string(), "bob".to_string()]);
    assert_eq!(r.label, "vault");
    assert_eq!(r.unstake_period, 1_209_600);
    assert_eq!(query(&c, &QueryMsg::Config {}), r);
}
