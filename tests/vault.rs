use native_vault::contract::{instantiate, require_admin, BalanceQuery, NativeVault, QueryAnswer};
use native_vault::error::ContractError;
use native_vault::lexorder::{compare_str, str_eq};
use native_vault::msg::{Coin, Env, ExecuteMsg, InstantiateMsg, MessageInfo, QueryMsg, VaultMsg};
use native_vault::state::Config;

const VAULT: &str = "vault";
const DEPLOYER: &str = "deployer";
const ROB: &str = "rob";

fn env() -> Env {
    Env { contract_address: VAULT.to_string() }
}

fn info(sender: &str, funds: Vec<Coin>) -> MessageInfo {
    MessageInfo { sender: sender.to_string(), funds }
}

fn coin(amount: u128, denom: &str) -> Coin {
    Coin { denom: denom.to_string(), amount }
}

fn new_vault() -> NativeVault {
    instantiate(&env(), &info(DEPLOYER, vec![]), InstantiateMsg {}).0
}

fn add(vault: &mut NativeVault, denom: &str, address: &str) {
    vault
        .execute_add_vault(&env(), &info(DEPLOYER, vec![]), denom.to_string(), address.to_string())
        .unwrap();
}

#[test]
fn test_create_vault() {
    let mut vault = new_vault();
    add(&mut vault, "ucosm", "cw20_uusd");
    add(&mut vault, "uusd", "cw20_uusd");
    let res = vault.query_denom_list();
    assert_eq!(res.denoms.len(), 2);
}

#[test]
fn instantiate_makes_sender_admin() {
    let (vault, res) = instantiate(&env(), &info(DEPLOYER, vec![]), InstantiateMsg {});
    assert_eq!(vault.query_config().admin, DEPLOYER);
    assert!(res.messages.is_empty());
    assert!(vault.query_denom_list().denoms.is_empty());
}

#[test]
fn require_admin_accepts_only_admin() {
    let config = Config { admin: DEPLOYER.to_string() };
    assert_eq!(require_admin(&DEPLOYER.to_string(), &config), Ok(()));
    assert!(matches!(require_admin(&ROB.to_string(), &config), Err(ContractError::Unauthorized(_))));
}

#[test]
fn add_vault_by_non_admin_is_unauthorized() {
    let mut vault = new_vault();
    let r = vault.execute_add_vault(&env(), &info(ROB, vec![]), "ucosm".to_string(), "issuer".to_string());
    assert!(matches!(r, Err(ContractError::Unauthorized(_))));
    assert!(vault.query_denom_list().denoms.is_empty());
    assert!(matches!(vault.query_vault_address(&"ucosm".to_string()), Err(ContractError::VaultDoesNotExist(_))));
}

#[test]
fn update_config_by_non_admin_is_unauthorized() {
    let mut vault = new_vault();
    let r = vault.execute_update_config(&env(), &info(ROB, vec![]), Some(ROB.to_string()));
    assert!(matches!(r, Err(ContractError::Unauthorized(_))));
    assert_eq!(vault.query_config().admin, DEPLOYER);
}

#[test]
fn update_config_by_admin_replaces_or_keeps_admin() {
    let mut vault = new_vault();
    vault.execute_update_config(&env(), &info(DEPLOYER, vec![]), None).unwrap();
    assert_eq!(vault.query_config().admin, DEPLOYER);
    let r = vault.execute_update_config(&env(), &info(DEPLOYER, vec![]), Some(ROB.to_string())).unwrap();
    assert!(r.messages.is_empty());
    assert_eq!(vault.query_config().admin, ROB);
    let r = vault.execute_update_config(&env(), &info(DEPLOYER, vec![]), None);
    assert!(matches!(r, Err(ContractError::Unauthorized(_))));
}

#[test]
fn add_vault_registers_and_probes_issuer() {
    let mut vault = new_vault();
    let r = vault
        .execute_add_vault(&env(), &info(DEPLOYER, vec![]), "ucosm".to_string(), "issuer".to_string())
        .unwrap();
    assert_eq!(r.action, "add_vault");
    assert_eq!(
        r.messages,
        vec![
            VaultMsg::Mint { contract: "issuer".to_string(), recipient: VAULT.to_string(), amount: 1 },
            VaultMsg::Burn { contract: "issuer".to_string(), amount: 1 },
        ]
    );
    assert_eq!(vault.query_vault_address(&"ucosm".to_string()), Ok("issuer".to_string()));
    assert_eq!(vault.query_denom_list().denoms, vec!["ucosm".to_string()]);
}

#[test]
fn add_vault_again_replaces_issuer() {
    let mut vault = new_vault();
    add(&mut vault, "ucosm", "first");
    add(&mut vault, "ucosm", "second");
    assert_eq!(vault.query_vault_address(&"ucosm".to_string()), Ok("second".to_string()));
    assert_eq!(vault.query_denom_list().denoms.len(), 1);
}

#[test]
fn denom_list_is_ascending_whatever_the_insertion_order() {
    let mut vault = new_vault();
    for d in ["uusd", "atom", "ucosm", "b", "", "ab", "uusd"] {
        add(&mut vault, d, "issuer");
    }
    assert_eq!(vault.query_denom_list().denoms, vec!["", "ab", "atom", "b", "ucosm", "uusd"]);
}

#[test]
fn bond_without_funds_is_payment_error() {
    let mut vault = new_vault();
    add(&mut vault, "ucosm", "issuer");
    let r = vault.execute_bond(&env(), &info(ROB, vec![]), "ucosm".to_string(), 100);
    assert!(matches!(r, Err(ContractError::PaymentError(_))));
}

#[test]
fn bond_with_zero_amount_is_payment_error() {
    let mut vault = new_vault();
    add(&mut vault, "ucosm", "issuer");
    let r = vault.execute_bond(&env(), &info(ROB, vec![coin(0, "ucosm")]), "ucosm".to_string(), 0);
    assert!(matches!(r, Err(ContractError::PaymentError(_))));
}

#[test]
fn bond_with_two_denoms_is_payment_error() {
    let mut vault = new_vault();
    add(&mut vault, "ucosm", "issuer");
    let funds = vec![coin(100, "ucosm"), coin(5, "uusd")];
    let r = vault.execute_bond(&env(), &info(ROB, funds), "ucosm".to_string(), 100);
    assert!(matches!(r, Err(ContractError::PaymentError(_))));
}

#[test]
fn bond_takes_denom_and_amount_from_the_attached_coin() {
    let mut vault = new_vault();
    add(&mut vault, "ucosm", "issuer");
    let r = vault.execute_bond(&env(), &info(ROB, vec![coin(1, "ucosm")]), "ucosm".to_string(), 100).unwrap();
    assert_eq!(
        r.messages,
        vec![VaultMsg::Mint { contract: "issuer".to_string(), recipient: ROB.to_string(), amount: 1 }]
    );
    let r = vault.execute_bond(&env(), &info(ROB, vec![coin(100, "uusd")]), "ucosm".to_string(), 100);
    assert!(matches!(r, Err(ContractError::VaultDoesNotExist(_))));
}

#[test]
fn unauthorized_errors_carry_their_message() {
    let mut vault = new_vault();
    let r = vault.execute_add_vault(&env(), &info(ROB, vec![]), "ucosm".to_string(), "issuer".to_string());
    assert_eq!(r, Err(ContractError::Unauthorized("only the admin can call this function".to_string())));
}

#[test]
fn bond_on_unregistered_denom_fails() {
    let vault = new_vault();
    let r = vault.execute_bond(&env(), &info(ROB, vec![coin(100, "ucosm")]), "ucosm".to_string(), 100);
    assert!(matches!(r, Err(ContractError::VaultDoesNotExist(_))));
}

#[test]
fn bond_mints_to_sender() {
    let mut vault = new_vault();
    add(&mut vault, "ucosm", "issuer");
    let r = vault.execute_bond(&env(), &info(ROB, vec![coin(100, "ucosm")]), "ucosm".to_string(), 100).unwrap();
    assert_eq!(r.action, "bond");
    assert_eq!(
        r.messages,
        vec![VaultMsg::Mint { contract: "issuer".to_string(), recipient: ROB.to_string(), amount: 100 }]
    );
}

#[test]
fn unbond_on_unregistered_denom_fails() {
    let vault = new_vault();
    let r = vault.execute_unbond(&env(), &info(ROB, vec![]), "ucosm".to_string(), 40);
    assert!(matches!(r, Err(ContractError::VaultDoesNotExist(_))));
}

#[test]
fn unbond_burns_and_pays_back() {
    let mut vault = new_vault();
    add(&mut vault, "ucosm", "issuer");
    let r = vault.execute_unbond(&env(), &info(ROB, vec![]), "ucosm".to_string(), 40).unwrap();
    assert_eq!(r.action, "unbond");
    assert_eq!(
        r.messages,
        vec![
            VaultMsg::BurnFrom { contract: "issuer".to_string(), owner: ROB.to_string(), amount: 40 },
            VaultMsg::BankSend { to: ROB.to_string(), denom: "ucosm".to_string(), amount: 40 },
        ]
    );
}

#[test]
fn execute_dispatches_each_request() {
    let mut vault = new_vault();
    let admin = info(DEPLOYER, vec![]);
    let add_msg = ExecuteMsg::AddVault { denom: "ucosm".to_string(), address: "issuer".to_string() };
    assert_eq!(vault.execute(&env(), &admin, add_msg).unwrap().messages.len(), 2);
    let bond = ExecuteMsg::Bond { denom: "ucosm".to_string(), amount: 7 };
    let r = vault.execute(&env(), &info(ROB, vec![coin(7, "ucosm")]), bond).unwrap();
    assert_eq!(r.messages[0], VaultMsg::Mint { contract: "issuer".to_string(), recipient: ROB.to_string(), amount: 7 });
    let unbond = ExecuteMsg::Unbond { denom: "uusd".to_string(), amount: 7 };
    assert!(matches!(vault.execute(&env(), &info(ROB, vec![]), unbond), Err(ContractError::VaultDoesNotExist(_))));
    let update = ExecuteMsg::UpdateConfig { admin: Some("steve".to_string()) };
    vault.execute(&env(), &admin, update).unwrap();
    assert_eq!(vault.query_config().admin, "steve");
}

#[test]
fn query_dispatches_each_request() {
    let mut vault = new_vault();
    add(&mut vault, "ucosm", "issuer");
    let q = QueryMsg::Balance { owner: ROB.to_string(), denom: "ucosm".to_string() };
    match vault.query(&q).unwrap() {
        QueryAnswer::Balance(b) => assert_eq!(b, BalanceQuery { contract: "issuer".to_string(), address: ROB.to_string() }),
        _ => panic!("expected a balance query"),
    }
    let q = QueryMsg::Balance { owner: ROB.to_string(), denom: "uusd".to_string() };
    assert!(matches!(vault.query(&q), Err(ContractError::VaultDoesNotExist(_))));
    match vault.query(&QueryMsg::Config {}).unwrap() {
        QueryAnswer::Config(c) => assert_eq!(c.admin, DEPLOYER),
        _ => panic!("expected the config"),
    }
    match vault.query(&QueryMsg::VaultAddress { denom: "ucosm".to_string() }).unwrap() {
        QueryAnswer::VaultAddress(a) => assert_eq!(a, "issuer"),
        _ => panic!("expected an address"),
    }
    match vault.query(&QueryMsg::DenomList {}).unwrap() {
        QueryAnswer::DenomList(l) => assert_eq!(l.denoms, vec!["ucosm".to_string()]),
        _ => panic!("expected the denominations"),
    }
}

#[test]
fn compare_str_orders_by_code_point() {
    assert_eq!(compare_str("abc", "abc"), 0);
    assert_eq!(compare_str("abc", "abd"), -1);
    assert_eq!(compare_str("b", "abc"), 1);
    assert_eq!(compare_str("ab", "abc"), -1);
    assert_eq!(compare_str("", ""), 0);
    assert_eq!(compare_str("Z", "a"), -1);
    assert_eq!(compare_str("\u{e9}", "z"), 1);
    assert!(str_eq("ucosm", "ucosm"));
    assert!(!str_eq("ucosm", "uatom"));
}
