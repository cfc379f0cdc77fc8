//! Requests to the vault, its answers, and the calls it hands to the host.
use vstd::prelude::*;

verus! {

/// An amount of one native denomination.
#[derive(Clone, Debug, PartialEq, Eq)]
pub struct Coin {
    pub denom: String,
    pub amount: u128,
}

/// Who sent a request, and the funds attached to it.
#[derive(Clone, Debug)]
pub struct MessageInfo {
    pub sender: String,
    pub funds: Vec<Coin>,
}

/// What the host tells the vault about itself.
#[derive(Clone, Debug)]
pub struct Env {
    /// The vault's own account.
    pub contract_address: String,
}

/// Sets a vault up; the instantiating sender becomes its admin.
#[derive(Clone, Debug, PartialEq, Eq)]
pub struct InstantiateMsg {}

/// The mutating requests.
#[derive(Clone, Debug, PartialEq, Eq)]
pub enum ExecuteMsg {
    /// Bond native tokens to the vault.
    Bond { denom: String, amount: u128 },
    /// Unbond native tokens from the vault.
    Unbond { denom: String, amount: u128 },
    /// Register the issuer of the receipt token of a denomination.
    AddVault { denom: String, address: String },
    /// Update the configuration.
    UpdateConfig { admin: Option<String> },
}

/// The read-only requests.
#[derive(Clone, Debug, PartialEq, Eq)]
pub enum QueryMsg {
    /// The receipt balance of an owner for a denomination.
    Balance { owner: String, denom: String },
    /// The configuration.
    Config {},
    /// The issuer registered for a denomination.
    VaultAddress { denom: String },
    /// All registered denominations.
    DenomList {},
}

/// A receipt balance.
#[derive(Clone, Debug, PartialEq, Eq)]
pub struct BalanceResponse {
    pub balance: u128,
}

/// The code id of the receipt token contract.
#[derive(Clone, Debug, PartialEq, Eq)]
pub struct ConfigResponse {
    pub cw20_code_id: u64,
}

/// The issuer registered for a denomination.
#[derive(Clone, Debug, PartialEq, Eq)]
pub struct VaultAddressResponse {
    pub address: String,
}

/// The registered denominations, in ascending order.
#[derive(Clone, Debug, PartialEq, Eq)]
pub struct DenomResponse {
    pub denoms: Vec<String>,
}

/// A call that the vault asks the host to make on its behalf, once the
/// operation that returned it has succeeded.
#[derive(Clone, Debug, PartialEq, Eq)]
pub enum VaultMsg {
    /// Mint `amount` receipt tokens of the issuer `contract` to `recipient`.
    Mint { contract: String, recipient: String, amount: u128 },
    /// Burn `amount` receipt tokens of the issuer `contract` held by the vault.
    Burn { contract: String, amount: u128 },
    /// Burn `amount` receipt tokens of `owner`, under the allowance that
    /// `owner` gave the vault at the issuer `contract`.
    BurnFrom { contract: String, owner: String, amount: u128 },
    /// Send `amount` of the native `denom` from the vault to `to`.
    BankSend { to: String, denom: String, amount: u128 },
}

/// What a successful operation returns: the action it records and the
/// calls the host makes next, all of them or, if one fails, none.
#[derive(Clone, Debug, PartialEq, Eq)]
pub struct Response {
    pub action: String,
    pub messages: Vec<VaultMsg>,
}

/// A call as plain sequences, for contracts.
pub enum MsgView {
    Mint { contract: Seq<char>, recipient: Seq<char>, amount: u128 },
    Burn { contract: Seq<char>, amount: u128 },
    BurnFrom { contract: Seq<char>, owner: Seq<char>, amount: u128 },
    BankSend { to: Seq<char>, denom: Seq<char>, amount: u128 },
}

impl VaultMsg {
    pub open spec fn view(&self) -> MsgView {
        match self {
            VaultMsg::Mint { contract, recipient, amount } => MsgView::Mint {
                contract: contract@,
                recipient: recipient@,
                amount: *amount,
            },
            VaultMsg::Burn { contract, amount } => MsgView::Burn { contract: contract@, amount: *amount },
            VaultMsg::BurnFrom { contract, owner, amount } => MsgView::BurnFrom {
                contract: contract@,
                owner: owner@,
                amount: *amount,
            },
            VaultMsg::BankSend { to, denom, amount } => MsgView::BankSend {
                to: to@,
                denom: denom@,
                amount: *amount,
            },
        }
    }
}

impl Response {
    /// The calls as plain values.
    pub open spec fn msgs(&self) -> Seq<MsgView> {
        self.messages@.map_values(|m: VaultMsg| m.view())
    }
}

} // verus!
