//! The vault: the admin guard, vault registration, bonding and unbonding,
//! and the read-only queries.
use vstd::prelude::*;
use crate::error::{unauthorized_with, ContractError};
use crate::lexorder::{lex_lt, str_eq};
use crate::msg::{
    Coin, DenomResponse, Env, ExecuteMsg, InstantiateMsg, MessageInfo, MsgView, QueryMsg, Response,
    VaultMsg,
};
use crate::payment::one_coin;
use crate::state::{law_denoms_listed, Config, Registry};

verus! {

/// The state of a vault: its configuration and its registry.
pub struct NativeVault {
    pub config: Config,
    pub registry: Registry,
}

/// A balance that the host asks of an issuer on the vault's behalf.
#[derive(Clone, Debug, PartialEq, Eq)]
pub struct BalanceQuery {
    /// The issuer to ask.
    pub contract: String,
    /// The owner whose receipt balance is asked.
    pub address: String,
}

/// The answer to a query. A balance is answered by the issuer: the vault
/// names the issuer and the owner, and the host forwards the question.
#[derive(Clone, Debug)]
pub enum QueryAnswer {
    Balance(BalanceQuery),
    Config(Config),
    VaultAddress(String),
    DenomList(DenomResponse),
}

/// Succeeds exactly when `caller` is the admin of `config`.
pub fn require_admin(caller: &String, config: &Config) -> (r: Result<(), ContractError>)
    ensures
        r is Ok <==> caller@ == config.admin@,
        r is Err ==> unauthorized_with(r->Err_0, "only the admin can call this function"@),
{
    if str_eq(caller.as_str(), config.admin.as_str()) {
        Ok(())
    } else {
        Err(ContractError::Unauthorized("only the admin can call this function".to_string()))
    }
}

/// Sets up a vault whose admin is the instantiating sender, with an empty
/// registry.
pub fn instantiate(_env: &Env, info: &MessageInfo, _msg: InstantiateMsg) -> (r: (NativeVault, Response))
    ensures
        r.0.wf(),
        r.0.config.admin@ == info.sender@,
        r.0.registry.denoms().len() == 0,
        forall|d: Seq<char>| r.0.registry.issuer_of(d) is None,
        r.1.action@ == "instantiate"@,
        r.1.msgs().len() == 0,
{
    let vault = NativeVault {
        config: Config { admin: info.sender.clone() },
        registry: Registry::new(),
    };
    (vault, Response { action: "instantiate".to_string(), messages: Vec::new() })
}

impl NativeVault {
    pub open spec fn wf(&self) -> bool {
        self.registry.wf()
    }

    /// Replaces the admin, when `admin` is given. Only the admin may.
    pub fn execute_update_config(&mut self, _env: &Env, info: &MessageInfo, admin: Option<String>) -> (r: Result<Response, ContractError>)
        requires
            old(self).wf(),
        ensures
            final(self).wf(),
            r is Ok <==> info.sender@ == old(self).config.admin@,
            r is Err ==> unauthorized_with(r->Err_0, "only the admin can call this function"@) && final(self).config.admin@ == old(self).config.admin@,
            r is Ok ==> r->Ok_0.msgs().len() == 0 && r->Ok_0.action@ == "update_config"@,
            r is Ok && admin is Some ==> final(self).config.admin@ == admin->Some_0@,
            admin is None ==> final(self).config.admin@ == old(self).config.admin@,
            final(self).registry == old(self).registry,
    {
        match require_admin(&info.sender, &self.config) {
            Err(e) => return Err(e),
            Ok(()) => {},
        }
        if let Some(a) = admin {
            self.config.admin = a;
        }
        Ok(Response { action: "update_config".to_string(), messages: Vec::new() })
    }
    /// Registers `address` as the issuer of the receipt token of `denom`.
    /// Only the admin may. The response asks the issuer to mint one token to
    /// the vault and to burn it again: the host commits the registration
    /// only if both calls succeed, which proves that the vault can mint.
    /// A denomination that is already registered is linked to the new
    /// issuer: whether a second registration should instead fail with
    /// `VaultAlreadyExists` is an open design question, and this keeps the
    /// overwriting behaviour of the deployed contract.
    pub fn execute_add_vault(&mut self, env: &Env, info: &MessageInfo, denom: String, address: String) -> (r: Result<Response, ContractError>)
        requires
            old(self).wf(),
        ensures
            final(self).wf(),
            final(self).config.admin@ == old(self).config.admin@,
            r is Ok <==> info.sender@ == old(self).config.admin@,
            r is Err ==> unauthorized_with(r->Err_0, "only the admin can call this function"@) && final(self).registry == old(self).registry,
            r is Ok ==> final(self).registry.issuer_of(denom@) == Some(address@),
            r is Ok ==> forall|d: Seq<char>| d != denom@ ==> final(self).registry.issuer_of(d) == old(self).registry.issuer_of(d),
            r is Ok ==> r->Ok_0.action@ == "add_vault"@ && r->Ok_0.msgs() == probe_msgs(address@, env.contract_address@),
    {
        match require_admin(&info.sender, &self.config) {
            Err(e) => return Err(e),
            Ok(()) => {},
        }
        let mint = VaultMsg::Mint { contract: address.clone(), recipient: env.contract_address.clone(), amount: 1 };
        let burn = VaultMsg::Burn { contract: address.clone(), amount: 1 };
        self.registry.insert(denom, address);
        let mut messages: Vec<VaultMsg> = Vec::new();
        messages.push(mint);
        messages.push(burn);
        let r = Response { action: "add_vault".to_string(), messages };
        proof {
            assert(r.msgs() =~= probe_msgs(address@, env.contract_address@));
        }
        Ok(r)
    }

    /// Deposits the one coin attached to the request and asks the issuer of
    /// the coin's denomination to mint as many receipt tokens to the sender.
    /// The coin alone decides what is bonded: the denomination and amount
    /// that the request names are not consulted.
    pub fn execute_bond(&self, _env: &Env, info: &MessageInfo, _denom: String, _amount: u128) -> (r: Result<Response, ContractError>)
        requires
            self.wf(),
        ensures
            !one_coin_attached(info.funds@) <==> (r is Err && r->Err_0 is PaymentError),
            one_coin_attached(info.funds@) ==> match self.registry.issuer_of(info.funds@[0].denom@) {
                None => r is Err && r->Err_0 is VaultDoesNotExist,
                Some(issuer) => r is Ok && r->Ok_0.action@ == "bond"@
                    && r->Ok_0.msgs() == bond_msgs(issuer, info.sender@, info.funds@[0].amount),
            },
    {
        let coin = match one_coin(&info.funds) {
            Err(e) => return Err(ContractError::PaymentError(e)),
            Ok(c) => c,
        };
        let issuer = match self.registry.get(coin.denom.as_str()) {
            None => return Err(ContractError::VaultDoesNotExist(coin.denom)),
            Some(a) => a,
        };
        let mut messages: Vec<VaultMsg> = Vec::new();
        messages.push(VaultMsg::Mint { contract: issuer, recipient: info.sender.clone(), amount: coin.amount });
        let r = Response { action: "bond".to_string(), messages };
        proof {
            assert(r.msgs() =~= bond_msgs(
                self.registry.issuer_of(info.funds@[0].denom@)->Some_0,
                info.sender@,
                info.funds@[0].amount,
            ));
        }
        Ok(r)
    }

    /// Asks the issuer of `denom` to burn `amount` receipt tokens of the
    /// sender, under the allowance the sender gave the vault, and sends the
    /// sender `amount` of the native `denom`.
    pub fn execute_unbond(&self, _env: &Env, info: &MessageInfo, denom: String, amount: u128) -> (r: Result<Response, ContractError>)
        requires
            self.wf(),
        ensures
            match self.registry.issuer_of(denom@) {
                None => r is Err && r->Err_0 is VaultDoesNotExist,
                Some(issuer) => r is Ok && r->Ok_0.action@ == "unbond"@
                    && r->Ok_0.msgs() == unbond_msgs(issuer, info.sender@, denom@, amount),
            },
    {
        let issuer = match self.registry.get(denom.as_str()) {
            None => return Err(ContractError::VaultDoesNotExist(denom)),
            Some(a) => a,
        };
        let mut messages: Vec<VaultMsg> = Vec::new();
        messages.push(VaultMsg::BurnFrom { contract: issuer, owner: info.sender.clone(), amount });
        messages.push(VaultMsg::BankSend { to: info.sender.clone(), denom, amount });
        let r = Response { action: "unbond".to_string(), messages };
        proof {
            assert(r.msgs() =~= unbond_msgs(self.registry.issuer_of(denom@)->Some_0, info.sender@, denom@, amount));
        }
        Ok(r)
    }

    /// Runs one mutating request.
    pub fn execute(&mut self, env: &Env, info: &MessageInfo, msg: ExecuteMsg) -> (r: Result<Response, ContractError>)
        requires
            old(self).wf(),
        ensures
            final(self).wf(),
            match msg {
                ExecuteMsg::Bond { denom, amount } => final(self).config.admin@ == old(self).config.admin@
                    && final(self).registry == old(self).registry
                    && (!one_coin_attached(info.funds@) <==> (r is Err && r->Err_0 is PaymentError))
                    && (one_coin_attached(info.funds@) ==> match old(self).registry.issuer_of(info.funds@[0].denom@) {
                        None => r is Err && r->Err_0 is VaultDoesNotExist,
                        Some(issuer) => r is Ok && r->Ok_0.action@ == "bond"@
                            && r->Ok_0.msgs() == bond_msgs(issuer, info.sender@, info.funds@[0].amount),
                    }),
                ExecuteMsg::Unbond { denom, amount } => final(self).config.admin@ == old(self).config.admin@
                    && final(self).registry == old(self).registry
                    && match old(self).registry.issuer_of(denom@) {
                        None => r is Err && r->Err_0 is VaultDoesNotExist,
                        Some(issuer) => r is Ok && r->Ok_0.action@ == "unbond"@
                            && r->Ok_0.msgs() == unbond_msgs(issuer, info.sender@, denom@, amount),
                    },
                ExecuteMsg::AddVault { denom, address } => final(self).config.admin@ == old(self).config.admin@
                    && (r is Ok <==> info.sender@ == old(self).config.admin@)
                    && (r is Err ==> unauthorized_with(r->Err_0, "only the admin can call this function"@) && final(self).registry == old(self).registry)
                    && (r is Ok ==> final(self).registry.issuer_of(denom@) == Some(address@)
                        && r->Ok_0.action@ == "add_vault"@
                        && r->Ok_0.msgs() == probe_msgs(address@, env.contract_address@)
                        && forall|d: Seq<char>| d != denom@ ==> final(self).registry.issuer_of(d) == old(self).registry.issuer_of(d)),
                ExecuteMsg::UpdateConfig { admin } => final(self).registry == old(self).registry
                    && (r is Ok <==> info.sender@ == old(self).config.admin@)
                    && (r is Err ==> unauthorized_with(r->Err_0, "only the admin can call this function"@) && final(self).config.admin@ == old(self).config.admin@)
                    && (r is Ok ==> r->Ok_0.action@ == "update_config"@ && r->Ok_0.msgs().len() == 0)
                    && (r is Ok && admin is Some ==> final(self).config.admin@ == admin->Some_0@)
                    && (admin is None ==> final(self).config.admin@ == old(self).config.admin@),
            },
    {
        match msg {
            ExecuteMsg::Bond { denom, amount } => self.execute_bond(env, info, denom, amount),
            ExecuteMsg::Unbond { denom, amount } => self.execute_unbond(env, info, denom, amount),
            ExecuteMsg::AddVault { denom, address } => self.execute_add_vault(env, info, denom, address),
            ExecuteMsg::UpdateConfig { admin } => self.execute_update_config(env, info, admin),
        }
    }

    /// The configuration.
    pub fn query_config(&self) -> (r: Config)
        ensures
            r.admin@ == self.config.admin@,
    {
        Config { admin: self.config.admin.clone() }
    }

    /// The issuer registered for `denom`.
    pub fn query_vault_address(&self, denom: &String) -> (r: Result<String, ContractError>)
        requires
            self.wf(),
        ensures
            match self.registry.issuer_of(denom@) {
                None => r is Err && r->Err_0 is VaultDoesNotExist,
                Some(issuer) => r is Ok && r->Ok_0@ == issuer,
            },
    {
        match self.registry.get(denom.as_str()) {
            None => Err(ContractError::VaultDoesNotExist(denom.clone())),
            Some(a) => Ok(a),
        }
    }

    /// The registered denominations, in strictly ascending order.
    pub fn query_denom_list(&self) -> (r: DenomResponse)
        requires
            self.wf(),
        ensures
            r.denoms@.len() == self.registry.denoms().len(),
            forall|i: int| 0 <= i < r.denoms@.len() ==> #[trigger] r.denoms@[i]@ == self.registry.denoms()[i],
            forall|i: int, j: int| 0 <= i < j < r.denoms@.len() ==> lex_lt(#[trigger] r.denoms@[i]@, #[trigger] r.denoms@[j]@),
            forall|d: Seq<char>| self.registry.issuer_of(d) is Some <==> exists|i: int| 0 <= i < r.denoms@.len() && #[trigger] r.denoms@[i]@ == d,
    {
        let denoms = self.registry.keys();
        proof {
            law_denoms_listed(&self.registry);
            assert forall|d: Seq<char>| self.registry.issuer_of(d) is Some <==> exists|i: int| 0 <= i < denoms@.len() && #[trigger] denoms@[i]@ == d by {
                if self.registry.issuer_of(d) is Some {
                    assert(self.registry.denoms().contains(d));
                    let k = choose|k: int| 0 <= k < self.registry.denoms().len() && #[trigger] self.registry.denoms()[k] == d;
                    assert(denoms@[k]@ == d);
                }
                if exists|i: int| 0 <= i < denoms@.len() && #[trigger] denoms@[i]@ == d {
                    let k = choose|i: int| 0 <= i < denoms@.len() && #[trigger] denoms@[i]@ == d;
                    assert(self.registry.denoms()[k] == d);
                }
            }
        }
        DenomResponse { denoms }
    }

    /// The receipt balance of `owner` for `denom` is held by the issuer of
    /// `denom`: this names the issuer and the owner to ask.
    pub fn query_balance(&self, owner: &String, denom: &String) -> (r: Result<BalanceQuery, ContractError>)
        requires
            self.wf(),
        ensures
            match self.registry.issuer_of(denom@) {
                None => r is Err && r->Err_0 is VaultDoesNotExist,
                Some(issuer) => r is Ok && r->Ok_0.contract@ == issuer && r->Ok_0.address@ == owner@,
            },
    {
        match self.registry.get(denom.as_str()) {
            None => Err(ContractError::VaultDoesNotExist(denom.clone())),
            Some(a) => Ok(BalanceQuery { contract: a, address: owner.clone() }),
        }
    }

    /// Answers one read-only request.
    pub fn query(&self, msg: &QueryMsg) -> (r: Result<QueryAnswer, ContractError>)
        requires
            self.wf(),
        ensures
            match msg {
                QueryMsg::Balance { owner, denom } => match self.registry.issuer_of(denom@) {
                    None => r is Err && r->Err_0 is VaultDoesNotExist,
                    Some(issuer) => r matches Ok(QueryAnswer::Balance(q)) && q.contract@ == issuer && q.address@ == owner@,
                },
                QueryMsg::Config {} => r matches Ok(QueryAnswer::Config(c)) && c.admin@ == self.config.admin@,
                QueryMsg::VaultAddress { denom } => match self.registry.issuer_of(denom@) {
                    None => r is Err && r->Err_0 is VaultDoesNotExist,
                    Some(issuer) => r matches Ok(QueryAnswer::VaultAddress(a)) && a@ == issuer,
                },
                QueryMsg::DenomList {} => r matches Ok(QueryAnswer::DenomList(l))
                    && l.denoms@.len() == self.registry.denoms().len()
                    && forall|i: int| 0 <= i < l.denoms@.len() ==> #[trigger] l.denoms@[i]@ == self.registry.denoms()[i],
            },
    {
        match msg {
            QueryMsg::Balance { owner, denom } => match self.query_balance(owner, denom) {
                Ok(q) => Ok(QueryAnswer::Balance(q)),
                Err(e) => Err(e),
            },
            QueryMsg::Config {} => Ok(QueryAnswer::Config(self.query_config())),
            QueryMsg::VaultAddress { denom } => match self.query_vault_address(denom) {
                Ok(a) => Ok(QueryAnswer::VaultAddress(a)),
                Err(e) => Err(e),
            },
            QueryMsg::DenomList {} => Ok(QueryAnswer::DenomList(self.query_denom_list())),
        }
    }
}


/// Exactly one coin is attached, and its amount is not zero.
pub open spec fn one_coin_attached(funds: Seq<Coin>) -> bool {
    funds.len() == 1 && funds[0].amount != 0
}

/// The calls that prove the vault can mint at `issuer`: mint one token to
/// the vault, then burn it.
pub open spec fn probe_msgs(issuer: Seq<char>, vault: Seq<char>) -> Seq<MsgView> {
    seq![
        MsgView::Mint { contract: issuer, recipient: vault, amount: 1 },
        MsgView::Burn { contract: issuer, amount: 1 },
    ]
}

/// The calls of a bond: mint `amount` receipt tokens to the sender.
pub open spec fn bond_msgs(issuer: Seq<char>, sender: Seq<char>, amount: u128) -> Seq<MsgView> {
    seq![MsgView::Mint { contract: issuer, recipient: sender, amount }]
}

/// The calls of an unbond: burn the sender's receipt tokens under the
/// allowance, then send the native coins back.
pub open spec fn unbond_msgs(issuer: Seq<char>, sender: Seq<char>, denom: Seq<char>, amount: u128) -> Seq<MsgView> {
    seq![
        MsgView::BurnFrom { contract: issuer, owner: sender, amount },
        MsgView::BankSend { to: sender, denom, amount },
    ]
}

} // verus!
