//! A configuration gated by a list of operators: any operator may update it.
use vstd::prelude::*;
use crate::error::{unauthorized_with, ContractError};
use crate::lexorder::str_eq;

verus! {

/// The configuration of an operator-gated contract.
#[derive(Clone, Debug)]
pub struct Config {
    /// The NFT contract.
    pub cw721_address: String,
    /// The addresses with admin permissions.
    pub operators: Vec<String>,
    /// A human-readable label.
    pub label: String,
    /// The time it takes to unstake a token.
    pub unstake_period: u64,
}

/// Sets up an operator-gated configuration.
#[derive(Clone, Debug, PartialEq, Eq)]
pub struct InstantiateMsg {
    pub cw721_address: String,
    pub label: String,
    pub unstake_period: u64,
}

/// The mutating request.
#[derive(Clone, Debug, PartialEq, Eq)]
pub enum ExecuteMsg {
    /// Update the contract configuration; an absent field stays as it is.
    UpdateConfig { operators: Option<Vec<String>>, label: Option<String>, unstake_period: Option<u64> },
}

/// The read-only request.
#[derive(Clone, Debug, PartialEq, Eq)]
pub enum QueryMsg {
    Config {},
}

/// The configuration as plain values.
#[derive(Clone, Debug, PartialEq, Eq)]
pub struct ConfigResponse {
    pub cw721_address: String,
    pub operators: Vec<String>,
    pub label: String,
    pub unstake_period: u64,
}

/// The operators as plain sequences.
pub open spec fn operators_view(v: Seq<String>) -> Seq<Seq<char>> {
    v.map_values(|s: String| s@)
}

/// Whether `caller` is one of the operators.
pub open spec fn is_operator(ops: Seq<Seq<char>>, caller: Seq<char>) -> bool {
    exists|i: int| 0 <= i < ops.len() && ops[i] == caller
}

/// The decimal digit `d`.
pub open spec fn digit_char(d: nat) -> char {
    if d == 0 { '0' } else if d == 1 { '1' } else if d == 2 { '2' } else if d == 3 { '3' }
    else if d == 4 { '4' } else if d == 5 { '5' } else if d == 6 { '6' } else if d == 7 { '7' }
    else if d == 8 { '8' } else { '9' }
}

/// `n` written in decimal, without leading zeros.
pub open spec fn decimal(n: nat) -> Seq<char>
    decreases n,
{
    if n < 10 {
        seq![digit_char(n)]
    } else {
        decimal(n / 10).push(digit_char(n % 10))
    }
}

/// The operators joined by commas.
pub open spec fn joined(ops: Seq<Seq<char>>) -> Seq<char>
    decreases ops.len(),
{
    if ops.len() == 0 {
        Seq::empty()
    } else if ops.len() == 1 {
        ops[0]
    } else {
        joined(ops.drop_last()) + ","@ + ops.last()
    }
}

/// Relies on `u64::to_string` (through `Display`): the number in decimal.
#[verifier::external_body]
fn decimal_string(n: u64) -> (r: String)
    ensures
        r@ == decimal(n as nat),
{
    n.to_string()
}

/// Succeeds with the caller exactly when it is one of the operators.
pub fn only_operator(sender: &String, config: &Config) -> (r: Result<String, ContractError>)
    ensures
        r is Ok <==> is_operator(operators_view(config.operators@), sender@),
        r is Ok ==> r->Ok_0@ == sender@,
        r is Err ==> unauthorized_with(r->Err_0, "only an operator can call this function"@),
{
    let n = config.operators.len();
    let mut i: usize = 0;
    while i < n
        invariant
            n == config.operators@.len(),
            i <= n,
            forall|j: int| 0 <= j < i ==> config.operators@[j]@ != sender@,
        decreases n - i,
    {
        if str_eq(config.operators[i].as_str(), sender.as_str()) {
            proof {
                assert(operators_view(config.operators@)[i as int] == sender@);
            }
            return Ok(sender.clone());
        }
        i = i + 1;
    }
    proof {
        if is_operator(operators_view(config.operators@), sender@) {
            let k = choose|k: int| 0 <= k < n && operators_view(config.operators@)[k] == sender@;
            assert(config.operators@[k]@ == sender@);
        }
    }
    Err(ContractError::Unauthorized("only an operator can call this function".to_string()))
}

/// The operators joined by commas.
pub fn join_operators(ops: &Vec<String>) -> (r: String)
    ensures
        r@ == joined(operators_view(ops@)),
{
    let mut out = String::new();
    let n = ops.len();
    let mut i: usize = 0;
    while i < n
        invariant
            n == ops@.len(),
            i <= n,
            out@ == joined(operators_view(ops@).subrange(0, i as int)),
        decreases n - i,
    {
        proof {
            let v = operators_view(ops@);
            assert(v.subrange(0, i + 1).drop_last() =~= v.subrange(0, i as int));
        }
        if i > 0 {
            out.append(",");
        }
        out.append(ops[i].as_str());
        i = i + 1;
    }
    proof {
        assert(operators_view(ops@).subrange(0, n as int) =~= operators_view(ops@));
    }
    out
}

/// Updates the fields that are given. Only an operator may. The result
/// lists the attributes of the update: the action, then the configuration
/// as it now stands.
pub fn execute_update_config(
    config: &mut Config,
    sender: &String,
    operators: Option<Vec<String>>,
    label: Option<String>,
    unstake_period: Option<u64>,
) -> (r: Result<Vec<(String, String)>, ContractError>)
    ensures
        r is Ok <==> is_operator(operators_view(old(config).operators@), sender@),
        r is Err ==> unauthorized_with(r->Err_0, "only an operator can call this function"@),
        r is Err ==> final(config)@ == old(config)@,
        r is Ok ==> final(config).cw721_address@ == old(config).cw721_address@,
        r is Ok ==> final(config).operators@ == match operators { Some(o) => o@, None => old(config).operators@ },
        r is Ok ==> final(config).label@ == match label { Some(l) => l@, None => old(config).label@ },
        r is Ok ==> final(config).unstake_period == match unstake_period { Some(u) => u, None => old(config).unstake_period },
        r is Ok ==> attrs_view(r->Ok_0@) == update_attrs(final(config)@),
{
    match only_operator(sender, config) {
        Err(e) => return Err(e),
        Ok(_) => {},
    }
    if let Some(o) = operators {
        config.operators = o;
    }
    if let Some(l) = label {
        config.label = l;
    }
    if let Some(u) = unstake_period {
        config.unstake_period = u;
    }
    let mut attrs: Vec<(String, String)> = Vec::new();
    attrs.push(("action".to_string(), "update_config".to_string()));
    attrs.push(("operators".to_string(), join_operators(&config.operators)));
    attrs.push(("cw721_address".to_string(), config.cw721_address.clone()));
    attrs.push(("label".to_string(), config.label.clone()));
    attrs.push(("unstake_period".to_string(), decimal_string(config.unstake_period)));
    proof {
        assert(attrs_view(attrs@) =~= update_attrs(config@));
    }
    Ok(attrs)
}

/// The configuration as plain values.
pub fn query_config(config: &Config) -> (r: ConfigResponse)
    ensures
        r.cw721_address@ == config.cw721_address@,
        operators_view(r.operators@) == operators_view(config.operators@),
        r.label@ == config.label@,
        r.unstake_period == config.unstake_period,
{
    let n = config.operators.len();
    let mut ops: Vec<String> = Vec::new();
    let mut i: usize = 0;
    while i < n
        invariant
            n == config.operators@.len(),
            i <= n,
            ops@.len() == i,
            forall|j: int| 0 <= j < i ==> #[trigger] ops@[j]@ == config.operators@[j]@,
        decreases n - i,
    {
        ops.push(config.operators[i].clone());
        i = i + 1;
    }
    proof {
        assert(operators_view(ops@) =~= operators_view(config.operators@));
    }
    ConfigResponse {
        cw721_address: config.cw721_address.clone(),
        operators: ops,
        label: config.label.clone(),
        unstake_period: config.unstake_period,
    }
}

/// Runs the mutating request.
pub fn execute(config: &mut Config, sender: &String, msg: ExecuteMsg) -> (r: Result<Vec<(String, String)>, ContractError>)
    ensures
        match msg {
            ExecuteMsg::UpdateConfig { operators, label, unstake_period } => {
                &&& r is Ok <==> is_operator(operators_view(old(config).operators@), sender@)
                &&& r is Err ==> unauthorized_with(r->Err_0, "only an operator can call this function"@)
                &&& r is Err ==> final(config)@ == old(config)@
                &&& r is Ok ==> final(config).cw721_address@ == old(config).cw721_address@
                &&& r is Ok ==> final(config).operators@ == match operators { Some(o) => o@, None => old(config).operators@ }
                &&& r is Ok ==> final(config).label@ == match label { Some(l) => l@, None => old(config).label@ }
                &&& r is Ok ==> final(config).unstake_period == match unstake_period { Some(u) => u, None => old(config).unstake_period }
                &&& r is Ok ==> attrs_view(r->Ok_0@) == update_attrs(final(config)@)
            },
        },
{
    match msg {
        ExecuteMsg::UpdateConfig { operators, label, unstake_period } => {
            execute_update_config(config, sender, operators, label, unstake_period)
        },
    }
}

/// Answers the read-only request.
pub fn query(config: &Config, msg: &QueryMsg) -> (r: ConfigResponse)
    ensures
        match msg {
            QueryMsg::Config {} => {
                &&& r.cw721_address@ == config.cw721_address@
                &&& operators_view(r.operators@) == operators_view(config.operators@)
                &&& r.label@ == config.label@
                &&& r.unstake_period == config.unstake_period
            },
        },
{
    match msg {
        QueryMsg::Config {} => query_config(config),
    }
}

/// The configuration as plain values, for contracts.
pub struct ConfigView {
    pub cw721_address: Seq<char>,
    pub operators: Seq<Seq<char>>,
    pub label: Seq<char>,
    pub unstake_period: u64,
}

impl Config {
    pub open spec fn view(&self) -> ConfigView {
        ConfigView {
            cw721_address: self.cw721_address@,
            operators: operators_view(self.operators@),
            label: self.label@,
            unstake_period: self.unstake_period,
        }
    }
}

/// Attributes as plain sequences.
pub open spec fn attrs_view(a: Seq<(String, String)>) -> Seq<(Seq<char>, Seq<char>)> {
    a.map_values(|p: (String, String)| (p.0@, p.1@))
}

/// The attributes of an update that left the configuration at `c`.
pub open spec fn update_attrs(c: ConfigView) -> Seq<(Seq<char>, Seq<char>)> {
    seq![
        ("action"@, "update_config"@),
        ("operators"@, joined(c.operators)),
        ("cw721_address"@, c.cw721_address),
        ("label"@, c.label),
        ("unstake_period"@, decimal(c.unstake_period as nat)),
    ]
}

} // verus!
