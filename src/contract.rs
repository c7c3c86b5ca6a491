use vstd::prelude::*;
use crate::amount::{checked_add_amount, checked_sub_amount};
use crate::error::ContractError;
use crate::response::{decimal_text, BankMsg, Response};
use crate::msg::{ConfigResponse, DepositResponse, InstantiateMsg};
use crate::state::{holds_record, record_model, Coin, Config, Deposits, MessageInfo};

verus! {

/// The (amount, count) of a record after booking a deposit of `a` onto `prev`
/// (`None`: no record yet), or the overflow that rejects it.
pub open spec fn booked(prev: Option<(int, int)>, a: int) -> Result<(int, int), ContractError> {
    match prev {
        None => Ok((a, 1)),
        Some((m, c)) => if m + a > u128::MAX || c + 1 > u64::MAX {
            Err(ContractError::ArithmeticOverflow)
        } else {
            Ok((m + a, c + 1))
        },
    }
}

/// What depositing `a` onto `prev` gives, with deposits open or closed as `enabled` says.
pub open spec fn deposit_result(enabled: bool, prev: Option<(int, int)>, a: int) -> Result<
    (int, int),
    ContractError,
> {
    if !enabled {
        Err(ContractError::DepositsDisabled)
    } else {
        booked(prev, a)
    }
}

/// The (amount, count) of a record after withdrawing `w` from `prev`, or the
/// reason the withdrawal is refused.
pub open spec fn withdrawn(prev: Option<(int, int)>, w: int) -> Result<(int, int), ContractError> {
    match prev {
        None => Err(ContractError::DepositNotFound),
        Some((m, c)) => if w > m || c < 1 {
            Err(ContractError::InsufficientFunds)
        } else {
            Ok((m - w, c - 1))
        },
    }
}

/// Books the first coin attached to the message onto the sender's record in
/// that coin's denomination.
///
/// `record` is the stored record keyed by the sender and that denomination, if
/// any; it is updated in place on success and left as it was on failure. Only
/// the first attached coin is read.
pub fn execute_deposit(
    config: &Config,
    info: &MessageInfo,
    record: &mut Option<Deposits>,
) -> (r: Result<Response, ContractError>)
    requires
        info.funds@.len() >= 1,
    ensures
        match deposit_result(
            config.deposits_enabled,
            record_model(*old(record)),
            info.funds@[0].amount as int,
        ) {
            Ok(m) => {
                &&& r is Ok
                &&& holds_record(*final(record), info.sender@, info.funds@[0].denom@, m)
                &&& r->Ok_0.messages@.len() == 0
                &&& r->Ok_0.attributes_view() == seq![
                    ("execute"@, "deposit"@),
                    ("denom"@, info.funds@[0].denom@),
                    ("amount"@, decimal_text(info.funds@[0].amount as nat)),
                ]
            },
            Err(e) => r == Err::<Response, ContractError>(e) && *final(record) == *old(record),
        },
{
    if !config.deposits_enabled {
        return Err(ContractError::DepositsDisabled);
    }
    let fund = &info.funds[0];
    let (amount, count) = match &*record {
        Some(d) => {
            let amount = match checked_add_amount(d.coins.amount, fund.amount) {
                Some(v) => v,
                None => return Err(ContractError::ArithmeticOverflow),
            };
            let count = match d.count.checked_add(1) {
                Some(v) => v,
                None => return Err(ContractError::ArithmeticOverflow),
            };
            (amount, count)
        },
        None => (fund.amount, 1u64),
    };
    *record = Some(
        Deposits {
            count,
            owner: info.sender.clone(),
            coins: Coin { denom: fund.denom.clone(), amount },
        },
    );
    let resp = Response::new().add_attribute("execute", "deposit".to_owned()).add_attribute(
        "denom",
        fund.denom.clone(),
    ).add_amount_attribute("amount", fund.amount);
    assert(resp.attributes_view() =~= seq![
        ("execute"@, "deposit"@),
        ("denom"@, fund.denom@),
        ("amount"@, decimal_text(fund.amount as nat)),
    ]);
    Ok(resp)
}

/// Takes `amount` of `denom` out of the sender's record and asks the host to
/// send it back to the sender.
///
/// `record` is the stored record keyed by the sender and `denom`, if any; it is
/// updated in place on success and left as it was on failure.
pub fn execute_withdraw(
    info: &MessageInfo,
    amount: u128,
    denom: String,
    record: &mut Option<Deposits>,
) -> (r: Result<Response, ContractError>)
    ensures
        match withdrawn(record_model(*old(record)), amount as int) {
            Ok(m) => {
                &&& r is Ok
                &&& holds_record(*final(record), info.sender@, denom@, m)
                &&& r->Ok_0.sends_only(info.sender@, denom@, amount)
                &&& r->Ok_0.attributes_view() == seq![
                    ("execute"@, "withdraw"@),
                    ("denom"@, denom@),
                    ("amount"@, decimal_text(amount as nat)),
                ]
            },
            Err(e) => r == Err::<Response, ContractError>(e) && *final(record) == *old(record),
        },
{
    let (left, count) = match &*record {
        None => return Err(ContractError::DepositNotFound),
        Some(d) => {
            if d.count < 1 {
                return Err(ContractError::InsufficientFunds);
            }
            let left = match checked_sub_amount(d.coins.amount, amount) {
                Some(v) => v,
                None => return Err(ContractError::InsufficientFunds),
            };
            (left, d.count - 1)
        },
    };
    *record = Some(
        Deposits {
            count,
            owner: info.sender.clone(),
            coins: Coin { denom: denom.clone(), amount: left },
        },
    );
    let mut coins: Vec<Coin> = Vec::new();
    coins.push(Coin { denom: denom.clone(), amount });
    let msg = BankMsg::Send { to_address: info.sender.clone(), amount: coins };
    let resp = Response::new().add_attribute("execute", "withdraw".to_owned()).add_attribute(
        "denom",
        denom,
    ).add_amount_attribute("amount", amount).add_message(msg);
    assert(resp.attributes_view() =~= seq![
        ("execute"@, "withdraw"@),
        ("denom"@, denom@),
        ("amount"@, decimal_text(amount as nat)),
    ]);
    Ok(resp)
}

} // verus!

verus! {

/// The address that instantiation names as administrator, before the host
/// validates it: the one in the message, else the sender.
pub fn admin_candidate(info: &MessageInfo, msg: &InstantiateMsg) -> (r: String)
    ensures
        r@ == (match msg.admin {
            Some(a) => a@,
            None => info.sender@,
        }),
{
    match &msg.admin {
        Some(a) => a.clone(),
        None => info.sender.clone(),
    }
}

/// Creates the configuration, with deposits open.
///
/// `validated_admin` is the host's verdict on [`admin_candidate`]: the
/// validated address, or `None` when the host found it malformed.
pub fn instantiate(validated_admin: Option<String>) -> (r: Result<(Config, Response), ContractError>)
    ensures
        validated_admin is None ==> r == Err::<(Config, Response), ContractError>(
            ContractError::InvalidAddress,
        ),
        validated_admin is Some ==> {
            &&& r is Ok
            &&& r->Ok_0.0.admin == validated_admin->0
            &&& r->Ok_0.0.deposits_enabled
            &&& r->Ok_0.1.messages@.len() == 0
            &&& r->Ok_0.1.attributes_view() == seq![
                ("action"@, "instantiate"@),
                ("admin"@, validated_admin->0@),
                ("deposits_enabled"@, "true"@),
            ]
        },
{
    let admin = match validated_admin {
        Some(a) => a,
        None => return Err(ContractError::InvalidAddress),
    };
    let resp = Response::new().add_attribute("action", "instantiate".to_owned()).add_attribute(
        "admin",
        admin.clone(),
    ).add_attribute("deposits_enabled", "true".to_owned());
    assert(resp.attributes_view() =~= seq![
        ("action"@, "instantiate"@),
        ("admin"@, admin@),
        ("deposits_enabled"@, "true"@),
    ]);
    Ok((Config { admin, deposits_enabled: true }, resp))
}

/// Hands the administrator role to another address; only the administrator may.
///
/// `validated_new_admin` is the host's verdict on the requested address: the
/// validated address, or `None` when the host found it malformed.
pub fn execute_transfer_ownership(
    config: &mut Config,
    info: &MessageInfo,
    validated_new_admin: Option<String>,
) -> (r: Result<Response, ContractError>)
    ensures
        info.sender@ != old(config).admin@ ==> r == Err::<Response, ContractError>(
            ContractError::Unauthorized,
        ) && *final(config) == *old(config),
        info.sender@ == old(config).admin@ && validated_new_admin is None ==> r == Err::<
            Response,
            ContractError,
        >(ContractError::InvalidAddress) && *final(config) == *old(config),
        info.sender@ == old(config).admin@ && validated_new_admin is Some ==> {
            &&& r is Ok
            &&& final(config).admin == validated_new_admin->0
            &&& final(config).deposits_enabled == old(config).deposits_enabled
            &&& r->Ok_0.messages@.len() == 0
            &&& r->Ok_0.attributes_view() == seq![
                ("execute"@, "transfer_ownership"@),
                ("admin"@, validated_new_admin->0@),
            ]
        },
{
    if info.sender != config.admin {
        return Err(ContractError::Unauthorized);
    }
    let admin = match validated_new_admin {
        Some(a) => a,
        None => return Err(ContractError::InvalidAddress),
    };
    config.admin = admin.clone();
    let resp = Response::new().add_attribute(
        "execute",
        "transfer_ownership".to_owned(),
    ).add_attribute("admin", admin);
    assert(resp.attributes_view() =~= seq![
        ("execute"@, "transfer_ownership"@),
        ("admin"@, config.admin@),
    ]);
    Ok(resp)
}

/// Closes deposits; only the administrator may. Closing them again changes nothing.
pub fn execute_disable_deposits(config: &mut Config, info: &MessageInfo) -> (r: Result<
    Response,
    ContractError,
>)
    ensures
        info.sender@ != old(config).admin@ ==> r == Err::<Response, ContractError>(
            ContractError::Unauthorized,
        ) && *final(config) == *old(config),
        info.sender@ == old(config).admin@ ==> {
            &&& r is Ok
            &&& final(config).admin == old(config).admin
            &&& !final(config).deposits_enabled
            &&& r->Ok_0.messages@.len() == 0
            &&& r->Ok_0.attributes_view() == seq![
                ("execute"@, "disable_deposits"@),
                ("deposits_enabled"@, "false"@),
            ]
        },
{
    if info.sender != config.admin {
        return Err(ContractError::Unauthorized);
    }
    config.deposits_enabled = false;
    let resp = Response::new().add_attribute("execute", "disable_deposits".to_owned()).add_attribute(
        "deposits_enabled",
        "false".to_owned(),
    );
    assert(resp.attributes_view() =~= seq![
        ("execute"@, "disable_deposits"@),
        ("deposits_enabled"@, "false"@),
    ]);
    Ok(resp)
}

/// Opens deposits; only the administrator may. Opening them again changes nothing.
pub fn execute_enable_deposits(config: &mut Config, info: &MessageInfo) -> (r: Result<
    Response,
    ContractError,
>)
    ensures
        info.sender@ != old(config).admin@ ==> r == Err::<Response, ContractError>(
            ContractError::Unauthorized,
        ) && *final(config) == *old(config),
        info.sender@ == old(config).admin@ ==> {
            &&& r is Ok
            &&& final(config).admin == old(config).admin
            &&& final(config).deposits_enabled
            &&& r->Ok_0.messages@.len() == 0
            &&& r->Ok_0.attributes_view() == seq![
                ("execute"@, "enable_deposits"@),
                ("deposits_enabled"@, "true"@),
            ]
        },
{
    if info.sender != config.admin {
        return Err(ContractError::Unauthorized);
    }
    config.deposits_enabled = true;
    let resp = Response::new().add_attribute("execute", "enable_deposits".to_owned()).add_attribute(
        "deposits_enabled",
        "true".to_owned(),
    );
    assert(resp.attributes_view() =~= seq![
        ("execute"@, "enable_deposits"@),
        ("deposits_enabled"@, "true"@),
    ]);
    Ok(resp)
}

/// The stored configuration, or an explicit absence when there is none.
pub fn query_config(config: Option<Config>) -> (r: ConfigResponse)
    ensures
        r.config == config,
{
    ConfigResponse { config }
}

/// Whether an entry of the deposits store is keyed by `address`.
pub open spec fn keyed_by(address: Seq<char>) -> spec_fn(((String, String), Deposits)) -> bool {
    |entry: ((String, String), Deposits)| entry.0.0@ == address
}

/// The records of `address`, picked from `entries`, the whole deposits store
/// in ascending key order; their order is kept, so they come by denomination.
pub fn query_deposits(address: &String, entries: Vec<((String, String), Deposits)>) -> (r:
    DepositResponse)
    ensures
        r.deposits@ == entries@.filter(keyed_by(address@)),
{
    let ghost all = entries@;
    let mut deposits: Vec<((String, String), Deposits)> = Vec::new();
    let mut rest = entries;
    while rest.len() > 0
        invariant
            rest@.len() <= all.len(),
            rest@ == all.subrange(all.len() - rest@.len(), all.len() as int),
            deposits@ == all.subrange(0, all.len() - rest@.len()).filter(keyed_by(address@)),
        decreases rest.len(),
    {
        let ghost k = all.len() - rest@.len();
        let e = rest.remove(0);
        let ghost step = all.subrange(0, k + 1);
        proof {
            assert(step.drop_last() =~= all.subrange(0, k));
            assert(step.last() == e);
            reveal_with_fuel(Seq::filter, 1);
            assert(step.filter(keyed_by(address@)) == if keyed_by(address@)(e) {
                all.subrange(0, k).filter(keyed_by(address@)).push(e)
            } else {
                all.subrange(0, k).filter(keyed_by(address@))
            });
        }
        let ghost before = deposits@;
        if e.0.0.eq(address) {
            deposits.push(e);
            assert(deposits@ == before.push(all[k]));
        } else {
            assert(deposits@ == before);
        }
        assert(deposits@ == step.filter(keyed_by(address@)));
        assert(rest@ =~= all.subrange(all.len() - rest@.len(), all.len() as int));
    }
    assert(all.subrange(0, all.len() as int) =~= all);
    DepositResponse { deposits }
}

} // verus!
