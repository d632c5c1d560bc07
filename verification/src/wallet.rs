//! The wallet-level read computations: summing reward balances over queried
//! delegations, shaping delegation and airdrop records for the caller, and
//! assembling the deposit-address record.
//!
//! The queried values arrive as plain integers and byte strings; decoding
//! them out of the application's state schema is the application layer's
//! job.

use vstd::prelude::*;

verus! {

/// One unbonding entry of a delegation.
pub struct UnbondInfo {
    pub start_seconds: u64,
    pub amount: u64,
}

/// A delegation as queried from the chain: the staked amount, the liquid
/// rewards per denomination index, and the unbonding entries.
pub struct DelegationInfo {
    pub staked: u64,
    pub liquid: Vec<(u8, u64)>,
    pub unbonding: Vec<UnbondInfo>,
}

/// A delegation record as handed to the caller: the validator address
/// together with the queried delegation.
pub struct Delegation {
    pub address: String,
    pub staked: u64,
    pub liquid: Vec<(u8, u64)>,
    pub unbonding: Vec<UnbondInfo>,
}

/// The liquid amount a delegation holds in `denom`: its first entry under
/// that denomination, or zero where there is none.
pub open spec fn liquid_amount(liquid: Seq<(u8, u64)>, denom: u8) -> u64
    decreases liquid.len(),
{
    if liquid.len() == 0 {
        0u64
    } else if liquid[0].0 == denom {
        liquid[0].1
    } else {
        liquid_amount(liquid.drop_first(), denom)
    }
}

/// The total liquid reward in `denom` over a list of delegations.
pub open spec fn reward_total(ds: Seq<DelegationInfo>, denom: u8) -> int
    decreases ds.len(),
{
    if ds.len() == 0 {
        0
    } else {
        liquid_amount(ds[0].liquid@, denom) + reward_total(ds.drop_first(), denom)
    }
}

/// The reward total is never negative.
pub proof fn lemma_reward_total_nonneg(ds: Seq<DelegationInfo>, denom: u8)
    ensures
        reward_total(ds, denom) >= 0,
    decreases ds.len(),
{
    if ds.len() > 0 {
        lemma_reward_total_nonneg(ds.drop_first(), denom);
    }
}

/// The liquid amount of one delegation in `denom`.
fn liquid_find(liquid: &Vec<(u8, u64)>, denom: u8) -> (r: u64)
    ensures
        r == liquid_amount(liquid@, denom),
{
    let n = liquid.len();
    let mut i: usize = 0;
    proof {
        assert(liquid@.skip(0) =~= liquid@);
    }
    while i < n
        invariant
            0 <= i <= n,
            n == liquid@.len(),
            liquid_amount(liquid@, denom) == liquid_amount(liquid@.skip(i as int), denom),
        decreases n - i,
    {
        proof {
            assert(liquid@.skip(i as int)[0] == liquid@[i as int]);
        }
        if liquid[i].0 == denom {
            return liquid[i].1;
        }
        proof {
            assert(liquid@.skip(i as int).drop_first() =~= liquid@.skip(i as int + 1));
        }
        i = i + 1;
    }
    proof {
        assert(liquid@.skip(n as int) =~= Seq::<(u8, u64)>::empty());
    }
    0
}

/// Sums the liquid rewards held in `denom` over all delegations.
pub fn reward_balance(delegations: &Vec<DelegationInfo>, denom: u8) -> (r: u64)
    requires
        reward_total(delegations@, denom) <= u64::MAX,
    ensures
        r == reward_total(delegations@, denom),
{
    let n = delegations.len();
    let mut total: u64 = 0;
    let mut i: usize = 0;
    proof {
        assert(delegations@.skip(0) =~= delegations@);
    }
    while i < n
        invariant
            0 <= i <= n,
            n == delegations@.len(),
            reward_total(delegations@, denom) <= u64::MAX,
            total + reward_total(delegations@.skip(i as int), denom) == reward_total(
                delegations@,
                denom,
            ),
        decreases n - i,
    {
        proof {
            assert(delegations@.skip(i as int)[0] == delegations@[i as int]);
            assert(delegations@.skip(i as int).drop_first() =~= delegations@.skip(i as int + 1));
            lemma_reward_total_nonneg(delegations@.skip(i as int + 1), denom);
        }
        let add_amount = liquid_find(&delegations[i].liquid, denom);
        total = total + add_amount;
        i = i + 1;
    }
    proof {
        assert(delegations@.skip(n as int) =~= Seq::<DelegationInfo>::empty());
    }
    total
}

/// Turns the queried `(validator address, delegation)` pairs into the
/// caller-facing records, in order, changing nothing.
pub fn delegations(mut input: Vec<(String, DelegationInfo)>) -> (out: Vec<Delegation>)
    ensures
        out@.len() == input@.len(),
        forall|i: int|
            0 <= i < input@.len() ==> {
                &&& (#[trigger] out@[i]).address == input@[i].0
                &&& out@[i].staked == input@[i].1.staked
                &&& out@[i].liquid == input@[i].1.liquid
                &&& out@[i].unbonding == input@[i].1.unbonding
            },
{
    let ghost orig = input@;
    let mut out: Vec<Delegation> = Vec::new();
    proof {
        assert(input@ =~= orig.skip(0));
    }
    while input.len() > 0
        invariant
            out@.len() + input@.len() == orig.len(),
            input@ =~= orig.skip(out@.len() as int),
            forall|i: int|
                0 <= i < out@.len() ==> {
                    &&& (#[trigger] out@[i]).address == orig[i].0
                    &&& out@[i].staked == orig[i].1.staked
                    &&& out@[i].liquid == orig[i].1.liquid
                    &&& out@[i].unbonding == orig[i].1.unbonding
                },
        decreases input@.len(),
    {
        proof {
            assert(input@[0] == orig[out@.len() as int]);
        }
        let (address, d) = input.remove(0);
        out.push(
            Delegation { address, staked: d.staked, liquid: d.liquid, unbonding: d.unbonding },
        );
        proof {
            assert(input@ =~= orig.skip(out@.len() as int));
        }
    }
    proof {
        assert(out@.len() == orig.len());
    }
    out
}

/// A validator as queried from the chain. The address and commission rate
/// arrive already rendered as text; the self-description arrives as raw
/// bytes.
pub struct ValidatorInfo {
    pub jailed: bool,
    pub address: String,
    pub commission: String,
    pub in_active_set: bool,
    pub info_bytes: Vec<u8>,
    pub amount_staked: u64,
}

/// A validator record as handed to the caller.
pub struct ValidatorQueryInfo {
    pub jailed: bool,
    pub address: String,
    pub commission: String,
    pub in_active_set: bool,
    pub info: String,
    pub amount_staked: u64,
}

/// What the caller-facing record of one validator is: the queried fields,
/// with the description decoded from UTF-8 and an undecodable description
/// mapped to the empty string.
pub open spec fn is_validator_record(r: ValidatorQueryInfo, v: ValidatorInfo) -> bool {
    &&& r.jailed == v.jailed
    &&& r.address == v.address
    &&& r.commission == v.commission
    &&& r.in_active_set == v.in_active_set
    &&& r.info@ == match crate::codec::utf8_decoding(v.info_bytes@) {
        Some(s) => s,
        None => Seq::<char>::empty(),
    }
    &&& r.amount_staked == v.amount_staked
}

/// Shapes one queried validator for the caller.
pub fn validator_record(v: ValidatorInfo) -> (r: ValidatorQueryInfo)
    ensures
        is_validator_record(r, v),
{
    let ValidatorInfo { jailed, address, commission, in_active_set, info_bytes, amount_staked } = v;
    let info = match crate::codec::utf8_string(info_bytes) {
        Some(s) => s,
        None => {
            proof {
                reveal_strlit("");
                assert(""@ =~= Seq::<char>::empty());
            }
            "".to_owned()
        },
    };
    ValidatorQueryInfo { jailed, address, commission, in_active_set, info, amount_staked }
}

/// Shapes every queried validator, in order.
pub fn all_validators(mut input: Vec<ValidatorInfo>) -> (out: Vec<ValidatorQueryInfo>)
    ensures
        out@.len() == input@.len(),
        forall|i: int|
            0 <= i < input@.len() ==> is_validator_record(#[trigger] out@[i], input@[i]),
{
    let ghost orig = input@;
    let mut out: Vec<ValidatorQueryInfo> = Vec::new();
    proof {
        assert(input@ =~= orig.skip(0));
    }
    while input.len() > 0
        invariant
            out@.len() + input@.len() == orig.len(),
            input@ =~= orig.skip(out@.len() as int),
            forall|i: int| 0 <= i < out@.len() ==> is_validator_record(#[trigger] out@[i], orig[i]),
        decreases input@.len(),
    {
        proof {
            assert(input@[0] == orig[out@.len() as int]);
        }
        let v = input.remove(0);
        out.push(validator_record(v));
        proof {
            assert(input@ =~= orig.skip(out@.len() as int));
        }
    }
    proof {
        assert(out@.len() == orig.len());
    }
    out
}

/// One airdrop portion as queried: how much is claimed, claimable, locked.
pub struct AirdropPart {
    pub claimed: u64,
    pub claimable: u64,
    pub locked: u64,
}

/// One airdrop portion as handed to the caller.
pub struct AirdropDetails {
    pub claimed: bool,
    pub claimable: bool,
    pub amount: u64,
}

/// A queried airdrop account: its four portions.
pub struct AirdropAccount {
    pub airdrop1: AirdropPart,
    pub btc_deposit: AirdropPart,
    pub btc_withdraw: AirdropPart,
    pub ibc_transfer: AirdropPart,
}

/// The airdrop summary of the four portions.
pub struct Airdrop {
    pub airdrop1: AirdropDetails,
    pub btc_deposit: AirdropDetails,
    pub btc_withdraw: AirdropDetails,
    pub ibc_transfer: AirdropDetails,
}

/// Whether a portion's sum of claimed, claimable and locked stays in range.
pub open spec fn part_fits(p: AirdropPart) -> bool {
    p.claimed + p.claimable + p.locked <= u64::MAX
}

/// What the caller-facing details of one portion are.
pub open spec fn is_details_of(d: AirdropDetails, p: AirdropPart) -> bool {
    &&& d.claimed == (p.claimed > 0)
    &&& d.claimable == (p.claimable > 0)
    &&& d.amount == p.claimed + p.claimable + p.locked
}

/// Shapes one airdrop portion for the caller: whether anything was claimed
/// or is claimable, and the portion's total amount.
pub fn parse_part(part: AirdropPart) -> (d: AirdropDetails)
    requires
        part_fits(part),
    ensures
        is_details_of(d, part),
{
    AirdropDetails {
        claimed: part.claimed > 0,
        claimable: part.claimable > 0,
        amount: part.claimed + part.claimable + part.locked,
    }
}

/// An empty airdrop portion: nothing claimed, claimable or held.
pub open spec fn is_empty_details(d: AirdropDetails) -> bool {
    !d.claimed && !d.claimable && d.amount == 0
}

/// Summarises a queried airdrop account. An absent account maps to the
/// zero-valued summary, not to an error.
pub fn airdrop_balances(account: Option<AirdropAccount>) -> (a: Airdrop)
    requires
        account matches Some(acct) ==> part_fits(acct.airdrop1) && part_fits(acct.btc_deposit)
            && part_fits(acct.btc_withdraw) && part_fits(acct.ibc_transfer),
    ensures
        account matches Some(acct) ==> is_details_of(a.airdrop1, acct.airdrop1) && is_details_of(
            a.btc_deposit,
            acct.btc_deposit,
        ) && is_details_of(a.btc_withdraw, acct.btc_withdraw) && is_details_of(
            a.ibc_transfer,
            acct.ibc_transfer,
        ),
        account is None ==> is_empty_details(a.airdrop1) && is_empty_details(a.btc_deposit)
            && is_empty_details(a.btc_withdraw) && is_empty_details(a.ibc_transfer),
{
    match account {
        Some(acct) => Airdrop {
            airdrop1: parse_part(acct.airdrop1),
            btc_deposit: parse_part(acct.btc_deposit),
            btc_withdraw: parse_part(acct.btc_withdraw),
            ibc_transfer: parse_part(acct.ibc_transfer),
        },
        None => {
            let empty = AirdropDetails { claimed: false, claimable: false, amount: 0 };
            Airdrop {
                airdrop1: empty,
                btc_deposit: AirdropDetails { claimed: false, claimable: false, amount: 0 },
                btc_withdraw: AirdropDetails { claimed: false, claimable: false, amount: 0 },
                ibc_transfer: AirdropDetails { claimed: false, claimable: false, amount: 0 },
            }
        },
    }
}

/// A generated deposit address as handed to the caller.
pub struct DepositAddress {
    pub address: String,
    pub sigset_index: u32,
    pub expiration: u64,
}

/// Assembles the deposit-address record: the externally derived address and
/// signatory-set index, with the deposit timeout carried over from seconds
/// to milliseconds.
pub fn deposit_address_record(address: String, sigset_index: u32, deposit_timeout: u64) -> (r:
    DepositAddress)
    requires
        deposit_timeout * 1000 <= u64::MAX,
    ensures
        r.address == address,
        r.sigset_index == sigset_index,
        r.expiration == deposit_timeout * 1000,
{
    DepositAddress { address, sigset_index, expiration: deposit_timeout * 1000 }
}

} // verus!
