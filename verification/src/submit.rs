//! The write path: assembling the canonical Sign Document for a
//! state-transition request, the message payloads the wallet operations
//! send, and the framing of the broadcast request.
//!
//! The caller queries the account's current nonce through the session,
//! builds the document here, has it signed externally, and posts the signed
//! bytes to the endpoint's write path.

use vstd::prelude::*;

verus! {

use crate::error::Error;
use crate::text::{dec_of, u64_to_dec};
use crate::codec::{b64_encode, b64_encoding};
use vstd::string::StringExecFns;

/// The gas value every submission carries: the chain's minimum fee.
pub const MIN_GAS: u64 = 10000;

/// One fee denomination entry.
pub struct Coin {
    pub amount: String,
    pub denom: String,
}

/// The fee descriptor of a Sign Document.
pub struct Fee {
    pub amount: Vec<Coin>,
    pub gas: String,
}

/// A structured message payload. The pipeline is payload-agnostic: it builds
/// and carries these values without interpreting them.
pub enum JsonVal {
    Str(String),
    Num(u64),
    Obj(Vec<(String, JsonVal)>),
}

/// A tagged message: a type discriminator and a structured payload.
pub struct Msg {
    pub type_: String,
    pub value: JsonVal,
}

/// The canonical structure a write request is signed over.
pub struct SignDoc {
    pub account_number: String,
    pub chain_id: String,
    pub fee: Fee,
    pub memo: String,
    pub msgs: Vec<Msg>,
    pub sequence: String,
}

/// Assembles the Sign Document for one message: fixed account number `"0"`,
/// the given chain identifier, the minimal fee, an empty memo, and —
/// the replay-protection invariant — `sequence` equal to the decimal string
/// of the queried nonce plus one.
pub fn build_sign_doc(chain_id: &str, msg: Msg, nonce: u64) -> (doc: SignDoc)
    requires
        nonce < u64::MAX,
    ensures
        doc.account_number@ == "0"@,
        doc.chain_id@ == chain_id@,
        doc.fee.amount@.len() == 1,
        doc.fee.amount@[0].amount@ == "0"@,
        doc.fee.amount@[0].denom@ == "unom"@,
        doc.fee.gas@ == dec_of(MIN_GAS as nat),
        doc.memo@ == ""@,
        doc.msgs@ == seq![msg],
        doc.sequence@ == dec_of((nonce + 1) as nat),
{
    let fee = Fee {
        amount: vec![Coin { amount: "0".to_owned(), denom: "unom".to_owned() }],
        gas: u64_to_dec(MIN_GAS),
    };
    SignDoc {
        account_number: "0".to_owned(),
        chain_id: chain_id.to_owned(),
        fee,
        memo: "".to_owned(),
        msgs: vec![msg],
        sequence: u64_to_dec(nonce + 1),
    }
}

/// The broadcast request for a signed transaction: the endpoint's write
/// path, and the transaction bytes in base64 as the body.
pub fn broadcast_request(endpoint: &str, tx_bytes: &Vec<u8>) -> (r: (String, String))
    ensures
        r.0@ == endpoint@ + "/txs"@,
        r.1@ == b64_encoding(tx_bytes@),
{
    let mut url = endpoint.to_owned();
    url.append("/txs");
    let body = b64_encode(tx_bytes);
    (url, body)
}

/// Judges the write endpoint's answer: a 2xx status returns the response
/// body verbatim, anything else is a `Broadcast` error carrying that body.
pub fn broadcast_outcome(status: u16, body: String) -> (r: Result<String, Error>)
    ensures
        200 <= status < 300 ==> r == Ok::<String, Error>(body),
        !(200 <= status < 300) ==> r == Err::<String, Error>(Error::Broadcast(body)),
{
    if 200 <= status && status < 300 {
        Ok(body)
    } else {
        Err(Error::Broadcast(body))
    }
}

/// A payload field holding the string `val` under `name`.
pub open spec fn is_str_field(f: (String, JsonVal), name: Seq<char>, val: Seq<char>) -> bool {
    f.0@ == name && (f.1 matches JsonVal::Str(s) && s@ == val)
}

/// A payload value of the shape `{"amount": <decimal of amount>, "denom": "unom"}`.
pub open spec fn is_unom_amount(v: JsonVal, amount: u64) -> bool {
    v matches JsonVal::Obj(a) && a@.len() == 2 && is_str_field(a@[0], "amount"@, dec_of(amount as nat))
        && is_str_field(a@[1], "denom"@, "unom"@)
}

/// A message whose payload is the empty object, under the given type tag.
pub open spec fn is_bare_msg(m: Msg, tag: Seq<char>) -> bool {
    m.type_@ == tag && (m.value matches JsonVal::Obj(fs) && fs@.len() == 0)
}

/// Builds `{"amount": <decimal of amount>, "denom": "unom"}`.
fn unom_amount(amount: u64) -> (v: JsonVal)
    ensures
        is_unom_amount(v, amount),
{
    JsonVal::Obj(
        vec![
            ("amount".to_owned(), JsonVal::Str(u64_to_dec(amount))),
            ("denom".to_owned(), JsonVal::Str("unom".to_owned())),
        ],
    )
}

/// Builds a message with an empty payload under the given type tag.
fn bare_msg(tag: &str) -> (m: Msg)
    ensures
        is_bare_msg(m, tag@),
{
    Msg { type_: tag.to_owned(), value: JsonVal::Obj(Vec::new()) }
}

/// The reward-claim message.
pub fn claim_msg() -> (m: Msg)
    ensures
        is_bare_msg(m, "nomic/MsgClaimRewards"@),
{
    bare_msg("nomic/MsgClaimRewards")
}

/// The airdrop-claim message.
pub fn claim_airdrop_msg() -> (m: Msg)
    ensures
        is_bare_msg(m, "nomic/MsgClaimAirdrop1"@),
{
    bare_msg("nomic/MsgClaimAirdrop1")
}

/// The deposit-airdrop-claim message.
pub fn claim_btc_deposit_airdrop_msg() -> (m: Msg)
    ensures
        is_bare_msg(m, "nomic/MsgClaimBtcDepositAirdrop"@),
{
    bare_msg("nomic/MsgClaimBtcDepositAirdrop")
}

/// The withdraw-airdrop-claim message.
pub fn claim_btc_withdraw_airdrop_msg() -> (m: Msg)
    ensures
        is_bare_msg(m, "nomic/MsgClaimBtcWithdrawAirdrop"@),
{
    bare_msg("nomic/MsgClaimBtcWithdrawAirdrop")
}

/// The transfer-airdrop-claim message.
pub fn claim_ibc_transfer_airdrop_msg() -> (m: Msg)
    ensures
        is_bare_msg(m, "nomic/MsgClaimIbcTransferAirdrop"@),
{
    bare_msg("nomic/MsgClaimIbcTransferAirdrop")
}

/// The incoming-transfer-claim message.
pub fn claim_incoming_ibc_btc_msg() -> (m: Msg)
    ensures
        is_bare_msg(m, "nomic/MsgClaimIbcBitcoin"@),
{
    bare_msg("nomic/MsgClaimIbcBitcoin")
}

/// The delegation message: who delegates, to which validator, how much.
pub fn delegate_msg(delegator_address: String, validator_address: String, amount: u64) -> (m: Msg)
    ensures
        m.type_@ == "cosmos-sdk/MsgDelegate"@,
        m.value matches JsonVal::Obj(fs) && fs@.len() == 3 && is_str_field(
            fs@[0],
            "delegator_address"@,
            delegator_address@,
        ) && is_str_field(fs@[1], "validator_address"@, validator_address@) && fs@[2].0@
            == "amount"@ && is_unom_amount(fs@[2].1, amount),
{
    let value = JsonVal::Obj(
        vec![
            ("delegator_address".to_owned(), JsonVal::Str(delegator_address)),
            ("validator_address".to_owned(), JsonVal::Str(validator_address)),
            ("amount".to_owned(), unom_amount(amount)),
        ],
    );
    Msg { type_: "cosmos-sdk/MsgDelegate".to_owned(), value }
}

/// The undelegation message.
pub fn unbond_msg(delegator_address: String, validator_address: String, amount: u64) -> (m: Msg)
    ensures
        m.type_@ == "cosmos-sdk/MsgUndelegate"@,
        m.value matches JsonVal::Obj(fs) && fs@.len() == 3 && is_str_field(
            fs@[0],
            "delegator_address"@,
            delegator_address@,
        ) && is_str_field(fs@[1], "validator_address"@, validator_address@) && fs@[2].0@
            == "amount"@ && is_unom_amount(fs@[2].1, amount),
{
    let value = JsonVal::Obj(
        vec![
            ("delegator_address".to_owned(), JsonVal::Str(delegator_address)),
            ("validator_address".to_owned(), JsonVal::Str(validator_address)),
            ("amount".to_owned(), unom_amount(amount)),
        ],
    );
    Msg { type_: "cosmos-sdk/MsgUndelegate".to_owned(), value }
}

/// The redelegation message: moves a stake from one validator to another.
pub fn redelegate_msg(
    delegator_address: String,
    validator_src_address: String,
    validator_dst_address: String,
    amount: u64,
) -> (m: Msg)
    ensures
        m.type_@ == "cosmos-sdk/MsgBeginRedelegate"@,
        m.value matches JsonVal::Obj(fs) && fs@.len() == 4 && is_str_field(
            fs@[0],
            "delegator_address"@,
            delegator_address@,
        ) && is_str_field(fs@[1], "validator_src_address"@, validator_src_address@) && is_str_field(
            fs@[2],
            "validator_dst_address"@,
            validator_dst_address@,
        ) && fs@[3].0@ == "amount"@ && is_unom_amount(fs@[3].1, amount),
{
    let value = JsonVal::Obj(
        vec![
            ("delegator_address".to_owned(), JsonVal::Str(delegator_address)),
            ("validator_src_address".to_owned(), JsonVal::Str(validator_src_address)),
            ("validator_dst_address".to_owned(), JsonVal::Str(validator_dst_address)),
            ("amount".to_owned(), unom_amount(amount)),
        ],
    );
    Msg { type_: "cosmos-sdk/MsgBeginRedelegate".to_owned(), value }
}

/// The withdrawal message: how much to release, and to which address.
pub fn withdraw_msg(dst_address: String, amount: u64) -> (m: Msg)
    ensures
        m.type_@ == "nomic/MsgWithdraw"@,
        m.value matches JsonVal::Obj(fs) && fs@.len() == 2 && is_str_field(
            fs@[0],
            "amount"@,
            dec_of(amount as nat),
        ) && is_str_field(fs@[1], "dst_address"@, dst_address@),
{
    let value = JsonVal::Obj(
        vec![
            ("amount".to_owned(), JsonVal::Str(u64_to_dec(amount))),
            ("dst_address".to_owned(), JsonVal::Str(dst_address)),
        ],
    );
    Msg { type_: "nomic/MsgWithdraw".to_owned(), value }
}

/// The outbound inter-chain transfer message.
pub fn ibc_transfer_out_msg(
    amount: u64,
    channel_id: String,
    port_id: String,
    denom: String,
    sender: String,
    receiver: String,
    timeout_timestamp: String,
) -> (m: Msg)
    ensures
        m.type_@ == "nomic/MsgIbcTransferOut"@,
        m.value matches JsonVal::Obj(fs) && fs@.len() == 7 && fs@[0].0@ == "amount"@ && fs@[0].1
            == JsonVal::Num(amount) && is_str_field(fs@[1], "denom"@, denom@) && is_str_field(
            fs@[2],
            "channel_id"@,
            channel_id@,
        ) && is_str_field(fs@[3], "port_id"@, port_id@) && is_str_field(
            fs@[4],
            "receiver"@,
            receiver@,
        ) && is_str_field(fs@[5], "sender"@, sender@) && is_str_field(
            fs@[6],
            "timeout_timestamp"@,
            timeout_timestamp@,
        ),
{
    let value = JsonVal::Obj(
        vec![
            ("amount".to_owned(), JsonVal::Num(amount)),
            ("denom".to_owned(), JsonVal::Str(denom)),
            ("channel_id".to_owned(), JsonVal::Str(channel_id)),
            ("port_id".to_owned(), JsonVal::Str(port_id)),
            ("receiver".to_owned(), JsonVal::Str(receiver)),
            ("sender".to_owned(), JsonVal::Str(sender)),
            ("timeout_timestamp".to_owned(), JsonVal::Str(timeout_timestamp)),
        ],
    );
    Msg { type_: "nomic/MsgIbcTransferOut".to_owned(), value }
}

} // verus!
