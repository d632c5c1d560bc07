use chain_session::error::Error;
use chain_session::session::{resolve_endpoint, transport_outcome};
use chain_session::submit::{
    broadcast_outcome, broadcast_request, build_sign_doc, claim_msg, delegate_msg,
    ibc_transfer_out_msg, redelegate_msg, unbond_msg, withdraw_msg, JsonVal, Msg, MIN_GAS,
};
use chain_session::text::{u32_to_dec, u64_to_dec};

#[test]
fn decimal_rendering() {
    assert_eq!(u64_to_dec(0), "0");
    assert_eq!(u64_to_dec(9), "9");
    assert_eq!(u64_to_dec(10), "10");
    assert_eq!(u64_to_dec(100), "100");
    assert_eq!(u64_to_dec(4294967295), "4294967295");
    assert_eq!(u64_to_dec(u64::MAX), "18446744073709551615");
    assert_eq!(u32_to_dec(100), "100");
}

#[test]
fn sign_doc_sequence_is_nonce_plus_one() {
    let doc = build_sign_doc("nomic-testnet-4b", claim_msg(), 7);
    assert_eq!(doc.sequence, "8");
    let doc = build_sign_doc("nomic-testnet-4b", claim_msg(), 0);
    assert_eq!(doc.sequence, "1");
    let doc = build_sign_doc("nomic-testnet-4b", claim_msg(), u64::MAX - 1);
    assert_eq!(doc.sequence, "18446744073709551615");
}

#[test]
fn sign_doc_fixed_fields() {
    let doc = build_sign_doc("nomic-testnet-4b", claim_msg(), 41);
    assert_eq!(doc.account_number, "0");
    assert_eq!(doc.chain_id, "nomic-testnet-4b");
    assert_eq!(doc.memo, "");
    assert_eq!(doc.fee.gas, MIN_GAS.to_string());
    assert_eq!(doc.fee.amount.len(), 1);
    assert_eq!(doc.fee.amount[0].amount, "0");
    assert_eq!(doc.fee.amount[0].denom, "unom");
    assert_eq!(doc.msgs.len(), 1);
    assert_eq!(doc.msgs[0].type_, "nomic/MsgClaimRewards");
}

fn str_field(fields: &[(String, JsonVal)], i: usize) -> (&str, &str) {
    match &fields[i].1 {
        JsonVal::Str(s) => (fields[i].0.as_str(), s.as_str()),
        _ => panic!("expected a string field"),
    }
}

fn obj_fields(m: &Msg) -> &Vec<(String, JsonVal)> {
    match &m.value {
        JsonVal::Obj(fs) => fs,
        _ => panic!("expected an object payload"),
    }
}

#[test]
fn delegate_msg_shape() {
    let m = delegate_msg("addr-d".to_string(), "addr-v".to_string(), 1234);
    assert_eq!(m.type_, "cosmos-sdk/MsgDelegate");
    let fs = obj_fields(&m);
    assert_eq!(fs.len(), 3);
    assert_eq!(str_field(fs, 0), ("delegator_address", "addr-d"));
    assert_eq!(str_field(fs, 1), ("validator_address", "addr-v"));
    assert_eq!(fs[2].0, "amount");
    match &fs[2].1 {
        JsonVal::Obj(a) => {
            assert_eq!(str_field(a, 0), ("amount", "1234"));
            assert_eq!(str_field(a, 1), ("denom", "unom"));
        }
        _ => panic!("expected a nested amount object"),
    }
}

#[test]
fn unbond_msg_shape() {
    let m = unbond_msg("d".to_string(), "v".to_string(), 5);
    assert_eq!(m.type_, "cosmos-sdk/MsgUndelegate");
    assert_eq!(obj_fields(&m).len(), 3);
}

#[test]
fn redelegate_msg_shape() {
    let m = redelegate_msg("d".to_string(), "src".to_string(), "dst".to_string(), 5);
    assert_eq!(m.type_, "cosmos-sdk/MsgBeginRedelegate");
    let fs = obj_fields(&m);
    assert_eq!(fs.len(), 4);
    assert_eq!(str_field(fs, 1), ("validator_src_address", "src"));
    assert_eq!(str_field(fs, 2), ("validator_dst_address", "dst"));
}

#[test]
fn withdraw_msg_shape() {
    let m = withdraw_msg("tb1qdest".to_string(), 777);
    assert_eq!(m.type_, "nomic/MsgWithdraw");
    let fs = obj_fields(&m);
    assert_eq!(str_field(fs, 0), ("amount", "777"));
    assert_eq!(str_field(fs, 1), ("dst_address", "tb1qdest"));
}

#[test]
fn ibc_transfer_out_msg_shape() {
    let m = ibc_transfer_out_msg(
        9,
        "channel-0".to_string(),
        "transfer".to_string(),
        "usat".to_string(),
        "self-addr".to_string(),
        "recv-addr".to_string(),
        "170000".to_string(),
    );
    assert_eq!(m.type_, "nomic/MsgIbcTransferOut");
    let fs = obj_fields(&m);
    assert_eq!(fs.len(), 7);
    assert_eq!(fs[0].0, "amount");
    assert!(matches!(fs[0].1, JsonVal::Num(9)));
    assert_eq!(str_field(fs, 1), ("denom", "usat"));
    assert_eq!(str_field(fs, 2), ("channel_id", "channel-0"));
    assert_eq!(str_field(fs, 3), ("port_id", "transfer"));
    assert_eq!(str_field(fs, 4), ("receiver", "recv-addr"));
    assert_eq!(str_field(fs, 5), ("sender", "self-addr"));
    assert_eq!(str_field(fs, 6), ("timeout_timestamp", "170000"));
}

#[test]
fn broadcast_request_frames_the_transaction() {
    let (url, body) = broadcast_request("https://rest.example", &vec![1, 2, 3]);
    assert_eq!(url, "https://rest.example/txs");
    assert_eq!(body, base64::encode(vec![1u8, 2, 3]));
    assert_eq!(body, "AQID");
}

#[test]
fn broadcast_outcome_by_status() {
    assert_eq!(broadcast_outcome(200, "ok".to_string()), Ok("ok".to_string()));
    assert_eq!(broadcast_outcome(299, "ok".to_string()), Ok("ok".to_string()));
    assert_eq!(
        broadcast_outcome(400, "bad tx".to_string()),
        Err(Error::Broadcast("bad tx".to_string()))
    );
}

#[test]
fn transport_outcome_by_status() {
    assert_eq!(transport_outcome(200, "body".to_string()), Ok("body".to_string()));
    assert_eq!(
        transport_outcome(500, "boom".to_string()),
        Err(Error::Transport("boom".to_string()))
    );
}

#[test]
fn endpoint_resolution() {
    assert_eq!(
        resolve_endpoint(Some("https://rest.example".to_string())),
        Ok("https://rest.example".to_string())
    );
    assert_eq!(resolve_endpoint(None), Err(Error::Config));
}
