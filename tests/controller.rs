use std::collections::HashMap;

use hodlinvoice::controller::{
    cancelmethod, getkeyfromstore, hodlmethod, hold_store_write, one_payment_hash, plan_hold,
    settlemethod, store_key, CommandError, Param, QueryError, StoreWrite, WriteMode, CLTV_HODL,
    PLUGIN_NAME,
};
use hodlinvoice::preimage::is_preimage;
use hodlinvoice::state::Preimagestate;

const ZERO_PREIMAGE: &str = "0000000000000000000000000000000000000000000000000000000000000000";
const ZERO_HASH: &str = "66687aadf862bd776c8fc18b8e9f8e20089714856ee233b3902a591d0d5f2925";
const FRESH: &str = "0123456789abcdef0123456789abcdef0123456789abcdef0123456789abcdef";
const FRESH_HASH: &str = "4884fdaafea47c29fea7159d0daddd9c085d6200e1359e85bb81736af6b7c837";

fn text(s: &str) -> Param {
    Param::Text(s.to_string())
}

fn base(extra: Vec<Param>) -> Option<Vec<Param>> {
    let mut v = vec![Param::Number(1000), text("t1"), text("test")];
    v.extend(extra);
    Some(v)
}

/// Applies a write as the node's datastore does; `false` where the mode refuses it.
fn apply(store: &mut HashMap<String, String>, w: &StoreWrite) -> bool {
    let exists = store.contains_key(&w.payment_hash);
    let allowed = match w.mode {
        WriteMode::MustCreate => !exists,
        WriteMode::MustReplace => exists,
    };
    if allowed {
        store.insert(w.payment_hash.clone(), w.state.to_string());
    }
    allowed
}

fn read(store: &HashMap<String, String>, hash: &str) -> Vec<Option<String>> {
    store.get(hash).map(|s| vec![Some(s.clone())]).unwrap_or_default()
}

#[test]
fn hold_without_options_uses_defaults() {
    let inv = plan_hold(&base(vec![]), 42, &FRESH.to_string()).unwrap();
    assert_eq!(inv.amount_msat, 1000);
    assert_eq!(inv.label, "t1");
    assert_eq!(inv.description, "test");
    assert_eq!(inv.expiry, 86400);
    assert_eq!(inv.cltv, 205);
    assert_eq!(inv.preimage, FRESH);
    assert_eq!(inv.payment_hash, FRESH_HASH);
}

#[test]
fn hold_with_preimage_is_keyed_by_its_hash() {
    let params = base(vec![text(ZERO_PREIMAGE)]);
    let inv = plan_hold(&params, 42, &FRESH.to_string()).unwrap();
    assert_eq!(inv.preimage, ZERO_PREIMAGE);
    assert_eq!(inv.payment_hash, ZERO_HASH);
    let w = hold_store_write(&inv, &ZERO_HASH.to_string()).unwrap();
    assert_eq!(w.payment_hash, ZERO_HASH);
    assert_eq!(w.state, Preimagestate::Held);
    assert_eq!(w.mode, WriteMode::MustCreate);
    let mut store = HashMap::new();
    assert!(apply(&mut store, &w));
    assert_eq!(getkeyfromstore(&read(&store, ZERO_HASH)), Ok(Preimagestate::Held));
    let random = hodlmethod(&params, 42).unwrap();
    assert_eq!(random.payment_hash, ZERO_HASH);
}

#[test]
fn hold_expiry_is_kept_within_bounds() {
    let fresh = FRESH.to_string();
    let exp = |n: u64| plan_hold(&base(vec![Param::Number(n)]), 42, &fresh).unwrap().expiry;
    assert_eq!(exp(100), 3600);
    assert_eq!(exp(3600), 3600);
    assert_eq!(exp(7200), 7200);
    assert_eq!(exp(86400), 86400);
    assert_eq!(exp(100000), 86400);
}

#[test]
fn hold_with_expiry_and_preimage() {
    let params = base(vec![Param::Number(20000), text(ZERO_PREIMAGE)]);
    let inv = plan_hold(&params, 10, &FRESH.to_string()).unwrap();
    assert_eq!(inv.expiry, 20000);
    assert_eq!(inv.payment_hash, ZERO_HASH);
    assert_eq!(inv.cltv, CLTV_HODL + 10);
}

#[test]
fn hold_parameter_errors() {
    let fresh = FRESH.to_string();
    assert_eq!(plan_hold(&None, 42, &fresh).unwrap_err(), CommandError::NoParameters);
    let two = Some(vec![Param::Number(1), text("a")]);
    assert_eq!(plan_hold(&two, 42, &fresh).unwrap_err(), CommandError::MissingParameters);
    let bad_amount = Some(vec![text("1000"), text("a"), text("b")]);
    assert_eq!(plan_hold(&bad_amount, 42, &fresh).unwrap_err(), CommandError::InvalidAmount);
    let bad_label = Some(vec![Param::Number(1), Param::Number(2), text("b")]);
    assert_eq!(plan_hold(&bad_label, 42, &fresh).unwrap_err(), CommandError::InvalidText);
    let bad_desc = Some(vec![Param::Number(1), text("a"), Param::Other]);
    assert_eq!(plan_hold(&bad_desc, 42, &fresh).unwrap_err(), CommandError::InvalidText);
    let bad_pre = base(vec![text("abc")]);
    assert_eq!(plan_hold(&bad_pre, 42, &fresh).unwrap_err(), CommandError::InvalidPreimage);
    let bad_pre2 = base(vec![Param::Number(7200), text(&ZERO_PREIMAGE[1..])]);
    assert_eq!(plan_hold(&bad_pre2, 42, &fresh).unwrap_err(), CommandError::InvalidPreimage);
    assert_eq!(plan_hold(&base(vec![]), u32::MAX, &fresh).unwrap_err(), CommandError::CltvOverflow);
    assert_eq!(hodlmethod(&None, 42).unwrap_err(), CommandError::NoParameters);
}

#[test]
fn hold_largest_delta_that_fits() {
    let inv = plan_hold(&base(vec![]), u32::MAX - CLTV_HODL, &FRESH.to_string()).unwrap();
    assert_eq!(inv.cltv, u32::MAX);
}

#[test]
fn hold_store_write_refuses_other_hash() {
    let inv = plan_hold(&base(vec![]), 42, &FRESH.to_string()).unwrap();
    assert_eq!(
        hold_store_write(&inv, &ZERO_HASH.to_string()).unwrap_err(),
        CommandError::HashMismatch
    );
}

#[test]
fn settle_and_cancel_writes() {
    let one = Some(vec![text(ZERO_HASH)]);
    let s = settlemethod(&one).unwrap();
    assert_eq!(s.payment_hash, ZERO_HASH);
    assert_eq!(s.state, Preimagestate::Released);
    assert_eq!(s.mode, WriteMode::MustReplace);
    let c = cancelmethod(&one).unwrap();
    assert_eq!(c.state, Preimagestate::Rejected);
    assert_eq!(c.mode, WriteMode::MustReplace);
}

#[test]
fn settle_and_cancel_argument_errors() {
    assert_eq!(settlemethod(&None).unwrap_err(), CommandError::NoParameters);
    assert_eq!(settlemethod(&Some(vec![])).unwrap_err(), CommandError::OnePaymentHash);
    let two = Some(vec![text("a"), text("b")]);
    assert_eq!(cancelmethod(&two).unwrap_err(), CommandError::OnePaymentHash);
    let num = Some(vec![Param::Number(5)]);
    assert_eq!(cancelmethod(&num).unwrap_err(), CommandError::InvalidString);
    assert_eq!(one_payment_hash(&Some(vec![text("h")])).unwrap(), "h");
}

#[test]
fn settle_twice_succeeds_both_times() {
    let mut store = HashMap::new();
    store.insert(ZERO_HASH.to_string(), "held".to_string());
    let w = settlemethod(&Some(vec![text(ZERO_HASH)])).unwrap();
    assert!(apply(&mut store, &w));
    let after_once = store.clone();
    let w2 = settlemethod(&Some(vec![text(ZERO_HASH)])).unwrap();
    assert!(apply(&mut store, &w2));
    assert_eq!(store, after_once);
    assert_eq!(getkeyfromstore(&read(&store, ZERO_HASH)), Ok(Preimagestate::Released));
}

#[test]
fn settle_of_unknown_hash_is_refused_by_store() {
    let mut store = HashMap::new();
    let w = settlemethod(&Some(vec![text(ZERO_HASH)])).unwrap();
    assert!(!apply(&mut store, &w));
    assert!(store.is_empty());
}

#[test]
fn create_query_settle_query() {
    let params = base(vec![]);
    let inv = hodlmethod(&params, 42).unwrap();
    assert_eq!(inv.payment_hash.len(), 64);
    assert!(is_preimage(&inv.payment_hash));
    let mut store = HashMap::new();
    let w = hold_store_write(&inv, &inv.payment_hash).unwrap();
    assert!(apply(&mut store, &w));
    assert!(!apply(&mut store, &w));
    let hash = inv.payment_hash.clone();
    assert_eq!(getkeyfromstore(&read(&store, &hash)), Ok(Preimagestate::Held));
    assert_eq!(Preimagestate::Held.to_string(), "held");
    let s = settlemethod(&Some(vec![Param::Text(hash.clone())])).unwrap();
    assert!(apply(&mut store, &s));
    assert_eq!(getkeyfromstore(&read(&store, &hash)), Ok(Preimagestate::Released));
}

#[test]
fn query_outcomes() {
    assert_eq!(getkeyfromstore(&vec![]), Err(QueryError::NotFound));
    assert_eq!(getkeyfromstore(&vec![None]), Err(QueryError::Undecodable));
    assert_eq!(
        getkeyfromstore(&vec![Some("bogus".to_string())]),
        Err(QueryError::Undecodable)
    );
    assert_eq!(
        getkeyfromstore(&vec![Some("REJECTED".to_string()), Some("held".to_string())]),
        Ok(Preimagestate::Rejected)
    );
}

#[test]
fn store_key_is_namespaced() {
    let k = store_key(&"abc".to_string());
    assert_eq!(k, vec![PLUGIN_NAME.to_string(), "abc".to_string()]);
    assert_eq!(PLUGIN_NAME, "hodlinvoice");
}
