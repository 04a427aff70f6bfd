use vstd::prelude::*;

use crate::preimage::{
    get_preimage_and_hash, is_preimage, is_preimage_text, payment_hash_of, payment_hash_text,
};
use crate::state::{Preimagestate, decode_state};

verus! {

/// The namespace under which every state is persisted.
pub const PLUGIN_NAME: &'static str = "hodlinvoice";

/// Extra blocks of CLTV margin that a hold invoice asks for, on top of the
/// configured delta, and the margin below which a held HTLC is failed.
pub const CLTV_HODL: u32 = 163;

/// The expiry of an invoice, in seconds, when none is given.
pub const DEFAULT_EXPIRY: u64 = 86400;

/// The least expiry that a hold invoice may have, in seconds.
pub const MIN_EXPIRY: u64 = 3600;

/// One positional parameter of a command.
#[derive(Debug, Clone)]
pub enum Param {
    Text(String),
    Number(u64),
    Other,
}

/// Why a command was refused.
#[derive(Debug, Clone, Copy, PartialEq, Eq, Structural)]
pub enum CommandError {
    /// The parameters are not a list.
    NoParameters,
    /// Fewer than amount, label and description were given.
    MissingParameters,
    /// The amount is not a non-negative integer.
    InvalidAmount,
    /// The label or the description is not a string.
    InvalidText,
    /// A preimage was given that is not 64 hex digits.
    InvalidPreimage,
    /// The configured delta plus the hold margin does not fit a CLTV value.
    CltvOverflow,
    /// The node reported a payment hash other than that of the preimage.
    HashMismatch,
    /// Not exactly one payment hash was given.
    OnePaymentHash,
    /// The payment hash given is not a string.
    InvalidString,
}

/// How a write to the store treats an existing entry.
#[derive(Debug, Clone, Copy, PartialEq, Eq, Structural)]
pub enum WriteMode {
    /// Fails if the key exists.
    MustCreate,
    /// Fails unless the key exists.
    MustReplace,
}

/// A write of a state under a payment hash.
#[derive(Debug, Clone)]
pub struct StoreWrite {
    pub payment_hash: String,
    pub state: Preimagestate,
    pub mode: WriteMode,
}

/// The invoice that a hold-invoice command asks the node to create.
#[derive(Debug, Clone)]
pub struct HoldInvoice {
    pub amount_msat: u64,
    pub label: String,
    pub description: String,
    pub expiry: u64,
    pub preimage: String,
    pub payment_hash: String,
    pub cltv: u32,
}

/// The persisted states of the namespace, by payment hash, after a write;
/// `None` where the write's mode refuses it.
pub open spec fn apply_write(
    store: Map<Seq<char>, Preimagestate>,
    hash: Seq<char>,
    state: Preimagestate,
    mode: WriteMode,
) -> Option<Map<Seq<char>, Preimagestate>> {
    match mode {
        WriteMode::MustCreate => if store.contains_key(hash) {
            None
        } else {
            Some(store.insert(hash, state))
        },
        WriteMode::MustReplace => if store.contains_key(hash) {
            Some(store.insert(hash, state))
        } else {
            None
        },
    }
}

pub open spec fn is_text(p: Param) -> bool {
    p is Text
}

pub open spec fn text_of(p: Param) -> Seq<char> {
    match p {
        Param::Text(s) => s@,
        _ => Seq::empty(),
    }
}

/// The expiry asked for: the fourth parameter when it is a number, kept
/// within `[MIN_EXPIRY, DEFAULT_EXPIRY]`, else the default.
pub open spec fn expiry_param(ps: Seq<Param>) -> u64 {
    if ps.len() > 3 && ps[3] is Number {
        let n = ps[3]->Number_0;
        if n < MIN_EXPIRY {
            MIN_EXPIRY
        } else if n > DEFAULT_EXPIRY {
            DEFAULT_EXPIRY
        } else {
            n
        }
    } else {
        DEFAULT_EXPIRY
    }
}

/// The preimage given, if any: the fourth parameter when it is a string, or
/// the fifth when it is a string and follows an expiry.
pub open spec fn preimage_param(ps: Seq<Param>) -> Option<Seq<char>> {
    if ps.len() > 3 && ps[3] is Text {
        Some(text_of(ps[3]))
    } else if ps.len() > 4 && ps[3] is Number && ps[4] is Text {
        Some(text_of(ps[4]))
    } else {
        None
    }
}

/// Why the parameters of a hold-invoice command are refused, if they are.
pub open spec fn hold_error(params: Option<Vec<Param>>, cltv_delta: u32) -> Option<CommandError> {
    match params {
        None => Some(CommandError::NoParameters),
        Some(v) => {
            let ps = v@;
            if ps.len() < 3 {
                Some(CommandError::MissingParameters)
            } else if !(ps[0] is Number) {
                Some(CommandError::InvalidAmount)
            } else if !is_text(ps[1]) || !is_text(ps[2]) {
                Some(CommandError::InvalidText)
            } else if preimage_param(ps) is Some && !is_preimage_text(
                preimage_param(ps)->Some_0,
            ) {
                Some(CommandError::InvalidPreimage)
            } else if CLTV_HODL as int + cltv_delta as int > u32::MAX as int {
                Some(CommandError::CltvOverflow)
            } else {
                None
            }
        },
    }
}

/// The invoice asked for by accepted parameters, whatever its preimage is.
pub open spec fn hold_fields_but_preimage(
    inv: HoldInvoice,
    params: Option<Vec<Param>>,
    cltv_delta: u32,
) -> bool {
    let ps = params->Some_0@;
    &&& inv.amount_msat == ps[0]->Number_0
    &&& inv.label@ == text_of(ps[1])
    &&& inv.description@ == text_of(ps[2])
    &&& inv.expiry == expiry_param(ps)
    &&& inv.cltv == CLTV_HODL + cltv_delta
    &&& is_preimage_text(inv.preimage@)
    &&& inv.payment_hash@ == payment_hash_text(inv.preimage@)
}

/// The invoice asked for by accepted parameters: its preimage is the one
/// given, or `fresh` where none is given.
pub open spec fn hold_fields(
    inv: HoldInvoice,
    params: Option<Vec<Param>>,
    cltv_delta: u32,
    fresh: Seq<char>,
) -> bool {
    &&& hold_fields_but_preimage(inv, params, cltv_delta)
    &&& inv.preimage@ == match preimage_param(params->Some_0@) {
        Some(p) => p,
        None => fresh,
    }
}

fn text_param(p: &Param) -> (r: Option<String>)
    ensures
        r is Some <==> is_text(*p),
        r is Some ==> r->Some_0@ == text_of(*p),
{
    match p {
        Param::Text(s) => Some(s.clone()),
        _ => None,
    }
}

/// The invoice that a hold-invoice command asks for, given the preimage to
/// use where the parameters give none.
pub fn plan_hold(params: &Option<Vec<Param>>, cltv_delta: u32, fresh_preimage: &String) -> (r:
    Result<HoldInvoice, CommandError>)
    requires
        is_preimage_text(fresh_preimage@),
    ensures
        match hold_error(*params, cltv_delta) {
            Some(e) => r == Err::<HoldInvoice, CommandError>(e),
            None => r is Ok && hold_fields(r->Ok_0, *params, cltv_delta, fresh_preimage@),
        },
{
    let v = match params {
        None => return Err(CommandError::NoParameters),
        Some(v) => v,
    };
    if v.len() < 3 {
        return Err(CommandError::MissingParameters);
    }
    let amount_msat = match &v[0] {
        Param::Number(n) => *n,
        _ => return Err(CommandError::InvalidAmount),
    };
    let label = match text_param(&v[1]) {
        Some(s) => s,
        None => return Err(CommandError::InvalidText),
    };
    let description = match text_param(&v[2]) {
        Some(s) => s,
        None => return Err(CommandError::InvalidText),
    };
    let mut expiry: u64 = DEFAULT_EXPIRY;
    let mut given: Option<String> = None;
    if v.len() > 3 {
        match &v[3] {
            Param::Text(s) => {
                given = Some(s.clone());
            },
            Param::Number(n) => {
                expiry = if *n < MIN_EXPIRY {
                    MIN_EXPIRY
                } else if *n > DEFAULT_EXPIRY {
                    DEFAULT_EXPIRY
                } else {
                    *n
                };
                if v.len() > 4 {
                    given = text_param(&v[4]);
                }
            },
            Param::Other => {},
        }
    }
    assert(given == None::<String> <==> preimage_param(v@) is None);
    let preimage = match given {
        Some(p) => {
            if !is_preimage(p.as_str()) {
                return Err(CommandError::InvalidPreimage);
            }
            p
        },
        None => fresh_preimage.clone(),
    };
    if cltv_delta > u32::MAX - CLTV_HODL {
        return Err(CommandError::CltvOverflow);
    }
    let payment_hash = payment_hash_of(preimage.as_str());
    Ok(
        HoldInvoice {
            amount_msat,
            label,
            description,
            expiry,
            preimage,
            payment_hash,
            cltv: CLTV_HODL + cltv_delta,
        },
    )
}

/// The invoice that a hold-invoice command asks for; where the parameters
/// give no preimage, a fresh random one is used.
pub fn hodlmethod(params: &Option<Vec<Param>>, cltv_delta: u32) -> (r: Result<
    HoldInvoice,
    CommandError,
>)
    ensures
        match hold_error(*params, cltv_delta) {
            Some(e) => r == Err::<HoldInvoice, CommandError>(e),
            None => r is Ok && hold_fields_but_preimage(r->Ok_0, *params, cltv_delta) && (
            preimage_param(params->Some_0@) is Some ==> r->Ok_0.preimage@ == preimage_param(
                params->Some_0@,
            )->Some_0),
        },
{
    let (fresh, _digest) = get_preimage_and_hash();
    plan_hold(params, cltv_delta, &fresh)
}

/// The write that records a created hold invoice as held, once the node has
/// reported the payment hash of the invoice it made.
pub fn hold_store_write(inv: &HoldInvoice, reported_hash: &String) -> (r: Result<
    StoreWrite,
    CommandError,
>)
    ensures
        reported_hash@ != inv.payment_hash@ ==> r == Err::<StoreWrite, CommandError>(
            CommandError::HashMismatch,
        ),
        reported_hash@ == inv.payment_hash@ ==> (r matches Ok(w) && w.payment_hash@
            == inv.payment_hash@ && w.state == Preimagestate::Held && w.mode
            == WriteMode::MustCreate),
{
    if *reported_hash != inv.payment_hash {
        return Err(CommandError::HashMismatch);
    }
    Ok(
        StoreWrite {
            payment_hash: inv.payment_hash.clone(),
            state: Preimagestate::Held,
            mode: WriteMode::MustCreate,
        },
    )
}

/// The payment hash named by a command that takes exactly one.
pub open spec fn one_hash_outcome(params: Option<Vec<Param>>) -> Result<Seq<char>, CommandError> {
    match params {
        None => Err(CommandError::NoParameters),
        Some(v) => if v@.len() != 1 {
            Err(CommandError::OnePaymentHash)
        } else if !is_text(v@[0]) {
            Err(CommandError::InvalidString)
        } else {
            Ok(text_of(v@[0]))
        },
    }
}

/// The payment hash given to a command that takes exactly one.
pub fn one_payment_hash(params: &Option<Vec<Param>>) -> (r: Result<String, CommandError>)
    ensures
        match one_hash_outcome(*params) {
            Ok(h) => r matches Ok(s) && s@ == h,
            Err(e) => r == Err::<String, CommandError>(e),
        },
{
    match params {
        None => Err(CommandError::NoParameters),
        Some(v) => {
            if v.len() != 1 {
                return Err(CommandError::OnePaymentHash);
            }
            match text_param(&v[0]) {
                Some(s) => Ok(s),
                None => Err(CommandError::InvalidString),
            }
        },
    }
}

/// A write that moves an existing entry to `state`.
fn replace_write(params: &Option<Vec<Param>>, state: Preimagestate) -> (r: Result<
    StoreWrite,
    CommandError,
>)
    ensures
        match one_hash_outcome(*params) {
            Ok(h) => r matches Ok(w) && w.payment_hash@ == h && w.state == state && w.mode
                == WriteMode::MustReplace,
            Err(e) => r is Err && r->Err_0 == e,
        },
{
    let payment_hash = one_payment_hash(params)?;
    Ok(StoreWrite { payment_hash, state, mode: WriteMode::MustReplace })
}

/// The write that releases a hold invoice: its entry must exist and becomes
/// released.
pub fn settlemethod(params: &Option<Vec<Param>>) -> (r: Result<StoreWrite, CommandError>)
    ensures
        match one_hash_outcome(*params) {
            Ok(h) => r matches Ok(w) && w.payment_hash@ == h && w.state == Preimagestate::Released
                && w.mode == WriteMode::MustReplace,
            Err(e) => r is Err && r->Err_0 == e,
        },
{
    replace_write(params, Preimagestate::Released)
}

/// The write that rejects a hold invoice: its entry must exist and becomes
/// rejected.
pub fn cancelmethod(params: &Option<Vec<Param>>) -> (r: Result<StoreWrite, CommandError>)
    ensures
        match one_hash_outcome(*params) {
            Ok(h) => r matches Ok(w) && w.payment_hash@ == h && w.state == Preimagestate::Rejected
                && w.mode == WriteMode::MustReplace,
            Err(e) => r is Err && r->Err_0 == e,
        },
{
    replace_write(params, Preimagestate::Rejected)
}

/// The key under which the state of a payment hash is persisted.
pub fn store_key(payment_hash: &String) -> (r: Vec<String>)
    ensures
        r@.len() == 2,
        r@[0]@ == PLUGIN_NAME@,
        r@[1]@ == payment_hash@,
{
    let mut key: Vec<String> = Vec::new();
    key.push(PLUGIN_NAME.to_string());
    key.push(payment_hash.clone());
    key
}

/// Why a persisted state could not be reported.
#[derive(Debug, Clone, Copy, PartialEq, Eq, Structural)]
pub enum QueryError {
    /// No entry is persisted under the payment hash.
    NotFound,
    /// The entry holds no string, or one that names no state.
    Undecodable,
}

/// What the entries read under a payment hash say of its state: the first
/// entry decides.
pub open spec fn query_outcome(entries: Seq<Option<String>>) -> Result<Preimagestate, QueryError> {
    if entries.len() == 0 {
        Err(QueryError::NotFound)
    } else {
        match entries[0] {
            None => Err(QueryError::Undecodable),
            Some(s) => match decode_state(s@) {
                Some(st) => Ok(st),
                None => Err(QueryError::Undecodable),
            },
        }
    }
}

/// The persisted state that the entries read under a payment hash report.
pub fn getkeyfromstore(entries: &Vec<Option<String>>) -> (r: Result<Preimagestate, QueryError>)
    ensures
        r == query_outcome(entries@),
{
    if entries.len() == 0 {
        return Err(QueryError::NotFound);
    }
    match &entries[0] {
        None => Err(QueryError::Undecodable),
        Some(s) => match Preimagestate::from_str(s.as_str()) {
            Some(st) => Ok(st),
            None => Err(QueryError::Undecodable),
        },
    }
}

/// A hold invoice created with a valid preimage of its own is persisted as
/// held, under the payment hash of that preimage, in a store that has no
/// entry for it yet.
pub proof fn lemma_created_with_preimage_is_held(
    params: Option<Vec<Param>>,
    cltv_delta: u32,
    inv: HoldInvoice,
    w: StoreWrite,
    store: Map<Seq<char>, Preimagestate>,
    p: Seq<char>,
)
    requires
        hold_error(params, cltv_delta) is None,
        preimage_param(params->Some_0@) == Some(p),
        hold_fields_but_preimage(inv, params, cltv_delta),
        inv.preimage@ == p,
        w.payment_hash@ == inv.payment_hash@,
        w.state == Preimagestate::Held,
        w.mode == WriteMode::MustCreate,
        !store.contains_key(payment_hash_text(p)),
    ensures
        is_preimage_text(p),
        w.payment_hash@ == payment_hash_text(p),
        apply_write(store, w.payment_hash@, w.state, w.mode) == Some(
            store.insert(payment_hash_text(p), Preimagestate::Held),
        ),
{
}

/// Releasing the same hold invoice twice succeeds both times and leaves the
/// store as the first release left it.
pub proof fn lemma_settle_twice(
    params: Option<Vec<Param>>,
    store: Map<Seq<char>, Preimagestate>,
)
    requires
        one_hash_outcome(params) is Ok,
        store.contains_key(one_hash_outcome(params)->Ok_0),
    ensures
        ({
            let h = one_hash_outcome(params)->Ok_0;
            let once = apply_write(store, h, Preimagestate::Released, WriteMode::MustReplace);
            &&& once is Some
            &&& apply_write(once->Some_0, h, Preimagestate::Released, WriteMode::MustReplace)
                == once
        }),
{
    let h = one_hash_outcome(params)->Ok_0;
    let once = store.insert(h, Preimagestate::Released);
    assert(once.insert(h, Preimagestate::Released) =~= once);
}

} // verus!
