use vstd::prelude::*;

use crate::controller::CLTV_HODL;
use crate::state::{Preimagestate, decode_state};

verus! {

/// Seconds between two reads of the persisted state of a held HTLC.
pub const POLL_INTERVAL_SECS: u64 = 3;

/// What becomes of an incoming HTLC.
#[derive(Debug, Clone, Copy, PartialEq, Eq, Structural)]
pub enum Decision {
    /// Let the node go on with the HTLC.
    Continue,
    /// Fail the HTLC back.
    Fail,
}

/// Why the admission of an HTLC ended in an error.
#[derive(Debug, Clone, Copy, PartialEq, Eq, Structural)]
pub enum MonitorError {
    /// The HTLC carries no CLTV expiry.
    MissingCltvExpiry,
    /// The node lists no invoice for a payment hash that has a state.
    InvoiceNotFound,
    /// The persisted entry names no state.
    UndecodableState,
    /// An event came that the monitor was not waiting for.
    UnexpectedEvent,
}

/// Where a monitor stands in a poll.
#[derive(Debug, Clone, Copy, PartialEq, Eq, Structural)]
pub enum Phase {
    /// Waiting for the entries persisted under the payment hash.
    Lookup,
    /// Waiting for the expiry of the invoice.
    Invoice,
    /// Waiting for the time and the block height.
    Chain,
    /// Sleeping until the next poll.
    Waiting,
    /// A decision or an error was given.
    Finished,
}

/// The monitor of one incoming HTLC.
#[derive(Debug, Clone, Copy, PartialEq, Eq, Structural)]
pub struct Monitor {
    /// The CLTV expiry that the HTLC demands.
    pub cltv_expiry: u64,
    /// The configured CLTV delta.
    pub cltv_delta: u32,
    /// The expiry of the invoice, in seconds since the epoch, once fetched.
    pub expires_at: Option<u64>,
    /// The state read in this poll; `None` where the entry names none.
    pub observed: Option<Preimagestate>,
    pub phase: Phase,
}

/// What the surroundings report to a monitor.
#[derive(Debug, Clone)]
pub enum Event {
    /// The entries persisted under the payment hash; each holds its string,
    /// if it has one.
    Entries(Vec<Option<String>>),
    /// Reading the store failed.
    StoreFailed,
    /// The expiry of the invoice, in seconds since the epoch.
    InvoiceExpiry(u64),
    /// The node lists no invoice with the payment hash.
    InvoiceMissing,
    /// The time now, in seconds since the epoch, and the block height, if it
    /// could be read.
    Chain { now: u64, block_height: Option<u32> },
    /// The sleep between two polls is over.
    Woke,
}

/// What a monitor asks of its surroundings next.
#[derive(Debug, Clone, Copy, PartialEq, Eq, Structural)]
pub enum Action {
    ReadStore,
    FetchInvoice,
    ReadChain,
    /// Sleep this many seconds, then report `Woke`.
    Sleep(u64),
    Finish(Decision),
    Abort(MonitorError),
}

/// How an HTLC notification is taken up.
#[derive(Debug, Clone, Copy, PartialEq, Eq, Structural)]
pub enum Admission {
    /// Not one of ours: continue at once.
    Pass,
    /// The notification cannot be handled.
    Refuse(MonitorError),
    /// Watch it with this monitor, whose first action is `ReadStore`.
    Watch(Monitor),
}

/// A block height that could not be read counts as zero.
pub open spec fn height_or_zero(h: Option<u32>) -> u32 {
    match h {
        Some(n) => n,
        None => 0,
    }
}

/// Whether too few blocks are left before the HTLC's safety deadline,
/// `cltv_expiry - cltv_delta`, to go on holding it.
pub open spec fn too_close(cltv_expiry: u64, cltv_delta: u32, block_height: u32) -> bool {
    cltv_expiry as int - cltv_delta as int <= block_height as int + CLTV_HODL as int
}

pub open spec fn observed_of(es: Seq<Option<String>>) -> Option<Preimagestate> {
    match es[0] {
        Some(s) => decode_state(s@),
        None => None,
    }
}

pub open spec fn finished(m: Monitor, a: Action) -> (Monitor, Action) {
    (Monitor { phase: Phase::Finished, ..m }, a)
}

/// The monitor's next state and action on an event.
pub open spec fn next(m: Monitor, e: Event) -> (Monitor, Action) {
    match (m.phase, e) {
        (Phase::Lookup, Event::StoreFailed) => finished(m, Action::Finish(Decision::Continue)),
        (Phase::Lookup, Event::Entries(es)) => if es@.len() != 1 {
            finished(m, Action::Finish(Decision::Continue))
        } else if m.expires_at is None {
            (
                Monitor { observed: observed_of(es@), phase: Phase::Invoice, ..m },
                Action::FetchInvoice,
            )
        } else {
            (Monitor { observed: observed_of(es@), phase: Phase::Chain, ..m }, Action::ReadChain)
        },
        (Phase::Invoice, Event::InvoiceExpiry(x)) => (
            Monitor { expires_at: Some(x), phase: Phase::Chain, ..m },
            Action::ReadChain,
        ),
        (Phase::Invoice, Event::InvoiceMissing) => finished(
            m,
            Action::Abort(MonitorError::InvoiceNotFound),
        ),
        (Phase::Chain, Event::Chain { now, block_height }) => if now >= m.expires_at->Some_0 {
            finished(m, Action::Finish(Decision::Fail))
        } else if too_close(m.cltv_expiry, m.cltv_delta, height_or_zero(block_height)) {
            finished(m, Action::Finish(Decision::Fail))
        } else {
            match m.observed {
                None => finished(m, Action::Abort(MonitorError::UndecodableState)),
                Some(Preimagestate::Held) => (
                    Monitor { phase: Phase::Waiting, ..m },
                    Action::Sleep(POLL_INTERVAL_SECS),
                ),
                Some(Preimagestate::Released) => finished(m, Action::Finish(Decision::Continue)),
                Some(Preimagestate::Rejected) => finished(m, Action::Finish(Decision::Fail)),
            }
        },
        (Phase::Waiting, Event::Woke) => (Monitor { phase: Phase::Lookup, ..m }, Action::ReadStore),
        _ => finished(m, Action::Abort(MonitorError::UnexpectedEvent)),
    }
}

/// A block height that could not be read counts as zero.
pub fn blockheight_or_zero(h: Option<u32>) -> (r: u32)
    ensures
        r == height_or_zero(h),
{
    match h {
        Some(n) => n,
        None => 0,
    }
}

/// Takes up an HTLC notification: one without a payment hash is passed on,
/// one without a CLTV expiry is refused, any other is watched from the start.
pub fn htlc_accept_handler(has_payment_hash: bool, cltv_expiry: Option<u64>, cltv_delta: u32) -> (r:
    Admission)
    ensures
        !has_payment_hash ==> r == Admission::Pass,
        has_payment_hash && cltv_expiry is None ==> r == Admission::Refuse(
            MonitorError::MissingCltvExpiry,
        ),
        has_payment_hash && cltv_expiry is Some ==> r == Admission::Watch(
            Monitor::start(cltv_expiry->Some_0, cltv_delta),
        ),
{
    if !has_payment_hash {
        return Admission::Pass;
    }
    match cltv_expiry {
        None => Admission::Refuse(MonitorError::MissingCltvExpiry),
        Some(x) => Admission::Watch(Monitor::new(x, cltv_delta)),
    }
}

impl Monitor {
    /// A monitor before its first poll.
    pub open spec fn start(cltv_expiry: u64, cltv_delta: u32) -> Monitor {
        Monitor {
            cltv_expiry,
            cltv_delta,
            expires_at: None,
            observed: None,
            phase: Phase::Lookup,
        }
    }

    /// Once the monitor waits for the time and the block height, or sleeps,
    /// the expiry of the invoice is known.
    pub open spec fn wf(self) -> bool {
        (self.phase == Phase::Chain || self.phase == Phase::Waiting) ==> self.expires_at is Some
    }

    /// A monitor for an HTLC with this CLTV expiry; it starts by reading the
    /// store.
    pub fn new(cltv_expiry: u64, cltv_delta: u32) -> (r: Monitor)
        ensures
            r == Monitor::start(cltv_expiry, cltv_delta),
            r.wf(),
    {
        Monitor { cltv_expiry, cltv_delta, expires_at: None, observed: None, phase: Phase::Lookup }
    }

    /// Whether too few blocks are left to go on holding the HTLC.
    fn is_too_close(&self, block_height: u32) -> (r: bool)
        ensures
            r == too_close(self.cltv_expiry, self.cltv_delta, block_height),
    {
        (self.cltv_expiry as u128) <= (block_height as u128) + (CLTV_HODL as u128) + (
        self.cltv_delta as u128)
    }

    fn finish(&mut self, a: Action) -> (r: Action)
        ensures
            (*final(self), r) == finished(*old(self), a),
    {
        self.phase = Phase::Finished;
        a
    }

    /// Takes in an event and says what to do next.
    pub fn step(&mut self, e: Event) -> (r: Action)
        requires
            old(self).wf(),
        ensures
            (*final(self), r) == next(*old(self), e),
            final(self).wf(),
    {
        match (self.phase, e) {
            (Phase::Lookup, Event::StoreFailed) => self.finish(Action::Finish(Decision::Continue)),
            (Phase::Lookup, Event::Entries(es)) => {
                if es.len() != 1 {
                    return self.finish(Action::Finish(Decision::Continue));
                }
                self.observed = match &es[0] {
                    Some(s) => Preimagestate::from_str(s.as_str()),
                    None => None,
                };
                if self.expires_at.is_none() {
                    self.phase = Phase::Invoice;
                    Action::FetchInvoice
                } else {
                    self.phase = Phase::Chain;
                    Action::ReadChain
                }
            },
            (Phase::Invoice, Event::InvoiceExpiry(x)) => {
                self.expires_at = Some(x);
                self.phase = Phase::Chain;
                Action::ReadChain
            },
            (Phase::Invoice, Event::InvoiceMissing) => self.finish(
                Action::Abort(MonitorError::InvoiceNotFound),
            ),
            (Phase::Chain, Event::Chain { now, block_height }) => {
                let expires_at = match self.expires_at {
                    Some(x) => x,
                    None => 0,
                };
                if now >= expires_at {
                    return self.finish(Action::Finish(Decision::Fail));
                }
                if self.is_too_close(blockheight_or_zero(block_height)) {
                    return self.finish(Action::Finish(Decision::Fail));
                }
                match self.observed {
                    None => self.finish(Action::Abort(MonitorError::UndecodableState)),
                    Some(Preimagestate::Held) => {
                        self.phase = Phase::Waiting;
                        Action::Sleep(POLL_INTERVAL_SECS)
                    },
                    Some(Preimagestate::Released) => self.finish(
                        Action::Finish(Decision::Continue),
                    ),
                    Some(Preimagestate::Rejected) => self.finish(Action::Finish(Decision::Fail)),
                }
            },
            (Phase::Waiting, Event::Woke) => {
                self.phase = Phase::Lookup;
                Action::ReadStore
            },
            _ => self.finish(Action::Abort(MonitorError::UnexpectedEvent)),
        }
    }
}

/// An HTLC whose payment hash has no entry in the store, or whose store read
/// fails, is let through on that very poll, without a sleep.
pub proof fn lemma_unknown_hash_continues(m: Monitor, es: Vec<Option<String>>)
    requires
        m.phase == Phase::Lookup,
        es@.len() == 0,
    ensures
        next(m, Event::Entries(es)).1 == Action::Finish(Decision::Continue),
        next(m, Event::StoreFailed).1 == Action::Finish(Decision::Continue),
        next(m, Event::Entries(es)).0.phase == Phase::Finished,
{
}

/// Once the invoice has expired, the HTLC is failed, whatever state is
/// persisted.
pub proof fn lemma_expired_invoice_fails(m: Monitor, now: u64, block_height: Option<u32>)
    requires
        m.wf(),
        m.phase == Phase::Chain,
        now >= m.expires_at->Some_0,
    ensures
        next(m, Event::Chain { now, block_height }).1 == Action::Finish(Decision::Fail),
{
}

/// When `cltv_expiry - cltv_delta <= block_height + CLTV_HODL`, the HTLC is
/// failed, whatever state is persisted.
pub proof fn lemma_deadline_too_close_fails(m: Monitor, now: u64, block_height: u32)
    requires
        m.wf(),
        m.phase == Phase::Chain,
        m.cltv_expiry as int - m.cltv_delta as int <= block_height as int + CLTV_HODL as int,
    ensures
        next(m, Event::Chain { now, block_height: Some(block_height) }).1 == Action::Finish(
            Decision::Fail,
        ),
{
}

/// A monitor that sleeps after seeing the invoice held, and whose next poll
/// reads it released while neither deadline has passed, lets the HTLC through
/// on that poll, with no further sleep.
pub proof fn lemma_release_seen_on_next_poll(
    m: Monitor,
    es: Vec<Option<String>>,
    now: u64,
    block_height: Option<u32>,
)
    requires
        m.wf(),
        m.phase == Phase::Waiting,
        es@.len() == 1,
        observed_of(es@) == Some(Preimagestate::Released),
        now < m.expires_at->Some_0,
        !too_close(m.cltv_expiry, m.cltv_delta, height_or_zero(block_height)),
    ensures
        ({
            let (m1, a1) = next(m, Event::Woke);
            let (m2, a2) = next(m1, Event::Entries(es));
            let (m3, a3) = next(m2, Event::Chain { now, block_height });
            &&& a1 == Action::ReadStore
            &&& a2 == Action::ReadChain
            &&& a3 == Action::Finish(Decision::Continue)
        }),
{
}

} // verus!
