//! The poll logic of the three host-side tasks: the TX driver, the RX
//! driver, and the per-call request future.
//!
//! The executor owns the `Future` plumbing; each type here exposes one
//! `poll_step` that takes the module's [`AsyncCtx`] and the waker of the
//! polled task and makes the whole decision of that poll under contract.

use vstd::prelude::*;

verus! {

use crate::ctx::AsyncCtx;
use crate::ctx::AsyncCtxV;
use crate::ctx::DriverPoll;
use crate::ctx::ResultAction;

/// The TX driver task: drains the TX queue into the RPC node. Its whole
/// state is the module's async context, handed in at each poll.
pub struct HandleTxFuture;

impl HandleTxFuture {
    pub fn new() -> (r: Self) {
        HandleTxFuture
    }

    /// One poll: register `waker` as the TX waker; complete if the module
    /// was killed; otherwise return the drained batch, in push order, for
    /// dispatch through `AsyncCtx::handle_host_message`.
    pub fn poll_step<C, W>(&self, ctx: &mut AsyncCtx<C, W>, waker: W) -> (r: DriverPoll)
        ensures
            old(ctx)@.alive ==> (r matches DriverPoll::Running(msgs) && msgs@ == old(
                ctx,
            )@.tx_queue && final(ctx)@ == (AsyncCtxV {
                tx_waker: Some(waker),
                tx_queue: Seq::<Vec<u8>>::empty(),
                ..old(ctx)@
            })),
            !old(ctx)@.alive ==> (r is Completed && final(ctx)@ == (AsyncCtxV {
                tx_waker: Some(waker),
                ..old(ctx)@
            })),
            old(ctx).wf() ==> final(ctx).wf(),
    {
        ctx.begin_tx_poll(waker)
    }
}

/// The RX driver task: drains the RX queue toward the guest, then lets
/// the guest runtime tick. Its whole state is the module's async context.
pub struct HandleRxFuture;

impl HandleRxFuture {
    pub fn new() -> (r: Self) {
        HandleRxFuture
    }

    /// One poll: register `waker` as the RX waker; complete if the module
    /// was killed; otherwise return the drained batch, in push order, to
    /// be copied into the guest, after which the guest is polled once.
    pub fn poll_step<C, W>(&self, ctx: &mut AsyncCtx<C, W>, waker: W) -> (r: DriverPoll)
        ensures
            old(ctx)@.alive ==> (r matches DriverPoll::Running(msgs) && msgs@ == old(
                ctx,
            )@.rx_queue && final(ctx)@ == (AsyncCtxV {
                rx_waker: Some(waker),
                rx_queue: Seq::<Vec<u8>>::empty(),
                ..old(ctx)@
            })),
            !old(ctx)@.alive ==> (r is Completed && final(ctx)@ == (AsyncCtxV {
                rx_waker: Some(waker),
                ..old(ctx)@
            })),
            old(ctx).wf() ==> final(ctx).wf(),
    {
        ctx.begin_rx_poll(waker)
    }
}

/// What one poll of a request future decides.
pub enum ReqPoll {
    /// Not finished; the stored waker will be woken when the response is
    /// in.
    Pending,
    /// The response payload arrived; the call is complete.
    Ready(Vec<u8>),
}

/// The future of one outstanding call: its sequence number, the framed
/// request envelope until it is sent, and whether the first poll has run.
pub struct AsyncRequestFuture {
    seq_no: u64,
    msg: Option<Vec<u8>>,
    triggered: bool,
}

impl AsyncRequestFuture {
    /// The sequence number this future awaits.
    pub closed spec fn spec_seq_no(&self) -> u64 {
        self.seq_no
    }

    /// The framed request envelope, until the first poll sends it.
    pub closed spec fn spec_msg(&self) -> Option<Vec<u8>> {
        self.msg
    }

    /// Whether the first poll has installed the waker and sent the
    /// request.
    pub closed spec fn spec_triggered(&self) -> bool {
        self.triggered
    }

    /// Until the request is sent, the envelope is still here.
    pub open spec fn wf(&self) -> bool {
        !self.spec_triggered() ==> self.spec_msg() is Some
    }

    /// A future awaiting `seq_no`, holding the framed request `msg`.
    pub fn new(seq_no: u64, msg: Vec<u8>) -> (r: Self)
        ensures
            r.wf(),
            r.spec_seq_no() == seq_no,
            r.spec_msg() == Some(msg),
            !r.spec_triggered(),
    {
        AsyncRequestFuture { seq_no, msg: Some(msg), triggered: false }
    }

    /// One poll. On the first poll, record `waker` under the sequence
    /// number and push the request envelope onto the RX queue (the caller
    /// must then wake the RX driver). Later polls pick up the stored
    /// response if it arrived, and otherwise leave the state as it was.
    pub fn poll_step<C, W>(&mut self, ctx: &mut AsyncCtx<C, W>, waker: W) -> (r: ReqPoll)
        requires
            old(self).wf(),
            old(ctx).wf(),
        ensures
            final(self).wf(),
            final(ctx).wf(),
            final(self).spec_seq_no() == old(self).spec_seq_no(),
            !old(ctx)@.actions.contains_key(old(self).spec_seq_no()) && !old(
                self,
            ).spec_triggered() ==> (r is Pending && final(self).spec_triggered() && (old(
                self,
            ).spec_msg() matches Some(m) && final(ctx)@ == (AsyncCtxV {
                rx_queue: old(ctx)@.rx_queue.push(m),
                actions: old(ctx)@.actions.insert(
                    old(self).spec_seq_no(),
                    ResultAction::Wake(waker),
                ),
                ..old(ctx)@
            }))),
            !old(ctx)@.actions.contains_key(old(self).spec_seq_no()) && old(
                self,
            ).spec_triggered() ==> (r is Pending && final(self).spec_msg() == old(self).spec_msg()
                && final(self).spec_triggered() && final(ctx)@ == old(ctx)@),
            old(ctx)@.actions.contains_key(old(self).spec_seq_no()) ==> match old(ctx)@.actions[old(
                self,
            ).spec_seq_no()] {
                ResultAction::Response(d) => r matches ReqPoll::Ready(d2) && d2 == d && final(self).spec_msg() == old(self).spec_msg() && final(self).spec_triggered() == old(
                    self,
                ).spec_triggered() && final(ctx)@ == (AsyncCtxV {
                    actions: old(ctx)@.actions.remove(old(self).spec_seq_no()),
                    ..old(ctx)@
                }),
                _ => r is Pending && final(self).spec_msg() == old(self).spec_msg() && final(self).spec_triggered() == old(self).spec_triggered() && final(ctx)@.actions == old(
                    ctx,
                )@.actions && final(ctx)@ == (AsyncCtxV {
                    actions: final(ctx)@.actions,
                    ..old(ctx)@
                }),
            },
    {
        let s = self.seq_no;
        match ctx.take_action(s) {
            None => {
                if !self.triggered {
                    ctx.push_action(s, ResultAction::Wake(waker));
                    let mut m: Option<Vec<u8>> = None;
                    core::mem::swap(&mut m, &mut self.msg);
                    match m {
                        Some(v) => {
                            ctx.push_rx(v);
                        },
                        None => {},
                    }
                    self.triggered = true;
                }
                ReqPoll::Pending
            },
            Some(ResultAction::Response(d)) => ReqPoll::Ready(d),
            Some(a) => {
                ctx.push_action(s, a);
                proof {
                    assert(old(ctx)@.actions.remove(s).insert(s, old(ctx)@.actions[s]) =~= old(
                        ctx,
                    )@.actions);
                }
                ReqPoll::Pending
            },
        }
    }
}

} // verus!
