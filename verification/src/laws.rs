//! Laws of the driver, stated over the specification-level transitions and
//! proved once and for all: registration refusal while disabled, at-most-once
//! delivery, synchronous delivery of a cached reading, the
//! second-registration-wins policy, the quiet not-ready tick, loss without
//! retry on gateway rejection, and the inertness of unknown commands.

use vstd::prelude::*;

use crate::callback::{CallbackModel, RequestModel, request_of};
use crate::tmp006::{
    DriverState, ERR_NOT_ENABLED, ERR_UNSUPPORTED, SUCCESS, ready, reading_of, spec_command,
    spec_subscribe, spec_tick, word_of,
};

verus! {

/// A registration attempted while the sequencer is disabled is refused with
/// the not-enabled status: the driver state — cache and pending slot
/// included — is unchanged and nothing is submitted.
pub proof fn lemma_subscribe_while_disabled(s: DriverState, cb: CallbackModel)
    requires
        !s.enabled,
    ensures
        spec_subscribe(s, 0, cb).state == s,
        spec_subscribe(s, 0, cb).result == ERR_NOT_ENABLED,
        spec_subscribe(s, 0, cb).submitted == Seq::<RequestModel>::empty(),
{
}

/// Across the sequence enable, not-ready tick, registration, ready tick,
/// exactly one upcall is submitted: it carries the ready tick's derived
/// reading in its first argument word, zeros in the next two, the upcall's
/// data word in the fourth; afterwards the pending slot is empty again.
pub proof fn lemma_exactly_one_delivery(
    s0: DriverState,
    cb: CallbackModel,
    st1: u8,
    d1h: u8,
    d1l: u8,
    st2: u8,
    th: u8,
    tl: u8,
)
    requires
        s0.cache is None,
        s0.slot is None,
        !ready(st1),
        ready(st2),
    ensures
        ({
            let t1 = spec_tick(spec_command(s0, 0).state, st1, d1h, d1l);
            let sb = spec_subscribe(t1.state, 0, cb);
            let t2 = spec_tick(sb.state, st2, th, tl);
            &&& t1.submitted + sb.submitted + t2.submitted
                == seq![request_of(cb, reading_of(word_of(th, tl)) as usize, 0, 0)]
            &&& t2.state.slot is None
        }),
{
    let t1 = spec_tick(spec_command(s0, 0).state, st1, d1h, d1l);
    let sb = spec_subscribe(t1.state, 0, cb);
    let t2 = spec_tick(sb.state, st2, th, tl);
    assert(t1.submitted + sb.submitted + t2.submitted
        =~= seq![request_of(cb, reading_of(word_of(th, tl)) as usize, 0, 0)]);
}

/// When a reading is already cached, a registration is answered at once: the
/// call submits exactly one request carrying the cached reading, the driver
/// state — the pending slot included — is unchanged, and when the slot was
/// empty a following tick submits nothing, so the delivery is not repeated.
pub proof fn lemma_cached_reading_delivered_once(
    s: DriverState,
    cb: CallbackModel,
    temp: i16,
    st: u8,
    th: u8,
    tl: u8,
)
    requires
        s.enabled,
        s.cache == Some(temp),
    ensures
        spec_subscribe(s, 0, cb).state == s,
        spec_subscribe(s, 0, cb).result == SUCCESS,
        spec_subscribe(s, 0, cb).submitted == seq![request_of(cb, temp as usize, 0, 0)],
        s.slot is None ==> spec_tick(spec_subscribe(s, 0, cb).state, st, th, tl).submitted
            == Seq::<RequestModel>::empty(),
{
    assert(spec_subscribe(s, 0, cb).submitted =~= seq![request_of(cb, temp as usize, 0, 0)]);
}

/// Of two registrations made before any tick fires, only the second is ever
/// delivered: the ready tick submits exactly one request, the second
/// upcall's, and the first upcall is silently dropped.
pub proof fn lemma_second_registration_wins(
    s: DriverState,
    cb1: CallbackModel,
    cb2: CallbackModel,
    st: u8,
    th: u8,
    tl: u8,
)
    requires
        s.enabled,
        s.cache is None,
        ready(st),
    ensures
        ({
            let sb1 = spec_subscribe(s, 0, cb1);
            let sb2 = spec_subscribe(sb1.state, 0, cb2);
            let t = spec_tick(sb2.state, st, th, tl);
            &&& sb1.submitted + sb2.submitted + t.submitted
                == seq![request_of(cb2, reading_of(word_of(th, tl)) as usize, 0, 0)]
            &&& t.state.slot is None
        }),
{
    let sb1 = spec_subscribe(s, 0, cb1);
    let sb2 = spec_subscribe(sb1.state, 0, cb2);
    let t = spec_tick(sb2.state, st, th, tl);
    assert(sb1.submitted + sb2.submitted + t.submitted
        =~= seq![request_of(cb2, reading_of(word_of(th, tl)) as usize, 0, 0)]);
}

/// A tick whose status byte has the ready bit unset changes nothing and
/// submits nothing. That no further bus traffic occurs in such a tick is
/// part of the tick function's own contract: it consumes a single bus
/// response and issues no write in that case.
pub proof fn lemma_not_ready_tick_is_quiet(s: DriverState, st: u8, th: u8, tl: u8)
    requires
        !ready(st),
    ensures
        spec_tick(s, st, th, tl).state == s,
        spec_tick(s, st, th, tl).submitted == Seq::<RequestModel>::empty(),
{
}

/// A ready tick consumes the pending upcall before the gateway answers: the
/// slot is empty afterwards and exactly one request was submitted — the
/// gateway's verdict is no input to the transition, so this holds equally
/// when the submission is rejected — and a following tick, ready or not,
/// submits nothing more: a rejected reading is lost, never retried.
pub proof fn lemma_rejected_delivery_not_retried(
    s: DriverState,
    cb: CallbackModel,
    st: u8,
    th: u8,
    tl: u8,
    st2: u8,
    th2: u8,
    tl2: u8,
)
    requires
        ready(st),
        s.slot == Some(cb),
    ensures
        ({
            let t = spec_tick(s, st, th, tl);
            let t2 = spec_tick(t.state, st2, th2, tl2);
            &&& t.state.slot is None
            &&& t.submitted == seq![request_of(cb, reading_of(word_of(th, tl)) as usize, 0, 0)]
            &&& t2.submitted == Seq::<RequestModel>::empty()
        }),
{
    let t = spec_tick(s, st, th, tl);
    assert(t.submitted =~= seq![request_of(cb, reading_of(word_of(th, tl)) as usize, 0, 0)]);
}

/// A command with an unrecognized identifier is refused with the unsupported
/// status and leaves the driver state — the sequencer state included —
/// unchanged.
pub proof fn lemma_unknown_command_is_inert(s: DriverState, cmd_num: usize)
    requires
        cmd_num != 0,
    ensures
        spec_command(s, cmd_num).state == s,
        spec_command(s, cmd_num).result == ERR_UNSUPPORTED,
{
}

} // verus!
