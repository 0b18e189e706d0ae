//! Process handles, single-use upcalls, and the gateway through which a
//! fully-formed upcall request is handed to the process scheduler.

use vstd::prelude::*;

verus! {

/// Mathematical content of a [`Callback`]: the target process, the opaque
/// data word chosen at registration time, and the validated entry point.
pub ghost struct CallbackModel {
    pub app: usize,
    pub appdata: usize,
    pub pc: usize,
}

/// Mathematical content of an [`UpcallRequest`]: the four register-sized
/// argument words, the entry point, and the target process.
pub ghost struct RequestModel {
    pub r0: usize,
    pub r1: usize,
    pub r2: usize,
    pub r3: usize,
    pub pc: usize,
    pub app: usize,
}

/// The request that a callback with model `cb` submits when scheduled with
/// arguments `r0`, `r1`, `r2`: the stored data word rides in the fourth
/// argument slot and the stored entry point becomes the program counter.
pub open spec fn request_of(cb: CallbackModel, r0: usize, r1: usize, r2: usize) -> RequestModel {
    RequestModel { r0: r0, r1: r1, r2: r2, r3: cb.appdata, pc: cb.pc, app: cb.app }
}

/// An opaque, copyable index identifying one process instance. A pure lookup
/// key; only registration code is meant to mint one.
#[derive(Clone, Copy)]
pub struct AppId {
    idx: usize,
}

impl AppId {
    /// The process index this handle stands for.
    pub closed spec fn id(&self) -> usize {
        self.idx
    }

    pub fn new(idx: usize) -> (r: AppId)
        ensures
            r.id() == idx,
    {
        AppId { idx: idx }
    }

    pub fn idx(&self) -> (r: usize)
        ensures
            r == self.id(),
    {
        self.idx
    }
}

/// A single-use upcall: a target process, one opaque data word, and a
/// non-null entry point validated at construction. Deliberately not
/// copyable, so it can be delivered at most once.
pub struct Callback {
    process_ptr: AppId,
    appdata: usize,
    fn_ptr: usize,
}

/// One fully-formed delivery request, ready for the process scheduler: the
/// four words the process-side entry point receives, the entry point itself,
/// and the target process.
pub struct UpcallRequest {
    pub r0: usize,
    pub r1: usize,
    pub r2: usize,
    pub r3: usize,
    pub pc: usize,
    pub app: AppId,
}

impl UpcallRequest {
    pub open spec fn view(&self) -> RequestModel {
        RequestModel {
            r0: self.r0,
            r1: self.r1,
            r2: self.r2,
            r3: self.r3,
            pc: self.pc,
            app: self.app.id(),
        }
    }
}

/// The scheduler gateway: the one external collaborator that carries a
/// request out of the driver. Its abstract state is the sequence of requests
/// submitted through it so far; whether the target process accepts a request
/// is the gateway's own affair, so `submit` promises nothing of its result.
pub trait SchedulerGateway {
    /// Every request submitted so far, oldest first.
    spec fn log(&self) -> Seq<RequestModel>;

    fn submit(&mut self, request: UpcallRequest) -> (accepted: bool)
        ensures
            final(self).log() == old(self).log().push(request.view()),
    ;
}

impl Callback {
    pub closed spec fn view(&self) -> CallbackModel {
        CallbackModel { app: self.process_ptr.id(), appdata: self.appdata, pc: self.fn_ptr }
    }

    /// Builds an upcall for `appid`. The entry point is validated here: a
    /// null entry point is never stored.
    pub fn new(appid: AppId, appdata: usize, fn_ptr: usize) -> (r: Callback)
        requires
            fn_ptr != 0,
        ensures
            r.view() == (CallbackModel { app: appid.id(), appdata: appdata, pc: fn_ptr }),
    {
        Callback { process_ptr: appid, appdata: appdata, fn_ptr: fn_ptr }
    }

    /// Submits this upcall through the gateway with arguments `r0`, `r1`,
    /// `r2`; the stored data word fills the fourth slot. Returns the
    /// gateway's verdict, which constrains nothing here: a rejected request
    /// is simply lost.
    pub fn schedule<S: SchedulerGateway>(
        &mut self,
        r0: usize,
        r1: usize,
        r2: usize,
        sched: &mut S,
    ) -> (accepted: bool)
        ensures
            *final(self) == *old(self),
            final(sched).log() == old(sched).log().push(request_of(old(self).view(), r0, r1, r2)),
    {
        let request = UpcallRequest {
            r0: r0,
            r1: r1,
            r2: r2,
            r3: self.appdata,
            pc: self.fn_ptr,
            app: self.process_ptr,
        };
        sched.submit(request)
    }
}

} // verus!
