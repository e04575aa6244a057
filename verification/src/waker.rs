//! What the library needs of [`core::task::Waker`].
//!
//! A `Waker` is opaque here. Its value stands for the task that it awakens: two
//! wakers are equal in a contract when waking either one awakens the same task.
//!
//! The library calls a waker only through the functions of this module. Each of
//! them enters its call in a [`WakerLog`], and nothing else writes to one, so that
//! contracts can say which of these calls were made. A clone that a container makes
//! when it is cloned itself is no such call, and is in no log.

use core::task::Waker;
use vstd::prelude::*;

verus! {

/// [`core::task::Waker`], as an opaque type whose value stands for the task that
/// the waker awakens.
#[verifier::external_type_specification]
#[verifier::external_body]
pub struct ExWaker(Waker);

/// One call of a function of a waker.
pub enum WakerCall {
    /// The waker was woken.
    Woken(Waker),
    /// The waker was cloned.
    Cloned(Waker),
    /// The registered waker was asked whether it will wake the same task as the
    /// other one, and gave this answer.
    Compared { registered: Waker, other: Waker, same: bool },
}

/// The calls that were made on wakers, oldest first.
///
/// The log exists in contracts only: it takes no room in a running program.
pub struct WakerLog {
    calls: Ghost<Seq<WakerCall>>,
}

impl View for WakerLog {
    type V = Seq<WakerCall>;

    closed spec fn view(&self) -> Seq<WakerCall> {
        self.calls@
    }
}

impl WakerLog {
    /// A log without any call.
    pub fn new() -> (log: WakerLog)
        ensures
            log@ == Seq::<WakerCall>::empty(),
    {
        WakerLog { calls: Ghost(Seq::empty()) }
    }
}

/// `Waker::wake`: one call on this waker, and no other call, is made.
///
/// What the executor behind the waker does in answer is left unsaid.
#[verifier::external_body]
pub(crate) fn wake(waker: Waker, log: &mut WakerLog)
    ensures
        final(log)@ == old(log)@.push(WakerCall::Woken(waker)),
{
    waker.wake();
}

/// `<Waker as Clone>::clone`: a waker and its clone awaken the same task. One call
/// on this waker, and no other call, is made.
#[verifier::external_body]
pub(crate) fn clone_waker(waker: &Waker, log: &mut WakerLog) -> (clone: Waker)
    ensures
        clone == *waker,
        final(log)@ == old(log)@.push(WakerCall::Cloned(*waker)),
{
    waker.clone()
}

/// `Waker::will_wake`: when it answers `true`, both wakers awaken the same task.
/// One call, with this answer, and no other call, is made.
///
/// Nothing is claimed of when it answers `false`: the comparison is a best effort,
/// and may miss two wakers of one task.
#[verifier::external_body]
pub(crate) fn will_wake(registered: &Waker, other: &Waker, log: &mut WakerLog) -> (same: bool)
    ensures
        same ==> *registered == *other,
        final(log)@ == old(log)@.push(
            WakerCall::Compared { registered: *registered, other: *other, same },
        ),
{
    registered.will_wake(other)
}

} // verus!
