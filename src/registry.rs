//! The process-wide slot that holds the one active watch session.
use vstd::prelude::*;
use crate::session::{
    after_signals, law_cancelled_session_reads_nothing, read_step, signal_step, SessionView, Signal,
};

verus! {

/// A started session: the path it watches and the driver's handle on it
/// (its cancellation signal and background task).
pub struct ActiveSession<H> {
    pub path: String,
    pub handle: H,
}

/// The slot after a session `e` is started in it, and the session retired.
pub open spec fn start_step<H>(slot: Option<ActiveSession<H>>, e: ActiveSession<H>) -> (
    Option<ActiveSession<H>>,
    Option<ActiveSession<H>>,
) {
    (Some(e), slot)
}

/// Holds at most one active session. Starting a session replaces the one in
/// the slot and hands the retired one back, for its driver to cancel.
pub struct SessionRegistry<H> {
    slot: Option<ActiveSession<H>>,
}

impl<H> SessionRegistry<H> {
    /// The session in the slot.
    pub closed spec fn active(&self) -> Option<ActiveSession<H>> {
        self.slot
    }

    /// An empty registry.
    pub fn new() -> (r: SessionRegistry<H>)
        ensures
            r.active() is None,
    {
        SessionRegistry { slot: None }
    }

    /// Puts a new session, watching `path`, in the slot, and returns the
    /// session it replaces.
    pub fn start(&mut self, path: String, handle: H) -> (retired: Option<ActiveSession<H>>)
        ensures
            (final(self).active(), retired) == start_step(
                old(self).active(),
                (ActiveSession { path, handle }),
            ),
    {
        let retired = self.slot.take();
        self.slot = Some(ActiveSession { path, handle });
        retired
    }

    /// Empties the slot, as at shutdown, and returns the session it held.
    pub fn stop(&mut self) -> (retired: Option<ActiveSession<H>>)
        ensures
            final(self).active() is None,
            retired == old(self).active(),
    {
        self.slot.take()
    }

    /// The path that the active session watches.
    pub fn active_path(&self) -> (r: Option<&String>)
        ensures
            r matches Some(p) ==> self.active() matches Some(e) && *p == e.path,
            r is None ==> self.active() is None,
    {
        match &self.slot {
            Some(e) => Some(&e.path),
            None => None,
        }
    }
}

/// After two successive starts only the second session stays in the slot; the
/// first is handed back, and once its signal is fired it asks for no further
/// read and hands on no line, whatever still reaches it.
pub proof fn law_single_active_session<H>(
    slot: Option<ActiveSession<H>>,
    first: ActiveSession<H>,
    second: ActiveSession<H>,
    first_session: SessionView,
    later: Seq<Signal>,
)
    requires
        first_session.phase is Running,
    ensures
        start_step(start_step(slot, first).0, second).0 == Some(second),
        start_step(start_step(slot, first).0, second).1 == Some(first),
        forall|i: int|
            0 <= i < later.len() ==> !(#[trigger] signal_step(
                after_signals(signal_step(first_session, Signal::Cancelled).0, later.take(i)),
                later[i],
            ).1 is Read),
        forall|read: Option<Seq<u8>>|
            #[trigger] read_step(
                after_signals(signal_step(first_session, Signal::Cancelled).0, later),
                read,
            ).1 == Seq::<Seq<char>>::empty(),
{
    law_cancelled_session_reads_nothing(first_session, later);
}

} // verus!
