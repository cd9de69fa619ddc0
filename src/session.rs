//! The lifecycle of one watch session: starting, running, stopping, stopped.
use vstd::prelude::*;
use crate::cursor::{law_no_replay, unread, delivered, next_position, TailCursor};
use crate::lines::texts;

verus! {

/// The kind of a raw filesystem change event, as the notification backend
/// reports it.
#[derive(Debug, Clone, Copy, PartialEq, Eq)]
pub enum ChangeKind {
    Access,
    Create,
    /// A modification the backend could not classify further.
    ModifyAny,
    /// The file's content changed.
    ModifyContent,
    /// The file's data changed in another way (its size, or unspecified).
    ModifyData,
    ModifyMetadata,
    ModifyName,
    ModifyOther,
    Remove,
    Any,
    Other,
}

/// A change of the file's content, the one kind that makes the session read.
/// Every other kind is discarded.
pub open spec fn is_content_change(k: ChangeKind) -> bool {
    k is ModifyContent
}

/// Whether an event of kind `k` signals appended content.
pub fn signals_append(k: ChangeKind) -> (r: bool)
    ensures
        r == is_content_change(k),
{
    match k {
        ChangeKind::ModifyContent => true,
        _ => false,
    }
}

/// The phase of a session.
#[derive(Debug, Clone, Copy, PartialEq, Eq)]
pub enum Phase {
    Starting,
    Running,
    Stopping,
    Stopped,
}

/// Why a session stopped other than by cancellation.
#[derive(Debug, Clone, Copy, PartialEq, Eq)]
pub enum Fault {
    /// The file could not be opened or watched when the session started.
    Startup,
    /// The file could not be read after the session started.
    Io,
    /// The change notifier reported an error or its stream ended.
    Watch,
}

/// What reaches a running session from outside.
#[derive(Debug, Clone, Copy, PartialEq, Eq)]
pub enum Signal {
    /// A filesystem change event on the watched file.
    Change(ChangeKind),
    /// The change notifier reported an error.
    WatchFailed,
    /// The change notifier's event stream ended.
    Closed,
    /// The session's cancellation signal fired.
    Cancelled,
}

/// What the session asks its driver to do next.
#[derive(Debug, Clone, Copy, PartialEq, Eq)]
pub enum Action {
    /// Nothing: wait for the next signal.
    Wait,
    /// Read the file from the byte offset `from` to its end and hand the
    /// bytes to `on_read`.
    Read { from: u64 },
    /// Release the notifier and the file, then call `released`.
    Release,
}

/// The abstract state of a session.
pub struct SessionView {
    pub phase: Phase,
    pub position: nat,
    pub fault: Option<Fault>,
}

/// A phase in which the session has been told to end.
pub open spec fn is_retired(p: Phase) -> bool {
    p is Stopping || p is Stopped
}

/// The session after its file was opened and watched, the file then holding
/// `file_len` bytes: the cursor starts at the end of the file.
pub open spec fn open_step(s: SessionView, file_len: nat) -> SessionView {
    if s.phase is Starting {
        SessionView { phase: Phase::Running, position: file_len, fault: None }
    } else {
        s
    }
}

/// The session after its file could not be opened or watched.
pub open spec fn start_failed_step(s: SessionView) -> SessionView {
    if s.phase is Starting {
        SessionView { phase: Phase::Stopped, fault: Some(Fault::Startup), ..s }
    } else {
        s
    }
}

/// The session's reaction to a signal: its next state and the action asked.
pub open spec fn signal_step(s: SessionView, sig: Signal) -> (SessionView, Action) {
    match s.phase {
        Phase::Running => match sig {
            Signal::Change(k) => if is_content_change(k) {
                (s, Action::Read { from: s.position as u64 })
            } else {
                (s, Action::Wait)
            },
            Signal::Cancelled => (SessionView { phase: Phase::Stopping, ..s }, Action::Release),
            _ => (
                SessionView { phase: Phase::Stopping, fault: Some(Fault::Watch), ..s },
                Action::Release,
            ),
        },
        Phase::Starting => match sig {
            Signal::Cancelled => (SessionView { phase: Phase::Stopped, ..s }, Action::Wait),
            _ => (s, Action::Wait),
        },
        _ => (s, Action::Wait),
    }
}

/// The session after the driver's read, `None` where the read failed, the
/// lines to hand on, in file order, and the action asked next.
pub open spec fn read_step(s: SessionView, read: Option<Seq<u8>>) -> (
    SessionView,
    Seq<Seq<char>>,
    Action,
) {
    if !(s.phase is Running) {
        (s, seq![], Action::Wait)
    } else {
        match read {
            Some(d) => if s.position + d.len() <= u64::MAX {
                (SessionView { position: next_position(s.position, d), ..s }, delivered(d), Action::Wait)
            } else {
                (
                    SessionView { phase: Phase::Stopping, fault: Some(Fault::Io), ..s },
                    seq![],
                    Action::Release,
                )
            },
            None => (
                SessionView { phase: Phase::Stopping, fault: Some(Fault::Io), ..s },
                seq![],
                Action::Release,
            ),
        }
    }
}

/// The session after the driver released its resources.
pub open spec fn released_step(s: SessionView) -> SessionView {
    if s.phase is Stopping {
        SessionView { phase: Phase::Stopped, ..s }
    } else {
        s
    }
}

/// The bytes of a read, if it succeeded.
pub open spec fn bytes_of(read: Option<Vec<u8>>) -> Option<Seq<u8>> {
    match read {
        Some(v) => Some(v@),
        None => None,
    }
}

/// One watch session over a single file: its phase, its read cursor, and
/// the fault that ended it, if any.
pub struct WatchSession {
    phase: Phase,
    cursor: TailCursor,
    fault: Option<Fault>,
}

impl View for WatchSession {
    type V = SessionView;

    closed spec fn view(&self) -> SessionView {
        SessionView { phase: self.phase, position: self.cursor.pos(), fault: self.fault }
    }
}

impl WatchSession {
    /// A session that has not opened its file yet.
    pub fn new() -> (r: WatchSession)
        ensures
            r@.phase == Phase::Starting,
            r@.position == 0,
            r@.fault == None::<Fault>,
    {
        WatchSession { phase: Phase::Starting, cursor: TailCursor::at_end(0), fault: None }
    }

    pub fn phase(&self) -> (r: Phase)
        ensures
            r == self@.phase,
    {
        self.phase
    }

    pub fn fault(&self) -> (r: Option<Fault>)
        ensures
            r == self@.fault,
    {
        self.fault
    }

    pub fn position(&self) -> (r: u64)
        ensures
            r == self@.position,
    {
        self.cursor.position()
    }

    /// Records that the file was opened and watched while it held `file_len`
    /// bytes.
    pub fn opened(&mut self, file_len: u64)
        ensures
            final(self)@ == open_step(old(self)@, file_len as nat),
    {
        if let Phase::Starting = self.phase {
            self.phase = Phase::Running;
            self.cursor = TailCursor::at_end(file_len);
            self.fault = None;
        }
    }

    /// Records that the file could not be opened or watched.
    pub fn start_failed(&mut self)
        ensures
            final(self)@ == start_failed_step(old(self)@),
    {
        if let Phase::Starting = self.phase {
            self.phase = Phase::Stopped;
            self.fault = Some(Fault::Startup);
        }
    }

    /// Reacts to a signal and says what the driver does next.
    pub fn on_signal(&mut self, sig: Signal) -> (r: Action)
        ensures
            (final(self)@, r) == signal_step(old(self)@, sig),
    {
        match self.phase {
            Phase::Running => match sig {
                Signal::Change(k) => {
                    if signals_append(k) {
                        Action::Read { from: self.cursor.position() }
                    } else {
                        Action::Wait
                    }
                },
                Signal::Cancelled => {
                    self.phase = Phase::Stopping;
                    Action::Release
                },
                _ => {
                    self.phase = Phase::Stopping;
                    self.fault = Some(Fault::Watch);
                    Action::Release
                },
            },
            Phase::Starting => match sig {
                Signal::Cancelled => {
                    self.phase = Phase::Stopped;
                    Action::Wait
                },
                _ => Action::Wait,
            },
            _ => Action::Wait,
        }
    }

    /// Takes the outcome of a read asked by `Action::Read`: the bytes from the
    /// cursor to the end of the file, or `None` where the file could not be
    /// read. Returns the complete lines to hand on and what the driver does
    /// next; a failed read ends the session.
    pub fn on_read(&mut self, read: Option<Vec<u8>>) -> (r: (Vec<String>, Action))
        ensures
            (final(self)@, texts(r.0@), r.1) == read_step(old(self)@, bytes_of(read)),
    {
        let empty: Vec<String> = Vec::new();
        proof {
            assert(texts(empty@) =~= Seq::<Seq<char>>::empty());
        }
        if let Phase::Running = self.phase {
            match read {
                Some(d) => {
                    if d.len() as u64 <= u64::MAX - self.cursor.position() {
                        match self.cursor.read_delta(&d) {
                            Ok(lines) => (lines, Action::Wait),
                            Err(_) => {
                                proof {
                                    assert(texts(empty@) =~= delivered(d@));
                                }
                                (empty, Action::Wait)
                            },
                        }
                    } else {
                        self.phase = Phase::Stopping;
                        self.fault = Some(Fault::Io);
                        (empty, Action::Release)
                    }
                },
                None => {
                    self.phase = Phase::Stopping;
                    self.fault = Some(Fault::Io);
                    (empty, Action::Release)
                },
            }
        } else {
            (empty, Action::Wait)
        }
    }

    /// Records that the driver released the notifier and the file.
    pub fn released(&mut self)
        ensures
            final(self)@ == released_step(old(self)@),
    {
        if let Phase::Stopping = self.phase {
            self.phase = Phase::Stopped;
        }
    }
}

} // verus!

verus! {

/// The session after each of `sigs` in turn.
pub open spec fn after_signals(s: SessionView, sigs: Seq<Signal>) -> SessionView
    decreases sigs.len(),
{
    if sigs.len() == 0 {
        s
    } else {
        signal_step(after_signals(s, sigs.drop_last()), sigs.last()).0
    }
}

proof fn lemma_retired_stays(s: SessionView, sigs: Seq<Signal>)
    requires
        is_retired(s.phase),
    ensures
        after_signals(s, sigs) == s,
    decreases sigs.len(),
{
    if sigs.len() > 0 {
        lemma_retired_stays(s, sigs.drop_last());
    }
}

/// Once cancelled, a running session stops and never again asks for a read or
/// hands on a line, whatever signals still reach it.
pub proof fn law_cancelled_session_reads_nothing(s: SessionView, sigs: Seq<Signal>)
    requires
        s.phase is Running,
    ensures
        signal_step(s, Signal::Cancelled).1 == Action::Release,
        is_retired(signal_step(s, Signal::Cancelled).0.phase),
        forall|i: int|
            0 <= i < sigs.len() ==> !(#[trigger] signal_step(
                after_signals(signal_step(s, Signal::Cancelled).0, sigs.take(i)),
                sigs[i],
            ).1 is Read),
        forall|read: Option<Seq<u8>>|
            #[trigger] read_step(after_signals(signal_step(s, Signal::Cancelled).0, sigs), read).1
                == Seq::<Seq<char>>::empty(),
{
    let t = signal_step(s, Signal::Cancelled).0;
    assert forall|i: int| 0 <= i < sigs.len() implies !(#[trigger] signal_step(
        after_signals(t, sigs.take(i)),
        sigs[i],
    ).1 is Read) by {
        lemma_retired_stays(t, sigs.take(i));
    }
    lemma_retired_stays(t, sigs);
}

} // verus!

verus! {

/// A session started on a file that holds `existing` replays none of it: its
/// first read starts at the end of `existing`, yields nothing while nothing
/// was appended, and otherwise yields exactly the lines of what was appended.
pub proof fn law_session_no_replay(s: SessionView, existing: Seq<u8>, appended: Seq<u8>)
    requires
        s.phase is Starting,
        existing.len() + appended.len() <= u64::MAX,
    ensures
        signal_step(open_step(s, existing.len()), Signal::Change(ChangeKind::ModifyContent)) == (
            open_step(s, existing.len()),
            Action::Read { from: existing.len() as u64 },
        ),
        read_step(open_step(s, existing.len()), Some(unread(existing, existing.len()))).1
            == Seq::<Seq<char>>::empty(),
        read_step(
            open_step(s, existing.len()),
            Some(unread(existing + appended, existing.len())),
        ).1 == delivered(appended),
{
    law_no_replay(existing, appended);
}

} // verus!
