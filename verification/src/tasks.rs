//! The two workers of the bridge as state machines: the one that looks for a
//! keyboard and the one that types. The caller runs the loops, does what an
//! action names and hands back what happened.

use crate::address::BdAddr;
use crate::discovery::DiscoveredDevice;
use crate::hidh::HidUsage;
use vstd::prelude::*;

verus! {

/// Seconds that one inquiry may take.
pub const SCAN_BUDGET_SECS: u64 = 5;

/// Seconds between two looks at the scanning flag while no scan is wanted.
pub const IDLE_POLL_SECS: u64 = 1;

/// Milliseconds between two chords, so that the host sees each of them.
pub const CHORD_DELAY_MS: u64 = 50;

/// What the scanning worker does next.
#[derive(Clone, Copy, Debug, PartialEq, Eq, Structural)]
pub enum ScanAction {
    /// Wait, then look at the flag again.
    Sleep { seconds: u64 },
    /// Run an inquiry of at most this length.
    Scan { seconds: u64 },
}

/// The first keyboard of a list, if it holds one: its position.
pub open spec fn is_first_keyboard(devices: Seq<DiscoveredDevice>, at: int) -> bool {
    &&& 0 <= at < devices.len()
    &&& devices[at].keyboard()
    &&& forall|j: int| 0 <= j < at ==> !(#[trigger] devices[j]).keyboard()
}

/// The list holds no keyboard.
pub open spec fn no_keyboard(devices: Seq<DiscoveredDevice>) -> bool {
    forall|j: int| 0 <= j < devices.len() ==> !(#[trigger] devices[j]).keyboard()
}

/// Finds the first keyboard of a list of discovered devices.
pub fn pick_keyboard(devices: &Vec<DiscoveredDevice>) -> (found: Option<usize>)
    ensures
        match found {
            Some(at) => is_first_keyboard(devices@, at as int),
            None => no_keyboard(devices@),
        },
{
    let mut i: usize = 0;
    while i < devices.len()
        invariant
            i <= devices@.len(),
            forall|j: int| 0 <= j < i ==> !(#[trigger] devices@[j]).keyboard(),
        decreases devices@.len() - i,
    {
        if devices[i].is_keyboard() {
            return Some(i);
        }
        i = i + 1;
    }
    None
}

/// The worker that looks for a keyboard and has it opened. Its state is one
/// flag: true while a keyboard is looked for, false while one is being
/// opened or is open.
pub struct ScanTask {
    scanning: bool,
}

impl View for ScanTask {
    type V = bool;

    closed spec fn view(&self) -> bool {
        self.scanning
    }
}

impl ScanTask {
    /// A worker that looks for a keyboard.
    pub fn new() -> (task: ScanTask)
        ensures
            task@,
    {
        ScanTask { scanning: true }
    }

    /// Tells whether a keyboard is looked for.
    pub fn is_scanning(&self) -> (r: bool)
        ensures
            r == self@,
    {
        self.scanning
    }

    /// Sets whether a keyboard is looked for.
    pub fn set_scanning(&mut self, scanning: bool)
        ensures
            final(self)@ == scanning,
    {
        self.scanning = scanning;
    }

    /// The keyboard is open: nothing is looked for.
    pub fn on_open(&mut self, _addr: BdAddr)
        ensures
            !final(self)@,
    {
        self.set_scanning(false);
    }

    /// The keyboard could not be opened: one is looked for again.
    pub fn on_open_failed(&mut self, _error: i32)
        ensures
            final(self)@,
    {
        self.set_scanning(true);
    }

    /// The keyboard is gone: one is looked for again.
    pub fn on_close(&mut self, _addr: BdAddr)
        ensures
            final(self)@,
    {
        self.set_scanning(true);
    }

    /// Takes an input report of the open device. A report of a keyboard is
    /// handed back for the typing worker, any other is dropped.
    pub fn on_input(
        &self,
        _addr: BdAddr,
        usage: HidUsage,
        _map_index: u8,
        _report_id: u16,
        data: &[u8],
    ) -> (queued: Option<Vec<u8>>)
        ensures
            usage.keyboard() ==> (queued matches Some(report) && report@ == data@),
            !usage.keyboard() ==> queued is None,
    {
        if usage.is_keyboard() {
            let mut report: Vec<u8> = Vec::new();
            let mut i: usize = 0;
            while i < data.len()
                invariant
                    i <= data@.len(),
                    report@ == data@.take(i as int),
                decreases data@.len() - i,
            {
                report.push(data[i]);
                i = i + 1;
                assert(report@ =~= data@.take(i as int));
            }
            assert(data@.take(data@.len() as int) =~= data@);
            Some(report)
        } else {
            None
        }
    }

    /// What the worker does next: an inquiry while a keyboard is looked for,
    /// else a pause before it looks at the flag again.
    pub fn next_action(&self) -> (action: ScanAction)
        ensures
            action == if self@ {
                ScanAction::Scan { seconds: SCAN_BUDGET_SECS }
            } else {
                ScanAction::Sleep { seconds: IDLE_POLL_SECS }
            },
    {
        if self.scanning {
            ScanAction::Scan { seconds: SCAN_BUDGET_SECS }
        } else {
            ScanAction::Sleep { seconds: IDLE_POLL_SECS }
        }
    }

    /// Takes the result of an inquiry and names the device to open: the first
    /// keyboard of the list. With a device named, nothing is looked for until
    /// the attempt fails or the connection closes. A result that arrives
    /// while nothing is looked for is dropped.
    pub fn on_scan_result(&mut self, devices: &Vec<DiscoveredDevice>) -> (open: Option<BdAddr>)
        ensures
            match open {
                Some(addr) => {
                    &&& old(self)@
                    &&& !final(self)@
                    &&& exists|at: int| is_first_keyboard(devices@, at) && devices@[at].bda == addr
                },
                None => {
                    &&& final(self)@ == old(self)@
                    &&& !old(self)@ || no_keyboard(devices@)
                },
            },
    {
        if !self.is_scanning() {
            return None;
        }
        match pick_keyboard(devices) {
            Some(at) => {
                self.set_scanning(false);
                Some(devices[at].bda)
            },
            None => None,
        }
    }
}

/// Where the typing worker stands.
#[derive(Clone, Copy, Debug, PartialEq, Eq, Structural)]
pub enum TypingState {
    /// Blocked until it is resumed.
    AwaitingResume,
    /// Typing what comes in.
    Running,
    /// Its channels are closed and it has ended.
    Exited,
}

/// What happened to the typing worker.
#[derive(Clone, Copy, Debug, PartialEq, Eq, Structural)]
pub enum TypingEvent {
    /// A resume signal was received.
    Resumed,
    /// The resume channel is closed.
    ResumeClosed,
    /// The look for a pause signal found none.
    NotPaused,
    /// A pause signal was received.
    Paused,
    /// The pause channel is closed.
    PauseClosed,
    /// One report was taken from the queue and typed.
    InputTyped,
}

/// What the typing worker does next.
#[derive(Clone, Copy, Debug, PartialEq, Eq, Structural)]
pub enum TypingAction {
    /// Block until a resume signal arrives.
    AwaitResume,
    /// Look for a pause signal without blocking.
    PollPause,
    /// Take one report from the queue, transcode it and send its chords.
    TypeInput,
    /// End the worker.
    Exit,
}

/// What a worker does when it enters a state or nothing has changed it.
pub open spec fn action_in(state: TypingState) -> TypingAction {
    match state {
        TypingState::AwaitingResume => TypingAction::AwaitResume,
        TypingState::Running => TypingAction::PollPause,
        TypingState::Exited => TypingAction::Exit,
    }
}

/// The state after an event. An event that does not belong to the state
/// changes nothing: a resume signal while running is one of these.
pub open spec fn typing_next(state: TypingState, event: TypingEvent) -> TypingState {
    match (state, event) {
        (TypingState::AwaitingResume, TypingEvent::Resumed) => TypingState::Running,
        (TypingState::AwaitingResume, TypingEvent::ResumeClosed) => TypingState::Exited,
        (TypingState::Running, TypingEvent::Paused) => TypingState::AwaitingResume,
        (TypingState::Running, TypingEvent::PauseClosed) => TypingState::Exited,
        _ => state,
    }
}

/// What the worker does after an event: it types when it is running and no
/// pause was found, and else does what its new state asks for.
pub open spec fn typing_action(state: TypingState, event: TypingEvent) -> TypingAction {
    match (state, event) {
        (TypingState::Running, TypingEvent::NotPaused) => TypingAction::TypeInput,
        _ => action_in(typing_next(state, event)),
    }
}

/// The state in which the typing worker starts, and what it does first.
pub fn typing_start() -> (start: (TypingState, TypingAction))
    ensures
        start == (TypingState::AwaitingResume, TypingAction::AwaitResume),
{
    (TypingState::AwaitingResume, TypingAction::AwaitResume)
}

/// One step of the typing worker: the state after `event` and what to do next.
pub fn typing_step(state: TypingState, event: TypingEvent) -> (step: (TypingState, TypingAction))
    ensures
        step == (typing_next(state, event), typing_action(state, event)),
{
    match (state, event) {
        (TypingState::AwaitingResume, TypingEvent::Resumed) => (
            TypingState::Running,
            TypingAction::PollPause,
        ),
        (TypingState::AwaitingResume, TypingEvent::ResumeClosed) => (
            TypingState::Exited,
            TypingAction::Exit,
        ),
        (TypingState::Running, TypingEvent::NotPaused) => (
            TypingState::Running,
            TypingAction::TypeInput,
        ),
        (TypingState::Running, TypingEvent::Paused) => (
            TypingState::AwaitingResume,
            TypingAction::AwaitResume,
        ),
        (TypingState::Running, TypingEvent::PauseClosed) => (
            TypingState::Exited,
            TypingAction::Exit,
        ),
        (TypingState::AwaitingResume, _) => (
            TypingState::AwaitingResume,
            TypingAction::AwaitResume,
        ),
        (TypingState::Running, _) => (TypingState::Running, TypingAction::PollPause),
        (TypingState::Exited, _) => (TypingState::Exited, TypingAction::Exit),
    }
}

/// The typing worker types only while it is running, ends only when a channel
/// has closed, and never leaves the state in which it has ended.
pub proof fn lemma_typing_steps(state: TypingState, event: TypingEvent)
    ensures
        typing_action(state, event) is TypeInput ==> state is Running && typing_next(state, event)
            is Running,
        typing_action(state, event) is Exit <==> typing_next(state, event) is Exited,
        state is Exited ==> typing_next(state, event) is Exited,
        typing_next(state, event) is Exited && !(state is Exited) ==> event is ResumeClosed
            || event is PauseClosed,
        state is Running && event is Resumed ==> typing_next(state, event) is Running,
{
}

} // verus!
