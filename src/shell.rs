use vstd::prelude::*;

use crate::document::DocumentState;

verus! {

/// Name of the notification published when the user tries to close the window.
pub const CLOSE_REQUESTED_EVENT: &'static str = "window-close-requested";

/// Why the host could not read or write the document file.
#[derive(Clone, Copy, Debug, PartialEq, Eq, Structural)]
pub enum StorageError {
    NotFound,
    PermissionDenied,
    Other,
}

/// A signal of the native windowing layer.
#[derive(Clone, Copy, Debug, PartialEq, Eq, Structural)]
pub enum WindowSignal {
    /// The user activated the window's close control.
    CloseRequested,
    /// Any other window event (move, resize, focus, ...).
    Other,
}

/// What the host does in answer to a window signal.
#[derive(Clone, Copy, Debug, PartialEq, Eq, Structural)]
pub struct WindowReaction {
    /// Cancel the native close, so the window stays.
    pub prevent_close: bool,
    /// Publish one `window-close-requested` notification to the interface.
    pub notify_close_requested: bool,
}

/// Where the shell stands in the close handshake.
#[derive(Clone, Copy, Debug, PartialEq, Eq, Structural)]
pub enum Phase {
    /// The window is open and no close is in flight.
    Idle,
    /// A close was requested and suppressed; the interface decides what follows.
    CloseRequested,
    /// `close_app` was called: the process ends.
    Exited,
}

/// One thing that can happen to a running shell.
#[derive(Clone, Copy, Debug, PartialEq, Eq, Structural)]
pub enum Input {
    Window(WindowSignal),
    GetInitialSvg,
    SaveSvg,
    CloseApp,
}

/// The reaction owed to a window signal.
pub open spec fn reaction(signal: WindowSignal) -> WindowReaction {
    match signal {
        WindowSignal::CloseRequested => WindowReaction {
            prevent_close: true,
            notify_close_requested: true,
        },
        WindowSignal::Other => WindowReaction { prevent_close: false, notify_close_requested: false },
    }
}

/// The phase after one input.
pub open spec fn next_phase(p: Phase, input: Input) -> Phase {
    if p == Phase::Exited {
        Phase::Exited
    } else {
        match input {
            Input::CloseApp => Phase::Exited,
            Input::Window(WindowSignal::CloseRequested) => Phase::CloseRequested,
            _ => p,
        }
    }
}

/// The text the interface receives for a read of the document file.
pub open spec fn loaded_text(read: Result<Seq<char>, StorageError>) -> Seq<char> {
    match read {
        Ok(s) => s,
        Err(_) => Seq::empty(),
    }
}

/// The status the interface receives for a write of the document file.
pub open spec fn save_status(write: Result<(), StorageError>) -> u64 {
    match write {
        Ok(()) => 0,
        Err(_) => 1,
    }
}

/// The view of a read outcome as plain text.
pub open spec fn read_view(read: &Result<String, StorageError>) -> Result<Seq<char>, StorageError> {
    match read {
        Ok(s) => Ok(s@),
        Err(e) => Err(*e),
    }
}

/// The running application: the document it owns and its close handshake.
pub struct Shell {
    document: DocumentState,
    phase: Phase,
}

impl Shell {
    pub closed spec fn document(&self) -> DocumentState {
        self.document
    }

    pub closed spec fn phase(&self) -> Phase {
        self.phase
    }

    /// A shell for the resolved document, with its window open.
    pub fn start(document: DocumentState) -> (r: Shell)
        ensures
            r.document() == document,
            r.phase() == Phase::Idle,
    {
        Shell { document, phase: Phase::Idle }
    }

    /// The path of the file that every command reads or writes.
    pub fn svg_file(&self) -> (r: &str)
        ensures
            r@ == self.document().path(),
    {
        self.document.svg_file()
    }

    /// Where the close handshake stands.
    pub fn current_phase(&self) -> (r: Phase)
        ensures
            r == self.phase(),
    {
        self.phase
    }

    /// The document text for the interface, given what reading the file gave:
    /// its content, or the empty text when it could not be read.
    pub fn get_initial_svg(&self, read: Result<String, StorageError>) -> (r: String)
        ensures
            r@ == loaded_text(read_view(&read)),
    {
        match read {
            Ok(s) => s,
            Err(_) => String::new(),
        }
    }

    /// The status for the interface, given what writing the file gave:
    /// `0` on success, non-zero on failure. The shell keeps running either way.
    pub fn save_svg(&self, write: Result<(), StorageError>) -> (r: u64)
        ensures
            r == save_status(write),
            r == 0 <==> write is Ok,
    {
        match write {
            Ok(()) => 0,
            Err(_) => 1,
        }
    }

    /// Ends the application: the exit code is `0`.
    pub fn close_app(&mut self) -> (code: i32)
        ensures
            code == 0,
            final(self).phase() == next_phase(old(self).phase(), Input::CloseApp),
            final(self).phase() == Phase::Exited,
            final(self).document() == old(self).document(),
    {
        self.phase = Phase::Exited;
        0
    }

    /// Reacts to a native window signal. A close request is suppressed and
    /// republished once to the interface; the shell never closes on its own.
    pub fn on_window_event(&mut self, signal: WindowSignal) -> (r: WindowReaction)
        ensures
            r == reaction(signal),
            final(self).phase() == next_phase(old(self).phase(), Input::Window(signal)),
            final(self).document() == old(self).document(),
    {
        match signal {
            WindowSignal::CloseRequested => {
                if self.phase != Phase::Exited {
                    self.phase = Phase::CloseRequested;
                }
                WindowReaction { prevent_close: true, notify_close_requested: true }
            },
            WindowSignal::Other => WindowReaction {
                prevent_close: false,
                notify_close_requested: false,
            },
        }
    }
}

} // verus!

verus! {

/// The phase reached from `p` after the inputs, in order.
pub open spec fn run_phases(p: Phase, inputs: Seq<Input>) -> Phase
    decreases inputs.len(),
{
    if inputs.len() == 0 {
        p
    } else {
        next_phase(run_phases(p, inputs.drop_last()), inputs.last())
    }
}

/// How many `window-close-requested` notifications the signals publish, in all.
pub open spec fn notifications(signals: Seq<WindowSignal>) -> nat
    decreases signals.len(),
{
    if signals.len() == 0 {
        0
    } else {
        notifications(signals.drop_last()) + if reaction(signals.last()).notify_close_requested {
            1nat
        } else {
            0nat
        }
    }
}

/// How many of the signals are close signals.
pub open spec fn close_signals(signals: Seq<WindowSignal>) -> nat
    decreases signals.len(),
{
    if signals.len() == 0 {
        0
    } else {
        close_signals(signals.drop_last()) + if signals.last() == WindowSignal::CloseRequested {
            1nat
        } else {
            0nat
        }
    }
}

/// Over any run of window signals, each close signal publishes exactly one
/// notification and is suppressed, so the window never closes by itself.
pub proof fn lemma_one_notification_per_close(signals: Seq<WindowSignal>)
    ensures
        notifications(signals) == close_signals(signals),
        forall|i: int|
            0 <= i < signals.len() && signals[i] == WindowSignal::CloseRequested
                ==> #[trigger] reaction(signals[i]).prevent_close,
    decreases signals.len(),
{
    if signals.len() > 0 {
        lemma_one_notification_per_close(signals.drop_last());
    }
}

/// A running shell ends after a run of inputs if and only if `close_app` is
/// among them: window signals, loads and saves never end it.
pub proof fn lemma_exit_only_by_close_app(p: Phase, inputs: Seq<Input>)
    requires
        p != Phase::Exited,
    ensures
        run_phases(p, inputs) == Phase::Exited <==> exists|i: int|
            0 <= i < inputs.len() && #[trigger] inputs[i] == Input::CloseApp,
    decreases inputs.len(),
{
    if inputs.len() > 0 {
        let pre = inputs.drop_last();
        lemma_exit_only_by_close_app(p, pre);
        if run_phases(p, inputs) == Phase::Exited {
            if run_phases(p, pre) == Phase::Exited {
                let i = choose|i: int| 0 <= i < pre.len() && #[trigger] pre[i] == Input::CloseApp;
                assert(inputs[i] == pre[i]);
            } else {
                assert(inputs[inputs.len() - 1] == Input::CloseApp);
            }
        } else {
            assert forall|i: int| 0 <= i < inputs.len() implies #[trigger] inputs[i]
                != Input::CloseApp by {
                if i < pre.len() {
                    assert(inputs[i] == pre[i]);
                }
            }
        }
    }
}

} // verus!
