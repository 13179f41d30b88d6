//! The windowed stream reader: it turns a run of fixed-size height windows into
//! one ordered sequence of blocks, and asks for the next window by itself when
//! the provider reports that the current one is used up.
use vstd::prelude::*;

use crate::window::{BlockWindow, WINDOW_SIZE};

verus! {

/// One block as the provider sends it.
#[derive(Debug, Clone)]
pub struct BlockData {
    /// Height that the provider reports for the block.
    pub height: u64,
    /// The module's output for the block, not interpreted here.
    pub payload: Vec<u8>,
    /// Opaque stream position after this block.
    pub cursor: String,
}

/// A message of the provider's stream.
#[derive(Debug, Clone)]
pub enum ProviderMessage {
    NewBlock(BlockData),
    /// The requested range is used up; the stream as a whole goes on.
    EndOfWindow,
    /// The stream is over.
    EndOfStream,
}

/// What the reader asks of the one who drives it.
#[derive(Debug, Clone)]
pub enum ReaderAction {
    /// Open the provider's stream for this window and hand back its messages.
    Open(BlockWindow),
    /// Hand this block to the consumer.
    Deliver(BlockData),
    /// The stream is closed: no more blocks come.
    Closed,
}

/// Why the reader refused a step.
#[derive(Debug, Clone, Copy, PartialEq, Eq, Structural)]
pub enum ReaderError {
    /// The reader is not in the phase in which the step is taken.
    WrongPhase,
    /// The next window would end beyond the largest `u64`.
    WindowOverflow,
}

#[derive(Debug, Clone, Copy, PartialEq, Eq, Structural)]
pub enum ReaderPhase {
    /// Created; the first window has not been opened.
    Init,
    /// A window is open and its messages are read.
    Streaming,
    /// The provider ended the stream. Final.
    Closed,
}

/// The reader as the contracts see it.
pub struct ReaderModel {
    pub phase: ReaderPhase,
    /// Height at which the first window starts.
    pub first: u64,
    /// The window now open (or, in `Init`, about to be opened).
    pub window: BlockWindow,
    /// How many times a new window was opened after the first.
    pub refills: nat,
}

pub struct WindowedReader {
    phase: ReaderPhase,
    first: u64,
    window: BlockWindow,
    refills: u64,
}

impl View for WindowedReader {
    type V = ReaderModel;

    closed spec fn view(&self) -> ReaderModel {
        ReaderModel {
            phase: self.phase,
            first: self.first,
            window: self.window,
            refills: self.refills as nat,
        }
    }
}

impl WindowedReader {
    /// The windows follow each other from `first` on, each of the fixed span.
    pub open spec fn wf(&self) -> bool {
        &&& self@.window.wf()
        &&& self@.window.start == self@.first + self@.refills * WINDOW_SIZE
        &&& self@.phase == ReaderPhase::Init ==> self@.refills == 0
    }

    /// A reader whose first window starts at `start`; `None` where that window
    /// would end beyond the largest `u64`.
    pub fn new(start: u64) -> (r: Option<WindowedReader>)
        ensures
            r is Some <==> BlockWindow::fits_from(start),
            r matches Some(rd) ==> {
                &&& rd.wf()
                &&& rd@.phase == ReaderPhase::Init
                &&& rd@.first == start
                &&& rd@.window.start == start
                &&& rd@.refills == 0
            },
    {
        match BlockWindow::starting_at(start) {
            Some(window) => Some(WindowedReader { phase: ReaderPhase::Init, first: start, window, refills: 0 }),
            None => None,
        }
    }

    /// Opens the first window: `Init` becomes `Streaming`.
    pub fn open(&mut self) -> (r: Result<BlockWindow, ReaderError>)
        requires
            old(self).wf(),
        ensures
            final(self).wf(),
            old(self)@.phase == ReaderPhase::Init ==> {
                &&& r == Ok::<BlockWindow, ReaderError>(old(self)@.window)
                &&& final(self)@ == (ReaderModel { phase: ReaderPhase::Streaming, ..old(self)@ })
            },
            old(self)@.phase != ReaderPhase::Init ==> {
                &&& r == Err::<BlockWindow, ReaderError>(ReaderError::WrongPhase)
                &&& final(self)@ == old(self)@
            },
    {
        if self.phase == ReaderPhase::Init {
            self.phase = ReaderPhase::Streaming;
            Ok(self.window)
        } else {
            Err(ReaderError::WrongPhase)
        }
    }

    /// Reads one provider message.
    ///
    /// A block is handed on as it came. The end of a window opens the next
    /// window, which starts where the last one ended; it never closes the
    /// reader. Only the end of the stream does. On an error nothing changes.
    pub fn on_message(&mut self, msg: ProviderMessage) -> (r: Result<ReaderAction, ReaderError>)
        requires
            old(self).wf(),
        ensures
            final(self).wf(),
            final(self)@.first == old(self)@.first,
            old(self)@.phase != ReaderPhase::Streaming ==> {
                &&& r == Err::<ReaderAction, ReaderError>(ReaderError::WrongPhase)
                &&& final(self)@ == old(self)@
            },
            old(self)@.phase == ReaderPhase::Streaming ==> match msg {
                ProviderMessage::NewBlock(d) => {
                    &&& r == Ok::<ReaderAction, ReaderError>(ReaderAction::Deliver(d))
                    &&& final(self)@ == old(self)@
                },
                ProviderMessage::EndOfWindow => {
                    &&& final(self)@.phase == ReaderPhase::Streaming
                    &&& BlockWindow::fits_from(old(self)@.window.end) ==> {
                        &&& final(self)@.window.start == old(self)@.window.end
                        &&& final(self)@.refills == old(self)@.refills + 1
                        &&& r == Ok::<ReaderAction, ReaderError>(ReaderAction::Open(final(self)@.window))
                    }
                    &&& !BlockWindow::fits_from(old(self)@.window.end) ==> {
                        &&& r == Err::<ReaderAction, ReaderError>(ReaderError::WindowOverflow)
                        &&& final(self)@ == old(self)@
                    }
                },
                ProviderMessage::EndOfStream => {
                    &&& r == Ok::<ReaderAction, ReaderError>(ReaderAction::Closed)
                    &&& final(self)@ == (ReaderModel { phase: ReaderPhase::Closed, ..old(self)@ })
                },
            },
    {
        if self.phase != ReaderPhase::Streaming {
            return Err(ReaderError::WrongPhase);
        }
        match msg {
            ProviderMessage::NewBlock(d) => Ok(ReaderAction::Deliver(d)),
            ProviderMessage::EndOfWindow => {
                match self.window.next() {
                    Some(w) => {
                        proof {
                            assert(self.refills * WINDOW_SIZE <= self.window.start);
                        }
                        self.window = w;
                        self.refills = self.refills + 1;
                        Ok(ReaderAction::Open(w))
                    },
                    None => Err(ReaderError::WindowOverflow),
                }
            },
            ProviderMessage::EndOfStream => {
                self.phase = ReaderPhase::Closed;
                Ok(ReaderAction::Closed)
            },
        }
    }

    pub fn phase(&self) -> (r: ReaderPhase)
        ensures
            r == self@.phase,
    {
        self.phase
    }

    pub fn window(&self) -> (r: BlockWindow)
        ensures
            r == self@.window,
    {
        self.window
    }

    pub fn refills(&self) -> (r: u64)
        ensures
            r == self@.refills,
    {
        self.refills
    }
}

} // verus!
