//! The orchestrator: it resumes from the progress marker, drives the windowed
//! reader, checks that blocks come in order and asks for each block's commit.
//!
//! The caller performs what each step asks (open a stream, write a plan and
//! the marker in one transaction, stop) and hands back what came of it. Every
//! error is final: the orchestrator accepts no further step after one.
use vstd::prelude::*;

use crate::processor::{BlockProcessor, WritePlan};
use crate::progress::{get_start_height, settle_commit, spec_marker_after_commit, spec_start_height};
use crate::reader::{ProviderMessage, ReaderAction, ReaderModel, ReaderPhase, WindowedReader};
use crate::window::BlockWindow;

verus! {

#[derive(Debug, Clone, Copy, PartialEq, Eq, Structural)]
pub enum Phase {
    /// Created; the first window has not been asked for.
    Ready,
    /// Waiting for the next provider message.
    Streaming,
    /// Waiting for the outcome of the commit of the expected height.
    Committing,
    /// The stream ended normally. Final.
    Finished,
    /// A fatal error occurred. Final.
    Failed,
    /// Stopped on request between two blocks. Final.
    Stopped,
}

/// A fatal error of the pipeline.
#[derive(Debug, Clone, Copy, PartialEq, Eq, Structural)]
pub enum PipelineError {
    /// No processor is registered under the module name.
    UnknownModule,
    /// A height or a window end would pass the largest `u64`.
    HeightOverflow,
    /// A block arrived whose height is not the expected next one.
    OrderingViolation { expected: u64, received: u64 },
    /// The store failed to write the records of the block at `height`.
    Processing { height: u64 },
}

/// What the orchestrator asks of its caller.
#[derive(Debug, Clone)]
pub enum Command {
    /// Open the provider's stream for this window and hand back its messages.
    OpenStream(BlockWindow),
    /// Write the plan's rows and set the marker to its height, as one unit,
    /// then hand back whether that succeeded.
    Commit(WritePlan),
    /// The stream is over: stop with success.
    Finish,
}

/// The orchestrator as the contracts see it.
pub struct OrchestratorModel {
    pub phase: Phase,
    pub processor: BlockProcessor,
    /// The marker read at start-up.
    pub initial_marker: Option<u64>,
    /// Height of the first block of this run.
    pub start: u64,
    /// Height of the block expected next (or being committed).
    pub next_height: u64,
    /// The marker as this run has left it.
    pub marker: Option<u64>,
    /// Heights committed in this run, in the order they were committed.
    pub processed: Seq<u64>,
    pub reader: ReaderModel,
}

pub struct Orchestrator {
    phase: Phase,
    processor: BlockProcessor,
    initial_marker: Option<u64>,
    start: u64,
    next_height: u64,
    marker: Option<u64>,
    processed: Ghost<Seq<u64>>,
    reader: WindowedReader,
}

impl View for Orchestrator {
    type V = OrchestratorModel;

    closed spec fn view(&self) -> OrchestratorModel {
        OrchestratorModel {
            phase: self.phase,
            processor: self.processor,
            initial_marker: self.initial_marker,
            start: self.start,
            next_height: self.next_height,
            marker: self.marker,
            processed: self.processed@,
            reader: self.reader@,
        }
    }
}

/// The heights `start, start + 1, ...` in order, as many as `s` holds.
pub open spec fn contiguous_from(s: Seq<u64>, start: u64) -> bool {
    forall|i: int| 0 <= i < s.len() ==> s[i] == start + i
}

impl Orchestrator {
    /// The run's state is consistent: it started where the marker said, it
    /// committed the heights from there on without gap, and the marker names
    /// the last of them.
    pub closed spec fn wf(&self) -> bool {
        &&& self.reader.wf()
        &&& self.reader@.first == self.start
        &&& spec_start_height(self.initial_marker) == Some(self.start)
        &&& self.next_height == self.start + self.processed@.len()
        &&& contiguous_from(self.processed@, self.start)
        &&& self.marker == if self.processed@.len() == 0 {
            self.initial_marker
        } else {
            Some((self.next_height - 1) as u64)
        }
        &&& self.phase == Phase::Ready ==> self.reader@.phase == ReaderPhase::Init
        &&& (self.phase == Phase::Streaming || self.phase == Phase::Committing) ==> self.reader@.phase
            == ReaderPhase::Streaming
        &&& self.phase == Phase::Finished ==> self.reader@.phase == ReaderPhase::Closed
        &&& self.phase == Phase::Committing ==> self.next_height < u64::MAX
    }

    /// An orchestrator for the pipeline named `module_name` that resumes after
    /// `marker`, the stored progress marker (`None` where there is none).
    pub fn new(module_name: &String, marker: Option<u64>) -> (r: Result<Orchestrator, PipelineError>)
        ensures
            BlockProcessor::spec_for_module(module_name@) is None ==> r == Err::<Orchestrator, PipelineError>(
                PipelineError::UnknownModule,
            ),
            BlockProcessor::spec_for_module(module_name@) is Some ==> match spec_start_height(marker) {
                Some(s) => if BlockWindow::fits_from(s) {
                    r matches Ok(o) && {
                        &&& o.wf()
                        &&& o@.phase == Phase::Ready
                        &&& Some(o@.processor) == BlockProcessor::spec_for_module(module_name@)
                        &&& o@.initial_marker == marker
                        &&& o@.marker == marker
                        &&& o@.start == s
                        &&& o@.next_height == s
                        &&& o@.processed == Seq::<u64>::empty()
                    }
                } else {
                    r == Err::<Orchestrator, PipelineError>(PipelineError::HeightOverflow)
                },
                None => r == Err::<Orchestrator, PipelineError>(PipelineError::HeightOverflow),
            },
    {
        let processor = match BlockProcessor::for_module(module_name) {
            Some(p) => p,
            None => return Err(PipelineError::UnknownModule),
        };
        let start = match get_start_height(marker) {
            Some(s) => s,
            None => return Err(PipelineError::HeightOverflow),
        };
        let reader = match WindowedReader::new(start) {
            Some(rd) => rd,
            None => return Err(PipelineError::HeightOverflow),
        };
        Ok(Orchestrator {
            phase: Phase::Ready,
            processor,
            initial_marker: marker,
            start,
            next_height: start,
            marker,
            processed: Ghost(Seq::empty()),
            reader,
        })
    }

    /// Asks for the first window, which starts at the resumed height.
    pub fn begin(&mut self) -> (r: BlockWindow)
        requires
            old(self).wf(),
            old(self)@.phase == Phase::Ready,
        ensures
            final(self).wf(),
            r.start == old(self)@.start,
            r.wf(),
            final(self)@ == (OrchestratorModel {
                phase: Phase::Streaming,
                reader: final(self)@.reader,
                ..old(self)@
            }),
    {
        let opened = self.reader.open();
        self.phase = Phase::Streaming;
        match opened {
            Ok(w) => w,
            Err(_) => self.reader.window(),
        }
    }

    /// Takes one provider message.
    ///
    /// A block must carry the expected height; it is then planned for commit.
    /// The end of a window asks for the next window and never ends the run;
    /// only the end of the stream does.
    pub fn on_message(&mut self, msg: ProviderMessage) -> (r: Result<Command, PipelineError>)
        requires
            old(self).wf(),
            old(self)@.phase == Phase::Streaming,
        ensures
            final(self).wf(),
            final(self)@.processed == old(self)@.processed,
            final(self)@.marker == old(self)@.marker,
            final(self)@.next_height == old(self)@.next_height,
            final(self)@.start == old(self)@.start,
            final(self)@.processor == old(self)@.processor,
            r is Err ==> final(self)@.phase == Phase::Failed,
            (r matches Ok(Command::Finish)) <==> msg is EndOfStream,
            (final(self)@.phase == Phase::Finished) <==> msg is EndOfStream,
            match msg {
                ProviderMessage::NewBlock(d) => if d.height != old(self)@.next_height {
                    r == Err::<Command, PipelineError>(
                        PipelineError::OrderingViolation { expected: old(self)@.next_height, received: d.height },
                    )
                } else if d.height == u64::MAX {
                    r == Err::<Command, PipelineError>(PipelineError::HeightOverflow)
                } else {
                    &&& final(self)@.phase == Phase::Committing
                    &&& final(self)@.reader == old(self)@.reader
                    &&& r matches Ok(Command::Commit(plan)) && plan.height == d.height && plan.rows@
                        == old(self)@.processor.spec_rows(d, d.height)
                },
                ProviderMessage::EndOfWindow => if BlockWindow::fits_from(old(self)@.reader.window.end) {
                    &&& final(self)@.phase == Phase::Streaming
                    &&& final(self)@.reader.refills == old(self)@.reader.refills + 1
                    &&& r matches Ok(Command::OpenStream(w)) && w.start == old(self)@.reader.window.end && w.wf()
                } else {
                    r == Err::<Command, PipelineError>(PipelineError::HeightOverflow)
                },
                ProviderMessage::EndOfStream => {
                    &&& final(self)@.phase == Phase::Finished
                    &&& r matches Ok(Command::Finish)
                },
            },
    {
        let action = self.reader.on_message(msg);
        match action {
            Ok(ReaderAction::Deliver(d)) => {
                if d.height != self.next_height {
                    self.phase = Phase::Failed;
                    Err(PipelineError::OrderingViolation { expected: self.next_height, received: d.height })
                } else if d.height == u64::MAX {
                    self.phase = Phase::Failed;
                    Err(PipelineError::HeightOverflow)
                } else {
                    let height = d.height;
                    let plan = self.processor.plan(d, height);
                    self.phase = Phase::Committing;
                    Ok(Command::Commit(plan))
                }
            },
            Ok(ReaderAction::Open(w)) => Ok(Command::OpenStream(w)),
            Ok(ReaderAction::Closed) => {
                self.phase = Phase::Finished;
                Ok(Command::Finish)
            },
            Err(_) => {
                self.phase = Phase::Failed;
                Err(PipelineError::HeightOverflow)
            },
        }
    }

    /// Takes the outcome of the commit of the expected height.
    ///
    /// Where the store wrote the records, the marker advances to that height
    /// and the next height is expected. Where it failed, the marker stays as
    /// it was before the block and the run ends with the error.
    pub fn on_commit(&mut self, stored: bool) -> (r: Result<(), PipelineError>)
        requires
            old(self).wf(),
            old(self)@.phase == Phase::Committing,
        ensures
            final(self).wf(),
            final(self)@.marker == spec_marker_after_commit(old(self)@.marker, old(self)@.next_height, stored),
            final(self)@.start == old(self)@.start,
            final(self)@.processor == old(self)@.processor,
            final(self)@.reader == old(self)@.reader,
            stored ==> {
                &&& r is Ok
                &&& final(self)@.phase == Phase::Streaming
                &&& final(self)@.processed == old(self)@.processed.push(old(self)@.next_height)
                &&& final(self)@.next_height == old(self)@.next_height + 1
            },
            !stored ==> {
                &&& r == Err::<(), PipelineError>(PipelineError::Processing { height: old(self)@.next_height })
                &&& final(self)@.phase == Phase::Failed
                &&& final(self)@.processed == old(self)@.processed
                &&& final(self)@.next_height == old(self)@.next_height
            },
    {
        let height = self.next_height;
        settle_commit(&mut self.marker, height, stored);
        if stored {
            self.processed = Ghost(self.processed@.push(height));
            self.next_height = height + 1;
            self.phase = Phase::Streaming;
            Ok(())
        } else {
            self.phase = Phase::Failed;
            Err(PipelineError::Processing { height })
        }
    }

    /// Asks the run to stop. The request is honoured between blocks only:
    /// while a commit is under way, or once the run is over, nothing changes.
    pub fn request_shutdown(&mut self) -> (r: bool)
        requires
            old(self).wf(),
        ensures
            final(self).wf(),
            r == (old(self)@.phase == Phase::Ready || old(self)@.phase == Phase::Streaming),
            r ==> final(self)@ == (OrchestratorModel { phase: Phase::Stopped, ..old(self)@ }),
            !r ==> final(self)@ == old(self)@,
    {
        if self.phase == Phase::Ready || self.phase == Phase::Streaming {
            self.phase = Phase::Stopped;
            true
        } else {
            false
        }
    }

    pub fn phase(&self) -> (r: Phase)
        ensures
            r == self@.phase,
    {
        self.phase
    }

    pub fn start_height(&self) -> (r: u64)
        ensures
            r == self@.start,
    {
        self.start
    }

    pub fn next_height(&self) -> (r: u64)
        ensures
            r == self@.next_height,
    {
        self.next_height
    }

    pub fn marker(&self) -> (r: Option<u64>)
        ensures
            r == self@.marker,
    {
        self.marker
    }

    pub fn refills(&self) -> (r: u64)
        requires
            self.wf(),
        ensures
            r == self@.reader.refills,
    {
        self.reader.refills()
    }

    pub fn processor(&self) -> (r: BlockProcessor)
        ensures
            r == self@.processor,
    {
        self.processor
    }
}

/// Blocks reach the processor in order: the heights committed in a run are
/// the run's start height and those after it, each once, without gap.
pub proof fn lemma_processed_in_order(o: &Orchestrator)
    requires
        o.wf(),
    ensures
        contiguous_from(o@.processed, o@.start),
        forall|i: int, j: int| 0 <= i < j < o@.processed.len() ==> o@.processed[i] < o@.processed[j],
        forall|i: int| 0 <= i < o@.processed.len() - 1 ==> #[trigger] o@.processed[i + 1] == o@.processed[i] + 1,
        o@.next_height == o@.start + o@.processed.len(),
{
}

/// Wherever a run stops (a crash after a commit included), the marker it has
/// left makes a fresh run of the same pipeline start at the height it
/// expected next: the one after the last committed height, or its own start
/// where it committed nothing.
pub proof fn lemma_resume_where_stopped(o: &Orchestrator)
    requires
        o.wf(),
    ensures
        spec_start_height(o@.marker) == Some(o@.next_height),
        o@.processed.len() > 0 ==> o@.marker == Some(o@.processed.last()),
        o@.processed.len() > 0 ==> spec_start_height(o@.marker) == Some((o@.processed.last() + 1) as u64),
{
}

} // verus!
