use vstd::prelude::*;

verus! {

/// One step of the teardown that follows the scan.
#[derive(Debug, Clone, Copy, PartialEq, Eq, Structural)]
pub enum ShutdownStep {
    /// Drop the last terminal-channel sender, which closes that channel.
    DropTerminalSender,
    /// Wait until the terminal consumer has written every message.
    AwaitTerminalConsumer,
    /// Drop the file-channel sender, which exists whether or not output is saved.
    DropFileSender,
    /// Wait until the file consumer has written every message.
    AwaitFileConsumer,
    /// Set the completion flag, which lets the pause/resume loop end.
    MarkScanComplete,
    /// Finalise the progress display.
    FinishDisplay,
    /// Nothing is left to do.
    Done,
}

/// The teardown steps in order; the file consumer is awaited only when output
/// is saved to a file.
pub open spec fn shutdown_plan(save_output: bool) -> Seq<ShutdownStep> {
    if save_output {
        seq![
            ShutdownStep::DropTerminalSender,
            ShutdownStep::AwaitTerminalConsumer,
            ShutdownStep::DropFileSender,
            ShutdownStep::AwaitFileConsumer,
            ShutdownStep::MarkScanComplete,
            ShutdownStep::FinishDisplay,
        ]
    } else {
        seq![
            ShutdownStep::DropTerminalSender,
            ShutdownStep::AwaitTerminalConsumer,
            ShutdownStep::DropFileSender,
            ShutdownStep::MarkScanComplete,
            ShutdownStep::FinishDisplay,
        ]
    }
}

/// The position of step `s` in the plan.
pub open spec fn position(save_output: bool, s: ShutdownStep) -> int {
    shutdown_plan(save_output).index_of(s)
}

/// In the teardown each channel is closed before its consumer is awaited, both
/// consumers are drained before the completion flag is set, the display is
/// finalised last, and no step comes twice.
pub proof fn lemma_teardown_order(save_output: bool)
    ensures
        shutdown_plan(save_output).no_duplicates(),
        position(save_output, ShutdownStep::DropTerminalSender) < position(save_output, ShutdownStep::AwaitTerminalConsumer),
        position(save_output, ShutdownStep::AwaitTerminalConsumer) < position(save_output, ShutdownStep::DropFileSender),
        position(save_output, ShutdownStep::DropFileSender) < position(save_output, ShutdownStep::MarkScanComplete),
        save_output ==> position(save_output, ShutdownStep::DropFileSender) < position(save_output, ShutdownStep::AwaitFileConsumer)
            < position(save_output, ShutdownStep::MarkScanComplete),
        save_output == shutdown_plan(save_output).contains(ShutdownStep::AwaitFileConsumer),
        shutdown_plan(save_output).last() == ShutdownStep::FinishDisplay,
        !shutdown_plan(save_output).contains(ShutdownStep::Done),
{
    let p = shutdown_plan(save_output);
    assert(p[0] == ShutdownStep::DropTerminalSender);
    assert(p[1] == ShutdownStep::AwaitTerminalConsumer);
    assert(p[2] == ShutdownStep::DropFileSender);
    if save_output {
        assert(p[3] == ShutdownStep::AwaitFileConsumer);
        assert(p[4] == ShutdownStep::MarkScanComplete);
        assert(p[5] == ShutdownStep::FinishDisplay);
    } else {
        assert(p[3] == ShutdownStep::MarkScanComplete);
        assert(p[4] == ShutdownStep::FinishDisplay);
    }
    p.index_of_first_ensures(ShutdownStep::DropTerminalSender);
}

/// Hands out the teardown steps one at a time, in their fixed order.
pub struct ShutdownSequencer {
    save_output: bool,
    taken: usize,
}

impl View for ShutdownSequencer {
    type V = (bool, nat);

    /// Whether output is saved, and how many steps were handed out.
    closed spec fn view(&self) -> (bool, nat) {
        (self.save_output, self.taken as nat)
    }
}

impl ShutdownSequencer {
    #[verifier::type_invariant]
    spec fn inv(self) -> bool {
        self.taken <= shutdown_plan(self.save_output).len()
    }

    /// A sequencer for a run that saves its output to a file or not.
    pub fn new(save_output: bool) -> (s: ShutdownSequencer)
        ensures
            s@ == (save_output, 0nat),
    {
        ShutdownSequencer { save_output, taken: 0 }
    }

    /// The next teardown step, or `Done` once every step was handed out.
    pub fn next_step(&mut self) -> (s: ShutdownStep)
        ensures
            final(self)@.0 == old(self)@.0,
            old(self)@.1 < shutdown_plan(old(self)@.0).len() ==> s == shutdown_plan(old(self)@.0)[old(self)@.1 as int]
                && final(self)@.1 == old(self)@.1 + 1,
            old(self)@.1 >= shutdown_plan(old(self)@.0).len() ==> s == ShutdownStep::Done && final(self)@.1
                == old(self)@.1,
    {
        proof {
            use_type_invariant(&*self);
        }
        let limit: usize = if self.save_output { 6 } else { 5 };
        if self.taken >= limit {
            return ShutdownStep::Done;
        }
        let k = self.taken;
        self.taken = self.taken + 1;
        if k == 0 {
            ShutdownStep::DropTerminalSender
        } else if k == 1 {
            ShutdownStep::AwaitTerminalConsumer
        } else if k == 2 {
            ShutdownStep::DropFileSender
        } else if self.save_output && k == 3 {
            ShutdownStep::AwaitFileConsumer
        } else if k + 1 < limit {
            ShutdownStep::MarkScanComplete
        } else {
            ShutdownStep::FinishDisplay
        }
    }
}

} // verus!
