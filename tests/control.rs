use feroxbuster::controller::{handle_terminal_event, ControlAction, TerminalEvent};
use feroxbuster::error::{exit_status, FeroxError};
use feroxbuster::shutdown::{ShutdownSequencer, ShutdownStep};

#[test]
fn enter_twice_restores_the_pause_flag() {
    for start in [false, true] {
        let (once, a1) = handle_terminal_event(start, false, TerminalEvent::EnterPressed);
        let (twice, a2) = handle_terminal_event(once, false, TerminalEvent::EnterPressed);
        assert_eq!(once, !start);
        assert_eq!(twice, start);
        assert_eq!(a1, ControlAction::KeepPolling);
        assert_eq!(a2, ControlAction::KeepPolling);
    }
}

#[test]
fn other_input_is_ignored() {
    assert_eq!(handle_terminal_event(true, true, TerminalEvent::OtherInput), (true, ControlAction::KeepPolling));
    assert_eq!(handle_terminal_event(false, false, TerminalEvent::OtherInput), (false, ControlAction::KeepPolling));
}

#[test]
fn timeout_exits_only_once_scan_is_complete() {
    assert_eq!(handle_terminal_event(false, false, TerminalEvent::TimedOut), (false, ControlAction::KeepPolling));
    assert_eq!(handle_terminal_event(true, true, TerminalEvent::TimedOut), (true, ControlAction::Exit));
    assert_eq!(handle_terminal_event(false, true, TerminalEvent::EnterPressed), (true, ControlAction::KeepPolling));
}

fn drain(mut s: ShutdownSequencer) -> Vec<ShutdownStep> {
    let mut steps = Vec::new();
    loop {
        let step = s.next_step();
        if step == ShutdownStep::Done {
            break;
        }
        steps.push(step);
    }
    assert_eq!(s.next_step(), ShutdownStep::Done);
    steps
}

#[test]
fn teardown_with_file_output_awaits_both_consumers() {
    assert_eq!(
        drain(ShutdownSequencer::new(true)),
        vec![
            ShutdownStep::DropTerminalSender,
            ShutdownStep::AwaitTerminalConsumer,
            ShutdownStep::DropFileSender,
            ShutdownStep::AwaitFileConsumer,
            ShutdownStep::MarkScanComplete,
            ShutdownStep::FinishDisplay,
        ]
    );
}

#[test]
fn teardown_without_file_output_still_drops_the_file_sender() {
    assert_eq!(
        drain(ShutdownSequencer::new(false)),
        vec![
            ShutdownStep::DropTerminalSender,
            ShutdownStep::AwaitTerminalConsumer,
            ShutdownStep::DropFileSender,
            ShutdownStep::MarkScanComplete,
            ShutdownStep::FinishDisplay,
        ]
    );
}

#[test]
fn exit_status_is_nonzero_for_each_fatal_error() {
    assert_eq!(exit_status(&Ok(())), 0);
    assert_eq!(exit_status(&Err(FeroxError::WordlistUnreadable)), 1);
    assert_eq!(exit_status(&Err(FeroxError::WordlistEmpty)), 1);
    assert_eq!(exit_status(&Err(FeroxError::InputStream)), 1);
}

#[test]
fn errors_name_their_component() {
    assert_eq!(FeroxError::WordlistUnreadable.component(), "main::get_unique_words_from_wordlist");
    assert_eq!(FeroxError::WordlistEmpty.component(), "main::scan");
    assert_eq!(FeroxError::InputStream.component(), "main::get_targets");
}
