use softshell::dispatch::Signal;
use softshell::session::{after_command, next_state, on_read, LoopState, ReadEvent, Turn};

#[test]
fn blank_lines_are_skipped() {
    assert_eq!(on_read(ReadEvent::Line("".to_string())), Turn::Skip);
    assert_eq!(on_read(ReadEvent::Line("  \t ".to_string())), Turn::Skip);
    assert_eq!(next_state(&Turn::Skip), LoopState::Prompting);
}

#[test]
fn a_line_is_recorded_trimmed_and_split() {
    let turn = on_read(ReadEvent::Line("  echo  hello world \n".to_string()));
    assert_eq!(
        turn,
        Turn::Run {
            entry: "echo  hello world".to_string(),
            tokens: vec!["echo".to_string(), "hello".to_string(), "world".to_string()],
        }
    );
    assert_eq!(next_state(&turn), LoopState::Executing);
}

#[test]
fn an_interrupt_keeps_prompting() {
    let turn = on_read(ReadEvent::Interrupted);
    assert_eq!(turn, Turn::Acknowledge);
    assert_eq!(next_state(&turn), LoopState::Prompting);
}

#[test]
fn end_of_input_terminates() {
    let turn = on_read(ReadEvent::EndOfInput);
    assert_eq!(turn, Turn::Leave);
    assert_eq!(next_state(&turn), LoopState::Terminated);
}

#[test]
fn a_read_error_terminates() {
    let turn = on_read(ReadEvent::Failed("broken pipe".to_string()));
    assert_eq!(turn, Turn::Abort("broken pipe".to_string()));
    assert_eq!(next_state(&turn), LoopState::Terminated);
}

#[test]
fn the_signal_decides_the_state_after_a_command() {
    assert_eq!(after_command(Signal::Continue), LoopState::Prompting);
    assert_eq!(after_command(Signal::Exit), LoopState::Terminated);
}
