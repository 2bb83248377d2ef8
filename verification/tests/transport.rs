use gcode_wrangler::transport::contains_ack;
use gcode_wrangler::{PortCmd, SerialChannel, Status};

fn lines(texts: &[&str]) -> Vec<String> {
    texts.iter().map(|t| t.to_string()).collect()
}

#[test]
fn new_channel_is_idle() {
    let c = SerialChannel::new();
    assert_eq!(c.status(), Status::Waiting);
    assert_eq!(c.buffer_len(), 0);
    assert_eq!(c.progress(), 0);
}

#[test]
fn send_buffers_lines_and_runs() {
    let mut c = SerialChannel::new();
    let halt = c.apply_command(PortCmd::SEND(lines(&["a", "b", "c"])));
    assert!(!halt);
    assert_eq!(c.status(), Status::Running);
    assert_eq!(c.buffer_len(), 3);
}

#[test]
fn full_run_drains_in_order_with_monotone_progress() {
    // a controller that acknowledges every write immediately: each tick pops
    // one line, the write succeeds, and the remaining count is published
    let mut c = SerialChannel::new();
    c.apply_command(PortCmd::SEND(lines(&["a", "b", "c"])));
    let mut sent: Vec<String> = Vec::new();
    let mut progresses: Vec<usize> = Vec::new();
    while c.status() == Status::Running {
        match c.next_line() {
            Some(line) => {
                sent.push(line);
                progresses.push(c.on_write_success());
            },
            None => {},
        }
    }
    assert_eq!(sent, lines(&["a", "b", "c"]));
    assert_eq!(progresses, vec![2, 1, 0]);
    assert!(progresses.windows(2).all(|w| w[1] <= w[0]));
    assert_eq!(c.status(), Status::Waiting);
    assert_eq!(c.progress(), 0);
}

#[test]
fn cancel_halts_before_popping_and_keeps_buffer() {
    let mut c = SerialChannel::new();
    c.apply_command(PortCmd::SEND(lines(&["a", "b"])));
    assert_eq!(c.status(), Status::Running);
    let halt = c.apply_command(PortCmd::CANCEL);
    assert!(halt);
    assert_eq!(c.status(), Status::Cancelling);
    assert_eq!(c.buffer_len(), 2);
    // while cancelling, no further buffered line is popped
    assert_eq!(c.next_line(), None);
    assert_eq!(c.buffer_len(), 2);
}

#[test]
fn only_cancel_demands_the_halt_byte() {
    let mut c = SerialChannel::new();
    assert!(!c.apply_command(PortCmd::SEND(lines(&["a"]))));
    assert!(!c.apply_command(PortCmd::PAUSE));
    assert!(!c.apply_command(PortCmd::RUN));
    assert!(!c.apply_command(PortCmd::WAIT));
    assert!(c.apply_command(PortCmd::CANCEL));
    assert!(!c.apply_command(PortCmd::STOP));
}

#[test]
fn wait_clears_buffer_and_resets_progress() {
    let mut c = SerialChannel::new();
    c.apply_command(PortCmd::SEND(lines(&["a", "b"])));
    c.next_line();
    c.on_write_success();
    assert_eq!(c.progress(), 1);
    c.apply_command(PortCmd::WAIT);
    assert_eq!(c.status(), Status::Waiting);
    assert_eq!(c.buffer_len(), 0);
    assert_eq!(c.progress(), 0);
}

#[test]
fn stop_is_terminal_and_clears_buffer() {
    let mut c = SerialChannel::new();
    c.apply_command(PortCmd::SEND(lines(&["a"])));
    c.apply_command(PortCmd::STOP);
    assert_eq!(c.status(), Status::Stopped);
    assert_eq!(c.buffer_len(), 0);
    assert_eq!(c.progress(), 0);
}

#[test]
fn pause_suspends_and_run_resumes() {
    let mut c = SerialChannel::new();
    c.apply_command(PortCmd::SEND(lines(&["a", "b"])));
    c.apply_command(PortCmd::PAUSE);
    assert_eq!(c.status(), Status::Paused);
    assert_eq!(c.next_line(), None);
    assert_eq!(c.buffer_len(), 2);
    c.apply_command(PortCmd::RUN);
    assert_eq!(c.status(), Status::Running);
    assert_eq!(c.next_line(), Some("a".to_string()));
}

#[test]
fn failed_write_requeues_line_and_pauses() {
    let mut c = SerialChannel::new();
    c.apply_command(PortCmd::SEND(lines(&["a", "b"])));
    let line = c.next_line().unwrap();
    assert_eq!(line, "a");
    assert_eq!(c.buffer_len(), 1);
    c.on_write_failure(line);
    assert_eq!(c.status(), Status::Paused);
    assert_eq!(c.buffer_len(), 2);
    // once the operator resumes, the same line is written first
    c.apply_command(PortCmd::RUN);
    assert_eq!(c.next_line(), Some("a".to_string()));
}

#[test]
fn drained_buffer_goes_back_to_waiting() {
    let mut c = SerialChannel::new();
    c.apply_command(PortCmd::SEND(lines(&["only"])));
    assert_eq!(c.next_line(), Some("only".to_string()));
    c.on_write_success();
    assert_eq!(c.next_line(), None);
    assert_eq!(c.status(), Status::Waiting);
}

#[test]
fn send_replaces_previous_buffer() {
    let mut c = SerialChannel::new();
    c.apply_command(PortCmd::SEND(lines(&["a", "b", "c"])));
    c.apply_command(PortCmd::SEND(lines(&["x"])));
    assert_eq!(c.buffer_len(), 1);
    assert_eq!(c.next_line(), Some("x".to_string()));
}

#[test]
fn contains_ack_finds_token() {
    assert!(contains_ack(&b"ok".to_vec()));
    assert!(contains_ack(&b"xxokyy".to_vec()));
    assert!(contains_ack(&b"error\nok\n".to_vec()));
}

#[test]
fn contains_ack_rejects_near_misses() {
    assert!(!contains_ack(&b"".to_vec()));
    assert!(!contains_ack(&b"o".to_vec()));
    assert!(!contains_ack(&b"ko".to_vec()));
    assert!(!contains_ack(&b"o k".to_vec()));
    assert!(!contains_ack(&b"OK".to_vec()));
}
