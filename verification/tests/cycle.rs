use lora_e5::{Action, Command, Error, Event, LoRaE5, Phase, Reply};

/// A serial line that answers from a script and records what it was sent.
struct Line {
    sent: Vec<u8>,
    flushes: usize,
    reads: usize,
    reply: Vec<u8>,
    fail_write_at: Option<usize>,
    fail_flush: bool,
    fail_read_at: Option<usize>,
}

impl Line {
    fn answering(reply: &[u8]) -> Line {
        Line {
            sent: Vec::new(),
            flushes: 0,
            reads: 0,
            reply: reply.to_vec(),
            fail_write_at: None,
            fail_flush: false,
            fail_read_at: None,
        }
    }

    fn perform(&mut self, action: &Action<u16, u32>) -> Event<u16, u32> {
        match action {
            Action::Write(byte) => {
                if self.fail_write_at == Some(self.sent.len()) {
                    Event::WriteFailed(7)
                } else {
                    self.sent.push(*byte);
                    Event::Written
                }
            }
            Action::Flush => {
                self.flushes += 1;
                if self.fail_flush {
                    Event::WriteFailed(8)
                } else {
                    Event::Flushed
                }
            }
            Action::Read => {
                if self.fail_read_at == Some(self.reads) {
                    Event::ReadFailed(9)
                } else {
                    let byte = self.reply[self.reads];
                    self.reads += 1;
                    Event::Received(byte)
                }
            }
            Action::Done(_) => unreachable!(),
        }
    }
}

/// Runs one whole cycle over `line`.
fn run(driver: &mut LoRaE5, line: &mut Line, cmd: Command) -> Result<Reply, Error<u16, u32>> {
    let mut action = driver.send_command(cmd);
    loop {
        if let Action::Done(outcome) = action {
            return outcome;
        }
        let event = line.perform(&action);
        action = driver.advance(event);
    }
}

#[test]
fn fresh_driver_holds_nothing() {
    let driver = LoRaE5::new();
    assert_eq!(driver.phase(), Phase::Idle);
    assert_eq!(driver.outgoing(), b"");
    assert_eq!(driver.incoming(), b"");
    assert_eq!(driver.in_flight(), None);
}

#[test]
fn check_alive_cycle_returns_the_reply_text() {
    let mut driver = LoRaE5::new();
    let mut line = Line::answering(b"+AT: OK\r\n");
    let reply = run(&mut driver, &mut line, Command::CheckAlive).unwrap();
    match reply {
        Reply::CheckAlive(result) => {
            assert_eq!(result.full_response_str.as_str(), "+AT: OK");
            assert_eq!(result.full_response.as_slice(), b"+AT: OK");
        }
        other => panic!("unexpected reply {:?}", other),
    }
    assert_eq!(line.sent, b"AT\n");
    assert_eq!(line.flushes, 1);
    assert_eq!(line.reads, 9);
    assert_eq!(driver.phase(), Phase::Idle);
}

#[test]
fn read_identity_cycle_returns_the_reply_text() {
    let mut driver = LoRaE5::new();
    let mut line = Line::answering(b"+ID: DevAddr, 01:23:45:67\r\n");
    let reply = run(&mut driver, &mut line, Command::AT_ID_READ).unwrap();
    match reply {
        Reply::AT_ID_READ(result) => {
            assert_eq!(result.full_response_str.as_str(), "+ID: DevAddr, 01:23:45:67");
            assert_eq!(result.full_response.as_slice(), b"+ID: DevAddr, 01:23:45:67");
        }
        other => panic!("unexpected reply {:?}", other),
    }
    assert_eq!(line.sent, b"AT+ID\n");
}

#[test]
fn received_bytes_drop_carriage_return_and_terminator() {
    let mut driver = LoRaE5::new();
    let mut line = Line::answering(b"+AT: OK\r\n");
    run(&mut driver, &mut line, Command::CheckAlive).unwrap();
    assert_eq!(driver.incoming(), b"+AT: OK");
}

#[test]
fn carriage_returns_are_dropped_wherever_they_stand() {
    let mut driver = LoRaE5::new();
    let mut line = Line::answering(b"\r+A\rT: \r\rOK\n");
    run(&mut driver, &mut line, Command::CheckAlive).unwrap();
    assert_eq!(driver.incoming(), b"+AT: OK");
    assert_eq!(line.reads, 12);
}

#[test]
fn bytes_after_the_line_feed_are_not_read() {
    let mut driver = LoRaE5::new();
    let mut line = Line::answering(b"+AT: OK\n+AT: LATER\n");
    run(&mut driver, &mut line, Command::CheckAlive).unwrap();
    assert_eq!(driver.incoming(), b"+AT: OK");
    assert_eq!(line.reads, 8);
}

#[test]
fn command_bytes_go_out_in_order_one_action_each() {
    let mut driver = LoRaE5::new();
    let first: Action<u16, u32> = driver.send_command(Command::AT_ID_READ);
    assert_eq!(first, Action::Write(b'A'));
    assert_eq!(driver.phase(), Phase::Transmitting { sent: 0 });
    assert_eq!(driver.advance::<u16, u32>(Event::Written), Action::Write(b'T'));
    assert_eq!(driver.advance::<u16, u32>(Event::Written), Action::Write(b'+'));
    assert_eq!(driver.advance::<u16, u32>(Event::Written), Action::Write(b'I'));
    assert_eq!(driver.advance::<u16, u32>(Event::Written), Action::Write(b'D'));
    assert_eq!(driver.phase(), Phase::Transmitting { sent: 4 });
    assert_eq!(driver.advance::<u16, u32>(Event::Written), Action::Write(b'\n'));
    assert_eq!(driver.advance::<u16, u32>(Event::Written), Action::Flush);
    assert_eq!(driver.phase(), Phase::Flushing);
    assert_eq!(driver.advance::<u16, u32>(Event::Flushed), Action::Read);
    assert_eq!(driver.phase(), Phase::Receiving { reads: 0 });
    assert_eq!(driver.advance::<u16, u32>(Event::Received(b'\r')), Action::Read);
    assert_eq!(driver.phase(), Phase::Receiving { reads: 1 });
    assert_eq!(driver.incoming(), b"");
    assert_eq!(driver.advance::<u16, u32>(Event::Received(b'x')), Action::Read);
    assert_eq!(driver.phase(), Phase::Receiving { reads: 2 });
    assert_eq!(driver.incoming(), b"x");
}

#[test]
fn send_command_records_the_command_in_flight() {
    let mut driver = LoRaE5::new();
    assert_eq!(driver.in_flight(), None);
    let _: Action<u16, u32> = driver.send_command(Command::AT_ID_READ);
    assert_eq!(driver.in_flight(), Some(&Command::AT_ID_READ));
    assert_eq!(driver.outgoing(), b"AT+ID\n");
}

#[test]
fn second_cycle_starts_from_empty_buffers() {
    let mut driver = LoRaE5::new();
    let mut line = Line::answering(b"+AT: OK\r\n");
    run(&mut driver, &mut line, Command::CheckAlive).unwrap();
    assert_eq!(driver.outgoing(), b"AT\n");
    assert_eq!(driver.incoming(), b"+AT: OK");

    let first: Action<u16, u32> = driver.send_command(Command::AT_ID_READ);
    assert_eq!(first, Action::Write(b'A'));
    assert_eq!(driver.outgoing(), b"AT+ID\n");
    assert_eq!(driver.incoming(), b"");
    assert_eq!(driver.in_flight(), Some(&Command::AT_ID_READ));
}

#[test]
fn second_cycle_reply_holds_nothing_of_the_first() {
    let mut driver = LoRaE5::new();
    let mut line = Line::answering(b"+AT: A LONG FIRST REPLY\r\n");
    run(&mut driver, &mut line, Command::CheckAlive).unwrap();
    let mut line = Line::answering(b"+AT: OK\r\n");
    let reply = run(&mut driver, &mut line, Command::CheckAlive).unwrap();
    match reply {
        Reply::CheckAlive(result) => assert_eq!(result.full_response_str.as_str(), "+AT: OK"),
        other => panic!("unexpected reply {:?}", other),
    }
    assert_eq!(line.sent, b"AT\n");
    assert_eq!(driver.incoming(), b"+AT: OK");
}

#[test]
fn cycle_after_a_failed_one_starts_clean() {
    let mut driver = LoRaE5::new();
    let mut line = Line::answering(b"+AT: PARTIAL");
    line.fail_read_at = Some(6);
    assert_eq!(run(&mut driver, &mut line, Command::CheckAlive), Err(Error::ReceiveReadError(9)));
    assert_eq!(driver.phase(), Phase::Failed);
    assert_eq!(driver.incoming(), b"+AT: P");

    let mut line = Line::answering(b"+AT: OK\r\n");
    let reply = run(&mut driver, &mut line, Command::CheckAlive).unwrap();
    match reply {
        Reply::CheckAlive(result) => assert_eq!(result.full_response_str.as_str(), "+AT: OK"),
        other => panic!("unexpected reply {:?}", other),
    }
    assert_eq!(driver.phase(), Phase::Idle);
}

#[test]
fn write_failure_ends_the_cycle_with_the_line_error() {
    let mut driver = LoRaE5::new();
    let mut line = Line::answering(b"+AT: OK\r\n");
    line.fail_write_at = Some(1);
    assert_eq!(run(&mut driver, &mut line, Command::CheckAlive), Err(Error::WriteError(7)));
    assert_eq!(line.sent, b"A");
    assert_eq!(line.flushes, 0);
    assert_eq!(line.reads, 0);
    assert_eq!(driver.phase(), Phase::Failed);
}

#[test]
fn flush_failure_ends_the_cycle_with_a_write_error() {
    let mut driver = LoRaE5::new();
    let mut line = Line::answering(b"+AT: OK\r\n");
    line.fail_flush = true;
    assert_eq!(run(&mut driver, &mut line, Command::CheckAlive), Err(Error::WriteError(8)));
    assert_eq!(line.sent, b"AT\n");
    assert_eq!(line.reads, 0);
    assert_eq!(driver.phase(), Phase::Failed);
}

#[test]
fn read_failure_ends_the_cycle_with_a_read_error() {
    let mut driver = LoRaE5::new();
    let mut line = Line::answering(b"+AT");
    line.fail_read_at = Some(3);
    assert_eq!(run(&mut driver, &mut line, Command::CheckAlive), Err(Error::ReceiveReadError(9)));
    assert_eq!(line.reads, 3);
    assert_eq!(driver.phase(), Phase::Failed);
}

#[test]
fn unmapped_commands_are_refused_before_anything_is_sent() {
    let unmapped = vec![
        Command::AT_ID_SET_DEV_EUI { dev_eui: [1; 8] },
        Command::AT_ID_SET_APP_EUI { app_eui: [2; 8] },
        Command::AT_ID_SET_APP_KEY { app_key: [3; 16] },
    ];
    for cmd in unmapped {
        let mut driver = LoRaE5::new();
        let mut line = Line::answering(b"+AT: OK\r\n");
        assert_eq!(run(&mut driver, &mut line, cmd), Err(Error::UnimplementedCommand));
        assert_eq!(line.sent, b"");
        assert_eq!(line.flushes, 0);
        assert_eq!(line.reads, 0);
        assert_eq!(driver.phase(), Phase::Failed);
        assert_eq!(driver.outgoing(), b"");
        assert_eq!(driver.in_flight(), None);
    }
}

#[test]
fn short_replies_are_too_short_for_every_command() {
    let replies: Vec<&[u8]> = vec![b"\n", b"+\n", b"+A\n", b"+AT\n", b"+AT:\n", b"\r\r\r\r\r\r+AT:\r\n"];
    for reply in replies {
        let mut driver = LoRaE5::new();
        let mut line = Line::answering(reply);
        assert_eq!(run(&mut driver, &mut line, Command::CheckAlive), Err(Error::PacketTooShort));
        assert_eq!(driver.phase(), Phase::Failed);

        let mut driver = LoRaE5::new();
        let mut line = Line::answering(reply);
        assert_eq!(run(&mut driver, &mut line, Command::AT_ID_READ), Err(Error::PacketTooShort));
    }
}

#[test]
fn five_bytes_are_enough() {
    let mut driver = LoRaE5::new();
    let mut line = Line::answering(b"+AT: \n");
    let reply = run(&mut driver, &mut line, Command::CheckAlive).unwrap();
    match reply {
        Reply::CheckAlive(result) => assert_eq!(result.full_response_str.as_str(), "+AT: "),
        other => panic!("unexpected reply {:?}", other),
    }
}

#[test]
fn reply_prefix_is_not_checked() {
    let mut driver = LoRaE5::new();
    let mut line = Line::answering(b"HELLO WORLD\n");
    let reply = run(&mut driver, &mut line, Command::CheckAlive).unwrap();
    match reply {
        Reply::CheckAlive(result) => assert_eq!(result.full_response_str.as_str(), "HELLO WORLD"),
        other => panic!("unexpected reply {:?}", other),
    }
}

#[test]
fn parse_without_command_is_unsolicited() {
    let driver = LoRaE5::new();
    assert_eq!(driver.parse_reply::<u16, u32>(), Err(Error::UnsolicitedReply));

    let mut driver = LoRaE5::new();
    let _: Action<u16, u32> = driver.send_command(Command::AT_ID_SET_DEV_EUI { dev_eui: [0; 8] });
    assert_eq!(driver.parse_reply::<u16, u32>(), Err(Error::UnsolicitedReply));
}

#[test]
fn parse_with_command_and_no_bytes_is_too_short() {
    let mut driver = LoRaE5::new();
    let _: Action<u16, u32> = driver.send_command(Command::CheckAlive);
    assert_eq!(driver.parse_reply::<u16, u32>(), Err(Error::PacketTooShort));
}

#[test]
fn events_nobody_asked_for_end_the_cycle() {
    let mut driver = LoRaE5::new();
    assert_eq!(
        driver.advance::<u16, u32>(Event::Received(b'+')),
        Action::Done(Err(Error::UnsolicitedReply))
    );
    assert_eq!(driver.phase(), Phase::Failed);
    assert_eq!(driver.incoming(), b"");

    let mut driver = LoRaE5::new();
    let _: Action<u16, u32> = driver.send_command(Command::CheckAlive);
    assert_eq!(
        driver.advance::<u16, u32>(Event::Flushed),
        Action::Done(Err(Error::UnsolicitedReply))
    );
    assert_eq!(driver.phase(), Phase::Failed);

    let mut driver = LoRaE5::new();
    assert_eq!(
        driver.advance::<u16, u32>(Event::Written),
        Action::Done(Err(Error::UnsolicitedReply))
    );
    assert_eq!(
        driver.advance::<u16, u32>(Event::WriteFailed(3)),
        Action::Done(Err(Error::WriteError(3)))
    );
    assert_eq!(
        driver.advance::<u16, u32>(Event::ReadFailed(4)),
        Action::Done(Err(Error::ReceiveReadError(4)))
    );
}

#[test]
fn budget_ends_a_reply_without_terminator() {
    let mut driver = LoRaE5::new();
    let mut reply = b"+AT: OK".to_vec();
    reply.resize(2000, b'\r');
    let mut line = Line::answering(&reply);
    let outcome = run(&mut driver, &mut line, Command::CheckAlive).unwrap();
    assert_eq!(line.reads, 1024);
    assert_eq!(driver.incoming(), b"+AT: OK");
    match outcome {
        Reply::CheckAlive(result) => assert_eq!(result.full_response_str.as_str(), "+AT: OK"),
        other => panic!("unexpected reply {:?}", other),
    }
}

#[test]
fn budget_of_plain_bytes_fills_the_buffer_and_overflows_the_result() {
    let mut driver = LoRaE5::new();
    let reply = vec![b'x'; 2000];
    let mut line = Line::answering(&reply);
    assert_eq!(run(&mut driver, &mut line, Command::CheckAlive), Err(Error::CapacityExceeded));
    assert_eq!(line.reads, 1024);
    assert_eq!(driver.incoming().len(), 1024);
    assert_eq!(driver.phase(), Phase::Failed);
}

#[test]
fn budget_of_carriage_returns_is_too_short() {
    let mut driver = LoRaE5::new();
    let reply = vec![b'\r'; 1024];
    let mut line = Line::answering(&reply);
    assert_eq!(run(&mut driver, &mut line, Command::CheckAlive), Err(Error::PacketTooShort));
    assert_eq!(line.reads, 1024);
}

#[test]
fn line_feed_as_last_byte_of_the_budget_ends_the_reply() {
    let mut driver = LoRaE5::new();
    let mut reply = b"+AT: OK".to_vec();
    reply.resize(1023, b'\r');
    reply.push(b'\n');
    let mut line = Line::answering(&reply);
    run(&mut driver, &mut line, Command::CheckAlive).unwrap();
    assert_eq!(line.reads, 1024);
    assert_eq!(driver.incoming(), b"+AT: OK");
}

#[test]
fn reply_of_exactly_the_result_capacity_is_taken() {
    let mut driver = LoRaE5::new();
    let mut reply = vec![b'a'; 100];
    reply.push(b'\n');
    let mut line = Line::answering(&reply);
    let outcome = run(&mut driver, &mut line, Command::AT_ID_READ).unwrap();
    match outcome {
        Reply::AT_ID_READ(result) => {
            assert_eq!(result.full_response.len(), 100);
            assert_eq!(result.full_response_str.len(), 100);
        }
        other => panic!("unexpected reply {:?}", other),
    }
}

#[test]
fn reply_longer_than_the_result_capacity_is_refused() {
    let mut driver = LoRaE5::new();
    let mut reply = vec![b'a'; 101];
    reply.push(b'\n');
    let mut line = Line::answering(&reply);
    assert_eq!(run(&mut driver, &mut line, Command::AT_ID_READ), Err(Error::CapacityExceeded));
    assert_eq!(driver.phase(), Phase::Failed);
}

#[test]
fn reply_that_is_not_text_is_refused() {
    let mut driver = LoRaE5::new();
    let mut line = Line::answering(b"+AT: \xff\xfe\n");
    assert_eq!(run(&mut driver, &mut line, Command::CheckAlive), Err(Error::InvalidText));
    assert_eq!(driver.phase(), Phase::Failed);
}

#[test]
fn reply_text_may_hold_more_than_ascii() {
    let mut driver = LoRaE5::new();
    let mut line = Line::answering("+AT: \u{e9}t\u{e9}\r\n".as_bytes());
    let outcome = run(&mut driver, &mut line, Command::CheckAlive).unwrap();
    match outcome {
        Reply::CheckAlive(result) => {
            assert_eq!(result.full_response_str.as_str(), "+AT: \u{e9}t\u{e9}");
            assert_eq!(result.full_response.as_slice(), "+AT: \u{e9}t\u{e9}".as_bytes());
        }
        other => panic!("unexpected reply {:?}", other),
    }
}
