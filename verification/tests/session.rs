use coop_runtime::error::SysError;
use coop_runtime::executor::new_executor_and_spawner;
use coop_runtime::executor::PollOutcome;
use coop_runtime::reactor::reactor_main_loop;
use coop_runtime::reactor::Dispatch;
use coop_runtime::reactor::EpollEventType;
use coop_runtime::reactor::Reactor;
use coop_runtime::session::marker_bytes;
use coop_runtime::session::ping_bytes;
use coop_runtime::session::reply;
use coop_runtime::session::Action;
use coop_runtime::session::EchoSession;
use coop_runtime::session::KeepaliveSession;
use coop_runtime::session::BUFFER_SIZE;
use coop_runtime::session::KEEPALIVE_PINGS;
use coop_runtime::session::MARKER_LEN;
use coop_runtime::session::PING_LEN;
use coop_runtime::tcp_listener::Attempt;
use coop_runtime::tcp_listener::Ipv4Addr;
use coop_runtime::tcp_listener::Poll;
use coop_runtime::tcp_listener::Progress;
use coop_runtime::tcp_listener::Syscall;
use coop_runtime::tcp_listener::TcpListener;
use coop_runtime::tcp_listener::TcpStream;

/// Runs an echo session over `chunks`, one per read. Every write takes at
/// most `limit` bytes of what it is given.
fn serve_with(chunks: &[&[u8]], limit: usize) -> Vec<u8> {
    let mut sent: Vec<u8> = Vec::new();
    let mut buf = [0u8; BUFFER_SIZE];
    let marker = marker_bytes();
    let mut session = EchoSession::new();
    let mut input = chunks.iter();
    loop {
        match session.action() {
            Action::Read => {
                let n = match input.next() {
                    Some(chunk) => {
                        buf[..chunk.len()].copy_from_slice(chunk);
                        chunk.len()
                    }
                    None => 0,
                };
                session = session.resume(Ok(n));
            }
            Action::WriteMarker { from } => {
                let given = &marker[from..];
                let n = given.len().min(limit);
                sent.extend_from_slice(&given[..n]);
                session = session.resume(Ok(n));
            }
            Action::WritePayload { from, len } => {
                let given = &buf[from..len];
                let n = given.len().min(limit);
                sent.extend_from_slice(&given[..n]);
                session = session.resume(Ok(n));
            }
            Action::WritePing { from: _ } => panic!("an echo session sends no ping"),
            Action::Finish(outcome) => {
                assert_eq!(outcome, Ok(()));
                return sent;
            }
        }
    }
}

fn serve(chunks: &[&[u8]]) -> Vec<u8> {
    serve_with(chunks, usize::MAX)
}

#[test]
fn marker_and_ping_are_the_fixed_strings() {
    assert_eq!(marker_bytes(), b"FromServer: ".to_vec());
    assert_eq!(ping_bytes(), b"pingFromServer".to_vec());
    assert_eq!(BUFFER_SIZE, 1024);
    assert_eq!(KEEPALIVE_PINGS, 20);
    assert_eq!(MARKER_LEN, marker_bytes().len());
    assert_eq!(PING_LEN, ping_bytes().len());
}

#[test]
fn reply_is_marker_then_input() {
    assert_eq!(reply(b"hi"), b"FromServer: hi".to_vec());
    assert_eq!(reply(b""), b"FromServer: ".to_vec());
    assert_eq!(reply(&[0u8, 255u8, 10u8]), b"FromServer: \x00\xff\x0a".to_vec());
}

#[test]
fn echo_session_answers_each_chunk() {
    let session = EchoSession::new();
    assert_eq!(session.action(), Action::Read);
    let session = session.resume(Ok(2));
    assert_eq!(session, EchoSession::Marking { len: 2, sent: 0 });
    assert_eq!(session.action(), Action::WriteMarker { from: 0 });
    let session = session.resume(Ok(12));
    assert_eq!(session, EchoSession::Echoing { len: 2, sent: 0 });
    assert_eq!(session.action(), Action::WritePayload { from: 0, len: 2 });
    let session = session.resume(Ok(2));
    assert_eq!(session, EchoSession::Reading);
}

#[test]
fn echo_session_ends_on_zero_byte_read() {
    let session = EchoSession::new().resume(Ok(0));
    assert_eq!(session, EchoSession::Finished(Ok(())));
    assert_eq!(session.action(), Action::Finish(Ok(())));
    assert_eq!(session.resume(Ok(5)), EchoSession::Finished(Ok(())));
    assert_eq!(session.resume(Err(SysError::new(9))), EchoSession::Finished(Ok(())));
}

#[test]
fn echo_session_ends_with_the_failure() {
    let reset = SysError::new(104);
    assert_eq!(EchoSession::Reading.resume(Err(reset)), EchoSession::Finished(Err(reset)));
    assert_eq!(
        EchoSession::Marking { len: 3, sent: 5 }.resume(Err(reset)),
        EchoSession::Finished(Err(reset))
    );
    assert_eq!(
        EchoSession::Echoing { len: 3, sent: 1 }.resume(Err(reset)),
        EchoSession::Finished(Err(reset))
    );
    assert_eq!(EchoSession::Finished(Err(reset)).action(), Action::Finish(Err(reset)));
}

#[test]
fn echo_round_trip_keeps_every_byte() {
    assert_eq!(serve(&[b"hi"]), b"FromServer: hi".to_vec());
    assert_eq!(serve(&[b"a", b"bc"]), b"FromServer: aFromServer: bc".to_vec());
    assert_eq!(serve(&[]), Vec::<u8>::new());
    let all: Vec<u8> = (0..=255u8).collect();
    assert_eq!(serve(&[&all]), reply(&all));
}

#[test]
fn concurrent_connections_each_get_their_own_bytes() {
    let inputs: Vec<Vec<u8>> = (0..8u8).map(|i| vec![b'c', b'0' + i]).collect();
    for input in inputs.iter() {
        let mut expected = b"FromServer: ".to_vec();
        expected.extend_from_slice(input);
        assert_eq!(serve(&[input]), expected);
    }
}

#[test]
fn keepalive_session_sends_twenty_pings() {
    let mut session = KeepaliveSession::new();
    let mut pings = 0;
    loop {
        match session.action() {
            Action::WritePing { from } => {
                assert_eq!(from, 0);
                pings += 1;
                session = session.resume(Ok(14));
            }
            Action::Finish(outcome) => {
                assert_eq!(outcome, Ok(()));
                break;
            }
            other => panic!("unexpected {:?}", other),
        }
    }
    assert_eq!(pings, 20);
    assert_eq!(session, KeepaliveSession::Pinging { sent: 20, offset: 0 });
    assert_eq!(session.resume(Ok(14)), KeepaliveSession::Finished(Ok(())));
}

#[test]
fn keepalive_session_ends_with_the_failure() {
    let broken = SysError::new(32);
    let session = KeepaliveSession::new().resume(Ok(14)).resume(Err(broken));
    assert_eq!(session, KeepaliveSession::Finished(Err(broken)));
    assert_eq!(session.action(), Action::Finish(Err(broken)));
    assert_eq!(session.resume(Ok(14)), KeepaliveSession::Finished(Err(broken)));
}

#[test]
fn echo_server_scenario() {
    // Bind on 0.0.0.0:8080.
    let mut progress = Progress::Call(TcpListener::bind(Ipv4Addr::new(0, 0, 0, 0), 8080));
    let mut calls: Vec<Syscall> = Vec::new();
    let listener = loop {
        match progress {
            Progress::Call(bind) => {
                calls.push(bind.request());
                let result = match bind.request() {
                    Syscall::Socket => Ok(3),
                    Syscall::GetFlags { fd: _ } => Ok(2),
                    _ => Ok(0),
                };
                progress = bind.advance(result);
            }
            Progress::Done(outcome) => break outcome.unwrap(),
        }
    };
    assert_eq!(calls.len(), 6);
    assert_eq!(listener.as_raw_fd(), 3);
    assert!(listener.is_open());

    let (mut executor, spawner) = new_executor_and_spawner::<&str>();
    let mut reactor: Reactor<u64> = Reactor::new();
    let accept_loop = spawner.spawn(&mut executor, "accept loop").unwrap();

    // No client yet: the accept loop suspends on the listener.
    let task = executor.run().unwrap();
    assert_eq!(task.id, accept_loop);
    let attempt = listener.incoming().next();
    assert_eq!(
        attempt.poll(Err(SysError::new(11))),
        Attempt::Register { fd: 3, interest: EpollEventType::In }
    );
    assert_eq!(attempt.suspend(&mut reactor, task.id, Ok(())), Poll::Pending);
    assert_eq!(executor.settle(task.id, PollOutcome::Pending(task.future)), Ok(None));
    assert_eq!(executor.run(), None);

    // The client connects: the listener is reported and the loop resumes.
    let actions = reactor_main_loop(&mut reactor, &vec![3]);
    assert_eq!(
        actions,
        vec![Dispatch::Wake { fd: 3, interest: EpollEventType::In, waker: accept_loop }]
    );
    assert!(executor.wake(accept_loop));
    let task = executor.run().unwrap();
    let attempt = listener.incoming().next();
    let accepted = match attempt.poll(Ok(4)) {
        Attempt::Ready(Ok(accepted)) => accepted,
        other => panic!("unexpected {:?}", other),
    };
    let accepted = match accepted.advance(Ok(2)) {
        Progress::Call(next) => next,
        Progress::Done(_) => panic!("ended early"),
    };
    let stream = match accepted.advance(Ok(0)) {
        Progress::Done(Ok(stream)) => stream,
        other => panic!("unexpected {:?}", other),
    };
    assert_eq!(stream.as_raw_fd(), 4);
    assert!(stream.is_open());
    let handler = spawner.spawn(&mut executor, "handler").unwrap();

    // The loop goes back to accepting and suspends again.
    assert_eq!(attempt.suspend(&mut reactor, task.id, Ok(())), Poll::Pending);
    assert_eq!(executor.settle(task.id, PollOutcome::Pending(task.future)), Ok(None));

    // The handler reads "hi" and answers with the marker and "hi".
    let task = executor.run().unwrap();
    assert_eq!(task.id, handler);
    let mut buf = [0u8; BUFFER_SIZE];
    let mut sent: Vec<u8> = Vec::new();
    let mut session = EchoSession::new();
    assert_eq!(session.action(), Action::Read);
    buf[..2].copy_from_slice(b"hi");
    let n = match stream.read(&mut buf).poll(Ok(2)) {
        Attempt::Ready(Ok(n)) => n,
        other => panic!("unexpected {:?}", other),
    };
    session = session.resume(Ok(n));
    assert_eq!(session.action(), Action::WriteMarker { from: 0 });
    sent.extend_from_slice(&marker_bytes());
    session = session.resume(Ok(12));
    assert_eq!(session.action(), Action::WritePayload { from: 0, len: 2 });
    sent.extend_from_slice(&buf[..2]);
    session = session.resume(Ok(2));
    assert_eq!(sent, b"FromServer: hi".to_vec());

    // The client closes its write side: a read of zero bytes ends the handler.
    assert_eq!(session.action(), Action::Read);
    let n = match stream.read(&mut buf).poll(Ok(0)) {
        Attempt::Ready(Ok(n)) => n,
        other => panic!("unexpected {:?}", other),
    };
    assert_eq!(n, 0);
    session = session.resume(Ok(n));
    assert_eq!(session.action(), Action::Finish(Ok(())));
    assert_eq!(executor.settle(task.id, PollOutcome::Ready(Ok(()))), Ok(None));
    let mut stream = stream;
    assert_eq!(stream.close(), Some(Syscall::Close { fd: 4 }));
    assert_eq!(stream.close(), None);

    // The listener goes on accepting.
    assert!(reactor.is_registered(3));
    let actions = reactor_main_loop(&mut reactor, &vec![3]);
    assert_eq!(actions.len(), 1);
    assert!(executor.wake(accept_loop));
    assert_eq!(executor.run().unwrap().id, accept_loop);
    let again = listener.incoming().next();
    assert!(matches!(again.poll(Ok(5)), Attempt::Ready(Ok(_))));
}

#[test]
fn short_marker_write_is_continued() {
    let session = EchoSession::new().resume(Ok(2));
    let session = session.resume(Ok(5));
    assert_eq!(session, EchoSession::Marking { len: 2, sent: 5 });
    assert_eq!(session.action(), Action::WriteMarker { from: 5 });
    let session = session.resume(Ok(6));
    assert_eq!(session, EchoSession::Marking { len: 2, sent: 11 });
    assert_eq!(session.action(), Action::WriteMarker { from: 11 });
    let session = session.resume(Ok(1));
    assert_eq!(session, EchoSession::Echoing { len: 2, sent: 0 });
}

#[test]
fn short_payload_write_is_continued() {
    let session = EchoSession::Echoing { len: 10, sent: 0 };
    let session = session.resume(Ok(4));
    assert_eq!(session, EchoSession::Echoing { len: 10, sent: 4 });
    assert_eq!(session.action(), Action::WritePayload { from: 4, len: 10 });
    let session = session.resume(Ok(5));
    assert_eq!(session.action(), Action::WritePayload { from: 9, len: 10 });
    assert_eq!(session.resume(Ok(1)), EchoSession::Reading);
}

#[test]
fn write_of_no_bytes_changes_nothing() {
    let marking = EchoSession::Marking { len: 3, sent: 4 };
    assert_eq!(marking.resume(Ok(0)), marking);
    let echoing = EchoSession::Echoing { len: 3, sent: 1 };
    assert_eq!(echoing.resume(Ok(0)), echoing);
}

#[test]
fn echo_round_trip_survives_short_writes() {
    assert_eq!(serve_with(&[b"hi"], 1), b"FromServer: hi".to_vec());
    assert_eq!(serve_with(&[b"hi"], 5), b"FromServer: hi".to_vec());
    assert_eq!(serve_with(&[b"hi"], 11), b"FromServer: hi".to_vec());
    assert_eq!(serve_with(&[b"abc", b"defgh"], 2), b"FromServer: abcFromServer: defgh".to_vec());
    let all: Vec<u8> = (0..=255u8).collect();
    for limit in [1usize, 3, 7, 12, 13, 100, 255, 256] {
        assert_eq!(serve_with(&[&all], limit), reply(&all));
    }
    let full = [0xA5u8; BUFFER_SIZE];
    assert_eq!(serve_with(&[&full], 1000), reply(&full));
}

#[test]
fn read_never_claims_more_than_the_buffer() {
    let session = EchoSession::new().resume(Ok(BUFFER_SIZE + 1));
    assert_eq!(session, EchoSession::Marking { len: BUFFER_SIZE, sent: 0 });
    let session = EchoSession::new().resume(Ok(BUFFER_SIZE));
    assert_eq!(session, EchoSession::Marking { len: BUFFER_SIZE, sent: 0 });
}

#[test]
fn short_ping_write_is_continued() {
    let session = KeepaliveSession::new().resume(Ok(4));
    assert_eq!(session, KeepaliveSession::Pinging { sent: 0, offset: 4 });
    assert_eq!(session.action(), Action::WritePing { from: 4 });
    let session = session.resume(Ok(9));
    assert_eq!(session, KeepaliveSession::Pinging { sent: 0, offset: 13 });
    let session = session.resume(Ok(1));
    assert_eq!(session, KeepaliveSession::Pinging { sent: 1, offset: 0 });
    assert_eq!(session.action(), Action::WritePing { from: 0 });
}
