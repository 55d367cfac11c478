use std::cell::RefCell;
use std::rc::Rc;

use wcferry::error::Error;
use wcferry::transport::{call, connect, Socket, TransportError, TIMEOUT_MS};
use wcferry::wechat::WeChat;

/// What was done to a socket, in order.
#[derive(Clone, Debug, PartialEq)]
enum Step {
    Created,
    RecvTimeout(u64),
    SendTimeout(u64),
    Dialed(String),
    Sent(Vec<u8>),
    Received,
    Closed,
}

/// A socket that keeps a record of what was done to it and fails at the
/// step of number `FAIL`: 0 making it, 1 and 2 the timeouts, 3 dialing,
/// 4 sending, 5 receiving. A socket with another number never fails and
/// answers every message with the same bytes, reversed.
#[derive(Clone)]
struct Recorded<const FAIL: u8> {
    steps: Rc<RefCell<Vec<Step>>>,
    last: Option<Vec<u8>>,
}

impl<const FAIL: u8> Socket for Recorded<FAIL> {
    fn create() -> Option<Self> {
        if FAIL == 0 {
            return None;
        }
        Some(Recorded { steps: Rc::new(RefCell::new(vec![Step::Created])), last: None })
    }

    fn set_recv_timeout(&mut self, millis: u64) -> bool {
        self.steps.borrow_mut().push(Step::RecvTimeout(millis));
        FAIL != 1
    }

    fn set_send_timeout(&mut self, millis: u64) -> bool {
        self.steps.borrow_mut().push(Step::SendTimeout(millis));
        FAIL != 2
    }

    fn dial(&mut self, url: &str) -> bool {
        self.steps.borrow_mut().push(Step::Dialed(String::from(url)));
        FAIL != 3
    }

    fn send(&mut self, bytes: &[u8]) -> bool {
        if FAIL == 4 {
            return false;
        }
        self.steps.borrow_mut().push(Step::Sent(bytes.to_vec()));
        self.last = Some(bytes.iter().rev().copied().collect());
        true
    }

    fn recv(&mut self) -> Option<Vec<u8>> {
        self.steps.borrow_mut().push(Step::Received);
        if FAIL == 5 {
            return None;
        }
        self.last.take()
    }

    fn close(&mut self) {
        self.steps.borrow_mut().push(Step::Closed);
    }
}

#[test]
fn the_timeout_is_five_seconds() {
    assert_eq!(TIMEOUT_MS, 5000);
}

#[test]
fn connect_bounds_receiving_and_sending_before_it_dials() {
    let socket: Recorded<9> = connect("tcp://127.0.0.1:10086").unwrap();
    assert_eq!(
        *socket.steps.borrow(),
        vec![
            Step::Created,
            Step::RecvTimeout(5000),
            Step::SendTimeout(5000),
            Step::Dialed(String::from("tcp://127.0.0.1:10086")),
        ]
    );
}

#[test]
fn connect_fails_at_any_step_that_fails() {
    assert!(matches!(connect::<Recorded<0>>("a"), Err(TransportError::ConnectFailed)));
    assert!(matches!(connect::<Recorded<1>>("a"), Err(TransportError::ConnectFailed)));
    assert!(matches!(connect::<Recorded<2>>("a"), Err(TransportError::ConnectFailed)));
    assert!(matches!(connect::<Recorded<3>>("a"), Err(TransportError::ConnectFailed)));
    assert!(connect::<Recorded<4>>("a").is_ok());
    assert!(connect::<Recorded<5>>("a").is_ok());
}

#[test]
fn session_is_not_opened_where_the_worker_cannot_be_reached() {
    for failed in [
        WeChat::<Recorded<0>>::new(false, String::from("wcf.exe")).err(),
        WeChat::<Recorded<1>>::new(false, String::from("wcf.exe")).err().or(None),
    ] {
        assert_eq!(failed, Some(Error::ConnectFailed));
    }
    assert_eq!(
        WeChat::<Recorded<3>>::new(true, String::from("wcf.exe")).err(),
        Some(Error::ConnectFailed)
    );
}

#[test]
fn call_sends_once_and_hands_back_what_it_receives() {
    let mut socket: Recorded<9> = connect("a").unwrap();
    assert_eq!(call(&mut socket, &[1, 2, 3]), Ok(vec![3, 2, 1]));
    assert_eq!(call(&mut socket, &[]), Ok(vec![]));
    let steps = socket.steps.borrow();
    assert_eq!(
        steps[4..],
        [Step::Sent(vec![1, 2, 3]), Step::Received, Step::Sent(vec![]), Step::Received]
    );
}

#[test]
fn call_that_cannot_send_does_not_wait_for_a_reply() {
    let mut socket: Recorded<4> = connect("a").unwrap();
    assert_eq!(call(&mut socket, b"ping"), Err(TransportError::SendFailed));
    assert_eq!(socket.steps.borrow().len(), 4);
}

#[test]
fn call_on_a_silent_peer_fails_on_the_receiving_leg() {
    let mut socket: Recorded<5> = connect("a").unwrap();
    assert_eq!(call(&mut socket, b"ping"), Err(TransportError::RecvFailed));
    let steps = socket.steps.borrow();
    assert_eq!(steps[4..], [Step::Sent(b"ping".to_vec()), Step::Received]);
}
