use ros2_helpers::pubsub::{on_sent, on_try_recv, recv_many, send_many, TryRecv};
use std::cell::RefCell;
use std::collections::VecDeque;

// A topic whose next try-receives answer from `script`, and then `Empty`.
fn scripted(script: Vec<TryRecv<i32, String>>) -> RefCell<VecDeque<TryRecv<i32, String>>> {
    RefCell::new(script.into_iter().collect())
}

#[test]
fn send_many_sends_all_in_order() {
    let sent = RefCell::new(Vec::new());
    let send = |m: &i32| -> Result<(), String> {
        sent.borrow_mut().push(*m);
        Ok(())
    };
    assert_eq!(send_many(&vec![3, 1, 2], &send), Ok(()));
    assert_eq!(*sent.borrow(), vec![3, 1, 2]);
}

#[test]
fn send_many_stops_at_first_error() {
    let sent = RefCell::new(Vec::new());
    let send = |m: &i32| -> Result<(), String> {
        if *m < 0 {
            return Err(format!("bad {}", m));
        }
        sent.borrow_mut().push(*m);
        Ok(())
    };
    assert_eq!(send_many(&vec![1, 2, -3, 4, -5], &send), Err("bad -3".to_string()));
    assert_eq!(*sent.borrow(), vec![1, 2]);
}

#[test]
fn send_many_of_nothing_sends_nothing() {
    let calls = RefCell::new(0);
    let send = |_m: &i32| -> Result<(), String> {
        *calls.borrow_mut() += 1;
        Err("unused".to_string())
    };
    assert_eq!(send_many(&Vec::new(), &send), Ok(()));
    assert_eq!(*calls.borrow(), 0);
}

#[test]
fn recv_many_zero_is_empty_and_takes_nothing() {
    let topic = scripted(vec![TryRecv::Ready(1), TryRecv::Ready(2)]);
    let try_recv = || topic.borrow_mut().pop_front().unwrap_or(TryRecv::Empty);
    assert_eq!(recv_many(0, &try_recv), Ok(Vec::new()));
    assert_eq!(topic.borrow().len(), 2);
}

#[test]
fn recv_many_returns_fewer_when_fewer_wait() {
    let topic = scripted(vec![TryRecv::Ready(1), TryRecv::Ready(2), TryRecv::Ready(3)]);
    let try_recv = || topic.borrow_mut().pop_front().unwrap_or(TryRecv::Empty);
    assert_eq!(recv_many(5, &try_recv), Ok(vec![1, 2, 3]));
}

#[test]
fn recv_many_stops_at_limit() {
    let topic = scripted(vec![TryRecv::Ready(1), TryRecv::Ready(2), TryRecv::Ready(3)]);
    let try_recv = || topic.borrow_mut().pop_front().unwrap_or(TryRecv::Empty);
    assert_eq!(recv_many(2, &try_recv), Ok(vec![1, 2]));
    assert_eq!(topic.borrow().len(), 1);
}

#[test]
fn recv_many_error_drops_collected() {
    let topic = scripted(vec![TryRecv::Ready(1), TryRecv::Failed("down".to_string()), TryRecv::Ready(3)]);
    let try_recv = || topic.borrow_mut().pop_front().unwrap_or(TryRecv::Empty);
    assert_eq!(recv_many(10, &try_recv), Err("down".to_string()));
    assert_eq!(topic.borrow().len(), 1);
}

#[test]
fn recv_many_unbounded_drains_all_waiting() {
    let topic = scripted((0..100).map(TryRecv::Ready).collect());
    let try_recv = || topic.borrow_mut().pop_front().unwrap_or(TryRecv::Empty);
    let got = recv_many(usize::MAX, &try_recv).expect("no error");
    assert_eq!(got, (0..100).collect::<Vec<i32>>());
}

#[test]
fn recv_many_empty_channel() {
    let try_recv = || TryRecv::<i32, String>::Empty;
    assert_eq!(recv_many(3, &try_recv), Ok(Vec::new()));
}

#[test]
fn on_try_recv_collects_until_full() {
    let mut collected = vec![1];
    assert_eq!(on_try_recv::<i32, String>(&mut collected, 3, TryRecv::Ready(2)), None);
    assert_eq!(collected, vec![1, 2]);
    assert_eq!(on_try_recv::<i32, String>(&mut collected, 3, TryRecv::Ready(3)), Some(Ok(())));
    assert_eq!(collected, vec![1, 2, 3]);
}

#[test]
fn on_try_recv_stops_on_empty_and_error() {
    let mut collected = vec![7];
    assert_eq!(on_try_recv::<i32, String>(&mut collected, 5, TryRecv::Empty), Some(Ok(())));
    assert_eq!(collected, vec![7]);
    assert_eq!(
        on_try_recv::<i32, String>(&mut collected, 5, TryRecv::Failed("down".to_string())),
        Some(Err("down".to_string()))
    );
    assert_eq!(collected, vec![7]);
}

#[test]
fn on_sent_decides_the_next_step() {
    assert_eq!(on_sent::<String>(0, 3, Ok(())), None);
    assert_eq!(on_sent::<String>(2, 3, Ok(())), Some(Ok(())));
    assert_eq!(on_sent::<String>(1, 3, Err("x".to_string())), Some(Err("x".to_string())));
}
