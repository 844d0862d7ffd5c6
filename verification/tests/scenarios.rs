use crossbeam::channel::unbounded;
use drop_worker::{recv_data, try_err, DropWorker, Flow};

#[test]
fn polling_worker_stops_after_teardown() {
    let (done_tx, done_rx) = unbounded::<u32>();
    let (mut handle, receiver) = DropWorker::<u32>::new();
    let started = std::time::Instant::now();
    crossbeam::thread::scope(|scope| {
        let worker = scope.spawn(move |_| {
            loop {
                match try_err(&receiver) {
                    Flow::Exit => {
                        done_tx.send(1).expect("the report channel is alive");
                        return;
                    }
                    Flow::Continue => {}
                }
            }
        });
        handle.release_sender();
        worker.join().expect("the worker did not fault");
        handle.mark_joined();
    })
    .expect("no worker panicked");
    assert!(handle.is_joined());
    // join-before-return: the worker's final report is already waiting
    assert_eq!(done_rx.try_recv(), Ok(1));
    assert!(started.elapsed().as_secs() < 10);
}

#[test]
fn blocking_worker_sees_one_item_then_exits() {
    let (seen_tx, seen_rx) = unbounded::<u32>();
    let (mut handle, receiver) = DropWorker::<u32>::new();
    crossbeam::thread::scope(|scope| {
        let worker = scope.spawn(move |_| {
            loop {
                match recv_data(&receiver) {
                    Some(value) => {
                        assert_eq!(value, 5);
                        seen_tx.send(value).expect("the report channel is alive");
                    }
                    None => return,
                }
            }
        });
        handle.send(5).expect("the worker is alive");
        handle.release_sender();
        worker.join().expect("the worker did not fault");
        handle.mark_joined();
    })
    .expect("no worker panicked");
    let seen: Vec<u32> = seen_rx.try_iter().collect();
    assert_eq!(seen, vec![5]);
}

#[test]
fn teardown_wakes_a_blocked_worker() {
    let (exit_tx, exit_rx) = unbounded::<u32>();
    let (mut handle, receiver) = DropWorker::<u32>::new();
    crossbeam::thread::scope(|scope| {
        let worker = scope.spawn(move |_| {
            // nothing is ever sent: only the teardown's disconnect can resolve this
            match recv_data(&receiver) {
                Some(_) => panic!("nothing was sent"),
                None => exit_tx.send(1).expect("the report channel is alive"),
            }
        });
        handle.release_sender();
        worker.join().expect("the worker did not fault");
        handle.mark_joined();
    })
    .expect("no worker panicked");
    assert_eq!(exit_rx.try_recv(), Ok(1));
}

#[test]
fn many_handles_tear_down_cleanly() {
    let started = std::time::Instant::now();
    for _ in 0..1000u32 {
        let (mut handle, receiver) = DropWorker::<u32>::new();
        crossbeam::thread::scope(|scope| {
            let worker = scope.spawn(move |_| {
                // a trivial worker: returns at once without checking the channel
                drop(receiver);
            });
            handle.release_sender();
            worker.join().expect("the worker did not fault");
            handle.mark_joined();
        })
        .expect("no worker panicked");
        assert!(handle.is_released());
        assert!(handle.is_joined());
    }
    assert!(started.elapsed().as_secs() < 15);
}
