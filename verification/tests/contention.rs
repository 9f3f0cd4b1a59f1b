use pinboard::{NonEmptyPinboard, Pinboard};
use std::sync::atomic::{AtomicUsize, Ordering};
use std::sync::RwLock;

#[test]
fn readers_see_only_published_values() {
    const PRODUCERS: u32 = 3;
    const CONSUMERS: usize = 3;
    const PER_PRODUCER: u32 = 1000;
    let t = RwLock::new(Pinboard::<u32>::new_empty());
    let running = AtomicUsize::new(PRODUCERS as usize);

    crossbeam::scope(|scope| {
        for producer in 0..PRODUCERS {
            let t = &t;
            let running = &running;
            scope.spawn(move |_| {
                for i in 0..PER_PRODUCER {
                    t.write().unwrap().set(producer * PER_PRODUCER + i);
                }
                running.fetch_sub(1, Ordering::SeqCst);
            });
        }
        for _ in 0..CONSUMERS {
            let t = &t;
            let running = &running;
            scope.spawn(move |_| {
                while running.load(Ordering::SeqCst) > 0 {
                    match t.read().unwrap().read() {
                        Some(v) => assert!(v < PRODUCERS * PER_PRODUCER),
                        None => {}
                    }
                }
            });
        }
    })
    .unwrap();

    let last = t.read().unwrap().read().unwrap();
    assert_eq!(PER_PRODUCER - 1, last % PER_PRODUCER);
}

#[test]
fn two_racing_writers_leave_one_of_their_values() {
    for round in 0..200u32 {
        let a = 2 * round + 1;
        let b = 2 * round + 2;
        let t = RwLock::new(Pinboard::<u32>::new_empty());

        crossbeam::scope(|scope| {
            scope.spawn(|_| t.write().unwrap().set(a));
            scope.spawn(|_| t.write().unwrap().set(b));
        })
        .unwrap();

        let seen = t.read().unwrap().read();
        assert!(seen == Some(a) || seen == Some(b));
    }
}

#[test]
fn reader_stops_at_the_clear_and_sees_only_what_was_published() {
    let t = RwLock::new(Pinboard::<u32>::new(0));
    let seen = AtomicUsize::new(0);

    crossbeam::scope(|scope| {
        scope.spawn(|_| {
            for i in 1..100 {
                t.write().unwrap().set(i);
            }
            t.write().unwrap().clear();
        });
        scope.spawn(|_| loop {
            match t.read().unwrap().read() {
                Some(v) => {
                    assert!(v <= 99);
                    seen.fetch_add(1, Ordering::SeqCst);
                }
                None => break,
            }
        });
    })
    .unwrap();

    assert_eq!(None, t.read().unwrap().read());
}

#[test]
fn non_empty_board_is_never_seen_empty_under_writers() {
    let t = RwLock::new(NonEmptyPinboard::<u32>::new(0));
    let running = AtomicUsize::new(2);

    crossbeam::scope(|scope| {
        for writer in 0..2u32 {
            let t = &t;
            let running = &running;
            scope.spawn(move |_| {
                for i in 0..500u32 {
                    t.write().unwrap().set(writer * 500 + i);
                }
                running.fetch_sub(1, Ordering::SeqCst);
            });
        }
        scope.spawn(|_| {
            while running.load(Ordering::SeqCst) > 0 {
                let handle = t.read().unwrap().get_ref();
                assert!(*handle < 1000);
            }
        });
    })
    .unwrap();

    let last = t.read().unwrap().read();
    assert!(last == 499 || last == 999);
}

#[test]
fn handles_cross_threads_and_outlive_later_writes() {
    let t = RwLock::new(Pinboard::new(String::from("zero")));
    let handle = t.read().unwrap().get_ref().unwrap();

    crossbeam::scope(|scope| {
        scope.spawn(|_| t.write().unwrap().set(String::from("one")));
        scope.spawn(move |_| assert_eq!("zero", handle.as_str()));
    })
    .unwrap();

    assert_eq!(Some(String::from("one")), t.read().unwrap().read());
}
