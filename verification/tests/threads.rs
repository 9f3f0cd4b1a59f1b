use pinboard::{NonEmptyPinboard, Pinboard};
use std::sync::RwLock;
use std::time::Duration;

fn pause(millis: u64) {
    crossbeam::channel::after(Duration::from_millis(millis))
        .recv()
        .unwrap();
}

fn consume(t: &RwLock<Pinboard<u32>>) {
    loop {
        match t.read().unwrap().read() {
            Some(_) => {}
            None => break,
        }
        pause(1);
    }
}

fn produce(t: &RwLock<Pinboard<u32>>) {
    for i in 1..100 {
        t.write().unwrap().set(i);
        pause(2);
    }
    t.write().unwrap().clear();
}

#[test]
fn single_producer_single_consumer() {
    let t = RwLock::new(Pinboard::<u32>::new(0));

    crossbeam::scope(|scope| {
        scope.spawn(|_| produce(&t));
        scope.spawn(|_| consume(&t));
    })
    .unwrap();
}

#[test]
fn multi_producer_single_consumer() {
    let t = RwLock::new(Pinboard::<u32>::new(0));

    crossbeam::scope(|scope| {
        scope.spawn(|_| produce(&t));
        scope.spawn(|_| produce(&t));
        scope.spawn(|_| produce(&t));
        scope.spawn(|_| consume(&t));
    })
    .unwrap();
}

#[test]
fn single_producer_multi_consumer() {
    let t = RwLock::new(Pinboard::<u32>::new(0));

    crossbeam::scope(|scope| {
        scope.spawn(|_| produce(&t));
        scope.spawn(|_| consume(&t));
        scope.spawn(|_| consume(&t));
        scope.spawn(|_| consume(&t));
    })
    .unwrap();
}

#[test]
fn multi_producer_multi_consumer() {
    let t = RwLock::new(Pinboard::<u32>::new(0));

    crossbeam::scope(|scope| {
        scope.spawn(|_| produce(&t));
        scope.spawn(|_| produce(&t));
        scope.spawn(|_| produce(&t));
        scope.spawn(|_| consume(&t));
        scope.spawn(|_| consume(&t));
        scope.spawn(|_| consume(&t));
    })
    .unwrap();
}
