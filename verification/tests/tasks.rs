use button_latch::latch::BroadcastCell;
use button_latch::poll::Poll;
use button_latch::race::RaceResult;
use button_latch::scheduler::{Resource, Scheduler, TaskState};
use button_latch::source::EdgeSource;
use button_latch::tasks::{Consumer, Cycle, Notifier, Producer, Ticker};

#[test]
fn one_press_reaches_both_consumers_once() {
    let mut cell = BroadcastCell::<(), 2>::new(2).unwrap();
    let mut sched = Scheduler::new();
    let mut edge = EdgeSource::new();
    let led_task = sched.spawn();
    let user_task = sched.spawn();
    let button_task = sched.spawn();
    let mut led = Consumer::new(led_task, cell.reader().unwrap(), 3);
    let mut user = Consumer::new(user_task, cell.reader().unwrap(), 2);
    let mut button = Producer::new(button_task, cell.writer().unwrap(), 0, 10);

    assert_eq!(sched.next(), Some(0));
    assert_eq!(led.step(&mut cell, &mut sched), None);
    assert_eq!(sched.next(), Some(1));
    assert_eq!(user.step(&mut cell, &mut sched), None);
    assert_eq!(sched.next(), Some(2));
    assert_eq!(button.step(&mut edge, &mut cell, &mut sched, 0), Poll::Pending);
    assert_eq!(sched.state(2), TaskState::Suspended(Resource::Race));
    assert_eq!(sched.next(), None);

    edge.fire(&mut sched);
    assert_eq!(sched.next(), Some(2));
    assert_eq!(
        button.step(&mut edge, &mut cell, &mut sched, 4),
        Poll::Ready(RaceResult::Left(()))
    );
    assert_eq!(cell.version(), 1);
    assert_eq!(sched.state(0), TaskState::Runnable);
    assert_eq!(sched.state(1), TaskState::Runnable);
    assert_eq!(sched.state(2), TaskState::Running);
    assert_eq!(sched.next(), Some(2));
    assert_eq!(button.step(&mut edge, &mut cell, &mut sched, 4), Poll::Pending);
    assert_eq!(cell.version(), 1);

    assert_eq!(sched.next(), Some(0));
    assert_eq!(led.step(&mut cell, &mut sched), Some(0));
    assert_eq!(sched.next(), Some(0));
    assert_eq!(led.step(&mut cell, &mut sched), None);
    assert_eq!(sched.next(), Some(1));
    assert_eq!(user.step(&mut cell, &mut sched), Some(0));
    assert_eq!(sched.next(), Some(1));
    assert_eq!(user.step(&mut cell, &mut sched), None);
    assert_eq!(sched.next(), None);
    assert_eq!(led.next_effect(), 1);
    assert_eq!(user.next_effect(), 1);
}

#[test]
fn producer_writes_on_timeout_and_rearms() {
    let mut cell = BroadcastCell::<(), 1>::new(1).unwrap();
    let mut sched = Scheduler::new();
    let mut edge = EdgeSource::new();
    let task = sched.spawn();
    let mut button = Producer::new(task, cell.writer().unwrap(), 0, 10);
    assert_eq!(button.step(&mut edge, &mut cell, &mut sched, 9), Poll::Pending);
    assert_eq!(cell.version(), 0);
    assert_eq!(sched.state(task), TaskState::Suspended(Resource::Race));
    assert!(!button.tick(&mut sched, 9));
    assert_eq!(sched.state(task), TaskState::Suspended(Resource::Race));
    assert!(button.tick(&mut sched, 10));
    assert_eq!(sched.state(task), TaskState::Runnable);
    assert_eq!(button.expires_at(), 10);
    assert_eq!(button.wait_ticks(), 10);
    assert_eq!(
        button.step(&mut edge, &mut cell, &mut sched, 10),
        Poll::Ready(RaceResult::Right(()))
    );
    assert_eq!(cell.version(), 1);
    assert_eq!(button.step(&mut edge, &mut cell, &mut sched, 19), Poll::Pending);
    assert_eq!(
        button.step(&mut edge, &mut cell, &mut sched, 20),
        Poll::Ready(RaceResult::Right(()))
    );
    assert_eq!(cell.version(), 2);
}

#[test]
fn consumer_cycles_through_its_effects() {
    let mut cell = BroadcastCell::<u8, 1>::new(1).unwrap();
    let mut sched = Scheduler::new();
    let task = sched.spawn();
    let tx = cell.writer().unwrap();
    let mut led = Consumer::new(task, cell.reader().unwrap(), 3);
    let mut seen = Vec::new();
    let mut press: u8 = 0;
    while press < 7 {
        tx.send(&mut cell, &mut sched, press);
        seen.push(led.step(&mut cell, &mut sched));
        press += 1;
    }
    assert_eq!(
        seen,
        vec![Some(0), Some(1), Some(2), Some(0), Some(1), Some(2), Some(0)]
    );
    tx.send(&mut cell, &mut sched, 1);
    tx.send(&mut cell, &mut sched, 2);
    assert_eq!(led.step(&mut cell, &mut sched), Some(1));
    assert_eq!(led.step(&mut cell, &mut sched), None);
    assert_eq!(sched.state(task), TaskState::Suspended(Resource::Latch));
}

#[test]
fn ticker_completes_once_per_period() {
    let mut sched = Scheduler::new();
    let task = sched.spawn();
    let mut ticker = Ticker::new(task, 0, 500);
    assert!(ticker.step(&mut sched, 0));
    assert!(!ticker.step(&mut sched, 499));
    assert_eq!(sched.state(task), TaskState::Suspended(Resource::Timeout));
    assert_eq!(ticker.due_at(), 500);
    assert!(!ticker.tick(&mut sched, 499));
    assert!(ticker.tick(&mut sched, 500));
    assert_eq!(sched.state(task), TaskState::Runnable);
    assert!(ticker.step(&mut sched, 500));
    assert!(!ticker.step(&mut sched, 501));
    assert!(ticker.step(&mut sched, 1000));
}

#[test]
fn notifier_writes_once_per_edge_and_never_on_its_own() {
    let mut cell = BroadcastCell::<(), 1>::new(1).unwrap();
    let mut sched = Scheduler::new();
    let mut edge = EdgeSource::new();
    let led_task = sched.spawn();
    let button_task = sched.spawn();
    let mut led = Consumer::new(led_task, cell.reader().unwrap(), 3);
    let button = Notifier::new(button_task, cell.writer().unwrap());
    assert_eq!(led.step(&mut cell, &mut sched), None);
    assert!(!button.step(&mut edge, &mut cell, &mut sched));
    assert_eq!(sched.state(button_task), TaskState::Suspended(Resource::Edge));
    assert_eq!(sched.next(), None);
    edge.fire(&mut sched);
    assert_eq!(sched.next(), Some(button_task));
    assert!(button.step(&mut edge, &mut cell, &mut sched));
    assert_eq!(cell.version(), 1);
    assert_eq!(sched.next(), Some(button_task));
    assert!(!button.step(&mut edge, &mut cell, &mut sched));
    assert_eq!(cell.version(), 1);
    assert_eq!(sched.state(led_task), TaskState::Runnable);
    assert_eq!(sched.next(), Some(led_task));
    assert_eq!(led.step(&mut cell, &mut sched), Some(0));
}

#[test]
fn cycle_wraps_round_after_its_last_effect() {
    let mut colors = Cycle::new(3);
    assert_eq!(colors.peek(), 0);
    assert_eq!(colors.advance(), 0);
    assert_eq!(colors.advance(), 1);
    assert_eq!(colors.peek(), 2);
    assert_eq!(colors.advance(), 2);
    assert_eq!(colors.advance(), 0);
    let mut only = Cycle::new(1);
    assert_eq!(only.advance(), 0);
    assert_eq!(only.advance(), 0);
}
