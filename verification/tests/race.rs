use button_latch::poll::Poll;
use button_latch::race::{race, race_edge_timeout, RaceResult};
use button_latch::scheduler::{Resource, Scheduler, TaskState};
use button_latch::source::{EdgeSource, Timeout};

#[test]
fn first_listed_operand_wins_a_tie() {
    let mut sched = Scheduler::new();
    let me = sched.spawn();
    let out: Poll<RaceResult<u8, char>> = race(Poll::Ready(1), Poll::Ready('x'), &mut sched, me);
    assert_eq!(out, Poll::Ready(RaceResult::Left(1)));
}

#[test]
fn race_reports_the_side_that_completed() {
    let mut sched = Scheduler::new();
    let me = sched.spawn();
    let left: Poll<RaceResult<u8, char>> = race(Poll::Ready(7), Poll::Pending, &mut sched, me);
    assert_eq!(left, Poll::Ready(RaceResult::Left(7)));
    let right: Poll<RaceResult<u8, char>> = race(Poll::Pending, Poll::Ready('t'), &mut sched, me);
    assert_eq!(right, Poll::Ready(RaceResult::Right('t')));
    assert_eq!(sched.state(me), TaskState::Runnable);
    let none: Poll<RaceResult<u8, char>> = race(Poll::Pending, Poll::Pending, &mut sched, me);
    assert_eq!(none, Poll::Pending);
    assert_eq!(sched.state(me), TaskState::Suspended(Resource::Race));
}

#[test]
fn timeout_wins_exactly_at_its_deadline_when_no_edge_fires() {
    let mut sched = Scheduler::new();
    let me = sched.spawn();
    let mut edge = EdgeSource::new();
    let timeout = Timeout::after(100, 10);
    assert_eq!(timeout.expires_at(), 110);
    let mut now: u64 = 100;
    while now < 110 {
        assert_eq!(race_edge_timeout(&mut edge, &timeout, now, &mut sched, me), Poll::Pending);
        now += 1;
    }
    assert_eq!(
        race_edge_timeout(&mut edge, &timeout, 110, &mut sched, me),
        Poll::Ready(RaceResult::Right(()))
    );
    assert_eq!(
        race_edge_timeout(&mut edge, &timeout, 111, &mut sched, me),
        Poll::Ready(RaceResult::Right(()))
    );
}

#[test]
fn edge_wins_before_and_at_the_deadline_and_is_consumed() {
    let mut sched = Scheduler::new();
    let me = sched.spawn();
    let mut edge = EdgeSource::new();
    let timeout = Timeout::after(0, 10);
    edge.fire(&mut sched);
    assert!(edge.is_fired());
    assert_eq!(
        race_edge_timeout(&mut edge, &timeout, 3, &mut sched, me),
        Poll::Ready(RaceResult::Left(()))
    );
    assert!(!edge.is_fired());
    assert_eq!(race_edge_timeout(&mut edge, &timeout, 4, &mut sched, me), Poll::Pending);
    edge.fire(&mut sched);
    assert_eq!(
        race_edge_timeout(&mut edge, &timeout, 10, &mut sched, me),
        Poll::Ready(RaceResult::Left(()))
    );
    assert!(!edge.is_fired());
}

#[test]
fn edge_source_rearms_after_each_wait() {
    let mut sched = Scheduler::new();
    let mut edge = EdgeSource::new();
    assert_eq!(edge.wait_for_edge(), Poll::Pending);
    edge.fire(&mut sched);
    edge.fire(&mut sched);
    assert_eq!(edge.wait_for_edge(), Poll::Ready(()));
    assert_eq!(edge.wait_for_edge(), Poll::Pending);
    edge.fire(&mut sched);
    assert_eq!(edge.wait_for_edge(), Poll::Ready(()));
}

#[test]
fn edge_interrupt_wakes_the_waiters_and_runs_nothing() {
    let mut sched = Scheduler::new();
    let on_edge = sched.spawn();
    let on_race = sched.spawn();
    let on_latch = sched.spawn();
    sched.suspend(on_edge, Resource::Edge);
    sched.suspend(on_race, Resource::Race);
    sched.suspend(on_latch, Resource::Latch);
    let mut edge = EdgeSource::new();
    edge.fire(&mut sched);
    assert!(edge.is_fired());
    assert_eq!(sched.state(on_edge), TaskState::Runnable);
    assert_eq!(sched.state(on_race), TaskState::Runnable);
    assert_eq!(sched.state(on_latch), TaskState::Suspended(Resource::Latch));
}

#[test]
fn timer_interrupt_wakes_its_owner_from_the_deadline_on() {
    let mut sched = Scheduler::new();
    let owner = sched.spawn();
    let other = sched.spawn();
    sched.suspend(owner, Resource::Timeout);
    sched.suspend(other, Resource::Timeout);
    let timeout = Timeout::after(10, 5);
    assert!(!timeout.expire(&mut sched, owner, 14));
    assert_eq!(sched.state(owner), TaskState::Suspended(Resource::Timeout));
    assert!(timeout.expire(&mut sched, owner, 15));
    assert_eq!(sched.state(owner), TaskState::Runnable);
    assert_eq!(sched.state(other), TaskState::Suspended(Resource::Timeout));
}

#[test]
fn timeout_of_zero_is_ready_at_once() {
    let timeout = Timeout::after(5, 0);
    assert_eq!(timeout.poll(5), Poll::Ready(()));
    assert_eq!(timeout.poll(4), Poll::Pending);
    let last = Timeout::after(u64::MAX - 1, 1);
    assert_eq!(last.poll(u64::MAX - 1), Poll::Pending);
    assert_eq!(last.poll(u64::MAX), Poll::Ready(()));
}
