//! The stream beside a real timer: a Tokio interval set to the stream's
//! period is polled inside a runtime, and the stream is told what it found.

use num_stream::{num_stream, Emission, NumStream, TimerPoll};
use std::future::poll_fn;
use std::task::{Context, Poll};
use std::time::{Duration, Instant};
use tokio::runtime::{Builder, Runtime};
use tokio::time::{interval, Interval};

fn runtime() -> Runtime {
    Builder::new_current_thread().enable_time().build().unwrap()
}

fn start(rt: &Runtime, initial: u64, increment: u64, period: Duration) -> (NumStream, Interval) {
    let _guard = rt.enter();
    let stream = num_stream(initial, increment, period);
    let timer = interval(stream.period());
    (stream, timer)
}

fn poll(stream: &mut NumStream, timer: &mut Interval, cx: &mut Context<'_>) -> Emission {
    let polled = match timer.poll_tick(cx) {
        Poll::Pending => TimerPoll::Pending,
        Poll::Ready(_) => TimerPoll::Tick,
    };
    stream.step(polled)
}

fn next(rt: &Runtime, stream: &mut NumStream, timer: &mut Interval) -> u64 {
    rt.block_on(poll_fn(|cx| match poll(stream, timer, cx) {
        Emission::Pending => Poll::Pending,
        Emission::Item(value) => Poll::Ready(value),
    }))
}

#[test]
fn first_value_comes_at_once() {
    let rt = runtime();
    let started = Instant::now();
    let (mut stream, mut timer) = start(&rt, 17, 4, Duration::from_secs(3600));
    assert_eq!(next(&rt, &mut stream, &mut timer), 17);
    assert!(started.elapsed() < Duration::from_secs(10));
}

#[test]
fn second_value_waits_for_the_period() {
    let rt = runtime();
    let (mut stream, mut timer) = start(&rt, 17, 4, Duration::from_secs(3600));
    assert_eq!(next(&rt, &mut stream, &mut timer), 17);
    let mut polls = 0;
    let seen = rt.block_on(poll_fn(|cx| {
        polls += 1;
        let seen = poll(&mut stream, &mut timer, cx);
        if polls < 3 && seen == Emission::Pending {
            cx.waker().wake_by_ref();
            return Poll::Pending;
        }
        Poll::Ready(seen)
    }));
    assert_eq!(seen, Emission::Pending);
    assert_eq!(polls, 3);
    assert_eq!(stream.current(), 21);
}

#[test]
fn polled_values_run_zero_three_six_nine_twelve() {
    let rt = runtime();
    let period = Duration::from_millis(500);
    let started = Instant::now();
    let (mut stream, mut timer) = start(&rt, 0, 3, period);
    for n in 0..5u32 {
        let value = next(&rt, &mut stream, &mut timer);
        assert_eq!(value, 3 * n as u64);
        assert!(started.elapsed() >= period * n, "value {} came early", n);
    }
}

#[test]
fn values_are_never_ahead_of_the_schedule() {
    let rt = runtime();
    let period = Duration::from_millis(40);
    let started = Instant::now();
    let (mut stream, mut timer) = start(&rt, 1000, 0, period);
    for n in 0..10u32 {
        assert_eq!(next(&rt, &mut stream, &mut timer), 1000);
        assert!(started.elapsed() >= period * n, "value {} came early", n);
    }
}

#[test]
fn dropping_a_waiting_stream_is_quiet() {
    let rt = runtime();
    let (mut stream, mut timer) = start(&rt, 0, 1, Duration::from_secs(3600));
    assert_eq!(next(&rt, &mut stream, &mut timer), 0);
    let seen = rt.block_on(poll_fn(|cx| Poll::Ready(poll(&mut stream, &mut timer, cx))));
    assert_eq!(seen, Emission::Pending);
    drop(timer);
    drop(stream);
    drop(rt);
}
