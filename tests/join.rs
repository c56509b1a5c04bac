use tryjoin::{try_join, Action, Event, Progress, Slot, TryJoin};

/// Drives a join through one resumption with scripted operations: each
/// operation is a list of reports, taken from the front each time the join
/// asks for it. Returns what the join yields and how many times each
/// operation was resumed.
fn resume<AR, BR, E>(
    j: &mut TryJoin<Vec<Progress<Result<AR, E>>>, Vec<Progress<Result<BR, E>>>, AR, BR>,
) -> (Progress<Result<(AR, BR), E>>, usize, usize) {
    assert!(!j.is_finished(), "resumed after completion");
    let (mut polled_a, mut polled_b) = (0, 0);
    let mut event = Event::Resumed;
    loop {
        event = match j.step(event) {
            Action::ResumeA => match j {
                TryJoin::Active { a: Slot::Pending(ops), .. } => {
                    polled_a += 1;
                    Event::AReported(ops.remove(0))
                }
                _ => unreachable!(),
            },
            Action::ResumeB => match j {
                TryJoin::Active { b: Slot::Pending(ops), .. } => {
                    polled_b += 1;
                    Event::BReported(ops.remove(0))
                }
                _ => unreachable!(),
            },
            Action::Yield(r) => return (Progress::Ready(r), polled_a, polled_b),
            Action::NotReady => return (Progress::Pending, polled_a, polled_b),
        };
    }
}

fn not_ready<T>(n: usize, last: Progress<T>) -> Vec<Progress<T>> {
    let mut v: Vec<Progress<T>> = (0..n).map(|_| Progress::Pending).collect();
    v.push(last);
    v
}

fn is_pending<T>(p: &Progress<T>) -> bool {
    matches!(p, Progress::Pending)
}

#[test]
fn both_succeed_after_not_ready_cycles() {
    let a = not_ready::<Result<i32, String>>(3, Progress::Ready(Ok(1)));
    let b = not_ready::<Result<&str, String>>(1, Progress::Ready(Ok("x")));
    let mut j = try_join(a, b);
    for _ in 0..3 {
        let (r, _, _) = resume(&mut j);
        assert!(is_pending(&r));
    }
    let (r, _, _) = resume(&mut j);
    assert!(matches!(r, Progress::Ready(Ok((1, "x")))));
    assert!(j.is_finished());
}

#[test]
fn both_succeed_at_once() {
    let a = not_ready::<Result<i32, String>>(0, Progress::Ready(Ok(1)));
    let b = not_ready::<Result<&str, String>>(0, Progress::Ready(Ok("x")));
    let mut j = try_join(a, b);
    let (r, pa, pb) = resume(&mut j);
    assert!(matches!(r, Progress::Ready(Ok((1, "x")))));
    assert_eq!((pa, pb), (1, 1));
    assert!(j.is_finished());
}

#[test]
fn success_shape_when_b_resolves_first() {
    let a = not_ready::<Result<u32, u8>>(4, Progress::Ready(Ok(10)));
    let b = not_ready::<Result<u32, u8>>(0, Progress::Ready(Ok(20)));
    let mut j = try_join(a, b);
    let mut result = None;
    for _ in 0..5 {
        if let (Progress::Ready(r), _, _) = resume(&mut j) {
            result = Some(r);
            break;
        }
    }
    assert_eq!(result, Some(Ok((10, 20))));
}

#[test]
fn a_fails_on_nth_resumption() {
    let a = not_ready::<Result<u32, &str>>(2, Progress::Ready(Err("E1")));
    let b = not_ready::<Result<u32, &str>>(10, Progress::Ready(Ok(0)));
    let mut j = try_join(a, b);
    assert!(is_pending(&resume(&mut j).0));
    assert!(is_pending(&resume(&mut j).0));
    let (r, pa, pb) = resume(&mut j);
    assert!(matches!(r, Progress::Ready(Err("E1"))));
    assert_eq!((pa, pb), (1, 0));
    assert!(j.is_finished());
}

#[test]
fn b_fails_while_a_pending() {
    let a = not_ready::<Result<u32, &str>>(5, Progress::Ready(Ok(1)));
    let b = not_ready::<Result<u32, &str>>(1, Progress::Ready(Err("E2")));
    let mut j = try_join(a, b);
    assert!(is_pending(&resume(&mut j).0));
    let (r, pa, pb) = resume(&mut j);
    assert!(matches!(r, Progress::Ready(Err("E2"))));
    assert_eq!((pa, pb), (1, 1));
    assert!(j.is_finished());
}

#[test]
fn failure_after_other_resolved() {
    let a = not_ready::<Result<u32, &str>>(0, Progress::Ready(Ok(1)));
    let b = not_ready::<Result<u32, &str>>(2, Progress::Ready(Err("late")));
    let mut j = try_join(a, b);
    assert!(is_pending(&resume(&mut j).0));
    assert!(!j.a_pending());
    assert!(is_pending(&resume(&mut j).0));
    let (r, pa, pb) = resume(&mut j);
    assert!(matches!(r, Progress::Ready(Err("late"))));
    assert_eq!((pa, pb), (0, 1));
}

#[test]
fn same_cycle_failures_report_a() {
    let a = not_ready::<Result<u32, &str>>(1, Progress::Ready(Err("from a")));
    let b = not_ready::<Result<u32, &str>>(1, Progress::Ready(Err("from b")));
    let mut j = try_join(a, b);
    assert!(is_pending(&resume(&mut j).0));
    let (r, pa, pb) = resume(&mut j);
    assert!(matches!(r, Progress::Ready(Err("from a"))));
    assert_eq!((pa, pb), (1, 0));
}

#[test]
fn finished_after_yield() {
    let a = not_ready::<Result<u8, u8>>(0, Progress::Ready(Ok(1)));
    let b = not_ready::<Result<u8, u8>>(0, Progress::Ready(Ok(2)));
    let mut j = try_join(a, b);
    assert!(!j.is_finished());
    let _ = resume(&mut j);
    assert!(j.is_finished());
    assert!(!j.a_pending());
    assert!(!j.b_pending());
}

#[test]
fn resolved_slot_is_skipped() {
    let a = not_ready::<Result<u8, u8>>(0, Progress::Ready(Ok(5)));
    let b = not_ready::<Result<u8, u8>>(3, Progress::Ready(Ok(6)));
    let mut j = try_join(a, b);
    let mut resumed_a = 0;
    loop {
        let (r, pa, _) = resume(&mut j);
        resumed_a += pa;
        if let Progress::Ready(r) = r {
            assert_eq!(r, Ok((5, 6)));
            break;
        }
    }
    assert_eq!(resumed_a, 1);
}

#[test]
fn slot_settles_once() {
    let mut s: Slot<&str, u32> = Slot::Pending("op");
    assert!(s.is_pending());
    assert_eq!(s.settle::<u8>(Progress::Pending), None);
    assert!(s.is_pending());
    assert_eq!(s.settle::<u8>(Progress::Ready(Err(3))), Some(3));
    assert!(s.is_pending());
    assert_eq!(s.settle::<u8>(Progress::Ready(Ok(9))), None);
    assert!(matches!(s, Slot::Resolved(9)));
}

#[test]
fn complete_keeps_pending_join() {
    let mut j: TryJoin<u8, u8, u32, u32> = try_join(1, 2);
    assert!(j.a_pending() && j.b_pending());
    assert_eq!(j.settle_a::<u8>(Progress::Ready(Ok(4))), None);
    assert!(!j.a_pending() && j.b_pending());
    let r = j.complete::<u8>();
    assert!(is_pending(&r));
    assert!(matches!(j, TryJoin::Active { a: Slot::Resolved(4), b: Slot::Pending(2) }));
    assert_eq!(j.settle_b::<u8>(Progress::Ready(Ok(8))), None);
    assert!(matches!(j.complete::<u8>(), Progress::Ready(Ok((4, 8)))));
}

#[test]
fn progress_is_ready() {
    assert!(Progress::Ready(1).is_ready());
    assert!(!Progress::<u8>::Pending.is_ready());
}

#[test]
fn step_asks_for_a_then_b() {
    let mut j: TryJoin<u8, u8, u32, u32> = try_join(1, 2);
    assert!(matches!(j.step::<u8>(Event::Resumed), Action::ResumeA));
    assert!(matches!(j.step::<u8>(Event::AReported(Progress::Pending)), Action::ResumeB));
    assert!(matches!(j.step::<u8>(Event::BReported(Progress::Ready(Ok(3)))), Action::NotReady));
    assert!(matches!(j.step::<u8>(Event::Resumed), Action::ResumeA));
    assert!(matches!(j.step::<u8>(Event::AReported(Progress::Ready(Ok(4)))), Action::Yield(Ok((4, 3)))));
    assert!(j.is_finished());
}

#[test]
fn step_skips_resolved_a() {
    let mut j: TryJoin<u8, u8, u32, u32> = try_join(1, 2);
    assert!(matches!(j.step::<u8>(Event::Resumed), Action::ResumeA));
    assert!(matches!(j.step::<u8>(Event::AReported(Progress::Ready(Ok(7)))), Action::ResumeB));
    assert!(matches!(j.step::<u8>(Event::BReported(Progress::Pending)), Action::NotReady));
    assert!(matches!(j.step::<u8>(Event::Resumed), Action::ResumeB));
    assert!(matches!(j.step::<u8>(Event::BReported(Progress::Ready(Err(9)))), Action::Yield(Err(9))));
    assert!(j.is_finished());
}

#[test]
fn step_a_failure_ends_resumption() {
    let mut j: TryJoin<u8, u8, u32, u32> = try_join(1, 2);
    assert!(matches!(j.step::<u8>(Event::Resumed), Action::ResumeA));
    assert!(matches!(j.step::<u8>(Event::AReported(Progress::Ready(Err(5)))), Action::Yield(Err(5))));
    assert!(j.is_finished());
}
