use flow::backoff::{delay_for, DEFAULT_DELAY};
use flow::cursor::{GetFrom, Step};
use flow::pass::{PassFrom, PassOn};
use flow::registry::Registry;
use flow::stock::{join_lines, Forked, Stock, Stream};

fn from(alias: &str, time: usize) -> PassFrom {
    PassFrom::new(alias.to_string(), time)
}

fn given(step: Step) -> Option<String> {
    match step {
        Step::Give(v) => Some(v),
        _ => None,
    }
}

fn is_over(step: &Step) -> bool {
    matches!(step, Step::Over)
}

fn log_of(outs: &[&str], errs: &[&str], done: bool) -> Stock {
    let mut s = Stock::new("build".to_string(), 1);
    for o in outs {
        s.put_out(o);
    }
    for e in errs {
        s.put_err(e);
    }
    if done {
        s.set_done();
    }
    s
}

#[test]
fn delay_grows_linearly_then_caps() {
    assert_eq!(DEFAULT_DELAY, 100);
    assert_eq!(delay_for(100, 1), Some(100));
    assert_eq!(delay_for(100, 3), Some(300));
    assert_eq!(delay_for(100, 10), Some(1000));
    assert_eq!(delay_for(100, 25), Some(1000));
    assert_eq!(delay_for(0, 7), Some(0));
    assert_eq!(delay_for(u64::MAX, 1), Some(u64::MAX));
    assert_eq!(delay_for(u64::MAX, 2), None);
}

#[test]
fn join_uses_single_spaces() {
    assert_eq!(join_lines(&vec![]), "");
    assert_eq!(join_lines(&vec!["one".to_string()]), "one");
    let v = vec!["a".to_string(), "b c".to_string(), "".to_string(), "d".to_string()];
    assert_eq!(join_lines(&v), "a b c  d");
}

#[test]
fn stock_keeps_lines_in_order_and_after_close() {
    let mut s = Stock::new("x".to_string(), 4);
    assert_eq!(s.alias(), "x");
    assert_eq!(s.time(), 4);
    assert!(!s.is_done());
    s.put_out("a");
    s.put_err("e1");
    s.put_out("b");
    s.set_done();
    s.set_done();
    assert!(s.is_done());
    s.put_out("c");
    assert!(s.is_done());
    assert_eq!(s.lines(Stream::Output), &vec!["a".to_string(), "b".to_string(), "c".to_string()]);
    assert_eq!(s.lines(Stream::Error), &vec!["e1".to_string()]);
}

#[test]
fn registry_finds_first_registered() {
    let mut r: Registry<u32> = Registry::new();
    assert_eq!(r.len(), 0);
    assert_eq!(r.find(&from("a", 1)), None);
    r.add("a".to_string(), 1, 10);
    r.add("b".to_string(), 1, 20);
    r.add("a".to_string(), 2, 30);
    r.add("a".to_string(), 1, 40);
    assert_eq!(r.len(), 4);
    assert_eq!(r.find(&from("a", 1)), Some(0));
    assert_eq!(*r.handle(0), 10);
    assert_eq!(r.find(&from("a", 2)), Some(2));
    assert_eq!(*r.handle(2), 30);
    assert_eq!(r.find(&from("b", 1)), Some(1));
    assert_eq!(r.find(&from("b", 2)), None);
    assert_eq!(r.find(&from("c", 1)), None);
}

#[test]
fn direct_value_once() {
    let mut c = GetFrom::new(PassOn::DirectLike("lit".to_string()));
    assert!(c.target().is_none());
    assert_eq!(given(c.poll(None)), Some("lit".to_string()));
    assert!(c.is_done());
    assert!(is_over(&c.poll(None)));
}

#[test]
fn all_of_joins_appended_lines() {
    let log = log_of(&["a", "b", "c"], &["x", "y"], true);
    let mut c = GetFrom::new(PassOn::ExpectAllOutOf(from("build", 1)));
    assert_eq!(c.target().unwrap().alias, "build");
    assert_eq!(given(c.poll(Some(&log))), Some("a b c".to_string()));
    assert!(is_over(&c.poll(Some(&log))));
    let mut e = GetFrom::new(PassOn::ExpectAllErrOf(from("build", 1)));
    assert_eq!(given(e.poll(Some(&log))), Some("x y".to_string()));
}

#[test]
fn all_of_waits_until_closed() {
    let mut log = log_of(&["a", "b"], &[], false);
    let mut c = GetFrom::new(PassOn::ExpectAllOutOf(from("build", 1)));
    assert!(matches!(c.poll(Some(&log)), Step::Wait(1)));
    assert!(matches!(c.poll(Some(&log)), Step::Wait(2)));
    log.set_done();
    log.put_out("c");
    assert_eq!(given(c.poll(Some(&log))), Some("a b c".to_string()));
}

#[test]
fn close_then_append_scenario() {
    let mut log = Stock::new("p".to_string(), 0);
    log.put_out("a");
    log.put_out("b");
    log.set_done();
    let mut early = GetFrom::new(PassOn::ExpectAllOutOf(from("p", 0)));
    assert_eq!(given(early.poll(Some(&log))), Some("a b".to_string()));
    log.put_out("c");
    let mut late = GetFrom::new(PassOn::ExpectAllOutOf(from("p", 0)));
    assert_eq!(given(late.poll(Some(&log))), Some("a b c".to_string()));
}

#[test]
fn each_of_yields_lines_then_none_forever() {
    let log = log_of(&["l0", "l1", "l2"], &[], true);
    let mut c = GetFrom::new(PassOn::ExpectEachOutOf(from("build", 1)));
    assert_eq!(given(c.poll(Some(&log))), Some("l0".to_string()));
    assert_eq!(given(c.poll(Some(&log))), Some("l1".to_string()));
    assert_eq!(given(c.poll(Some(&log))), Some("l2".to_string()));
    assert!(is_over(&c.poll(Some(&log))));
    assert!(c.is_done());
    assert!(c.target().is_none());
    assert!(is_over(&c.poll(Some(&log))));
    assert!(is_over(&c.poll(None)));
}

#[test]
fn each_of_waits_on_open_log() {
    let mut log = log_of(&["l0"], &[], false);
    let mut c = GetFrom::new(PassOn::ExpectEachErrOf(from("build", 1)));
    assert!(matches!(c.poll(Some(&log)), Step::Wait(1)));
    log.put_err("e0");
    assert_eq!(given(c.poll(Some(&log))), Some("e0".to_string()));
    assert!(matches!(c.poll(Some(&log)), Step::Wait(2)));
    log.set_done();
    assert!(is_over(&c.poll(Some(&log))));
}

#[test]
fn each_of_broadcasts_to_every_consumer() {
    let log = log_of(&["a", "b"], &[], true);
    let mut c1 = GetFrom::new(PassOn::ExpectEachOutOf(from("build", 1)));
    let mut c2 = GetFrom::new(PassOn::ExpectEachOutOf(from("build", 1)));
    let mut seen1 = Vec::new();
    let mut seen2 = Vec::new();
    for _ in 0..3 {
        if let Some(v) = given(c1.poll(Some(&log))) {
            seen1.push(v);
        }
        if let Some(v) = given(c2.poll(Some(&log))) {
            seen2.push(v);
        }
    }
    assert_eq!(seen1, vec!["a", "b"]);
    assert_eq!(seen2, vec!["a", "b"]);
}

#[test]
fn fork_of_shares_lines_between_consumers() {
    let log = log_of(&["a", "b", "c", "d", "e"], &[], true);
    let mut fork = Forked::new();
    let mut c1 = GetFrom::new(PassOn::ExpectForkOutOf(from("build", 1)));
    let mut c2 = GetFrom::new(PassOn::ExpectForkOutOf(from("build", 1)));
    assert!(c1.forks());
    let mut seen = Vec::new();
    let order = [true, true, false, true, false, false, true];
    for &first in order.iter() {
        let c = if first { &mut c1 } else { &mut c2 };
        if let Some(v) = given(c.poll_fork(&log, &mut fork)) {
            seen.push(v);
        }
    }
    assert_eq!(seen, vec!["a", "b", "c", "d", "e"]);
    assert_eq!(fork.at(Stream::Output), 5);
    assert_eq!(fork.at(Stream::Error), 0);
    assert!(c1.is_done());
    assert!(c2.is_done());
}

#[test]
fn fork_err_of_waits_then_delivers() {
    let mut log = log_of(&[], &[], false);
    let mut fork = Forked::new();
    let mut c = GetFrom::new(PassOn::ExpectForkErrOf(from("build", 1)));
    assert!(matches!(c.poll_fork(&log, &mut fork), Step::Wait(1)));
    log.put_err("e");
    assert_eq!(given(c.poll_fork(&log, &mut fork)), Some("e".to_string()));
    log.set_done();
    assert!(is_over(&c.poll_fork(&log, &mut fork)));
}

#[test]
fn nth_of_present_line() {
    let log = log_of(&["a", "b", "c"], &["x"], false);
    let mut c = GetFrom::new(PassOn::ExpectNthOutOf(2, from("build", 1)));
    assert_eq!(given(c.poll(Some(&log))), Some("c".to_string()));
    assert!(c.is_done());
    let mut e = GetFrom::new(PassOn::ExpectNthErrOf(0, from("build", 1)));
    assert_eq!(given(e.poll(Some(&log))), Some("x".to_string()));
}

#[test]
fn nth_of_never_comes_on_closed_log() {
    let log = log_of(&["a"], &[], true);
    let mut c = GetFrom::new(PassOn::ExpectNthOutOf(3, from("build", 1)));
    match c.poll(Some(&log)) {
        Step::NeverComes(n, s, f) => {
            assert_eq!(n, 3);
            assert_eq!(s, Stream::Output);
            assert_eq!(f.alias, "build");
            assert_eq!(f.time, 1);
        }
        other => panic!("unexpected {:?}", other),
    }
    assert!(is_over(&c.poll(Some(&log))));
}

#[test]
fn nth_of_waits_on_open_log() {
    let mut log = log_of(&["a"], &[], false);
    let mut c = GetFrom::new(PassOn::ExpectNthErrOf(1, from("build", 1)));
    assert!(matches!(c.poll(Some(&log)), Step::Wait(1)));
    log.put_err("e0");
    assert!(matches!(c.poll(Some(&log)), Step::Wait(2)));
    log.put_err("e1");
    assert_eq!(given(c.poll(Some(&log))), Some("e1".to_string()));
}

#[test]
fn unresolved_producer_reported_once() {
    let mut c = GetFrom::new(PassOn::ExpectEachOutOf(from("ghost", 9)));
    match c.poll(None) {
        Step::Unresolved(f) => {
            assert_eq!(f.alias, "ghost");
            assert_eq!(f.time, 9);
        }
        other => panic!("unexpected {:?}", other),
    }
    assert!(c.is_done());
    assert!(is_over(&c.poll(None)));
    let mut k = GetFrom::new(PassOn::ExpectForkErrOf(from("ghost", 9)));
    assert!(matches!(k.poll(None), Step::Unresolved(_)));
}

#[test]
fn zero_delay_polling_ends_once_closed() {
    let mut log = log_of(&["a"], &[], false);
    let mut c = GetFrom::new(PassOn::ExpectEachOutOf(from("build", 1)));
    assert_eq!(given(c.poll(Some(&log))), Some("a".to_string()));
    match c.poll(Some(&log)) {
        Step::Wait(a) => assert_eq!(delay_for(0, a), Some(0)),
        other => panic!("unexpected {:?}", other),
    }
    log.set_done();
    assert!(is_over(&c.poll(Some(&log))));
}

#[test]
fn pass_from_identity() {
    let a = from("x", 1);
    assert!(a.same_as(&from("x", 1)));
    assert!(!a.same_as(&from("x", 2)));
    assert!(!a.same_as(&from("y", 1)));
    let d = a.duplicate();
    assert_eq!(d.alias, "x");
    assert_eq!(d.time, 1);
    assert!(PassOn::ExpectForkErrOf(from("x", 1)).forks());
    assert!(!PassOn::ExpectEachErrOf(from("x", 1)).forks());
    assert!(PassOn::DirectLike("v".to_string()).target().is_none());
    assert_eq!(PassOn::ExpectNthErrOf(2, from("q", 3)).target().unwrap().time, 3);
}
