//! What holds of the log and of the retrieval policies over several calls.
use vstd::prelude::*;
use crate::backoff::{delay_spec, factor};
use crate::cursor::{advance, CursorView, StepView};
use crate::pass::PassView;
use crate::stock::{join_spaced, ForkView, StockView, Stream};

verus! {

/// The log after each of `lines` is appended to stream `s`, in order.
pub open spec fn appended_all(l: StockView, s: Stream, lines: Seq<Seq<char>>) -> StockView
    decreases lines.len(),
{
    if lines.len() == 0 {
        l
    } else {
        appended_all(l, s, lines.drop_last()).appended(s, lines.last())
    }
}

/// The decisions of `k` attempts of session `c`, one after another, against
/// an unchanging log.
pub open spec fn run(c: CursorView, log: Option<StockView>, fork: ForkView, k: nat) -> Seq<StepView>
    decreases k,
{
    if k == 0 {
        Seq::empty()
    } else {
        let t = advance(c, log, fork);
        seq![t.2] + run(t.0, log, t.1, (k - 1) as nat)
    }
}

/// The value that a decision hands out, if any.
pub open spec fn given(d: StepView) -> Seq<Seq<char>> {
    match d {
        StepView::Give(v) => seq![v],
        _ => Seq::empty(),
    }
}

/// The values handed out when two sessions `a` and `b` take turns against
/// one log, `a` where `turns` says `true`.
pub open spec fn fork_run(a: CursorView, b: CursorView, log: StockView, fork: ForkView, turns: Seq<bool>) -> Seq<Seq<char>>
    decreases turns.len(),
{
    if turns.len() == 0 {
        Seq::empty()
    } else if turns[0] {
        let t = advance(a, Some(log), fork);
        given(t.2) + fork_run(t.0, b, log, t.1, turns.drop_first())
    } else {
        let t = advance(b, Some(log), fork);
        given(t.2) + fork_run(a, t.0, log, t.1, turns.drop_first())
    }
}

/// A session that has not yet tried anything.
pub open spec fn fresh(pass: PassView) -> CursorView {
    CursorView { pass, done: false, got: 0, attempt: 1 }
}

pub open spec fn gives(lines: Seq<Seq<char>>) -> Seq<StepView> {
    lines.map_values(|v: Seq<char>| StepView::Give(v))
}

pub open spec fn overs(k: nat) -> Seq<StepView> {
    Seq::new(k, |i: int| StepView::Over)
}

proof fn appended_all_keeps(l: StockView, s: Stream, lines: Seq<Seq<char>>)
    ensures
        appended_all(l, s, lines).stream(s) == l.stream(s) + lines,
        appended_all(l, s, lines).done == l.done,
    decreases lines.len(),
{
    if lines.len() > 0 {
        appended_all_keeps(l, s, lines.drop_last());
        assert(l.stream(s) + lines =~= (l.stream(s) + lines.drop_last()).push(lines.last()));
    }
}

/// Lines appended to a stream and then closed are handed out by the
/// all-lines policy as they were appended, joined with single spaces.
pub proof fn all_of_joins_appended(alias: Seq<char>, time: usize, s: Stream, lines: Seq<Seq<char>>, fork: ForkView)
    ensures
        advance(
            fresh(PassView::All(s, (alias, time))),
            Some(appended_all(StockView::fresh(alias, time), s, lines).closed()),
            fork,
        ).2 == StepView::Give(join_spaced(lines)),
{
    appended_all_keeps(StockView::fresh(alias, time), s, lines);
    assert(StockView::fresh(alias, time).stream(s) + lines =~= lines);
}

proof fn done_stays_over(c: CursorView, log: Option<StockView>, fork: ForkView, k: nat)
    requires
        c.done,
    ensures
        run(c, log, fork, k) == overs(k),
    decreases k,
{
    if k > 0 {
        done_stays_over(c, log, fork, (k - 1) as nat);
        assert(run(c, log, fork, k) =~= overs(k));
    }
}

proof fn each_from(c: CursorView, l: StockView, fork: ForkView, m: nat)
    requires
        c.pass is Each,
        !c.done,
        l.done,
        c.got <= l.stream(c.pass->Each_0).len(),
    ensures
        run(c, Some(l), fork, (l.stream(c.pass->Each_0).len() - c.got) as nat + m + 1)
            == gives(l.stream(c.pass->Each_0).skip(c.got as int)) + overs(m + 1),
    decreases l.stream(c.pass->Each_0).len() - c.got,
{
    let lines = l.stream(c.pass->Each_0);
    let k = (lines.len() - c.got) as nat + m + 1;
    let t = advance(c, Some(l), fork);
    if c.got < lines.len() {
        each_from(t.0, l, t.1, m);
        assert(gives(lines.skip(c.got as int)) =~= seq![StepView::Give(lines[c.got as int])] + gives(lines.skip(c.got + 1 as int)));
        assert(run(c, Some(l), fork, k) =~= gives(lines.skip(c.got as int)) + overs(m + 1));
    } else {
        done_stays_over(t.0, Some(l), t.1, m);
        assert(gives(lines.skip(c.got as int)) =~= Seq::<StepView>::empty());
        assert(run(c, Some(l), fork, k) =~= gives(lines.skip(c.got as int)) + overs(m + 1));
    }
}

/// Against a finished log, a fresh each-lines session hands out every line of
/// its stream in order, one per attempt, and then nothing, however often it
/// is asked.
pub proof fn each_of_yields_every_line(pass: PassView, l: StockView, fork: ForkView, m: nat)
    requires
        pass is Each,
        l.done,
    ensures
        run(fresh(pass), Some(l), fork, l.stream(pass->Each_0).len() + m + 1)
            == gives(l.stream(pass->Each_0)) + overs(m + 1),
{
    each_from(fresh(pass), l, fork, m);
    assert(l.stream(pass->Each_0).skip(0) =~= l.stream(pass->Each_0));
}

/// Two each-lines sessions on one producer and stream each see every line of
/// a finished log, whatever the fork positions hold: neither takes a line
/// from the other.
pub proof fn each_of_broadcasts(pass: PassView, l: StockView, fork_a: ForkView, fork_b: ForkView)
    requires
        pass is Each,
        l.done,
    ensures
        run(fresh(pass), Some(l), fork_a, l.stream(pass->Each_0).len() + 1)
            == gives(l.stream(pass->Each_0)) + overs(1),
        run(fresh(pass), Some(l), fork_b, l.stream(pass->Each_0).len() + 1)
            == gives(l.stream(pass->Each_0)) + overs(1),
{
    each_of_yields_every_line(pass, l, fork_a, 0);
    each_of_yields_every_line(pass, l, fork_b, 0);
}

proof fn forks_from(a: CursorView, b: CursorView, l: StockView, fork: ForkView, turns: Seq<bool>)
    requires
        a.pass is Fork,
        b.pass == a.pass,
        l.done,
        fork.at(a.pass->Fork_0) <= l.stream(a.pass->Fork_0).len(),
        a.done ==> fork.at(a.pass->Fork_0) == l.stream(a.pass->Fork_0).len(),
        b.done ==> fork.at(a.pass->Fork_0) == l.stream(a.pass->Fork_0).len(),
    ensures
        ({
            let s = a.pass->Fork_0;
            let p = fork.at(s) as int;
            let n = l.stream(s).len() as int;
            fork_run(a, b, l, fork, turns) == l.stream(s).subrange(
                p,
                if n - p < turns.len() { n } else { p + turns.len() },
            )
        }),
    decreases turns.len(),
{
    let s = a.pass->Fork_0;
    let lines = l.stream(s);
    let p = fork.at(s) as int;
    let n = lines.len() as int;
    if turns.len() > 0 {
        let rest = turns.drop_first();
        if turns[0] {
            let t = advance(a, Some(l), fork);
            forks_from(t.0, b, l, t.1, rest);
        } else {
            let t = advance(b, Some(l), fork);
            forks_from(a, t.0, l, t.1, rest);
        }
        let end = if n - p < turns.len() { n } else { p + turns.len() };
        if p < n {
            assert(lines.subrange(p, end) =~= seq![lines[p]] + lines.subrange(p + 1, end));
        } else {
            assert(lines.subrange(p, end) =~= Seq::<Seq<char>>::empty());
        }
    } else {
        assert(lines.subrange(p, p) =~= Seq::<Seq<char>>::empty());
    }
}

/// Two fork sessions on one producer and stream, taking turns in any order
/// against a finished log of `n` lines, hand out between them the lines in
/// order, each once: all `n` of them once they have tried `n` times together.
pub proof fn forks_share_each_line_once(pass: PassView, l: StockView, turns: Seq<bool>)
    requires
        pass is Fork,
        l.done,
    ensures
        fork_run(fresh(pass), fresh(pass), l, ForkView { out: 0, err: 0 }, turns)
            == l.stream(pass->Fork_0).take(
                if l.stream(pass->Fork_0).len() < turns.len() { l.stream(pass->Fork_0).len() as int } else { turns.len() as int },
            ),
{
    forks_from(fresh(pass), fresh(pass), l, ForkView { out: 0, err: 0 }, turns);
}

/// The index-policy session on a log that holds the line at its index hands
/// that line out in the first attempt and is then over; on a finished log
/// without it, it says once that the line will never come, and is then over.
pub proof fn nth_of_without_waiting(n: nat, s: Stream, t: (Seq<char>, usize), l: StockView, fork: ForkView)
    ensures
        n < l.stream(s).len() ==> run(fresh(PassView::Nth(n, s, t)), Some(l), fork, 2)
            == seq![StepView::Give(l.stream(s)[n as int]), StepView::Over],
        n >= l.stream(s).len() && l.done ==> run(fresh(PassView::Nth(n, s, t)), Some(l), fork, 2)
            == seq![StepView::NeverComes(n, s, t), StepView::Over],
{
    let c = fresh(PassView::Nth(n, s, t));
    let x = advance(c, Some(l), fork);
    let y = advance(x.0, Some(l), x.1);
    assert(run(y.0, Some(l), y.1, 0) =~= Seq::<StepView>::empty());
    assert(run(x.0, Some(l), x.1, 1) =~= seq![advance(x.0, Some(l), x.1).2]);
    assert(run(c, Some(l), fork, 2) =~= seq![x.2, advance(x.0, Some(l), x.1).2]);
}

/// A session whose producer was never found reports that once, in its first
/// attempt, and hands out nothing then or later.
pub proof fn unresolved_reports_once(pass: PassView, fork: ForkView, k: nat)
    requires
        pass.target() is Some,
    ensures
        run(fresh(pass), None, fork, k + 1)
            == seq![StepView::Unresolved(pass.target()->0)] + overs(k),
{
    let c = fresh(pass);
    let x = advance(c, None, fork);
    done_stays_over(x.0, None, x.1, k);
    assert(run(c, None, fork, k + 1) =~= seq![StepView::Unresolved(pass.target()->0)] + overs(k));
}

/// With a zero base delay no attempt sleeps; and once the producer has
/// finished, no attempt of any session waits: each decides.
pub proof fn finished_log_never_waits(c: CursorView, l: StockView, fork: ForkView, attempt: nat)
    requires
        l.done,
    ensures
        delay_spec(0, attempt) == 0,
        !(advance(c, Some(l), fork).2 is Wait),
{
    assert(0 * factor(attempt) == 0);
}

/// Closing twice is closing once; a line appended after closing is kept,
/// the log stays closed, and the all-lines policy hands it out with the rest.
pub proof fn close_is_idempotent(l: StockView, s: Stream, line: Seq<char>, t: (Seq<char>, usize), fork: ForkView)
    ensures
        l.closed().closed() == l.closed(),
        l.closed().appended(s, line).done,
        l.closed().appended(s, line).stream(s) == l.stream(s).push(line),
        advance(fresh(PassView::All(s, t)), Some(l.closed().appended(s, line)), fork).2
            == StepView::Give(join_spaced(l.stream(s).push(line))),
{
}

} // verus!
