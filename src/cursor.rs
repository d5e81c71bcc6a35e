//! A retrieval session: one consumer's request, its own read position, and
//! the decision that each attempt takes.
use vstd::prelude::*;
use crate::pass::{PassFrom, PassOn, PassView};
use crate::stock::{join_lines, join_spaced, lines_view, ForkView, Forked, Stock, StockView, Stream};

verus! {

/// What a session holds.
pub struct CursorView {
    pub pass: PassView,
    pub done: bool,
    pub got: nat,
    pub attempt: nat,
}

/// What one attempt decides, as values.
pub enum StepView {
    Give(Seq<char>),
    Over,
    Unresolved((Seq<char>, usize)),
    NeverComes(nat, Stream, (Seq<char>, usize)),
    Wait(nat),
}

/// What one attempt decides.
#[derive(Debug)]
pub enum Step {
    /// A value for the consumer.
    Give(String),
    /// No value, now or later.
    Over,
    /// No value: the producer named was never registered. It is to be reported.
    Unresolved(PassFrom),
    /// No value: the producer finished before the line at the index came.
    /// It is to be reported.
    NeverComes(usize, Stream, PassFrom),
    /// Nothing yet: sleep for the attempt numbered here, then try again.
    Wait(u64),
}

impl View for Step {
    type V = StepView;

    open spec fn view(&self) -> StepView {
        match self {
            Step::Give(v) => StepView::Give(v@),
            Step::Over => StepView::Over,
            Step::Unresolved(f) => StepView::Unresolved(f@),
            Step::NeverComes(n, s, f) => StepView::NeverComes(*n as nat, *s, f@),
            Step::Wait(a) => StepView::Wait(*a as nat),
        }
    }
}

/// The attempt count after one more attempt; it stops at the largest `u64`,
/// where the multiplier of the delay has long stopped growing.
pub open spec fn next_attempt(a: nat) -> nat {
    if a < u64::MAX { a + 1 } else { a }
}

/// The session after an attempt that found nothing to decide.
pub open spec fn waited(c: CursorView) -> (CursorView, StepView) {
    (CursorView { attempt: next_attempt(c.attempt), ..c }, StepView::Wait(c.attempt))
}

pub open spec fn finished(c: CursorView) -> CursorView {
    CursorView { done: true, ..c }
}

/// One attempt of session `c`, against the log of its producer (`None` where
/// none was found) and the shared fork positions: the session, the fork
/// positions, and the decision after it.
pub open spec fn advance(c: CursorView, log: Option<StockView>, fork: ForkView) -> (CursorView, ForkView, StepView) {
    if c.done {
        (c, fork, StepView::Over)
    } else {
        match c.pass {
            PassView::Direct(v) => (finished(c), fork, StepView::Give(v)),
            _ => match log {
                None => (finished(c), fork, StepView::Unresolved(c.pass.target()->0)),
                Some(l) => match c.pass {
                    PassView::All(s, _) => if l.done {
                        (finished(c), fork, StepView::Give(join_spaced(l.stream(s))))
                    } else {
                        (waited(c).0, fork, waited(c).1)
                    },
                    PassView::Each(s, _) => if c.got < l.stream(s).len() {
                        (CursorView { got: c.got + 1, ..c }, fork, StepView::Give(l.stream(s)[c.got as int]))
                    } else if l.done {
                        (finished(c), fork, StepView::Over)
                    } else {
                        (waited(c).0, fork, waited(c).1)
                    },
                    PassView::Fork(s, _) => if fork.at(s) < l.stream(s).len() {
                        (c, fork.advanced(s), StepView::Give(l.stream(s)[fork.at(s) as int]))
                    } else if l.done {
                        (finished(c), fork, StepView::Over)
                    } else {
                        (waited(c).0, fork, waited(c).1)
                    },
                    PassView::Nth(n, s, t) => if n < l.stream(s).len() {
                        (finished(c), fork, StepView::Give(l.stream(s)[n as int]))
                    } else if l.done {
                        (finished(c), fork, StepView::NeverComes(n, s, t))
                    } else {
                        (waited(c).0, fork, waited(c).1)
                    },
                    PassView::Direct(v) => (finished(c), fork, StepView::Give(v)),
                },
            },
        }
    }
}

/// The log seen through an optional reference.
pub open spec fn log_view(log: Option<&Stock>) -> Option<StockView> {
    match log {
        Some(l) => Some(l@),
        None => None,
    }
}

/// A retrieval session over one request.
#[derive(Debug)]
pub struct GetFrom {
    pass: PassOn,
    done: bool,
    got: usize,
    attempt: u64,
}

impl View for GetFrom {
    type V = CursorView;

    closed spec fn view(&self) -> CursorView {
        CursorView {
            pass: self.pass@,
            done: self.done,
            got: self.got as nat,
            attempt: self.attempt as nat,
        }
    }
}

impl GetFrom {
    /// A session over `pass` that has not yet tried anything.
    pub fn new(pass: PassOn) -> (r: GetFrom)
        ensures
            r@ == (CursorView { pass: pass@, done: false, got: 0, attempt: 1 }),
    {
        GetFrom { pass, done: false, got: 0, attempt: 1 }
    }

    pub fn is_done(&self) -> (r: bool)
        ensures
            r == self@.done,
    {
        self.done
    }

    /// The producer whose log the next attempt needs: `None` where the
    /// session is over or asks for a literal value.
    pub fn target(&self) -> (r: Option<&PassFrom>)
        ensures
            match r {
                Some(f) => !self@.done && self@.pass.target() == Some(f@),
                None => self@.done || self@.pass.target() is None,
            },
    {
        if self.done {
            None
        } else {
            self.pass.target()
        }
    }

    /// Whether attempts read through the shared fork position.
    pub fn forks(&self) -> (r: bool)
        ensures
            r == self@.pass.forks(),
    {
        self.pass.forks()
    }

    fn wait(&mut self) -> (r: Step)
        ensures
            (final(self)@, r@) == waited(old(self)@),
    {
        let a = self.attempt;
        if self.attempt < u64::MAX {
            self.attempt = self.attempt + 1;
        }
        Step::Wait(a)
    }

    /// One attempt of any session but a fork session with a log: `log` is the
    /// log of the producer named, or `None` where none was found.
    pub fn poll(&mut self, log: Option<&Stock>) -> (r: Step)
        requires
            log is Some && !old(self)@.done ==> !old(self)@.pass.forks(),
        ensures
            (final(self)@, r@) == ({
                let t = advance(old(self)@, log_view(log), ForkView { out: 0, err: 0 });
                (t.0, t.2)
            }),
    {
        if self.done {
            return Step::Over;
        }
        let target = match self.pass.target() {
            Some(f) => f,
            None => {
                let r = match &self.pass {
                    PassOn::DirectLike(v) => Step::Give(v.clone()),
                    _ => Step::Over,
                };
                self.done = true;
                return r;
            },
        };
        let l = match log {
            None => {
                let f = target.duplicate();
                self.done = true;
                return Step::Unresolved(f);
            },
            Some(l) => l,
        };
        match &self.pass {
            PassOn::ExpectAllOutOf(_) | PassOn::ExpectAllErrOf(_) => {
                let s = if let PassOn::ExpectAllOutOf(_) = &self.pass { Stream::Output } else { Stream::Error };
                if l.is_done() {
                    self.done = true;
                    Step::Give(join_lines(l.lines(s)))
                } else {
                    self.wait()
                }
            },
            PassOn::ExpectEachOutOf(_) | PassOn::ExpectEachErrOf(_) => {
                let s = if let PassOn::ExpectEachOutOf(_) = &self.pass { Stream::Output } else { Stream::Error };
                let lines = l.lines(s);
                if self.got < lines.len() {
                    let found = lines[self.got].clone();
                    self.got = self.got + 1;
                    Step::Give(found)
                } else if l.is_done() {
                    self.done = true;
                    Step::Over
                } else {
                    self.wait()
                }
            },
            PassOn::ExpectNthOutOf(n, f) | PassOn::ExpectNthErrOf(n, f) => {
                let s = if let PassOn::ExpectNthOutOf(_, _) = &self.pass { Stream::Output } else { Stream::Error };
                let lines = l.lines(s);
                if *n < lines.len() {
                    let found = lines[*n].clone();
                    self.done = true;
                    Step::Give(found)
                } else if l.is_done() {
                    let r = Step::NeverComes(*n, s, f.duplicate());
                    self.done = true;
                    r
                } else {
                    self.wait()
                }
            },
            _ => Step::Over,
        }
    }

    /// One attempt of a fork session against the log of its producer and the
    /// fork positions, which the caller holds exclusively for the attempt.
    pub fn poll_fork(&mut self, log: &Stock, fork: &mut Forked) -> (r: Step)
        requires
            old(self)@.pass.forks(),
        ensures
            (final(self)@, final(fork)@, r@) == advance(old(self)@, Some(log@), old(fork)@),
    {
        if self.done {
            return Step::Over;
        }
        let s = if let PassOn::ExpectForkOutOf(_) = &self.pass { Stream::Output } else { Stream::Error };
        let lines = log.lines(s);
        if fork.at(s) < lines.len() {
            let found = lines[fork.at(s)].clone();
            fork.advance(s);
            Step::Give(found)
        } else if log.is_done() {
            self.done = true;
            Step::Over
        } else {
            self.wait()
        }
    }
}

} // verus!
