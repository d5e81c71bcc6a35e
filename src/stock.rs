//! One producer's log: its identity, its output and error lines, and whether
//! it has finished; and the shared read positions of the fork policies.
use vstd::prelude::*;

verus! {

/// Which of a producer's two streams a policy reads.
#[derive(Clone, Copy, Debug, PartialEq, Eq, Structural)]
pub enum Stream {
    Output,
    Error,
}

/// The text of each line.
pub open spec fn lines_view(v: Seq<String>) -> Seq<Seq<char>> {
    v.map_values(|s: String| s@)
}

/// The lines joined into one text, a single space between two neighbours.
pub open spec fn join_spaced(lines: Seq<Seq<char>>) -> Seq<char>
    decreases lines.len(),
{
    if lines.len() == 0 {
        Seq::empty()
    } else if lines.len() == 1 {
        lines[0]
    } else {
        join_spaced(lines.drop_last()) + seq![' '] + lines.last()
    }
}

/// What a log holds.
pub struct StockView {
    pub alias: Seq<char>,
    pub time: usize,
    pub errs: Seq<Seq<char>>,
    pub outs: Seq<Seq<char>>,
    pub done: bool,
}

impl StockView {
    /// The empty, open log of a producer.
    pub open spec fn fresh(alias: Seq<char>, time: usize) -> StockView {
        StockView { alias, time, errs: Seq::empty(), outs: Seq::empty(), done: false }
    }

    pub open spec fn stream(self, s: Stream) -> Seq<Seq<char>> {
        match s {
            Stream::Output => self.outs,
            Stream::Error => self.errs,
        }
    }

    /// The log after `line` is appended to stream `s`.
    pub open spec fn appended(self, s: Stream, line: Seq<char>) -> StockView {
        match s {
            Stream::Output => StockView { outs: self.outs.push(line), ..self },
            Stream::Error => StockView { errs: self.errs.push(line), ..self },
        }
    }

    /// The log after the producer has said it is finished.
    pub open spec fn closed(self) -> StockView {
        StockView { done: true, ..self }
    }
}

/// One producer's log. Lines are only ever appended, and `done` only ever
/// goes from `false` to `true`.
#[derive(Debug)]
pub struct Stock {
    alias: String,
    time: usize,
    errs: Vec<String>,
    outs: Vec<String>,
    done: bool,
}

impl View for Stock {
    type V = StockView;

    closed spec fn view(&self) -> StockView {
        StockView {
            alias: self.alias@,
            time: self.time,
            errs: lines_view(self.errs@),
            outs: lines_view(self.outs@),
            done: self.done,
        }
    }
}

impl Stock {
    /// An empty, open log for the producer named `alias` with tag `time`.
    pub fn new(alias: String, time: usize) -> (r: Stock)
        ensures
            r@ == StockView::fresh(alias@, time),
    {
        let r = Stock { alias, time, errs: Vec::new(), outs: Vec::new(), done: false };
        proof {
            assert(r@.errs =~= Seq::<Seq<char>>::empty());
            assert(r@.outs =~= Seq::<Seq<char>>::empty());
        }
        r
    }

    pub fn alias(&self) -> (r: &String)
        ensures
            r@ == self@.alias,
    {
        &self.alias
    }

    pub fn time(&self) -> (r: usize)
        ensures
            r == self@.time,
    {
        self.time
    }

    pub fn is_done(&self) -> (r: bool)
        ensures
            r == self@.done,
    {
        self.done
    }

    /// The lines of stream `s`.
    pub fn lines(&self, s: Stream) -> (r: &Vec<String>)
        ensures
            lines_view(r@) == self@.stream(s),
    {
        match s {
            Stream::Output => &self.outs,
            Stream::Error => &self.errs,
        }
    }

    /// Appends `line` to stream `s`; a closed log takes it too.
    pub fn put(&mut self, s: Stream, line: &str)
        ensures
            final(self)@ == old(self)@.appended(s, line@),
    {
        let owned = String::from_str(line);
        match s {
            Stream::Output => self.outs.push(owned),
            Stream::Error => self.errs.push(owned),
        }
        proof {
            assert(lines_view(self.outs@) =~= old(self)@.appended(s, line@).outs);
            assert(lines_view(self.errs@) =~= old(self)@.appended(s, line@).errs);
        }
    }

    /// Appends `out` to the output lines.
    pub fn put_out(&mut self, out: &str)
        ensures
            final(self)@ == old(self)@.appended(Stream::Output, out@),
    {
        self.put(Stream::Output, out)
    }

    /// Appends `err` to the error lines.
    pub fn put_err(&mut self, err: &str)
        ensures
            final(self)@ == old(self)@.appended(Stream::Error, err@),
    {
        self.put(Stream::Error, err)
    }

    /// Marks the log finished; closing a closed log changes nothing.
    pub fn set_done(&mut self)
        ensures
            final(self)@ == old(self)@.closed(),
    {
        self.done = true;
    }
}

/// The lines joined with a single space between neighbours.
pub fn join_lines(lines: &Vec<String>) -> (r: String)
    ensures
        r@ == join_spaced(lines_view(lines@)),
{
    let mut r = String::new();
    let mut i: usize = 0;
    while i < lines.len()
        invariant
            i <= lines.len(),
            r@ == join_spaced(lines_view(lines@).take(i as int)),
        decreases lines.len() - i,
    {
        let ghost before = lines_view(lines@).take(i as int);
        let ghost after = lines_view(lines@).take(i + 1);
        proof {
            assert(after.drop_last() =~= before);
            assert(after.last() == lines@[i as int]@);
        }
        if i > 0 {
            proof {
                reveal_strlit(" ");
            }
            r.append(" ");
        } else {
            assert(before =~= Seq::<Seq<char>>::empty());
        }
        r.append(lines[i].as_str());
        i += 1;
    }
    assert(lines_view(lines@).take(i as int) =~= lines_view(lines@));
    r
}

/// What the fork positions hold.
pub struct ForkView {
    pub out: nat,
    pub err: nat,
}

impl ForkView {
    pub open spec fn at(self, s: Stream) -> nat {
        match s {
            Stream::Output => self.out,
            Stream::Error => self.err,
        }
    }

    /// The positions after the one of stream `s` has moved on by one.
    pub open spec fn advanced(self, s: Stream) -> ForkView {
        match s {
            Stream::Output => ForkView { out: self.out + 1, ..self },
            Stream::Error => ForkView { err: self.err + 1, ..self },
        }
    }
}

/// The read positions that all fork consumers of one producer share.
#[derive(Debug)]
pub struct Forked {
    out: usize,
    err: usize,
}

impl View for Forked {
    type V = ForkView;

    closed spec fn view(&self) -> ForkView {
        ForkView { out: self.out as nat, err: self.err as nat }
    }
}

impl Forked {
    /// Both positions at the first line.
    pub fn new() -> (r: Forked)
        ensures
            r@ == (ForkView { out: 0, err: 0 }),
    {
        Forked { out: 0, err: 0 }
    }

    pub fn at(&self, s: Stream) -> (r: usize)
        ensures
            r == self@.at(s),
    {
        match s {
            Stream::Output => self.out,
            Stream::Error => self.err,
        }
    }

    /// Moves the position of stream `s` on by one line.
    pub fn advance(&mut self, s: Stream)
        requires
            old(self)@.at(s) < usize::MAX,
        ensures
            final(self)@ == old(self)@.advanced(s),
    {
        match s {
            Stream::Output => self.out = self.out + 1,
            Stream::Error => self.err = self.err + 1,
        }
    }
}

} // verus!
