//! What a consumer asks for: a literal value, or lines of a producer named by
//! alias and tag, under one of the retrieval policies.
use vstd::prelude::*;
use crate::stock::Stream;

verus! {

/// A producer's identity: its alias and its tag.
#[derive(Debug)]
pub struct PassFrom {
    pub alias: String,
    pub time: usize,
}

impl View for PassFrom {
    type V = (Seq<char>, usize);

    open spec fn view(&self) -> (Seq<char>, usize) {
        (self.alias@, self.time)
    }
}

impl PassFrom {
    pub fn new(alias: String, time: usize) -> (r: PassFrom)
        ensures
            r@ == (alias@, time),
    {
        PassFrom { alias, time }
    }

    /// A second identity equal to this one.
    pub fn duplicate(&self) -> (r: PassFrom)
        ensures
            r@ == self@,
    {
        PassFrom { alias: self.alias.clone(), time: self.time }
    }

    /// Whether `other` names the same producer.
    pub fn same_as(&self, other: &PassFrom) -> (r: bool)
        ensures
            r == (self@ == other@),
    {
        self.time == other.time && self.alias == other.alias
    }
}

/// A retrieval request.
#[derive(Debug)]
pub enum PassOn {
    /// The literal value, once.
    DirectLike(String),
    /// All output lines joined, once the producer has finished.
    ExpectAllOutOf(PassFrom),
    /// Every output line, through a read position of this consumer's own.
    ExpectEachOutOf(PassFrom),
    /// Output lines through the position shared by all fork consumers.
    ExpectForkOutOf(PassFrom),
    /// The output line at the index.
    ExpectNthOutOf(usize, PassFrom),
    /// All error lines joined, once the producer has finished.
    ExpectAllErrOf(PassFrom),
    /// Every error line, through a read position of this consumer's own.
    ExpectEachErrOf(PassFrom),
    /// Error lines through the position shared by all fork consumers.
    ExpectForkErrOf(PassFrom),
    /// The error line at the index.
    ExpectNthErrOf(usize, PassFrom),
}

/// A request as a policy over a stream of a target.
pub enum PassView {
    Direct(Seq<char>),
    All(Stream, (Seq<char>, usize)),
    Each(Stream, (Seq<char>, usize)),
    Fork(Stream, (Seq<char>, usize)),
    Nth(nat, Stream, (Seq<char>, usize)),
}

impl PassView {
    /// The producer that the request reads, if any.
    pub open spec fn target(self) -> Option<(Seq<char>, usize)> {
        match self {
            PassView::Direct(_) => None,
            PassView::All(_, t) => Some(t),
            PassView::Each(_, t) => Some(t),
            PassView::Fork(_, t) => Some(t),
            PassView::Nth(_, _, t) => Some(t),
        }
    }

    pub open spec fn forks(self) -> bool {
        self is Fork
    }
}

impl View for PassOn {
    type V = PassView;

    open spec fn view(&self) -> PassView {
        match self {
            PassOn::DirectLike(v) => PassView::Direct(v@),
            PassOn::ExpectAllOutOf(f) => PassView::All(Stream::Output, f@),
            PassOn::ExpectEachOutOf(f) => PassView::Each(Stream::Output, f@),
            PassOn::ExpectForkOutOf(f) => PassView::Fork(Stream::Output, f@),
            PassOn::ExpectNthOutOf(n, f) => PassView::Nth(*n as nat, Stream::Output, f@),
            PassOn::ExpectAllErrOf(f) => PassView::All(Stream::Error, f@),
            PassOn::ExpectEachErrOf(f) => PassView::Each(Stream::Error, f@),
            PassOn::ExpectForkErrOf(f) => PassView::Fork(Stream::Error, f@),
            PassOn::ExpectNthErrOf(n, f) => PassView::Nth(*n as nat, Stream::Error, f@),
        }
    }
}

impl PassOn {
    /// The producer that the request reads; `None` for a literal value.
    pub fn target(&self) -> (r: Option<&PassFrom>)
        ensures
            match r {
                Some(f) => self@.target() == Some(f@),
                None => self@.target() is None,
            },
    {
        match self {
            PassOn::DirectLike(_) => None,
            PassOn::ExpectAllOutOf(f) => Some(f),
            PassOn::ExpectEachOutOf(f) => Some(f),
            PassOn::ExpectForkOutOf(f) => Some(f),
            PassOn::ExpectNthOutOf(_, f) => Some(f),
            PassOn::ExpectAllErrOf(f) => Some(f),
            PassOn::ExpectEachErrOf(f) => Some(f),
            PassOn::ExpectForkErrOf(f) => Some(f),
            PassOn::ExpectNthErrOf(_, f) => Some(f),
        }
    }

    /// Whether the request reads through the shared fork position.
    pub fn forks(&self) -> (r: bool)
        ensures
            r == self@.forks(),
    {
        match self {
            PassOn::ExpectForkOutOf(_) => true,
            PassOn::ExpectForkErrOf(_) => true,
            _ => false,
        }
    }
}

} // verus!
