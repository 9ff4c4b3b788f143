use vstd::prelude::*;

verus! {

/// A cursor: an input sequence together with a position in it.
///
/// Reading never moves the cursor. A parser that consumes what it read moves
/// the cursor itself, with `skip` or `advance`. The offset is a checkpoint:
/// writing a saved offset back through `offset_mut` undoes every movement made
/// since it was saved, and touches nothing else.
pub trait Stream: Sized {
    type Item;

    type Offset;

    type Span;

    type Peek;

    type Slice;

    /// The current offset.
    spec fn position(&self) -> Self::Offset;

    /// The same input with the cursor at `offset`.
    spec fn at(self, offset: Self::Offset) -> Self;

    /// The offset that lies `count` after the current one, if it can be represented.
    spec fn forward(&self, count: Self::Offset) -> Option<Self::Offset>;

    /// The offset that lies `count` before the current one, if there is one.
    spec fn backward(&self, count: Self::Offset) -> Option<Self::Offset>;

    /// The distance that `skip` and `retract` move by.
    spec fn unit() -> Self::Offset;

    /// True when `offset` lies past the last item.
    spec fn past_end(&self, offset: Self::Offset) -> bool;

    /// True when `item` is what a consuming read at `offset` may hand out.
    spec fn reads(&self, offset: Self::Offset, item: Self::Item) -> bool;

    /// True when `peek` is what a non-consuming read at `offset` hands out.
    spec fn shows(&self, offset: Self::Offset, peek: Self::Peek) -> bool;

    /// True when `start..end` is a range of the input.
    spec fn in_bounds(&self, start: Self::Offset, end: Self::Offset) -> bool;

    /// True when `slice` is the part of the input in `start..end`.
    spec fn cuts(&self, start: Self::Offset, end: Self::Offset, slice: Self::Slice) -> bool;

    /// The span that describes `start..end`.
    spec fn span_of(start: Self::Offset, end: Self::Offset) -> Self::Span;

    /// The number of items from the current offset to the end of the input.
    spec fn remaining(&self) -> nat;

    /// Setting the offset sets nothing else: the cursor is then at that
    /// offset, an earlier setting leaves no trace, and setting the offset
    /// that the cursor has changes nothing.
    proof fn checkpoints(self, earlier: Self::Offset, offset: Self::Offset)
        ensures
            self.at(offset).position() == offset,
            self.at(earlier).at(offset) == self.at(offset),
            self.at(self.position()) == self,
    ;

    fn offset(&self) -> (offset: Self::Offset)
        ensures
            offset == self.position(),
    ;

    fn offset_mut(&mut self) -> (offset: &mut Self::Offset)
        ensures
            *offset == old(self).position(),
            *final(self) == old(self).at(*final(offset)),
            final(self).position() == *final(offset),
    ;

    fn skip(&mut self)
        requires
            old(self).forward(Self::unit()) is Some,
        ensures
            *final(self) == old(self).at(old(self).forward(Self::unit()).unwrap()),
            final(self).position() == old(self).forward(Self::unit()).unwrap(),
    ;

    fn advance(&mut self, offset: Self::Offset)
        requires
            old(self).forward(offset) is Some,
        ensures
            *final(self) == old(self).at(old(self).forward(offset).unwrap()),
            final(self).position() == old(self).forward(offset).unwrap(),
    ;

    fn retract(&mut self)
        requires
            old(self).backward(Self::unit()) is Some,
        ensures
            *final(self) == old(self).at(old(self).backward(Self::unit()).unwrap()),
            final(self).position() == old(self).backward(Self::unit()).unwrap(),
    ;

    fn go_back(&mut self, offset: Self::Offset)
        requires
            old(self).backward(offset) is Some,
        ensures
            *final(self) == old(self).at(old(self).backward(offset).unwrap()),
            final(self).position() == old(self).backward(offset).unwrap(),
    ;

    fn nth(&mut self, offset: Self::Offset) -> (item: Option<Self::Item>)
        ensures
            *final(self) == *old(self),
            match item {
                Some(found) => !old(self).past_end(offset) && old(self).reads(offset, found),
                None => old(self).past_end(offset),
            },
    ;

    fn peek_nth(&self, offset: Self::Offset) -> (peek: Option<Self::Peek>)
        ensures
            match peek {
                Some(found) => !self.past_end(offset) && self.shows(offset, found),
                None => self.past_end(offset),
            },
    ;

    fn slice(&self, start: Self::Offset, end: Self::Offset) -> (slice: Self::Slice)
        requires
            self.in_bounds(start, end),
        ensures
            self.cuts(start, end, slice),
    ;

    fn span(&self, start: Self::Offset, end: Self::Offset) -> (span: Self::Span)
        ensures
            span == Self::span_of(start, end),
    ;

    /// Reads at the current offset. The cursor stays where it is.
    fn next(&mut self) -> (item: Option<Self::Item>)
        ensures
            *final(self) == *old(self),
            match item {
                Some(found) => !old(self).past_end(old(self).position()) && old(self).reads(
                    old(self).position(),
                    found,
                ),
                None => old(self).past_end(old(self).position()),
            },
    {
        let offset = self.offset();
        self.nth(offset)
    }

    /// Looks at the item at the current offset.
    fn peek(&self) -> (peek: Option<Self::Peek>)
        ensures
            match peek {
                Some(found) => !self.past_end(self.position()) && self.shows(
                    self.position(),
                    found,
                ),
                None => self.past_end(self.position()),
            },
    {
        self.peek_nth(self.offset())
    }

    /// Reports exhaustion: true exactly when nothing is left to peek at.
    fn has_next(&self) -> (exhausted: bool)
        ensures
            exhausted == self.past_end(self.position()),
    {
        match self.peek() {
            Some(_) => false,
            None => true,
        }
    }
}

} // verus!
