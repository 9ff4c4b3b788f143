use super::traits::Stream;
use vstd::prelude::*;
use vstd::string::StrSliceExecFns;

verus! {

/// A sequence of cloneable items with an integer offset.
impl<T> Stream for (Vec<T>, usize) where T: Clone {
    type Item = T;

    type Offset = usize;

    type Span = (usize, usize);

    type Peek = T;

    type Slice = Vec<T>;

    open spec fn position(&self) -> usize {
        self.1
    }

    open spec fn at(self, offset: usize) -> Self {
        (self.0, offset)
    }

    open spec fn forward(&self, count: usize) -> Option<usize> {
        if self.1 + count <= usize::MAX {
            Some((self.1 + count) as usize)
        } else {
            None
        }
    }

    open spec fn backward(&self, count: usize) -> Option<usize> {
        if count <= self.1 {
            Some((self.1 - count) as usize)
        } else {
            None
        }
    }

    open spec fn unit() -> usize {
        1
    }

    open spec fn past_end(&self, offset: usize) -> bool {
        offset >= self.0@.len()
    }

    open spec fn reads(&self, offset: usize, item: T) -> bool {
        offset < self.0@.len() && cloned(self.0@[offset as int], item)
    }

    open spec fn shows(&self, offset: usize, peek: T) -> bool {
        offset < self.0@.len() && cloned(self.0@[offset as int], peek)
    }

    open spec fn in_bounds(&self, start: usize, end: usize) -> bool {
        start <= end <= self.0@.len()
    }

    open spec fn cuts(&self, start: usize, end: usize, slice: Vec<T>) -> bool {
        &&& start <= end <= self.0@.len()
        &&& slice@.len() == end - start
        &&& forall|i: int| 0 <= i < end - start ==> cloned(self.0@[start + i], #[trigger] slice@[i])
    }

    open spec fn span_of(start: usize, end: usize) -> (usize, usize) {
        (start, end)
    }

    open spec fn remaining(&self) -> nat {
        if self.1 <= self.0@.len() {
            (self.0@.len() - self.1) as nat
        } else {
            0
        }
    }

    proof fn checkpoints(self, earlier: usize, offset: usize) {
    }

    fn offset(&self) -> usize {
        self.1
    }

    fn offset_mut(&mut self) -> &mut usize {
        &mut self.1
    }

    fn skip(&mut self) {
        self.advance(1);
    }

    fn advance(&mut self, offset: usize) {
        let place = self.offset_mut();
        *place = *place + offset;
    }

    fn retract(&mut self) {
        self.go_back(1);
    }

    fn go_back(&mut self, offset: usize) {
        let place = self.offset_mut();
        *place = *place - offset;
    }

    fn nth(&mut self, offset: usize) -> Option<T> {
        if offset < self.0.len() {
            Some(self.0[offset].clone())
        } else {
            None
        }
    }

    fn peek_nth(&self, offset: usize) -> Option<T> {
        if offset < self.0.len() {
            Some(self.0[offset].clone())
        } else {
            None
        }
    }

    fn slice(&self, start: usize, end: usize) -> Vec<T> {
        let mut slice: Vec<T> = Vec::new();
        let mut index: usize = start;
        while index < end
            invariant
                start <= index <= end <= self.0@.len(),
                slice@.len() == index - start,
                forall|i: int| 0 <= i < index - start ==> cloned(self.0@[start + i], #[trigger] slice@[i]),
            decreases end - index,
        {
            slice.push(self.0[index].clone());
            index = index + 1;
        }
        slice
    }

    fn span(&self, start: usize, end: usize) -> (usize, usize) {
        (start, end)
    }
}

/// A text buffer with an integer offset that counts characters.
impl<'b> Stream for (&'b str, usize) {
    type Item = char;

    type Offset = usize;

    type Span = (usize, usize);

    type Peek = char;

    type Slice = &'b str;

    open spec fn position(&self) -> usize {
        self.1
    }

    open spec fn at(self, offset: usize) -> Self {
        (self.0, offset)
    }

    open spec fn forward(&self, count: usize) -> Option<usize> {
        if self.1 + count <= usize::MAX {
            Some((self.1 + count) as usize)
        } else {
            None
        }
    }

    open spec fn backward(&self, count: usize) -> Option<usize> {
        if count <= self.1 {
            Some((self.1 - count) as usize)
        } else {
            None
        }
    }

    open spec fn unit() -> usize {
        1
    }

    open spec fn past_end(&self, offset: usize) -> bool {
        offset >= self.0@.len()
    }

    open spec fn reads(&self, offset: usize, item: char) -> bool {
        offset < self.0@.len() && item == self.0@[offset as int]
    }

    open spec fn shows(&self, offset: usize, peek: char) -> bool {
        offset < self.0@.len() && peek == self.0@[offset as int]
    }

    open spec fn in_bounds(&self, start: usize, end: usize) -> bool {
        start <= end <= self.0@.len()
    }

    open spec fn cuts(&self, start: usize, end: usize, slice: &'b str) -> bool {
        start <= end <= self.0@.len() && slice@ == self.0@.subrange(start as int, end as int)
    }

    open spec fn span_of(start: usize, end: usize) -> (usize, usize) {
        (start, end)
    }

    open spec fn remaining(&self) -> nat {
        if self.1 <= self.0@.len() {
            (self.0@.len() - self.1) as nat
        } else {
            0
        }
    }

    proof fn checkpoints(self, earlier: usize, offset: usize) {
    }

    fn offset(&self) -> usize {
        self.1
    }

    fn offset_mut(&mut self) -> &mut usize {
        &mut self.1
    }

    fn skip(&mut self) {
        self.advance(1);
    }

    fn advance(&mut self, offset: usize) {
        let place = self.offset_mut();
        *place = *place + offset;
    }

    fn retract(&mut self) {
        self.go_back(1);
    }

    fn go_back(&mut self, offset: usize) {
        let place = self.offset_mut();
        *place = *place - offset;
    }

    fn nth(&mut self, offset: usize) -> Option<char> {
        if offset < self.0.unicode_len() {
            Some(self.0.get_char(offset))
        } else {
            None
        }
    }

    fn peek_nth(&self, offset: usize) -> Option<char> {
        if offset < self.0.unicode_len() {
            Some(self.0.get_char(offset))
        } else {
            None
        }
    }

    fn slice(&self, start: usize, end: usize) -> &'b str {
        self.0.substring_char(start, end)
    }

    fn span(&self, start: usize, end: usize) -> (usize, usize) {
        (start, end)
    }
}

} // verus!
