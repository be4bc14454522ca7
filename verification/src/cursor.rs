//! Input that is already in memory: lines, handed out one after another.

use vstd::prelude::*;

verus! {

/// The texts of some lines, in their order.
pub open spec fn texts(lines: Seq<String>) -> Seq<Seq<char>> {
    Seq::new(lines.len(), |i: int| lines[i]@)
}

/// Lines of input and the place of the next one to hand out.
#[derive(Debug)]
pub struct LineCursor {
    lines: Vec<String>,
    next: usize,
}

impl LineCursor {
    #[verifier::type_invariant]
    spec fn within(&self) -> bool {
        self.next <= self.lines@.len()
    }

    /// All the lines, those handed out and those to come.
    pub closed spec fn lines(&self) -> Seq<Seq<char>> {
        texts(self.lines@)
    }

    /// The number of lines handed out so far.
    pub closed spec fn position(&self) -> nat {
        self.next as nat
    }

    /// A cursor before the first of `lines`.
    pub fn new(lines: Vec<String>) -> (cursor: LineCursor)
        ensures
            cursor.lines() == texts(lines@),
            cursor.position() == 0,
    {
        LineCursor { lines, next: 0 }
    }

    /// The place of the next line. It never lies behind the end.
    pub fn consumed(&self) -> (n: usize)
        ensures
            n == self.position(),
            n <= self.lines().len(),
    {
        proof {
            use_type_invariant(self);
        }
        self.next
    }

    /// Hands out the next line, or nothing at the end of the input.
    pub fn next_line(&mut self) -> (line: Option<String>)
        ensures
            final(self).lines() == old(self).lines(),
            final(self).position() <= final(self).lines().len(),
            match line {
                Some(text) => {
                    &&& old(self).position() < old(self).lines().len()
                    &&& text@ == old(self).lines()[old(self).position() as int]
                    &&& final(self).position() == old(self).position() + 1
                },
                None => {
                    &&& old(self).position() == old(self).lines().len()
                    &&& final(self).position() == old(self).position()
                },
            },
    {
        proof {
            use_type_invariant(&*self);
        }
        if self.next < self.lines.len() {
            let text = self.lines[self.next].clone();
            self.next = self.next + 1;
            Some(text)
        } else {
            None
        }
    }
}

} // verus!
