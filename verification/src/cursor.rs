use vstd::prelude::*;

verus! {

/// State of a linear-iteration cursor: either holding the declaration index
/// of the variant it will yield next, or exhausted for good.
#[derive(Clone, Copy, PartialEq, Eq, Structural, Debug)]
pub enum CursorState {
    Holding(usize),
    Exhausted,
}

/// The traversal state machine behind the iteration generator: a forward
/// cursor over the `len` variants of one enum declaration, by declaration
/// index. Once exhausted it stays exhausted; it restarts only by
/// constructing a fresh cursor.
#[derive(Clone, Copy, PartialEq, Eq, Structural, Debug)]
pub struct VariantCursor {
    pub state: CursorState,
    pub len: usize,
}

impl VariantCursor {
    /// A held index always lies inside the variant list.
    pub open spec fn wf(self) -> bool {
        self.state matches CursorState::Holding(i) ==> i < self.len
    }

    /// The declaration indices the cursor will still yield, in order: from
    /// the held index up to the end of the list, or nothing once exhausted.
    pub open spec fn remaining(self) -> Seq<int> {
        match self.state {
            CursorState::Holding(i) => Seq::new((self.len - i) as nat, |k: int| i + k),
            CursorState::Exhausted => Seq::empty(),
        }
    }

    /// A fresh cursor at the first declared variant: the type-level entry
    /// point of the iteration generator. Needs at least one variant.
    pub fn new(len: usize) -> (r: VariantCursor)
        requires
            len >= 1,
        ensures
            r.wf(),
            r.len == len,
            r.state == CursorState::Holding(0usize),
    {
        VariantCursor { state: CursorState::Holding(0), len }
    }

    /// A cursor holding the variant at declaration index `start`: what the
    /// generated `iter()` method builds from the receiver's own value.
    pub fn starting_at(start: usize, len: usize) -> (r: VariantCursor)
        requires
            start < len,
        ensures
            r.wf(),
            r.len == len,
            r.state == CursorState::Holding(start),
    {
        VariantCursor { state: CursorState::Holding(start), len }
    }

    /// One advance: yield the held variant index and move to the next, or to
    /// the exhausted state at the end of the list; once exhausted, every
    /// advance yields nothing and leaves the state exhausted (absorbing).
    pub fn advance(&mut self) -> (r: Option<usize>)
        requires
            old(self).wf(),
        ensures
            final(self).wf(),
            final(self).len == old(self).len,
            match old(self).state {
                CursorState::Holding(i) => {
                    &&& r == Some(i)
                    &&& final(self).state == (if i + 1 < old(self).len {
                        CursorState::Holding((i + 1) as usize)
                    } else {
                        CursorState::Exhausted
                    })
                },
                CursorState::Exhausted => r is None && final(self).state is Exhausted,
            },
            old(self).remaining().len() > 0 ==> (r matches Some(v) && v as int == old(
                self,
            ).remaining()[0] && final(self).remaining() == old(self).remaining().skip(1)),
            old(self).remaining().len() == 0 ==> r is None && final(self).remaining() == old(
                self,
            ).remaining(),
    {
        match self.state {
            CursorState::Holding(i) => {
                if i + 1 < self.len {
                    self.state = CursorState::Holding(i + 1);
                } else {
                    self.state = CursorState::Exhausted;
                }
                proof {
                    assert(self.remaining() =~= old(self).remaining().skip(1));
                }
                Some(i)
            },
            CursorState::Exhausted => None,
        }
    }

    /// Drain the cursor: every index it still yields, in order. Collecting a
    /// fresh cursor therefore reproduces the declaration order exactly.
    pub fn collect_remaining(&mut self) -> (r: Vec<usize>)
        requires
            old(self).wf(),
        ensures
            final(self).wf(),
            final(self).len == old(self).len,
            final(self).state is Exhausted,
            r@.map_values(|v: usize| v as int) == old(self).remaining(),
    {
        let mut out: Vec<usize> = Vec::new();
        loop
            invariant
                self.wf(),
                self.len == old(self).len,
                out@.map_values(|v: usize| v as int) + self.remaining() == old(self).remaining(),
            decreases self.remaining().len(),
        {
            let ghost before = *self;
            let ghost out_before = out@;
            match self.advance() {
                Some(i) => {
                    out.push(i);
                    proof {
                        assert(out@.map_values(|v: usize| v as int) =~= out_before.map_values(
                            |v: usize| v as int,
                        ).push(i as int));
                        assert(out@.map_values(|v: usize| v as int) + self.remaining()
                            =~= out_before.map_values(|v: usize| v as int) + before.remaining());
                    }
                },
                None => {
                    proof {
                        assert(out@.map_values(|v: usize| v as int) + self.remaining()
                            =~= out@.map_values(|v: usize| v as int));
                    }
                    return out;
                },
            }
        }
    }
}

/// Law: a well-formed cursor holding the first declared variant yields
/// exactly the declaration indices 0, 1, ..., len - 1, in declaration order.
pub proof fn lemma_entry_cursor_yields_declaration_order(c: VariantCursor)
    requires
        c.wf(),
        c.state == CursorState::Holding(0usize),
    ensures
        c.remaining() == Seq::new(c.len as nat, |k: int| k),
{
    assert(c.remaining() =~= Seq::new(c.len as nat, |k: int| k));
}

} // verus!
