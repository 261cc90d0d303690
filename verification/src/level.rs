//! The nesting-level tracker: a shared stack of group labels whose length is
//! the current nesting depth.
//!
//! The depth is increased only by opening a group and decreased only by
//! closing one. Popping an empty stack is deliberately a no-op: closing a
//! group that was never opened must be harmless, because a diagnostic
//! facility must never crash the host program.

use vstd::prelude::*;

verus! {

/// The effect of opening a group with label `label` on the level stack.
pub open spec fn open_levels(levels: Seq<Seq<char>>, label: Seq<char>) -> Seq<Seq<char>> {
    levels.push(label)
}

/// The effect of closing the most recently opened group on the level stack.
/// Closing with nothing open leaves the stack untouched.
pub open spec fn close_levels(levels: Seq<Seq<char>>) -> Seq<Seq<char>> {
    if levels.len() == 0 {
        levels
    } else {
        levels.drop_last()
    }
}

/// A properly nested (stack-like) sequence of group opens and closes:
/// either nothing, or one group — opened, its body run, then closed —
/// followed by further properly nested groups. A group whose call site the
/// filter denied is recorded with `enabled` false: it neither opens nor
/// closes anything.
pub enum Nested {
    Done,
    Group { enabled: bool, label: Seq<char>, inner: Box<Nested>, rest: Box<Nested> },
}

/// The level stack left after executing a properly nested sequence of group
/// opens and closes, starting from `levels`.
pub open spec fn run_groups(levels: Seq<Seq<char>>, n: Nested) -> Seq<Seq<char>>
    decreases n,
{
    match n {
        Nested::Done => levels,
        Nested::Group { enabled, label, inner, rest } => {
            if enabled {
                run_groups(close_levels(run_groups(open_levels(levels, label), *inner)), *rest)
            } else {
                run_groups(run_groups(levels, *inner), *rest)
            }
        },
    }
}

/// Law: any properly nested sequence of group opens and closes leaves the
/// level stack exactly as it found it — in particular, the nesting depth
/// returns to its pre-sequence value once every opened group has been
/// closed, no matter how deeply the groups nest and no matter which of them
/// the filter enabled.
pub proof fn lemma_nested_groups_restore_levels(levels: Seq<Seq<char>>, n: Nested)
    ensures
        run_groups(levels, n) == levels,
    decreases n,
{
    match n {
        Nested::Done => {},
        Nested::Group { enabled, label, inner, rest } => {
            if enabled {
                let opened = open_levels(levels, label);
                lemma_nested_groups_restore_levels(opened, *inner);
                assert(close_levels(opened) =~= levels);
                lemma_nested_groups_restore_levels(levels, *rest);
            } else {
                lemma_nested_groups_restore_levels(levels, *inner);
                lemma_nested_groups_restore_levels(levels, *rest);
            }
        },
    }
}

/// The nesting-level tracker: the stack of labels of the currently open
/// groups. Its length is the current nesting depth.
pub struct LevelTracker {
    levels: Vec<String>,
}

impl View for LevelTracker {
    type V = Seq<Seq<char>>;

    /// The stack of open-group labels, innermost last.
    closed spec fn view(&self) -> Seq<Seq<char>> {
        self.levels.deep_view()
    }
}

impl LevelTracker {
    /// A tracker with no group open: depth zero.
    pub fn new() -> (r: LevelTracker)
        ensures
            r@ == Seq::<Seq<char>>::empty(),
    {
        let r = LevelTracker { levels: Vec::new() };
        proof {
            assert(r@ =~= Seq::<Seq<char>>::empty());
        }
        r
    }

    /// The current nesting depth: the number of currently open groups.
    pub fn depth(&self) -> (r: usize)
        ensures
            r == self@.len(),
    {
        self.levels.len()
    }

    /// Record that a group with label `label` was opened: the depth grows
    /// by one.
    pub fn push(&mut self, label: &str)
        ensures
            final(self)@ == open_levels(old(self)@, label@),
    {
        self.levels.push(label.to_owned());
        proof {
            assert(self@ =~= open_levels(old(self)@, label@));
        }
    }

    /// Record that the most recently opened group was closed: the depth
    /// shrinks by one. Popping with no group open is a no-op.
    pub fn pop(&mut self)
        ensures
            final(self)@ == close_levels(old(self)@),
    {
        let _ = self.levels.pop();
        proof {
            assert(self@ =~= close_levels(old(self)@));
        }
    }
}

} // verus!
