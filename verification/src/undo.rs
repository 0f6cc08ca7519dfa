use vstd::prelude::*;

verus! {

/// How many snapshots the undo history keeps.
pub const MAX_UNDO: usize = 20;

/// A bounded history of snapshots: the most recent one is undone first, and
/// once the history is full the oldest snapshot is forgotten.
pub struct UndoStack<T> {
    items: Vec<T>,
}

/// The history after `snap` was recorded on top of `old`.
pub open spec fn pushed<T>(old: Seq<T>, snap: T) -> Seq<T> {
    if old.len() + 1 > MAX_UNDO {
        old.push(snap).drop_first()
    } else {
        old.push(snap)
    }
}

impl<T> UndoStack<T> {
    /// The snapshots, oldest first.
    pub closed spec fn view(&self) -> Seq<T> {
        self.items@
    }

    #[verifier::type_invariant]
    closed spec fn bounded(&self) -> bool {
        self.items@.len() <= MAX_UNDO
    }

    /// An empty history.
    pub fn new() -> (r: Self)
        ensures
            r@ == Seq::<T>::empty(),
    {
        UndoStack { items: Vec::new() }
    }

    /// The number of snapshots held.
    pub fn len(&self) -> (r: usize)
        ensures
            r == self@.len(),
            r <= MAX_UNDO,
    {
        proof {
            use_type_invariant(self);
        }
        self.items.len()
    }
}

/// Records a snapshot; when the history then exceeds `MAX_UNDO` snapshots,
/// the oldest one is dropped.
pub fn push_snapshot<T>(stack: &mut UndoStack<T>, snap: T)
    ensures
        final(stack)@ == pushed(old(stack)@, snap),
        old(stack)@.len() <= MAX_UNDO,
        final(stack)@.len() <= MAX_UNDO,
{
    proof {
        use_type_invariant(&*stack);
    }
    let mut items = Vec::new();
    std::mem::swap(&mut items, &mut stack.items);
    items.push(snap);
    if items.len() > MAX_UNDO {
        items.remove(0);
    }
    stack.items = items;
}

/// Takes the most recent snapshot off the history; `None` when it is empty.
pub fn undo<T>(stack: &mut UndoStack<T>) -> (r: Option<T>)
    ensures
        old(stack)@.len() == 0 ==> r is None && final(stack)@ == old(stack)@,
        old(stack)@.len() > 0 ==> r == Some(old(stack)@.last()) && final(stack)@
            == old(stack)@.drop_last(),
{
    proof {
        use_type_invariant(&*stack);
    }
    let mut items = Vec::new();
    std::mem::swap(&mut items, &mut stack.items);
    let r = items.pop();
    stack.items = items;
    r
}

/// Whether there is a snapshot to undo.
pub fn can_undo<T>(stack: &UndoStack<T>) -> (r: bool)
    ensures
        r == (stack@.len() > 0),
{
    stack.items.len() > 0
}

/// Undoing right after recording a snapshot gives that snapshot back, and,
/// when the history was not full, leaves the history as it was before.
pub proof fn lemma_undo_returns_last_push<T>(old: Seq<T>, snap: T)
    requires
        old.len() <= MAX_UNDO,
    ensures
        pushed(old, snap).len() > 0,
        pushed(old, snap).last() == snap,
        old.len() < MAX_UNDO ==> pushed(old, snap).drop_last() == old,
        pushed(old, snap).len() <= MAX_UNDO,
{
    if old.len() < MAX_UNDO {
        assert(old.push(snap).drop_last() =~= old);
    }
}

/// A full history keeps its size: recording forgets exactly the oldest
/// snapshot and keeps the others in order.
pub proof fn lemma_full_history_slides<T>(old: Seq<T>, snap: T)
    requires
        old.len() == MAX_UNDO,
    ensures
        pushed(old, snap).len() == MAX_UNDO,
        pushed(old, snap) == old.drop_first().push(snap),
{
    assert(old.push(snap).drop_first() =~= old.drop_first().push(snap));
}

} // verus!
