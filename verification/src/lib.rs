//! Provides [`PacCell`] (a cell of a parent and a child).
//!
//! The cell bundles an owner (the parent) with a dependent value (the child)
//! that is built from an exclusive borrow of the owner. While the pair lives
//! in the cell, the owner cannot be reached in any way except through
//! [`PacCell::with_mut`], which re-establishes the child's borrow of the
//! parent for the extent of a single call. Tearing the cell down destroys the
//! child strictly before the parent.
//!
//! A stored value cannot keep a live `&mut` into its sibling field, so the
//! cell keeps the child's own state next to the parent and hands both to the
//! closure of each scoped access: the child, and the parent it borrows.

use vstd::prelude::*;

verus! {

/// A cell of a parent and a child, which is created by mutably borrowing the
/// parent. While the parent is in the cell, it cannot be accessed in any way.
/// Provides mutable access to the child, together with the parent borrow the
/// child was built over.
///
/// This is useful in a rare case when you need to store and move both
/// parent and their child together.
///
/// Basic usage:
/// ```
/// struct Hello {
///     world: i64,
/// }
/// let hello = Hello { world: 10 };
///
/// let mut pac = pac_cell::PacCell::new(hello, |_h| ());
///
/// let initial = pac.with_mut(|_dep, h| {
///     let i = h.world;
///     h.world = 12;
///     i
/// });
/// assert_eq!(initial, 10);
///
/// let hello_again = pac.unwrap();
/// assert_eq!(hello_again.world, 12);
/// ```
pub struct PacCell<P, C> {
    /// Child is declared before the parent, so it is dropped
    /// before the parent.
    child: C,
    parent: P,
}

impl<P, C> PacCell<P, C> {
    /// The parent currently stored in the cell.
    pub closed spec fn parent(self) -> P {
        self.parent
    }

    /// The child currently stored in the cell.
    pub closed spec fn child(self) -> C {
        self.child
    }

    /// Creates a cell by moving the parent into it and then calling
    /// the child constructor on an exclusive borrow of the stored parent.
    ///
    /// This runs the fallible construction underneath; a constructor of this
    /// shape cannot fail, so the error case is proven unreachable.
    pub fn new<F>(parent: P, child_constructor: F) -> (cell: Self)
        where F: FnOnce(&mut P) -> C,
        requires
            forall|m: &mut P|
                mut_ref_current(m) == parent ==> call_requires(child_constructor, (m,)),
        ensures
            exists|m: &mut P|
                mut_ref_current(m) == parent
                    && mut_ref_future(m) == cell.parent()
                    && call_ensures(child_constructor, (m,), cell.child()),
    {
        let result = Self::try_new(parent, |p: &mut P| -> (r: Result<C, ()>)
            requires
                forall|m: &mut P|
                    mut_ref_current(m) == mut_ref_current(p)
                        ==> call_requires(child_constructor, (m,)),
            ensures
                r is Ok,
                exists|m: &mut P|
                    mut_ref_current(m) == mut_ref_current(p)
                        && mut_ref_future(m) == mut_ref_future(p)
                        && call_ensures(child_constructor, (m,), r->Ok_0),
            {
                Ok(child_constructor(p))
            });
        match result {
            Ok(cell) => cell,
            Err(_) => vstd::pervasive::unreached(),
        }
    }

    /// Creates a cell by moving the parent into it and then calling
    /// the child constructor on an exclusive borrow of the stored parent.
    /// A constructor failure drops the parent exactly once and yields no cell.
    pub fn try_new<F, E>(parent: P, child_constructor: F) -> (result: Result<Self, E>)
        where F: FnOnce(&mut P) -> Result<C, E>,
        requires
            forall|m: &mut P|
                mut_ref_current(m) == parent ==> call_requires(child_constructor, (m,)),
        ensures
            match result {
                Ok(cell) => exists|m: &mut P|
                    mut_ref_current(m) == parent
                        && mut_ref_future(m) == cell.parent()
                        && call_ensures(child_constructor, (m,), Ok(cell.child())),
                Err(e) => exists|m: &mut P|
                    mut_ref_current(m) == parent
                        && call_ensures(child_constructor, (m,), Err(e)),
            },
    {
        let mut stored = parent;
        match child_constructor(&mut stored) {
            Ok(child) => Ok(PacCell { child, parent: stored }),
            Err(e) => Err(e),
        }
    }

    /// Executes a function with a mutable reference to the child, paired with
    /// the borrow of the parent that the child was built over.
    ///
    /// The closure cannot re-enter `with_mut` on the same cell: that would
    /// take a second exclusive borrow of a cell that is already borrowed for
    /// the extent of the call, which the borrow checker rejects.
    pub fn with_mut<F, R>(&mut self, f: F) -> (r: R)
        where F: FnOnce(&mut C, &mut P) -> R,
        requires
            forall|c: &mut C, p: &mut P|
                mut_ref_current(c) == old(self).child()
                    && mut_ref_current(p) == old(self).parent()
                    ==> call_requires(f, (c, p)),
        ensures
            exists|c: &mut C, p: &mut P|
                mut_ref_current(c) == old(self).child()
                    && mut_ref_current(p) == old(self).parent()
                    && mut_ref_future(c) == final(self).child()
                    && mut_ref_future(p) == final(self).parent()
                    && call_ensures(f, (c, p), r),
    {
        f(&mut self.child, &mut self.parent)
    }

    /// Drops the child and returns the parent.
    pub fn unwrap(self) -> (parent: P)
        ensures
            parent == self.parent(),
    {
        let PacCell { child: _, parent } = self;
        parent
    }
}

/// The interface of a resource that yields scoped access to its working
/// fluid.
///
/// A resource whose fluid is reached only through an intermediate handle can
/// implement this by bundling the handle chain into a [`PacCell`] and
/// returning the cell.
pub trait GetFluid {
    type Item<'a> where Self: 'a;

    fn get_fluid<'a>(&'a mut self) -> Self::Item<'a>;
}

/// A builder that reports what it found without touching the parent leaves
/// the constructed cell holding the parent exactly as it was moved in; by the
/// contract of [`PacCell::unwrap`], tearing such a cell down returns it
/// unchanged.
///
/// The facts required are the postcondition of [`PacCell::new`] for `cell`
/// together with the builder's promise never to alter the parent.
pub proof fn lemma_read_only_builder_preserves_parent<P, C, F: FnOnce(&mut P) -> C>(
    parent: P,
    child_constructor: F,
    cell: PacCell<P, C>,
)
    requires
        forall|m: &mut P, c: C|
            call_ensures(child_constructor, (m,), c) ==> mut_ref_future(m) == mut_ref_current(m),
        exists|m: &mut P|
            mut_ref_current(m) == parent
                && mut_ref_future(m) == cell.parent()
                && call_ensures(child_constructor, (m,), cell.child()),
    ensures
        cell.parent() == parent,
{
}

/// A mutation applied to the parent through the child's borrow during
/// [`PacCell::with_mut`] is visible in the parent the cell holds afterwards,
/// and therefore in the parent that [`PacCell::unwrap`] returns.
///
/// The facts required are the postcondition of `with_mut` relating `before`
/// and `after`, together with a description of what the closure does to the
/// parent it borrows.
pub proof fn lemma_with_mut_updates_parent<P, C, R, F: FnOnce(&mut C, &mut P) -> R>(
    before: PacCell<P, C>,
    after: PacCell<P, C>,
    f: F,
    r: R,
    update: spec_fn(P) -> P,
)
    requires
        forall|c: &mut C, p: &mut P, out: R|
            call_ensures(f, (c, p), out) ==> mut_ref_future(p) == update(mut_ref_current(p)),
        exists|c: &mut C, p: &mut P|
            mut_ref_current(c) == before.child()
                && mut_ref_current(p) == before.parent()
                && mut_ref_future(c) == after.child()
                && mut_ref_future(p) == after.parent()
                && call_ensures(f, (c, p), r),
    ensures
        after.parent() == update(before.parent()),
{
}

/// Round trip: a cell built by a builder that leaves the parent alone, then
/// mutated through exactly one [`PacCell::with_mut`] call, holds the original
/// parent with exactly that one mutation applied; `unwrap` returns nothing
/// more and nothing less.
pub proof fn lemma_round_trip<P, C, R, F: FnOnce(&mut P) -> C, G: FnOnce(&mut C, &mut P) -> R>(
    parent: P,
    child_constructor: F,
    cell: PacCell<P, C>,
    f: G,
    r: R,
    after: PacCell<P, C>,
    update: spec_fn(P) -> P,
)
    requires
        forall|m: &mut P, c: C|
            call_ensures(child_constructor, (m,), c) ==> mut_ref_future(m) == mut_ref_current(m),
        exists|m: &mut P|
            mut_ref_current(m) == parent
                && mut_ref_future(m) == cell.parent()
                && call_ensures(child_constructor, (m,), cell.child()),
        forall|c: &mut C, p: &mut P, out: R|
            call_ensures(f, (c, p), out) ==> mut_ref_future(p) == update(mut_ref_current(p)),
        exists|c: &mut C, p: &mut P|
            mut_ref_current(c) == cell.child()
                && mut_ref_current(p) == cell.parent()
                && mut_ref_future(c) == after.child()
                && mut_ref_future(p) == after.parent()
                && call_ensures(f, (c, p), r),
    ensures
        after.parent() == update(parent),
{
    lemma_read_only_builder_preserves_parent(parent, child_constructor, cell);
    lemma_with_mut_updates_parent(cell, after, f, r, update);
}

/// A builder that can only fail produces no cell: [`PacCell::try_new`] hands
/// back an error the builder reported, and the parent it consumed is gone.
///
/// The fact required is the postcondition of `try_new` for `result`.
pub proof fn lemma_failing_builder_yields_no_cell<P, C, E, F: FnOnce(&mut P) -> Result<C, E>>(
    parent: P,
    child_constructor: F,
    result: Result<PacCell<P, C>, E>,
)
    requires
        forall|m: &mut P, out: Result<C, E>|
            call_ensures(child_constructor, (m,), out) ==> out is Err,
        match result {
            Ok(cell) => exists|m: &mut P|
                mut_ref_current(m) == parent
                    && mut_ref_future(m) == cell.parent()
                    && call_ensures(child_constructor, (m,), Ok(cell.child())),
            Err(e) => exists|m: &mut P|
                mut_ref_current(m) == parent
                    && call_ensures(child_constructor, (m,), Err(e)),
        },
    ensures
        result is Err,
        exists|m: &mut P|
            mut_ref_current(m) == parent
                && call_ensures(child_constructor, (m,), Err(result->Err_0)),
{
}

} // verus!
