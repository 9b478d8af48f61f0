use vstd::prelude::*;

verus! {

/// A storage cell that is read-only for most of its lifetime.
///
/// A `RoCell` holds a value that is written once during a set-up phase and
/// then read, at plain-reference cost, for the rest of the program. The cell
/// keeps no runtime occupancy flag and performs no synchronisation: whether
/// the slot currently holds a value is tracked purely at the specification
/// level, through the cell's view. Every operation states as a precondition
/// the occupancy it needs, and callers discharge that obligation statically
/// instead of paying for a runtime check.
///
/// The view of a cell is an `Option<T>`: `None` while the cell is logically
/// uninitialized, and `Some(v)` once a value `v` occupies the slot.
///
/// Destroying a cell that was never initialized is a no-op for the contained
/// type: no cleanup runs on an empty slot. Destroying an initialized cell
/// runs the contained value's cleanup exactly once.
pub struct RoCell<T> {
    slot: Option<T>,
}

impl<T> View for RoCell<T> {
    type V = Option<T>;

    closed spec fn view(&self) -> Option<T> {
        self.slot
    }
}

/// The view of a cell right after `value` has been written into its slot.
///
/// Every write — construction, initialization, replacement, or a store
/// through the mutable view — leaves the cell in exactly this state.
pub open spec fn written<T>(value: T) -> Option<T> {
    Some(value)
}

/// The value that a read of a cell with view `m` yields.
pub open spec fn read_of<T>(m: Option<T>) -> T
    recommends
        m is Some,
{
    m->Some_0
}

impl<T> RoCell<T> {
    /// Build a cell that already holds `value`.
    pub fn new(value: T) -> (cell: Self)
        ensures
            cell@ == written(value),
    {
        RoCell { slot: Some(value) }
    }

    /// Build a cell whose slot is empty.
    ///
    /// The cell must be initialized before any read, replacement or mutable
    /// view is taken of it; until then its view is `None` and every reading
    /// operation's precondition rules it out.
    pub fn new_uninit() -> (cell: Self)
        ensures
            cell@ is None,
    {
        RoCell { slot: None }
    }

    /// Write `value` into an empty cell.
    ///
    /// The slot must not already hold a value: writing over an occupied slot
    /// would lose the old value without running its cleanup, so that misuse
    /// is ruled out by the precondition.
    pub fn init(this: &mut Self, value: T)
        requires
            old(this)@ is None,
        ensures
            final(this)@ == written(value),
    {
        this.slot = Some(value);
    }

    /// Swap `value` into an occupied cell and hand the previous contents
    /// back to the caller, who becomes responsible for their cleanup.
    pub fn replace(this: &mut Self, value: T) -> (prev: T)
        requires
            old(this)@ is Some,
        ensures
            prev == read_of(old(this)@),
            final(this)@ == written(value),
    {
        let prev = this.slot.take();
        this.slot = Some(value);
        prev.unwrap()
    }

    /// Take a mutable view into the current value of an occupied cell.
    ///
    /// Whatever the caller leaves behind through the returned reference is
    /// what the cell holds afterwards: the next read observes that store.
    pub fn as_mut(this: &mut Self) -> (r: &mut T)
        requires
            old(this)@ is Some,
        ensures
            *r == read_of(old(this)@),
            final(this)@ == written(*final(r)),
    {
        match &mut this.slot {
            Some(v) => v,
            None => vstd::pervasive::unreached(),
        }
    }

    /// Take a read-only view into the current value of an occupied cell.
    pub fn deref(&self) -> (r: &T)
        requires
            self@ is Some,
        ensures
            *r == read_of(self@),
    {
        match &self.slot {
            Some(v) => v,
            None => vstd::pervasive::unreached(),
        }
    }
}

/// Initializing an empty cell with a value and then reading it yields that
/// value again: `init` leaves the view `written(v)`, which is occupied, and
/// a read of that view can only return `v`.
pub proof fn lemma_init_then_read<T>(v: T)
    ensures
        written(v) is Some,
        read_of(written(v)) == v,
{
}

/// A store observed by the next read: whatever value is left in the slot —
/// by `replace`, or through the reference that `as_mut` hands out — is what
/// a subsequent read yields.
pub proof fn lemma_read_after_write<T>(w: T)
    ensures
        read_of(written(w)) == w,
{
}

/// Replacing the contents of a cell built around `v1` with `v2` hands `v1`
/// back, and a subsequent read yields `v2`: the view after construction is
/// `written(v1)`, so `replace` returns its contents `v1` and leaves
/// `written(v2)` behind.
pub proof fn lemma_replace_returns_previous<T>(v1: T, v2: T)
    ensures
        written(v1) is Some,
        read_of(written(v1)) == v1,
        read_of(written(v2)) == v2,
{
}

/// Two replacements in a row return the values they displace, oldest first,
/// and leave the last value in the cell: starting from `written(v1)`, the
/// first `replace` returns `v1` and leaves `written(v2)`, the second returns
/// `v2` and leaves `written(v3)`, whose contents are `v3`.
pub proof fn lemma_replace_round_trip<T>(v1: T, v2: T, v3: T)
    ensures
        written(v1) is Some,
        read_of(written(v1)) == v1,
        written(v2) is Some,
        read_of(written(v2)) == v2,
        read_of(written(v3)) == v3,
{
}

} // verus!
