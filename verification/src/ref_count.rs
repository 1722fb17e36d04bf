//! The reference count carried by every object that CEF holds.
use vstd::prelude::*;

verus! {

/// Count after one more reference is taken: the counter wraps on overflow.
pub open spec fn counted_up(count: isize) -> isize {
    if count == isize::MAX {
        isize::MIN
    } else {
        (count + 1) as isize
    }
}

/// Count after one reference is given back.
pub open spec fn counted_down(count: isize) -> isize {
    (count - 1) as isize
}

/// Count after `k` more references are taken, one after the other.
pub open spec fn counted_up_times(count: isize, k: nat) -> isize
    decreases k,
{
    if k == 0 {
        count
    } else {
        counted_up_times(counted_up(count), (k - 1) as nat)
    }
}

/// Count once every reference still held is given back.
pub open spec fn all_released(count: isize) -> isize {
    if count >= 1 {
        0
    } else {
        count
    }
}

/// What `release` reports: `1` when the count fell below one, so that the
/// object is to be destroyed, `0` otherwise.
pub open spec fn release_report(count: isize) -> i32 {
    if count - 1 < 1 {
        1
    } else {
        0
    }
}

/// A reference count, in the shape of CEF's `cef_base_ref_counted_t`
/// protocol.
#[derive(Debug)]
pub struct RefCount {
    pub count: isize,
}

impl RefCount {
    /// A count that starts at `initial`.
    pub fn new(initial: isize) -> (r: RefCount)
        ensures
            r.count == initial,
    {
        RefCount { count: initial }
    }

    /// The current count.
    pub fn load(&self) -> (r: isize)
        ensures
            r == self.count,
    {
        self.count
    }

    /// Takes one more reference.
    pub fn add_ref(&mut self)
        ensures
            final(self).count == counted_up(old(self).count),
            old(self).count < isize::MAX ==> final(self).count == old(self).count + 1,
            old(self).count == isize::MAX ==> final(self).count == isize::MIN,
    {
        self.count = self.count.wrapping_add(1);
    }

    /// Gives one reference back; the result tells whether the object is to
    /// be destroyed now.
    pub fn release(&mut self) -> (freed: i32)
        requires
            old(self).count > isize::MIN,
        ensures
            final(self).count == counted_down(old(self).count),
            freed == release_report(old(self).count),
            final(self).count == old(self).count - 1,
            freed == 1 <==> old(self).count <= 1,
            freed == 0 <==> old(self).count > 1,
    {
        self.count = self.count - 1;
        if self.count < 1 {
            1
        } else {
            0
        }
    }

    /// `1` when exactly one reference is held, `0` otherwise.
    pub fn has_one_ref(&self) -> (r: i32)
        ensures
            r == (if self.count == 1 { 1i32 } else { 0i32 }),
    {
        if self.count == 1 {
            1
        } else {
            0
        }
    }

    /// `1` when at least one reference is held, `0` otherwise.
    pub fn has_at_least_one_ref(&self) -> (r: i32)
        ensures
            r == (if self.count >= 1 { 1i32 } else { 0i32 }),
    {
        if self.count >= 1 {
            1
        } else {
            0
        }
    }

    /// Gives back every reference still held, one `release` at a time, as
    /// long as `has_at_least_one_ref` reports one. The result tells whether
    /// one of these releases reported the object to be destroyed.
    pub fn release_all(&mut self) -> (freed: bool)
        ensures
            final(self).count == all_released(old(self).count),
            old(self).count >= 1 ==> final(self).count == 0,
            old(self).count < 1 ==> final(self).count == old(self).count,
            freed == (old(self).count >= 1),
    {
        let ghost start = self.count;
        let mut freed = false;
        while self.has_at_least_one_ref() == 1
            invariant
                start >= 1 ==> 0 <= self.count <= start,
                start < 1 ==> self.count == start,
                freed == (start >= 1 && self.count < 1),
            decreases self.count,
        {
            let r: i32 = self.release();
            if r == 1 {
                freed = true;
            }
        }
        freed
    }
}

/// Taking a reference and giving it back leaves the count as it was, and the
/// release reports the object destroyed only when no reference was held
/// before.
pub proof fn lemma_add_then_release(count: isize)
    requires
        count < isize::MAX,
    ensures
        counted_down(counted_up(count)) == count,
        release_report(counted_up(count)) == (if count >= 1 { 0i32 } else { 1i32 }),
{
}

/// While references are held, a release reports the object destroyed
/// exactly when it gives back the last one, and then no reference is left.
pub proof fn lemma_release_frees_at_last(count: isize)
    requires
        count >= 1,
    ensures
        release_report(count) == 1 <==> count == 1,
        release_report(count) == 1 ==> counted_down(count) == 0,
        release_report(count) == 0 ==> counted_down(count) >= 1,
{
}

/// Taking `k` references one after the other adds `k` to the count, as long
/// as the count stays at most `isize::MAX`.
pub proof fn lemma_add_ref_times(count: isize, k: nat)
    requires
        count + k <= isize::MAX,
    ensures
        counted_up_times(count, k) == count + k,
    decreases k,
{
    if k > 0 {
        lemma_add_ref_times(counted_up(count), (k - 1) as nat);
    }
}

/// What the counting steps do to a count: taking a reference adds one,
/// wrapping only at the top; giving one back takes one away; a release
/// reports the object destroyed exactly when at most one reference was held;
/// giving back every reference leaves none, and a count below one as it is.
pub proof fn lemma_counting_steps(count: isize)
    ensures
        count < isize::MAX ==> counted_up(count) == count + 1,
        count == isize::MAX ==> counted_up(count) == isize::MIN,
        count > isize::MIN ==> counted_down(count) == count - 1,
        release_report(count) == 1 <==> count <= 1,
        release_report(count) == 0 <==> count > 1,
        count >= 1 ==> all_released(count) == 0,
        count < 1 ==> all_released(count) == count,
{
}

} // verus!
