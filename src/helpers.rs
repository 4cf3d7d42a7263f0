use vstd::prelude::*;

verus! {

/// A plain, copyable foreign handle.
pub trait IsRawPtr: Copy {

}

/// One reference-count operation that the host must carry out on a handle.
#[derive(Debug, PartialEq, Eq)]
pub enum RefOp<T> {
    Retain(T),
    Release(T),
}

/// How many retains a run of operations holds.
pub open spec fn count_retains<T>(ops: Seq<RefOp<T>>) -> nat
    decreases ops.len(),
{
    if ops.len() == 0 {
        0
    } else {
        count_retains(ops.drop_last()) + if ops.last() is Retain {
            1nat
        } else {
            0nat
        }
    }
}

/// How many releases a run of operations holds.
pub open spec fn count_releases<T>(ops: Seq<RefOp<T>>) -> nat
    decreases ops.len(),
{
    if ops.len() == 0 {
        0
    } else {
        count_releases(ops.drop_last()) + if ops.last() is Release {
            1nat
        } else {
            0nat
        }
    }
}

/// What constructing a wrapper asks of the engine: one retain, unless the
/// caller already holds a reference.
pub open spec fn new_ops<T>(ptr: T, already_retained: bool) -> Seq<RefOp<T>> {
    if already_retained {
        Seq::empty()
    } else {
        seq![RefOp::Retain(ptr)]
    }
}

/// `n` copies of one operation.
pub open spec fn repeat_op<T>(op: RefOp<T>, n: nat) -> Seq<RefOp<T>> {
    Seq::new(n, |i: int| op)
}

/// A counted reference to a foreign handle: it accounts for exactly one
/// reference count of the handle from construction to release.
pub struct RetainReleaseWrapper<T: IsRawPtr> {
    ptr: T,
}

impl<T: IsRawPtr> View for RetainReleaseWrapper<T> {
    type V = T;

    closed spec fn view(&self) -> T {
        self.ptr
    }
}

impl<T: IsRawPtr> RetainReleaseWrapper<T> {
    /// Wraps `ptr`. Unless `already_retained`, a retain of `ptr` is logged.
    pub fn new(ptr: T, already_retained: bool, log: &mut Vec<RefOp<T>>) -> (r: Self)
        ensures
            r@ == ptr,
            final(log)@ == old(log)@ + new_ops(ptr, already_retained),
    {
        if !already_retained {
            log.push(RefOp::Retain(ptr));
        }
        RetainReleaseWrapper { ptr }
    }

    /// A second counted reference to the same handle; logs one retain.
    pub fn retain_clone(&self, log: &mut Vec<RefOp<T>>) -> (r: Self)
        ensures
            r@ == self@,
            final(log)@ == old(log)@.push(RefOp::Retain(self@)),
    {
        log.push(RefOp::Retain(self.ptr));
        RetainReleaseWrapper { ptr: self.ptr }
    }

    /// Gives up this reference; logs one release.
    pub fn release(self, log: &mut Vec<RefOp<T>>)
        ensures
            final(log)@ == old(log)@.push(RefOp::Release(self@)),
    {
        log.push(RefOp::Release(self.ptr));
    }

    /// The raw handle, for passing to the engine.
    pub fn get(&self) -> (r: T)
        ensures
            r == self@,
    {
        self.ptr
    }
}

/// Counting distributes over concatenation.
pub proof fn lemma_counts_concat<T>(a: Seq<RefOp<T>>, b: Seq<RefOp<T>>)
    ensures
        count_retains(a + b) == count_retains(a) + count_retains(b),
        count_releases(a + b) == count_releases(a) + count_releases(b),
    decreases b.len(),
{
    if b.len() == 0 {
        assert(a + b =~= a);
    } else {
        lemma_counts_concat(a, b.drop_last());
        assert((a + b).drop_last() =~= a + b.drop_last());
    }
}

/// A run of `n` copies of one operation counts `n` of its kind and none of the other.
pub proof fn lemma_counts_repeat<T>(op: RefOp<T>, n: nat)
    ensures
        count_retains(repeat_op(op, n)) == if op is Retain {
            n
        } else {
            0
        },
        count_releases(repeat_op(op, n)) == if op is Release {
            n
        } else {
            0
        },
    decreases n,
{
    if n > 0 {
        lemma_counts_repeat(op, (n - 1) as nat);
        assert(repeat_op(op, n).drop_last() =~= repeat_op(op, (n - 1) as nat));
    }
}

/// Constructing a wrapper, cloning it `n` times and releasing all `n + 1`
/// wrappers asks for exactly `n` retains beyond the one of construction (none
/// when the handle came already retained), and exactly `n + 1` releases.
pub proof fn lemma_clone_release_balance<T>(ptr: T, already_retained: bool, n: nat)
    ensures
        ({
            let ops = new_ops(ptr, already_retained) + repeat_op(RefOp::Retain(ptr), n)
                + repeat_op(RefOp::Release(ptr), n + 1);
            &&& count_retains(ops) == n + if already_retained {
                0nat
            } else {
                1nat
            }
            &&& count_releases(ops) == n + 1
        }),
{
    let a = new_ops(ptr, already_retained);
    let b = repeat_op(RefOp::Retain(ptr), n);
    let c = repeat_op(RefOp::Release(ptr), n + 1);
    lemma_counts_concat(a + b, c);
    lemma_counts_concat(a, b);
    lemma_counts_repeat(RefOp::Retain(ptr), n);
    lemma_counts_repeat(RefOp::Release(ptr), n + 1);
    if !already_retained {
        assert(a.drop_last() =~= Seq::<RefOp<T>>::empty());
        assert(count_retains(a.drop_last()) == 0);
        assert(count_releases(a.drop_last()) == 0);
        assert(a.last() == RefOp::Retain(ptr));
        assert(count_retains(a) == 1);
        assert(count_releases(a) == 0);
    } else {
        assert(count_retains(a) == 0);
        assert(count_releases(a) == 0);
    }
}

} // verus!
