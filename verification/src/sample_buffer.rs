use vstd::prelude::*;

verus! {

/// A ring buffer that keeps the last `SIZE` values pushed into it.
pub struct SampleBuffer<T: Default + Copy, const SIZE: usize> {
    buf: Vec<T>,
    index: usize,
}

impl<T: Default + Copy, const SIZE: usize> SampleBuffer<T, SIZE> {
    /// The invariant: `SIZE` slots and a write position inside them.
    pub closed spec fn wf(&self) -> bool {
        self.buf@.len() == SIZE && self.index < SIZE
    }

    /// The slots, from the oldest value to the newest.
    pub closed spec fn samples(&self) -> Seq<T> {
        self.buf@.subrange(self.index as int, SIZE as int) + self.buf@.subrange(0, self.index as int)
    }

    /// A buffer of `SIZE` default values.
    pub fn new() -> (r: Self)
        requires
            SIZE > 0,
        ensures
            r.wf(),
            r.samples().len() == SIZE,
            exists|d: T| #[trigger] is_default(d) && r.samples() == Seq::new(SIZE as nat, |i: int| d),
    {
        let d = T::default();
        let mut buf: Vec<T> = Vec::with_capacity(SIZE);
        let mut n: usize = 0;
        while n < SIZE
            invariant
                n <= SIZE,
                buf@ == Seq::new(n as nat, |i: int| d),
            decreases SIZE - n,
        {
            buf.push(d);
            n = n + 1;
            assert(buf@ =~= Seq::new(n as nat, |i: int| d));
        }
        let r = Self { buf, index: 0 };
        proof {
            assert(is_default(d));
            assert(r.samples() =~= Seq::new(SIZE as nat, |i: int| d));
        }
        r
    }

    /// Overwrites the oldest value with `val`.
    pub fn push(&mut self, val: T)
        requires
            old(self).wf(),
        ensures
            final(self).wf(),
            final(self).samples() == old(self).samples().drop_first().push(val),
            final(self).samples().len() == SIZE,
    {
        let ghost before = self.buf@;
        let ghost i = self.index as int;
        self.buf.set(self.index, val);
        self.index = self.index + 1;
        if self.index == SIZE {
            self.index = 0;
        }
        proof {
            let after = self.buf@;
            assert(after == before.update(i, val));
            if i + 1 == SIZE {
                assert(after.subrange(0, SIZE as int) =~= before.subrange(0, i) + seq![val]);
                assert(self.samples() =~= (before.subrange(i, SIZE as int) + before.subrange(0, i)).drop_first().push(val));
            } else {
                assert(self.samples() =~= (before.subrange(i, SIZE as int) + before.subrange(0, i)).drop_first().push(val));
            }
        }
    }

    /// The number of values the buffer holds.
    pub fn len(&self) -> (r: usize)
        ensures
            r == SIZE,
    {
        SIZE
    }

    /// The values as two slices, the older part first: together they hold the last `SIZE`
    /// values in the order in which they were pushed.
    pub fn get_samples(&self) -> (r: (&[T], &[T]))
        requires
            self.wf(),
        ensures
            r.0@ + r.1@ == self.samples(),
            r.0@.len() + r.1@.len() == SIZE,
    {
        let (s1, s2) = self.buf.as_slice().split_at(self.index);
        proof {
            assert(s2@ + s1@ =~= self.samples());
        }
        (s2, s1)
    }
}

/// Whether `d` is a value that `T::default()` returns.
pub open spec fn is_default<T: Default>(d: T) -> bool {
    call_ensures(T::default, (), d)
}

/// The values that a buffer holding `samples` holds after `vals` were pushed, in order.
pub open spec fn after_pushes<T>(samples: Seq<T>, vals: Seq<T>) -> Seq<T>
    decreases vals.len(),
{
    if vals.len() == 0 {
        samples
    } else {
        after_pushes(samples, vals.drop_last()).drop_first().push(vals.last())
    }
}

/// A buffer always holds the last values that went into it, oldest first: what it held before,
/// followed by what was pushed, cut to its size from the end. Once it has taken as many values
/// as it has slots, it holds exactly the last of them.
pub proof fn lemma_holds_last_pushed<T>(samples: Seq<T>, vals: Seq<T>)
    requires
        samples.len() > 0,
    ensures
        after_pushes(samples, vals) == (samples + vals).subrange(
            vals.len() as int,
            (vals.len() + samples.len()) as int,
        ),
        vals.len() >= samples.len() ==> after_pushes(samples, vals) == vals.subrange(
            vals.len() - samples.len(),
            vals.len() as int,
        ),
    decreases vals.len(),
{
    let n = vals.len() as int;
    let k = samples.len() as int;
    if n == 0 {
        assert((samples + vals).subrange(0, k) =~= samples);
    } else {
        let prev = vals.drop_last();
        lemma_holds_last_pushed(samples, prev);
        assert(samples + vals =~= (samples + prev).push(vals.last()));
        assert(after_pushes(samples, vals) =~= (samples + vals).subrange(n, n + k));
    }
    if n >= k {
        assert((samples + vals).subrange(n, n + k) =~= vals.subrange(n - k, n));
    }
}

} // verus!
