//! Fixed-capacity circular buffer with a pluggable overflow policy.
//!
//! Elements live at logical positions `0 .. len`, mapped onto physical slots
//! `(pos + i) mod N`. Under the [`Ignore`] policy a push into a full buffer
//! fails and leaves the buffer unchanged; under the [`Overwrite`] policy a
//! push into a full buffer drops the oldest element.

use core::marker::PhantomData;
use vstd::prelude::*;

verus! {

#[derive(Debug, Clone, Copy, PartialEq, Eq, Structural)]
pub enum RingBufferError {
    Overflow,
}

impl RingBufferError {
    /// Turns an `Overflow` failure into success; every other result is kept.
    /// (`Overflow` is the only error this buffer produces, so the result is
    /// always `Ok`.)
    pub fn result_ignore_overflow(r: Result<(), RingBufferError>) -> (out: Result<
        (),
        RingBufferError,
    >)
        ensures
            out is Ok,
    {
        match r {
            Ok(()) => Ok(()),
            Err(RingBufferError::Overflow) => Ok(()),
        }
    }
}

/// Closed marker bound: only the two policies below may implement
/// [`OnOverflow`].
pub trait Sealed {

}

/// Marker for the buffer's behaviour when `push_back` meets a full buffer.
pub trait OnOverflow: Sealed {

}

/// Push into a full buffer drops the oldest element.
pub struct Overwrite;

/// Push into a full buffer fails and changes nothing.
pub struct Ignore;

impl Sealed for Ignore {

}

impl Sealed for Overwrite {

}

impl OnOverflow for Ignore {

}

impl OnOverflow for Overwrite {

}

/// Physical slot of the logical position `off` places after `pos`, in a
/// buffer of `n` slots; equals `(pos + off) % n` for `pos < n`, `off <= n`.
pub open spec fn wrap_spec(pos: int, off: int, n: int) -> int {
    if pos + off < n {
        pos + off
    } else {
        pos + off - n
    }
}

pub struct RingBuffer<T, const N: usize, OVERFLOW: OnOverflow> {
    buf: Vec<Option<T>>,
    pos: usize,
    len: usize,
    phantom: PhantomData<OVERFLOW>,
}

impl<T, const N: usize, OVERFLOW: OnOverflow> View for RingBuffer<T, N, OVERFLOW> {
    type V = Seq<T>;

    /// The buffer's contents in logical order, oldest first.
    closed spec fn view(&self) -> Seq<T> {
        Seq::new(
            self.len as nat,
            |i: int| self.buf@[wrap_spec(self.pos as int, i, N as int)]->0,
        )
    }
}

impl<T, const N: usize, OVERFLOW: OnOverflow> RingBuffer<T, N, OVERFLOW> {
    /// Representation invariant: every constructor establishes it and every
    /// method preserves it.
    pub closed spec fn well_formed(&self) -> bool {
        &&& self.buf@.len() == N
        &&& self.len <= N
        &&& if N == 0 {
            self.pos == 0
        } else {
            self.pos < N
        }
        &&& forall|i: int|
            0 <= i < self.len ==> (#[trigger] self.buf@[wrap_spec(
                self.pos as int,
                i,
                N as int,
            )]) is Some
    }

    pub fn new() -> (rb: Self)
        ensures
            rb.well_formed(),
            rb@ == Seq::<T>::empty(),
    {
        let mut buf: Vec<Option<T>> = Vec::new();
        while buf.len() < N
            invariant
                buf@.len() <= N,
            decreases N - buf.len(),
        {
            buf.push(None);
        }
        let rb = Self { buf, pos: 0, len: 0, phantom: PhantomData };
        proof {
            assert(rb@ =~= Seq::<T>::empty());
        }
        rb
    }

    pub fn len(&self) -> (l: usize)
        ensures
            l == self@.len(),
    {
        self.len
    }

    /// Physical slot `off` places after `self.pos`, computed without overflow.
    fn slot(&self, off: usize) -> (s: usize)
        requires
            self.well_formed(),
            off <= N,
            N > 0,
        ensures
            s == wrap_spec(self.pos as int, off as int, N as int),
            s < N,
    {
        let room = N - self.pos;
        if off >= room {
            off - room
        } else {
            self.pos + off
        }
    }

    pub fn pop_front(&mut self) -> (r: Option<T>)
        requires
            old(self).well_formed(),
        ensures
            final(self).well_formed(),
            old(self)@.len() == 0 ==> r is None && final(self)@ == old(self)@,
            old(self)@.len() > 0 ==> r == Some(old(self)@[0]) && final(self)@ == old(self)@.drop_first(),
    {
        if self.len == 0 {
            None
        } else {
            let ghost old_self = *self;
            let i = self.slot(0);
            let mut taken: Option<T> = None;
            core::mem::swap(&mut taken, &mut self.buf[i]);
            self.pos = if self.pos + 1 == N {
                0
            } else {
                self.pos + 1
            };
            self.len = self.len - 1;
            proof {
                assert forall|k: int| 0 <= k < self.len implies (#[trigger] self.buf@[wrap_spec(
                    self.pos as int,
                    k,
                    N as int,
                )]) is Some by {
                    assert(wrap_spec(self.pos as int, k, N as int) == wrap_spec(
                        old_self.pos as int,
                        k + 1,
                        N as int,
                    ));
                }
                assert(self@ =~= old_self@.drop_first());
            }
            taken
        }
    }

    pub fn pop_back(&mut self) -> (r: Option<T>)
        requires
            old(self).well_formed(),
        ensures
            final(self).well_formed(),
            old(self)@.len() == 0 ==> r is None && final(self)@ == old(self)@,
            old(self)@.len() > 0 ==> r == Some(old(self)@.last()) && final(self)@ == old(self)@.drop_last(),
    {
        if self.len == 0 {
            None
        } else {
            let ghost old_self = *self;
            let i = self.slot(self.len - 1);
            let mut taken: Option<T> = None;
            core::mem::swap(&mut taken, &mut self.buf[i]);
            self.len = self.len - 1;
            proof {
                assert(self@ =~= old_self@.drop_last());
            }
            taken
        }
    }

    pub fn get(&self, index: usize) -> (r: Option<&T>)
        requires
            self.well_formed(),
        ensures
            index < self@.len() ==> (r matches Some(v) && *v == self@[index as int]),
            index >= self@.len() ==> r is None,
    {
        if index < self.len {
            let i = self.slot(index);
            match &self.buf[i] {
                Some(v) => Some(v),
                None => None,
            }
        } else {
            None
        }
    }

    pub fn front(&self) -> (r: Option<&T>)
        requires
            self.well_formed(),
        ensures
            self@.len() > 0 ==> (r matches Some(v) && *v == self@[0]),
            self@.len() == 0 ==> r is None,
    {
        self.get(0)
    }

    /// Mutable access to the element at a logical position; the buffer's
    /// contents afterwards reflect whatever the caller wrote through the
    /// reference.
    pub fn get_mut(&mut self, index: usize) -> (r: Option<&mut T>)
        requires
            old(self).well_formed(),
        ensures
            final(self).well_formed(),
            index >= old(self)@.len() ==> r is None && final(self)@ == old(self)@,
            index < old(self)@.len() ==> (r matches Some(v) && *v == old(self)@[index as int]
                && final(self)@ == old(self)@.update(index as int, *final(v))),
    {
        if index >= self.len {
            None
        } else {
            let ghost old_self = *self;
            let i = self.slot(index);
            let r = match &mut self.buf[i] {
                Some(v) => Some(v),
                None => None,
            };
            proof {
                assert(old_self.buf@[wrap_spec(old_self.pos as int, index as int, N as int)]
                    is Some);
            }
            r
        }
    }

    /// Mutable access to the oldest element; the buffer's contents afterwards
    /// reflect whatever the caller wrote through the reference.
    pub fn front_mut(&mut self) -> (r: Option<&mut T>)
        requires
            old(self).well_formed(),
        ensures
            final(self).well_formed(),
            old(self)@.len() == 0 ==> r is None && final(self)@ == old(self)@,
            old(self)@.len() > 0 ==> (r matches Some(v) && *v == old(self)@[0] && final(self)@
                == old(self)@.update(0, *final(v))),
    {
        if self.len == 0 {
            None
        } else {
            let ghost old_self = *self;
            let i = self.slot(0);
            let r = match &mut self.buf[i] {
                Some(v) => Some(v),
                None => None,
            };
            proof {
                assert(old_self.buf@[wrap_spec(old_self.pos as int, 0, N as int)] is Some);
            }
            r
        }
    }

    pub fn back(&self) -> (r: Option<&T>)
        requires
            self.well_formed(),
        ensures
            self@.len() > 0 ==> (r matches Some(v) && *v == self@.last()),
            self@.len() == 0 ==> r is None,
    {
        if self.len != 0 {
            self.get(self.len - 1)
        } else {
            None
        }
    }

    /// Mutable access to the newest element; the buffer's contents afterwards
    /// reflect whatever the caller wrote through the reference.
    pub fn back_mut(&mut self) -> (r: Option<&mut T>)
        requires
            old(self).well_formed(),
        ensures
            final(self).well_formed(),
            old(self)@.len() == 0 ==> r is None && final(self)@ == old(self)@,
            old(self)@.len() > 0 ==> (r matches Some(v) && *v == old(self)@.last() && final(self)@ == old(self)@.update(old(self)@.len() - 1, *final(v))),
    {
        if self.len != 0 {
            self.get_mut(self.len - 1)
        } else {
            None
        }
    }
}

impl<T, const N: usize> RingBuffer<T, N, Ignore> {
    /// Reject-on-overflow push: fails, changing nothing, exactly when the
    /// buffer is full.
    pub fn push_back(&mut self, v: T) -> (r: Result<(), RingBufferError>)
        requires
            old(self).well_formed(),
        ensures
            final(self).well_formed(),
            r is Ok <==> old(self)@.len() < N,
            r is Ok ==> final(self)@ == old(self)@.push(v),
            r is Err ==> final(self)@ == old(self)@ && r == Err::<(), RingBufferError>(
                RingBufferError::Overflow,
            ),
    {
        if self.len == N {
            return Err(RingBufferError::Overflow);
        }
        let ghost old_self = *self;
        let i = self.slot(self.len);
        self.buf[i] = Some(v);
        self.len = self.len + 1;
        proof {
            assert forall|k: int| 0 <= k < self.len implies (#[trigger] self.buf@[wrap_spec(
                self.pos as int,
                k,
                N as int,
            )]) is Some by {}
            assert(self@ =~= old_self@.push(v));
        }
        Ok(())
    }

    /// Moves as many elements of `items` into the buffer as fit, in order;
    /// fails with `Overflow` when some did not fit.
    pub fn extend(&mut self, items: Vec<T>) -> (r: Result<(), RingBufferError>)
        requires
            old(self).well_formed(),
        ensures
            final(self).well_formed(),
            final(self)@ == old(self)@ + items@.take(fitting(old(self)@.len() as int, items@.len() as int, N as int)),
            r is Ok <==> old(self)@.len() + items@.len() <= N,
            r is Err ==> r == Err::<(), RingBufferError>(RingBufferError::Overflow),
    {
        let ghost all = items@;
        let ghost start = self@;
        let mut rest = items;
        while rest.len() > 0 && self.len < N
            invariant
                self.well_formed(),
                rest@ == all.skip(all.len() - rest@.len()),
                rest@.len() <= all.len(),
                self@ == start + all.take(all.len() - rest@.len()),
                start.len() + all.len() - rest@.len() == self@.len(),
            decreases rest.len(),
        {
            let x = rest.remove(0);
            let ghost consumed = all.len() - rest@.len();
            let ok = self.push_back(x);
            proof {
                assert(ok is Ok);
                assert(all.take(consumed as int) == all.take(consumed - 1).push(all[consumed - 1]));
                assert(rest@ =~= all.skip(all.len() - rest@.len()));
            }
        }
        proof {
            assert(all.take(fitting(start.len() as int, all.len() as int, N as int)) =~= all.take(
                all.len() - rest@.len(),
            ));
        }
        if rest.len() == 0 {
            Ok(())
        } else {
            Err(RingBufferError::Overflow)
        }
    }
}

/// How many of `extra` new elements fit beside `len` existing ones under
/// capacity `n`: `min(extra, n - len)`.
pub open spec fn fitting(len: int, extra: int, n: int) -> int {
    if extra <= n - len {
        extra
    } else {
        n - len
    }
}

impl<T: Copy, const N: usize> RingBuffer<T, N, Ignore> {
    /// Copies as many elements of `s` into the buffer as fit, in order; fails
    /// with `Overflow` when some did not fit.
    pub fn extend_from_slice(&mut self, s: &[T]) -> (r: Result<(), RingBufferError>)
        requires
            old(self).well_formed(),
        ensures
            final(self).well_formed(),
            final(self)@ == old(self)@ + s@.take(fitting(old(self)@.len() as int, s@.len() as int, N as int)),
            r is Ok <==> old(self)@.len() + s@.len() <= N,
            r is Err ==> r == Err::<(), RingBufferError>(RingBufferError::Overflow),
    {
        let ghost start = self@;
        let mut i: usize = 0;
        while i < s.len() && self.len < N
            invariant
                self.well_formed(),
                i <= s@.len(),
                self@ == start + s@.take(i as int),
                start.len() + i == self@.len(),
            decreases s@.len() - i,
        {
            let x = s[i];
            let ok = self.push_back(x);
            i = i + 1;
            proof {
                assert(ok is Ok);
                assert(s@.take(i as int) == s@.take(i - 1).push(s@[i - 1]));
            }
        }
        proof {
            assert(s@.take(fitting(start.len() as int, s@.len() as int, N as int)) =~= s@.take(
                i as int,
            ));
        }
        if i == s.len() {
            Ok(())
        } else {
            Err(RingBufferError::Overflow)
        }
    }

    /// Copying variant of [`Self::extend`] for borrowed elements.
    pub fn extend_from_refs(&mut self, s: &[T]) -> (r: Result<(), RingBufferError>)
        requires
            old(self).well_formed(),
        ensures
            final(self).well_formed(),
            final(self)@ == old(self)@ + s@.take(fitting(old(self)@.len() as int, s@.len() as int, N as int)),
            r is Ok <==> old(self)@.len() + s@.len() <= N,
            r is Err ==> r == Err::<(), RingBufferError>(RingBufferError::Overflow),
    {
        self.extend_from_slice(s)
    }
}

/// One overwrite-policy push at the level of the buffer's view: appends `v`,
/// dropping the oldest element when `s` is already at capacity `n`.
pub open spec fn ow_push<T>(s: Seq<T>, v: T, n: int) -> Seq<T> {
    if s.len() < n {
        s.push(v)
    } else {
        s.drop_first().push(v)
    }
}

impl<T, const N: usize> RingBuffer<T, N, Overwrite> {
    /// Overwrite-oldest push: always succeeds; a full buffer drops its oldest
    /// element to make room.
    pub fn push_back(&mut self, v: T)
        requires
            old(self).well_formed(),
            N > 0,
        ensures
            final(self).well_formed(),
            final(self)@ == ow_push(old(self)@, v, N as int),
            old(self)@.len() < N ==> final(self)@ == old(self)@.push(v),
            old(self)@.len() == N ==> final(self)@ == old(self)@.drop_first().push(v),
    {
        let ghost old_self = *self;
        if self.len == N {
            self.buf[self.pos] = Some(v);
            self.pos = if self.pos + 1 == N {
                0
            } else {
                self.pos + 1
            };
            proof {
                assert forall|k: int| 0 <= k < self.len implies (#[trigger] self.buf@[wrap_spec(
                    self.pos as int,
                    k,
                    N as int,
                )]) is Some by {
                    assert(wrap_spec(self.pos as int, k, N as int) == if k < N - 1 {
                        wrap_spec(old_self.pos as int, k + 1, N as int)
                    } else {
                        old_self.pos as int
                    });
                }
                assert(self@ =~= old_self@.drop_first().push(v));
            }
        } else {
            let i = self.slot(self.len);
            self.buf[i] = Some(v);
            self.len = self.len + 1;
            proof {
                assert forall|k: int| 0 <= k < self.len implies (#[trigger] self.buf@[wrap_spec(
                    self.pos as int,
                    k,
                    N as int,
                )]) is Some by {}
                assert(self@ =~= old_self@.push(v));
            }
        }
    }
}

/// Result of overwrite-pushing every element of `xs`, in order, onto a buffer
/// whose contents are `s`, at capacity `n`.
pub open spec fn ow_push_all<T>(s: Seq<T>, xs: Seq<T>, n: int) -> Seq<T>
    decreases xs.len(),
{
    if xs.len() == 0 {
        s
    } else {
        ow_push_all(ow_push(s, xs[0], n), xs.drop_first(), n)
    }
}

/// The last `n` elements of `s` (all of `s` when it is shorter).
pub open spec fn last_n<T>(s: Seq<T>, n: int) -> Seq<T> {
    if s.len() <= n {
        s
    } else {
        s.skip(s.len() - n)
    }
}

/// Under the reject policy (and every other policy) the number of buffered
/// elements never exceeds the capacity.
pub proof fn lemma_capacity_invariant<T, const N: usize, OVERFLOW: OnOverflow>(
    rb: &RingBuffer<T, N, OVERFLOW>,
)
    requires
        rb.well_formed(),
    ensures
        rb@.len() <= N,
{
}

/// Overwrite-policy total ordering: pushing any sequence `xs` of elements
/// onto a buffer holding `s` always succeeds and leaves exactly the last
/// `n` of `s + xs`, in push order.
pub proof fn lemma_overwrite_keeps_last_n<T>(s: Seq<T>, xs: Seq<T>, n: int)
    requires
        0 < n,
        s.len() <= n,
    ensures
        ow_push_all(s, xs, n) == last_n(s + xs, n),
    decreases xs.len(),
{
    if xs.len() == 0 {
        assert(s + xs =~= s);
    } else {
        let s1 = ow_push(s, xs[0], n);
        lemma_overwrite_keeps_last_n(s1, xs.drop_first(), n);
        assert(ow_push_all(s, xs, n) == last_n(s1 + xs.drop_first(), n));
        if s.len() < n {
            assert(s1 + xs.drop_first() =~= s + xs);
        } else {
            assert(s1 + xs.drop_first() =~= (s + xs).drop_first());
            let t = s + xs;
            assert(last_n(t.drop_first(), n) =~= last_n(t, n));
        }
    }
}

} // verus!
