use crate::errors::Error;
use rivulet::View as RivuletView;
use rivulet::ViewMut as RivuletViewMut;
use std::cell::RefCell;
use std::rc::Rc;
use vstd::prelude::*;

verus! {

/// A read-only stream handle produced by consuming a pipe.
///
/// The concrete view type behind it is erased; what remains is a cursor over
/// a byte stream that can be advanced, inspected, and duplicated.
#[verifier::external_body]
pub struct Tap {
    grant_fn: Box<dyn FnMut(usize) -> Result<(), Error>>,
    view_fn: Box<dyn FnMut() -> Vec<u8>>,
    release_fn: Box<dyn FnMut(usize)>,
    duplicate_fn: Box<dyn Fn() -> Tap>,
}

/// The bytes a tap has yet to deliver, in the order it will deliver them.
/// The sequence is finite: it models a stream that closes; a read on one
/// that never does simply never returns, and no contract speaks of it.
pub uninterp spec fn tap_bytes(t: Tap) -> Seq<u8>;

/// How many of those bytes are currently granted, that is, held in the
/// tap's present window.
pub uninterp spec fn tap_granted(t: Tap) -> nat;

/// Relies on rivulet's `View` contract (`blocking_grant`, `view`, `release`)
/// and on `Clone` of the wrapped view: erases the concrete view type behind
/// boxed operations over shared ownership of the view.
#[verifier::external_body]
pub(crate) fn make_tap<V>(view: V) -> (t: Tap) where
    V: 'static + RivuletView<Item = u8, Error = Error> + Clone,
{
    let v = Rc::new(RefCell::new(view));
    let (g, w, r, d) = (v.clone(), v.clone(), v.clone(), v);
    Tap {
        grant_fn: Box::new(move |count| g.borrow_mut().blocking_grant(count)),
        view_fn: Box::new(move || w.borrow_mut().view().to_vec()),
        release_fn: Box::new(move |count| r.borrow_mut().release(count)),
        duplicate_fn: Box::new(move || make_tap(d.borrow().clone())),
    }
}

impl Tap {
    /// Relies on rivulet's `View::poll_grant` and `View::view`: after a
    /// successful grant of `count`, the window holds at least `count` bytes
    /// unless the stream has ended, in which case it holds every byte left;
    /// the window never reaches past the stream, and a failed grant leaves
    /// the cursor where it was.
    #[verifier::external_body]
    pub fn grant(&mut self, count: usize) -> (r: Result<(), Error>)
        ensures
            tap_bytes(*final(self)) == tap_bytes(*old(self)),
            r is Ok ==> tap_granted(*final(self)) <= tap_bytes(*old(self)).len(),
            r is Ok ==> (tap_granted(*final(self)) >= count || tap_granted(*final(self))
                == tap_bytes(*old(self)).len()),
            r is Err ==> tap_granted(*final(self)) == tap_granted(*old(self)),
    {
        (self.grant_fn)(count)
    }

    /// Relies on rivulet's `View::view`: the window holds the next granted
    /// bytes of the stream, and looking at them moves nothing.
    #[verifier::external_body]
    pub fn window(&mut self) -> (r: Vec<u8>)
        ensures
            tap_bytes(*final(self)) == tap_bytes(*old(self)),
            tap_granted(*final(self)) == tap_granted(*old(self)),
            r@ == tap_bytes(*old(self)).take(tap_granted(*old(self)) as int),
    {
        (self.view_fn)()
    }

    /// Relies on rivulet's `View::release`: the cursor advances past the
    /// first `count` granted bytes, which the tap will not deliver again.
    /// Releasing more than the current grant would panic, so it is ruled out.
    #[verifier::external_body]
    pub fn release(&mut self, count: usize)
        requires
            count <= tap_granted(*old(self)),
        ensures
            tap_bytes(*final(self)) == tap_bytes(*old(self)).skip(count as int),
            tap_granted(*final(self)) == tap_granted(*old(self)) - count,
    {
        (self.release_fn)(count)
    }

    /// Relies on `Clone` of rivulet's `Cloneable` view, the only view type
    /// this library erases into a `Tap`: the clone starts with the same
    /// cursor and window and delivers the same bytes, while the two then
    /// advance independently.
    #[verifier::external_body]
    pub fn duplicate(&self) -> (r: Tap)
        ensures
            tap_bytes(r) == tap_bytes(*self),
            tap_granted(r) == tap_granted(*self),
    {
        (self.duplicate_fn)()
    }

    /// Read and consume the next `count` bytes of the stream, or every byte
    /// left if fewer remain.
    pub fn read_chunk(&mut self, count: usize) -> (r: Result<Vec<u8>, Error>)
        ensures
            r is Ok ==> ({
                let taken: int = if count <= tap_bytes(*old(self)).len() {
                    count as int
                } else {
                    tap_bytes(*old(self)).len() as int
                };
                r->Ok_0@ == tap_bytes(*old(self)).take(taken) && tap_bytes(*final(self))
                    == tap_bytes(*old(self)).skip(taken)
            }),
            r is Err ==> tap_bytes(*final(self)) == tap_bytes(*old(self)),
    {
        match self.grant(count) {
            Err(e) => Err(e),
            Ok(()) => {
                let mut bytes = self.window();
                if bytes.len() > count {
                    bytes.truncate(count);
                }
                let taken = bytes.len();
                self.release(taken);
                Ok(bytes)
            },
        }
    }

    /// Read and consume the whole rest of the stream.
    pub fn read_all(&mut self) -> (r: Result<Vec<u8>, Error>)
        ensures
            r is Ok ==> r->Ok_0@ == tap_bytes(*old(self)) && tap_bytes(*final(self))
                == Seq::<u8>::empty(),
            r is Err ==> (exists|k: int|
                0 <= k <= tap_bytes(*old(self)).len() && tap_bytes(*final(self)) == tap_bytes(
                    *old(self),
                ).skip(k)),
    {
        let mut out: Vec<u8> = Vec::new();
        loop
            invariant
                out@ + tap_bytes(*self) == tap_bytes(*old(self)),
            ensures
                out@ + tap_bytes(*self) == tap_bytes(*old(self)),
                tap_bytes(*self).len() == 0,
            decreases tap_bytes(*self).len(),
        {
            match self.grant(1) {
                Err(e) => {
                    proof {
                        let k: int = out@.len() as int;
                        assert(tap_bytes(*self) =~= tap_bytes(*old(self)).skip(k));
                    }
                    return Err(e);
                },
                Ok(()) => {},
            }
            let chunk = self.window();
            if chunk.len() == 0 {
                break;
            }
            let taken = chunk.len();
            self.release(taken);
            out.extend_from_slice(chunk.as_slice());
            proof {
                assert(out@ + tap_bytes(*self) =~= tap_bytes(*old(self)));
            }
        }
        proof {
            assert(out@ =~= tap_bytes(*old(self)));
            assert(tap_bytes(*self) =~= Seq::<u8>::empty());
        }
        Ok(out)
    }
}

/// An exclusive, mutable stream handle produced by consuming a mutable pipe.
///
/// Unlike a [`Tap`] it cannot be duplicated: at most one mutator of a stage
/// exists at a time.
#[verifier::external_body]
pub struct TapMut {
    grant_fn: Box<dyn FnMut(usize) -> Result<(), Error>>,
    view_fn: Box<dyn FnMut() -> Vec<u8>>,
    write_fn: Box<dyn FnMut(usize, u8)>,
    release_fn: Box<dyn FnMut(usize)>,
}

/// The bytes a mutable tap has yet to deliver, as they stand now.
/// The sequence is finite: it models a stream that closes; a read on one
/// that never does simply never returns, and no contract speaks of it.
pub uninterp spec fn tap_mut_bytes(t: TapMut) -> Seq<u8>;

/// How many of those bytes are currently granted.
pub uninterp spec fn tap_mut_granted(t: TapMut) -> nat;

/// Relies on rivulet's `ViewMut` contract (`blocking_grant`, `view`,
/// `view_mut`, `release`): erases the concrete view type behind boxed
/// operations over shared ownership of the view.
#[verifier::external_body]
pub(crate) fn make_tap_mut<V>(view: V) -> (t: TapMut) where
    V: 'static + RivuletViewMut<Item = u8, Error = Error>,
{
    let v = Rc::new(RefCell::new(view));
    let (g, w, m, r) = (v.clone(), v.clone(), v.clone(), v);
    TapMut {
        grant_fn: Box::new(move |count| g.borrow_mut().blocking_grant(count)),
        view_fn: Box::new(move || w.borrow_mut().view().to_vec()),
        write_fn: Box::new(move |index, value| m.borrow_mut().view_mut()[index] = value),
        release_fn: Box::new(move |count| r.borrow_mut().release(count)),
    }
}

impl TapMut {
    /// Relies on rivulet's `View::poll_grant` and `View::view`, as for
    /// [`Tap::grant`]: a successful grant window holds at least `count`
    /// bytes unless the stream has ended, never reaches past the stream,
    /// and a failed grant leaves the cursor where it was.
    #[verifier::external_body]
    pub fn grant(&mut self, count: usize) -> (r: Result<(), Error>)
        ensures
            tap_mut_bytes(*final(self)) == tap_mut_bytes(*old(self)),
            r is Ok ==> tap_mut_granted(*final(self)) <= tap_mut_bytes(*old(self)).len(),
            r is Ok ==> (tap_mut_granted(*final(self)) >= count || tap_mut_granted(*final(self))
                == tap_mut_bytes(*old(self)).len()),
            r is Err ==> tap_mut_granted(*final(self)) == tap_mut_granted(*old(self)),
    {
        (self.grant_fn)(count)
    }

    /// Relies on rivulet's `View::view`: the window holds the next granted
    /// bytes of the stream, and looking at them moves nothing.
    #[verifier::external_body]
    pub fn window(&mut self) -> (r: Vec<u8>)
        ensures
            tap_mut_bytes(*final(self)) == tap_mut_bytes(*old(self)),
            tap_mut_granted(*final(self)) == tap_mut_granted(*old(self)),
            r@ == tap_mut_bytes(*old(self)).take(tap_mut_granted(*old(self)) as int),
    {
        (self.view_fn)()
    }

    /// Relies on rivulet's `ViewMut::view_mut`: stores `value` at position
    /// `index` of the granted window, in place, so that the stream itself
    /// now carries it there.
    #[verifier::external_body]
    pub fn write_at(&mut self, index: usize, value: u8)
        requires
            index < tap_mut_granted(*old(self)),
        ensures
            tap_mut_bytes(*final(self)) == tap_mut_bytes(*old(self)).update(index as int, value),
            tap_mut_granted(*final(self)) == tap_mut_granted(*old(self)),
    {
        (self.write_fn)(index, value)
    }

    /// Relies on rivulet's `View::release`: the cursor advances past the
    /// first `count` granted bytes. Releasing more than the current grant
    /// would panic, so it is ruled out.
    #[verifier::external_body]
    pub fn release(&mut self, count: usize)
        requires
            count <= tap_mut_granted(*old(self)),
        ensures
            tap_mut_bytes(*final(self)) == tap_mut_bytes(*old(self)).skip(count as int),
            tap_mut_granted(*final(self)) == tap_mut_granted(*old(self)) - count,
    {
        (self.release_fn)(count)
    }

    /// Read and consume the next `count` bytes of the stream, or every byte
    /// left if fewer remain.
    pub fn read_chunk(&mut self, count: usize) -> (r: Result<Vec<u8>, Error>)
        ensures
            r is Ok ==> ({
                let taken: int = if count <= tap_mut_bytes(*old(self)).len() {
                    count as int
                } else {
                    tap_mut_bytes(*old(self)).len() as int
                };
                r->Ok_0@ == tap_mut_bytes(*old(self)).take(taken) && tap_mut_bytes(*final(self))
                    == tap_mut_bytes(*old(self)).skip(taken)
            }),
            r is Err ==> tap_mut_bytes(*final(self)) == tap_mut_bytes(*old(self)),
    {
        match self.grant(count) {
            Err(e) => Err(e),
            Ok(()) => {
                let mut bytes = self.window();
                if bytes.len() > count {
                    bytes.truncate(count);
                }
                let taken = bytes.len();
                self.release(taken);
                Ok(bytes)
            },
        }
    }

    /// Overwrite the start of the stream, in place, with the given bytes.
    ///
    /// Returns `Ok(true)` when the stream had room for all of `data`, which
    /// then stands at its start with nothing consumed; `Ok(false)` when the
    /// stream is shorter than `data`, in which case nothing is written.
    pub fn overwrite_prefix(&mut self, data: &Vec<u8>) -> (r: Result<bool, Error>)
        ensures
            r is Ok ==> (r->Ok_0 <==> data@.len() <= tap_mut_bytes(*old(self)).len()),
            r == Ok::<bool, Error>(true) ==> tap_mut_bytes(*final(self)) == data@ + tap_mut_bytes(
                *old(self),
            ).skip(data@.len() as int),
            r == Ok::<bool, Error>(false) ==> tap_mut_bytes(*final(self)) == tap_mut_bytes(
                *old(self),
            ),
            r is Err ==> tap_mut_bytes(*final(self)) == tap_mut_bytes(*old(self)),
    {
        match self.grant(data.len()) {
            Err(e) => Err(e),
            Ok(()) => {
                let room = self.window();
                if room.len() < data.len() {
                    return Ok(false);
                }
                let ghost initial = tap_mut_bytes(*self);
                let mut i: usize = 0;
                while i < data.len()
                    invariant
                        i <= data@.len(),
                        data@.len() <= tap_mut_granted(*self),
                        data@.len() <= initial.len(),
                        tap_mut_bytes(*self) == data@.take(i as int) + initial.skip(i as int),
                    decreases data@.len() - i,
                {
                    self.write_at(i, data[i]);
                    proof {
                        assert(tap_mut_bytes(*self) =~= data@.take(i as int + 1) + initial.skip(
                            i as int + 1,
                        ));
                    }
                    i = i + 1;
                }
                proof {
                    assert(tap_mut_bytes(*self) =~= data@ + initial.skip(data@.len() as int));
                }
                Ok(true)
            },
        }
    }
}

} // verus!
