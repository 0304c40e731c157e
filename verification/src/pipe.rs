use crate::errors::Error;
use crate::taps::make_tap;
use crate::taps::make_tap_mut;
use crate::taps::tap_granted;
use crate::taps::tap_mut_granted;
use crate::taps::Tap;
use crate::taps::TapMut;
use rivulet::splittable::First;
use rivulet::splittable::Second;
use rivulet::splittable::SplittableView;
use rivulet::splittable::SplittableViewMut;
use rivulet::View as RivuletView;
use vstd::prelude::*;

verus! {

/// A read-only pipe stage: ownership of one concrete splittable view,
/// opaque to the rest of the library, which only moves it around whole.
///
/// The conversion the stage supports is fixed when it is wrapped by
/// [`hold`], so the library itself never looks inside.
#[verifier::external_body]
#[verifier::reject_recursive_types(V)]
pub struct Held<V> {
    view: V,
    to_tap: Box<dyn FnOnce(V) -> Tap>,
}

/// A mutable pipe stage: as [`Held`], for a view that also supports in-place
/// mutation of its bytes.
#[verifier::external_body]
#[verifier::reject_recursive_types(V)]
pub struct HeldMut<V> {
    view: V,
    to_tap: Box<dyn FnOnce(V) -> Tap>,
    to_tap_mut: Box<dyn FnOnce(V) -> TapMut>,
}

/// Relies on rivulet's `SplittableView::into_cloneable_view` and
/// `View::map_error`: wraps a concrete splittable byte view as a read-only
/// pipe stage whose one conversion turns it into its duplicable stream form,
/// with nothing granted yet and its error type unified.
#[verifier::external_body]
pub fn hold<V>(view: V) -> (s: Held<V>) where
    V: 'static + SplittableView<Item = u8>,
    V::Error: 'static + std::fmt::Display,
{
    Held {
        view,
        to_tap: Box::new(
            |view: V| make_tap(view.into_cloneable_view().map_error(Error::from_error)),
        ),
    }
}

/// Relies on rivulet's `SplittableView::into_cloneable_view`,
/// `SplittableViewMut::into_view` and `View::map_error`: wraps a concrete
/// splittable mutable byte view as a mutable pipe stage, whose conversions
/// turn it into its duplicable or its exclusive stream form, with nothing
/// granted yet and its error type unified.
#[verifier::external_body]
pub fn hold_mut<V>(view: V) -> (s: HeldMut<V>) where
    V: 'static + SplittableViewMut<Item = u8>,
    V::Error: 'static + std::fmt::Display,
{
    HeldMut {
        view,
        to_tap: Box::new(
            |view: V| make_tap(view.into_cloneable_view().map_error(Error::from_error)),
        ),
        to_tap_mut: Box::new(|view: V| make_tap_mut(view.into_view().map_error(Error::from_error))),
    }
}

/// A witness that a stage over the view `V` divides into stages over the
/// views `V2` and `V3`. Built only by [`splitter`], which hands one out only
/// when `V2` and `V3` are the two halves rivulet makes of `V`, so a witness
/// in hand always divides.
#[verifier::external_body]
#[verifier::reject_recursive_types(V)]
#[verifier::reject_recursive_types(V2)]
#[verifier::reject_recursive_types(V3)]
pub struct Splitter<V, V2, V3> {
    divide: Box<dyn FnOnce(V) -> (Held<V2>, Held<V3>)>,
}

/// As [`Splitter`], for mutable stages. Built only by [`splitter_mut`].
#[verifier::external_body]
#[verifier::reject_recursive_types(V)]
#[verifier::reject_recursive_types(V2)]
#[verifier::reject_recursive_types(V3)]
pub struct SplitterMut<V, V2, V3> {
    divide: Box<dyn FnOnce(V) -> (HeldMut<V2>, HeldMut<V3>)>,
}

/// Relies on rivulet's `SplittableView::sequence`: the witness divides a
/// view into its two ordered halves, the first of which passes the stream on
/// while the second receives what the first releases. A witness is handed
/// out only for the half types rivulet actually produces, `First<V>` and
/// `Second<V>`, so the conversions inside it cannot miss.
#[verifier::external_body]
pub fn splitter<V, V2, V3>() -> (w: Option<Splitter<V, V2, V3>>) where
    V: 'static + SplittableView<Item = u8>,
    V::Error: 'static + std::fmt::Display,
    V2: 'static + SplittableView<Item = u8>,
    V2::Error: 'static + std::fmt::Display,
    V3: 'static + SplittableView<Item = u8>,
    V3::Error: 'static + std::fmt::Display,
{
    if std::any::TypeId::of::<(V2, V3)>() != std::any::TypeId::of::<(First<V>, Second<V>)>() {
        return None;
    }
    Some(Splitter { divide: Box::new(|view: V| {
        let (first, second) = view.sequence();
        let first: Box<dyn std::any::Any> = Box::new(first);
        let second: Box<dyn std::any::Any> = Box::new(second);
        (hold(*first.downcast::<V2>().expect("the types were checked above")),
            hold(*second.downcast::<V3>().expect("the types were checked above")))
    }) })
}

/// As [`splitter`], relying on the same `SplittableView::sequence`, for
/// mutable stages: both halves keep the ability to mutate their bytes.
#[verifier::external_body]
pub fn splitter_mut<V, V2, V3>() -> (w: Option<SplitterMut<V, V2, V3>>) where
    V: 'static + SplittableViewMut<Item = u8>,
    V::Error: 'static + std::fmt::Display,
    V2: 'static + SplittableViewMut<Item = u8>,
    V2::Error: 'static + std::fmt::Display,
    V3: 'static + SplittableViewMut<Item = u8>,
    V3::Error: 'static + std::fmt::Display,
{
    if std::any::TypeId::of::<(V2, V3)>() != std::any::TypeId::of::<(First<V>, Second<V>)>() {
        return None;
    }
    Some(SplitterMut { divide: Box::new(|view: V| {
        let (first, second) = view.sequence();
        let first: Box<dyn std::any::Any> = Box::new(first);
        let second: Box<dyn std::any::Any> = Box::new(second);
        (hold_mut(*first.downcast::<V2>().expect("the types were checked above")),
            hold_mut(*second.downcast::<V3>().expect("the types were checked above")))
    }) })
}

/// The message reported when a pipe's stage was already taken.
pub open spec fn consumed_message() -> Seq<char> {
    "a stream has already been created from this pipe"@
}

/// The message reported when a read-only pipe is asked for a mutable tap.
pub open spec fn not_mutable_message() -> Seq<char> {
    "this pipe is not mutable"@
}

/// Relies on the conversion fixed by [`hold`], rivulet's
/// `into_cloneable_view`: the stage becomes its duplicable stream form, with
/// nothing granted yet.
#[verifier::external_body]
fn stage_into_tap<V>(stage: Held<V>) -> (t: Tap)
    ensures
        tap_granted(t) == 0,
{
    (stage.to_tap)(stage.view)
}

/// Relies on the read-only conversion fixed by [`hold_mut`], rivulet's
/// `into_cloneable_view`: the stage becomes its duplicable stream form, with
/// nothing granted yet.
#[verifier::external_body]
fn stage_into_tap_of_mut<V>(stage: HeldMut<V>) -> (t: Tap)
    ensures
        tap_granted(t) == 0,
{
    (stage.to_tap)(stage.view)
}

/// Relies on the mutable conversion fixed by [`hold_mut`], rivulet's
/// `into_view`: the stage becomes its exclusive stream form, with nothing
/// granted yet.
#[verifier::external_body]
fn stage_into_tap_mut<V>(stage: HeldMut<V>) -> (t: TapMut)
    ensures
        tap_mut_granted(t) == 0,
{
    (stage.to_tap_mut)(stage.view)
}

/// Relies on the witness built by [`splitter`], rivulet's `sequence`: the
/// stage's two halves, unconditionally.
#[verifier::external_body]
fn stage_sequence<V, V2, V3>(stage: Held<V>, way: Splitter<V, V2, V3>) -> (r: (
    Held<V2>,
    Held<V3>,
)) {
    (way.divide)(stage.view)
}

/// Relies on the witness built by [`splitter_mut`], rivulet's `sequence`,
/// as [`stage_sequence`].
#[verifier::external_body]
fn stage_sequence_mut<V, V2, V3>(stage: HeldMut<V>, way: SplitterMut<V, V2, V3>) -> (r: (
    HeldMut<V2>,
    HeldMut<V3>,
)) {
    (way.divide)(stage.view)
}

/// A single-use pipeline stage.
///
/// A pipe is either read-only (`Const`) or mutable (`Mut`), and its slot
/// holds the wrapped stage until the one operation that consumes it.
pub enum Pipe<S> {
    Const(Option<S>),
    Mut(Option<S>),
}

impl<S> Pipe<S> {
    /// A pipe is live while its stage has not been consumed.
    pub open spec fn live(self) -> bool {
        match self {
            Pipe::Const(slot) => slot is Some,
            Pipe::Mut(slot) => slot is Some,
        }
    }

    /// Whether this pipe was built as a mutable stage.
    pub open spec fn mutable(self) -> bool {
        self is Mut
    }

    /// Take the stage out of the slot, or report that it is already gone.
    fn claim(&mut self) -> (r: Result<S, Error>)
        ensures
            r is Ok <==> old(self).live(),
            !final(self).live(),
            final(self).mutable() == old(self).mutable(),
            r is Ok && !old(self).mutable() ==> *old(self) == Pipe::Const(Some(r->Ok_0)),
            r is Ok && old(self).mutable() ==> *old(self) == Pipe::Mut(Some(r->Ok_0)),
            r is Err ==> *final(self) == *old(self) && r->Err_0@ == consumed_message(),
    {
        let stage = match self {
            Pipe::Const(slot) => slot.take(),
            Pipe::Mut(slot) => slot.take(),
        };
        match stage {
            Some(s) => Ok(s),
            None => Err(Error::new("a stream has already been created from this pipe")),
        }
    }
}

impl<V> Pipe<Held<V>> {
    /// Consume the stage into a read-only stream handle.
    ///
    /// Succeeds exactly once: a second call finds the slot empty and reports
    /// the pipe as consumed.
    pub fn tap(&mut self) -> (r: Result<Tap, Error>)
        ensures
            r is Ok <==> old(self).live(),
            !final(self).live(),
            final(self).mutable() == old(self).mutable(),
            r is Ok ==> tap_granted(r->Ok_0) == 0,
            r is Err ==> *final(self) == *old(self) && r->Err_0@ == consumed_message(),
    {
        match self.claim() {
            Ok(stage) => Ok(stage_into_tap(stage)),
            Err(e) => Err(e),
        }
    }

    /// Consume the stage into two pipes over its first and second parts.
    ///
    /// Returns `None` once the stage is gone: exhaustion is an expected
    /// terminal case, not an error. The two results keep the variant of this
    /// pipe and are live, ready to be tapped or split in turn. The witness
    /// names the view types of the two halves and is made by [`splitter`].
    pub fn split<V2, V3>(&mut self, way: Splitter<V, V2, V3>) -> (r: Option<
        (Pipe<Held<V2>>, Pipe<Held<V3>>),
    >)
        ensures
            r is Some <==> old(self).live(),
            !final(self).live(),
            final(self).mutable() == old(self).mutable(),
            r is None ==> *final(self) == *old(self),
            r is Some ==> ({
                let (first, second) = r->0;
                first.live() && second.live() && first.mutable() == old(self).mutable()
                    && second.mutable() == old(self).mutable()
            }),
    {
        let mutable = match self {
            Pipe::Const(_) => false,
            Pipe::Mut(_) => true,
        };
        match self.claim() {
            Err(_) => None,
            Ok(stage) => {
                let (first, second) = stage_sequence(stage, way);
                if mutable {
                    Some((Pipe::Mut(Some(first)), Pipe::Mut(Some(second))))
                } else {
                    Some((Pipe::Const(Some(first)), Pipe::Const(Some(second))))
                }
            },
        }
    }
}

impl<V> Pipe<HeldMut<V>> {
    /// Consume the mutable stage into a read-only stream handle: a mutable
    /// stage can still be tapped for read-only access.
    ///
    /// Succeeds exactly once: a second call finds the slot empty and reports
    /// the pipe as consumed.
    pub fn tap(&mut self) -> (r: Result<Tap, Error>)
        ensures
            r is Ok <==> old(self).live(),
            !final(self).live(),
            final(self).mutable() == old(self).mutable(),
            r is Ok ==> tap_granted(r->Ok_0) == 0,
            r is Err ==> *final(self) == *old(self) && r->Err_0@ == consumed_message(),
    {
        match self.claim() {
            Ok(stage) => Ok(stage_into_tap_of_mut(stage)),
            Err(e) => Err(e),
        }
    }

    /// Consume the stage into an exclusive, mutable stream handle.
    ///
    /// A read-only pipe refuses at once, whatever its state, and keeps its
    /// stage; a mutable pipe hands its stage over exactly once.
    pub fn mutable_tap(&mut self) -> (r: Result<TapMut, Error>)
        ensures
            r is Ok <==> (old(self).mutable() && old(self).live()),
            !old(self).mutable() ==> *final(self) == *old(self) && r->Err_0@
                == not_mutable_message(),
            old(self).mutable() ==> !final(self).live() && final(self).mutable(),
            old(self).mutable() && !old(self).live() ==> *final(self) == *old(self) && r->Err_0@
                == consumed_message(),
            r is Ok ==> tap_mut_granted(r->Ok_0) == 0,
    {
        let stage = match self {
            Pipe::Const(_) => {
                return Err(Error::new("this pipe is not mutable"));
            },
            Pipe::Mut(slot) => slot.take(),
        };
        match stage {
            Some(s) => Ok(stage_into_tap_mut(s)),
            None => Err(Error::new("a stream has already been created from this pipe")),
        }
    }

    /// Consume the mutable stage into two mutable pipes over its first and
    /// second parts, as [`Pipe::split`] does for read-only stages.
    pub fn split<V2, V3>(&mut self, way: SplitterMut<V, V2, V3>) -> (r: Option<
        (Pipe<HeldMut<V2>>, Pipe<HeldMut<V3>>),
    >)
        ensures
            r is Some <==> old(self).live(),
            !final(self).live(),
            final(self).mutable() == old(self).mutable(),
            r is None ==> *final(self) == *old(self),
            r is Some ==> ({
                let (first, second) = r->0;
                first.live() && second.live() && first.mutable() == old(self).mutable()
                    && second.mutable() == old(self).mutable()
            }),
    {
        let mutable = match self {
            Pipe::Const(_) => false,
            Pipe::Mut(_) => true,
        };
        match self.claim() {
            Err(_) => None,
            Ok(stage) => {
                let (first, second) = stage_sequence_mut(stage, way);
                if mutable {
                    Some((Pipe::Mut(Some(first)), Pipe::Mut(Some(second))))
                } else {
                    Some((Pipe::Const(Some(first)), Pipe::Const(Some(second))))
                }
            },
        }
    }
}

} // verus!
