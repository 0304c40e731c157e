use pipes::{hold, hold_mut, splitter, splitter_mut, Pipe};
use rivulet::circular_buffer::Source;
use rivulet::splittable::{First, Second};
use rivulet::{View, ViewMut};

const CONSUMED: &str = "a stream has already been created from this pipe";
const NOT_MUTABLE: &str = "this pipe is not mutable";

fn byte_source(data: &[u8]) -> Source<u8> {
    let (mut sink, source) = rivulet::circular_buffer::<u8>(data.len() + 1);
    sink.blocking_grant(data.len()).unwrap();
    sink.view_mut()[..data.len()].copy_from_slice(data);
    sink.release(data.len());
    source
}

fn ascending(n: usize) -> Vec<u8> {
    (0..n).map(|i| (i % 251) as u8).collect()
}

fn witness<V, V2, V3>() -> pipes::Splitter<V, V2, V3>
where
    V: 'static + rivulet::SplittableView<Item = u8>,
    V::Error: 'static + std::fmt::Display,
    V2: 'static + rivulet::SplittableView<Item = u8>,
    V2::Error: 'static + std::fmt::Display,
    V3: 'static + rivulet::SplittableView<Item = u8>,
    V3::Error: 'static + std::fmt::Display,
{
    splitter::<V, V2, V3>().expect("the half types are the true ones")
}

fn witness_mut<V, V2, V3>() -> pipes::SplitterMut<V, V2, V3>
where
    V: 'static + rivulet::splittable::SplittableViewMut<Item = u8>,
    V::Error: 'static + std::fmt::Display,
    V2: 'static + rivulet::splittable::SplittableViewMut<Item = u8>,
    V2::Error: 'static + std::fmt::Display,
    V3: 'static + rivulet::splittable::SplittableViewMut<Item = u8>,
    V3::Error: 'static + std::fmt::Display,
{
    splitter_mut::<V, V2, V3>().expect("the half types are the true ones")
}

#[test]
fn tap_succeeds_once_then_reports_consumed() {
    let data = ascending(100);
    let mut pipe = Pipe::Const(Some(hold(byte_source(&data))));
    let mut tap = pipe.tap().expect("first tap of a live pipe");
    assert_eq!(tap.read_all().unwrap(), data);
    let second = pipe.tap();
    assert_eq!(second.err().unwrap().description(), CONSUMED);
}

#[test]
fn split_yields_some_then_none() {
    let data = ascending(64);
    let mut pipe = Pipe::Const(Some(hold(byte_source(&data))));
    let first_try = pipe.split(witness::<Source<u8>, First<Source<u8>>, Second<Source<u8>>>());
    assert!(first_try.is_some());
    let second_try = pipe.split(witness::<Source<u8>, First<Source<u8>>, Second<Source<u8>>>());
    assert!(second_try.is_none());
}

#[test]
fn tap_then_split_observes_consumed() {
    let data = ascending(16);
    let mut pipe = Pipe::Const(Some(hold(byte_source(&data))));
    assert!(pipe.tap().is_ok());
    let halves = pipe.split(witness::<Source<u8>, First<Source<u8>>, Second<Source<u8>>>());
    assert!(halves.is_none());
}

#[test]
fn split_then_tap_observes_consumed() {
    let data = ascending(16);
    let mut pipe = Pipe::Const(Some(hold(byte_source(&data))));
    assert!(pipe.split(witness::<Source<u8>, First<Source<u8>>, Second<Source<u8>>>()).is_some());
    let err = pipe.tap().err().unwrap();
    assert_eq!(err.description(), CONSUMED);
}

#[test]
fn mutable_tap_on_const_pipe_fails_without_consuming() {
    let data = ascending(32);
    let mut pipe = Pipe::Const(Some(hold_mut(byte_source(&data))));
    let refused = pipe.mutable_tap().err().unwrap();
    assert_eq!(refused.description(), NOT_MUTABLE);
    let refused_again = pipe.mutable_tap().err().unwrap();
    assert_eq!(refused_again.description(), NOT_MUTABLE);
    let mut tap = pipe.tap().expect("a const pipe keeps its stage after refusals");
    assert_eq!(tap.read_all().unwrap(), data);
}

#[test]
fn mutable_tap_succeeds_once_on_mut_pipe() {
    let data = ascending(32);
    let mut pipe = Pipe::Mut(Some(hold_mut(byte_source(&data))));
    let mut tap = pipe.mutable_tap().expect("first mutable tap of a live mut pipe");
    assert_eq!(tap.read_chunk(32).unwrap(), data);
    let second = pipe.mutable_tap();
    assert_eq!(second.err().unwrap().description(), CONSUMED);
}

#[test]
fn split_halves_pass_the_stream_on_in_order() {
    let data = ascending(100);
    let mut pipe = Pipe::Const(Some(hold(byte_source(&data))));
    let (mut first, mut second) = pipe
        .split(witness::<Source<u8>, First<Source<u8>>, Second<Source<u8>>>())
        .expect("splitting a live pipe");
    let mut first_tap = first.tap().expect("tapping the first half");
    assert!(first.split(witness::<First<Source<u8>>, First<First<Source<u8>>>, Second<First<Source<u8>>>>()).is_none());
    assert_eq!(first_tap.read_all().unwrap(), data);
    drop(first_tap);
    let mut second_tap = second.tap().expect("tapping the second half");
    assert_eq!(second_tap.read_all().unwrap(), data);
}

#[test]
fn repeated_splits_of_the_second_keep_relaying() {
    let data = ascending(40);
    let mut pipe = Pipe::Const(Some(hold(byte_source(&data))));
    let (mut a, mut b) = pipe
        .split(witness::<Source<u8>, First<Source<u8>>, Second<Source<u8>>>())
        .expect("first split");
    let (mut c, mut d) = b
        .split(witness::<
            Second<Source<u8>>,
            First<Second<Source<u8>>>,
            Second<Second<Source<u8>>>,
        >())
        .expect("second split");
    let mut tap_a = a.tap().unwrap();
    assert_eq!(tap_a.read_all().unwrap(), data);
    drop(tap_a);
    let mut tap_c = c.tap().unwrap();
    assert_eq!(tap_c.read_all().unwrap(), data);
    drop(tap_c);
    let mut tap_d = d.tap().unwrap();
    assert_eq!(tap_d.read_all().unwrap(), data);
}

#[test]
fn a_witness_exists_only_for_the_true_half_types() {
    assert!(splitter::<Source<u8>, Second<Source<u8>>, First<Source<u8>>>().is_none());
    assert!(splitter::<Source<u8>, First<Source<u8>>, First<Source<u8>>>().is_none());
    assert!(splitter::<Source<u8>, First<Source<u8>>, Second<Source<u8>>>().is_some());
    assert!(splitter_mut::<Source<u8>, First<Source<u8>>, Second<Source<u8>>>().is_some());
}

#[test]
fn duplicate_reads_the_same_bytes_independently() {
    let data = ascending(100);
    let mut pipe = Pipe::Const(Some(hold(byte_source(&data))));
    let mut tap = pipe.tap().unwrap();
    assert_eq!(tap.read_chunk(30).unwrap(), &data[..30]);
    let mut copy = tap.duplicate();
    assert_eq!(tap.read_all().unwrap(), &data[30..]);
    assert_eq!(copy.read_all().unwrap(), &data[30..]);
}

#[test]
fn duplicate_is_unaffected_by_later_reads_of_the_original() {
    let data = ascending(50);
    let mut pipe = Pipe::Const(Some(hold(byte_source(&data))));
    let mut tap = pipe.tap().unwrap();
    let mut copy = tap.duplicate();
    assert_eq!(tap.read_chunk(20).unwrap(), &data[..20]);
    assert_eq!(copy.read_chunk(10).unwrap(), &data[..10]);
    assert_eq!(tap.read_all().unwrap(), &data[20..]);
    assert_eq!(copy.read_all().unwrap(), &data[10..]);
}

#[test]
fn read_chunk_past_the_end_returns_what_is_left() {
    let data = ascending(10);
    let mut pipe = Pipe::Const(Some(hold(byte_source(&data))));
    let mut tap = pipe.tap().unwrap();
    assert_eq!(tap.read_chunk(200).unwrap(), data);
    assert_eq!(tap.read_chunk(1).unwrap(), Vec::<u8>::new());
}

#[test]
fn overwrite_prefix_changes_the_stream_in_place() {
    let data = ascending(20);
    let mut pipe = Pipe::Mut(Some(hold_mut(byte_source(&data))));
    let mut tap = pipe.mutable_tap().unwrap();
    let replacement: Vec<u8> = vec![9u8; 5];
    assert!(tap.overwrite_prefix(&replacement).unwrap());
    let mut expected = replacement.clone();
    expected.extend_from_slice(&data[5..]);
    assert_eq!(tap.read_chunk(20).unwrap(), expected);
}

#[test]
fn overwrite_longer_than_the_stream_writes_nothing() {
    let data = ascending(4);
    let mut pipe = Pipe::Mut(Some(hold_mut(byte_source(&data))));
    let mut tap = pipe.mutable_tap().unwrap();
    let replacement: Vec<u8> = vec![7u8; 10];
    assert!(!tap.overwrite_prefix(&replacement).unwrap());
    assert_eq!(tap.read_chunk(4).unwrap(), data);
}

#[test]
fn mutations_through_the_first_half_reach_the_second() {
    let data = ascending(30);
    let mut pipe = Pipe::Mut(Some(hold_mut(byte_source(&data))));
    let (mut a, mut b) = pipe
        .split(witness_mut::<Source<u8>, First<Source<u8>>, Second<Source<u8>>>())
        .expect("splitting a live mut pipe");
    let mut writer = a.mutable_tap().expect("mutable tap of the first half");
    let replacement: Vec<u8> = (0..30).map(|i| 200 - i as u8).collect();
    assert!(writer.overwrite_prefix(&replacement).unwrap());
    assert_eq!(writer.read_chunk(30).unwrap(), replacement);
    drop(writer);
    let mut reader = b.tap().expect("tapping the second half");
    assert_eq!(reader.read_all().unwrap(), replacement);
}

#[test]
fn error_text_survives_wrapping() {
    let err = pipes::Error::new("a message kept as it was");
    assert_eq!(err.description(), "a message kept as it was");
}

#[test]
fn from_error_captures_the_display_text() {
    let err = pipes::Error::from_error("the underlying failure");
    assert_eq!(err.description(), "the underlying failure");
    let err = pipes::Error::from_error(42);
    assert_eq!(err.description(), "42");
}

#[test]
fn a_stream_error_is_reported_and_consumes_nothing() {
    let data = ascending(10);
    let mut pipe = Pipe::Const(Some(hold(byte_source(&data))));
    let mut tap = pipe.tap().unwrap();
    let failed = tap.read_chunk(1_000_000);
    assert!(failed.err().unwrap().description().starts_with("request exceeded"));
    assert_eq!(tap.read_all().unwrap(), data);
}
