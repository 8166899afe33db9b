use openstrike::map_read::{after_probe, after_read, read_into, ReadStep};
use openstrike::map_source::{MapSource, Recorded};

/// Adapts a read callback to a map source.
struct Reader<F>(F);

impl<F: FnMut(&mut [u8]) -> Result<usize, &'static str>> MapSource for Reader<F> {
    fn read(&mut self, target: &mut [u8]) -> Result<usize, &'static str> {
        (self.0)(target)
    }
}

fn copy_reader<'a>(
    data: &'a [u8],
    chunk: usize,
) -> Reader<impl FnMut(&mut [u8]) -> Result<usize, &'static str> + 'a> {
    let mut offset = 0;
    Reader(move |target: &mut [u8]| {
        assert!(!target.is_empty(), "zero-length reads cannot establish EOF");
        let count = target.len().min(chunk).min(data.len() - offset);
        target[..count].copy_from_slice(&data[offset..offset + count]);
        offset += count;
        Ok(count)
    })
}

fn check(data: &[u8], capacity: usize, chunk: usize, expected: Result<usize, &'static str>) {
    let mut storage = vec![0xa5u8; capacity + 2];
    let result = read_into(&mut storage[1..=capacity], &mut Recorded::new(copy_reader(data, chunk)));
    assert_eq!(result, expected);
    assert_eq!(storage[0], 0xa5);
    assert_eq!(storage[capacity + 1], 0xa5);
    if let Ok(size) = result {
        assert_eq!(&storage[1..1 + size], data);
    }
}

#[test]
fn exact_aligned_capacity_is_not_overflow() {
    check(&[7; 32], 32, usize::MAX, Ok(32));
}

#[test]
fn exact_capacity_with_short_reads() {
    check(&[9; 33], 33, 7, Ok(33));
}

#[test]
fn smaller_file_stops_at_eof() {
    check(b"short map", 32, 3, Ok(9));
}

#[test]
fn extra_byte_rejects_file_without_overwriting_buffer() {
    check(&[3; 33], 32, 5, Err("map larger than the map buffer"));
}

#[test]
fn empty_file_and_zero_capacity() {
    check(&[], 0, 1, Ok(0));
    check(&[], 16, 1, Ok(0));
    check(&[1], 0, 1, Err("map larger than the map buffer"));
}

#[test]
fn read_failure_after_partial_data_is_propagated() {
    let mut storage = [0u8; 32];
    let mut calls = 0;
    assert_eq!(
        read_into(
            &mut storage,
            &mut Recorded::new(Reader(|target: &mut [u8]| {
                calls += 1;
                if calls == 1 {
                    target[0] = 7;
                    Ok(1)
                } else {
                    Err("map read failed")
                }
            }))
        ),
        Err("map read failed")
    );
}

#[test]
fn eof_probe_failure_is_not_success() {
    let mut storage = [0u8; 16];
    let mut calls = 0;
    assert_eq!(
        read_into(
            &mut storage,
            &mut Recorded::new(Reader(|target: &mut [u8]| {
                calls += 1;
                if calls == 1 {
                    for byte in target.iter_mut() {
                        *byte = 7;
                    }
                    Ok(target.len())
                } else {
                    Err("map read failed")
                }
            }))
        ),
        Err("map read failed")
    );
}

#[test]
fn reusable_storage_does_not_expose_previous_map_tail() {
    let mut storage = [0u8; 32];
    assert_eq!(read_into(&mut storage, &mut Recorded::new(copy_reader(&[7; 32], 8))), Ok(32));
    assert_eq!(read_into(&mut storage, &mut Recorded::new(copy_reader(b"next", 3))), Ok(4));
    assert_eq!(&storage[..4], b"next");
}

#[test]
fn original_large_map_size_and_one_byte_overflow() {
    let data = vec![0x5a; 18_200_001];
    check(&data, data.len(), 65536, Ok(data.len()));
    check(
        &data,
        data.len() - 1,
        65536,
        Err("map larger than the map buffer"),
    );
}

#[test]
fn invalid_read_count_is_rejected() {
    let mut storage = [0u8; 16];
    assert_eq!(
        read_into(&mut storage, &mut Recorded::new(Reader(|_: &mut [u8]| Ok(17)))),
        Err("invalid map read length")
    );
}

#[test]
fn each_read_outcome_decides_the_next_step() {
    assert!(matches!(after_read(10, 4, Ok(3)), ReadStep::Continue(7)));
    assert!(matches!(after_read(10, 4, Ok(6)), ReadStep::Continue(10)));
    assert!(matches!(
        after_read(10, 4, Ok(7)),
        ReadStep::Done(Err("invalid map read length"))
    ));
    assert!(matches!(after_read(10, 4, Ok(0)), ReadStep::Done(Ok(4))));
    assert!(matches!(
        after_read(10, 4, Err("map read failed")),
        ReadStep::Done(Err("map read failed"))
    ));
    assert_eq!(after_probe(10, Ok(0)), Ok(10));
    assert_eq!(after_probe(10, Ok(1)), Err("map larger than the map buffer"));
    assert_eq!(after_probe(10, Err("map read failed")), Err("map read failed"));
}

#[test]
fn source_is_offered_the_unfilled_rest_then_a_one_byte_probe() {
    let mut storage = [0u8; 10];
    let mut offered = Vec::new();
    let data = [3u8; 10];
    let mut at = 0;
    let result = read_into(
        &mut storage,
        &mut Recorded::new(Reader(|target: &mut [u8]| {
            offered.push(target.len());
            let count = target.len().min(4).min(data.len() - at);
            target[..count].copy_from_slice(&data[at..at + count]);
            at += count;
            Ok(count)
        })),
    );
    assert_eq!(result, Ok(10));
    assert_eq!(offered, vec![10, 6, 2, 1]);
    assert_eq!(storage, data);
}
