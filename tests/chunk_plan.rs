use camfc::chunk::{chunk_count, chunk_range, resume_chunk, CHUNK_SIZE};

#[test]
fn chunk_ranges_of_nine_million_bytes() {
    let total: u64 = 9_000_000;
    assert_eq!(CHUNK_SIZE, 4_194_304);
    assert_eq!(chunk_count(total), 3);
    assert_eq!(chunk_range(0, total), (0, 4_194_303));
    assert_eq!(chunk_range(1, total), (4_194_304, 8_388_607));
    assert_eq!(chunk_range(2, total), (8_388_608, 8_999_999));
    let mut sum = 0;
    for i in 0..chunk_count(total) {
        let (s, e) = chunk_range(i, total);
        sum += e - s + 1;
    }
    assert_eq!(sum, total);
}

#[test]
fn chunk_ranges_of_exact_multiple() {
    let total: u64 = 2 * CHUNK_SIZE;
    assert_eq!(chunk_count(total), 2);
    assert_eq!(chunk_range(1, total), (CHUNK_SIZE, 2 * CHUNK_SIZE - 1));
}

#[test]
fn chunk_ranges_of_small_and_empty_files() {
    assert_eq!(chunk_count(0), 0);
    assert_eq!(chunk_count(1), 1);
    assert_eq!(chunk_range(0, 1), (0, 0));
    assert_eq!(chunk_count(CHUNK_SIZE + 1), 2);
    assert_eq!(chunk_range(1, CHUNK_SIZE + 1), (CHUNK_SIZE, CHUNK_SIZE));
}

#[test]
fn resume_starts_at_chunk_boundary() {
    assert_eq!(resume_chunk(0), 0);
    assert_eq!(resume_chunk(CHUNK_SIZE - 1), 0);
    assert_eq!(resume_chunk(CHUNK_SIZE), 1);
    assert_eq!(resume_chunk(5_000_000), 1);
    assert_eq!(resume_chunk(9_000_000), 2);
}
