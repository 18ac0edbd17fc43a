use yellowstone_filter::filter::{FilterAccountsDataSlice, FilterError};
use yellowstone_filter::geyser::SubscribeRequestAccountsDataSlice;
use yellowstone_filter::limits::FilterLimitsCheckError;

fn slices(ranges: &[(u64, u64)]) -> Vec<SubscribeRequestAccountsDataSlice> {
    ranges
        .iter()
        .map(|(start, end)| SubscribeRequestAccountsDataSlice {
            offset: *start,
            length: *end - *start,
        })
        .collect()
}

#[test]
fn test_data_slice_adjacent_is_accepted() {
    let built = FilterAccountsDataSlice::new(&slices(&[(0, 4), (4, 8)]), usize::MAX).unwrap();
    assert_eq!(built.as_ref(), &slices(&[(0, 4), (4, 8)]));
}

#[test]
fn test_data_slice_overlap_is_rejected() {
    let built = FilterAccountsDataSlice::new(&slices(&[(0, 4), (3, 8)]), usize::MAX);
    assert_eq!(built.err(), Some(FilterError::DataSliceOverlap));
}

#[test]
fn test_data_slice_out_of_order_is_rejected() {
    let built = FilterAccountsDataSlice::new(&slices(&[(4, 8), (0, 4)]), usize::MAX);
    assert_eq!(built.err(), Some(FilterError::DataSliceOutOfOrder));
}

#[test]
fn test_data_slice_order_is_looked_at_first() {
    // the first slice both overlaps nothing before it and starts after the last one
    let built = FilterAccountsDataSlice::new(&slices(&[(2, 6), (3, 8), (0, 1)]), usize::MAX);
    assert_eq!(built.err(), Some(FilterError::DataSliceOutOfOrder));
    // the second slice overlaps the first and is in order
    let built = FilterAccountsDataSlice::new(&slices(&[(2, 6), (3, 8), (9, 10)]), usize::MAX);
    assert_eq!(built.err(), Some(FilterError::DataSliceOverlap));
}

#[test]
fn test_data_slice_count_is_capped() {
    let built = FilterAccountsDataSlice::new(&slices(&[(0, 1), (1, 2)]), 1);
    assert_eq!(
        built.err(),
        Some(FilterError::LimitsCheck(FilterLimitsCheckError::MaxExceeded { max: 1 }))
    );
    assert!(FilterAccountsDataSlice::new(&slices(&[(0, 1), (1, 2)]), 2).is_ok());
}

#[test]
fn test_data_slice_projection() {
    let data: Vec<u8> = vec![10, 11, 12, 13, 14, 15];
    let built = FilterAccountsDataSlice::new(&slices(&[(0, 2), (4, 6)]), usize::MAX).unwrap();
    assert_eq!(built.apply(&data), vec![10, 11, 14, 15]);
    // a slice that ends beyond the data is skipped, the others stay
    let built = FilterAccountsDataSlice::new(&slices(&[(0, 2), (4, 7)]), usize::MAX).unwrap();
    assert_eq!(built.apply(&data), vec![10, 11]);
    let built = FilterAccountsDataSlice::new(&slices(&[(1, 3), (5, 6), (6, 6), (6, 9)]), usize::MAX)
        .unwrap();
    assert_eq!(built.apply(&data), vec![11, 12, 15]);
    assert_eq!(built.apply(&data).len(), 2 + 1 + 0);
    // no slice: the data passes through
    assert_eq!(FilterAccountsDataSlice::empty().apply(&data), data);
    assert_eq!(
        FilterAccountsDataSlice::new(&vec![], usize::MAX).unwrap().apply(&data),
        data
    );
}

#[test]
fn test_data_slice_beyond_every_length() {
    let huge = vec![
        SubscribeRequestAccountsDataSlice {
            offset: 1,
            length: u64::MAX,
        },
    ];
    let built = FilterAccountsDataSlice::new(&huge, usize::MAX).unwrap();
    assert_eq!(built.apply(&vec![1, 2, 3]), Vec::<u8>::new());
    let after = vec![
        SubscribeRequestAccountsDataSlice {
            offset: 1,
            length: u64::MAX,
        },
        SubscribeRequestAccountsDataSlice {
            offset: u64::MAX,
            length: 1,
        },
    ];
    assert_eq!(
        FilterAccountsDataSlice::new(&after, usize::MAX).err(),
        Some(FilterError::DataSliceOverlap)
    );
}
