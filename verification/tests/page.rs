use mml::page::{build_page_range, build_uid_range, Error};

#[test]
fn build_page_range_out_of_bounds() {
    // page * page_size < size
    assert_eq!(build_page_range(0, 5, 5).unwrap(), "5,4,3,2,1");

    // page * page_size = size
    assert!(matches!(
        build_page_range(1, 5, 5).unwrap_err(),
        Error::BuildPageRangeOutOfBoundsError(2),
    ));

    // page * page_size > size
    assert!(matches!(
        build_page_range(2, 5, 5).unwrap_err(),
        Error::BuildPageRangeOutOfBoundsError(3),
    ));
}

#[test]
fn build_page_range_page_size_0() {
    assert_eq!(build_page_range(0, 0, 3).unwrap(), "1:*");
    assert_eq!(build_page_range(1, 0, 4).unwrap(), "1:*");
    assert_eq!(build_page_range(2, 0, 5).unwrap(), "1:*");
}

#[test]
fn build_page_range_page_size_smaller_than_size() {
    assert_eq!(build_page_range(0, 3, 5).unwrap(), "5,4,3");
    assert_eq!(build_page_range(1, 3, 5).unwrap(), "2,1");
    assert_eq!(build_page_range(1, 4, 5).unwrap(), "1");
}

#[test]
fn build_page_range_page_bigger_than_size() {
    assert_eq!(build_page_range(0, 10, 5).unwrap(), "5,4,3,2,1");
}

#[test]
fn build_page_range_empty_folder() {
    assert_eq!(build_page_range(0, 0, 0).unwrap_err(), Error::BuildPageRangeOutOfBoundsError(1));
    assert_eq!(build_page_range(0, 10, 0).unwrap_err(), Error::BuildPageRangeOutOfBoundsError(1));
}

#[test]
fn build_page_range_product_beyond_machine_limit() {
    assert_eq!(
        build_page_range(usize::MAX - 1, usize::MAX, 12).unwrap_err(),
        Error::BuildPageRangeOutOfBoundsError(usize::MAX),
    );
}

#[test]
fn build_page_range_multi_digit_numbers() {
    assert_eq!(build_page_range(0, 3, 101).unwrap(), "101,100,99");
    assert_eq!(build_page_range(9, 10, 101).unwrap(), "11,10,9,8,7,6,5,4,3,2");
    assert_eq!(build_page_range(10, 10, 101).unwrap(), "1");
}

#[test]
fn uid_range_lists_the_numbers_in_their_order() {
    assert_eq!(build_uid_range(&Vec::new()), "");
    assert_eq!(build_uid_range(&vec![7]), "7");
    assert_eq!(build_uid_range(&vec![3, 1, 20, 0, u32::MAX]), "3,1,20,0,4294967295");
}
