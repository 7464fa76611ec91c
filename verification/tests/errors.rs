use playground::errors::error;
use playground::errors::get;
use playground::errors::head;
use playground::errors::sum_even_numbers;
use playground::errors::VectorError;

#[test]
fn head_of_an_empty_array_is_an_error() {
    let empty: [u8; 0] = [];
    assert_eq!(head(&empty), Err(VectorError::EmptyVector));
}

#[test]
fn head_is_the_first_element() {
    assert_eq!(head(&[7, 8, 9]), Ok(&7));
    assert_eq!(head(&["a"]), Ok(&"a"));
}

#[test]
fn get_gives_the_element_at_the_index() {
    let array = [10, 20, 30];
    assert_eq!(get(&array, 0), Ok(&10));
    assert_eq!(get(&array, 1), Ok(&20));
    assert_eq!(get(&array, 2), Ok(&30));
}

#[test]
fn get_behind_the_end_is_an_error_with_the_index() {
    let array = [10, 20, 30];
    assert_eq!(get(&array, 3), Err(VectorError::NotFound(3)));
    assert_eq!(get(&array, usize::MAX), Err(VectorError::NotFound(usize::MAX)));
    let empty: [u8; 0] = [];
    assert_eq!(get(&empty, 0), Err(VectorError::NotFound(0)));
}

#[test]
fn messages_name_the_error() {
    assert_eq!(VectorError::EmptyVector.message(), "expected non-empty vector");
    assert_eq!(VectorError::NotFound(1).message(), "element at index 1 not found");
    assert_eq!(VectorError::NotFound(0).message(), "element at index 0 not found");
    assert_eq!(VectorError::NotFound(1234).message(), "element at index 1234 not found");
}

#[test]
fn sum_of_even_numbers_is_their_sum() {
    assert_eq!(sum_even_numbers(0, 2), 2);
    assert_eq!(sum_even_numbers(4, 6), 10);
    assert_eq!(sum_even_numbers(0, 0), 0);
    assert_eq!(sum_even_numbers(254, 0), 254);
}

#[test]
fn sum_with_an_odd_number_is_zero() {
    assert_eq!(sum_even_numbers(0, 1), 0);
    assert_eq!(sum_even_numbers(1, 0), 0);
    assert_eq!(sum_even_numbers(3, 5), 0);
    assert_eq!(sum_even_numbers(255, 255), 0);
}

#[test]
fn error_gives_back_what_stands_in() {
    assert_eq!(error(0), 0);
    assert_eq!(error("recovered"), "recovered");
}
