use playground::functions::increment;
use playground::functions::sample_function;
use playground::generics::consume_wrapper1;
use playground::generics::consume_wrapper2;
use playground::generics::GenericWrapper;
use playground::generics::Phantom;
use playground::modules::module_name;
use playground::ownership::mutability;
use playground::ownership::raii;
use playground::primitives::slice;
use playground::primitives::ARRAY;

#[test]
fn increment_gives_the_next_number() {
    assert_eq!(increment(0), 1);
    assert_eq!(increment(41), 42);
    assert_eq!(increment(u32::MAX - 1), u32::MAX);
}

#[test]
fn sample_function_gives_the_next_number() {
    assert_eq!(sample_function(0), 1);
    assert_eq!(sample_function(u32::MAX - 1), u32::MAX);
}

#[test]
fn wrapper_gives_what_it_wraps() {
    let wrapper = GenericWrapper(String::from("inside"));
    assert_eq!(wrapper.unwrap(), "inside");
    assert_eq!(*GenericWrapper(10i32).unwrap(), 10);
}

#[test]
fn wrapped_byte_is_written_out_widened() {
    let mut out: u64 = 7;
    GenericWrapper(255u8).unwrap_to_u64(&mut out);
    assert_eq!(out, 255);
    GenericWrapper(0u8).unwrap_to_u64(&mut out);
    assert_eq!(out, 0);
}

#[test]
fn option_gives_its_value_as_either_wrapper() {
    assert_eq!(consume_wrapper1(Some(5)), 5);
    assert_eq!(consume_wrapper2(Some("five")), "five");
}

#[test]
fn phantom_keeps_its_value() {
    struct Red;
    struct Blue;
    let red = Phantom::new::<Red>(3u8);
    let blue = Phantom::new::<Blue>(3u8);
    assert_eq!(red.value, 3);
    assert_eq!(blue.value, red.value);
}

#[test]
fn public_members_are_seen_from_outside() {
    module_name::public();
    module_name::fb();
}

#[test]
fn boxes_are_made_moved_and_freed() {
    raii();
    mutability();
}

#[test]
fn slice_is_taken_of_an_array_of_five() {
    assert_eq!(ARRAY, [0; 5]);
    slice();
}
