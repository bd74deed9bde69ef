use memory_lib::propagation_chain;
use memory_lib::raw;
use memory_lib::unsafe_alloc;
use memory_lib::unsafe_free;
use memory_lib::unsafe_read;
use memory_lib::unsafe_write;

#[test]
fn test_cross_method_propagation() {
    let mut region = raw::mid_level_alloc_uninit(5);
    for i in 0..5 {
        unsafe_write(&mut region, i, i as i32);
    }
    assert_eq!(unsafe_read(&region, 0), 0);
    raw::raw_dealloc(region, 5);
}

#[test]
fn allocation_is_zero_initialized() {
    let region = unsafe_alloc(9);
    for i in 0..9 {
        assert_eq!(unsafe_read(&region, i), 0);
    }
    unsafe_free(region, 9);
}

#[test]
fn writes_land_where_directed() {
    let mut region = unsafe_alloc(3);
    unsafe_write(&mut region, 0, 100);
    unsafe_write(&mut region, 1, 200);
    unsafe_write(&mut region, 2, 300);
    assert_eq!(unsafe_read(&region, 0), 100);
    assert_eq!(unsafe_read(&region, 1), 200);
    assert_eq!(unsafe_read(&region, 2), 300);
    unsafe_free(region, 3);
}

#[test]
fn zeroed_mid_level_allocation() {
    let region = raw::mid_level_alloc_zeroed(4);
    for i in 0..4 {
        assert_eq!(unsafe_read(&region, i), 0);
    }
    raw::raw_dealloc(region, 4);
}

#[test]
fn propagation_chain_produces_single_element_regions() {
    let mut region = propagation_chain::level3_propagate();
    unsafe_write(&mut region, 0, 7);
    assert_eq!(unsafe_read(&region, 0), 7);
    propagation_chain::cleanup(region);

    let mut region = propagation_chain::level3_suppress();
    unsafe_write(&mut region, 0, 11);
    assert_eq!(unsafe_read(&region, 0), 11);
    propagation_chain::cleanup(region);
}
