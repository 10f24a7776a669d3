use arena_sim::singleton::SingletonError;
use arena_sim::singleton::get_single;

#[test]
fn one_element_is_returned() {
    let items = vec![42u32];
    assert_eq!(get_single(&items), Ok(42));
}

#[test]
fn empty_lookup_reports_not_found() {
    let items: Vec<u32> = Vec::new();
    assert_eq!(get_single(&items), Err(SingletonError::NotFound));
}

#[test]
fn duplicated_lookup_reports_multiple_found() {
    let items = vec![1u32, 2u32];
    assert_eq!(get_single(&items), Err(SingletonError::MultipleFound));
}
