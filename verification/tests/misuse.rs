use ownref::misuse::{
    ref_mut_as_owner, ref_mut_as_owner_mut, ref_mut_to_ref, ref_mut_to_ref_2,
    tricky_map_unsoundness, unstable_address,
};
use ownref::{RefError, Span};

#[test]
fn owner_replacement_reads_the_new_value() {
    assert_eq!(ref_mut_as_owner_mut(), Ok(9));
}

#[test]
fn owner_shown_to_projection_reads_the_stored_value() {
    assert_eq!(unstable_address(), Ok(5));
}

#[test]
fn mutable_wrapper_hides_an_owner_with_cells() {
    assert_eq!(ref_mut_as_owner(), Err(RefError::CellsExposed));
}

#[test]
fn converted_wrapper_hides_an_owner_with_cells() {
    assert_eq!(ref_mut_to_ref(), Err(RefError::CellsExposed));
}

#[test]
fn converted_wrapper_shows_no_projection_an_owner_with_cells() {
    assert_eq!(ref_mut_to_ref_2(), Err(RefError::CellsExposed));
}

#[test]
fn captured_slice_is_no_source_for_a_reference() {
    let input = [String::from("outer")];
    assert!(matches!(tricky_map_unsoundness(&input), Err(RefError::NotDerived)));
    assert!(matches!(tricky_map_unsoundness(&[1, 2, 3]), Err(RefError::NotDerived)));
}

#[test]
fn captured_empty_slice_selects_nothing() {
    let input: [u8; 0] = [];
    let r = tricky_map_unsoundness(&input).unwrap();
    assert!(r.as_slice().is_empty());
    assert_eq!(r.window(), Span { start: 0, len: 0 });
    assert!(r.into_owner().is_empty());
}
