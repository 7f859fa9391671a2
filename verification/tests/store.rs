use pixelstrip::store::{PostCardSerDe, SerDeError, STORAGE_RWBUFFER_SIZE};

#[test]
fn encoded_value_is_laid_into_the_front_of_the_slice() {
    let mut slice = [9u8; 8];
    assert_eq!(PostCardSerDe.serialize(&mut slice, &[1, 2, 3]), Ok(3));
    assert_eq!(slice, [1, 2, 3, 9, 9, 9, 9, 9]);
}

#[test]
fn exact_fit_and_empty_value() {
    let mut slice = [9u8; 3];
    assert_eq!(PostCardSerDe.serialize(&mut slice, &[1, 2, 3]), Ok(3));
    assert_eq!(slice, [1, 2, 3]);
    let mut slice = [9u8; 3];
    assert_eq!(PostCardSerDe.serialize(&mut slice, &[]), Ok(0));
    assert_eq!(slice, [9, 9, 9]);
    let mut nothing: [u8; 0] = [];
    assert_eq!(PostCardSerDe.serialize(&mut nothing, &[]), Ok(0));
}

#[test]
fn too_long_value_is_refused_and_the_slice_kept() {
    let mut slice = [9u8; 2];
    assert_eq!(PostCardSerDe.serialize(&mut slice, &[1, 2, 3]), Err(SerDeError::SliceTooSmall));
    assert_eq!(slice, [9, 9]);
    assert_eq!(SerDeError::SliceTooSmall.message(), "Slice too small");
    let mut big = [0u8; STORAGE_RWBUFFER_SIZE];
    let value = vec![7u8; STORAGE_RWBUFFER_SIZE + 1];
    assert_eq!(PostCardSerDe.serialize(&mut big, &value), Err(SerDeError::SliceTooSmall));
    assert_eq!(PostCardSerDe.serialize(&mut big, &value[1..]), Ok(STORAGE_RWBUFFER_SIZE));
    assert!(big.iter().all(|b| *b == 7));
}
