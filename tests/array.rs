use nalgebra::DVector;
use numerix_core::array::{compose_text, Array};

#[test]
fn test_zeros() {
    let a: Array = Array::zeros(3);
    assert_eq!(DVector::from_vec(a.to_vec()), DVector::zeros(3));
    println!("{}", a.to_string());
}

#[test]
fn test_ones() {
    let a: Array = Array::ones(3);
    assert_eq!(DVector::from_vec(a.to_vec()), DVector::from_element(3, 1));
}

#[test]
fn zeros_has_length_and_zero_elements() {
    let a = Array::zeros(5);
    assert_eq!(a.len(), 5);
    assert_eq!(a.to_vec(), vec![0i64; 5]);
}

#[test]
fn ones_has_length_and_one_elements() {
    let a = Array::ones(4);
    assert_eq!(a.len(), 4);
    assert_eq!(a.to_vec(), vec![1i64; 4]);
}

#[test]
fn empty_arrays() {
    assert!(Array::zeros(0).is_empty());
    assert!(Array::ones(0).is_empty());
    assert!(Array::from_vec(Vec::new()).is_empty());
    let e: &[i64] = &[];
    assert_eq!(Array::from(e).len(), 0);
    assert_eq!(Array::zeros(0).to_vec(), Vec::<i64>::new());
}

#[test]
fn from_owned_vec_keeps_order() {
    let a = Array::from(vec![3i64, -1, 7, 7]);
    assert_eq!(a.len(), 4);
    assert_eq!(a.to_vec(), vec![3, -1, 7, 7]);
    assert_eq!(a.get(0), 3);
    assert_eq!(a.get(3), 7);
}

#[test]
fn from_fixed_array() {
    let a = Array::from([10i64, 20, 30]);
    assert_eq!(a.to_vec(), vec![10, 20, 30]);
    let b = Array::from_array([i64::MIN, i64::MAX]);
    assert_eq!(b.as_slice(), &[i64::MIN, i64::MAX]);
}

#[test]
fn from_slice_copies() {
    let mut v = vec![1i64, 2, 3];
    let a = Array::from(v.as_slice());
    v[0] = 100;
    v.push(4);
    assert_eq!(a.to_vec(), vec![1, 2, 3]);
    let b = Array::from_slice(&v[1..3]);
    assert_eq!(b.to_vec(), vec![2, 3]);
}

#[test]
fn zeros_text_shows_length_and_three_zeros() {
    let text = Array::zeros(3).to_string();
    assert!(text.starts_with("Vector with length: 3\n "));
    assert!(text.contains('3'));
    assert_eq!(text.matches('0').count(), 3);
}

#[test]
fn text_length_in_decimal() {
    let text = Array::zeros(12).to_string();
    assert!(text.starts_with("Vector with length: 12\n "));
    let text = Array::from(vec![5i64]).to_string();
    assert!(text.starts_with("Vector with length: 1\n "));
    assert!(text.contains('5'));
}

#[test]
fn read_back_round_trip() {
    let s = vec![9i64, 8, 0, -4, 2];
    let a = Array::from_vec(s.clone());
    let mut back = Vec::new();
    for i in 0..a.len() {
        back.push(a.get(i));
    }
    assert_eq!(back, s);
    assert_eq!(a.to_vec(), s);
}

#[test]
fn set_replaces_one_element() {
    let mut a = Array::zeros(3);
    a.set(1, 42);
    assert_eq!(a.to_vec(), vec![0, 42, 0]);
    assert_eq!(a.len(), 3);
}

#[test]
fn clone_is_independent() {
    let a = Array::from(vec![1i64, 2]);
    let mut b = a.clone();
    b.set(0, 5);
    assert_eq!(a.to_vec(), vec![1, 2]);
    assert_eq!(b.to_vec(), vec![5, 2]);
}

#[test]
fn compose_text_exact() {
    assert_eq!(compose_text(3, "[0 0 0]"), "Vector with length: 3\n [0 0 0]");
    assert_eq!(compose_text(0, ""), "Vector with length: 0\n ");
    assert_eq!(compose_text(105, "x"), "Vector with length: 105\n x");
}
