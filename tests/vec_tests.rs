use fallible_vec::{
    try_new_repeat_item, try_new_repeat_item_in, try_with_capacity, try_with_capacity_in,
    FallibleVec, TryCollect,
};

#[test]
fn test_push() {
    let mut v = Vec::new();
    v.try_push(1).unwrap();
    assert_eq!(v, [1]);
    v.try_push(2).unwrap();
    assert_eq!(v, [1, 2]);
    v.try_push(3).unwrap();
    assert_eq!(v, [1, 2, 3]);
}

#[test]
fn test_extend_from_slice() {
    let a: Vec<isize> = [1, 2, 3, 4, 5].into_iter().try_collect().unwrap();
    let b: Vec<isize> = [6, 7, 8, 9, 0].into_iter().try_collect().unwrap();

    let mut v: Vec<isize> = a;

    v.try_extend_from_slice(&b).unwrap();

    assert_eq!(v, [1, 2, 3, 4, 5, 6, 7, 8, 9, 0]);
}

#[test]
fn test_splice() {
    let mut v = [1, 2, 3, 4, 5].into_iter().try_collect().unwrap();
    let a = [10, 11, 12];
    v.try_splice_in(2..4, a.into_iter()).unwrap();
    assert_eq!(v, &[1, 2, 10, 11, 12, 5]);
    v.try_splice_in(1..3, Some(20).into_iter()).unwrap();
    assert_eq!(v, &[1, 20, 11, 12, 5]);
}

#[test]
fn test_splice_inclusive_range() {
    let mut v = [1, 2, 3, 4, 5].into_iter().try_collect().unwrap();
    let a = [10, 11, 12];
    let r = 2..=3;
    v.try_splice_in(*r.start()..*r.end() + 1, a.into_iter()).unwrap();
    assert_eq!(v, &[1, 2, 10, 11, 12, 5]);
    let r = 1..=2;
    v.try_splice_in(*r.start()..*r.end() + 1, Some(20).into_iter())
        .unwrap();
    assert_eq!(v, &[1, 20, 11, 12, 5]);
}

#[test]
fn test_splice_items_zero_sized() {
    let mut vec = try_new_repeat_item((), 3).unwrap();
    let vec2: Vec<()> = try_with_capacity(0).unwrap();
    vec.try_splice_in(1..2, vec2.iter().cloned()).unwrap();
    assert_eq!(vec, &[(), ()]);
}

#[test]
fn test_splice_unbounded() {
    let mut vec = [1, 2, 3, 4, 5].into_iter().try_collect().unwrap();
    let len = vec.len();
    vec.try_splice_in(0..len, None.into_iter()).unwrap();
    assert_eq!(vec, &[]);
}

#[test]
fn test_into_boxed_slice() {
    let xs = [1, 2, 3].into_iter().try_collect().unwrap();
    let ys = xs.into_boxed_slice();
    assert_eq!(&*ys, [1, 2, 3]);
}

#[test]
fn test_collect_after_iterator_clone() {
    let v = try_new_repeat_item_in(0, 5).unwrap();
    let mut i = v.into_iter().map(|i| i + 1).peekable();
    i.peek();
    let v = i.clone().try_collect().unwrap();
    assert_eq!(v, [1, 1, 1, 1, 1]);
    assert!(v.len() <= v.capacity());
}

#[test]
fn test_macro_forms() {
    let v: Vec<i32> = try_with_capacity(0).unwrap();
    assert_eq!(v, vec![]);
    assert_eq!(try_new_repeat_item('c', 10).unwrap(), vec!['c'; 10]);
    assert_eq!(
        [1, 2, 3, 4].into_iter().try_collect().unwrap(),
        vec![1, 2, 3, 4]
    );

    let v: Vec<i32> = try_with_capacity_in(0).unwrap();
    assert_eq!(v, vec![]);
    assert_eq!(try_new_repeat_item_in('c', 10).unwrap(), vec!['c'; 10]);
    assert_eq!(
        vec![1, 2, 3, 4].into_iter().try_collect().unwrap(),
        vec![1, 2, 3, 4]
    );
}

#[test]
fn test_zst() {
    #[derive(Copy, Clone, Debug, Eq, PartialEq)]
    struct ZeroSized {}

    let mut v: Vec<ZeroSized> = try_with_capacity(0).unwrap();
    assert_eq!(v, vec![]);
    assert_eq!(
        try_new_repeat_item(ZeroSized {}, 10).unwrap(),
        vec![ZeroSized {}; 10]
    );
    assert_eq!(
        [ZeroSized {}, ZeroSized {}].into_iter().try_collect().unwrap(),
        vec![ZeroSized {}, ZeroSized {}]
    );

    v.try_push(ZeroSized {}).unwrap();
    assert_eq!(v.len(), 1);
    v.try_resize(42, ZeroSized {}).unwrap();
    assert_eq!(v.len(), 42);
}
