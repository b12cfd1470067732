use iter_fixed::IntoIteratorFixed;
use iter_fixed::IteratorFixed;
use iter_fixed::repeat;

#[test]
fn test() {
    let res: [_; 4] = [1u32, 2, 3, 4]
        .into_iter_fixed()
        .zip([4u32, 3, 2, 1])
        .map(|(a, b)| a + b)
        .collect();

    assert_eq!(res, [5, 5, 5, 5]);

    let res: [(_, _); 3] = [1, 2, 3].into_iter_fixed().zip(repeat(42)).collect();
    assert_eq!(res, [(1, 42), (2, 42), (3, 42)]);
}

#[test]
fn test_changing_length() {
    let res: [_; 3] = [1, 2, 3, 4].into_iter_fixed().skip::<1, 3>().collect();

    assert_eq!(res, [2, 3, 4]);

    let res: [_; 3] = [1, 2, 3, 4, 5].into_iter_fixed().step_by::<2, 3>().collect();

    assert_eq!(res, [1, 3, 5]);

    let res: [_; 3] = [1, 2, 3, 4, 5, 6]
        .into_iter_fixed()
        .step_by::<2, 3>()
        .collect();

    assert_eq!(res, [1, 3, 5]);

    let res: [_; 4] = [1, 2, 3, 4, 5, 6, 7]
        .into_iter_fixed()
        .step_by::<2, 4>()
        .collect();

    assert_eq!(res, [1, 3, 5, 7]);

    let res: [_; 4] = [1, 2].into_iter_fixed().chain([3, 4]).collect();

    assert_eq!(res, [1, 2, 3, 4]);

    let res: [_; 2] = [1, 2, 3, 4].into_iter_fixed().take::<2>().collect();

    assert_eq!(res, [1, 2]);

    let res: [_; 4] = [[1, 2], [3, 4]].into_iter_fixed().flatten().collect();

    assert_eq!(res, [1, 2, 3, 4]);

    let res: [_; 6] = [1, 2, 3].into_iter_fixed().flat_map(|x| [x, x]).collect();

    assert_eq!(res, [1, 1, 2, 2, 3, 3]);

    let res: [_; 6] = [1, 2, 3]
        .into_iter_fixed()
        .flat_map(|x| IntoIteratorFixed::<2>::into_iter_fixed(repeat(x)))
        .collect();

    assert_eq!(res, [1, 1, 2, 2, 3, 3]);
}

#[test]
fn round_trip_identity_map() {
    let res: [i32; 5] = [7, 8, 9, 10, 11].into_iter_fixed().map(|x| x).collect();
    assert_eq!(res, [7, 8, 9, 10, 11]);
}

#[test]
fn round_trip_empty() {
    let empty: [i32; 0] = [];
    let res: [i32; 0] = empty.into_iter_fixed().map(|x| x).collect();
    assert_eq!(res, []);
}

#[test]
fn zip_repeat_pairs_constant() {
    let res: [(i32, i32); 3] = [1, 2, 3].into_iter_fixed().zip(repeat(42)).collect();
    assert_eq!(res, [(1, 42), (2, 42), (3, 42)]);
}

#[test]
fn chain_empty_is_identity() {
    let empty: [i32; 0] = [];
    let res: [i32; 2] = empty.into_iter_fixed().chain([1, 2]).collect();
    assert_eq!(res, [1, 2]);

    let empty: [i32; 0] = [];
    let res: [i32; 2] = [1, 2].into_iter_fixed().chain(empty).collect();
    assert_eq!(res, [1, 2]);
}

#[test]
fn take_whole_and_nothing() {
    let res: [i32; 3] = [1, 2, 3].into_iter_fixed().take::<3>().collect();
    assert_eq!(res, [1, 2, 3]);

    let res: [i32; 0] = [1, 2, 3].into_iter_fixed().take::<0>().collect();
    assert_eq!(res, []);
}

#[test]
fn skip_whole_and_nothing() {
    let res: [i32; 0] = [1, 2, 3].into_iter_fixed().skip::<3, 0>().collect();
    assert_eq!(res, []);

    let res: [i32; 3] = [1, 2, 3].into_iter_fixed().skip::<0, 3>().collect();
    assert_eq!(res, [1, 2, 3]);
}

#[test]
fn step_by_one_keeps_all() {
    let res: [i32; 4] = [4, 3, 2, 1].into_iter_fixed().step_by::<1, 4>().collect();
    assert_eq!(res, [4, 3, 2, 1]);
}

#[test]
fn step_by_large_stride_keeps_first() {
    let res: [i32; 1] = [9, 8, 7].into_iter_fixed().step_by::<5, 1>().collect();
    assert_eq!(res, [9]);
}

#[test]
fn enumerate_positions() {
    let res: [(usize, i32); 3] = [10, 20, 30].into_iter_fixed().enumerate().collect();
    assert_eq!(res, [(0, 10), (1, 20), (2, 30)]);
}

#[test]
fn rev_reverses() {
    let res: [i32; 4] = [1, 2, 3, 4].into_iter_fixed().rev().collect();
    assert_eq!(res, [4, 3, 2, 1]);
}

#[test]
fn flatten_empty_outer() {
    let empty: [[i32; 2]; 0] = [];
    let res: [i32; 0] = empty.into_iter_fixed().flatten().collect();
    assert_eq!(res, []);
}

#[test]
fn flatten_empty_inner() {
    let rows: [[i32; 0]; 2] = [[], []];
    let res: [i32; 0] = rows.into_iter_fixed().flatten().collect();
    assert_eq!(res, []);
}

#[test]
fn borrowed_array_yields_references() {
    let arr = [1, 2, 3];
    let res: [i32; 3] = (&arr).into_iter_fixed().copied().collect();
    assert_eq!(res, [1, 2, 3]);
    assert_eq!(arr, [1, 2, 3]);
}

#[test]
fn cloned_duplicates_values() {
    let arr = [String::from("a"), String::from("b")];
    let res: [String; 2] = (&arr).into_iter_fixed().cloned().collect();
    assert_eq!(res, [String::from("a"), String::from("b")]);
    assert_eq!(arr, [String::from("a"), String::from("b")]);
}

#[test]
fn by_ref_leaves_owner_usable() {
    let w: IteratorFixed<i32, 3> = [1, 2, 3].into_iter_fixed();
    let doubled: [i32; 3] = w.by_ref().map(|x| 2 * x).collect();
    assert_eq!(doubled, [2, 4, 6]);
    let original: [i32; 3] = w.collect();
    assert_eq!(original, [1, 2, 3]);
}

#[test]
fn inspect_keeps_elements() {
    let res: [i32; 3] = [1, 2, 3].into_iter_fixed().inspect(|_x| {}).collect();
    assert_eq!(res, [1, 2, 3]);
}

#[test]
fn scan_running_sum() {
    let res: [i32; 3] = [1, 2, 3]
        .into_iter_fixed()
        .scan(0, |acc, x| (acc + x, acc + x))
        .collect();
    assert_eq!(res, [1, 3, 6]);
}

#[test]
fn fold_sums() {
    let total = [1, 2, 3, 4].into_iter_fixed().fold(0, |acc, x| acc + x);
    assert_eq!(total, 10);
}

#[test]
fn repeat_bounded_collects() {
    let ones: [i32; 3] = IntoIteratorFixed::<3>::into_iter_fixed(repeat(1)).collect();
    assert_eq!(ones, [1, 1, 1]);
}

#[test]
fn collect_into_vec() {
    let v: Vec<i32> = [5, 6].into_iter_fixed().collect();
    assert_eq!(v, vec![5, 6]);
}

#[test]
fn from_vec_round_trip() {
    let w: IteratorFixed<i32, 3> = IteratorFixed::from_vec(vec![1, 2, 3]);
    assert_eq!(w.len(), 3);
    let back = w.into_vec();
    assert_eq!(back, vec![1, 2, 3]);
}

#[test]
fn wrapper_converts_into_itself() {
    let w: IteratorFixed<i32, 2> = [1, 2].into_iter_fixed();
    let res: [i32; 2] = w.into_iter_fixed().collect();
    assert_eq!(res, [1, 2]);
}

#[test]
fn mixed_pipeline() {
    let res: [i32; 2] = [1, 2, 3, 4, 5, 6]
        .into_iter_fixed()
        .skip::<2, 4>()
        .step_by::<2, 2>()
        .map(|x| x * 10)
        .collect();
    assert_eq!(res, [30, 50]);
}
