use ortho_vec::{Column, IntoOrtho, LastColumn, OrthoVec, OutOfBounds};

type Pair = OrthoVec<Column<i32, LastColumn<f32>>>;

type Triple = OrthoVec<Column<u64, Column<String, LastColumn<bool>>>>;

fn sample() -> Pair {
    OrthoVec::from_rows(vec![(3, 4.2), (6, 24.2)])
}

fn rows_of(v: &Pair) -> Vec<(i32, f32)> {
    let mut out = Vec::new();
    let mut it = v.iter();
    while let Some((a, b)) = it.next() {
        out.push((*a, *b));
    }
    out
}

#[test]
fn scenario_pop_push_reverse_clear() {
    let mut v = sample();
    assert_eq!(v.len(), 2);
    assert_eq!(v.pop(), Some((6, 24.2)));
    assert_eq!(v.len(), 1);
    v.push((7, 8.1));
    assert_eq!(v.len(), 2);
    assert_eq!(rows_of(&v), vec![(3, 4.2), (7, 8.1)]);
    v.reverse();
    assert_eq!(rows_of(&v), vec![(7, 8.1), (3, 4.2)]);
    v.clear();
    assert_eq!(v.len(), 0);
    assert_eq!(rows_of(&v), vec![]);
}

#[test]
fn scenario_insert_then_remove_in_the_middle() {
    let mut v = sample();
    assert_eq!(v.insert(1, (7, 3.0)), Ok(()));
    assert_eq!(rows_of(&v), vec![(3, 4.2), (7, 3.0), (6, 24.2)]);
    assert_eq!(v.remove(1), Ok((7, 3.0)));
    assert_eq!(rows_of(&v), vec![(3, 4.2), (6, 24.2)]);
}

#[test]
fn remove_out_of_bounds_reports_index_and_length() {
    let mut v = sample();
    assert_eq!(v.remove(5), Err(OutOfBounds { index: 5, len: 2 }));
    assert_eq!(rows_of(&v), vec![(3, 4.2), (6, 24.2)]);
    assert_eq!(v.remove(2), Err(OutOfBounds { index: 2, len: 2 }));
    assert_eq!(v.len(), 2);
}

#[test]
fn swap_remove_out_of_bounds_reports_index_and_length() {
    let mut v = sample();
    assert_eq!(v.swap_remove(2), Err(OutOfBounds { index: 2, len: 2 }));
    assert_eq!(rows_of(&v), vec![(3, 4.2), (6, 24.2)]);
}

#[test]
fn insert_out_of_bounds_reports_index_and_length() {
    let mut v = sample();
    assert_eq!(v.insert(3, (1, 1.0)), Err(OutOfBounds { index: 3, len: 2 }));
    assert_eq!(rows_of(&v), vec![(3, 4.2), (6, 24.2)]);
    assert_eq!(v.insert(2, (1, 1.0)), Ok(()));
    assert_eq!(rows_of(&v), vec![(3, 4.2), (6, 24.2), (1, 1.0)]);
}

#[test]
fn pop_on_empty_is_none() {
    let mut v: Pair = OrthoVec::new();
    assert_eq!(v.pop(), None);
    assert_eq!(v.len(), 0);
}

#[test]
fn round_trip_keeps_rows_and_order() {
    let rows = vec![
        (1, "one".to_string(), true),
        (2, "two".to_string(), false),
        (3, "three".to_string(), true),
    ];
    let nested: Vec<(u64, (String, bool))> =
        rows.iter().map(|(a, b, c)| (*a, (b.clone(), *c))).collect();
    let v: Triple = nested.clone().into_ortho();
    assert_eq!(v.len(), 3);
    assert_eq!(v.into_rows(), nested);
}

#[test]
fn round_trip_of_nothing() {
    let v: Triple = OrthoVec::from_rows(Vec::new());
    assert_eq!(v.len(), 0);
    assert_eq!(v.into_rows(), Vec::new());
}

#[test]
fn owning_iterator_yields_rows_in_order_then_none() {
    let mut it = sample().into_iter();
    assert_eq!(it.next(), Some((3, 4.2)));
    assert_eq!(it.next(), Some((6, 24.2)));
    assert_eq!(it.next(), None);
    assert_eq!(it.next(), None);
}

#[test]
fn read_iterator_is_fresh_on_each_call() {
    let v = sample();
    let mut first = v.iter();
    assert_eq!(first.next(), Some((&3, &4.2)));
    let mut second = v.iter();
    assert_eq!(second.next(), Some((&3, &4.2)));
    assert_eq!(first.next(), Some((&6, &24.2)));
    assert_eq!(first.next(), None);
}

#[test]
fn length_follows_every_operation() {
    let mut v: Triple = OrthoVec::with_capacity(8);
    assert_eq!(v.len(), 0);
    v.push((1, ("a".to_string(), true)));
    v.push((2, ("b".to_string(), false)));
    assert_eq!(v.len(), 2);
    v.insert(0, (0, ("z".to_string(), true))).unwrap();
    assert_eq!(v.len(), 3);
    v.swap_remove(0).unwrap();
    assert_eq!(v.len(), 2);
    v.shrink_to_fit();
    assert_eq!(v.len(), 2);
    v.reverse();
    assert_eq!(v.len(), 2);
    v.remove(1).unwrap();
    assert_eq!(v.len(), 1);
    v.pop();
    assert_eq!(v.len(), 0);
}

#[test]
fn push_then_pop_gives_the_row_back() {
    let mut v = sample();
    v.push((9, 0.5));
    assert_eq!(v.pop(), Some((9, 0.5)));
    assert_eq!(rows_of(&v), vec![(3, 4.2), (6, 24.2)]);
}

#[test]
fn insert_then_remove_at_every_position() {
    for i in 0..=2 {
        let mut v = sample();
        v.insert(i, (-1, -1.0)).unwrap();
        assert_eq!(v.len(), 3);
        assert_eq!(v.remove(i), Ok((-1, -1.0)));
        assert_eq!(rows_of(&v), vec![(3, 4.2), (6, 24.2)]);
    }
}

#[test]
fn reverse_twice_restores_rows() {
    let mut v: Pair = OrthoVec::from_rows(vec![(1, 1.5), (2, 2.5), (3, 3.5)]);
    v.reverse();
    assert_eq!(rows_of(&v), vec![(3, 3.5), (2, 2.5), (1, 1.5)]);
    v.reverse();
    assert_eq!(rows_of(&v), vec![(1, 1.5), (2, 2.5), (3, 3.5)]);
}

#[test]
fn swap_remove_moves_the_last_row_into_place() {
    let mut v: Pair = OrthoVec::from_rows(vec![(1, 1.5), (2, 2.5), (3, 3.5)]);
    assert_eq!(v.swap_remove(0), Ok((1, 1.5)));
    assert_eq!(rows_of(&v), vec![(3, 3.5), (2, 2.5)]);
    assert_eq!(v.swap_remove(1), Ok((2, 2.5)));
    assert_eq!(rows_of(&v), vec![(3, 3.5)]);
}

#[test]
fn shrink_to_fit_keeps_rows() {
    let mut v: Pair = OrthoVec::with_capacity(100);
    v.push((1, 1.0));
    v.push((2, 2.0));
    v.shrink_to_fit();
    assert_eq!(rows_of(&v), vec![(1, 1.0), (2, 2.0)]);
}

#[test]
fn mutable_iteration_matches_row_major_transform() {
    let rows = vec![(3, 4.0), (6, 24.0), (-2, 0.5)];
    let mut v: Pair = OrthoVec::from_rows(rows.clone());
    let mut it = v.iter_mut();
    while let Some(row) = it.next() {
        let (a, rest) = row.split();
        let b = rest.into_mut();
        *a += *b as i32;
        *b *= 2.0;
    }
    let expected: Vec<(i32, f32)> = rows
        .iter()
        .map(|(a, b)| (a + *b as i32, b * 2.0))
        .collect();
    assert_eq!(rows_of(&v), expected);
    assert_eq!(v.into_rows(), vec![(7, 8.0), (30, 48.0), (-2, 1.0)]);
}

#[test]
fn mutable_iteration_over_three_fields() {
    let mut v: Triple = OrthoVec::from_rows(vec![
        (1, ("x".to_string(), false)),
        (2, ("y".to_string(), true)),
    ]);
    let mut it = v.iter_mut();
    while let Some(row) = it.next() {
        let (a, rest) = row.split();
        let (s, rest) = rest.split();
        let flag = rest.into_mut();
        *a *= 10;
        s.push('!');
        *flag = !*flag;
    }
    assert_eq!(
        v.into_rows(),
        vec![(10, ("x!".to_string(), true)), (20, ("y!".to_string(), false))]
    );
}

#[test]
fn single_field_schema() {
    let mut v: OrthoVec<LastColumn<u8>> = vec![1u8, 2, 3].into_ortho();
    assert_eq!(v.len(), 3);
    v.reverse();
    assert_eq!(v.pop(), Some(1));
    assert_eq!(v.remove(0), Ok(3));
    let mut it = v.iter_mut();
    while let Some(row) = it.next() {
        *row.into_mut() += 40;
    }
    assert_eq!(v.into_rows(), vec![42]);
}

#[test]
fn read_iterator_sees_every_row_in_order() {
    let v: Pair = vec![(7, 9.3), (3, 3.14)].into_ortho();
    let mut seen = Vec::new();
    let mut it = v.iter();
    while let Some((a, _)) = it.next() {
        assert_eq!(a % 2, 1);
        seen.push(*a);
    }
    assert_eq!(seen, vec![7, 3]);
}

#[test]
fn mutable_iteration_without_writes_keeps_rows() {
    let mut v = sample();
    let mut it = v.iter_mut();
    let mut lent = 0;
    while let Some(_row) = it.next() {
        lent += 1;
    }
    assert_eq!(lent, 2);
    assert_eq!(v.len(), 2);
    assert_eq!(rows_of(&v), vec![(3, 4.2), (6, 24.2)]);
}
