use todo_server::matrix::Matrix;

#[test]
fn test_generate_from_iter() {
    let mut data = vec![1, 2, 3, 4].into_iter();
    let left = Matrix::<i32, 2, 2>::from_iter(&mut data).unwrap();

    assert_eq!((2, 2), left.get_size());
    assert_eq!(Some(&1), left.get((0, 0)));
    assert_eq!(Some(&2), left.get((1, 0)));
    assert_eq!(Some(&3), left.get((0, 1)));
    assert_eq!(Some(&4), left.get((1, 1)));
}

#[test]
fn test_generate_from_iter_default() {
    let mut data = vec![1, 8].into_iter();
    let left = Matrix::<i32, 2, 2>::from_iter_default(&mut data);

    assert_eq!((2, 2), left.get_size());
    assert_eq!(Some(&1), left.get((0, 0)));
    assert_eq!(Some(&8), left.get((1, 0)));
    assert_eq!(Some(&0), left.get((0, 1)));
    assert_eq!(Some(&0), left.get((1, 1)));
}

#[test]
fn test_dot_mul() {
    let mut data = vec![1, 2, 3, 4].into_iter();
    let left = Matrix::<i32, 2, 2>::from_iter(&mut data).unwrap();
    let mut data = vec![1, 2, 3, 4].into_iter();
    let right = Matrix::<i32, 2, 2>::from_iter_default(&mut data);

    assert_eq!((2, 2), left.get_size());
    assert_eq!(Some(&1), left.get((0, 0)));
    assert_eq!(Some(&2), left.get((1, 0)));
    assert_eq!(Some(&3), left.get((0, 1)));
    assert_eq!(Some(&4), left.get((1, 1)));

    assert_eq!((2, 2), right.get_size());
    assert_eq!(Some(&1), right.get((0, 0)));
    assert_eq!(Some(&2), right.get((1, 0)));
    assert_eq!(Some(&3), right.get((0, 1)));
    assert_eq!(Some(&4), right.get((1, 1)));

    let res = Matrix::dot_mul(left, right);

    assert_eq!((2, 2), res.get_size());
    assert_eq!(Some(&7), res.get((0, 0)));
    assert_eq!(Some(&10), res.get((1, 0)));
    assert_eq!(Some(&15), res.get((0, 1)));
    assert_eq!(Some(&22), res.get((1, 1)));
}

#[test]
fn test_transpose() {
    let data = vec![1, 2, 3, 4, 5, 6];
    let matrix = Matrix::<i32, 2, 3>::from_iter(&mut data.into_iter()).unwrap();

    assert_eq!((2, 3), matrix.get_size());
    assert_eq!(Some(&1), matrix.get((0, 0)));
    assert_eq!(Some(&2), matrix.get((1, 0)));
    assert_eq!(Some(&3), matrix.get((0, 1)));
    assert_eq!(Some(&4), matrix.get((1, 1)));
    assert_eq!(Some(&5), matrix.get((0, 2)));
    assert_eq!(Some(&6), matrix.get((1, 2)));

    let matrix = matrix.transpose();

    assert_eq!((3, 2), matrix.get_size());
    assert_eq!(Some(&1), matrix.get((0, 0)));
    assert_eq!(Some(&2), matrix.get((0, 1)));
    assert_eq!(Some(&3), matrix.get((1, 0)));
    assert_eq!(Some(&4), matrix.get((1, 1)));
    assert_eq!(Some(&5), matrix.get((2, 0)));
    assert_eq!(Some(&6), matrix.get((2, 1)));
}

#[test]
fn test_add() {
    let mut data = vec![1, 2, 3, 4].into_iter();
    let left = Matrix::<i32, 2, 2>::from_iter(&mut data).unwrap();
    let mut data = vec![1, 2, 3, 4].into_iter();
    let right = Matrix::<i32, 2, 2>::from_iter_default(&mut data);

    assert_eq!((2, 2), left.get_size());
    assert_eq!(Some(&1), left.get((0, 0)));
    assert_eq!(Some(&2), left.get((1, 0)));
    assert_eq!(Some(&3), left.get((0, 1)));
    assert_eq!(Some(&4), left.get((1, 1)));

    assert_eq!((2, 2), right.get_size());
    assert_eq!(Some(&1), right.get((0, 0)));
    assert_eq!(Some(&2), right.get((1, 0)));
    assert_eq!(Some(&3), right.get((0, 1)));
    assert_eq!(Some(&4), right.get((1, 1)));

    let res = left + right;

    assert_eq!((2, 2), res.get_size());
    assert_eq!(Some(&2), res.get((0, 0)));
    assert_eq!(Some(&4), res.get((1, 0)));
    assert_eq!(Some(&6), res.get((0, 1)));
    assert_eq!(Some(&8), res.get((1, 1)));
}

#[test]
fn test_do_ops() {
    let mut data = vec![1, 2, 3, 4].into_iter();
    let left = Matrix::<i32, 2, 2>::from_iter(&mut data).unwrap();

    assert_eq!((2, 2), left.get_size());
    assert_eq!(Some(&1), left.get((0, 0)));
    assert_eq!(Some(&2), left.get((1, 0)));
    assert_eq!(Some(&3), left.get((0, 1)));
    assert_eq!(Some(&4), left.get((1, 1)));

    let res = left.do_ops(|d| d * 10);

    assert_eq!((2, 2), res.get_size());
    assert_eq!(Some(&10), res.get((0, 0)));
    assert_eq!(Some(&20), res.get((1, 0)));
    assert_eq!(Some(&30), res.get((0, 1)));
    assert_eq!(Some(&40), res.get((1, 1)));
}
