use oc_worker::gpu::{
    flatten, matrix_header, matrix_multiply_tiled, plan_matrix_multiply, plan_vec_matrix_multiply,
    plan_add, reshape, vec_matrix_multiply_lanes, GpuError, Kernel, MatrixHeader,
};

#[test]
fn matrix_multiply_two_by_two() {
    let a = vec![vec![1i64, 2], vec![3, 4]];
    let b = vec![vec![5i64, 6], vec![7, 8]];
    let c = matrix_multiply_tiled(&a, &b).ok().unwrap();
    assert_eq!(c, vec![vec![19, 22], vec![43, 50]]);
}

#[test]
fn matrix_multiply_dimension_mismatch() {
    let a = vec![vec![1i64, 2], vec![3, 4]];
    let b = vec![vec![1i64], vec![2], vec![3]];
    assert!(matches!(matrix_multiply_tiled(&a, &b), Err(GpuError::DimensionMismatch)));
    let plan = plan_matrix_multiply(matrix_header(&a).ok().unwrap(), matrix_header(&b).ok().unwrap());
    assert!(matches!(plan, Err(GpuError::DimensionMismatch)));
}

#[test]
fn matrix_multiply_across_several_tiles() {
    // 3 x 20 of ones times 20 x 18 where entry (k, j) = k + j
    let a = vec![vec![1i64; 20]; 3];
    let b: Vec<Vec<i64>> = (0..20).map(|k| (0..18).map(|j| k + j).collect()).collect();
    let c = matrix_multiply_tiled(&a, &b).ok().unwrap();
    assert_eq!(c.len(), 3);
    for row in &c {
        assert_eq!(row.len(), 18);
        for (j, v) in row.iter().enumerate() {
            assert_eq!(*v, 190 + 20 * j as i64);
        }
    }
}

#[test]
fn matrix_multiply_rectangular() {
    let a = vec![vec![1i64, 2, 3], vec![4, 5, 6]];
    let b = vec![vec![7i64, 8], vec![9, 10], vec![11, 12]];
    let c = matrix_multiply_tiled(&a, &b).ok().unwrap();
    assert_eq!(c, vec![vec![58, 64], vec![139, 154]]);
}

#[test]
fn vec_matrix_multiply_example() {
    let v = vec![1i64, 1];
    let b = vec![vec![1i64, 2], vec![3, 4]];
    assert_eq!(vec_matrix_multiply_lanes(&v, &b).ok().unwrap(), vec![4, 6]);
}

#[test]
fn vec_matrix_multiply_dimension_mismatch() {
    let v = vec![1i64, 1, 1];
    let b = vec![vec![1i64, 2], vec![3, 4]];
    assert!(matches!(vec_matrix_multiply_lanes(&v, &b), Err(GpuError::DimensionMismatch)));
    assert!(matches!(
        plan_vec_matrix_multiply(3, matrix_header(&b).ok().unwrap()),
        Err(GpuError::DimensionMismatch)
    ));
}

#[test]
fn matmul_plan_group_counts() {
    let a = MatrixHeader { long: 33, width: 5 };
    let b = MatrixHeader { long: 5, width: 17 };
    let p = plan_matrix_multiply(a, b).ok().unwrap();
    assert_eq!(p.out_len, 33 * 17);
    assert_eq!(p.groups_x, 2);
    assert_eq!(p.groups_y, 3);
    let p = plan_matrix_multiply(MatrixHeader { long: 16, width: 2 }, MatrixHeader { long: 2, width: 16 })
        .ok()
        .unwrap();
    assert_eq!((p.groups_x, p.groups_y), (1, 1));
}

#[test]
fn matmul_plan_too_large() {
    let a = MatrixHeader { long: 1 << 16, width: 1 };
    let b = MatrixHeader { long: 1, width: 1 << 15 };
    assert!(matches!(plan_matrix_multiply(a, b), Err(GpuError::TooLarge)));
}

#[test]
fn vec_plan_group_counts() {
    let b = MatrixHeader { long: 2, width: 65 };
    let p = plan_vec_matrix_multiply(2, b).ok().unwrap();
    assert_eq!(p.out_len, 65);
    assert_eq!(p.groups_x, 2);
    let p = plan_vec_matrix_multiply(2, MatrixHeader { long: 2, width: 64 }).ok().unwrap();
    assert_eq!(p.groups_x, 1);
}

#[test]
fn header_of_matrix() {
    let m = vec![vec![0u8; 3]; 2];
    let h = matrix_header(&m).ok().unwrap();
    assert_eq!((h.long, h.width), (2, 3));
    let empty: Vec<Vec<u8>> = vec![];
    let h = matrix_header(&empty).ok().unwrap();
    assert_eq!((h.long, h.width), (0, 0));
}

#[test]
fn flatten_and_reshape() {
    let m = vec![vec![1, 2, 3], vec![4, 5, 6]];
    let f = flatten(&m);
    assert_eq!(f, vec![1, 2, 3, 4, 5, 6]);
    assert_eq!(reshape(&f, 3), m);
    assert_eq!(reshape(&f, 4), vec![vec![1, 2, 3, 4], vec![5, 6]]);
    assert!(reshape(&f, 0).is_empty());
}

#[test]
fn error_messages_not_empty() {
    assert_eq!(GpuError::DimensionMismatch.message(), "Matrix A's width must equal Matrix B's height.");
    assert_eq!(GpuError::TooLarge.message(), "Result does not fit a device buffer.");
}

#[test]
fn add_plan_checks_lengths() {
    assert!(matches!(plan_add(3, 4), Err(GpuError::LengthMismatch)));
    assert_eq!(plan_add(5, 5).ok(), Some(5));
    assert_eq!(plan_add(0, 0).ok(), Some(0));
    assert_eq!(GpuError::LengthMismatch.message(), "Input length mismatch");
}

#[test]
fn kernel_layouts() {
    let l = Kernel::MatrixMultiply.layout();
    let bindings: Vec<u32> = l.iter().map(|s| s.binding).collect();
    assert_eq!(bindings, vec![6, 7, 8, 9, 10]);
    assert!(l[..4].iter().all(|s| s.read_only));
    assert!(!l[4].read_only);
    assert_eq!(Kernel::VectorMatrixMultiply.name(), "vector_matrix_multiply");
    assert_eq!(Kernel::AddU32.layout().len(), 3);
    assert_eq!(Kernel::Add.name(), "add");
}
