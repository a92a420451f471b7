use candle_core::{DType, Device, Tensor};
use candle_lua::{
    checked_shape_size, coerce_dtype, new_tensor, ones, wrap_err, zeros, BinaryOp, BindingError,
    DtypeArg, DtypeTag, HostValue, TensorHandle,
};

const ALL_NAMES: [&str; 6] = ["u8", "u32", "bf16", "f16", "f32", "f64"];

fn handle(t: Tensor) -> TensorHandle {
    TensorHandle::from_tensor(t).expect("dtype and size are accepted")
}

fn f64_list(values: &[f64]) -> TensorHandle {
    handle(Tensor::new(values, &Device::Cpu).unwrap())
}

fn f64_scalar(value: f64) -> TensorHandle {
    handle(Tensor::new(value, &Device::Cpu).unwrap())
}

fn f32_matrix(rows: usize, cols: usize) -> TensorHandle {
    let values: Vec<f32> = (0..rows * cols).map(|i| i as f32).collect();
    handle(Tensor::from_vec(values, (rows, cols), &Device::Cpu).unwrap())
}

fn is_backend<T>(r: &Result<T, BindingError>) -> bool {
    matches!(r, Err(BindingError::Backend { .. }))
}

#[test]
fn zeros_f32_has_requested_shape() {
    let t = zeros(vec![2, 3], DtypeArg::Name("f32".to_string())).unwrap();
    assert_eq!(t.shape(), vec![2, 3]);
    assert_eq!(t.rank(), 2);
    assert_eq!(t.dtype(), DtypeTag::F32);
    assert_eq!(t.as_tensor().to_vec2::<f32>().unwrap(), vec![vec![0.0; 3]; 2]);
}

#[test]
fn ones_without_shape_or_dtype_is_a_single_one() {
    let t = ones(vec![], DtypeArg::Nil).unwrap();
    assert_eq!(t.shape(), Vec::<usize>::new());
    assert_eq!(t.dtype(), DtypeTag::F64);
    assert_eq!(t.as_tensor().to_scalar::<f64>().unwrap(), 1.0);
    let text = t.to_string();
    assert!(text.contains('1'), "{text}");
    assert!(!text.contains('2'), "{text}");
}

#[test]
fn integer_tensors_add_to_eight() {
    let five = new_tensor(HostValue::Integer(5)).unwrap();
    let three = new_tensor(HostValue::Integer(3)).unwrap();
    let sum = five.binary(BinaryOp::Add, &HostValue::Tensor(three)).unwrap();
    assert_eq!(sum.shape(), Vec::<usize>::new());
    assert_eq!(sum.dtype(), DtypeTag::U32);
    assert_eq!(sum.as_tensor().to_scalar::<u32>().unwrap(), 8);
}

#[test]
fn matmul_of_mismatched_matrices_is_a_backend_error() {
    let a = f32_matrix(2, 3);
    let b = f32_matrix(4, 5);
    assert!(is_backend(&a.matmul(&b)));
}

#[test]
fn matmul_of_matching_matrices_has_outer_shape() {
    let a = f32_matrix(2, 3);
    let b = f32_matrix(3, 4);
    let c = a.matmul(&b).unwrap();
    assert_eq!(c.shape(), vec![2, 4]);
    assert_eq!(c.dtype(), DtypeTag::F32);
    // row 0 of a is [0,1,2]; column 0 of b is [0,4,8]
    assert_eq!(c.as_tensor().to_vec2::<f32>().unwrap()[0][0], 20.0);
}

#[test]
fn matmul_needs_equal_ranks_of_two() {
    let a = f64_list(&[1.0, 2.0]);
    let b = f32_matrix(2, 2);
    assert!(is_backend(&a.matmul(&b)));
    assert!(is_backend(&b.matmul(&a)));
}

#[test]
fn fill_factories_keep_every_shape() {
    for shape in [vec![], vec![0], vec![1], vec![4], vec![2, 3], vec![3, 0, 2], vec![1, 2, 3, 4]] {
        let o = ones(shape.clone(), DtypeArg::Tag(DtypeTag::U8)).unwrap();
        let z = zeros(shape.clone(), DtypeArg::Nil).unwrap();
        assert_eq!(o.shape(), shape);
        assert_eq!(z.shape(), shape);
        assert_eq!(o.rank(), shape.len());
        assert_eq!(o.dtype(), DtypeTag::U8);
        assert_eq!(z.dtype(), DtypeTag::F64);
    }
}

#[test]
fn fill_factories_refuse_oversized_shapes() {
    let huge = vec![usize::MAX, 2];
    assert!(matches!(ones(huge.clone(), DtypeArg::Nil), Err(BindingError::Shape)));
    assert!(matches!(zeros(huge, DtypeArg::Nil), Err(BindingError::Shape)));
    // the running product overflows before the zero is reached
    let hidden = vec![1usize << 40, 1usize << 40, 0];
    assert!(matches!(zeros(hidden, DtypeArg::Nil), Err(BindingError::Shape)));
}

#[test]
fn fill_factories_refuse_unknown_dtypes() {
    match ones(vec![2], DtypeArg::Name("f128".to_string())) {
        Err(BindingError::InvalidDtype { name }) => assert_eq!(name, "f128"),
        other => panic!("unexpected {:?}", other.map(|t| t.shape())),
    }
    assert!(matches!(zeros(vec![2], DtypeArg::Other), Err(BindingError::TypeConversion)));
}

#[test]
fn cast_sets_every_dtype() {
    let t = f64_list(&[1.0, 2.0, 3.0]);
    for tag in DtypeTag::all() {
        let c = t.to(tag).unwrap();
        assert_eq!(c.dtype(), tag);
        assert_eq!(c.shape(), vec![3]);
    }
    assert_eq!(t.dtype(), DtypeTag::F64);
    let bytes = t.to(DtypeTag::U8).unwrap();
    assert_eq!(bytes.as_tensor().to_vec1::<u8>().unwrap(), vec![1, 2, 3]);
}

#[test]
fn add_then_sub_gives_back_the_left_operand() {
    let a = f64_list(&[1.5, -2.25, 1e6, 0.0]);
    let b = f64_list(&[0.5, 4.0, -3.0, 7.125]);
    let sum = a.binary(BinaryOp::Add, &HostValue::Tensor(b.clone())).unwrap();
    let back = sum.binary(BinaryOp::Sub, &HostValue::Tensor(b)).unwrap();
    let got = back.as_tensor().to_vec1::<f64>().unwrap();
    let want = a.as_tensor().to_vec1::<f64>().unwrap();
    for (g, w) in got.iter().zip(want.iter()) {
        assert!((g - w).abs() <= 1e-9 * w.abs().max(1.0));
    }
}

#[test]
fn dtype_names_parse_and_print_back() {
    for name in ALL_NAMES {
        let tag = DtypeTag::parse(name).unwrap();
        assert_eq!(tag.name(), name);
    }
    for name in ["", "i64", "F32", "f32 ", "float", "f8e4m3"] {
        match DtypeTag::parse(name) {
            Err(BindingError::InvalidDtype { name: n }) => assert_eq!(n, name),
            other => panic!("{name} parsed as {other:?}"),
        }
    }
}

#[test]
fn registry_lists_each_tag_once() {
    let names: Vec<&str> = DtypeTag::all().into_iter().map(|t| t.name()).collect();
    assert_eq!(names, ALL_NAMES.to_vec());
    assert_eq!(DtypeTag::default(), DtypeTag::F64);
}

#[test]
fn registry_matches_backend_dtypes() {
    assert_eq!(DtypeTag::F32.to_backend(), DType::F32);
    assert_eq!(DtypeTag::BF16.to_backend(), DType::BF16);
    assert_eq!(DtypeTag::from_backend(DType::U8), Some(DtypeTag::U8));
    assert_eq!(DtypeTag::from_backend(DType::I64), None);
    for tag in DtypeTag::all() {
        assert_eq!(DtypeTag::from_backend(tag.to_backend()), Some(tag));
    }
}

#[test]
fn scalar_operands_keep_the_dtype() {
    let t = handle(Tensor::new(&[1.0f32, 2.0], &Device::Cpu).unwrap());
    let by_int = t.binary(BinaryOp::Add, &HostValue::Integer(3)).unwrap();
    let by_num = t.binary(BinaryOp::Add, &HostValue::Number(f64_scalar(3.0))).unwrap();
    for r in [&by_int, &by_num] {
        assert_eq!(r.dtype(), DtypeTag::F32);
        assert_eq!(r.shape(), vec![2]);
        assert_eq!(r.as_tensor().to_vec1::<f32>().unwrap(), vec![4.0, 5.0]);
    }
    let bytes = ones(vec![2], DtypeArg::Tag(DtypeTag::U8)).unwrap();
    let scaled = bytes.binary(BinaryOp::Mul, &HostValue::Integer(7)).unwrap();
    assert_eq!(scaled.dtype(), DtypeTag::U8);
    assert_eq!(scaled.as_tensor().to_vec1::<u8>().unwrap(), vec![7, 7]);
}

#[test]
fn every_operator_applies_its_operation() {
    let t = f64_list(&[6.0, 9.0]);
    let two = HostValue::Integer(2);
    let get = |op| t.binary(op, &two).unwrap().as_tensor().to_vec1::<f64>().unwrap();
    assert_eq!(get(BinaryOp::Add), vec![8.0, 11.0]);
    assert_eq!(get(BinaryOp::Sub), vec![4.0, 7.0]);
    assert_eq!(get(BinaryOp::Mul), vec![12.0, 18.0]);
    assert_eq!(get(BinaryOp::Div), vec![3.0, 4.5]);
    let half = t.binary(BinaryOp::Div, &HostValue::Number(f64_scalar(0.5))).unwrap();
    assert_eq!(half.as_tensor().to_vec1::<f64>().unwrap(), vec![12.0, 18.0]);
}

#[test]
fn other_operands_fail_without_aborting() {
    let t = f64_list(&[1.0]);
    assert!(matches!(t.binary(BinaryOp::Add, &HostValue::Other), Err(BindingError::InvariantViolation)));
    let seq = HostValue::Sequence(f64_list(&[1.0]));
    assert!(matches!(t.binary(BinaryOp::Sub, &seq), Err(BindingError::InvariantViolation)));
}

#[test]
fn tensors_of_other_shapes_are_refused() {
    let a = f64_list(&[1.0, 2.0]);
    let b = f64_list(&[1.0, 2.0, 3.0]);
    assert!(is_backend(&a.binary(BinaryOp::Add, &HostValue::Tensor(b))));
}

#[test]
fn reshape_checks_the_element_count() {
    let t = f32_matrix(2, 3);
    assert!(is_backend(&t.reshape(vec![4, 2])));
    assert!(matches!(t.reshape(vec![usize::MAX, 3]), Err(BindingError::Shape)));
    let r = t.reshape(vec![3, 1, 2]).unwrap();
    assert_eq!(r.shape(), vec![3, 1, 2]);
    assert_eq!(r.dtype(), DtypeTag::F32);
    let flat_before = t.as_tensor().flatten_all().unwrap().to_vec1::<f32>().unwrap();
    let flat_after = r.as_tensor().flatten_all().unwrap().to_vec1::<f32>().unwrap();
    assert_eq!(flat_before, flat_after);
    assert_eq!(t.shape(), vec![2, 3]);
}

#[test]
fn sum_all_reduces_to_a_scalar() {
    let t = ones(vec![2, 3], DtypeArg::Name("f32".to_string())).unwrap();
    let s = t.sum_all().unwrap();
    assert_eq!(s.shape(), Vec::<usize>::new());
    assert_eq!(s.rank(), 0);
    assert_eq!(s.dtype(), DtypeTag::F32);
    assert_eq!(s.as_tensor().to_scalar::<f32>().unwrap(), 6.0);
}

#[test]
fn constructor_sorts_host_values() {
    let n = new_tensor(HostValue::Integer(u32::MAX as i64)).unwrap();
    assert_eq!(n.dtype(), DtypeTag::U32);
    assert_eq!(n.shape(), Vec::<usize>::new());
    assert_eq!(n.as_tensor().to_scalar::<u32>().unwrap(), u32::MAX);
    let zero = new_tensor(HostValue::Integer(0)).unwrap();
    assert_eq!(zero.as_tensor().to_scalar::<u32>().unwrap(), 0);
    for out_of_range in [-1i64, u32::MAX as i64 + 1, i64::MIN, i64::MAX] {
        assert!(matches!(
            new_tensor(HostValue::Integer(out_of_range)),
            Err(BindingError::TypeConversion)
        ));
    }
    let x = new_tensor(HostValue::Number(f64_scalar(2.5))).unwrap();
    assert_eq!(x.as_tensor().to_scalar::<f64>().unwrap(), 2.5);
    let v = new_tensor(HostValue::Sequence(f64_list(&[1.0, 2.0]))).unwrap();
    assert_eq!(v.shape(), vec![2]);
    assert!(matches!(new_tensor(HostValue::Other), Err(BindingError::TypeConversion)));
}

#[test]
fn dtype_arguments_resolve() {
    assert_eq!(coerce_dtype(&DtypeArg::Nil).unwrap(), DtypeTag::F64);
    assert_eq!(coerce_dtype(&DtypeArg::Tag(DtypeTag::BF16)).unwrap(), DtypeTag::BF16);
    assert_eq!(coerce_dtype(&DtypeArg::Name("u32".to_string())).unwrap(), DtypeTag::U32);
    assert!(matches!(coerce_dtype(&DtypeArg::Other), Err(BindingError::TypeConversion)));
    match coerce_dtype(&DtypeArg::Name("half".to_string())) {
        Err(BindingError::InvalidDtype { name }) => assert_eq!(name, "half"),
        other => panic!("{other:?}"),
    }
}

#[test]
fn outside_tensors_of_unexposed_dtypes_are_refused() {
    let t = Tensor::new(&[1i64, 2], &Device::Cpu).unwrap();
    assert!(matches!(TensorHandle::from_tensor(t), Err(BindingError::TypeConversion)));
}

#[test]
fn backend_errors_keep_their_description() {
    let a = Tensor::new(&[1.0f32, 2.0], &Device::Cpu).unwrap();
    let b = Tensor::new(&[1.0f32, 2.0, 3.0], &Device::Cpu).unwrap();
    let err = a.add(&b).unwrap_err();
    match wrap_err(err) {
        BindingError::Backend { details } => assert!(details.contains("add"), "{details}"),
        other => panic!("{other:?}"),
    }
}

#[test]
fn element_counts_are_checked() {
    assert_eq!(checked_shape_size(&vec![2, 3, 4]), Some(24));
    assert_eq!(checked_shape_size(&vec![]), Some(1));
    assert_eq!(checked_shape_size(&vec![5, 0]), Some(0));
    assert_eq!(checked_shape_size(&vec![usize::MAX, 2]), None);
    assert_eq!(checked_shape_size(&vec![1 << 40, 1 << 40, 0]), None);
}

fn u8_list(values: &[u8]) -> TensorHandle {
    handle(Tensor::new(values, &Device::Cpu).unwrap())
}

#[test]
fn integer_arithmetic_saturates_instead_of_aborting() {
    let t = u8_list(&[200, 7, 0]);
    let add = t.binary(BinaryOp::Add, &HostValue::Integer(100)).unwrap();
    assert_eq!(add.dtype(), DtypeTag::U8);
    assert_eq!(add.as_tensor().to_vec1::<u8>().unwrap(), vec![255, 107, 100]);
    let sub = t.binary(BinaryOp::Sub, &HostValue::Integer(1)).unwrap();
    assert_eq!(sub.as_tensor().to_vec1::<u8>().unwrap(), vec![199, 6, 0]);
    let mul = t.binary(BinaryOp::Mul, &HostValue::Number(f64_scalar(2.0))).unwrap();
    assert_eq!(mul.as_tensor().to_vec1::<u8>().unwrap(), vec![255, 14, 0]);
    let div = t.binary(BinaryOp::Div, &HostValue::Integer(2)).unwrap();
    assert_eq!(div.as_tensor().to_vec1::<u8>().unwrap(), vec![100, 3, 0]);
    let by_zero = t.binary(BinaryOp::Div, &HostValue::Integer(0)).unwrap();
    assert_eq!(by_zero.as_tensor().to_vec1::<u8>().unwrap(), vec![255, 255, 0]);
    let zeros_u8 = zeros(vec![1], DtypeArg::Tag(DtypeTag::U8)).unwrap();
    let below = zeros_u8.binary(BinaryOp::Sub, &HostValue::Integer(1)).unwrap();
    assert_eq!(below.as_tensor().to_vec1::<u8>().unwrap(), vec![0]);
}

#[test]
fn integer_tensor_operands_compute_exactly_in_range() {
    let a = new_tensor(HostValue::Integer(7)).unwrap();
    let b = new_tensor(HostValue::Integer(2)).unwrap();
    let q = a.binary(BinaryOp::Div, &HostValue::Tensor(b.clone())).unwrap();
    assert_eq!(q.dtype(), DtypeTag::U32);
    assert_eq!(q.as_tensor().to_scalar::<u32>().unwrap(), 3);
    let d = b.binary(BinaryOp::Sub, &HostValue::Tensor(a)).unwrap();
    assert_eq!(d.as_tensor().to_scalar::<u32>().unwrap(), 0);
}

#[test]
fn integer_sums_saturate() {
    let t = ones(vec![300], DtypeArg::Tag(DtypeTag::U8)).unwrap();
    let s = t.sum_all().unwrap();
    assert_eq!(s.dtype(), DtypeTag::U8);
    assert_eq!(s.shape(), Vec::<usize>::new());
    assert_eq!(s.as_tensor().to_scalar::<u8>().unwrap(), 255);
    let small = u8_list(&[1, 2, 3]).sum_all().unwrap();
    assert_eq!(small.as_tensor().to_scalar::<u8>().unwrap(), 6);
}

#[test]
fn operands_of_another_dtype_are_refused() {
    let a = f64_list(&[1.0, 2.0]);
    let b = a.to(DtypeTag::F32).unwrap();
    assert!(is_backend(&a.binary(BinaryOp::Add, &HostValue::Tensor(b.clone()))));
    let c = a.to(DtypeTag::U8).unwrap();
    assert!(is_backend(&c.binary(BinaryOp::Mul, &HostValue::Tensor(b))));
}

#[test]
fn matmul_accepts_strided_and_batched_operands() {
    let a = f32_matrix(3, 2);
    let strided = handle(a.as_tensor().t().unwrap());
    assert_eq!(strided.shape(), vec![2, 3]);
    let b = f32_matrix(3, 4);
    let c = strided.matmul(&b).unwrap();
    assert_eq!(c.shape(), vec![2, 4]);
    // column 0 of a is [0,2,4]; column 0 of b is [0,4,8]
    assert_eq!(c.as_tensor().to_vec2::<f32>().unwrap()[0][0], 40.0);
    let x = ones(vec![5, 2, 3], DtypeArg::Name("f64".to_string())).unwrap();
    let y = ones(vec![5, 3, 4], DtypeArg::Nil).unwrap();
    let z = x.matmul(&y).unwrap();
    assert_eq!(z.shape(), vec![5, 2, 4]);
    assert_eq!(z.dtype(), DtypeTag::F64);
}

#[test]
fn matmul_refuses_dtypes_without_a_kernel() {
    let a = ones(vec![2, 2], DtypeArg::Tag(DtypeTag::U8)).unwrap();
    assert!(is_backend(&a.matmul(&a)));
    let h = ones(vec![2, 2], DtypeArg::Tag(DtypeTag::F16)).unwrap();
    assert_eq!(h.matmul(&h).unwrap().shape(), vec![2, 2]);
}

#[test]
fn empty_shapes_with_oversized_inner_runs_are_refused() {
    assert_eq!(checked_shape_size(&vec![0, usize::MAX, 2]), None);
    assert_eq!(checked_shape_size(&vec![0, 1 << 62, 8]), None);
    assert_eq!(checked_shape_size(&vec![0, 1 << 20, 8]), Some(0));
    assert!(matches!(
        zeros(vec![0, usize::MAX, 2], DtypeArg::Nil),
        Err(BindingError::Shape)
    ));
    let empty = zeros(vec![0], DtypeArg::Nil).unwrap();
    assert!(matches!(empty.reshape(vec![0, 1 << 62, 8]), Err(BindingError::Shape)));
    let reshaped = empty.reshape(vec![0, 1 << 20, 8]).unwrap();
    assert_eq!(reshaped.shape(), vec![0, 1 << 20, 8]);
    assert_eq!(reshaped.sum_all().unwrap().as_tensor().to_scalar::<f64>().unwrap(), 0.0);
}
