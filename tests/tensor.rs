use model_runner::rules::{plan_scalar, plan_tensor, Fill, OpKind, Operand, Step};
use model_runner::shape::{element_count, same_shape};
use model_runner::tensor::{ConcreteTensor, Tensor, VariableStore};
use model_runner::TensorError;

fn buffer(data: Vec<f32>, shape: Vec<usize>) -> Tensor<f32> {
    Tensor::from(ConcreteTensor::new(data, shape).unwrap())
}

fn concrete<T: std::fmt::Debug>(t: Tensor<T>) -> ConcreteTensor<T> {
    match t {
        Tensor::Concrete(c) => c,
        other => panic!("expected a concrete buffer, got {:?}", other),
    }
}

#[test]
fn tensor_arithmetic() {
    let tensor_a = Tensor::from(ConcreteTensor::constant(2.0f32, vec![2, 2]));
    let tensor_b = Tensor::from(ConcreteTensor::constant(3.0f32, vec![2, 2]));

    let result = tensor_a.clone().add(tensor_b.clone()).unwrap();
    assert_eq!(result.shape(), &[2, 2]);
    assert!(matches!(result, Tensor::Concrete(tensor) if tensor.all_equal_to(5.0)));

    let result = tensor_a.clone().add_scalar(3.0);
    assert_eq!(result.shape(), &[2, 2]);
    assert!(matches!(result, Tensor::Concrete(tensor) if tensor.all_equal_to(5.0)));

    let result = tensor_a.clone().sub(tensor_b.clone()).unwrap();
    assert_eq!(result.shape(), &[2, 2]);
    assert!(matches!(result, Tensor::Concrete(tensor) if tensor.all_equal_to(-1.0)));

    let result = tensor_a.clone().sub_scalar(3.0);
    assert_eq!(result.shape(), &[2, 2]);
    assert!(matches!(result, Tensor::Concrete(tensor) if tensor.all_equal_to(-1.0)));

    let result = tensor_a.clone().mul(tensor_b.clone()).unwrap();
    assert_eq!(result.shape(), &[2, 2]);
    assert!(matches!(result, Tensor::Concrete(tensor) if tensor.all_equal_to(6.0)));

    let result = tensor_a.clone().mul_scalar(3.0);
    assert_eq!(result.shape(), &[2, 2]);
    assert!(matches!(result, Tensor::Concrete(tensor) if tensor.all_equal_to(6.0)));

    let result = tensor_a.clone().div(tensor_b.clone()).unwrap();
    assert_eq!(result.shape(), &[2, 2]);
    assert!(matches!(result, Tensor::Concrete(tensor) if tensor.all_equal_to(2.0/3.0)));

    let result = tensor_a.clone().div_scalar(3.0).unwrap();
    assert_eq!(result.shape(), &[2, 2]);
    assert!(matches!(result, Tensor::Concrete(tensor) if tensor.all_equal_to(2.0/3.0)));
}

#[test]
fn sum_of_buffers_is_elementwise() {
    let a = buffer(vec![1., 2., 3., 4., 5., 6.], vec![2, 3]);
    let b = buffer(vec![7., 8., 9., 10., 11., 12.], vec![2, 3]);
    let c = concrete(a.add(b).unwrap());
    assert_eq!(c.shape(), &[2, 3]);
    assert_eq!(c.data(), &[8., 10., 12., 14., 16., 18.]);
}

#[test]
fn examples_from_constants() {
    let two = Tensor::from(ConcreteTensor::constant(2.0f32, vec![2, 2]));
    let three = Tensor::from(ConcreteTensor::constant(3.0f32, vec![2, 2]));
    let c = concrete(two.clone().add(three).unwrap());
    assert_eq!(c.shape(), &[2, 2]);
    assert_eq!(c.data(), &[5.0, 5.0, 5.0, 5.0]);

    let c = concrete(two.clone().mul_scalar(0.0));
    assert_eq!(c.shape(), &[2, 2]);
    assert_eq!(c.data(), &[0.0, 0.0, 0.0, 0.0]);

    let c = concrete(two.div_scalar(-1.0).unwrap());
    assert_eq!(c.data(), &[-2.0, -2.0, -2.0, -2.0]);
}

#[test]
fn identities_on_a_variable_return_it() {
    let mut store = VariableStore::new();
    let (x, id, _) = Tensor::new_variable(&mut store, ConcreteTensor::constant(4.0f32, vec![3]));
    let zeros = Tensor::from(ConcreteTensor::constant(0.0f32, vec![3]));
    let ones = Tensor::from(ConcreteTensor::constant(1.0f32, vec![3]));
    assert!(matches!(x.clone().add_scalar(0.0), Tensor::Variable(i, _, _) if i == id));
    assert!(matches!(x.clone().sub_scalar(0.0), Tensor::Variable(i, _, _) if i == id));
    assert!(matches!(x.clone().mul_scalar(1.0), Tensor::Variable(i, _, _) if i == id));
    assert!(matches!(x.clone().div_scalar(1.0), Ok(Tensor::Variable(i, _, _)) if i == id));
    assert!(matches!(x.clone().add(zeros.clone()), Ok(Tensor::Variable(i, _, _)) if i == id));
    assert!(matches!(zeros.clone().add(x.clone()), Ok(Tensor::Variable(i, _, _)) if i == id));
    assert!(matches!(x.clone().sub(zeros.clone()), Ok(Tensor::Variable(i, _, _)) if i == id));
    assert!(matches!(x.clone().mul(ones.clone()), Ok(Tensor::Variable(i, _, _)) if i == id));
    assert!(matches!(x.clone().div(ones), Ok(Tensor::Variable(i, _, _)) if i == id));
    // 0 - x and x / -1 are the negation of x: a deferred multiplication by -1.
    match zeros.sub(x.clone()).unwrap() {
        Tensor::MultiplyScalar(inner, s) => {
            assert_eq!(s, -1.0);
            assert!(matches!(*inner, Tensor::Variable(i, _, _) if i == id));
        }
        other => panic!("unexpected {:?}", other),
    }
    assert!(matches!(x.div_scalar(-1.0), Ok(Tensor::MultiplyScalar(_, s)) if s == -1.0));
}

#[test]
fn identities_on_a_buffer_keep_its_values() {
    let x = buffer(vec![1.5, -2.0, 7.0], vec![3]);
    assert_eq!(concrete(x.clone().add_scalar(0.0)).data(), &[1.5, -2.0, 7.0]);
    assert_eq!(concrete(x.clone().mul_scalar(1.0)).data(), &[1.5, -2.0, 7.0]);
    assert_eq!(concrete(x.clone().neg()).data(), &[-1.5, 2.0, -7.0]);
    let zeros = Tensor::from(ConcreteTensor::constant(0.0f32, vec![3]));
    assert_eq!(concrete(zeros.sub(x).unwrap()).data(), &[-1.5, 2.0, -7.0]);
}

#[test]
fn zero_absorbs_a_variable() {
    let mut store = VariableStore::new();
    let (x, _, _) = Tensor::new_variable(&mut store, ConcreteTensor::constant(9.0f32, vec![2, 3]));
    let zeros = Tensor::from(ConcreteTensor::constant(0.0f32, vec![2, 3]));
    for r in [
        x.clone().mul_scalar(0.0),
        x.clone().mul(zeros.clone()).unwrap(),
        zeros.mul(x).unwrap(),
    ] {
        let c = concrete(r);
        assert_eq!(c.shape(), &[2, 3]);
        assert!(c.all_equal_to(0.0));
        assert_eq!(c.len(), 6);
    }
}

#[test]
fn division_by_zero_fails() {
    let x = buffer(vec![1., 2.], vec![2]);
    let zeros = Tensor::from(ConcreteTensor::constant(0.0f32, vec![2]));
    assert!(matches!(x.clone().div_scalar(0.0), Err(TensorError::DivisionByZero)));
    assert!(matches!(x.div(zeros.clone()), Err(TensorError::DivisionByZero)));
    assert!(matches!(zeros.clone().div(zeros.clone()), Err(TensorError::DivisionByZero)));
    assert!(matches!(zeros.div_scalar(0.0), Err(TensorError::DivisionByZero)));
    let mut store = VariableStore::new();
    let (v, _, _) = Tensor::new_variable(&mut store, ConcreteTensor::constant(1.0f32, vec![2]));
    let zeros = Tensor::from(ConcreteTensor::constant(0.0f32, vec![2]));
    assert!(matches!(v.div(zeros), Err(TensorError::DivisionByZero)));
}

#[test]
fn zero_dividend_is_returned() {
    let zeros = Tensor::from(ConcreteTensor::constant(0.0f32, vec![2]));
    let d = buffer(vec![4., 5.], vec![2]);
    assert_eq!(concrete(zeros.div(d).unwrap()).data(), &[0.0, 0.0]);
}

#[test]
fn shape_mismatch_is_reported() {
    assert!(matches!(
        ConcreteTensor::new(vec![1.0f32, 2.0, 3.0], vec![2, 2]),
        Err(TensorError::ShapeMismatch)
    ));
    assert!(matches!(
        ConcreteTensor::new(vec![1.0f32], vec![usize::MAX, 2]),
        Err(TensorError::ShapeMismatch)
    ));
    let a = buffer(vec![1., 2., 3., 4.], vec![2, 2]);
    let b = buffer(vec![1., 2., 3., 4.], vec![4]);
    assert!(matches!(a.clone().add(b.clone()), Err(TensorError::ShapeMismatch)));
    assert!(matches!(a.clone().sub(b.clone()), Err(TensorError::ShapeMismatch)));
    assert!(matches!(a.clone().mul(b.clone()), Err(TensorError::ShapeMismatch)));
    // The shapes are compared before the divisor is looked at.
    let z = Tensor::from(ConcreteTensor::constant(0.0f32, vec![4]));
    assert!(matches!(a.div(z), Err(TensorError::ShapeMismatch)));
}

#[test]
fn empty_buffers() {
    let e = ConcreteTensor::<f32>::new(vec![], vec![0, 3]).unwrap();
    assert_eq!(e.len(), 0);
    assert!(e.all_equal_to(0.0) && e.all_equal_to(1.0));
    let scalar = ConcreteTensor::new(vec![7.0f32], vec![]).unwrap();
    assert_eq!(scalar.len(), 1);
}

#[test]
fn reshape_round_trip() {
    let x = buffer(vec![1., 2., 3., 4., 5., 6.], vec![2, 3]);
    let y = x.reshape(vec![3, 2]).unwrap();
    assert_eq!(y.shape(), &[3, 2]);
    let z = concrete(y.reshape(vec![2, 3]).unwrap());
    assert_eq!(z.shape(), &[2, 3]);
    assert_eq!(z.data(), &[1., 2., 3., 4., 5., 6.]);
    let x = buffer(vec![1., 2.], vec![2]);
    assert!(matches!(x.reshape(vec![3]), Err(TensorError::ShapeMismatch)));
}

#[test]
fn reshape_of_a_variable_is_deferred() {
    let mut store = VariableStore::new();
    let (v, _, _) = Tensor::new_variable(&mut store, ConcreteTensor::constant(1.0f32, vec![2, 2]));
    let r = v.reshape(vec![4]).unwrap();
    assert_eq!(r.shape(), &[4]);
    assert!(matches!(r, Tensor::Reshape(_, _)));
}

#[test]
fn variables_share_their_value() {
    let mut store = VariableStore::new();
    let (node, id, handle) = Tensor::new_variable(&mut store, ConcreteTensor::constant(1.0f32, vec![2]));
    let (other, id2, _) = Tensor::new_variable(&mut store, ConcreteTensor::constant(1.0f32, vec![2]));
    assert_ne!(id, id2);
    let copy = node.clone();
    store.set(handle, ConcreteTensor::new(vec![8.0, 9.0], vec![2]).unwrap()).unwrap();
    assert_eq!(node.variable_value(&store).unwrap().data(), &[8.0, 9.0]);
    assert_eq!(copy.variable_value(&store).unwrap().data(), &[8.0, 9.0]);
    assert_eq!(other.variable_value(&store).unwrap().data(), &[1.0, 1.0]);
    assert_eq!(store.get(handle).data(), &[8.0, 9.0]);
    assert!(matches!(
        store.set(handle, ConcreteTensor::constant(0.0f32, vec![3])),
        Err(TensorError::ShapeMismatch)
    ));
}

#[test]
fn operations_on_variables_are_deferred() {
    let mut store = VariableStore::new();
    let (v, _, _) = Tensor::new_variable(&mut store, ConcreteTensor::constant(0.0f32, vec![2, 3]));
    let a = buffer(vec![1., 2., 3., 4., 5., 6.], vec![2, 3]);
    assert!(matches!(v.clone().add(a.clone()), Ok(Tensor::AddTensor(_, _))));
    assert!(matches!(v.clone().sub(a.clone()), Ok(Tensor::SubtractTensor(_, _))));
    assert!(matches!(v.clone().mul(a.clone()), Ok(Tensor::MultiplyTensor(_, _))));
    assert!(matches!(v.clone().div(a.clone()), Ok(Tensor::DivideTensor(_, _))));
    assert!(matches!(v.clone().add_scalar(2.0), Tensor::AddScalar(_, _)));
    assert!(matches!(v.clone().div_scalar(2.0), Ok(Tensor::DivideScalar(_, _))));
    let tree = v.add(a).unwrap();
    assert_eq!(tree.shape(), &[2, 3]);
}

#[test]
fn element_counts() {
    assert_eq!(element_count(&[2, 3, 4]), Some(24));
    assert_eq!(element_count(&[]), Some(1));
    assert_eq!(element_count(&[usize::MAX, 2]), None);
    assert_eq!(element_count(&[usize::MAX, usize::MAX, 0]), Some(0));
    assert!(same_shape(&[2, 3], &[2, 3]));
    assert!(!same_shape(&[2, 3], &[3, 2]));
    assert!(!same_shape(&[6], &[2, 3]));
}

#[test]
fn simplification_table() {
    let zero = Fill { zero: true, one: false, minus_one: false };
    let one = Fill { zero: false, one: true, minus_one: false };
    let other = Fill { zero: false, one: false, minus_one: false };
    let z = Operand::Known(zero);
    let k = Operand::Known(other);
    let u = Operand::Unknown;
    assert_eq!(plan_tensor(OpKind::Add, z, u), Ok(Step::Right));
    assert_eq!(plan_tensor(OpKind::Add, k, k), Ok(Step::Compute));
    assert_eq!(plan_tensor(OpKind::Subtract, z, k), Ok(Step::NegateRight));
    assert_eq!(plan_tensor(OpKind::Multiply, u, z), Ok(Step::Zeros));
    assert_eq!(plan_tensor(OpKind::Multiply, Operand::Known(one), z), Ok(Step::Right));
    assert_eq!(plan_tensor(OpKind::Divide, z, z), Err(TensorError::DivisionByZero));
    assert_eq!(plan_tensor(OpKind::Divide, z, k), Ok(Step::Left));
    assert_eq!(plan_tensor(OpKind::Divide, u, k), Ok(Step::Defer));
    assert_eq!(plan_scalar(OpKind::Divide, u, zero), Err(TensorError::DivisionByZero));
    assert_eq!(plan_scalar(OpKind::Multiply, u, zero), Ok(Step::Zeros));
    assert_eq!(plan_scalar(OpKind::Subtract, k, other), Ok(Step::Compute));
}

#[test]
fn integer_elements() {
    let a = Tensor::from(ConcreteTensor::new(vec![2i64, 5, -7], vec![3]).unwrap());
    let b = Tensor::from(ConcreteTensor::new(vec![3i64, 1, 2], vec![3]).unwrap());
    assert_eq!(concrete(a.clone().add_scalar(3)).data(), &[5, 8, -4]);
    assert_eq!(concrete(a.clone().mul(b.clone()).unwrap()).data(), &[6, 5, -14]);
    assert_eq!(concrete(a.clone().div(b).unwrap()).data(), &[0, 5, -3]);
    assert_eq!(concrete(a.clone().neg()).data(), &[-2, -5, 7]);
    assert!(matches!(a.div_scalar(0), Err(TensorError::DivisionByZero)));
}
