use vecdb::{
    build_binary_expression, Array, ArrayImpl, BoolArray, CmpOp, ExprKind, I32Array, I64Array,
    StringArray,
};

fn bools(result: &ArrayImpl) -> Vec<Option<bool>> {
    let array = BoolArray::try_from_any(result).unwrap();
    let mut out = Vec::new();
    for i in 0..array.len() {
        out.push(array.get(i));
    }
    out
}

#[test]
fn registry_less_than_on_integers() {
    let expr = build_binary_expression(ExprKind::Cmp(CmpOp::Lt));
    let inputs = vec![
        I32Array::from_slice(&[Some(0), Some(1), None]).into_any(),
        I32Array::from_slice(&[Some(1), Some(0), None]).into_any(),
    ];
    let result = expr.eval_expr(&inputs).unwrap();
    assert_eq!(bools(&result), vec![Some(true), Some(false), None]);
}

#[test]
fn registry_greater_or_equal_on_text() {
    let expr = build_binary_expression(ExprKind::Cmp(CmpOp::Ge));
    let inputs = vec![
        StringArray::from_slice(&[Some("0"), Some("1"), None]).into_any(),
        StringArray::from_slice(&[Some("1"), Some("0"), None]).into_any(),
    ];
    let result = expr.eval_expr(&inputs).unwrap();
    assert_eq!(bools(&result), vec![Some(false), Some(true), None]);
}

#[test]
fn registry_equality_and_inequality_on_int64() {
    let inputs = vec![
        I64Array::from_slice(&[Some(1), Some(2), None]).into_any(),
        I64Array::from_slice(&[Some(1), Some(3), Some(0)]).into_any(),
    ];
    let eq = build_binary_expression(ExprKind::Cmp(CmpOp::Eq)).eval_expr(&inputs).unwrap();
    assert_eq!(bools(&eq), vec![Some(true), Some(false), None]);
    let ne = build_binary_expression(ExprKind::Cmp(CmpOp::Ne)).eval_expr(&inputs).unwrap();
    assert_eq!(bools(&ne), vec![Some(false), Some(true), None]);
}

#[test]
fn registry_compares_booleans() {
    let inputs = vec![
        BoolArray::from_slice(&[Some(false), Some(true), Some(true)]).into_any(),
        BoolArray::from_slice(&[Some(true), Some(true), Some(false)]).into_any(),
    ];
    let gt = build_binary_expression(ExprKind::Cmp(CmpOp::Gt)).eval_expr(&inputs).unwrap();
    assert_eq!(bools(&gt), vec![Some(false), Some(false), Some(true)]);
    let le = build_binary_expression(ExprKind::Cmp(CmpOp::Le)).eval_expr(&inputs).unwrap();
    assert_eq!(bools(&le), vec![Some(true), Some(true), Some(false)]);
}

#[test]
fn registry_text_contains() {
    let expr = build_binary_expression(ExprKind::StrContains);
    let inputs = vec![
        StringArray::from_slice(&[Some("000"), Some("111"), None]).into_any(),
        StringArray::from_slice(&[Some("0"), Some("0"), None]).into_any(),
    ];
    let result = expr.eval_expr(&inputs).unwrap();
    assert_eq!(bools(&result), vec![Some(true), Some(false), None]);
}

#[test]
fn registry_comparison_of_mixed_types_fails() {
    let expr = build_binary_expression(ExprKind::Cmp(CmpOp::Lt));
    let inputs = vec![
        I32Array::from_slice(&[Some(1)]).into_any(),
        StringArray::from_slice(&[Some("1")]).into_any(),
    ];
    let err = match expr.eval_expr(&inputs) {
        Ok(_) => panic!("mixed types should fail"),
        Err(e) => e,
    };
    assert_eq!(err.expected(), "Int32");
    assert_eq!(err.actual(), "String");
}

#[test]
fn registry_contains_on_integers_fails() {
    let expr = build_binary_expression(ExprKind::StrContains);
    let inputs = vec![
        I32Array::from_slice(&[Some(1)]).into_any(),
        I32Array::from_slice(&[Some(1)]).into_any(),
    ];
    let err = match expr.eval_expr(&inputs) {
        Ok(_) => panic!("integers should fail"),
        Err(e) => e,
    };
    assert_eq!(err.expected(), "String");
    assert_eq!(err.actual(), "Int32");
}
