use vecdb::{
    Array, ArrayImpl, BinaryExpression, BoolArray, BoolArrayBuilder, CmpOp, ExprCmp,
    ExprStrContains, I32Array, StringArray,
};

fn check_bool_array(array: &BoolArray, expected: &[Option<bool>]) {
    assert_eq!(array.len(), expected.len());
    for (i, e) in expected.iter().enumerate() {
        assert_eq!(array.get(i), *e);
    }
}

#[test]
fn test_cmp_le() {
    let expr = BinaryExpression::<I32Array, I32Array, BoolArrayBuilder, _>::new(ExprCmp {
        op: CmpOp::Le,
    });
    let result = expr
        .eval(
            &I32Array::from_slice(&[Some(0), Some(1), None]).into_any(),
            &I32Array::from_slice(&[Some(1), Some(0), None]).into_any(),
        )
        .unwrap();
    check_bool_array(
        BoolArray::try_from_any(&result).unwrap(),
        &[Some(true), Some(false), None],
    );
}

#[test]
fn test_cmp_ge_str() {
    let expr = BinaryExpression::<StringArray, StringArray, BoolArrayBuilder, _>::new(ExprCmp {
        op: CmpOp::Ge,
    });
    let result = expr
        .eval(
            &StringArray::from_slice(&[Some("0"), Some("1"), None]).into_any(),
            &StringArray::from_slice(&[Some("1"), Some("0"), None]).into_any(),
        )
        .unwrap();
    check_bool_array(
        BoolArray::try_from_any(&result).unwrap(),
        &[Some(false), Some(true), None],
    );
}

#[test]
fn test_str_contains() {
    let expr =
        BinaryExpression::<StringArray, StringArray, BoolArrayBuilder, _>::new(ExprStrContains);
    let result = expr
        .eval(
            &StringArray::from_slice(&[Some("000"), Some("111"), None]).into_any(),
            &StringArray::from_slice(&[Some("0"), Some("0"), None]).into_any(),
        )
        .unwrap();
    check_bool_array(
        BoolArray::try_from_any(&result).unwrap(),
        &[Some(true), Some(false), None],
    );
}

#[test]
fn cmp_lt_on_integers() {
    let expr = BinaryExpression::<I32Array, I32Array, BoolArrayBuilder, _>::new(ExprCmp {
        op: CmpOp::Lt,
    });
    let result = expr
        .eval(
            &I32Array::from_slice(&[Some(0), Some(1), None, Some(5), Some(-3)]).into_any(),
            &I32Array::from_slice(&[Some(1), Some(0), None, Some(5), None]).into_any(),
        )
        .unwrap();
    check_bool_array(
        BoolArray::try_from_any(&result).unwrap(),
        &[Some(true), Some(false), None, Some(false), None],
    );
}

#[test]
fn null_in_either_input_gives_null() {
    let expr = BinaryExpression::<I32Array, I32Array, BoolArrayBuilder, _>::new(ExprCmp {
        op: CmpOp::Eq,
    });
    let result = expr
        .eval(
            &I32Array::from_slice(&[None, Some(2), None, Some(4)]).into_any(),
            &I32Array::from_slice(&[Some(1), None, None, Some(4)]).into_any(),
        )
        .unwrap();
    check_bool_array(
        BoolArray::try_from_any(&result).unwrap(),
        &[None, None, None, Some(true)],
    );
}

#[test]
fn eval_on_empty_columns() {
    let expr = BinaryExpression::<I32Array, I32Array, BoolArrayBuilder, _>::new(ExprCmp {
        op: CmpOp::Ne,
    });
    let result = expr
        .eval(&I32Array::from_slice(&[]).into_any(), &I32Array::from_slice(&[]).into_any())
        .unwrap();
    assert!(result.is_empty());
    assert_eq!(result.identifier(), "Bool");
}

#[test]
fn eval_rejects_first_input_of_wrong_type() {
    let expr = BinaryExpression::<StringArray, StringArray, BoolArrayBuilder, _>::new(ExprStrContains);
    let err = match expr.eval(
            &I32Array::from_slice(&[Some(1)]).into_any(),
            &StringArray::from_slice(&[Some("1")]).into_any(),
    ) {
        Ok(_) => panic!("narrowing should fail"),
        Err(e) => e,
    };
    assert_eq!(err.expected(), "String");
    assert_eq!(err.actual(), "Int32");
}

#[test]
fn eval_rejects_second_input_of_wrong_type() {
    let expr = BinaryExpression::<StringArray, StringArray, BoolArrayBuilder, _>::new(ExprStrContains);
    let err = match expr.eval(
            &StringArray::from_slice(&[Some("1")]).into_any(),
            &BoolArray::from_slice(&[Some(true)]).into_any(),
    ) {
        Ok(_) => panic!("narrowing should fail"),
        Err(e) => e,
    };
    assert_eq!(err.expected(), "String");
    assert_eq!(err.actual(), "Bool");
}

#[test]
fn contains_with_empty_needle_and_multibyte_text() {
    let expr =
        BinaryExpression::<StringArray, StringArray, BoolArrayBuilder, _>::new(ExprStrContains);
    let result = expr
        .eval(
            &StringArray::from_slice(&[Some("abc"), Some(""), Some("héllo"), Some("ab")]).into_any(),
            &StringArray::from_slice(&[Some(""), Some("a"), Some("éll"), Some("abc")]).into_any(),
        )
        .unwrap();
    check_bool_array(
        BoolArray::try_from_any(&result).unwrap(),
        &[Some(true), Some(false), Some(true), Some(false)],
    );
}

#[test]
fn text_order_is_lexicographic() {
    let expr = BinaryExpression::<StringArray, StringArray, BoolArrayBuilder, _>::new(ExprCmp {
        op: CmpOp::Lt,
    });
    let result = expr
        .eval(
            &StringArray::from_slice(&[Some("ab"), Some("b"), Some("abc"), Some("")]).into_any(),
            &StringArray::from_slice(&[Some("abc"), Some("abc"), Some("abc"), Some("")])
                .into_any(),
        )
        .unwrap();
    check_bool_array(
        BoolArray::try_from_any(&result).unwrap(),
        &[Some(true), Some(false), Some(false), Some(false)],
    );
}

#[test]
fn widened_result_is_a_bool_column() {
    let expr = BinaryExpression::<I32Array, I32Array, BoolArrayBuilder, _>::new(ExprCmp {
        op: CmpOp::Gt,
    });
    let result = expr
        .eval(
            &I32Array::from_slice(&[Some(3)]).into_any(),
            &I32Array::from_slice(&[Some(2)]).into_any(),
        )
        .unwrap();
    assert!(matches!(result, ArrayImpl::Bool(_)));
    assert_eq!(result.len(), 1);
}
