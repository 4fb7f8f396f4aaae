use rpn_control::control::{case_when, case_when_args_well_formed, checked_case_when, if_null, EvalError};
use rpn_control::data_type::{Real, ScalarValue, ScalarValueRef};

fn real_of(x: f64) -> Real {
    Real::from_bits(x.to_bits())
}

fn int_value(x: i64) -> ScalarValue {
    ScalarValue::Int(Some(x))
}

fn real_value(x: f64) -> ScalarValue {
    ScalarValue::Real(Some(real_of(x)))
}

fn eval_case_when_real(args: &[ScalarValue]) -> Option<Real> {
    let refs: Vec<ScalarValueRef> = args.iter().map(|v| v.as_scalar_value_ref()).collect();
    case_when::<Real>(&refs).unwrap()
}

fn eval_case_when_int(args: &[ScalarValue]) -> Option<i64> {
    let refs: Vec<ScalarValueRef> = args.iter().map(|v| v.as_scalar_value_ref()).collect();
    case_when::<i64>(&refs).unwrap()
}

#[test]
fn test_if_null() {
    let cases = vec![
        (None, None, None),
        (None, Some(1), Some(1)),
        (Some(2), None, Some(2)),
        (Some(2), Some(1), Some(2)),
    ];
    for (lhs, rhs, expected) in cases {
        let lhs: Option<i64> = lhs;
        let rhs: Option<i64> = rhs;
        let output = if_null(&lhs, &rhs).unwrap();
        assert_eq!(output, expected, "lhs={:?}, rhs={:?}", lhs, rhs);
    }
}

#[test]
fn test_case_when() {
    let cases: Vec<(Vec<ScalarValue>, Option<Real>)> = vec![
        (
            vec![int_value(1), real_value(3.0), int_value(1), real_value(5.0)],
            Some(real_of(3.0)),
        ),
        (
            vec![int_value(0), real_value(3.0), int_value(1), real_value(5.0)],
            Some(real_of(5.0)),
        ),
        (
            vec![
                ScalarValue::Int(None),
                real_value(2.0),
                int_value(1),
                real_value(6.0),
            ],
            Some(real_of(6.0)),
        ),
        (vec![real_value(7.0)], Some(real_of(7.0))),
        (vec![int_value(0), ScalarValue::Real(None)], None),
        (vec![int_value(1), ScalarValue::Real(None)], None),
        (vec![int_value(1), real_value(3.5)], Some(real_of(3.5))),
        (vec![int_value(2), real_value(3.5)], Some(real_of(3.5))),
        (
            vec![
                int_value(0),
                ScalarValue::Real(None),
                ScalarValue::Int(None),
                ScalarValue::Real(None),
                real_value(5.5),
            ],
            Some(real_of(5.5)),
        ),
    ];

    for (args, expected) in cases {
        let output = eval_case_when_real(&args);
        assert_eq!(output, expected);
    }
}

#[test]
fn case_when_zero_arguments_is_null() {
    assert_eq!(eval_case_when_real(&[]), None);
    assert_eq!(eval_case_when_int(&[]), None);
}

#[test]
fn case_when_single_argument_is_unconditional_else() {
    assert_eq!(eval_case_when_real(&[real_value(7.0)]), Some(real_of(7.0)));
    assert_eq!(eval_case_when_real(&[ScalarValue::Real(None)]), None);
    assert_eq!(eval_case_when_int(&[int_value(42)]), Some(42));
}

#[test]
fn case_when_same_scenarios_across_value_types() {
    // the same scenario table, once with integer results and once with reals
    let scenarios: Vec<(Vec<Option<i64>>, usize)> = vec![
        // (conditions of each full pair, index of the chunk that must win;
        //  a trailing else-chunk is chunk number conditions.len())
        (vec![Some(1), Some(1)], 0),
        (vec![Some(0), Some(1)], 1),
        (vec![None, Some(1)], 1),
        (vec![Some(0), None], 2),
        (vec![Some(0), Some(-3)], 1),
    ];
    for (conds, winner) in scenarios {
        let int_results: Vec<i64> = vec![10, 20];
        let real_results: Vec<f64> = vec![10.5, 20.5];

        let mut int_args: Vec<ScalarValue> = Vec::new();
        let mut real_args: Vec<ScalarValue> = Vec::new();
        for (k, c) in conds.iter().enumerate() {
            int_args.push(ScalarValue::Int(*c));
            int_args.push(int_value(int_results[k]));
            real_args.push(ScalarValue::Int(*c));
            real_args.push(real_value(real_results[k]));
        }
        int_args.push(int_value(30));
        real_args.push(real_value(30.5));

        let expected_int = if winner < 2 { int_results[winner] } else { 30 };
        let expected_real = if winner < 2 { real_results[winner] } else { 30.5 };
        assert_eq!(eval_case_when_int(&int_args), Some(expected_int));
        assert_eq!(eval_case_when_real(&real_args), Some(real_of(expected_real)));
    }
}

#[test]
fn if_null_same_behavior_across_value_types() {
    let a = real_of(2.5);
    let b = real_of(1.5);
    assert_eq!(if_null::<Real>(&None, &None).unwrap(), None);
    assert_eq!(if_null::<Real>(&None, &Some(b)).unwrap(), Some(b));
    assert_eq!(if_null::<Real>(&Some(a), &None).unwrap(), Some(a));
    assert_eq!(if_null::<Real>(&Some(a), &Some(b)).unwrap(), Some(a));

    let x: Option<Vec<u8>> = Some(vec![1, 2, 3]);
    let y: Option<Vec<u8>> = Some(vec![9]);
    assert_eq!(if_null::<Vec<u8>>(&x, &y).unwrap(), Some(vec![1, 2, 3]));
    assert_eq!(if_null::<Vec<u8>>(&None, &y).unwrap(), Some(vec![9]));
}

#[test]
fn repeated_invocation_is_identical() {
    let lhs: Option<i64> = None;
    let rhs: Option<i64> = Some(5);
    assert_eq!(if_null(&lhs, &rhs).unwrap(), if_null(&lhs, &rhs).unwrap());

    let args = vec![
        int_value(0),
        real_value(3.0),
        int_value(1),
        real_value(5.0),
    ];
    assert_eq!(eval_case_when_real(&args), eval_case_when_real(&args));
    assert_eq!(eval_case_when_real(&args), Some(real_of(5.0)));
}

#[test]
fn case_when_returns_owned_copy_of_bytes() {
    let payload: Vec<u8> = vec![7, 8, 9];
    let args = vec![
        int_value(1),
        ScalarValue::Bytes(Some(payload.clone())),
    ];
    let refs: Vec<ScalarValueRef> = args.iter().map(|v| v.as_scalar_value_ref()).collect();
    let out: Option<Vec<u8>> = case_when::<Vec<u8>>(&refs).unwrap();
    drop(refs);
    drop(args);
    assert_eq!(out, Some(payload));
}

#[test]
fn checked_case_when_rejects_mismatched_branches() {
    // a real value in a condition position is a type mismatch
    let args = vec![real_value(1.0), real_value(2.0)];
    let refs: Vec<ScalarValueRef> = args.iter().map(|v| v.as_scalar_value_ref()).collect();
    assert!(!case_when_args_well_formed::<Real>(&refs));
    assert_eq!(
        checked_case_when::<Real>(&refs),
        Err(EvalError::TypeMismatch)
    );

    // an integer value in a result position bound to a real instantiation, too
    let args = vec![int_value(1), int_value(2)];
    let refs: Vec<ScalarValueRef> = args.iter().map(|v| v.as_scalar_value_ref()).collect();
    assert_eq!(
        checked_case_when::<Real>(&refs),
        Err(EvalError::TypeMismatch)
    );
}

#[test]
fn checked_case_when_agrees_on_well_formed_arguments() {
    let args = vec![
        int_value(0),
        real_value(3.0),
        int_value(1),
        real_value(5.0),
        real_value(9.0),
    ];
    let refs: Vec<ScalarValueRef> = args.iter().map(|v| v.as_scalar_value_ref()).collect();
    assert!(case_when_args_well_formed::<Real>(&refs));
    assert_eq!(checked_case_when::<Real>(&refs), Ok(Some(real_of(5.0))));
    assert_eq!(
        checked_case_when::<Real>(&refs),
        case_when::<Real>(&refs)
    );
}

#[test]
fn real_round_trips_through_bits() {
    let r = real_of(6.25);
    assert_eq!(r.to_bits(), (6.25f64).to_bits());
    assert_eq!(f64::from_bits(r.to_bits()), 6.25);
}
