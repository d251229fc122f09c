use list_eval::assemble::{assemble, first_present_dtype};
use list_eval::column::{Frame, ListColumn, Series};
use list_eval::dispatch::{
    collect_outcomes, dispatch, dispatch_parallel, dispatch_sequential, evaluate_row, Dispatched, RowOutcome,
};
use list_eval::dtype::{DataType, Field, TimeUnit};
use list_eval::error::ListEvalError;
use list_eval::eval::{apply_transform, transform_field};
use list_eval::expr::{AggFunction, Expr, LiteralValue, Operator, Transform};
use list_eval::infer::{field_to_dtype, output_field, probe_dtype};
use list_eval::namespace::{IntoListNameSpace, ListNameSpace, ListNameSpaceExtension};
use list_eval::validate::{check_node, validate, Violation};
use std::sync::atomic::{AtomicUsize, Ordering};

fn col(name: &str) -> Expr {
    Expr::Column(name.to_string())
}

fn lit(v: i64) -> Expr {
    Expr::Literal(LiteralValue::Int64(v))
}

fn to_categorical(e: Expr) -> Expr {
    Expr::Cast { expr: Box::new(e), data_type: DataType::Categorical, strict: true }
}

fn list_of(t: DataType) -> DataType {
    DataType::List(Box::new(t))
}

fn ints(values: Vec<i64>) -> Series<i64> {
    Series::new("", DataType::Int64, values)
}

fn negate(frame: &Frame<i64>, _env: &()) -> Result<Series<i64>, String> {
    let s = frame.column(0);
    if s.values.contains(&0) {
        return Err(format!("zero in {:?}", s.values));
    }
    Ok(Series::new("", DataType::Int64, s.values.iter().map(|v| -v).collect()))
}

// ---- the validator ----

#[test]
fn the_element_alone_is_accepted() {
    assert_eq!(validate(&col("")), Ok(()));
}

#[test]
fn a_literal_is_accepted() {
    assert_eq!(validate(&lit(3)), Ok(()));
    assert_eq!(validate(&Expr::Wildcard), Ok(()));
    assert_eq!(validate(&Expr::Count), Ok(()));
    assert_eq!(validate(&Expr::Nth(-1)), Ok(()));
    assert_eq!(validate(&Expr::Columns(vec!["a".to_string()])), Ok(()));
    assert_eq!(validate(&Expr::DtypeColumn(vec![DataType::Categorical])), Ok(()));
}

#[test]
fn a_named_column_at_the_root_is_refused() {
    assert_eq!(validate(&col("a")), Err(Violation::NamedColumn));
    assert_eq!(validate(&col(" ")), Err(Violation::NamedColumn));
}

#[test]
fn a_named_column_is_found_at_any_depth() {
    let deep = Expr::Alias(
        Box::new(Expr::Sort {
            expr: Box::new(Expr::Agg {
                input: Box::new(Expr::Explode(Box::new(Expr::KeepName(Box::new(Expr::RenameAlias(Box::new(
                    Expr::Exclude(Box::new(col("hidden")), vec![]),
                ))))))),
                function: AggFunction::Sum,
            }),
            descending: false,
        }),
        "out".to_string(),
    );
    assert_eq!(validate(&deep), Err(Violation::NamedColumn));
}

#[test]
fn a_named_column_is_found_in_every_position() {
    let good = || col("");
    let bad = || col("x");
    let cases = vec![
        Expr::BinaryExpr { left: Box::new(bad()), op: Operator::Plus, right: Box::new(good()) },
        Expr::BinaryExpr { left: Box::new(good()), op: Operator::Plus, right: Box::new(bad()) },
        Expr::Take { expr: Box::new(bad()), idx: Box::new(good()) },
        Expr::Take { expr: Box::new(good()), idx: Box::new(bad()) },
        Expr::Filter { input: Box::new(bad()), by: Box::new(good()) },
        Expr::Filter { input: Box::new(good()), by: Box::new(bad()) },
        Expr::Ternary { predicate: Box::new(bad()), truthy: Box::new(good()), falsy: Box::new(good()) },
        Expr::Ternary { predicate: Box::new(good()), truthy: Box::new(bad()), falsy: Box::new(good()) },
        Expr::Ternary { predicate: Box::new(good()), truthy: Box::new(good()), falsy: Box::new(bad()) },
        Expr::Slice { input: Box::new(bad()), offset: Box::new(lit(0)), length: Box::new(lit(1)) },
        Expr::Slice { input: Box::new(good()), offset: Box::new(bad()), length: Box::new(lit(1)) },
        Expr::Slice { input: Box::new(good()), offset: Box::new(lit(0)), length: Box::new(bad()) },
        Expr::SortBy { expr: Box::new(bad()), by: vec![good()], reverse: vec![false] },
        Expr::SortBy { expr: Box::new(good()), by: vec![good(), bad(), good()], reverse: vec![false; 3] },
        Expr::Window { function: Box::new(bad()), partition_by: vec![], order_by: None },
        Expr::Window { function: Box::new(good()), partition_by: vec![good(), bad()], order_by: None },
        Expr::Window { function: Box::new(good()), partition_by: vec![], order_by: Some(Box::new(bad())) },
        Expr::Function { inputs: vec![good(), good(), bad()], function: "coalesce".to_string() },
        Expr::AnonymousFunction { inputs: vec![bad()], function: Transform::Opaque, fmt_str: "map".to_string() },
    ];
    for e in cases {
        assert_eq!(validate(&e), Err(Violation::NamedColumn), "{:?}", e);
    }
}

#[test]
fn an_expression_of_every_kind_of_node_is_accepted() {
    let e = || col("");
    let all = Expr::Function {
        inputs: vec![
            Expr::BinaryExpr { left: Box::new(e()), op: Operator::Multiply, right: Box::new(lit(2)) },
            Expr::Take { expr: Box::new(e()), idx: Box::new(lit(0)) },
            Expr::Filter { input: Box::new(e()), by: Box::new(Expr::Literal(LiteralValue::Boolean(true))) },
            Expr::Ternary { predicate: Box::new(e()), truthy: Box::new(e()), falsy: Box::new(e()) },
            Expr::Slice { input: Box::new(e()), offset: Box::new(lit(0)), length: Box::new(lit(1)) },
            Expr::SortBy { expr: Box::new(e()), by: vec![e(), e()], reverse: vec![true, false] },
            Expr::Window { function: Box::new(e()), partition_by: vec![e()], order_by: Some(Box::new(e())) },
            Expr::Cast { expr: Box::new(e()), data_type: DataType::Utf8, strict: false },
            Expr::Agg { input: Box::new(e()), function: AggFunction::Mean },
            Expr::Literal(LiteralValue::Float64Bits(1.0f64.to_bits())),
            Expr::Literal(LiteralValue::Utf8("a".to_string())),
            Expr::Literal(LiteralValue::Null),
        ],
        function: "concat_list".to_string(),
    };
    assert_eq!(validate(&all), Ok(()));
}

#[test]
fn a_cast_to_categorical_is_refused() {
    assert_eq!(validate(&to_categorical(col(""))), Err(Violation::CategoricalCast));
    assert_eq!(validate(&to_categorical(lit(1))), Err(Violation::CategoricalCast));
}

#[test]
fn a_cast_to_a_list_of_categorical_is_accepted() {
    let e = Expr::Cast { expr: Box::new(col("")), data_type: list_of(DataType::Categorical), strict: true };
    assert_eq!(validate(&e), Ok(()));
}

#[test]
fn a_node_is_judged_before_the_nodes_below_it() {
    assert_eq!(validate(&to_categorical(col("a"))), Err(Violation::CategoricalCast));
    let e = Expr::Alias(Box::new(to_categorical(col("a"))), "a".to_string());
    assert_eq!(validate(&e), Err(Violation::CategoricalCast));
}

#[test]
fn the_left_operand_is_walked_before_the_right() {
    let e = Expr::BinaryExpr { left: Box::new(col("a")), op: Operator::Eq, right: Box::new(to_categorical(lit(1))) };
    assert_eq!(validate(&e), Err(Violation::NamedColumn));
    let e = Expr::BinaryExpr { left: Box::new(to_categorical(lit(1))), op: Operator::Eq, right: Box::new(col("a")) };
    assert_eq!(validate(&e), Err(Violation::CategoricalCast));
}

#[test]
fn the_branches_of_a_ternary_are_walked_before_its_predicate() {
    let e = Expr::Ternary {
        predicate: Box::new(col("a")),
        truthy: Box::new(lit(1)),
        falsy: Box::new(to_categorical(lit(2))),
    };
    assert_eq!(validate(&e), Err(Violation::CategoricalCast));
    let e = Expr::Ternary {
        predicate: Box::new(to_categorical(lit(2))),
        truthy: Box::new(col("a")),
        falsy: Box::new(lit(1)),
    };
    assert_eq!(validate(&e), Err(Violation::NamedColumn));
    let e = Expr::Ternary {
        predicate: Box::new(lit(1)),
        truthy: Box::new(to_categorical(lit(2))),
        falsy: Box::new(col("a")),
    };
    assert_eq!(validate(&e), Err(Violation::CategoricalCast));
}

#[test]
fn the_keys_of_a_sort_are_walked_from_the_last_to_the_first() {
    let e = Expr::SortBy {
        expr: Box::new(col("")),
        by: vec![col("a"), to_categorical(lit(1))],
        reverse: vec![false, false],
    };
    assert_eq!(validate(&e), Err(Violation::CategoricalCast));
    let e = Expr::SortBy {
        expr: Box::new(col("")),
        by: vec![to_categorical(lit(1)), col("a")],
        reverse: vec![false, false],
    };
    assert_eq!(validate(&e), Err(Violation::NamedColumn));
    let e = Expr::SortBy { expr: Box::new(col("a")), by: vec![to_categorical(lit(1))], reverse: vec![false] };
    assert_eq!(validate(&e), Err(Violation::NamedColumn));
}

#[test]
fn the_inputs_of_a_function_are_walked_from_the_first_to_the_last() {
    let e = Expr::Function { inputs: vec![col("a"), to_categorical(lit(1))], function: "f".to_string() };
    assert_eq!(validate(&e), Err(Violation::NamedColumn));
    let e = Expr::Function { inputs: vec![to_categorical(lit(1)), col("a")], function: "f".to_string() };
    assert_eq!(validate(&e), Err(Violation::CategoricalCast));
    let e = Expr::Function {
        inputs: vec![
            Expr::BinaryExpr { left: Box::new(lit(1)), op: Operator::Plus, right: Box::new(col("a")) },
            to_categorical(lit(1)),
        ],
        function: "f".to_string(),
    };
    assert_eq!(validate(&e), Err(Violation::NamedColumn));
}

#[test]
fn a_window_is_walked_function_then_order_then_partitions() {
    let e = Expr::Window {
        function: Box::new(col("")),
        partition_by: vec![col("a")],
        order_by: Some(Box::new(to_categorical(lit(1)))),
    };
    assert_eq!(validate(&e), Err(Violation::CategoricalCast));
    let e = Expr::Window {
        function: Box::new(col("a")),
        partition_by: vec![to_categorical(lit(1))],
        order_by: Some(Box::new(to_categorical(lit(1)))),
    };
    assert_eq!(validate(&e), Err(Violation::NamedColumn));
    let e = Expr::Window {
        function: Box::new(col("")),
        partition_by: vec![col("a"), to_categorical(lit(1))],
        order_by: None,
    };
    assert_eq!(validate(&e), Err(Violation::NamedColumn));
}

#[test]
fn take_and_slice_are_walked_from_the_input_on() {
    let e = Expr::Take { expr: Box::new(col("a")), idx: Box::new(to_categorical(lit(1))) };
    assert_eq!(validate(&e), Err(Violation::NamedColumn));
    let e = Expr::Slice {
        input: Box::new(lit(0)),
        offset: Box::new(to_categorical(lit(1))),
        length: Box::new(col("a")),
    };
    assert_eq!(validate(&e), Err(Violation::CategoricalCast));
}

#[test]
fn the_payload_of_a_transform_is_not_walked() {
    let inner = ListNameSpace(col("")).eval(col("named"), false);
    assert_eq!(validate(&inner), Ok(()));
    let outer = ListNameSpace(col("named")).eval(col(""), false);
    assert_eq!(validate(&outer), Err(Violation::NamedColumn));
}

#[test]
fn a_long_chain_is_walked_to_its_end() {
    let mut e = col("far");
    for _ in 0..20000 {
        e = Expr::BinaryExpr { left: Box::new(lit(1)), op: Operator::Plus, right: Box::new(e) };
    }
    assert_eq!(validate(&e), Err(Violation::NamedColumn));
    // taken apart from the leaf up, so that dropping the tree does not recurse
    loop {
        match e {
            Expr::BinaryExpr { right, .. } => e = *right,
            _ => break,
        }
    }
}

#[test]
fn a_single_node_is_checked_by_itself() {
    assert_eq!(check_node(&col("")), None);
    assert_eq!(check_node(&col("a")), Some(Violation::NamedColumn));
    assert_eq!(check_node(&to_categorical(col("a"))), Some(Violation::CategoricalCast));
    assert_eq!(check_node(&Expr::Alias(Box::new(col("a")), "a".to_string())), None);
    let other_cast = Expr::Cast { expr: Box::new(col("a")), data_type: DataType::Int8, strict: true };
    assert_eq!(check_node(&other_cast), None);
}

#[test]
fn the_messages_say_what_to_change() {
    assert_eq!(Violation::CategoricalCast.message(), "Casting to 'Categorical' not allowed in 'arr.eval'");
    assert_eq!(
        Violation::NamedColumn.message(),
        "Named columns not allowed in 'arr.eval'. Consider using 'element' or 'col(\"\")'."
    );
}

// ---- types and fields ----

#[test]
fn only_a_list_has_an_inner_type() {
    assert_eq!(list_of(DataType::Int64).inner_dtype(), Some(&DataType::Int64));
    assert_eq!(list_of(list_of(DataType::Utf8)).inner_dtype(), Some(&list_of(DataType::Utf8)));
    assert_eq!(DataType::Int64.inner_dtype(), None);
    assert_eq!(DataType::Null.inner_dtype(), None);
    assert_eq!(DataType::Categorical.inner_dtype(), None);
}

#[test]
fn types_compare_by_structure() {
    assert!(DataType::Int64.same(&DataType::Int64));
    assert!(!DataType::Int64.same(&DataType::Int32));
    assert!(list_of(list_of(DataType::Boolean)).same(&list_of(list_of(DataType::Boolean))));
    assert!(!list_of(list_of(DataType::Boolean)).same(&list_of(DataType::Boolean)));
    assert!(!list_of(DataType::Null).same(&DataType::Null));
    assert!(DataType::Null.is_null());
    assert!(!DataType::Unknown.is_null());
    assert!(!list_of(DataType::Null).is_null());
}

#[test]
fn every_type_equals_its_clone() {
    let all = vec![
        DataType::Boolean,
        DataType::UInt8,
        DataType::UInt16,
        DataType::UInt32,
        DataType::UInt64,
        DataType::Int8,
        DataType::Int16,
        DataType::Int32,
        DataType::Int64,
        DataType::Float32,
        DataType::Float64,
        DataType::Utf8,
        DataType::Binary,
        DataType::Date,
        DataType::Datetime(TimeUnit::Milliseconds),
        DataType::Datetime(TimeUnit::Nanoseconds),
        DataType::Duration(TimeUnit::Milliseconds),
        DataType::Duration(TimeUnit::Microseconds),
        DataType::Time,
        list_of(list_of(DataType::Float32)),
        DataType::Null,
        DataType::Categorical,
        DataType::Unknown,
    ];
    for (i, a) in all.iter().enumerate() {
        assert_eq!(&a.clone(), a);
        for (j, b) in all.iter().enumerate() {
            assert_eq!(a.same(b), i == j);
        }
    }
}

#[test]
fn a_field_keeps_its_name_and_type() {
    let f = Field::new("a", list_of(DataType::Int8));
    assert_eq!(f.name(), "a");
    assert_eq!(f.data_type(), &list_of(DataType::Int8));
}

// ---- columns ----

#[test]
fn a_series_keeps_what_it_was_made_of() {
    let mut s = Series::new("s", DataType::Int64, vec![1i64, 2, 3]);
    assert_eq!(s.name(), "s");
    assert_eq!(s.dtype(), &DataType::Int64);
    assert_eq!(s.len(), 3);
    assert!(!s.is_empty());
    s.rename("t");
    assert_eq!(s, Series::new("t", DataType::Int64, vec![1i64, 2, 3]));
    let e: Series<i64> = Series::new_empty("e", DataType::Utf8);
    assert_eq!(e.name(), "e");
    assert_eq!(e.dtype(), &DataType::Utf8);
    assert_eq!(e.len(), 0);
    assert!(e.is_empty());
}

#[test]
fn a_list_column_takes_rows_of_its_inner_type() {
    let rows = vec![Some(ints(vec![1])), None, Some(ints(vec![]))];
    let mut c = ListColumn::new("a", DataType::Int64, rows).unwrap();
    assert_eq!(c.name(), "a");
    assert_eq!(c.dtype(), &list_of(DataType::Int64));
    assert_eq!(c.inner_dtype(), Some(&DataType::Int64));
    assert_eq!(c.len(), 3);
    assert!(!c.is_empty());
    assert_eq!(c.get(0), Some(&ints(vec![1])));
    assert_eq!(c.get(1), None);
    assert_eq!(c.get(2), Some(&ints(vec![])));
    let f = c.field();
    assert_eq!(f, Field::new("a", list_of(DataType::Int64)));
    c.rename("b");
    assert_eq!(c.name(), "b");
    assert_eq!(c.len(), 3);
    assert_eq!(c.dtype(), &list_of(DataType::Int64));
}

#[test]
fn a_list_column_refuses_a_row_of_another_type() {
    let rows = vec![None, Some(ints(vec![1])), Some(Series::new("", DataType::Int32, vec![2i64])), Some(ints(vec![]))];
    assert_eq!(ListColumn::new("a", DataType::Int64, rows), Err(2));
    let rows = vec![Some(Series::new("", list_of(DataType::Int64), vec![2i64]))];
    assert_eq!(ListColumn::new("a", DataType::Int64, rows), Err(0));
}

#[test]
fn an_empty_column_may_have_any_type() {
    let c: ListColumn<u8> = ListColumn::new_empty("n", DataType::Null);
    assert_eq!(c.name(), "n");
    assert_eq!(c.dtype(), &DataType::Null);
    assert_eq!(c.inner_dtype(), None);
    assert_eq!(c.len(), 0);
    assert!(c.is_empty());
}

#[test]
fn a_frame_of_a_row_has_that_one_column() {
    let row = ints(vec![4, 5]);
    let frame = Frame::of_row(&row);
    assert_eq!(frame.width(), 1);
    assert_eq!(frame.column(0), &row);
    let empty: Frame<i64> = Frame::new_empty();
    assert_eq!(empty.width(), 0);
}

// ---- dispatch ----

fn sample_rows() -> Vec<Option<Series<i64>>> {
    vec![Some(ints(vec![1, 2])), None, Some(ints(vec![0])), Some(ints(vec![])), Some(ints(vec![3, 0])), None]
}

fn sample_dispatched() -> Dispatched<i64, String> {
    Dispatched {
        rows: vec![Some(ints(vec![-1, -2])), None, None, Some(ints(vec![])), None, None],
        error: Some("zero in [0]".to_string()),
    }
}

#[test]
fn one_row_gives_one_outcome() {
    assert_eq!(evaluate_row(&None, &negate, &()), RowOutcome::Null);
    assert_eq!(evaluate_row(&Some(ints(vec![5])), &negate, &()), RowOutcome::Value(ints(vec![-5])));
    assert_eq!(evaluate_row(&Some(ints(vec![0])), &negate, &()), RowOutcome::Failed("zero in [0]".to_string()));
}

#[test]
fn sequential_dispatch_keeps_the_first_failure() {
    assert_eq!(dispatch_sequential(&sample_rows(), &negate, &()), sample_dispatched());
    assert_eq!(dispatch(&sample_rows(), &negate, &(), false), sample_dispatched());
}

#[test]
fn parallel_dispatch_keeps_the_order_of_the_rows() {
    assert_eq!(dispatch_parallel(&sample_rows(), &negate, &()), sample_dispatched());
    assert_eq!(dispatch(&sample_rows(), &negate, &(), true), sample_dispatched());
    let rows: Vec<Option<Series<i64>>> = (1..=1000).map(|i| Some(ints(vec![i]))).collect();
    let d: Dispatched<i64, String> = dispatch_parallel(&rows, &negate, &());
    assert_eq!(d.error, None);
    for (i, row) in d.rows.iter().enumerate() {
        assert_eq!(row, &Some(ints(vec![-(i as i64) - 1])));
    }
}

#[test]
fn every_row_is_evaluated_after_a_failure_too() {
    fn counting(frame: &Frame<i64>, calls: &AtomicUsize) -> Result<Series<i64>, String> {
        calls.fetch_add(1, Ordering::SeqCst);
        negate(frame, &())
    }
    for parallel in [false, true] {
        let calls = AtomicUsize::new(0);
        let d = dispatch(&sample_rows(), &counting, &calls, parallel);
        assert_eq!(d, sample_dispatched());
        assert_eq!(calls.load(Ordering::SeqCst), 4);
    }
}

#[test]
fn no_rows_give_no_rows() {
    let rows: Vec<Option<Series<i64>>> = vec![];
    for parallel in [false, true] {
        let d: Dispatched<i64, String> = dispatch(&rows, &negate, &(), parallel);
        assert_eq!(d, Dispatched { rows: vec![], error: None });
    }
}

#[test]
fn outcomes_fold_into_rows_and_the_first_failure() {
    let outcomes: Vec<RowOutcome<i64, &str>> = vec![
        RowOutcome::Null,
        RowOutcome::Value(ints(vec![1])),
        RowOutcome::Failed("first"),
        RowOutcome::Value(ints(vec![])),
        RowOutcome::Failed("second"),
    ];
    let d = collect_outcomes(outcomes);
    assert_eq!(d.rows, vec![None, Some(ints(vec![1])), None, Some(ints(vec![])), None]);
    assert_eq!(d.error, Some("first"));
    let none: Vec<RowOutcome<i64, &str>> = vec![];
    assert_eq!(collect_outcomes(none), Dispatched { rows: vec![], error: None });
}

// ---- assembling ----

#[test]
fn rows_are_assembled_under_the_given_name() {
    let d: Dispatched<i64, String> = Dispatched { rows: vec![None, Some(ints(vec![1])), Some(ints(vec![]))], error: None };
    let c = assemble("out", d).unwrap();
    assert_eq!(c.name(), "out");
    assert_eq!(c.dtype(), &list_of(DataType::Int64));
    assert_eq!(c.rows, vec![None, Some(ints(vec![1])), Some(ints(vec![]))]);
}

#[test]
fn a_kept_failure_replaces_the_column() {
    let d = Dispatched { rows: vec![Some(ints(vec![1])), None], error: Some("bad") };
    assert_eq!(assemble("out", d), Err(ListEvalError::Row("bad")));
}

#[test]
fn the_first_present_row_gives_the_type() {
    let rows: Vec<Option<Series<i64>>> =
        vec![None, None, Some(Series::new("", DataType::Utf8, vec![])), Some(ints(vec![]))];
    assert_eq!(first_present_dtype(&rows), DataType::Utf8);
    assert_eq!(first_present_dtype(&vec![None::<Series<i64>>, None]), DataType::Null);
    assert_eq!(first_present_dtype(&Vec::<Option<Series<i64>>>::new()), DataType::Null);
    let d: Dispatched<i64, String> = Dispatched { rows, error: None };
    assert_eq!(assemble("out", d), Err(ListEvalError::SchemaMismatch));
}

#[test]
fn no_rows_assemble_to_a_list_of_null() {
    let d: Dispatched<i64, String> = Dispatched { rows: vec![], error: None };
    let c = assemble("out", d).unwrap();
    assert_eq!(c.dtype(), &list_of(DataType::Null));
    assert!(c.is_empty());
}

// ---- the result type ----

#[test]
fn the_probe_has_the_inner_type() {
    assert_eq!(probe_dtype(&Field::new("a", list_of(DataType::Int64))), DataType::Int64);
    assert_eq!(probe_dtype(&Field::new("a", list_of(list_of(DataType::Utf8)))), list_of(DataType::Utf8));
    assert_eq!(probe_dtype(&Field::new("a", DataType::Float64)), DataType::Float64);
}

#[test]
fn the_output_field_is_a_list_of_the_trial_type() {
    let f = Field::new("a", list_of(DataType::Int64));
    let ok: Result<Series<i64>, String> = Ok(Series::new_empty("whatever", DataType::Boolean));
    assert_eq!(output_field(&f, &ok), Field::new("a", list_of(DataType::Boolean)));
    let failed: Result<Series<i64>, String> = Err("no".to_string());
    assert_eq!(output_field(&f, &failed), Field::new("a", DataType::Null));
}

#[test]
fn the_trial_runs_on_an_empty_unnamed_column_of_the_inner_type() {
    let f = Field::new("a", list_of(DataType::Date));
    let out = field_to_dtype(&f, &col(""), |frame: &Frame<i64>, expr: &Expr| -> Result<Series<u8>, String> {
        assert_eq!(frame.width(), 1);
        assert_eq!(frame.column(0).name(), "");
        assert_eq!(frame.column(0).len(), 0);
        assert_eq!(frame.column(0).dtype(), &DataType::Date);
        assert_eq!(expr, &Expr::Column(String::new()));
        Ok(Series::new_empty("", DataType::Int32))
    });
    assert_eq!(out, Field::new("a", list_of(DataType::Int32)));
}

#[test]
fn a_failed_trial_gives_the_null_type() {
    let f = Field::new("a", list_of(DataType::Date));
    let out = field_to_dtype(&f, &col(""), |_frame: &Frame<i64>, _expr: &Expr| -> Result<Series<u8>, String> {
        Err("unknown function".to_string())
    });
    assert_eq!(out, Field::new("a", DataType::Null));
}

#[test]
fn a_field_that_is_no_list_is_probed_with_its_own_type() {
    let f = Field::new("a", DataType::Utf8);
    let out = field_to_dtype(&f, &col(""), |frame: &Frame<i64>, _expr: &Expr| -> Result<Series<u8>, String> {
        Ok(Series::new_empty("", frame.column(0).dtype().clone()))
    });
    assert_eq!(out, Field::new("a", list_of(DataType::Utf8)));
}

// ---- the namespace ----

#[test]
fn eval_builds_the_transform_and_runs_nothing() {
    let ns = ListNameSpace(col("lists"));
    let e = ns.eval(Expr::BinaryExpr { left: Box::new(col("")), op: Operator::Plus, right: Box::new(lit(1)) }, true);
    let expected = Expr::AnonymousFunction {
        inputs: vec![col("lists")],
        function: Transform::ListEval {
            evaluation: Box::new(Expr::BinaryExpr {
                left: Box::new(col("")),
                op: Operator::Plus,
                right: Box::new(lit(1)),
            }),
            parallel: true,
        },
        fmt_str: "eval".to_string(),
    };
    assert_eq!(e, expected);
}

#[test]
fn a_namespace_is_its_own_namespace() {
    let ns = ListNameSpace(col("a")).into_list_name_space();
    assert_eq!(ns, ListNameSpace(col("a")));
    assert_eq!(ns.0, col("a"));
}

#[test]
fn a_transform_runs_on_the_column() {
    fn trial(frame: &Frame<i64>, _expr: &Expr) -> Result<Series<i64>, String> {
        Ok(Series::new_empty("", frame.column(0).dtype().clone()))
    }
    let node = ListNameSpace(col("lists")).eval(col(""), false);
    let transform = match &node {
        Expr::AnonymousFunction { function, .. } => function,
        _ => unreachable!(),
    };
    let column = ListColumn::new("lists", DataType::Int64, vec![Some(ints(vec![1, -2])), None]).unwrap();
    let out = apply_transform(transform, &column, trial, |_e: &Expr, _t: &DataType| Ok(negate), &());
    let expected = ListColumn::new("lists", DataType::Int64, vec![Some(ints(vec![-1, 2])), None]).unwrap();
    assert_eq!(out, Some(Ok(expected)));
    assert_eq!(transform_field(transform, &column.field(), trial), Some(Field::new("lists", list_of(DataType::Int64))));

    let opaque = Transform::Opaque;
    let out: Option<Result<ListColumn<i64>, ListEvalError<String>>> =
        apply_transform(&opaque, &column, trial, |_e: &Expr, _t: &DataType| Ok(negate), &());
    assert_eq!(out, None);
    assert_eq!(transform_field(&opaque, &column.field(), trial), None);
}

#[test]
fn a_transform_validates_its_payload_when_it_runs() {
    fn trial(frame: &Frame<i64>, _expr: &Expr) -> Result<Series<i64>, String> {
        Ok(Series::new_empty("", frame.column(0).dtype().clone()))
    }
    let node = ListNameSpace(col("lists")).eval(col("other"), true);
    let transform = match &node {
        Expr::AnonymousFunction { function, .. } => function,
        _ => unreachable!(),
    };
    let column = ListColumn::new("lists", DataType::Int64, vec![Some(ints(vec![1]))]).unwrap();
    let out: Option<Result<ListColumn<i64>, ListEvalError<String>>> =
        apply_transform(transform, &column, trial, |_e: &Expr, _t: &DataType| Ok(negate), &());
    assert_eq!(out, Some(Err(ListEvalError::Validation(Violation::NamedColumn))));
}
