use lib::cpp_operators::{CppOperator, OperatorInfo};
use lib::cpp_type::CppType;

fn void_type() -> CppType {
    CppType::void()
}

#[test]
fn info_of_binary_operator() {
    assert_eq!(
        CppOperator::Addition.info(),
        OperatorInfo {
            function_name_suffix: Some("+"),
            arguments_count: 2,
            allows_variable_arguments: false,
        }
    );
    assert_eq!(CppOperator::BitwiseLeftShiftAssignment.info().function_name_suffix, Some("<<="));
}

#[test]
fn info_of_unary_and_postfix_operators() {
    assert_eq!(CppOperator::UnaryPlus.info().arguments_count, 1);
    assert_eq!(CppOperator::PrefixIncrement.info().arguments_count, 1);
    assert_eq!(CppOperator::PostfixIncrement.info().arguments_count, 2);
    assert_eq!(CppOperator::StructureDereference.info().function_name_suffix, Some("->"));
    assert_eq!(CppOperator::DeleteArray.info().function_name_suffix, Some("delete[]"));
}

#[test]
fn info_of_conversion_operator() {
    assert_eq!(
        CppOperator::Conversion(void_type()).info(),
        OperatorInfo { function_name_suffix: None, arguments_count: 1, allows_variable_arguments: false }
    );
}

#[test]
fn info_of_function_call_operator() {
    assert_eq!(
        CppOperator::FunctionCall.info(),
        OperatorInfo { function_name_suffix: Some("()"), arguments_count: 0, allows_variable_arguments: true }
    );
}

#[test]
fn c_names_of_operators() {
    assert_eq!(CppOperator::Assignment.c_name(), "assign");
    assert_eq!(CppOperator::UnaryMinus.c_name(), "neg");
    assert_eq!(CppOperator::PostfixDecrement.c_name(), "dec_postfix");
    assert_eq!(CppOperator::Subscript.c_name(), "index");
    assert_eq!(CppOperator::PointerToMember.c_name(), "ptr_to_member");
    assert_eq!(CppOperator::DeleteArray.c_name(), "delete_array");
}

#[test]
fn all_lists_every_operator_but_conversion_once() {
    let all = CppOperator::all();
    assert_eq!(all.len(), 48);
    assert_eq!(all[0], CppOperator::Assignment);
    assert_eq!(all[47], CppOperator::DeleteArray);
    for (i, a) in all.iter().enumerate() {
        assert!(!matches!(a, CppOperator::Conversion(..)));
        for b in all.iter().skip(i + 1) {
            assert_ne!(a, b);
        }
    }
}

#[test]
fn c_names_are_distinct() {
    let all = CppOperator::all();
    for (i, a) in all.iter().enumerate() {
        for b in all.iter().skip(i + 1) {
            assert_ne!(a.c_name(), b.c_name());
        }
    }
}

#[test]
fn operators_recognized_by_suffix_and_count() {
    let all = CppOperator::all();
    for (i, a) in all.iter().enumerate() {
        for b in all.iter().skip(i + 1) {
            let (ia, ib) = (a.info(), b.info());
            assert!(
                ia.function_name_suffix != ib.function_name_suffix
                    || ia.arguments_count != ib.arguments_count
            );
        }
    }
    // The same suffix with a different count is a different operator.
    assert_eq!(CppOperator::Multiplication.info().function_name_suffix, Some("*"));
    assert_eq!(CppOperator::Indirection.info().function_name_suffix, Some("*"));
    assert_ne!(
        CppOperator::Multiplication.info().arguments_count,
        CppOperator::Indirection.info().arguments_count
    );
}

