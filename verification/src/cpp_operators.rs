use vstd::prelude::*;

use crate::cpp_type::CppType;

verus! {

/// A C++ operator.
#[derive(Debug, PartialEq, Eq, Clone)]
pub enum CppOperator {
    /// (type) a
    Conversion(CppType),
    /// a = b
    Assignment,
    /// a + b
    Addition,
    /// a - b
    Subtraction,
    /// +a
    UnaryPlus,
    /// -a
    UnaryMinus,
    /// a * b
    Multiplication,
    /// a / b
    Division,
    /// a % b
    Modulo,
    /// ++a
    PrefixIncrement,
    /// a++
    PostfixIncrement,
    /// --a
    PrefixDecrement,
    /// a--
    PostfixDecrement,
    /// a == b
    EqualTo,
    /// a != b
    NotEqualTo,
    /// a > b
    GreaterThan,
    /// a < b
    LessThan,
    /// a >= b
    GreaterThanOrEqualTo,
    /// a <= b
    LessThanOrEqualTo,
    /// !a
    LogicalNot,
    /// a && b
    LogicalAnd,
    /// a || b
    LogicalOr,
    /// ~a
    BitwiseNot,
    /// a & b
    BitwiseAnd,
    /// a | b
    BitwiseOr,
    /// a ^ b
    BitwiseXor,
    /// a << b
    BitwiseLeftShift,
    /// a >> b
    BitwiseRightShift,

    /// a += b
    AdditionAssignment,
    /// a -= b
    SubtractionAssignment,
    /// a *= b
    MultiplicationAssignment,
    /// a /= b
    DivisionAssignment,
    /// a %= b
    ModuloAssignment,
    /// a &= b
    BitwiseAndAssignment,
    /// a |= b
    BitwiseOrAssignment,
    /// a ^= b
    BitwiseXorAssignment,
    /// a <<= b
    BitwiseLeftShiftAssignment,
    /// a >>= b
    BitwiseRightShiftAssignment,
    /// a[b]
    Subscript,
    /// *a
    Indirection,
    /// &a
    AddressOf,
    /// a->b
    StructureDereference,
    /// a->*b
    PointerToMember,
    /// a(a1, a2)
    FunctionCall,
    /// a, b
    Comma,
    /// new type
    New,
    /// new type[n]
    NewArray,
    /// delete a
    Delete,
    /// delete[] a
    DeleteArray,
}

/// How an operator appears in C++ declarations: the text after `operator`
/// in its function name, and how many arguments it takes, counting the
/// object it is called on.
#[derive(Debug, PartialEq, Eq, Clone)]
pub struct OperatorInfo {
    pub function_name_suffix: Option<&'static str>,
    pub arguments_count: i32,
    pub allows_variable_arguments: bool,
}

/// The text after `operator` in the C++ function name of an operator;
/// conversion operators are named after their target type instead.
pub open spec fn operator_suffix(op: CppOperator) -> Option<Seq<char>> {
    match op {
        CppOperator::Conversion(..) => None,
        CppOperator::Assignment => Some("="@),
        CppOperator::Addition => Some("+"@),
        CppOperator::Subtraction => Some("-"@),
        CppOperator::UnaryPlus => Some("+"@),
        CppOperator::UnaryMinus => Some("-"@),
        CppOperator::Multiplication => Some("*"@),
        CppOperator::Division => Some("/"@),
        CppOperator::Modulo => Some("%"@),
        CppOperator::PrefixIncrement => Some("++"@),
        CppOperator::PostfixIncrement => Some("++"@),
        CppOperator::PrefixDecrement => Some("--"@),
        CppOperator::PostfixDecrement => Some("--"@),
        CppOperator::EqualTo => Some("=="@),
        CppOperator::NotEqualTo => Some("!="@),
        CppOperator::GreaterThan => Some(">"@),
        CppOperator::LessThan => Some("<"@),
        CppOperator::GreaterThanOrEqualTo => Some(">="@),
        CppOperator::LessThanOrEqualTo => Some("<="@),
        CppOperator::LogicalNot => Some("!"@),
        CppOperator::LogicalAnd => Some("&&"@),
        CppOperator::LogicalOr => Some("||"@),
        CppOperator::BitwiseNot => Some("~"@),
        CppOperator::BitwiseAnd => Some("&"@),
        CppOperator::BitwiseOr => Some("|"@),
        CppOperator::BitwiseXor => Some("^"@),
        CppOperator::BitwiseLeftShift => Some("<<"@),
        CppOperator::BitwiseRightShift => Some(">>"@),
        CppOperator::AdditionAssignment => Some("+="@),
        CppOperator::SubtractionAssignment => Some("-="@),
        CppOperator::MultiplicationAssignment => Some("*="@),
        CppOperator::DivisionAssignment => Some("/="@),
        CppOperator::ModuloAssignment => Some("%="@),
        CppOperator::BitwiseAndAssignment => Some("&="@),
        CppOperator::BitwiseOrAssignment => Some("|="@),
        CppOperator::BitwiseXorAssignment => Some("^="@),
        CppOperator::BitwiseLeftShiftAssignment => Some("<<="@),
        CppOperator::BitwiseRightShiftAssignment => Some(">>="@),
        CppOperator::Subscript => Some("[]"@),
        CppOperator::Indirection => Some("*"@),
        CppOperator::AddressOf => Some("&"@),
        CppOperator::StructureDereference => Some("->"@),
        CppOperator::PointerToMember => Some("->*"@),
        CppOperator::FunctionCall => Some("()"@),
        CppOperator::Comma => Some(","@),
        CppOperator::New => Some("new"@),
        CppOperator::NewArray => Some("new[]"@),
        CppOperator::Delete => Some("delete"@),
        CppOperator::DeleteArray => Some("delete[]"@),
    }
}

/// How many arguments an operator takes, counting the object it is called
/// on; a function call operator takes any number, given as zero.
pub open spec fn operator_arguments_count(op: CppOperator) -> i32 {
    match op {
        CppOperator::Conversion(..) => 1,
        CppOperator::Assignment => 2,
        CppOperator::Addition => 2,
        CppOperator::Subtraction => 2,
        CppOperator::UnaryPlus => 1,
        CppOperator::UnaryMinus => 1,
        CppOperator::Multiplication => 2,
        CppOperator::Division => 2,
        CppOperator::Modulo => 2,
        CppOperator::PrefixIncrement => 1,
        CppOperator::PostfixIncrement => 2,
        CppOperator::PrefixDecrement => 1,
        CppOperator::PostfixDecrement => 2,
        CppOperator::EqualTo => 2,
        CppOperator::NotEqualTo => 2,
        CppOperator::GreaterThan => 2,
        CppOperator::LessThan => 2,
        CppOperator::GreaterThanOrEqualTo => 2,
        CppOperator::LessThanOrEqualTo => 2,
        CppOperator::LogicalNot => 1,
        CppOperator::LogicalAnd => 2,
        CppOperator::LogicalOr => 2,
        CppOperator::BitwiseNot => 1,
        CppOperator::BitwiseAnd => 2,
        CppOperator::BitwiseOr => 2,
        CppOperator::BitwiseXor => 2,
        CppOperator::BitwiseLeftShift => 2,
        CppOperator::BitwiseRightShift => 2,
        CppOperator::AdditionAssignment => 2,
        CppOperator::SubtractionAssignment => 2,
        CppOperator::MultiplicationAssignment => 2,
        CppOperator::DivisionAssignment => 2,
        CppOperator::ModuloAssignment => 2,
        CppOperator::BitwiseAndAssignment => 2,
        CppOperator::BitwiseOrAssignment => 2,
        CppOperator::BitwiseXorAssignment => 2,
        CppOperator::BitwiseLeftShiftAssignment => 2,
        CppOperator::BitwiseRightShiftAssignment => 2,
        CppOperator::Subscript => 2,
        CppOperator::Indirection => 1,
        CppOperator::AddressOf => 1,
        CppOperator::StructureDereference => 1,
        CppOperator::PointerToMember => 2,
        CppOperator::FunctionCall => 0,
        CppOperator::Comma => 2,
        CppOperator::New => 2,
        CppOperator::NewArray => 2,
        CppOperator::Delete => 2,
        CppOperator::DeleteArray => 2,
    }
}

/// Only the function call operator takes a variable number of arguments.
pub open spec fn operator_allows_variable_arguments(op: CppOperator) -> bool {
    op is FunctionCall
}

/// The name under which an operator appears in C function names; conversion
/// operators have none.
pub open spec fn operator_c_name(op: CppOperator) -> Seq<char> {
    match op {
        CppOperator::Conversion(..) => Seq::empty(),
        CppOperator::Assignment => "assign"@,
        CppOperator::Addition => "add"@,
        CppOperator::Subtraction => "sub"@,
        CppOperator::UnaryPlus => "unary_plus"@,
        CppOperator::UnaryMinus => "neg"@,
        CppOperator::Multiplication => "mul"@,
        CppOperator::Division => "div"@,
        CppOperator::Modulo => "rem"@,
        CppOperator::PrefixIncrement => "inc"@,
        CppOperator::PostfixIncrement => "inc_postfix"@,
        CppOperator::PrefixDecrement => "dec"@,
        CppOperator::PostfixDecrement => "dec_postfix"@,
        CppOperator::EqualTo => "eq"@,
        CppOperator::NotEqualTo => "neq"@,
        CppOperator::GreaterThan => "gt"@,
        CppOperator::LessThan => "lt"@,
        CppOperator::GreaterThanOrEqualTo => "ge"@,
        CppOperator::LessThanOrEqualTo => "le"@,
        CppOperator::LogicalNot => "not"@,
        CppOperator::LogicalAnd => "and"@,
        CppOperator::LogicalOr => "or"@,
        CppOperator::BitwiseNot => "bit_not"@,
        CppOperator::BitwiseAnd => "bit_and"@,
        CppOperator::BitwiseOr => "bit_or"@,
        CppOperator::BitwiseXor => "bit_xor"@,
        CppOperator::BitwiseLeftShift => "shl"@,
        CppOperator::BitwiseRightShift => "shr"@,
        CppOperator::AdditionAssignment => "add_assign"@,
        CppOperator::SubtractionAssignment => "sub_assign"@,
        CppOperator::MultiplicationAssignment => "mul_assign"@,
        CppOperator::DivisionAssignment => "div_assign"@,
        CppOperator::ModuloAssignment => "rem_assign"@,
        CppOperator::BitwiseAndAssignment => "bit_and_assign"@,
        CppOperator::BitwiseOrAssignment => "bit_or_assign"@,
        CppOperator::BitwiseXorAssignment => "bit_xor_assign"@,
        CppOperator::BitwiseLeftShiftAssignment => "shl_assign"@,
        CppOperator::BitwiseRightShiftAssignment => "shr_assign"@,
        CppOperator::Subscript => "index"@,
        CppOperator::Indirection => "indirection"@,
        CppOperator::AddressOf => "address_of"@,
        CppOperator::StructureDereference => "struct_deref"@,
        CppOperator::PointerToMember => "ptr_to_member"@,
        CppOperator::FunctionCall => "call"@,
        CppOperator::Comma => "comma"@,
        CppOperator::New => "new"@,
        CppOperator::NewArray => "new_array"@,
        CppOperator::Delete => "delete"@,
        CppOperator::DeleteArray => "delete_array"@,
    }
}

/// Every operator that is recognized by its name: all but conversions.
pub open spec fn all_operators() -> Seq<CppOperator> {
    seq![
        CppOperator::Assignment,
        CppOperator::Addition,
        CppOperator::Subtraction,
        CppOperator::UnaryPlus,
        CppOperator::UnaryMinus,
        CppOperator::Multiplication,
        CppOperator::Division,
        CppOperator::Modulo,
        CppOperator::PrefixIncrement,
        CppOperator::PostfixIncrement,
        CppOperator::PrefixDecrement,
        CppOperator::PostfixDecrement,
        CppOperator::EqualTo,
        CppOperator::NotEqualTo,
        CppOperator::GreaterThan,
        CppOperator::LessThan,
        CppOperator::GreaterThanOrEqualTo,
        CppOperator::LessThanOrEqualTo,
        CppOperator::LogicalNot,
        CppOperator::LogicalAnd,
        CppOperator::LogicalOr,
        CppOperator::BitwiseNot,
        CppOperator::BitwiseAnd,
        CppOperator::BitwiseOr,
        CppOperator::BitwiseXor,
        CppOperator::BitwiseLeftShift,
        CppOperator::BitwiseRightShift,
        CppOperator::AdditionAssignment,
        CppOperator::SubtractionAssignment,
        CppOperator::MultiplicationAssignment,
        CppOperator::DivisionAssignment,
        CppOperator::ModuloAssignment,
        CppOperator::BitwiseAndAssignment,
        CppOperator::BitwiseOrAssignment,
        CppOperator::BitwiseXorAssignment,
        CppOperator::BitwiseLeftShiftAssignment,
        CppOperator::BitwiseRightShiftAssignment,
        CppOperator::Subscript,
        CppOperator::Indirection,
        CppOperator::AddressOf,
        CppOperator::StructureDereference,
        CppOperator::PointerToMember,
        CppOperator::FunctionCall,
        CppOperator::Comma,
        CppOperator::New,
        CppOperator::NewArray,
        CppOperator::Delete,
        CppOperator::DeleteArray,
    ]
}

fn operator_info(suffix: &'static str, count: i32) -> (r: OperatorInfo)
    ensures
        r.function_name_suffix == Some(suffix),
        r.arguments_count == count,
        !r.allows_variable_arguments,
{
    OperatorInfo {
        function_name_suffix: Some(suffix),
        arguments_count: count,
        allows_variable_arguments: false,
    }
}

impl CppOperator {
    /// How this operator appears in C++ declarations.
    pub fn info(&self) -> (r: OperatorInfo)
        ensures
            match r.function_name_suffix {
                Some(s) => operator_suffix(*self) == Some(s@),
                None => operator_suffix(*self) is None,
            },
            r.arguments_count == operator_arguments_count(*self),
            r.allows_variable_arguments == operator_allows_variable_arguments(*self),
    {
        match self {
            CppOperator::Conversion(..) => OperatorInfo {
                function_name_suffix: None,
                arguments_count: 1,
                allows_variable_arguments: false,
            },
            CppOperator::Assignment => operator_info("=", 2),
            CppOperator::Addition => operator_info("+", 2),
            CppOperator::Subtraction => operator_info("-", 2),
            CppOperator::UnaryPlus => operator_info("+", 1),
            CppOperator::UnaryMinus => operator_info("-", 1),
            CppOperator::Multiplication => operator_info("*", 2),
            CppOperator::Division => operator_info("/", 2),
            CppOperator::Modulo => operator_info("%", 2),
            CppOperator::PrefixIncrement => operator_info("++", 1),
            CppOperator::PostfixIncrement => operator_info("++", 2),
            CppOperator::PrefixDecrement => operator_info("--", 1),
            CppOperator::PostfixDecrement => operator_info("--", 2),
            CppOperator::EqualTo => operator_info("==", 2),
            CppOperator::NotEqualTo => operator_info("!=", 2),
            CppOperator::GreaterThan => operator_info(">", 2),
            CppOperator::LessThan => operator_info("<", 2),
            CppOperator::GreaterThanOrEqualTo => operator_info(">=", 2),
            CppOperator::LessThanOrEqualTo => operator_info("<=", 2),
            CppOperator::LogicalNot => operator_info("!", 1),
            CppOperator::LogicalAnd => operator_info("&&", 2),
            CppOperator::LogicalOr => operator_info("||", 2),
            CppOperator::BitwiseNot => operator_info("~", 1),
            CppOperator::BitwiseAnd => operator_info("&", 2),
            CppOperator::BitwiseOr => operator_info("|", 2),
            CppOperator::BitwiseXor => operator_info("^", 2),
            CppOperator::BitwiseLeftShift => operator_info("<<", 2),
            CppOperator::BitwiseRightShift => operator_info(">>", 2),
            CppOperator::AdditionAssignment => operator_info("+=", 2),
            CppOperator::SubtractionAssignment => operator_info("-=", 2),
            CppOperator::MultiplicationAssignment => operator_info("*=", 2),
            CppOperator::DivisionAssignment => operator_info("/=", 2),
            CppOperator::ModuloAssignment => operator_info("%=", 2),
            CppOperator::BitwiseAndAssignment => operator_info("&=", 2),
            CppOperator::BitwiseOrAssignment => operator_info("|=", 2),
            CppOperator::BitwiseXorAssignment => operator_info("^=", 2),
            CppOperator::BitwiseLeftShiftAssignment => operator_info("<<=", 2),
            CppOperator::BitwiseRightShiftAssignment => operator_info(">>=", 2),
            CppOperator::Subscript => operator_info("[]", 2),
            CppOperator::Indirection => operator_info("*", 1),
            CppOperator::AddressOf => operator_info("&", 1),
            CppOperator::StructureDereference => operator_info("->", 1),
            CppOperator::PointerToMember => operator_info("->*", 2),
            CppOperator::FunctionCall => OperatorInfo {
                function_name_suffix: Some("()"),
                arguments_count: 0,
                allows_variable_arguments: true,
            },
            CppOperator::Comma => operator_info(",", 2),
            CppOperator::New => operator_info("new", 2),
            CppOperator::NewArray => operator_info("new[]", 2),
            CppOperator::Delete => operator_info("delete", 2),
            CppOperator::DeleteArray => operator_info("delete[]", 2),
        }
    }

    /// The name of this operator in C function names. Conversion operators
    /// have no such name.
    pub fn c_name(&self) -> (r: &'static str)
        requires
            !(*self is Conversion),
        ensures
            r@ == operator_c_name(*self),
    {
        match self {
            CppOperator::Conversion(..) => {
                assert(false);
                ""
            },
            CppOperator::Assignment => "assign",
            CppOperator::Addition => "add",
            CppOperator::Subtraction => "sub",
            CppOperator::UnaryPlus => "unary_plus",
            CppOperator::UnaryMinus => "neg",
            CppOperator::Multiplication => "mul",
            CppOperator::Division => "div",
            CppOperator::Modulo => "rem",
            CppOperator::PrefixIncrement => "inc",
            CppOperator::PostfixIncrement => "inc_postfix",
            CppOperator::PrefixDecrement => "dec",
            CppOperator::PostfixDecrement => "dec_postfix",
            CppOperator::EqualTo => "eq",
            CppOperator::NotEqualTo => "neq",
            CppOperator::GreaterThan => "gt",
            CppOperator::LessThan => "lt",
            CppOperator::GreaterThanOrEqualTo => "ge",
            CppOperator::LessThanOrEqualTo => "le",
            CppOperator::LogicalNot => "not",
            CppOperator::LogicalAnd => "and",
            CppOperator::LogicalOr => "or",
            CppOperator::BitwiseNot => "bit_not",
            CppOperator::BitwiseAnd => "bit_and",
            CppOperator::BitwiseOr => "bit_or",
            CppOperator::BitwiseXor => "bit_xor",
            CppOperator::BitwiseLeftShift => "shl",
            CppOperator::BitwiseRightShift => "shr",
            CppOperator::AdditionAssignment => "add_assign",
            CppOperator::SubtractionAssignment => "sub_assign",
            CppOperator::MultiplicationAssignment => "mul_assign",
            CppOperator::DivisionAssignment => "div_assign",
            CppOperator::ModuloAssignment => "rem_assign",
            CppOperator::BitwiseAndAssignment => "bit_and_assign",
            CppOperator::BitwiseOrAssignment => "bit_or_assign",
            CppOperator::BitwiseXorAssignment => "bit_xor_assign",
            CppOperator::BitwiseLeftShiftAssignment => "shl_assign",
            CppOperator::BitwiseRightShiftAssignment => "shr_assign",
            CppOperator::Subscript => "index",
            CppOperator::Indirection => "indirection",
            CppOperator::AddressOf => "address_of",
            CppOperator::StructureDereference => "struct_deref",
            CppOperator::PointerToMember => "ptr_to_member",
            CppOperator::FunctionCall => "call",
            CppOperator::Comma => "comma",
            CppOperator::New => "new",
            CppOperator::NewArray => "new_array",
            CppOperator::Delete => "delete",
            CppOperator::DeleteArray => "delete_array",
        }
    }

    /// Every operator that is recognized by its name: all but conversions.
    pub fn all() -> (r: Vec<CppOperator>)
        ensures
            r@ == all_operators(),
    {
        let mut r: Vec<CppOperator> = Vec::new();
        r.push(CppOperator::Assignment);
        r.push(CppOperator::Addition);
        r.push(CppOperator::Subtraction);
        r.push(CppOperator::UnaryPlus);
        r.push(CppOperator::UnaryMinus);
        r.push(CppOperator::Multiplication);
        r.push(CppOperator::Division);
        r.push(CppOperator::Modulo);
        r.push(CppOperator::PrefixIncrement);
        r.push(CppOperator::PostfixIncrement);
        r.push(CppOperator::PrefixDecrement);
        r.push(CppOperator::PostfixDecrement);
        r.push(CppOperator::EqualTo);
        r.push(CppOperator::NotEqualTo);
        r.push(CppOperator::GreaterThan);
        r.push(CppOperator::LessThan);
        r.push(CppOperator::GreaterThanOrEqualTo);
        r.push(CppOperator::LessThanOrEqualTo);
        r.push(CppOperator::LogicalNot);
        r.push(CppOperator::LogicalAnd);
        r.push(CppOperator::LogicalOr);
        r.push(CppOperator::BitwiseNot);
        r.push(CppOperator::BitwiseAnd);
        r.push(CppOperator::BitwiseOr);
        r.push(CppOperator::BitwiseXor);
        r.push(CppOperator::BitwiseLeftShift);
        r.push(CppOperator::BitwiseRightShift);
        r.push(CppOperator::AdditionAssignment);
        r.push(CppOperator::SubtractionAssignment);
        r.push(CppOperator::MultiplicationAssignment);
        r.push(CppOperator::DivisionAssignment);
        r.push(CppOperator::ModuloAssignment);
        r.push(CppOperator::BitwiseAndAssignment);
        r.push(CppOperator::BitwiseOrAssignment);
        r.push(CppOperator::BitwiseXorAssignment);
        r.push(CppOperator::BitwiseLeftShiftAssignment);
        r.push(CppOperator::BitwiseRightShiftAssignment);
        r.push(CppOperator::Subscript);
        r.push(CppOperator::Indirection);
        r.push(CppOperator::AddressOf);
        r.push(CppOperator::StructureDereference);
        r.push(CppOperator::PointerToMember);
        r.push(CppOperator::FunctionCall);
        r.push(CppOperator::Comma);
        r.push(CppOperator::New);
        r.push(CppOperator::NewArray);
        r.push(CppOperator::Delete);
        r.push(CppOperator::DeleteArray);
        assert(r@ =~= all_operators());
        r
    }
}

/// The position of an operator in `all_operators`; conversions have none.
spec fn operator_position(op: CppOperator) -> int {
    match op {
        CppOperator::Conversion(..) => -1,
        CppOperator::Assignment => 0,
        CppOperator::Addition => 1,
        CppOperator::Subtraction => 2,
        CppOperator::UnaryPlus => 3,
        CppOperator::UnaryMinus => 4,
        CppOperator::Multiplication => 5,
        CppOperator::Division => 6,
        CppOperator::Modulo => 7,
        CppOperator::PrefixIncrement => 8,
        CppOperator::PostfixIncrement => 9,
        CppOperator::PrefixDecrement => 10,
        CppOperator::PostfixDecrement => 11,
        CppOperator::EqualTo => 12,
        CppOperator::NotEqualTo => 13,
        CppOperator::GreaterThan => 14,
        CppOperator::LessThan => 15,
        CppOperator::GreaterThanOrEqualTo => 16,
        CppOperator::LessThanOrEqualTo => 17,
        CppOperator::LogicalNot => 18,
        CppOperator::LogicalAnd => 19,
        CppOperator::LogicalOr => 20,
        CppOperator::BitwiseNot => 21,
        CppOperator::BitwiseAnd => 22,
        CppOperator::BitwiseOr => 23,
        CppOperator::BitwiseXor => 24,
        CppOperator::BitwiseLeftShift => 25,
        CppOperator::BitwiseRightShift => 26,
        CppOperator::AdditionAssignment => 27,
        CppOperator::SubtractionAssignment => 28,
        CppOperator::MultiplicationAssignment => 29,
        CppOperator::DivisionAssignment => 30,
        CppOperator::ModuloAssignment => 31,
        CppOperator::BitwiseAndAssignment => 32,
        CppOperator::BitwiseOrAssignment => 33,
        CppOperator::BitwiseXorAssignment => 34,
        CppOperator::BitwiseLeftShiftAssignment => 35,
        CppOperator::BitwiseRightShiftAssignment => 36,
        CppOperator::Subscript => 37,
        CppOperator::Indirection => 38,
        CppOperator::AddressOf => 39,
        CppOperator::StructureDereference => 40,
        CppOperator::PointerToMember => 41,
        CppOperator::FunctionCall => 42,
        CppOperator::Comma => 43,
        CppOperator::New => 44,
        CppOperator::NewArray => 45,
        CppOperator::Delete => 46,
        CppOperator::DeleteArray => 47,
    }
}

/// `CppOperator::all` lists every operator except conversions, each once.
pub proof fn law_all_operators_lists_each_once(op: CppOperator)
    ensures
        all_operators().contains(op) <==> !(op is Conversion),
        all_operators().no_duplicates(),
{
    let all = all_operators();
    if !(op is Conversion) {
        assert(all[operator_position(op)] == op);
    }
}

/// Different operators have different names in C function names, so the
/// generated C functions of different operators never clash.
pub proof fn law_c_names_are_distinct(a: CppOperator, b: CppOperator)
    requires
        !(a is Conversion),
        !(b is Conversion),
        a != b,
    ensures
        operator_c_name(a) != operator_c_name(b),
{
    reveal_strlit("assign");
    assert("assign"@.len() == 6 && "assign"@[0] == 'a' && "assign"@[1] == 's'
        && "assign"@[2] == 's' && "assign"@[3] == 'i' && "assign"@[4] == 'g'
        && "assign"@[5] == 'n');
    reveal_strlit("add");
    assert("add"@.len() == 3 && "add"@[0] == 'a' && "add"@[1] == 'd' && "add"@[2] == 'd');
    reveal_strlit("sub");
    assert("sub"@.len() == 3 && "sub"@[0] == 's' && "sub"@[1] == 'u' && "sub"@[2] == 'b');
    reveal_strlit("unary_plus");
    assert("unary_plus"@.len() == 10 && "unary_plus"@[0] == 'u' && "unary_plus"@[1] == 'n'
        && "unary_plus"@[2] == 'a' && "unary_plus"@[3] == 'r' && "unary_plus"@[4] == 'y'
        && "unary_plus"@[5] == '_' && "unary_plus"@[6] == 'p' && "unary_plus"@[7] == 'l'
        && "unary_plus"@[8] == 'u' && "unary_plus"@[9] == 's');
    reveal_strlit("neg");
    assert("neg"@.len() == 3 && "neg"@[0] == 'n' && "neg"@[1] == 'e' && "neg"@[2] == 'g');
    reveal_strlit("mul");
    assert("mul"@.len() == 3 && "mul"@[0] == 'm' && "mul"@[1] == 'u' && "mul"@[2] == 'l');
    reveal_strlit("div");
    assert("div"@.len() == 3 && "div"@[0] == 'd' && "div"@[1] == 'i' && "div"@[2] == 'v');
    reveal_strlit("rem");
    assert("rem"@.len() == 3 && "rem"@[0] == 'r' && "rem"@[1] == 'e' && "rem"@[2] == 'm');
    reveal_strlit("inc");
    assert("inc"@.len() == 3 && "inc"@[0] == 'i' && "inc"@[1] == 'n' && "inc"@[2] == 'c');
    reveal_strlit("inc_postfix");
    assert("inc_postfix"@.len() == 11 && "inc_postfix"@[0] == 'i' && "inc_postfix"@[1] == 'n'
        && "inc_postfix"@[2] == 'c' && "inc_postfix"@[3] == '_' && "inc_postfix"@[4] == 'p'
        && "inc_postfix"@[5] == 'o' && "inc_postfix"@[6] == 's' && "inc_postfix"@[7] == 't'
        && "inc_postfix"@[8] == 'f' && "inc_postfix"@[9] == 'i' && "inc_postfix"@[10] == 'x');
    reveal_strlit("dec");
    assert("dec"@.len() == 3 && "dec"@[0] == 'd' && "dec"@[1] == 'e' && "dec"@[2] == 'c');
    reveal_strlit("dec_postfix");
    assert("dec_postfix"@.len() == 11 && "dec_postfix"@[0] == 'd' && "dec_postfix"@[1] == 'e'
        && "dec_postfix"@[2] == 'c' && "dec_postfix"@[3] == '_' && "dec_postfix"@[4] == 'p'
        && "dec_postfix"@[5] == 'o' && "dec_postfix"@[6] == 's' && "dec_postfix"@[7] == 't'
        && "dec_postfix"@[8] == 'f' && "dec_postfix"@[9] == 'i' && "dec_postfix"@[10] == 'x');
    reveal_strlit("eq");
    assert("eq"@.len() == 2 && "eq"@[0] == 'e' && "eq"@[1] == 'q');
    reveal_strlit("neq");
    assert("neq"@.len() == 3 && "neq"@[0] == 'n' && "neq"@[1] == 'e' && "neq"@[2] == 'q');
    reveal_strlit("gt");
    assert("gt"@.len() == 2 && "gt"@[0] == 'g' && "gt"@[1] == 't');
    reveal_strlit("lt");
    assert("lt"@.len() == 2 && "lt"@[0] == 'l' && "lt"@[1] == 't');
    reveal_strlit("ge");
    assert("ge"@.len() == 2 && "ge"@[0] == 'g' && "ge"@[1] == 'e');
    reveal_strlit("le");
    assert("le"@.len() == 2 && "le"@[0] == 'l' && "le"@[1] == 'e');
    reveal_strlit("not");
    assert("not"@.len() == 3 && "not"@[0] == 'n' && "not"@[1] == 'o' && "not"@[2] == 't');
    reveal_strlit("and");
    assert("and"@.len() == 3 && "and"@[0] == 'a' && "and"@[1] == 'n' && "and"@[2] == 'd');
    reveal_strlit("or");
    assert("or"@.len() == 2 && "or"@[0] == 'o' && "or"@[1] == 'r');
    reveal_strlit("bit_not");
    assert("bit_not"@.len() == 7 && "bit_not"@[0] == 'b' && "bit_not"@[1] == 'i'
        && "bit_not"@[2] == 't' && "bit_not"@[3] == '_' && "bit_not"@[4] == 'n'
        && "bit_not"@[5] == 'o' && "bit_not"@[6] == 't');
    reveal_strlit("bit_and");
    assert("bit_and"@.len() == 7 && "bit_and"@[0] == 'b' && "bit_and"@[1] == 'i'
        && "bit_and"@[2] == 't' && "bit_and"@[3] == '_' && "bit_and"@[4] == 'a'
        && "bit_and"@[5] == 'n' && "bit_and"@[6] == 'd');
    reveal_strlit("bit_or");
    assert("bit_or"@.len() == 6 && "bit_or"@[0] == 'b' && "bit_or"@[1] == 'i'
        && "bit_or"@[2] == 't' && "bit_or"@[3] == '_' && "bit_or"@[4] == 'o'
        && "bit_or"@[5] == 'r');
    reveal_strlit("bit_xor");
    assert("bit_xor"@.len() == 7 && "bit_xor"@[0] == 'b' && "bit_xor"@[1] == 'i'
        && "bit_xor"@[2] == 't' && "bit_xor"@[3] == '_' && "bit_xor"@[4] == 'x'
        && "bit_xor"@[5] == 'o' && "bit_xor"@[6] == 'r');
    reveal_strlit("shl");
    assert("shl"@.len() == 3 && "shl"@[0] == 's' && "shl"@[1] == 'h' && "shl"@[2] == 'l');
    reveal_strlit("shr");
    assert("shr"@.len() == 3 && "shr"@[0] == 's' && "shr"@[1] == 'h' && "shr"@[2] == 'r');
    reveal_strlit("add_assign");
    assert("add_assign"@.len() == 10 && "add_assign"@[0] == 'a' && "add_assign"@[1] == 'd'
        && "add_assign"@[2] == 'd' && "add_assign"@[3] == '_' && "add_assign"@[4] == 'a'
        && "add_assign"@[5] == 's' && "add_assign"@[6] == 's' && "add_assign"@[7] == 'i'
        && "add_assign"@[8] == 'g' && "add_assign"@[9] == 'n');
    reveal_strlit("sub_assign");
    assert("sub_assign"@.len() == 10 && "sub_assign"@[0] == 's' && "sub_assign"@[1] == 'u'
        && "sub_assign"@[2] == 'b' && "sub_assign"@[3] == '_' && "sub_assign"@[4] == 'a'
        && "sub_assign"@[5] == 's' && "sub_assign"@[6] == 's' && "sub_assign"@[7] == 'i'
        && "sub_assign"@[8] == 'g' && "sub_assign"@[9] == 'n');
    reveal_strlit("mul_assign");
    assert("mul_assign"@.len() == 10 && "mul_assign"@[0] == 'm' && "mul_assign"@[1] == 'u'
        && "mul_assign"@[2] == 'l' && "mul_assign"@[3] == '_' && "mul_assign"@[4] == 'a'
        && "mul_assign"@[5] == 's' && "mul_assign"@[6] == 's' && "mul_assign"@[7] == 'i'
        && "mul_assign"@[8] == 'g' && "mul_assign"@[9] == 'n');
    reveal_strlit("div_assign");
    assert("div_assign"@.len() == 10 && "div_assign"@[0] == 'd' && "div_assign"@[1] == 'i'
        && "div_assign"@[2] == 'v' && "div_assign"@[3] == '_' && "div_assign"@[4] == 'a'
        && "div_assign"@[5] == 's' && "div_assign"@[6] == 's' && "div_assign"@[7] == 'i'
        && "div_assign"@[8] == 'g' && "div_assign"@[9] == 'n');
    reveal_strlit("rem_assign");
    assert("rem_assign"@.len() == 10 && "rem_assign"@[0] == 'r' && "rem_assign"@[1] == 'e'
        && "rem_assign"@[2] == 'm' && "rem_assign"@[3] == '_' && "rem_assign"@[4] == 'a'
        && "rem_assign"@[5] == 's' && "rem_assign"@[6] == 's' && "rem_assign"@[7] == 'i'
        && "rem_assign"@[8] == 'g' && "rem_assign"@[9] == 'n');
    reveal_strlit("bit_and_assign");
    assert("bit_and_assign"@.len() == 14 && "bit_and_assign"@[0] == 'b'
        && "bit_and_assign"@[1] == 'i' && "bit_and_assign"@[2] == 't'
        && "bit_and_assign"@[3] == '_' && "bit_and_assign"@[4] == 'a'
        && "bit_and_assign"@[5] == 'n' && "bit_and_assign"@[6] == 'd'
        && "bit_and_assign"@[7] == '_' && "bit_and_assign"@[8] == 'a'
        && "bit_and_assign"@[9] == 's' && "bit_and_assign"@[10] == 's'
        && "bit_and_assign"@[11] == 'i' && "bit_and_assign"@[12] == 'g'
        && "bit_and_assign"@[13] == 'n');
    reveal_strlit("bit_or_assign");
    assert("bit_or_assign"@.len() == 13 && "bit_or_assign"@[0] == 'b'
        && "bit_or_assign"@[1] == 'i' && "bit_or_assign"@[2] == 't' && "bit_or_assign"@[3] == '_'
        && "bit_or_assign"@[4] == 'o' && "bit_or_assign"@[5] == 'r' && "bit_or_assign"@[6] == '_'
        && "bit_or_assign"@[7] == 'a' && "bit_or_assign"@[8] == 's' && "bit_or_assign"@[9] == 's'
        && "bit_or_assign"@[10] == 'i' && "bit_or_assign"@[11] == 'g'
        && "bit_or_assign"@[12] == 'n');
    reveal_strlit("bit_xor_assign");
    assert("bit_xor_assign"@.len() == 14 && "bit_xor_assign"@[0] == 'b'
        && "bit_xor_assign"@[1] == 'i' && "bit_xor_assign"@[2] == 't'
        && "bit_xor_assign"@[3] == '_' && "bit_xor_assign"@[4] == 'x'
        && "bit_xor_assign"@[5] == 'o' && "bit_xor_assign"@[6] == 'r'
        && "bit_xor_assign"@[7] == '_' && "bit_xor_assign"@[8] == 'a'
        && "bit_xor_assign"@[9] == 's' && "bit_xor_assign"@[10] == 's'
        && "bit_xor_assign"@[11] == 'i' && "bit_xor_assign"@[12] == 'g'
        && "bit_xor_assign"@[13] == 'n');
    reveal_strlit("shl_assign");
    assert("shl_assign"@.len() == 10 && "shl_assign"@[0] == 's' && "shl_assign"@[1] == 'h'
        && "shl_assign"@[2] == 'l' && "shl_assign"@[3] == '_' && "shl_assign"@[4] == 'a'
        && "shl_assign"@[5] == 's' && "shl_assign"@[6] == 's' && "shl_assign"@[7] == 'i'
        && "shl_assign"@[8] == 'g' && "shl_assign"@[9] == 'n');
    reveal_strlit("shr_assign");
    assert("shr_assign"@.len() == 10 && "shr_assign"@[0] == 's' && "shr_assign"@[1] == 'h'
        && "shr_assign"@[2] == 'r' && "shr_assign"@[3] == '_' && "shr_assign"@[4] == 'a'
        && "shr_assign"@[5] == 's' && "shr_assign"@[6] == 's' && "shr_assign"@[7] == 'i'
        && "shr_assign"@[8] == 'g' && "shr_assign"@[9] == 'n');
    reveal_strlit("index");
    assert("index"@.len() == 5 && "index"@[0] == 'i' && "index"@[1] == 'n' && "index"@[2] == 'd'
        && "index"@[3] == 'e' && "index"@[4] == 'x');
    reveal_strlit("indirection");
    assert("indirection"@.len() == 11 && "indirection"@[0] == 'i' && "indirection"@[1] == 'n'
        && "indirection"@[2] == 'd' && "indirection"@[3] == 'i' && "indirection"@[4] == 'r'
        && "indirection"@[5] == 'e' && "indirection"@[6] == 'c' && "indirection"@[7] == 't'
        && "indirection"@[8] == 'i' && "indirection"@[9] == 'o' && "indirection"@[10] == 'n');
    reveal_strlit("address_of");
    assert("address_of"@.len() == 10 && "address_of"@[0] == 'a' && "address_of"@[1] == 'd'
        && "address_of"@[2] == 'd' && "address_of"@[3] == 'r' && "address_of"@[4] == 'e'
        && "address_of"@[5] == 's' && "address_of"@[6] == 's' && "address_of"@[7] == '_'
        && "address_of"@[8] == 'o' && "address_of"@[9] == 'f');
    reveal_strlit("struct_deref");
    assert("struct_deref"@.len() == 12 && "struct_deref"@[0] == 's' && "struct_deref"@[1] == 't'
        && "struct_deref"@[2] == 'r' && "struct_deref"@[3] == 'u' && "struct_deref"@[4] == 'c'
        && "struct_deref"@[5] == 't' && "struct_deref"@[6] == '_' && "struct_deref"@[7] == 'd'
        && "struct_deref"@[8] == 'e' && "struct_deref"@[9] == 'r' && "struct_deref"@[10] == 'e'
        && "struct_deref"@[11] == 'f');
    reveal_strlit("ptr_to_member");
    assert("ptr_to_member"@.len() == 13 && "ptr_to_member"@[0] == 'p'
        && "ptr_to_member"@[1] == 't' && "ptr_to_member"@[2] == 'r' && "ptr_to_member"@[3] == '_'
        && "ptr_to_member"@[4] == 't' && "ptr_to_member"@[5] == 'o' && "ptr_to_member"@[6] == '_'
        && "ptr_to_member"@[7] == 'm' && "ptr_to_member"@[8] == 'e' && "ptr_to_member"@[9] == 'm'
        && "ptr_to_member"@[10] == 'b' && "ptr_to_member"@[11] == 'e'
        && "ptr_to_member"@[12] == 'r');
    reveal_strlit("call");
    assert("call"@.len() == 4 && "call"@[0] == 'c' && "call"@[1] == 'a' && "call"@[2] == 'l'
        && "call"@[3] == 'l');
    reveal_strlit("comma");
    assert("comma"@.len() == 5 && "comma"@[0] == 'c' && "comma"@[1] == 'o' && "comma"@[2] == 'm'
        && "comma"@[3] == 'm' && "comma"@[4] == 'a');
    reveal_strlit("new");
    assert("new"@.len() == 3 && "new"@[0] == 'n' && "new"@[1] == 'e' && "new"@[2] == 'w');
    reveal_strlit("new_array");
    assert("new_array"@.len() == 9 && "new_array"@[0] == 'n' && "new_array"@[1] == 'e'
        && "new_array"@[2] == 'w' && "new_array"@[3] == '_' && "new_array"@[4] == 'a'
        && "new_array"@[5] == 'r' && "new_array"@[6] == 'r' && "new_array"@[7] == 'a'
        && "new_array"@[8] == 'y');
    reveal_strlit("delete");
    assert("delete"@.len() == 6 && "delete"@[0] == 'd' && "delete"@[1] == 'e'
        && "delete"@[2] == 'l' && "delete"@[3] == 'e' && "delete"@[4] == 't'
        && "delete"@[5] == 'e');
    reveal_strlit("delete_array");
    assert("delete_array"@.len() == 12 && "delete_array"@[0] == 'd' && "delete_array"@[1] == 'e'
        && "delete_array"@[2] == 'l' && "delete_array"@[3] == 'e' && "delete_array"@[4] == 't'
        && "delete_array"@[5] == 'e' && "delete_array"@[6] == '_' && "delete_array"@[7] == 'a'
        && "delete_array"@[8] == 'r' && "delete_array"@[9] == 'r' && "delete_array"@[10] == 'a'
        && "delete_array"@[11] == 'y');
}

/// An operator is recognized by the text after `operator` in its C++
/// function name together with its number of arguments: no two operators
/// that `CppOperator::all` lists agree on both.
pub proof fn law_operator_recognized_by_suffix_and_count(a: CppOperator, b: CppOperator)
    requires
        !(a is Conversion),
        !(b is Conversion),
        a != b,
    ensures
        operator_suffix(a) != operator_suffix(b) || operator_arguments_count(a)
            != operator_arguments_count(b),
{
    reveal_strlit("!");
    assert("!"@.len() == 1 && "!"@[0] == '!');
    reveal_strlit("!=");
    assert("!="@.len() == 2 && "!="@[0] == '!' && "!="@[1] == '=');
    reveal_strlit("%");
    assert("%"@.len() == 1 && "%"@[0] == '%');
    reveal_strlit("%=");
    assert("%="@.len() == 2 && "%="@[0] == '%' && "%="@[1] == '=');
    reveal_strlit("&");
    assert("&"@.len() == 1 && "&"@[0] == '&');
    reveal_strlit("&&");
    assert("&&"@.len() == 2 && "&&"@[0] == '&' && "&&"@[1] == '&');
    reveal_strlit("&=");
    assert("&="@.len() == 2 && "&="@[0] == '&' && "&="@[1] == '=');
    reveal_strlit("()");
    assert("()"@.len() == 2 && "()"@[0] == '(' && "()"@[1] == ')');
    reveal_strlit("*");
    assert("*"@.len() == 1 && "*"@[0] == '*');
    reveal_strlit("*=");
    assert("*="@.len() == 2 && "*="@[0] == '*' && "*="@[1] == '=');
    reveal_strlit("+");
    assert("+"@.len() == 1 && "+"@[0] == '+');
    reveal_strlit("++");
    assert("++"@.len() == 2 && "++"@[0] == '+' && "++"@[1] == '+');
    reveal_strlit("+=");
    assert("+="@.len() == 2 && "+="@[0] == '+' && "+="@[1] == '=');
    reveal_strlit(",");
    assert(","@.len() == 1 && ","@[0] == ',');
    reveal_strlit("-");
    assert("-"@.len() == 1 && "-"@[0] == '-');
    reveal_strlit("--");
    assert("--"@.len() == 2 && "--"@[0] == '-' && "--"@[1] == '-');
    reveal_strlit("-=");
    assert("-="@.len() == 2 && "-="@[0] == '-' && "-="@[1] == '=');
    reveal_strlit("->");
    assert("->"@.len() == 2 && "->"@[0] == '-' && "->"@[1] == '>');
    reveal_strlit("->*");
    assert("->*"@.len() == 3 && "->*"@[0] == '-' && "->*"@[1] == '>' && "->*"@[2] == '*');
    reveal_strlit("/");
    assert("/"@.len() == 1 && "/"@[0] == '/');
    reveal_strlit("/=");
    assert("/="@.len() == 2 && "/="@[0] == '/' && "/="@[1] == '=');
    reveal_strlit("<");
    assert("<"@.len() == 1 && "<"@[0] == '<');
    reveal_strlit("<<");
    assert("<<"@.len() == 2 && "<<"@[0] == '<' && "<<"@[1] == '<');
    reveal_strlit("<<=");
    assert("<<="@.len() == 3 && "<<="@[0] == '<' && "<<="@[1] == '<' && "<<="@[2] == '=');
    reveal_strlit("<=");
    assert("<="@.len() == 2 && "<="@[0] == '<' && "<="@[1] == '=');
    reveal_strlit("=");
    assert("="@.len() == 1 && "="@[0] == '=');
    reveal_strlit("==");
    assert("=="@.len() == 2 && "=="@[0] == '=' && "=="@[1] == '=');
    reveal_strlit(">");
    assert(">"@.len() == 1 && ">"@[0] == '>');
    reveal_strlit(">=");
    assert(">="@.len() == 2 && ">="@[0] == '>' && ">="@[1] == '=');
    reveal_strlit(">>");
    assert(">>"@.len() == 2 && ">>"@[0] == '>' && ">>"@[1] == '>');
    reveal_strlit(">>=");
    assert(">>="@.len() == 3 && ">>="@[0] == '>' && ">>="@[1] == '>' && ">>="@[2] == '=');
    reveal_strlit("[]");
    assert("[]"@.len() == 2 && "[]"@[0] == '[' && "[]"@[1] == ']');
    reveal_strlit("^");
    assert("^"@.len() == 1 && "^"@[0] == '^');
    reveal_strlit("^=");
    assert("^="@.len() == 2 && "^="@[0] == '^' && "^="@[1] == '=');
    reveal_strlit("delete");
    assert("delete"@.len() == 6 && "delete"@[0] == 'd' && "delete"@[1] == 'e'
        && "delete"@[2] == 'l' && "delete"@[3] == 'e' && "delete"@[4] == 't'
        && "delete"@[5] == 'e');
    reveal_strlit("delete[]");
    assert("delete[]"@.len() == 8 && "delete[]"@[0] == 'd' && "delete[]"@[1] == 'e'
        && "delete[]"@[2] == 'l' && "delete[]"@[3] == 'e' && "delete[]"@[4] == 't'
        && "delete[]"@[5] == 'e' && "delete[]"@[6] == '[' && "delete[]"@[7] == ']');
    reveal_strlit("new");
    assert("new"@.len() == 3 && "new"@[0] == 'n' && "new"@[1] == 'e' && "new"@[2] == 'w');
    reveal_strlit("new[]");
    assert("new[]"@.len() == 5 && "new[]"@[0] == 'n' && "new[]"@[1] == 'e' && "new[]"@[2] == 'w'
        && "new[]"@[3] == '[' && "new[]"@[4] == ']');
    reveal_strlit("|");
    assert("|"@.len() == 1 && "|"@[0] == '|');
    reveal_strlit("|=");
    assert("|="@.len() == 2 && "|="@[0] == '|' && "|="@[1] == '=');
    reveal_strlit("||");
    assert("||"@.len() == 2 && "||"@[0] == '|' && "||"@[1] == '|');
    reveal_strlit("~");
    assert("~"@.len() == 1 && "~"@[0] == '~');
}

/// The declaration form of every operator, spelled out character by
/// character: the C++ token after `operator` and the number of arguments,
/// counting the object it is called on.
pub proof fn law_operator_declaration_forms()
    ensures
        forall|t: CppType|
            #![trigger operator_suffix(CppOperator::Conversion(t))]
            operator_suffix(CppOperator::Conversion(t)) is None && operator_arguments_count(
                CppOperator::Conversion(t),
            ) == 1,
        operator_suffix(CppOperator::Assignment) == Some(seq!['=']),
        operator_arguments_count(CppOperator::Assignment) == 2,
        operator_suffix(CppOperator::Addition) == Some(seq!['+']),
        operator_arguments_count(CppOperator::Addition) == 2,
        operator_suffix(CppOperator::Subtraction) == Some(seq!['-']),
        operator_arguments_count(CppOperator::Subtraction) == 2,
        operator_suffix(CppOperator::UnaryPlus) == Some(seq!['+']),
        operator_arguments_count(CppOperator::UnaryPlus) == 1,
        operator_suffix(CppOperator::UnaryMinus) == Some(seq!['-']),
        operator_arguments_count(CppOperator::UnaryMinus) == 1,
        operator_suffix(CppOperator::Multiplication) == Some(seq!['*']),
        operator_arguments_count(CppOperator::Multiplication) == 2,
        operator_suffix(CppOperator::Division) == Some(seq!['/']),
        operator_arguments_count(CppOperator::Division) == 2,
        operator_suffix(CppOperator::Modulo) == Some(seq!['%']),
        operator_arguments_count(CppOperator::Modulo) == 2,
        operator_suffix(CppOperator::PrefixIncrement) == Some(seq!['+', '+']),
        operator_arguments_count(CppOperator::PrefixIncrement) == 1,
        operator_suffix(CppOperator::PostfixIncrement) == Some(seq!['+', '+']),
        operator_arguments_count(CppOperator::PostfixIncrement) == 2,
        operator_suffix(CppOperator::PrefixDecrement) == Some(seq!['-', '-']),
        operator_arguments_count(CppOperator::PrefixDecrement) == 1,
        operator_suffix(CppOperator::PostfixDecrement) == Some(seq!['-', '-']),
        operator_arguments_count(CppOperator::PostfixDecrement) == 2,
        operator_suffix(CppOperator::EqualTo) == Some(seq!['=', '=']),
        operator_arguments_count(CppOperator::EqualTo) == 2,
        operator_suffix(CppOperator::NotEqualTo) == Some(seq!['!', '=']),
        operator_arguments_count(CppOperator::NotEqualTo) == 2,
        operator_suffix(CppOperator::GreaterThan) == Some(seq!['>']),
        operator_arguments_count(CppOperator::GreaterThan) == 2,
        operator_suffix(CppOperator::LessThan) == Some(seq!['<']),
        operator_arguments_count(CppOperator::LessThan) == 2,
        operator_suffix(CppOperator::GreaterThanOrEqualTo) == Some(seq!['>', '=']),
        operator_arguments_count(CppOperator::GreaterThanOrEqualTo) == 2,
        operator_suffix(CppOperator::LessThanOrEqualTo) == Some(seq!['<', '=']),
        operator_arguments_count(CppOperator::LessThanOrEqualTo) == 2,
        operator_suffix(CppOperator::LogicalNot) == Some(seq!['!']),
        operator_arguments_count(CppOperator::LogicalNot) == 1,
        operator_suffix(CppOperator::LogicalAnd) == Some(seq!['&', '&']),
        operator_arguments_count(CppOperator::LogicalAnd) == 2,
        operator_suffix(CppOperator::LogicalOr) == Some(seq!['|', '|']),
        operator_arguments_count(CppOperator::LogicalOr) == 2,
        operator_suffix(CppOperator::BitwiseNot) == Some(seq!['~']),
        operator_arguments_count(CppOperator::BitwiseNot) == 1,
        operator_suffix(CppOperator::BitwiseAnd) == Some(seq!['&']),
        operator_arguments_count(CppOperator::BitwiseAnd) == 2,
        operator_suffix(CppOperator::BitwiseOr) == Some(seq!['|']),
        operator_arguments_count(CppOperator::BitwiseOr) == 2,
        operator_suffix(CppOperator::BitwiseXor) == Some(seq!['^']),
        operator_arguments_count(CppOperator::BitwiseXor) == 2,
        operator_suffix(CppOperator::BitwiseLeftShift) == Some(seq!['<', '<']),
        operator_arguments_count(CppOperator::BitwiseLeftShift) == 2,
        operator_suffix(CppOperator::BitwiseRightShift) == Some(seq!['>', '>']),
        operator_arguments_count(CppOperator::BitwiseRightShift) == 2,
        operator_suffix(CppOperator::AdditionAssignment) == Some(seq!['+', '=']),
        operator_arguments_count(CppOperator::AdditionAssignment) == 2,
        operator_suffix(CppOperator::SubtractionAssignment) == Some(seq!['-', '=']),
        operator_arguments_count(CppOperator::SubtractionAssignment) == 2,
        operator_suffix(CppOperator::MultiplicationAssignment) == Some(seq!['*', '=']),
        operator_arguments_count(CppOperator::MultiplicationAssignment) == 2,
        operator_suffix(CppOperator::DivisionAssignment) == Some(seq!['/', '=']),
        operator_arguments_count(CppOperator::DivisionAssignment) == 2,
        operator_suffix(CppOperator::ModuloAssignment) == Some(seq!['%', '=']),
        operator_arguments_count(CppOperator::ModuloAssignment) == 2,
        operator_suffix(CppOperator::BitwiseAndAssignment) == Some(seq!['&', '=']),
        operator_arguments_count(CppOperator::BitwiseAndAssignment) == 2,
        operator_suffix(CppOperator::BitwiseOrAssignment) == Some(seq!['|', '=']),
        operator_arguments_count(CppOperator::BitwiseOrAssignment) == 2,
        operator_suffix(CppOperator::BitwiseXorAssignment) == Some(seq!['^', '=']),
        operator_arguments_count(CppOperator::BitwiseXorAssignment) == 2,
        operator_suffix(CppOperator::BitwiseLeftShiftAssignment) == Some(seq!['<', '<', '=']),
        operator_arguments_count(CppOperator::BitwiseLeftShiftAssignment) == 2,
        operator_suffix(CppOperator::BitwiseRightShiftAssignment) == Some(seq!['>', '>', '=']),
        operator_arguments_count(CppOperator::BitwiseRightShiftAssignment) == 2,
        operator_suffix(CppOperator::Subscript) == Some(seq!['[', ']']),
        operator_arguments_count(CppOperator::Subscript) == 2,
        operator_suffix(CppOperator::Indirection) == Some(seq!['*']),
        operator_arguments_count(CppOperator::Indirection) == 1,
        operator_suffix(CppOperator::AddressOf) == Some(seq!['&']),
        operator_arguments_count(CppOperator::AddressOf) == 1,
        operator_suffix(CppOperator::StructureDereference) == Some(seq!['-', '>']),
        operator_arguments_count(CppOperator::StructureDereference) == 1,
        operator_suffix(CppOperator::PointerToMember) == Some(seq!['-', '>', '*']),
        operator_arguments_count(CppOperator::PointerToMember) == 2,
        operator_suffix(CppOperator::FunctionCall) == Some(seq!['(', ')']),
        operator_arguments_count(CppOperator::FunctionCall) == 0,
        operator_suffix(CppOperator::Comma) == Some(seq![',']),
        operator_arguments_count(CppOperator::Comma) == 2,
        operator_suffix(CppOperator::New) == Some(seq!['n', 'e', 'w']),
        operator_arguments_count(CppOperator::New) == 2,
        operator_suffix(CppOperator::NewArray) == Some(seq!['n', 'e', 'w', '[', ']']),
        operator_arguments_count(CppOperator::NewArray) == 2,
        operator_suffix(CppOperator::Delete) == Some(seq!['d', 'e', 'l', 'e', 't', 'e']),
        operator_arguments_count(CppOperator::Delete) == 2,
        operator_suffix(CppOperator::DeleteArray) == Some(seq!['d', 'e', 'l', 'e', 't', 'e', '[', ']']),
        operator_arguments_count(CppOperator::DeleteArray) == 2,
{
    reveal_strlit("!");
    assert("!"@ =~= seq!['!']);
    reveal_strlit("!=");
    assert("!="@ =~= seq!['!', '=']);
    reveal_strlit("%");
    assert("%"@ =~= seq!['%']);
    reveal_strlit("%=");
    assert("%="@ =~= seq!['%', '=']);
    reveal_strlit("&");
    assert("&"@ =~= seq!['&']);
    reveal_strlit("&&");
    assert("&&"@ =~= seq!['&', '&']);
    reveal_strlit("&=");
    assert("&="@ =~= seq!['&', '=']);
    reveal_strlit("()");
    assert("()"@ =~= seq!['(', ')']);
    reveal_strlit("*");
    assert("*"@ =~= seq!['*']);
    reveal_strlit("*=");
    assert("*="@ =~= seq!['*', '=']);
    reveal_strlit("+");
    assert("+"@ =~= seq!['+']);
    reveal_strlit("++");
    assert("++"@ =~= seq!['+', '+']);
    reveal_strlit("+=");
    assert("+="@ =~= seq!['+', '=']);
    reveal_strlit(",");
    assert(","@ =~= seq![',']);
    reveal_strlit("-");
    assert("-"@ =~= seq!['-']);
    reveal_strlit("--");
    assert("--"@ =~= seq!['-', '-']);
    reveal_strlit("-=");
    assert("-="@ =~= seq!['-', '=']);
    reveal_strlit("->");
    assert("->"@ =~= seq!['-', '>']);
    reveal_strlit("->*");
    assert("->*"@ =~= seq!['-', '>', '*']);
    reveal_strlit("/");
    assert("/"@ =~= seq!['/']);
    reveal_strlit("/=");
    assert("/="@ =~= seq!['/', '=']);
    reveal_strlit("<");
    assert("<"@ =~= seq!['<']);
    reveal_strlit("<<");
    assert("<<"@ =~= seq!['<', '<']);
    reveal_strlit("<<=");
    assert("<<="@ =~= seq!['<', '<', '=']);
    reveal_strlit("<=");
    assert("<="@ =~= seq!['<', '=']);
    reveal_strlit("=");
    assert("="@ =~= seq!['=']);
    reveal_strlit("==");
    assert("=="@ =~= seq!['=', '=']);
    reveal_strlit(">");
    assert(">"@ =~= seq!['>']);
    reveal_strlit(">=");
    assert(">="@ =~= seq!['>', '=']);
    reveal_strlit(">>");
    assert(">>"@ =~= seq!['>', '>']);
    reveal_strlit(">>=");
    assert(">>="@ =~= seq!['>', '>', '=']);
    reveal_strlit("[]");
    assert("[]"@ =~= seq!['[', ']']);
    reveal_strlit("^");
    assert("^"@ =~= seq!['^']);
    reveal_strlit("^=");
    assert("^="@ =~= seq!['^', '=']);
    reveal_strlit("delete");
    assert("delete"@ =~= seq!['d', 'e', 'l', 'e', 't', 'e']);
    reveal_strlit("delete[]");
    assert("delete[]"@ =~= seq!['d', 'e', 'l', 'e', 't', 'e', '[', ']']);
    reveal_strlit("new");
    assert("new"@ =~= seq!['n', 'e', 'w']);
    reveal_strlit("new[]");
    assert("new[]"@ =~= seq!['n', 'e', 'w', '[', ']']);
    reveal_strlit("|");
    assert("|"@ =~= seq!['|']);
    reveal_strlit("|=");
    assert("|="@ =~= seq!['|', '=']);
    reveal_strlit("||");
    assert("||"@ =~= seq!['|', '|']);
    reveal_strlit("~");
    assert("~"@ =~= seq!['~']);
}

/// The name of every operator in C function names, spelled out character
/// by character.
pub proof fn law_operator_c_names()
    ensures
        operator_c_name(CppOperator::Assignment) == seq!['a', 's', 's', 'i', 'g', 'n'],
        operator_c_name(CppOperator::Addition) == seq!['a', 'd', 'd'],
        operator_c_name(CppOperator::Subtraction) == seq!['s', 'u', 'b'],
        operator_c_name(CppOperator::UnaryPlus) == seq!['u', 'n', 'a', 'r', 'y', '_', 'p', 'l', 'u', 's'],
        operator_c_name(CppOperator::UnaryMinus) == seq!['n', 'e', 'g'],
        operator_c_name(CppOperator::Multiplication) == seq!['m', 'u', 'l'],
        operator_c_name(CppOperator::Division) == seq!['d', 'i', 'v'],
        operator_c_name(CppOperator::Modulo) == seq!['r', 'e', 'm'],
        operator_c_name(CppOperator::PrefixIncrement) == seq!['i', 'n', 'c'],
        operator_c_name(CppOperator::PostfixIncrement) == seq!['i', 'n', 'c', '_', 'p', 'o', 's', 't', 'f', 'i', 'x'],
        operator_c_name(CppOperator::PrefixDecrement) == seq!['d', 'e', 'c'],
        operator_c_name(CppOperator::PostfixDecrement) == seq!['d', 'e', 'c', '_', 'p', 'o', 's', 't', 'f', 'i', 'x'],
        operator_c_name(CppOperator::EqualTo) == seq!['e', 'q'],
        operator_c_name(CppOperator::NotEqualTo) == seq!['n', 'e', 'q'],
        operator_c_name(CppOperator::GreaterThan) == seq!['g', 't'],
        operator_c_name(CppOperator::LessThan) == seq!['l', 't'],
        operator_c_name(CppOperator::GreaterThanOrEqualTo) == seq!['g', 'e'],
        operator_c_name(CppOperator::LessThanOrEqualTo) == seq!['l', 'e'],
        operator_c_name(CppOperator::LogicalNot) == seq!['n', 'o', 't'],
        operator_c_name(CppOperator::LogicalAnd) == seq!['a', 'n', 'd'],
        operator_c_name(CppOperator::LogicalOr) == seq!['o', 'r'],
        operator_c_name(CppOperator::BitwiseNot) == seq!['b', 'i', 't', '_', 'n', 'o', 't'],
        operator_c_name(CppOperator::BitwiseAnd) == seq!['b', 'i', 't', '_', 'a', 'n', 'd'],
        operator_c_name(CppOperator::BitwiseOr) == seq!['b', 'i', 't', '_', 'o', 'r'],
        operator_c_name(CppOperator::BitwiseXor) == seq!['b', 'i', 't', '_', 'x', 'o', 'r'],
        operator_c_name(CppOperator::BitwiseLeftShift) == seq!['s', 'h', 'l'],
        operator_c_name(CppOperator::BitwiseRightShift) == seq!['s', 'h', 'r'],
        operator_c_name(CppOperator::AdditionAssignment) == seq!['a', 'd', 'd', '_', 'a', 's', 's', 'i', 'g', 'n'],
        operator_c_name(CppOperator::SubtractionAssignment) == seq!['s', 'u', 'b', '_', 'a', 's', 's', 'i', 'g', 'n'],
        operator_c_name(CppOperator::MultiplicationAssignment) == seq!['m', 'u', 'l', '_', 'a', 's', 's', 'i', 'g', 'n'],
        operator_c_name(CppOperator::DivisionAssignment) == seq!['d', 'i', 'v', '_', 'a', 's', 's', 'i', 'g', 'n'],
        operator_c_name(CppOperator::ModuloAssignment) == seq!['r', 'e', 'm', '_', 'a', 's', 's', 'i', 'g', 'n'],
        operator_c_name(CppOperator::BitwiseAndAssignment) == seq!['b', 'i', 't', '_', 'a', 'n', 'd', '_', 'a', 's', 's', 'i', 'g', 'n'],
        operator_c_name(CppOperator::BitwiseOrAssignment) == seq!['b', 'i', 't', '_', 'o', 'r', '_', 'a', 's', 's', 'i', 'g', 'n'],
        operator_c_name(CppOperator::BitwiseXorAssignment) == seq!['b', 'i', 't', '_', 'x', 'o', 'r', '_', 'a', 's', 's', 'i', 'g', 'n'],
        operator_c_name(CppOperator::BitwiseLeftShiftAssignment) == seq!['s', 'h', 'l', '_', 'a', 's', 's', 'i', 'g', 'n'],
        operator_c_name(CppOperator::BitwiseRightShiftAssignment) == seq!['s', 'h', 'r', '_', 'a', 's', 's', 'i', 'g', 'n'],
        operator_c_name(CppOperator::Subscript) == seq!['i', 'n', 'd', 'e', 'x'],
        operator_c_name(CppOperator::Indirection) == seq!['i', 'n', 'd', 'i', 'r', 'e', 'c', 't', 'i', 'o', 'n'],
        operator_c_name(CppOperator::AddressOf) == seq!['a', 'd', 'd', 'r', 'e', 's', 's', '_', 'o', 'f'],
        operator_c_name(CppOperator::StructureDereference) == seq!['s', 't', 'r', 'u', 'c', 't', '_', 'd', 'e', 'r', 'e', 'f'],
        operator_c_name(CppOperator::PointerToMember) == seq!['p', 't', 'r', '_', 't', 'o', '_', 'm', 'e', 'm', 'b', 'e', 'r'],
        operator_c_name(CppOperator::FunctionCall) == seq!['c', 'a', 'l', 'l'],
        operator_c_name(CppOperator::Comma) == seq!['c', 'o', 'm', 'm', 'a'],
        operator_c_name(CppOperator::New) == seq!['n', 'e', 'w'],
        operator_c_name(CppOperator::NewArray) == seq!['n', 'e', 'w', '_', 'a', 'r', 'r', 'a', 'y'],
        operator_c_name(CppOperator::Delete) == seq!['d', 'e', 'l', 'e', 't', 'e'],
        operator_c_name(CppOperator::DeleteArray) == seq!['d', 'e', 'l', 'e', 't', 'e', '_', 'a', 'r', 'r', 'a', 'y'],
{
    reveal_strlit("add");
    assert("add"@ =~= seq!['a', 'd', 'd']);
    reveal_strlit("add_assign");
    assert("add_assign"@ =~= seq!['a', 'd', 'd', '_', 'a', 's', 's', 'i', 'g', 'n']);
    reveal_strlit("address_of");
    assert("address_of"@ =~= seq!['a', 'd', 'd', 'r', 'e', 's', 's', '_', 'o', 'f']);
    reveal_strlit("and");
    assert("and"@ =~= seq!['a', 'n', 'd']);
    reveal_strlit("assign");
    assert("assign"@ =~= seq!['a', 's', 's', 'i', 'g', 'n']);
    reveal_strlit("bit_and");
    assert("bit_and"@ =~= seq!['b', 'i', 't', '_', 'a', 'n', 'd']);
    reveal_strlit("bit_and_assign");
    assert("bit_and_assign"@ =~= seq!['b', 'i', 't', '_', 'a', 'n', 'd', '_', 'a', 's', 's', 'i', 'g', 'n']);
    reveal_strlit("bit_not");
    assert("bit_not"@ =~= seq!['b', 'i', 't', '_', 'n', 'o', 't']);
    reveal_strlit("bit_or");
    assert("bit_or"@ =~= seq!['b', 'i', 't', '_', 'o', 'r']);
    reveal_strlit("bit_or_assign");
    assert("bit_or_assign"@ =~= seq!['b', 'i', 't', '_', 'o', 'r', '_', 'a', 's', 's', 'i', 'g', 'n']);
    reveal_strlit("bit_xor");
    assert("bit_xor"@ =~= seq!['b', 'i', 't', '_', 'x', 'o', 'r']);
    reveal_strlit("bit_xor_assign");
    assert("bit_xor_assign"@ =~= seq!['b', 'i', 't', '_', 'x', 'o', 'r', '_', 'a', 's', 's', 'i', 'g', 'n']);
    reveal_strlit("call");
    assert("call"@ =~= seq!['c', 'a', 'l', 'l']);
    reveal_strlit("comma");
    assert("comma"@ =~= seq!['c', 'o', 'm', 'm', 'a']);
    reveal_strlit("dec");
    assert("dec"@ =~= seq!['d', 'e', 'c']);
    reveal_strlit("dec_postfix");
    assert("dec_postfix"@ =~= seq!['d', 'e', 'c', '_', 'p', 'o', 's', 't', 'f', 'i', 'x']);
    reveal_strlit("delete");
    assert("delete"@ =~= seq!['d', 'e', 'l', 'e', 't', 'e']);
    reveal_strlit("delete_array");
    assert("delete_array"@ =~= seq!['d', 'e', 'l', 'e', 't', 'e', '_', 'a', 'r', 'r', 'a', 'y']);
    reveal_strlit("div");
    assert("div"@ =~= seq!['d', 'i', 'v']);
    reveal_strlit("div_assign");
    assert("div_assign"@ =~= seq!['d', 'i', 'v', '_', 'a', 's', 's', 'i', 'g', 'n']);
    reveal_strlit("eq");
    assert("eq"@ =~= seq!['e', 'q']);
    reveal_strlit("ge");
    assert("ge"@ =~= seq!['g', 'e']);
    reveal_strlit("gt");
    assert("gt"@ =~= seq!['g', 't']);
    reveal_strlit("inc");
    assert("inc"@ =~= seq!['i', 'n', 'c']);
    reveal_strlit("inc_postfix");
    assert("inc_postfix"@ =~= seq!['i', 'n', 'c', '_', 'p', 'o', 's', 't', 'f', 'i', 'x']);
    reveal_strlit("index");
    assert("index"@ =~= seq!['i', 'n', 'd', 'e', 'x']);
    reveal_strlit("indirection");
    assert("indirection"@ =~= seq!['i', 'n', 'd', 'i', 'r', 'e', 'c', 't', 'i', 'o', 'n']);
    reveal_strlit("le");
    assert("le"@ =~= seq!['l', 'e']);
    reveal_strlit("lt");
    assert("lt"@ =~= seq!['l', 't']);
    reveal_strlit("mul");
    assert("mul"@ =~= seq!['m', 'u', 'l']);
    reveal_strlit("mul_assign");
    assert("mul_assign"@ =~= seq!['m', 'u', 'l', '_', 'a', 's', 's', 'i', 'g', 'n']);
    reveal_strlit("neg");
    assert("neg"@ =~= seq!['n', 'e', 'g']);
    reveal_strlit("neq");
    assert("neq"@ =~= seq!['n', 'e', 'q']);
    reveal_strlit("new");
    assert("new"@ =~= seq!['n', 'e', 'w']);
    reveal_strlit("new_array");
    assert("new_array"@ =~= seq!['n', 'e', 'w', '_', 'a', 'r', 'r', 'a', 'y']);
    reveal_strlit("not");
    assert("not"@ =~= seq!['n', 'o', 't']);
    reveal_strlit("or");
    assert("or"@ =~= seq!['o', 'r']);
    reveal_strlit("ptr_to_member");
    assert("ptr_to_member"@ =~= seq!['p', 't', 'r', '_', 't', 'o', '_', 'm', 'e', 'm', 'b', 'e', 'r']);
    reveal_strlit("rem");
    assert("rem"@ =~= seq!['r', 'e', 'm']);
    reveal_strlit("rem_assign");
    assert("rem_assign"@ =~= seq!['r', 'e', 'm', '_', 'a', 's', 's', 'i', 'g', 'n']);
    reveal_strlit("shl");
    assert("shl"@ =~= seq!['s', 'h', 'l']);
    reveal_strlit("shl_assign");
    assert("shl_assign"@ =~= seq!['s', 'h', 'l', '_', 'a', 's', 's', 'i', 'g', 'n']);
    reveal_strlit("shr");
    assert("shr"@ =~= seq!['s', 'h', 'r']);
    reveal_strlit("shr_assign");
    assert("shr_assign"@ =~= seq!['s', 'h', 'r', '_', 'a', 's', 's', 'i', 'g', 'n']);
    reveal_strlit("struct_deref");
    assert("struct_deref"@ =~= seq!['s', 't', 'r', 'u', 'c', 't', '_', 'd', 'e', 'r', 'e', 'f']);
    reveal_strlit("sub");
    assert("sub"@ =~= seq!['s', 'u', 'b']);
    reveal_strlit("sub_assign");
    assert("sub_assign"@ =~= seq!['s', 'u', 'b', '_', 'a', 's', 's', 'i', 'g', 'n']);
    reveal_strlit("unary_plus");
    assert("unary_plus"@ =~= seq!['u', 'n', 'a', 'r', 'y', '_', 'p', 'l', 'u', 's']);
}

/// Related operators are declared and named alike: a compound assignment
/// is its binary operator followed by `=` and named with `_assign`; `>=` and
/// `<=` extend `>` and `<`; a postfix increment or decrement has the token
/// of the prefix one, one argument more, and the suffix `_postfix`; the
/// array forms of `new` and `delete` add `[]` and `_array`.
pub proof fn law_related_operators_are_declared_alike()
    ensures
        operator_suffix(CppOperator::AdditionAssignment) == Some(operator_suffix(CppOperator::Addition)->0 + seq!['=']),
        operator_arguments_count(CppOperator::AdditionAssignment) == operator_arguments_count(CppOperator::Addition),
        operator_c_name(CppOperator::AdditionAssignment) == operator_c_name(CppOperator::Addition) + seq!['_', 'a', 's', 's', 'i', 'g', 'n'],
        operator_suffix(CppOperator::SubtractionAssignment) == Some(operator_suffix(CppOperator::Subtraction)->0 + seq!['=']),
        operator_arguments_count(CppOperator::SubtractionAssignment) == operator_arguments_count(CppOperator::Subtraction),
        operator_c_name(CppOperator::SubtractionAssignment) == operator_c_name(CppOperator::Subtraction) + seq!['_', 'a', 's', 's', 'i', 'g', 'n'],
        operator_suffix(CppOperator::MultiplicationAssignment) == Some(operator_suffix(CppOperator::Multiplication)->0 + seq!['=']),
        operator_arguments_count(CppOperator::MultiplicationAssignment) == operator_arguments_count(CppOperator::Multiplication),
        operator_c_name(CppOperator::MultiplicationAssignment) == operator_c_name(CppOperator::Multiplication) + seq!['_', 'a', 's', 's', 'i', 'g', 'n'],
        operator_suffix(CppOperator::DivisionAssignment) == Some(operator_suffix(CppOperator::Division)->0 + seq!['=']),
        operator_arguments_count(CppOperator::DivisionAssignment) == operator_arguments_count(CppOperator::Division),
        operator_c_name(CppOperator::DivisionAssignment) == operator_c_name(CppOperator::Division) + seq!['_', 'a', 's', 's', 'i', 'g', 'n'],
        operator_suffix(CppOperator::ModuloAssignment) == Some(operator_suffix(CppOperator::Modulo)->0 + seq!['=']),
        operator_arguments_count(CppOperator::ModuloAssignment) == operator_arguments_count(CppOperator::Modulo),
        operator_c_name(CppOperator::ModuloAssignment) == operator_c_name(CppOperator::Modulo) + seq!['_', 'a', 's', 's', 'i', 'g', 'n'],
        operator_suffix(CppOperator::BitwiseAndAssignment) == Some(operator_suffix(CppOperator::BitwiseAnd)->0 + seq!['=']),
        operator_arguments_count(CppOperator::BitwiseAndAssignment) == operator_arguments_count(CppOperator::BitwiseAnd),
        operator_c_name(CppOperator::BitwiseAndAssignment) == operator_c_name(CppOperator::BitwiseAnd) + seq!['_', 'a', 's', 's', 'i', 'g', 'n'],
        operator_suffix(CppOperator::BitwiseOrAssignment) == Some(operator_suffix(CppOperator::BitwiseOr)->0 + seq!['=']),
        operator_arguments_count(CppOperator::BitwiseOrAssignment) == operator_arguments_count(CppOperator::BitwiseOr),
        operator_c_name(CppOperator::BitwiseOrAssignment) == operator_c_name(CppOperator::BitwiseOr) + seq!['_', 'a', 's', 's', 'i', 'g', 'n'],
        operator_suffix(CppOperator::BitwiseXorAssignment) == Some(operator_suffix(CppOperator::BitwiseXor)->0 + seq!['=']),
        operator_arguments_count(CppOperator::BitwiseXorAssignment) == operator_arguments_count(CppOperator::BitwiseXor),
        operator_c_name(CppOperator::BitwiseXorAssignment) == operator_c_name(CppOperator::BitwiseXor) + seq!['_', 'a', 's', 's', 'i', 'g', 'n'],
        operator_suffix(CppOperator::BitwiseLeftShiftAssignment) == Some(operator_suffix(CppOperator::BitwiseLeftShift)->0 + seq!['=']),
        operator_arguments_count(CppOperator::BitwiseLeftShiftAssignment) == operator_arguments_count(CppOperator::BitwiseLeftShift),
        operator_c_name(CppOperator::BitwiseLeftShiftAssignment) == operator_c_name(CppOperator::BitwiseLeftShift) + seq!['_', 'a', 's', 's', 'i', 'g', 'n'],
        operator_suffix(CppOperator::BitwiseRightShiftAssignment) == Some(operator_suffix(CppOperator::BitwiseRightShift)->0 + seq!['=']),
        operator_arguments_count(CppOperator::BitwiseRightShiftAssignment) == operator_arguments_count(CppOperator::BitwiseRightShift),
        operator_c_name(CppOperator::BitwiseRightShiftAssignment) == operator_c_name(CppOperator::BitwiseRightShift) + seq!['_', 'a', 's', 's', 'i', 'g', 'n'],
        operator_suffix(CppOperator::GreaterThanOrEqualTo) == Some(operator_suffix(CppOperator::GreaterThan)->0 + seq!['=']),
        operator_suffix(CppOperator::LessThanOrEqualTo) == Some(operator_suffix(CppOperator::LessThan)->0 + seq!['=']),
        operator_suffix(CppOperator::PostfixIncrement) == operator_suffix(CppOperator::PrefixIncrement),
        operator_arguments_count(CppOperator::PostfixIncrement) == operator_arguments_count(CppOperator::PrefixIncrement) + 1,
        operator_c_name(CppOperator::PostfixIncrement) == operator_c_name(CppOperator::PrefixIncrement) + seq!['_', 'p', 'o', 's', 't', 'f', 'i', 'x'],
        operator_suffix(CppOperator::PostfixDecrement) == operator_suffix(CppOperator::PrefixDecrement),
        operator_arguments_count(CppOperator::PostfixDecrement) == operator_arguments_count(CppOperator::PrefixDecrement) + 1,
        operator_c_name(CppOperator::PostfixDecrement) == operator_c_name(CppOperator::PrefixDecrement) + seq!['_', 'p', 'o', 's', 't', 'f', 'i', 'x'],
        operator_suffix(CppOperator::NewArray) == Some(operator_suffix(CppOperator::New)->0 + seq!['[', ']']),
        operator_c_name(CppOperator::NewArray) == operator_c_name(CppOperator::New) + seq!['_', 'a', 'r', 'r', 'a', 'y'],
        operator_suffix(CppOperator::DeleteArray) == Some(operator_suffix(CppOperator::Delete)->0 + seq!['[', ']']),
        operator_c_name(CppOperator::DeleteArray) == operator_c_name(CppOperator::Delete) + seq!['_', 'a', 'r', 'r', 'a', 'y'],
{
    law_operator_declaration_forms();
    law_operator_c_names();
}

} // verus!
