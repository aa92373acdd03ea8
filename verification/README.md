# Rust API description rules, verified

A Verus library describing the Rust API that is generated for a C++
library: methods with their arguments and overloads, documentation cross
references, and the table of C++ operators.

- `rust_info`: methods, arguments, scopes, type declarations and modules;
  how a method takes `self`; turning a single-variant method into a general
  one; collecting C++ cross references; the allocation place marker argument.
- `overloads`: the suffixes that tell overloaded methods apart, and whether
  two methods can be overloads of one name.
- `cross_references`: resolving C++ cross references into Rust items.
- `cpp_operators`: every C++ operator, its declaration form and its C name.
- `rust_type`, `cpp_type`, `cpp_ffi_data`, `cpp_method`, `cpp_data`,
  `serializable`: the type and documentation data these rules work on.
- `string_utils`: joining texts and decimal notation.

The behaviour of C++ type matching (`CppType::can_be_the_same_as`) and of
Rust type captions is not part of this library: `can_be_overloaded_with`
and `name_suffix` take their answers as arguments.
