//! The emitter for the systems language: ownership stands for the lifetime
//! of every C object. Each piece of the module is given twice: as the text
//! that it is, and as the function that writes that text.

use vstd::prelude::*;
use vstd::string::*;
use crate::manifest::{Composite, EntryPointModel, ManifestModel};
use crate::plan::{
    Accessor, AccessorModel, Argument, ArgumentModel, ArrayWrapper, ArrayWrapperModel, Bindings,
    BindingsModel, HostType, HostTypeModel, Method, MethodModel, OpaqueWrapper,
    OpaqueWrapperModel, Passing, Wrapper, WrapperModel, argument_name,
};
use crate::text::{
    concat_all, concatenated, decimal, decimal_text, join_all, joined, lemma_decimal_value,
    numeral_value,
};

verus! {

/// The name of the host-side type `t`: a scalar goes by its own name, an
/// array wrapper by its element type and rank, an opaque wrapper by the name
/// of its type.
pub open spec fn rust_type_text(t: HostTypeModel) -> Seq<char> {
    match t {
        HostTypeModel::Scalar(p) => {
            p.rust_name()
        },
        HostTypeModel::Array { elem, rank } => {
            "Array"@
            + elem.tag()
            + "_"@
            + decimal_text(rank)
            + "D"@
        },
        HostTypeModel::Opaque { name } => {
            name
        },
    }
}

/// Writes the name of the host-side type `t`.
pub fn rust_type(t: &HostType) -> (r: String)
    ensures
        r@ == rust_type_text(t.deep_view()),
{
    match t {
        HostType::Scalar(p) => {
            String::from_str(p.rust_type())
        },
        HostType::Array { elem, rank } => {
            let mut out = String::from_str("Array");
            out.append(elem.wrapper_tag());
            out.append("_");
            out.append(decimal(*rank).as_str());
            out.append("D");
            out
        },
        HostType::Opaque { name } => {
            String::from_str(name.as_str())
        },
    }
}

/// How a value of type `t` crosses to the C library: a scalar as itself, a
/// handle as an untyped pointer.
pub open spec fn rust_foreign_type_text(t: HostTypeModel) -> Seq<char> {
    match t {
        HostTypeModel::Scalar(p) => {
            p.rust_name()
        },
        _ => {
            "*mut c_void"@
        },
    }
}

/// Writes the type under which a value of type `t` crosses to the C library.
pub fn rust_foreign_type(t: &HostType) -> (r: String)
    ensures
        r@ == rust_foreign_type_text(t.deep_view()),
{
    match t {
        HostType::Scalar(p) => {
            String::from_str(p.rust_type())
        },
        _ => {
            String::from_str("*mut c_void")
        },
    }
}

/// What a slot for a result of type `t` holds before the C library fills it.
pub open spec fn rust_initial_text(t: HostTypeModel) -> Seq<char> {
    match t {
        HostTypeModel::Scalar(_) => {
            "Default::default()"@
        },
        _ => {
            "std::ptr::null_mut()"@
        },
    }
}

/// Writes the first value of a slot for a result of type `t`.
pub fn rust_initial(t: &HostType) -> (r: String)
    ensures
        r@ == rust_initial_text(t.deep_view()),
{
    match t {
        HostType::Scalar(_) => {
            String::from_str("Default::default()")
        },
        _ => {
            String::from_str("std::ptr::null_mut()")
        },
    }
}

/// The value of type `t` made of what the C library wrote to `var`: a
/// scalar as it is, a handle inside a new wrapper that owns it.
pub open spec fn rust_wrapped_text(t: HostTypeModel, var: Seq<char>) -> Seq<char> {
    match t {
        HostTypeModel::Scalar(_) => {
            var
        },
        _ => {
            rust_type_text(t)
            + " { context: self.context, raw: "@
            + var
            + " }"@
        },
    }
}

/// Writes the value of type `t` made of what the C library wrote to `var`.
pub fn rust_wrapped(t: &HostType, var: &str) -> (r: String)
    ensures
        r@ == rust_wrapped_text(t.deep_view(), var@),
{
    match t {
        HostType::Scalar(_) => {
            String::from_str(var)
        },
        _ => {
            let mut out = rust_type(t);
            out.append(" { context: self.context, raw: ");
            out.append(var);
            out.append(" }");
            out
        },
    }
}

/// The type that the shape accessor of an array wrapper of rank `rank`
/// returns: an array of as many extents as the rank says.
pub open spec fn rust_shape_type_text(rank: nat) -> Seq<char> {
    "[i64; "@
    + decimal_text(rank)
    + "]"@
}

/// Writes the type of the shape of an array of rank `rank`.
pub fn rust_shape_type(rank: u64) -> (r: String)
    ensures
        r@ == rust_shape_type_text(rank as nat),
{
    let mut out = String::from_str("[i64; ");
    out.append(decimal(rank).as_str());
    out.append("]");
    out
}

/// The name of the slot for the result at place `i`.
pub open spec fn rust_slot_text(i: nat) -> Seq<char> {
    "out"@
    + decimal_text(i)
}

/// Writes the name of the slot for the result at place `i`.
pub fn rust_slot(i: usize) -> (r: String)
    ensures
        r@ == rust_slot_text(i as nat),
{
    let mut out = String::from_str("out");
    out.append(decimal(i as u64).as_str());
    out
}

/// An argument in a method's signature. A borrowed one is taken by
/// reference; a copied or consumed one is taken by value, so that a
/// consumed wrapper moves into the call.
pub open spec fn rust_argument_text(a: ArgumentModel) -> Seq<char> {
    ", "@
    + a.name
    + (if a.passing == Passing::Borrowed {
        ": &"@
    } else {
        ": "@
    })
    + rust_type_text(a.ty)
}

/// Writes an argument of a method's signature.
pub fn rust_argument(a: &Argument) -> (r: String)
    ensures
        r@ == rust_argument_text(a.deep_view()),
{
    let mut out = String::from_str(", ");
    out.append(a.name.as_str());
    let part1 = if a.passing == Passing::Borrowed {
        String::from_str(": &")
    } else {
        String::from_str(": ")
    };
    out.append(part1.as_str());
    out.append(rust_type(&a.ty).as_str());
    out
}

/// The names of the types of the results, in their order.
pub open spec fn rust_result_types_text(results: Seq<HostTypeModel>) -> Seq<char> {
    joined(
        Seq::new(
            results.len(),
            |k: int| rust_type_text(results[k]),
        ),
        ", "@,
    )
}

/// Writes the names of the types of the results.
pub fn rust_result_types(results: &Vec<HostType>) -> (r: String)
    ensures
        r@ == rust_result_types_text(results.deep_view()),
{
    let mut parts: Vec<String> = Vec::new();
    let mut i: usize = 0;
    while i < results.len()
        invariant
            i <= results.len(),
            parts.deep_view() == Seq::new(
                i as nat,
                |k: int| rust_type_text(results.deep_view()[k]),
            ),
        decreases results.len() - i,
    {
        let ghost before = parts.deep_view();
        parts.push(rust_type(&results[i]));
        i = i + 1;
        assert(parts.deep_view() =~= before.push(
            rust_type_text(results.deep_view()[i - 1]),
        ));
        assert(parts.deep_view() =~= Seq::new(
            i as nat,
            |k: int| rust_type_text(results.deep_view()[k]),
        ));
    }
    assert(parts.deep_view() =~= Seq::new(
        results.deep_view().len(),
        |k: int| rust_type_text(results.deep_view()[k]),
    ));
    join_all(&parts, ", ")
}

/// The type of what a method returns on success: the one result, or the
/// tuple of the results where there are none or several.
pub open spec fn rust_results_text(results: Seq<HostTypeModel>) -> Seq<char> {
    (if results.len() == 1 {
        rust_type_text(results[0])
    } else {
        "("@
        + rust_result_types_text(results)
        + ")"@
    })
}

/// Writes the type of what a method returns on success.
pub fn rust_results(results: &Vec<HostType>) -> (r: String)
    ensures
        r@ == rust_results_text(results.deep_view()),
{
    if results.len() == 1 {
        rust_type(&results[0])
    } else {
        let mut out = String::from_str("(");
        out.append(rust_result_types(results).as_str());
        out.append(")");
        out
    }
}

/// The arguments in a method's signature, in their order.
pub open spec fn rust_arguments_text(arguments: Seq<ArgumentModel>) -> Seq<char> {
    concatenated(
        Seq::new(
            arguments.len(),
            |k: int| rust_argument_text(arguments[k]),
        ),
    )
}

/// Writes the arguments of a method's signature.
pub fn rust_arguments(arguments: &Vec<Argument>) -> (r: String)
    ensures
        r@ == rust_arguments_text(arguments.deep_view()),
{
    let mut parts: Vec<String> = Vec::new();
    let mut i: usize = 0;
    while i < arguments.len()
        invariant
            i <= arguments.len(),
            parts.deep_view() == Seq::new(
                i as nat,
                |k: int| rust_argument_text(arguments.deep_view()[k]),
            ),
        decreases arguments.len() - i,
    {
        let ghost before = parts.deep_view();
        parts.push(rust_argument(&arguments[i]));
        i = i + 1;
        assert(parts.deep_view() =~= before.push(
            rust_argument_text(arguments.deep_view()[i - 1]),
        ));
        assert(parts.deep_view() =~= Seq::new(
            i as nat,
            |k: int| rust_argument_text(arguments.deep_view()[k]),
        ));
    }
    assert(parts.deep_view() =~= Seq::new(
        arguments.deep_view().len(),
        |k: int| rust_argument_text(arguments.deep_view()[k]),
    ));
    concat_all(&parts)
}

/// The signature of the method for an entry point: it borrows the context,
/// takes one argument for each input and returns the results or an error.
pub open spec fn rust_signature_text(m: MethodModel) -> Seq<char> {
    "pub fn "@
    + m.name
    + "(&self"@
    + rust_arguments_text(m.arguments)
    + ") -> Result<"@
    + rust_results_text(m.results)
    + ", Error>"@
}

/// Writes the signature of a method.
pub fn rust_signature(m: &Method) -> (r: String)
    ensures
        r@ == rust_signature_text(m.deep_view()),
{
    let mut out = String::from_str("pub fn ");
    out.append(m.name.as_str());
    out.append("(&self");
    out.append(rust_arguments(&m.arguments).as_str());
    out.append(") -> Result<");
    out.append(rust_results(&m.results).as_str());
    out.append(", Error>");
    out
}

/// The parameter through which the C function writes the result at place
/// `i`.
pub open spec fn rust_foreign_result_text(t: HostTypeModel, i: nat) -> Seq<char> {
    ", "@
    + rust_slot_text(i)
    + ": *mut "@
    + rust_foreign_type_text(t)
}

/// Writes the parameter of a C function for the result at place `i`.
pub fn rust_foreign_result(t: &HostType, i: usize) -> (r: String)
    ensures
        r@ == rust_foreign_result_text(t.deep_view(), i as nat),
{
    let mut out = String::from_str(", ");
    out.append(rust_slot(i).as_str());
    out.append(": *mut ");
    out.append(rust_foreign_type(t).as_str());
    out
}

/// The parameter through which the C function takes an argument.
pub open spec fn rust_foreign_argument_text(a: ArgumentModel) -> Seq<char> {
    ", "@
    + a.name
    + ": "@
    + rust_foreign_type_text(a.ty)
}

/// Writes the parameter of a C function for an argument.
pub fn rust_foreign_argument(a: &Argument) -> (r: String)
    ensures
        r@ == rust_foreign_argument_text(a.deep_view()),
{
    let mut out = String::from_str(", ");
    out.append(a.name.as_str());
    out.append(": ");
    out.append(rust_foreign_type(&a.ty).as_str());
    out
}

/// The parameters through which a C function writes its results.
pub open spec fn rust_foreign_results_text(results: Seq<HostTypeModel>) -> Seq<char> {
    concatenated(
        Seq::new(
            results.len(),
            |k: int| rust_foreign_result_text(results[k], k as nat),
        ),
    )
}

/// Writes the parameters of a C function for its results.
pub fn rust_foreign_results(results: &Vec<HostType>) -> (r: String)
    ensures
        r@ == rust_foreign_results_text(results.deep_view()),
{
    let mut parts: Vec<String> = Vec::new();
    let mut i: usize = 0;
    while i < results.len()
        invariant
            i <= results.len(),
            parts.deep_view() == Seq::new(
                i as nat,
                |k: int| rust_foreign_result_text(results.deep_view()[k], k as nat),
            ),
        decreases results.len() - i,
    {
        let ghost before = parts.deep_view();
        parts.push(rust_foreign_result(&results[i], i));
        i = i + 1;
        assert(parts.deep_view() =~= before.push(
            rust_foreign_result_text(results.deep_view()[i - 1], (i - 1) as nat),
        ));
        assert(parts.deep_view() =~= Seq::new(
            i as nat,
            |k: int| rust_foreign_result_text(results.deep_view()[k], k as nat),
        ));
    }
    assert(parts.deep_view() =~= Seq::new(
        results.deep_view().len(),
        |k: int| rust_foreign_result_text(results.deep_view()[k], k as nat),
    ));
    concat_all(&parts)
}

/// The parameters through which a C function takes its arguments.
pub open spec fn rust_foreign_arguments_text(arguments: Seq<ArgumentModel>) -> Seq<char> {
    concatenated(
        Seq::new(
            arguments.len(),
            |k: int| rust_foreign_argument_text(arguments[k]),
        ),
    )
}

/// Writes the parameters of a C function for its arguments.
pub fn rust_foreign_arguments(arguments: &Vec<Argument>) -> (r: String)
    ensures
        r@ == rust_foreign_arguments_text(arguments.deep_view()),
{
    let mut parts: Vec<String> = Vec::new();
    let mut i: usize = 0;
    while i < arguments.len()
        invariant
            i <= arguments.len(),
            parts.deep_view() == Seq::new(
                i as nat,
                |k: int| rust_foreign_argument_text(arguments.deep_view()[k]),
            ),
        decreases arguments.len() - i,
    {
        let ghost before = parts.deep_view();
        parts.push(rust_foreign_argument(&arguments[i]));
        i = i + 1;
        assert(parts.deep_view() =~= before.push(
            rust_foreign_argument_text(arguments.deep_view()[i - 1]),
        ));
        assert(parts.deep_view() =~= Seq::new(
            i as nat,
            |k: int| rust_foreign_argument_text(arguments.deep_view()[k]),
        ));
    }
    assert(parts.deep_view() =~= Seq::new(
        arguments.deep_view().len(),
        |k: int| rust_foreign_argument_text(arguments.deep_view()[k]),
    ));
    concat_all(&parts)
}

/// The declaration of the C function behind a method: the context, then
/// the results, then the arguments.
pub open spec fn rust_foreign_entry_text(m: MethodModel) -> Seq<char> {
    "    fn "@
    + m.cfun
    + "(context: *mut c_void"@
    + rust_foreign_results_text(m.results)
    + rust_foreign_arguments_text(m.arguments)
    + ") -> c_int;\n"@
}

/// Writes the declaration of the C function behind a method.
pub fn rust_foreign_entry(m: &Method) -> (r: String)
    ensures
        r@ == rust_foreign_entry_text(m.deep_view()),
{
    let mut out = String::from_str("    fn ");
    out.append(m.cfun.as_str());
    out.append("(context: *mut c_void");
    out.append(rust_foreign_results(&m.results).as_str());
    out.append(rust_foreign_arguments(&m.arguments).as_str());
    out.append(") -> c_int;\n");
    out
}

/// The statement that makes the slot for the result at place `i`.
pub open spec fn rust_result_slot_text(t: HostTypeModel, i: nat) -> Seq<char> {
    "        let mut "@
    + rust_slot_text(i)
    + ": "@
    + rust_foreign_type_text(t)
    + " = "@
    + rust_initial_text(t)
    + ";\n"@
}

/// Writes the statement that makes the slot for the result at place `i`.
pub fn rust_result_slot(t: &HostType, i: usize) -> (r: String)
    ensures
        r@ == rust_result_slot_text(t.deep_view(), i as nat),
{
    let mut out = String::from_str("        let mut ");
    out.append(rust_slot(i).as_str());
    out.append(": ");
    out.append(rust_foreign_type(t).as_str());
    out.append(" = ");
    out.append(rust_initial(t).as_str());
    out.append(";\n");
    out
}

/// What the call hands to the C function for the result at place `i`.
pub open spec fn rust_call_result_text(i: nat) -> Seq<char> {
    ", &mut "@
    + rust_slot_text(i)
}

/// Writes what the call hands to the C function for the result at place `i`.
pub fn rust_call_result(i: usize) -> (r: String)
    ensures
        r@ == rust_call_result_text(i as nat),
{
    let mut out = String::from_str(", &mut ");
    out.append(rust_slot(i).as_str());
    out
}

/// What the call hands to the C function for an argument: a scalar itself,
/// the raw pointer of a wrapper.
pub open spec fn rust_call_argument_text(a: ArgumentModel) -> Seq<char> {
    ", "@
    + a.name
    + (if a.ty.is_handle() {
        ".raw"@
    } else {
        Seq::<char>::empty()
    })
}

/// Writes what the call hands to the C function for an argument.
pub fn rust_call_argument(a: &Argument) -> (r: String)
    ensures
        r@ == rust_call_argument_text(a.deep_view()),
{
    let mut out = String::from_str(", ");
    out.append(a.name.as_str());
    let part1 = if a.ty.handle() {
        String::from_str(".raw")
    } else {
        String::new()
    };
    out.append(part1.as_str());
    out
}

/// The value that the method returns for the result at place `i`.
pub open spec fn rust_result_value_text(t: HostTypeModel, i: nat) -> Seq<char> {
    rust_wrapped_text(t, rust_slot_text(i))
}

/// Writes the value that the method returns for the result at place `i`.
pub fn rust_result_value(t: &HostType, i: usize) -> (r: String)
    ensures
        r@ == rust_result_value_text(t.deep_view(), i as nat),
{
    rust_wrapped(t, rust_slot(i).as_str())
}

/// The values that a method returns, in their order.
pub open spec fn rust_result_value_list_text(results: Seq<HostTypeModel>) -> Seq<char> {
    joined(
        Seq::new(
            results.len(),
            |k: int| rust_result_value_text(results[k], k as nat),
        ),
        ", "@,
    )
}

/// Writes the values that a method returns.
pub fn rust_result_value_list(results: &Vec<HostType>) -> (r: String)
    ensures
        r@ == rust_result_value_list_text(results.deep_view()),
{
    let mut parts: Vec<String> = Vec::new();
    let mut i: usize = 0;
    while i < results.len()
        invariant
            i <= results.len(),
            parts.deep_view() == Seq::new(
                i as nat,
                |k: int| rust_result_value_text(results.deep_view()[k], k as nat),
            ),
        decreases results.len() - i,
    {
        let ghost before = parts.deep_view();
        parts.push(rust_result_value(&results[i], i));
        i = i + 1;
        assert(parts.deep_view() =~= before.push(
            rust_result_value_text(results.deep_view()[i - 1], (i - 1) as nat),
        ));
        assert(parts.deep_view() =~= Seq::new(
            i as nat,
            |k: int| rust_result_value_text(results.deep_view()[k], k as nat),
        ));
    }
    assert(parts.deep_view() =~= Seq::new(
        results.deep_view().len(),
        |k: int| rust_result_value_text(results.deep_view()[k], k as nat),
    ));
    join_all(&parts, ", ")
}

/// What a method returns on success: the one value, or the tuple of the
/// values where there are none or several.
pub open spec fn rust_result_values_text(results: Seq<HostTypeModel>) -> Seq<char> {
    (if results.len() == 1 {
        rust_result_value_text(results[0], 0)
    } else {
        "("@
        + rust_result_value_list_text(results)
        + ")"@
    })
}

/// Writes what a method returns on success.
pub fn rust_result_values(results: &Vec<HostType>) -> (r: String)
    ensures
        r@ == rust_result_values_text(results.deep_view()),
{
    if results.len() == 1 {
        rust_result_value(&results[0], 0)
    } else {
        let mut out = String::from_str("(");
        out.append(rust_result_value_list(results).as_str());
        out.append(")");
        out
    }
}

/// The statements that make the slots for the results.
pub open spec fn rust_result_slots_text(results: Seq<HostTypeModel>) -> Seq<char> {
    concatenated(
        Seq::new(
            results.len(),
            |k: int| rust_result_slot_text(results[k], k as nat),
        ),
    )
}

/// Writes the statements that make the slots for the results.
pub fn rust_result_slots(results: &Vec<HostType>) -> (r: String)
    ensures
        r@ == rust_result_slots_text(results.deep_view()),
{
    let mut parts: Vec<String> = Vec::new();
    let mut i: usize = 0;
    while i < results.len()
        invariant
            i <= results.len(),
            parts.deep_view() == Seq::new(
                i as nat,
                |k: int| rust_result_slot_text(results.deep_view()[k], k as nat),
            ),
        decreases results.len() - i,
    {
        let ghost before = parts.deep_view();
        parts.push(rust_result_slot(&results[i], i));
        i = i + 1;
        assert(parts.deep_view() =~= before.push(
            rust_result_slot_text(results.deep_view()[i - 1], (i - 1) as nat),
        ));
        assert(parts.deep_view() =~= Seq::new(
            i as nat,
            |k: int| rust_result_slot_text(results.deep_view()[k], k as nat),
        ));
    }
    assert(parts.deep_view() =~= Seq::new(
        results.deep_view().len(),
        |k: int| rust_result_slot_text(results.deep_view()[k], k as nat),
    ));
    concat_all(&parts)
}

/// What the call hands to the C function for its `n` results.
pub open spec fn rust_call_results_text(n: nat) -> Seq<char> {
    concatenated(
        Seq::new(
            n,
            |k: int| rust_call_result_text(k as nat),
        ),
    )
}

/// Writes what the call hands to the C function for its `n` results.
pub fn rust_call_results(n: usize) -> (r: String)
    ensures
        r@ == rust_call_results_text(n as nat),
{
    let mut parts: Vec<String> = Vec::new();
    let mut i: usize = 0;
    while i < n
        invariant
            i <= n,
            parts.deep_view() == Seq::new(
                i as nat,
                |k: int| rust_call_result_text(k as nat),
            ),
        decreases n - i,
    {
        let ghost before = parts.deep_view();
        parts.push(rust_call_result(i));
        i = i + 1;
        assert(parts.deep_view() =~= before.push(
            rust_call_result_text((i - 1) as nat),
        ));
        assert(parts.deep_view() =~= Seq::new(
            i as nat,
            |k: int| rust_call_result_text(k as nat),
        ));
    }
    assert(parts.deep_view() =~= Seq::new(
        (n as nat),
        |k: int| rust_call_result_text(k as nat),
    ));
    concat_all(&parts)
}

/// What the call hands to the C function for its arguments.
pub open spec fn rust_call_arguments_text(arguments: Seq<ArgumentModel>) -> Seq<char> {
    concatenated(
        Seq::new(
            arguments.len(),
            |k: int| rust_call_argument_text(arguments[k]),
        ),
    )
}

/// Writes what the call hands to the C function for its arguments.
pub fn rust_call_arguments(arguments: &Vec<Argument>) -> (r: String)
    ensures
        r@ == rust_call_arguments_text(arguments.deep_view()),
{
    let mut parts: Vec<String> = Vec::new();
    let mut i: usize = 0;
    while i < arguments.len()
        invariant
            i <= arguments.len(),
            parts.deep_view() == Seq::new(
                i as nat,
                |k: int| rust_call_argument_text(arguments.deep_view()[k]),
            ),
        decreases arguments.len() - i,
    {
        let ghost before = parts.deep_view();
        parts.push(rust_call_argument(&arguments[i]));
        i = i + 1;
        assert(parts.deep_view() =~= before.push(
            rust_call_argument_text(arguments.deep_view()[i - 1]),
        ));
        assert(parts.deep_view() =~= Seq::new(
            i as nat,
            |k: int| rust_call_argument_text(arguments.deep_view()[k]),
        ));
    }
    assert(parts.deep_view() =~= Seq::new(
        arguments.deep_view().len(),
        |k: int| rust_call_argument_text(arguments.deep_view()[k]),
    ));
    concat_all(&parts)
}

/// The method of the context for an entry point. It calls the C function,
/// reports a failure of the call as an error, synchronises the context
/// where the backend works asynchronously, and only then reads the results.
pub open spec fn rust_method_text(m: MethodModel) -> Seq<char> {
    "\n"@
    + "    /// The entry point `"@
    + m.name
    + "`.\n"@
    + "    "@
    + rust_signature_text(m)
    + " {\n"@
    + rust_result_slots_text(m.results)
    + "        let code = unsafe { "@
    + m.cfun
    + "(self.context"@
    + rust_call_results_text(m.results.len())
    + rust_call_arguments_text(m.arguments)
    + ") };\n"@
    + "        check(self.context, code)?;\n"@
    + (if m.synchronise {
        "        sync(self.context)?;\n"@
    } else {
        Seq::<char>::empty()
    })
    + "        Ok("@
    + rust_result_values_text(m.results)
    + ")\n"@
    + "    }\n"@
}

/// Writes the method of the context for an entry point.
pub fn rust_method(m: &Method) -> (r: String)
    ensures
        r@ == rust_method_text(m.deep_view()),
{
    let mut out = String::from_str("\n");
    out.append("    /// The entry point `");
    out.append(m.name.as_str());
    out.append("`.\n");
    out.append("    ");
    out.append(rust_signature(m).as_str());
    out.append(" {\n");
    out.append(rust_result_slots(&m.results).as_str());
    out.append("        let code = unsafe { ");
    out.append(m.cfun.as_str());
    out.append("(self.context");
    out.append(rust_call_results(m.results.len()).as_str());
    out.append(rust_call_arguments(&m.arguments).as_str());
    out.append(") };\n");
    out.append("        check(self.context, code)?;\n");
    let part1 = if m.synchronise {
        String::from_str("        sync(self.context)?;\n")
    } else {
        String::new()
    };
    out.append(part1.as_str());
    out.append("        Ok(");
    out.append(rust_result_values(&m.results).as_str());
    out.append(")\n");
    out.append("    }\n");
    out
}

/// The parameter through which the C function that makes an array takes
/// the extent of the dimension `i`.
pub open spec fn rust_dimension_text(i: nat) -> Seq<char> {
    ", dim"@
    + decimal_text(i)
    + ": i64"@
}

/// Writes the parameter of a C function for the extent of the dimension `i`.
pub fn rust_dimension(i: u64) -> (r: String)
    ensures
        r@ == rust_dimension_text(i as nat),
{
    let mut out = String::from_str(", dim");
    out.append(decimal(i).as_str());
    out.append(": i64");
    out
}

/// What the call hands to the C function for the extent of the dimension
/// `i`.
pub open spec fn rust_extent_text(i: nat) -> Seq<char> {
    ", shape["@
    + decimal_text(i)
    + "]"@
}

/// Writes what the call hands to the C function for the extent of the
/// dimension `i`.
pub fn rust_extent(i: u64) -> (r: String)
    ensures
        r@ == rust_extent_text(i as nat),
{
    let mut out = String::from_str(", shape[");
    out.append(decimal(i).as_str());
    out.append("]");
    out
}

/// The parameters through which the C function that makes an array of
/// rank `rank` takes the extents.
pub open spec fn rust_dimensions_text(rank: nat) -> Seq<char> {
    concatenated(
        Seq::new(
            rank,
            |k: int| rust_dimension_text(k as nat),
        ),
    )
}

/// Writes the parameters of a C function for the extents of an array of
/// rank `rank`.
pub fn rust_dimensions(rank: u64) -> (r: String)
    ensures
        r@ == rust_dimensions_text(rank as nat),
{
    let mut parts: Vec<String> = Vec::new();
    let mut i: u64 = 0;
    while i < rank
        invariant
            i <= rank,
            parts.deep_view() == Seq::new(
                i as nat,
                |k: int| rust_dimension_text(k as nat),
            ),
        decreases rank - i,
    {
        let ghost before = parts.deep_view();
        parts.push(rust_dimension(i));
        i = i + 1;
        assert(parts.deep_view() =~= before.push(
            rust_dimension_text((i - 1) as nat),
        ));
        assert(parts.deep_view() =~= Seq::new(
            i as nat,
            |k: int| rust_dimension_text(k as nat),
        ));
    }
    assert(parts.deep_view() =~= Seq::new(
        (rank as nat),
        |k: int| rust_dimension_text(k as nat),
    ));
    concat_all(&parts)
}

/// What the call hands to the C function for the extents of an array of
/// rank `rank`.
pub open spec fn rust_extents_text(rank: nat) -> Seq<char> {
    concatenated(
        Seq::new(
            rank,
            |k: int| rust_extent_text(k as nat),
        ),
    )
}

/// Writes what the call hands to the C function for the extents of an array
/// of rank `rank`.
pub fn rust_extents(rank: u64) -> (r: String)
    ensures
        r@ == rust_extents_text(rank as nat),
{
    let mut parts: Vec<String> = Vec::new();
    let mut i: u64 = 0;
    while i < rank
        invariant
            i <= rank,
            parts.deep_view() == Seq::new(
                i as nat,
                |k: int| rust_extent_text(k as nat),
            ),
        decreases rank - i,
    {
        let ghost before = parts.deep_view();
        parts.push(rust_extent(i));
        i = i + 1;
        assert(parts.deep_view() =~= before.push(
            rust_extent_text((i - 1) as nat),
        ));
        assert(parts.deep_view() =~= Seq::new(
            i as nat,
            |k: int| rust_extent_text(k as nat),
        ));
    }
    assert(parts.deep_view() =~= Seq::new(
        (rank as nat),
        |k: int| rust_extent_text(k as nat),
    ));
    concat_all(&parts)
}

/// The declaration of an array wrapper: the C functions that it calls and
/// the type itself.
pub open spec fn rust_array_declaration_text(a: ArrayWrapperModel) -> Seq<char> {
    "extern \"C\" {\n"@
    + "    fn "@
    + a.new
    + "(context: *mut c_void, data: *const "@
    + a.elem.rust_name()
    + rust_dimensions_text(a.rank)
    + ") -> *mut c_void;\n"@
    + "    fn "@
    + a.free
    + "(context: *mut c_void, array: *mut c_void) -> c_int;\n"@
    + "    fn "@
    + a.shape
    + "(context: *mut c_void, array: *mut c_void) -> *const i64;\n"@
    + "    fn "@
    + a.values
    + "(context: *mut c_void, array: *mut c_void, data: *mut "@
    + a.elem.rust_name()
    + ") -> c_int;\n"@
    + "}\n"@
    + "\n"@
    + "/// An array of `"@
    + a.elem.rust_name()
    + "` of rank "@
    + decimal_text(a.rank)
    + ". It owns the C object and frees it when it goes\n"@
    + "/// out of scope.\n"@
    + "pub struct "@
    + rust_type_text(a.host_type())
    + " {\n"@
    + "    context: *mut c_void,\n"@
    + "    raw: *mut c_void,\n"@
    + "}\n"@
    + "\n"@
}

/// Writes the declaration of an array wrapper.
pub fn rust_array_declaration(a: &ArrayWrapper) -> (r: String)
    ensures
        r@ == rust_array_declaration_text(a.deep_view()),
{
    let mut out = String::from_str("extern \"C\" {\n");
    out.append("    fn ");
    out.append(a.new.as_str());
    out.append("(context: *mut c_void, data: *const ");
    out.append(a.elem.rust_type());
    out.append(rust_dimensions(a.rank).as_str());
    out.append(") -> *mut c_void;\n");
    out.append("    fn ");
    out.append(a.free.as_str());
    out.append("(context: *mut c_void, array: *mut c_void) -> c_int;\n");
    out.append("    fn ");
    out.append(a.shape.as_str());
    out.append("(context: *mut c_void, array: *mut c_void) -> *const i64;\n");
    out.append("    fn ");
    out.append(a.values.as_str());
    out.append("(context: *mut c_void, array: *mut c_void, data: *mut ");
    out.append(a.elem.rust_type());
    out.append(") -> c_int;\n");
    out.append("}\n");
    out.append("\n");
    out.append("/// An array of `");
    out.append(a.elem.rust_type());
    out.append("` of rank ");
    out.append(decimal(a.rank).as_str());
    out.append(". It owns the C object and frees it when it goes\n");
    out.append("/// out of scope.\n");
    out.append("pub struct ");
    out.append(rust_type(&a.host_type()).as_str());
    out.append(" {\n");
    out.append("    context: *mut c_void,\n");
    out.append("    raw: *mut c_void,\n");
    out.append("}\n");
    out.append("\n");
    out
}

/// The constructor of an array wrapper. It borrows a slice and copies it
/// into a new array of the shape `shape`, which has one extent for each
/// dimension; where the C library hands out no object, it reports that.
pub open spec fn rust_array_new_text(a: ArrayWrapperModel) -> Seq<char> {
    "    /// Copies `values` into a new array of the shape `shape`.\n"@
    + "    pub fn new(context: &Context, values: &["@
    + a.elem.rust_name()
    + "], shape: "@
    + rust_shape_type_text(a.rank)
    + ") -> Result<Self, Error> {\n"@
    + "        if count(&shape) != Some(values.len()) {\n"@
    + "            return Err(Error::Shape);\n"@
    + "        }\n"@
    + "        let raw = unsafe { "@
    + a.new
    + "(context.context, values.as_ptr()"@
    + rust_extents_text(a.rank)
    + ") };\n"@
    + "        if raw.is_null() {\n"@
    + "            return Err(Error::NullPointer);\n"@
    + "        }\n"@
    + "        Ok("@
    + rust_type_text(a.host_type())
    + " { context: context.context, raw })\n"@
    + "    }\n"@
}

/// Writes the constructor of an array wrapper.
pub fn rust_array_new(a: &ArrayWrapper) -> (r: String)
    ensures
        r@ == rust_array_new_text(a.deep_view()),
{
    let mut out = String::from_str("    /// Copies `values` into a new array of the shape `shape`.\n");
    out.append("    pub fn new(context: &Context, values: &[");
    out.append(a.elem.rust_type());
    out.append("], shape: ");
    out.append(rust_shape_type(a.rank).as_str());
    out.append(") -> Result<Self, Error> {\n");
    out.append("        if count(&shape) != Some(values.len()) {\n");
    out.append("            return Err(Error::Shape);\n");
    out.append("        }\n");
    out.append("        let raw = unsafe { ");
    out.append(a.new.as_str());
    out.append("(context.context, values.as_ptr()");
    out.append(rust_extents(a.rank).as_str());
    out.append(") };\n");
    out.append("        if raw.is_null() {\n");
    out.append("            return Err(Error::NullPointer);\n");
    out.append("        }\n");
    out.append("        Ok(");
    out.append(rust_type(&a.host_type()).as_str());
    out.append(" { context: context.context, raw })\n");
    out.append("    }\n");
    out
}

/// The shape accessor of an array wrapper. It returns an array of fixed
/// length: one extent for each dimension.
pub open spec fn rust_array_shape_text(a: ArrayWrapperModel) -> Seq<char> {
    "    /// The extent of each dimension.\n"@
    + "    pub fn shape(&self) -> "@
    + rust_shape_type_text(a.rank)
    + " {\n"@
    + "        let extents = unsafe { "@
    + a.shape
    + "(self.context, self.raw) };\n"@
    + "        let mut shape = [0i64; "@
    + decimal_text(a.rank)
    + "];\n"@
    + "        for (i, extent) in shape.iter_mut().enumerate() {\n"@
    + "            *extent = unsafe { *extents.add(i) };\n"@
    + "        }\n"@
    + "        shape\n"@
    + "    }\n"@
}

/// Writes the shape accessor of an array wrapper.
pub fn rust_array_shape(a: &ArrayWrapper) -> (r: String)
    ensures
        r@ == rust_array_shape_text(a.deep_view()),
{
    let mut out = String::from_str("    /// The extent of each dimension.\n");
    out.append("    pub fn shape(&self) -> ");
    out.append(rust_shape_type(a.rank).as_str());
    out.append(" {\n");
    out.append("        let extents = unsafe { ");
    out.append(a.shape.as_str());
    out.append("(self.context, self.raw) };\n");
    out.append("        let mut shape = [0i64; ");
    out.append(decimal(a.rank).as_str());
    out.append("];\n");
    out.append("        for (i, extent) in shape.iter_mut().enumerate() {\n");
    out.append("            *extent = unsafe { *extents.add(i) };\n");
    out.append("        }\n");
    out.append("        shape\n");
    out.append("    }\n");
    out
}

/// The accessor that copies the elements of an array out. It borrows the
/// destination mutably.
pub open spec fn rust_array_values_text(a: ArrayWrapperModel) -> Seq<char> {
    "    /// Copies the elements into `dest`.\n"@
    + "    pub fn values(&self, dest: &mut ["@
    + a.elem.rust_name()
    + "]) -> Result<(), Error> {\n"@
    + "        if count(&self.shape()) != Some(dest.len()) {\n"@
    + "            return Err(Error::Shape);\n"@
    + "        }\n"@
    + "        let code = unsafe { "@
    + a.values
    + "(self.context, self.raw, dest.as_mut_ptr()) };\n"@
    + "        check(self.context, code)?;\n"@
    + "        sync(self.context)\n"@
    + "    }\n"@
}

/// Writes the accessor that copies the elements of an array out.
pub fn rust_array_values(a: &ArrayWrapper) -> (r: String)
    ensures
        r@ == rust_array_values_text(a.deep_view()),
{
    let mut out = String::from_str("    /// Copies the elements into `dest`.\n");
    out.append("    pub fn values(&self, dest: &mut [");
    out.append(a.elem.rust_type());
    out.append("]) -> Result<(), Error> {\n");
    out.append("        if count(&self.shape()) != Some(dest.len()) {\n");
    out.append("            return Err(Error::Shape);\n");
    out.append("        }\n");
    out.append("        let code = unsafe { ");
    out.append(a.values.as_str());
    out.append("(self.context, self.raw, dest.as_mut_ptr()) };\n");
    out.append("        check(self.context, code)?;\n");
    out.append("        sync(self.context)\n");
    out.append("    }\n");
    out
}

/// The methods of an array wrapper: `new` copies a slice in, `shape`
/// returns the extents, `values` copies the elements out, and the wrapper
/// frees the C object when it is dropped.
pub open spec fn rust_array_definition_text(a: ArrayWrapperModel) -> Seq<char> {
    "impl "@
    + rust_type_text(a.host_type())
    + " {\n"@
    + rust_array_new_text(a)
    + "\n"@
    + rust_array_shape_text(a)
    + "\n"@
    + rust_array_values_text(a)
    + "}\n"@
    + "\n"@
    + "impl Drop for "@
    + rust_type_text(a.host_type())
    + " {\n"@
    + "    fn drop(&mut self) {\n"@
    + "        unsafe {\n"@
    + "            "@
    + a.free
    + "(self.context, self.raw);\n"@
    + "        }\n"@
    + "    }\n"@
    + "}\n"@
    + "\n"@
}

/// Writes the methods of an array wrapper.
pub fn rust_array_definition(a: &ArrayWrapper) -> (r: String)
    ensures
        r@ == rust_array_definition_text(a.deep_view()),
{
    let mut out = String::from_str("impl ");
    out.append(rust_type(&a.host_type()).as_str());
    out.append(" {\n");
    out.append(rust_array_new(a).as_str());
    out.append("\n");
    out.append(rust_array_shape(a).as_str());
    out.append("\n");
    out.append(rust_array_values(a).as_str());
    out.append("}\n");
    out.append("\n");
    out.append("impl Drop for ");
    out.append(rust_type(&a.host_type()).as_str());
    out.append(" {\n");
    out.append("    fn drop(&mut self) {\n");
    out.append("        unsafe {\n");
    out.append("            ");
    out.append(a.free.as_str());
    out.append("(self.context, self.raw);\n");
    out.append("        }\n");
    out.append("    }\n");
    out.append("}\n");
    out.append("\n");
    out
}

/// The declaration of the C function behind an accessor.
pub open spec fn rust_foreign_accessor_text(p: AccessorModel) -> Seq<char> {
    "    fn "@
    + p.project
    + "(context: *mut c_void, out: *mut "@
    + rust_foreign_type_text(p.ty)
    + ", value: *const c_void) -> c_int;\n"@
}

/// Writes the declaration of the C function behind an accessor.
pub fn rust_foreign_accessor(p: &Accessor) -> (r: String)
    ensures
        r@ == rust_foreign_accessor_text(p.deep_view()),
{
    let mut out = String::from_str("    fn ");
    out.append(p.project.as_str());
    out.append("(context: *mut c_void, out: *mut ");
    out.append(rust_foreign_type(&p.ty).as_str());
    out.append(", value: *const c_void) -> c_int;\n");
    out
}

/// An accessor of an opaque wrapper. It borrows the wrapper and returns
/// the part as a new value that the caller owns.
pub open spec fn rust_accessor_text(p: AccessorModel) -> Seq<char> {
    "\n"@
    + "    /// The part `"@
    + p.name
    + "`, as a new value that the caller owns.\n"@
    + "    pub fn "@
    + p.name
    + "(&self) -> Result<"@
    + rust_type_text(p.ty)
    + ", Error> {\n"@
    + "        let mut out: "@
    + rust_foreign_type_text(p.ty)
    + " = "@
    + rust_initial_text(p.ty)
    + ";\n"@
    + "        let code = unsafe { "@
    + p.project
    + "(self.context, &mut out, self.raw) };\n"@
    + "        check(self.context, code)?;\n"@
    + "        Ok("@
    + rust_wrapped_text(p.ty, "out"@)
    + ")\n"@
    + "    }\n"@
}

/// Writes an accessor of an opaque wrapper.
pub fn rust_accessor(p: &Accessor) -> (r: String)
    ensures
        r@ == rust_accessor_text(p.deep_view()),
{
    let mut out = String::from_str("\n");
    out.append("    /// The part `");
    out.append(p.name.as_str());
    out.append("`, as a new value that the caller owns.\n");
    out.append("    pub fn ");
    out.append(p.name.as_str());
    out.append("(&self) -> Result<");
    out.append(rust_type(&p.ty).as_str());
    out.append(", Error> {\n");
    out.append("        let mut out: ");
    out.append(rust_foreign_type(&p.ty).as_str());
    out.append(" = ");
    out.append(rust_initial(&p.ty).as_str());
    out.append(";\n");
    out.append("        let code = unsafe { ");
    out.append(p.project.as_str());
    out.append("(self.context, &mut out, self.raw) };\n");
    out.append("        check(self.context, code)?;\n");
    out.append("        Ok(");
    out.append(rust_wrapped(&p.ty, "out").as_str());
    out.append(")\n");
    out.append("    }\n");
    out
}

/// The declarations of the C functions behind the accessors.
pub open spec fn rust_foreign_accessors_text(accessors: Seq<AccessorModel>) -> Seq<char> {
    concatenated(
        Seq::new(
            accessors.len(),
            |k: int| rust_foreign_accessor_text(accessors[k]),
        ),
    )
}

/// Writes the declarations of the C functions behind the accessors.
pub fn rust_foreign_accessors(accessors: &Vec<Accessor>) -> (r: String)
    ensures
        r@ == rust_foreign_accessors_text(accessors.deep_view()),
{
    let mut parts: Vec<String> = Vec::new();
    let mut i: usize = 0;
    while i < accessors.len()
        invariant
            i <= accessors.len(),
            parts.deep_view() == Seq::new(
                i as nat,
                |k: int| rust_foreign_accessor_text(accessors.deep_view()[k]),
            ),
        decreases accessors.len() - i,
    {
        let ghost before = parts.deep_view();
        parts.push(rust_foreign_accessor(&accessors[i]));
        i = i + 1;
        assert(parts.deep_view() =~= before.push(
            rust_foreign_accessor_text(accessors.deep_view()[i - 1]),
        ));
        assert(parts.deep_view() =~= Seq::new(
            i as nat,
            |k: int| rust_foreign_accessor_text(accessors.deep_view()[k]),
        ));
    }
    assert(parts.deep_view() =~= Seq::new(
        accessors.deep_view().len(),
        |k: int| rust_foreign_accessor_text(accessors.deep_view()[k]),
    ));
    concat_all(&parts)
}

/// The accessors of an opaque wrapper, in the order of the projections.
pub open spec fn rust_accessors_text(accessors: Seq<AccessorModel>) -> Seq<char> {
    concatenated(
        Seq::new(
            accessors.len(),
            |k: int| rust_accessor_text(accessors[k]),
        ),
    )
}

/// Writes the accessors of an opaque wrapper.
pub fn rust_accessors(accessors: &Vec<Accessor>) -> (r: String)
    ensures
        r@ == rust_accessors_text(accessors.deep_view()),
{
    let mut parts: Vec<String> = Vec::new();
    let mut i: usize = 0;
    while i < accessors.len()
        invariant
            i <= accessors.len(),
            parts.deep_view() == Seq::new(
                i as nat,
                |k: int| rust_accessor_text(accessors.deep_view()[k]),
            ),
        decreases accessors.len() - i,
    {
        let ghost before = parts.deep_view();
        parts.push(rust_accessor(&accessors[i]));
        i = i + 1;
        assert(parts.deep_view() =~= before.push(
            rust_accessor_text(accessors.deep_view()[i - 1]),
        ));
        assert(parts.deep_view() =~= Seq::new(
            i as nat,
            |k: int| rust_accessor_text(accessors.deep_view()[k]),
        ));
    }
    assert(parts.deep_view() =~= Seq::new(
        accessors.deep_view().len(),
        |k: int| rust_accessor_text(accessors.deep_view()[k]),
    ));
    concat_all(&parts)
}

/// What the documentation of an opaque wrapper says of the value behind it.
pub open spec fn rust_composite_note_text(c: Composite) -> Seq<char> {
    match c {
        Composite::Plain => {
            "An opaque value."@
        },
        Composite::Record => {
            "A record: each accessor reads a field."@
        },
        Composite::Sum => {
            "A sum: each accessor reads a constructor."@
        },
    }
}

/// Writes what the documentation of an opaque wrapper says of the value
/// behind it.
pub fn rust_composite_note(c: Composite) -> (r: String)
    ensures
        r@ == rust_composite_note_text(c),
{
    match c {
        Composite::Plain => {
            String::from_str("An opaque value.")
        },
        Composite::Record => {
            String::from_str("A record: each accessor reads a field.")
        },
        Composite::Sum => {
            String::from_str("A sum: each accessor reads a constructor.")
        },
    }
}

/// The declaration of an opaque wrapper: the C functions that it calls and
/// the type itself.
pub open spec fn rust_opaque_declaration_text(o: OpaqueWrapperModel) -> Seq<char> {
    "extern \"C\" {\n"@
    + "    fn "@
    + o.free
    + "(context: *mut c_void, value: *mut c_void) -> c_int;\n"@
    + "    fn "@
    + o.store
    + "(context: *mut c_void, value: *const c_void, bytes: *mut *mut c_void, size: *mut usize) -> c_int;\n"@
    + "    fn "@
    + o.restore
    + "(context: *mut c_void, bytes: *const c_void) -> *mut c_void;\n"@
    + rust_foreign_accessors_text(o.accessors)
    + "}\n"@
    + "\n"@
    + "/// "@
    + rust_composite_note_text(o.composite)
    + " It owns the C object and frees it when it goes out of\n"@
    + "/// scope.\n"@
    + "pub struct "@
    + o.name
    + " {\n"@
    + "    context: *mut c_void,\n"@
    + "    raw: *mut c_void,\n"@
    + "}\n"@
    + "\n"@
}

/// Writes the declaration of an opaque wrapper.
pub fn rust_opaque_declaration(o: &OpaqueWrapper) -> (r: String)
    ensures
        r@ == rust_opaque_declaration_text(o.deep_view()),
{
    let mut out = String::from_str("extern \"C\" {\n");
    out.append("    fn ");
    out.append(o.free.as_str());
    out.append("(context: *mut c_void, value: *mut c_void) -> c_int;\n");
    out.append("    fn ");
    out.append(o.store.as_str());
    out.append("(context: *mut c_void, value: *const c_void, bytes: *mut *mut c_void, size: *mut usize) -> c_int;\n");
    out.append("    fn ");
    out.append(o.restore.as_str());
    out.append("(context: *mut c_void, bytes: *const c_void) -> *mut c_void;\n");
    out.append(rust_foreign_accessors(&o.accessors).as_str());
    out.append("}\n");
    out.append("\n");
    out.append("/// ");
    out.append(rust_composite_note(o.composite).as_str());
    out.append(" It owns the C object and frees it when it goes out of\n");
    out.append("/// scope.\n");
    out.append("pub struct ");
    out.append(o.name.as_str());
    out.append(" {\n");
    out.append("    context: *mut c_void,\n");
    out.append("    raw: *mut c_void,\n");
    out.append("}\n");
    out.append("\n");
    out
}

/// The methods of an opaque wrapper: `store` writes the value as bytes,
/// `restore` reads it back, each accessor hands out a part, and the wrapper
/// frees the C object when it is dropped.
pub open spec fn rust_opaque_definition_text(o: OpaqueWrapperModel) -> Seq<char> {
    "impl "@
    + o.name
    + " {\n"@
    + "    /// Writes the value as bytes.\n"@
    + "    pub fn store(&self) -> Result<Vec<u8>, Error> {\n"@
    + "        let mut bytes: *mut c_void = std::ptr::null_mut();\n"@
    + "        let mut size: usize = 0;\n"@
    + "        let code = unsafe { "@
    + o.store
    + "(self.context, self.raw, &mut bytes, &mut size) };\n"@
    + "        check(self.context, code)?;\n"@
    + "        let stored = unsafe { std::slice::from_raw_parts(bytes as *const u8, size) }.to_vec();\n"@
    + "        unsafe { free(bytes) };\n"@
    + "        Ok(stored)\n"@
    + "    }\n"@
    + "\n"@
    + "    /// Reads back a value that `store` wrote.\n"@
    + "    pub fn restore(context: &Context, bytes: &[u8]) -> Result<Self, Error> {\n"@
    + "        let raw = unsafe { "@
    + o.restore
    + "(context.context, bytes.as_ptr() as *const c_void) };\n"@
    + "        if raw.is_null() {\n"@
    + "            return Err(Error::NullPointer);\n"@
    + "        }\n"@
    + "        Ok("@
    + o.name
    + " { context: context.context, raw })\n"@
    + "    }\n"@
    + rust_accessors_text(o.accessors)
    + "}\n"@
    + "\n"@
    + "impl Drop for "@
    + o.name
    + " {\n"@
    + "    fn drop(&mut self) {\n"@
    + "        unsafe {\n"@
    + "            "@
    + o.free
    + "(self.context, self.raw);\n"@
    + "        }\n"@
    + "    }\n"@
    + "}\n"@
    + "\n"@
}

/// Writes the methods of an opaque wrapper.
pub fn rust_opaque_definition(o: &OpaqueWrapper) -> (r: String)
    ensures
        r@ == rust_opaque_definition_text(o.deep_view()),
{
    let mut out = String::from_str("impl ");
    out.append(o.name.as_str());
    out.append(" {\n");
    out.append("    /// Writes the value as bytes.\n");
    out.append("    pub fn store(&self) -> Result<Vec<u8>, Error> {\n");
    out.append("        let mut bytes: *mut c_void = std::ptr::null_mut();\n");
    out.append("        let mut size: usize = 0;\n");
    out.append("        let code = unsafe { ");
    out.append(o.store.as_str());
    out.append("(self.context, self.raw, &mut bytes, &mut size) };\n");
    out.append("        check(self.context, code)?;\n");
    out.append("        let stored = unsafe { std::slice::from_raw_parts(bytes as *const u8, size) }.to_vec();\n");
    out.append("        unsafe { free(bytes) };\n");
    out.append("        Ok(stored)\n");
    out.append("    }\n");
    out.append("\n");
    out.append("    /// Reads back a value that `store` wrote.\n");
    out.append("    pub fn restore(context: &Context, bytes: &[u8]) -> Result<Self, Error> {\n");
    out.append("        let raw = unsafe { ");
    out.append(o.restore.as_str());
    out.append("(context.context, bytes.as_ptr() as *const c_void) };\n");
    out.append("        if raw.is_null() {\n");
    out.append("            return Err(Error::NullPointer);\n");
    out.append("        }\n");
    out.append("        Ok(");
    out.append(o.name.as_str());
    out.append(" { context: context.context, raw })\n");
    out.append("    }\n");
    out.append(rust_accessors(&o.accessors).as_str());
    out.append("}\n");
    out.append("\n");
    out.append("impl Drop for ");
    out.append(o.name.as_str());
    out.append(" {\n");
    out.append("    fn drop(&mut self) {\n");
    out.append("        unsafe {\n");
    out.append("            ");
    out.append(o.free.as_str());
    out.append("(self.context, self.raw);\n");
    out.append("        }\n");
    out.append("    }\n");
    out.append("}\n");
    out.append("\n");
    out
}

/// The declaration of a wrapper.
pub open spec fn rust_declaration_text(w: WrapperModel) -> Seq<char> {
    match w {
        WrapperModel::Array(a) => {
            rust_array_declaration_text(a)
        },
        WrapperModel::Opaque(o) => {
            rust_opaque_declaration_text(o)
        },
    }
}

/// Writes the declaration of a wrapper.
pub fn rust_declaration(w: &Wrapper) -> (r: String)
    ensures
        r@ == rust_declaration_text(w.deep_view()),
{
    match w {
        Wrapper::Array(a) => {
            rust_array_declaration(a)
        },
        Wrapper::Opaque(o) => {
            rust_opaque_declaration(o)
        },
    }
}

/// The methods of a wrapper.
pub open spec fn rust_definition_text(w: WrapperModel) -> Seq<char> {
    match w {
        WrapperModel::Array(a) => {
            rust_array_definition_text(a)
        },
        WrapperModel::Opaque(o) => {
            rust_opaque_definition_text(o)
        },
    }
}

/// Writes the methods of a wrapper.
pub fn rust_definition(w: &Wrapper) -> (r: String)
    ensures
        r@ == rust_definition_text(w.deep_view()),
{
    match w {
        Wrapper::Array(a) => {
            rust_array_definition(a)
        },
        Wrapper::Opaque(o) => {
            rust_opaque_definition(o)
        },
    }
}

/// The declarations of the wrappers, in the order of the types' names.
pub open spec fn rust_declarations_text(wrappers: Seq<WrapperModel>) -> Seq<char> {
    concatenated(
        Seq::new(
            wrappers.len(),
            |k: int| rust_declaration_text(wrappers[k]),
        ),
    )
}

/// Writes the declarations of the wrappers.
pub fn rust_declarations(wrappers: &Vec<Wrapper>) -> (r: String)
    ensures
        r@ == rust_declarations_text(wrappers.deep_view()),
{
    let mut parts: Vec<String> = Vec::new();
    let mut i: usize = 0;
    while i < wrappers.len()
        invariant
            i <= wrappers.len(),
            parts.deep_view() == Seq::new(
                i as nat,
                |k: int| rust_declaration_text(wrappers.deep_view()[k]),
            ),
        decreases wrappers.len() - i,
    {
        let ghost before = parts.deep_view();
        parts.push(rust_declaration(&wrappers[i]));
        i = i + 1;
        assert(parts.deep_view() =~= before.push(
            rust_declaration_text(wrappers.deep_view()[i - 1]),
        ));
        assert(parts.deep_view() =~= Seq::new(
            i as nat,
            |k: int| rust_declaration_text(wrappers.deep_view()[k]),
        ));
    }
    assert(parts.deep_view() =~= Seq::new(
        wrappers.deep_view().len(),
        |k: int| rust_declaration_text(wrappers.deep_view()[k]),
    ));
    concat_all(&parts)
}

/// The methods of the wrappers, in the order of the types' names.
pub open spec fn rust_definitions_text(wrappers: Seq<WrapperModel>) -> Seq<char> {
    concatenated(
        Seq::new(
            wrappers.len(),
            |k: int| rust_definition_text(wrappers[k]),
        ),
    )
}

/// Writes the methods of the wrappers.
pub fn rust_definitions(wrappers: &Vec<Wrapper>) -> (r: String)
    ensures
        r@ == rust_definitions_text(wrappers.deep_view()),
{
    let mut parts: Vec<String> = Vec::new();
    let mut i: usize = 0;
    while i < wrappers.len()
        invariant
            i <= wrappers.len(),
            parts.deep_view() == Seq::new(
                i as nat,
                |k: int| rust_definition_text(wrappers.deep_view()[k]),
            ),
        decreases wrappers.len() - i,
    {
        let ghost before = parts.deep_view();
        parts.push(rust_definition(&wrappers[i]));
        i = i + 1;
        assert(parts.deep_view() =~= before.push(
            rust_definition_text(wrappers.deep_view()[i - 1]),
        ));
        assert(parts.deep_view() =~= Seq::new(
            i as nat,
            |k: int| rust_definition_text(wrappers.deep_view()[k]),
        ));
    }
    assert(parts.deep_view() =~= Seq::new(
        wrappers.deep_view().len(),
        |k: int| rust_definition_text(wrappers.deep_view()[k]),
    ));
    concat_all(&parts)
}

/// The declarations of the C functions behind the methods of the context.
pub open spec fn rust_foreign_entries_text(methods: Seq<MethodModel>) -> Seq<char> {
    concatenated(
        Seq::new(
            methods.len(),
            |k: int| rust_foreign_entry_text(methods[k]),
        ),
    )
}

/// Writes the declarations of the C functions behind the methods of the
/// context.
pub fn rust_foreign_entries(methods: &Vec<Method>) -> (r: String)
    ensures
        r@ == rust_foreign_entries_text(methods.deep_view()),
{
    let mut parts: Vec<String> = Vec::new();
    let mut i: usize = 0;
    while i < methods.len()
        invariant
            i <= methods.len(),
            parts.deep_view() == Seq::new(
                i as nat,
                |k: int| rust_foreign_entry_text(methods.deep_view()[k]),
            ),
        decreases methods.len() - i,
    {
        let ghost before = parts.deep_view();
        parts.push(rust_foreign_entry(&methods[i]));
        i = i + 1;
        assert(parts.deep_view() =~= before.push(
            rust_foreign_entry_text(methods.deep_view()[i - 1]),
        ));
        assert(parts.deep_view() =~= Seq::new(
            i as nat,
            |k: int| rust_foreign_entry_text(methods.deep_view()[k]),
        ));
    }
    assert(parts.deep_view() =~= Seq::new(
        methods.deep_view().len(),
        |k: int| rust_foreign_entry_text(methods.deep_view()[k]),
    ));
    concat_all(&parts)
}

/// The methods of the context, in the order of the entry points' names.
pub open spec fn rust_methods_text(methods: Seq<MethodModel>) -> Seq<char> {
    concatenated(
        Seq::new(
            methods.len(),
            |k: int| rust_method_text(methods[k]),
        ),
    )
}

/// Writes the methods of the context.
pub fn rust_methods(methods: &Vec<Method>) -> (r: String)
    ensures
        r@ == rust_methods_text(methods.deep_view()),
{
    let mut parts: Vec<String> = Vec::new();
    let mut i: usize = 0;
    while i < methods.len()
        invariant
            i <= methods.len(),
            parts.deep_view() == Seq::new(
                i as nat,
                |k: int| rust_method_text(methods.deep_view()[k]),
            ),
        decreases methods.len() - i,
    {
        let ghost before = parts.deep_view();
        parts.push(rust_method(&methods[i]));
        i = i + 1;
        assert(parts.deep_view() =~= before.push(
            rust_method_text(methods.deep_view()[i - 1]),
        ));
        assert(parts.deep_view() =~= Seq::new(
            i as nat,
            |k: int| rust_method_text(methods.deep_view()[k]),
        ));
    }
    assert(parts.deep_view() =~= Seq::new(
        methods.deep_view().len(),
        |k: int| rust_method_text(methods.deep_view()[k]),
    ));
    concat_all(&parts)
}

/// What every module of bindings holds, whatever the manifest: the error
/// type, and the context, which owns the state of the C library.
pub open spec fn rust_prelude_text() -> Seq<char> {
    "use std::ffi::{c_char, c_int, c_void, CStr};\n"@
    + "\n"@
    + "/// A failure that the bindings report.\n"@
    + "#[derive(Debug)]\n"@
    + "pub enum Error {\n"@
    + "    /// The C library reported a failure, with this message.\n"@
    + "    Backend(String),\n"@
    + "    /// The C library handed out no object.\n"@
    + "    NullPointer,\n"@
    + "    /// A buffer does not hold as many elements as the shape asks for.\n"@
    + "    Shape,\n"@
    + "}\n"@
    + "\n"@
    + "extern \"C\" {\n"@
    + "    fn futhark_context_config_new() -> *mut c_void;\n"@
    + "    fn futhark_context_config_free(config: *mut c_void);\n"@
    + "    fn futhark_context_new(config: *mut c_void) -> *mut c_void;\n"@
    + "    fn futhark_context_free(context: *mut c_void);\n"@
    + "    fn futhark_context_sync(context: *mut c_void) -> c_int;\n"@
    + "    fn futhark_context_get_error(context: *mut c_void) -> *mut c_char;\n"@
    + "    fn free(pointer: *mut c_void);\n"@
    + "}\n"@
    + "\n"@
    + "fn check(context: *mut c_void, code: c_int) -> Result<(), Error> {\n"@
    + "    if code == 0 {\n"@
    + "        return Ok(());\n"@
    + "    }\n"@
    + "    let text = unsafe { futhark_context_get_error(context) };\n"@
    + "    if text.is_null() {\n"@
    + "        return Err(Error::Backend(String::new()));\n"@
    + "    }\n"@
    + "    let message = unsafe { CStr::from_ptr(text) }.to_string_lossy().into_owned();\n"@
    + "    unsafe { free(text as *mut c_void) };\n"@
    + "    Err(Error::Backend(message))\n"@
    + "}\n"@
    + "\n"@
    + "fn sync(context: *mut c_void) -> Result<(), Error> {\n"@
    + "    let code = unsafe { futhark_context_sync(context) };\n"@
    + "    check(context, code)\n"@
    + "}\n"@
    + "\n"@
    + "fn count(shape: &[i64]) -> Option<usize> {\n"@
    + "    let mut total: usize = 1;\n"@
    + "    for extent in shape {\n"@
    + "        total = total.checked_mul(usize::try_from(*extent).ok()?)?;\n"@
    + "    }\n"@
    + "    Some(total)\n"@
    + "}\n"@
    + "\n"@
    + "/// The state of the C library. It owns the C context and its configuration\n"@
    + "/// and frees both, the context first, when it goes out of scope. It holds\n"@
    + "/// raw pointers, so it is neither `Send` nor `Sync`.\n"@
    + "pub struct Context {\n"@
    + "    config: *mut c_void,\n"@
    + "    context: *mut c_void,\n"@
    + "}\n"@
    + "\n"@
    + "impl Context {\n"@
    + "    /// Makes a context with the default configuration.\n"@
    + "    pub fn new() -> Result<Context, Error> {\n"@
    + "        let config = unsafe { futhark_context_config_new() };\n"@
    + "        if config.is_null() {\n"@
    + "            return Err(Error::NullPointer);\n"@
    + "        }\n"@
    + "        let context = unsafe { futhark_context_new(config) };\n"@
    + "        if context.is_null() {\n"@
    + "            unsafe { futhark_context_config_free(config) };\n"@
    + "            return Err(Error::NullPointer);\n"@
    + "        }\n"@
    + "        Ok(Context { config, context })\n"@
    + "    }\n"@
    + "\n"@
    + "    /// Waits until the work handed to the backend is done.\n"@
    + "    pub fn sync(&self) -> Result<(), Error> {\n"@
    + "        sync(self.context)\n"@
    + "    }\n"@
    + "}\n"@
    + "\n"@
    + "impl Drop for Context {\n"@
    + "    fn drop(&mut self) {\n"@
    + "        unsafe {\n"@
    + "            futhark_context_free(self.context);\n"@
    + "            futhark_context_config_free(self.config);\n"@
    + "        }\n"@
    + "    }\n"@
    + "}\n"@
    + "\n"@
}

/// Writes what every module of bindings holds.
pub fn rust_prelude() -> (r: String)
    ensures
        r@ == rust_prelude_text(),
{
    let mut out = String::from_str("use std::ffi::{c_char, c_int, c_void, CStr};\n");
    out.append("\n");
    out.append("/// A failure that the bindings report.\n");
    out.append("#[derive(Debug)]\n");
    out.append("pub enum Error {\n");
    out.append("    /// The C library reported a failure, with this message.\n");
    out.append("    Backend(String),\n");
    out.append("    /// The C library handed out no object.\n");
    out.append("    NullPointer,\n");
    out.append("    /// A buffer does not hold as many elements as the shape asks for.\n");
    out.append("    Shape,\n");
    out.append("}\n");
    out.append("\n");
    out.append("extern \"C\" {\n");
    out.append("    fn futhark_context_config_new() -> *mut c_void;\n");
    out.append("    fn futhark_context_config_free(config: *mut c_void);\n");
    out.append("    fn futhark_context_new(config: *mut c_void) -> *mut c_void;\n");
    out.append("    fn futhark_context_free(context: *mut c_void);\n");
    out.append("    fn futhark_context_sync(context: *mut c_void) -> c_int;\n");
    out.append("    fn futhark_context_get_error(context: *mut c_void) -> *mut c_char;\n");
    out.append("    fn free(pointer: *mut c_void);\n");
    out.append("}\n");
    out.append("\n");
    out.append("fn check(context: *mut c_void, code: c_int) -> Result<(), Error> {\n");
    out.append("    if code == 0 {\n");
    out.append("        return Ok(());\n");
    out.append("    }\n");
    out.append("    let text = unsafe { futhark_context_get_error(context) };\n");
    out.append("    if text.is_null() {\n");
    out.append("        return Err(Error::Backend(String::new()));\n");
    out.append("    }\n");
    out.append("    let message = unsafe { CStr::from_ptr(text) }.to_string_lossy().into_owned();\n");
    out.append("    unsafe { free(text as *mut c_void) };\n");
    out.append("    Err(Error::Backend(message))\n");
    out.append("}\n");
    out.append("\n");
    out.append("fn sync(context: *mut c_void) -> Result<(), Error> {\n");
    out.append("    let code = unsafe { futhark_context_sync(context) };\n");
    out.append("    check(context, code)\n");
    out.append("}\n");
    out.append("\n");
    out.append("fn count(shape: &[i64]) -> Option<usize> {\n");
    out.append("    let mut total: usize = 1;\n");
    out.append("    for extent in shape {\n");
    out.append("        total = total.checked_mul(usize::try_from(*extent).ok()?)?;\n");
    out.append("    }\n");
    out.append("    Some(total)\n");
    out.append("}\n");
    out.append("\n");
    out.append("/// The state of the C library. It owns the C context and its configuration\n");
    out.append("/// and frees both, the context first, when it goes out of scope. It holds\n");
    out.append("/// raw pointers, so it is neither `Send` nor `Sync`.\n");
    out.append("pub struct Context {\n");
    out.append("    config: *mut c_void,\n");
    out.append("    context: *mut c_void,\n");
    out.append("}\n");
    out.append("\n");
    out.append("impl Context {\n");
    out.append("    /// Makes a context with the default configuration.\n");
    out.append("    pub fn new() -> Result<Context, Error> {\n");
    out.append("        let config = unsafe { futhark_context_config_new() };\n");
    out.append("        if config.is_null() {\n");
    out.append("            return Err(Error::NullPointer);\n");
    out.append("        }\n");
    out.append("        let context = unsafe { futhark_context_new(config) };\n");
    out.append("        if context.is_null() {\n");
    out.append("            unsafe { futhark_context_config_free(config) };\n");
    out.append("            return Err(Error::NullPointer);\n");
    out.append("        }\n");
    out.append("        Ok(Context { config, context })\n");
    out.append("    }\n");
    out.append("\n");
    out.append("    /// Waits until the work handed to the backend is done.\n");
    out.append("    pub fn sync(&self) -> Result<(), Error> {\n");
    out.append("        sync(self.context)\n");
    out.append("    }\n");
    out.append("}\n");
    out.append("\n");
    out.append("impl Drop for Context {\n");
    out.append("    fn drop(&mut self) {\n");
    out.append("        unsafe {\n");
    out.append("            futhark_context_free(self.context);\n");
    out.append("            futhark_context_config_free(self.config);\n");
    out.append("        }\n");
    out.append("    }\n");
    out.append("}\n");
    out.append("\n");
    out
}

/// The first lines of the module: its name, and the attributes that keep
/// the compiler quiet about it where they are wanted.
pub open spec fn rust_header_text(module: Seq<char>, attributes: bool) -> Seq<char> {
    "// Bindings of the module `"@
    + module
    + "`.\n"@
    + (if attributes {
        "#![allow(dead_code, non_camel_case_types, non_snake_case)]\n"@
    } else {
        Seq::<char>::empty()
    })
    + "\n"@
}

/// Writes the first lines of the module.
pub fn rust_header(module: &str, attributes: bool) -> (r: String)
    ensures
        r@ == rust_header_text(module@, attributes),
{
    let mut out = String::from_str("// Bindings of the module `");
    out.append(module);
    out.append("`.\n");
    let part1 = if attributes {
        String::from_str("#![allow(dead_code, non_camel_case_types, non_snake_case)]\n")
    } else {
        String::new()
    };
    out.append(part1.as_str());
    out.append("\n");
    out
}

/// The module of bindings in the systems language. Every wrapper is
/// declared before any is defined, so that an accessor may hand out a
/// wrapper that is declared after its own; then come the methods of the
/// context, one for each entry point.
pub open spec fn rust_module_text(b: BindingsModel, module: Seq<char>, attributes: bool) -> Seq<char> {
    rust_header_text(module, attributes)
    + rust_prelude_text()
    + rust_declarations_text(b.wrappers)
    + rust_definitions_text(b.wrappers)
    + "extern \"C\" {\n"@
    + rust_foreign_entries_text(b.methods)
    + "}\n"@
    + "\n"@
    + "impl Context {"@
    + rust_methods_text(b.methods)
    + "}\n"@
}

/// Writes the module of bindings in the systems language.
pub fn rust_module(b: &Bindings, module: &str, attributes: bool) -> (r: String)
    ensures
        r@ == rust_module_text(b.deep_view(), module@, attributes),
{
    let mut out = rust_header(module, attributes);
    out.append(rust_prelude().as_str());
    out.append(rust_declarations(&b.wrappers).as_str());
    out.append(rust_definitions(&b.wrappers).as_str());
    out.append("extern \"C\" {\n");
    out.append(rust_foreign_entries(&b.methods).as_str());
    out.append("}\n");
    out.append("\n");
    out.append("impl Context {");
    out.append(rust_methods(&b.methods).as_str());
    out.append("}\n");
    out
}

/// The shape accessor of the wrapper of an array type returns a container of
/// fixed length that holds one extent for each dimension: its signature
/// ends in an array type whose length is the numeral of the rank.
pub proof fn lemma_rust_shape_has_rank_extents(a: ArrayWrapperModel)
    ensures
        exists|rest: Seq<char>|
            rust_array_shape_text(a) == "    /// The extent of each dimension.\n"@
                + "    pub fn shape(&self) -> "@ + ("[i64; "@ + decimal_text(a.extents()) + "]"@) + rest,
        numeral_value(decimal_text(a.extents())) == a.rank,
{
    lemma_decimal_value(a.rank);
    let rest = " {\n"@ + "        let extents = unsafe { "@ + a.shape
        + "(self.context, self.raw) };\n"@ + "        let mut shape = [0i64; "@ + decimal_text(
        a.rank,
    ) + "];\n"@ + "        for (i, extent) in shape.iter_mut().enumerate() {\n"@
        + "            *extent = unsafe { *extents.add(i) };\n"@ + "        }\n"@
        + "        shape\n"@ + "    }\n"@;
    assert(rust_array_shape_text(a) =~= "    /// The extent of each dimension.\n"@
        + "    pub fn shape(&self) -> "@ + ("[i64; "@ + decimal_text(a.extents()) + "]"@) + rest);
}

/// The signature of a method takes a unique input by value, so that the
/// wrapper moves into the call and the caller cannot use it again, and it
/// takes an input that is not unique by reference where it is a handle and
/// by value where it is a scalar. The signature holds one argument for each
/// input, in their order.
pub proof fn lemma_rust_signature_moves_unique_inputs(
    m: ManifestModel,
    name: Seq<char>,
    e: EntryPointModel,
    i: int,
)
    requires
        0 <= i < e.inputs.len(),
    ensures
        rust_signature_text(m.method(name, e)) == "pub fn "@ + name + "(&self"@ + concatenated(
            Seq::new(e.inputs.len(), |k: int| rust_argument_text(m.argument(e, k))),
        ) + ") -> Result<"@ + rust_results_text(m.method(name, e).results) + ", Error>"@,
        e.inputs[i].unique || !m.argument(e, i).ty.is_handle() ==> rust_argument_text(
            m.argument(e, i),
        ) == ", "@ + argument_name(i as nat) + ": "@ + rust_type_text(m.argument(e, i).ty),
        !e.inputs[i].unique && m.argument(e, i).ty.is_handle() ==> rust_argument_text(
            m.argument(e, i),
        ) == ", "@ + argument_name(i as nat) + ": &"@ + rust_type_text(m.argument(e, i).ty),
{
    let method = m.method(name, e);
    assert(Seq::new(method.arguments.len(), |k: int| rust_argument_text(method.arguments[k]))
        =~= Seq::new(e.inputs.len(), |k: int| rust_argument_text(m.argument(e, k))));
}

} // verus!
