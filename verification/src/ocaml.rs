//! The emitter for the ML-family language: the collector stands for the
//! lifetime of every C object. Each piece of the module is given twice: as
//! the text that it is, and as the function that writes that text.

use vstd::prelude::*;
use vstd::string::*;
use crate::plan::{
    Accessor, AccessorModel, Argument, ArgumentModel, ArrayWrapper, ArrayWrapperModel, Bindings,
    BindingsModel, HostType, HostTypeModel, Method, MethodModel, OpaqueWrapper,
    OpaqueWrapperModel, Passing, Wrapper, WrapperModel,
};
use crate::text::{concat_all, concatenated, decimal, decimal_text, join_all, joined};

verus! {

/// The name of the host-side type `t`: a scalar goes by the type of the
/// values that stand for it, an array wrapper by its element type and rank,
/// an opaque wrapper by the name of its type.
pub open spec fn ocaml_type_text(t: HostTypeModel) -> Seq<char> {
    match t {
        HostTypeModel::Scalar(p) => {
            p.ocaml_name()
        },
        HostTypeModel::Array { elem, rank } => {
            "array_"@
            + elem.name()
            + "_"@
            + decimal_text(rank)
            + "d"@
        },
        HostTypeModel::Opaque { name } => {
            "opaque_"@
            + name
        },
    }
}

/// Writes the name of the host-side type `t`.
pub fn ocaml_type(t: &HostType) -> (r: String)
    ensures
        r@ == ocaml_type_text(t.deep_view()),
{
    match t {
        HostType::Scalar(p) => {
            String::from_str(p.ocaml_type())
        },
        HostType::Array { elem, rank } => {
            let mut out = String::from_str("array_");
            out.append(elem.to_str());
            out.append("_");
            out.append(decimal(*rank).as_str());
            out.append("d");
            out
        },
        HostType::Opaque { name } => {
            let mut out = String::from_str("opaque_");
            out.append(name.as_str());
            out
        },
    }
}

/// The description of how a value of type `t` crosses to the C library: a
/// scalar by its C representation, a handle as an untyped pointer.
pub open spec fn ocaml_foreign_type_text(t: HostTypeModel) -> Seq<char> {
    match t {
        HostTypeModel::Scalar(p) => {
            p.ctypes_name()
        },
        _ => {
            "(ptr void)"@
        },
    }
}

/// Writes the description of how a value of type `t` crosses to the C
/// library.
pub fn ocaml_foreign_type(t: &HostType) -> (r: String)
    ensures
        r@ == ocaml_foreign_type_text(t.deep_view()),
{
    match t {
        HostType::Scalar(p) => {
            String::from_str(p.ctypes_type())
        },
        _ => {
            String::from_str("(ptr void)")
        },
    }
}

/// The value of type `t` made of what the C library wrote to the slot
/// `var`: a scalar as it is, a handle inside a new wrapper that belongs to
/// the context `ctx`.
pub open spec fn ocaml_read_text(t: HostTypeModel, ctx: Seq<char>, var: Seq<char>) -> Seq<char> {
    match t {
        HostTypeModel::Scalar(_) => {
            "!@ "@
            + var
        },
        _ => {
            ocaml_type_text(t)
            + "_wrap "@
            + ctx
            + " (!@ "@
            + var
            + ")"@
        },
    }
}

/// Writes the value of type `t` made of what the C library wrote to the
/// slot `var`.
pub fn ocaml_read(t: &HostType, ctx: &str, var: &str) -> (r: String)
    ensures
        r@ == ocaml_read_text(t.deep_view(), ctx@, var@),
{
    match t {
        HostType::Scalar(_) => {
            let mut out = String::from_str("!@ ");
            out.append(var);
            out
        },
        _ => {
            let mut out = ocaml_type(t);
            out.append("_wrap ");
            out.append(ctx);
            out.append(" (!@ ");
            out.append(var);
            out.append(")");
            out
        },
    }
}

/// The name of the slot for the result at place `i`.
pub open spec fn ocaml_slot_text(i: nat) -> Seq<char> {
    "out"@
    + decimal_text(i)
}

/// Writes the name of the slot for the result at place `i`.
pub fn ocaml_slot(i: usize) -> (r: String)
    ensures
        r@ == ocaml_slot_text(i as nat),
{
    let mut out = String::from_str("out");
    out.append(decimal(i as u64).as_str());
    out
}

/// The name that the extent of the dimension `i` is bound to.
pub open spec fn ocaml_extent_text(i: nat) -> Seq<char> {
    "d"@
    + decimal_text(i)
}

/// Writes the name that the extent of the dimension `i` is bound to.
pub fn ocaml_extent(i: u64) -> (r: String)
    ensures
        r@ == ocaml_extent_text(i as nat),
{
    let mut out = String::from_str("d");
    out.append(decimal(i).as_str());
    out
}

/// The expression that reads the extent of the dimension `i`.
pub open spec fn ocaml_extent_read_text(i: nat) -> Seq<char> {
    "!@ (extents +@ "@
    + decimal_text(i)
    + ")"@
}

/// Writes the expression that reads the extent of the dimension `i`.
pub fn ocaml_extent_read(i: u64) -> (r: String)
    ensures
        r@ == ocaml_extent_read_text(i as nat),
{
    let mut out = String::from_str("!@ (extents +@ ");
    out.append(decimal(i).as_str());
    out.append(")");
    out
}

/// The type that the shape accessor of an array wrapper of rank `rank`
/// returns: a tuple of as many extents as the rank says.
pub open spec fn ocaml_shape_type_text(rank: nat) -> Seq<char> {
    joined(
        Seq::new(
            rank,
            |k: int| "int64"@,
        ),
        " * "@,
    )
}

/// Writes the type of the shape of an array of rank `rank`.
pub fn ocaml_shape_type(rank: u64) -> (r: String)
    ensures
        r@ == ocaml_shape_type_text(rank as nat),
{
    let mut parts: Vec<String> = Vec::new();
    let mut i: u64 = 0;
    while i < rank
        invariant
            i <= rank,
            parts.deep_view() == Seq::new(
                i as nat,
                |k: int| "int64"@,
            ),
        decreases rank - i,
    {
        let ghost before = parts.deep_view();
        parts.push(String::from_str("int64"));
        i = i + 1;
        assert(parts.deep_view() =~= before.push(
            "int64"@,
        ));
        assert(parts.deep_view() =~= Seq::new(
            i as nat,
            |k: int| "int64"@,
        ));
    }
    assert(parts.deep_view() =~= Seq::new(
        (rank as nat),
        |k: int| "int64"@,
    ));
    join_all(&parts, " * ")
}

/// The pattern that binds the extents of a shape of rank `rank`.
pub open spec fn ocaml_extent_names_text(rank: nat) -> Seq<char> {
    joined(
        Seq::new(
            rank,
            |k: int| ocaml_extent_text(k as nat),
        ),
        ", "@,
    )
}

/// Writes the pattern that binds the extents of a shape of rank `rank`.
pub fn ocaml_extent_names(rank: u64) -> (r: String)
    ensures
        r@ == ocaml_extent_names_text(rank as nat),
{
    let mut parts: Vec<String> = Vec::new();
    let mut i: u64 = 0;
    while i < rank
        invariant
            i <= rank,
            parts.deep_view() == Seq::new(
                i as nat,
                |k: int| ocaml_extent_text(k as nat),
            ),
        decreases rank - i,
    {
        let ghost before = parts.deep_view();
        parts.push(ocaml_extent(i));
        i = i + 1;
        assert(parts.deep_view() =~= before.push(
            ocaml_extent_text((i - 1) as nat),
        ));
        assert(parts.deep_view() =~= Seq::new(
            i as nat,
            |k: int| ocaml_extent_text(k as nat),
        ));
    }
    assert(parts.deep_view() =~= Seq::new(
        (rank as nat),
        |k: int| ocaml_extent_text(k as nat),
    ));
    join_all(&parts, ", ")
}

/// The extents of a shape of rank `rank` as the elements of a list.
pub open spec fn ocaml_extent_list_text(rank: nat) -> Seq<char> {
    joined(
        Seq::new(
            rank,
            |k: int| ocaml_extent_text(k as nat),
        ),
        "; "@,
    )
}

/// Writes the extents of a shape of rank `rank` as the elements of a list.
pub fn ocaml_extent_list(rank: u64) -> (r: String)
    ensures
        r@ == ocaml_extent_list_text(rank as nat),
{
    let mut parts: Vec<String> = Vec::new();
    let mut i: u64 = 0;
    while i < rank
        invariant
            i <= rank,
            parts.deep_view() == Seq::new(
                i as nat,
                |k: int| ocaml_extent_text(k as nat),
            ),
        decreases rank - i,
    {
        let ghost before = parts.deep_view();
        parts.push(ocaml_extent(i));
        i = i + 1;
        assert(parts.deep_view() =~= before.push(
            ocaml_extent_text((i - 1) as nat),
        ));
        assert(parts.deep_view() =~= Seq::new(
            i as nat,
            |k: int| ocaml_extent_text(k as nat),
        ));
    }
    assert(parts.deep_view() =~= Seq::new(
        (rank as nat),
        |k: int| ocaml_extent_text(k as nat),
    ));
    join_all(&parts, "; ")
}

/// What the call hands to the C function for the extent of the dimension
/// `i`.
pub open spec fn ocaml_extent_argument_text(i: nat) -> Seq<char> {
    " "@
    + ocaml_extent_text(i)
}

/// Writes what the call hands to the C function for the extent of the
/// dimension `i`.
pub fn ocaml_extent_argument(i: u64) -> (r: String)
    ensures
        r@ == ocaml_extent_argument_text(i as nat),
{
    let mut out = String::from_str(" ");
    out.append(ocaml_extent(i).as_str());
    out
}

/// What the call hands to the C function for the extents of an array of
/// rank `rank`.
pub open spec fn ocaml_extent_arguments_text(rank: nat) -> Seq<char> {
    concatenated(
        Seq::new(
            rank,
            |k: int| ocaml_extent_argument_text(k as nat),
        ),
    )
}

/// Writes what the call hands to the C function for the extents of an array
/// of rank `rank`.
pub fn ocaml_extent_arguments(rank: u64) -> (r: String)
    ensures
        r@ == ocaml_extent_arguments_text(rank as nat),
{
    let mut parts: Vec<String> = Vec::new();
    let mut i: u64 = 0;
    while i < rank
        invariant
            i <= rank,
            parts.deep_view() == Seq::new(
                i as nat,
                |k: int| ocaml_extent_argument_text(k as nat),
            ),
        decreases rank - i,
    {
        let ghost before = parts.deep_view();
        parts.push(ocaml_extent_argument(i));
        i = i + 1;
        assert(parts.deep_view() =~= before.push(
            ocaml_extent_argument_text((i - 1) as nat),
        ));
        assert(parts.deep_view() =~= Seq::new(
            i as nat,
            |k: int| ocaml_extent_argument_text(k as nat),
        ));
    }
    assert(parts.deep_view() =~= Seq::new(
        (rank as nat),
        |k: int| ocaml_extent_argument_text(k as nat),
    ));
    concat_all(&parts)
}

/// The expressions that read the extents of an array of rank `rank`.
pub open spec fn ocaml_extent_reads_text(rank: nat) -> Seq<char> {
    joined(
        Seq::new(
            rank,
            |k: int| ocaml_extent_read_text(k as nat),
        ),
        ", "@,
    )
}

/// Writes the expressions that read the extents of an array of rank `rank`.
pub fn ocaml_extent_reads(rank: u64) -> (r: String)
    ensures
        r@ == ocaml_extent_reads_text(rank as nat),
{
    let mut parts: Vec<String> = Vec::new();
    let mut i: u64 = 0;
    while i < rank
        invariant
            i <= rank,
            parts.deep_view() == Seq::new(
                i as nat,
                |k: int| ocaml_extent_read_text(k as nat),
            ),
        decreases rank - i,
    {
        let ghost before = parts.deep_view();
        parts.push(ocaml_extent_read(i));
        i = i + 1;
        assert(parts.deep_view() =~= before.push(
            ocaml_extent_read_text((i - 1) as nat),
        ));
        assert(parts.deep_view() =~= Seq::new(
            i as nat,
            |k: int| ocaml_extent_read_text(k as nat),
        ));
    }
    assert(parts.deep_view() =~= Seq::new(
        (rank as nat),
        |k: int| ocaml_extent_read_text(k as nat),
    ));
    join_all(&parts, ", ")
}

/// The part that the extents of an array of rank `rank` take in the
/// description of the C function that makes it.
pub open spec fn ocaml_dimensions_text(rank: nat) -> Seq<char> {
    concatenated(
        Seq::new(
            rank,
            |k: int| " @-> int64_t"@,
        ),
    )
}

/// Writes the part that the extents of an array of rank `rank` take in the
/// description of the C function that makes it.
pub fn ocaml_dimensions(rank: u64) -> (r: String)
    ensures
        r@ == ocaml_dimensions_text(rank as nat),
{
    let mut parts: Vec<String> = Vec::new();
    let mut i: u64 = 0;
    while i < rank
        invariant
            i <= rank,
            parts.deep_view() == Seq::new(
                i as nat,
                |k: int| " @-> int64_t"@,
            ),
        decreases rank - i,
    {
        let ghost before = parts.deep_view();
        parts.push(String::from_str(" @-> int64_t"));
        i = i + 1;
        assert(parts.deep_view() =~= before.push(
            " @-> int64_t"@,
        ));
        assert(parts.deep_view() =~= Seq::new(
            i as nat,
            |k: int| " @-> int64_t"@,
        ));
    }
    assert(parts.deep_view() =~= Seq::new(
        (rank as nat),
        |k: int| " @-> int64_t"@,
    ));
    concat_all(&parts)
}

/// The declaration of the wrapper type that goes by `name`: the context
/// that the object belongs to, and the object.
pub open spec fn ocaml_type_declaration_text(name: Seq<char>) -> Seq<char> {
    "type "@
    + name
    + " = { "@
    + name
    + "_context : context; "@
    + name
    + "_raw : unit ptr }\n"@
}

/// Writes the declaration of the wrapper type that goes by `name`.
pub fn ocaml_type_declaration(name: &str) -> (r: String)
    ensures
        r@ == ocaml_type_declaration_text(name@),
{
    let mut out = String::from_str("type ");
    out.append(name);
    out.append(" = { ");
    out.append(name);
    out.append("_context : context; ");
    out.append(name);
    out.append("_raw : unit ptr }\n");
    out
}

/// The function that makes a wrapper of the type `name` around an object
/// of the C library. The collector frees the object once the wrapper is
/// out of reach.
pub open spec fn ocaml_wrap_text(name: Seq<char>) -> Seq<char> {
    "let "@
    + name
    + "_wrap (ctx : context) (raw : unit ptr) : "@
    + name
    + " =\n"@
    + "  if is_null raw then raise (Error \"no object\");\n"@
    + "  let value = { "@
    + name
    + "_context = ctx; "@
    + name
    + "_raw = raw } in\n"@
    + "  Gc.finalise (fun v -> ignore ("@
    + name
    + "_free v."@
    + name
    + "_context.handle v."@
    + name
    + "_raw)) value;\n"@
    + "  value\n"@
    + "\n"@
}

/// Writes the function that makes a wrapper of the type `name`.
pub fn ocaml_wrap(name: &str) -> (r: String)
    ensures
        r@ == ocaml_wrap_text(name@),
{
    let mut out = String::from_str("let ");
    out.append(name);
    out.append("_wrap (ctx : context) (raw : unit ptr) : ");
    out.append(name);
    out.append(" =\n");
    out.append("  if is_null raw then raise (Error \"no object\");\n");
    out.append("  let value = { ");
    out.append(name);
    out.append("_context = ctx; ");
    out.append(name);
    out.append("_raw = raw } in\n");
    out.append("  Gc.finalise (fun v -> ignore (");
    out.append(name);
    out.append("_free v.");
    out.append(name);
    out.append("_context.handle v.");
    out.append(name);
    out.append("_raw)) value;\n");
    out.append("  value\n");
    out.append("\n");
    out
}

/// The shape accessor of the array wrapper that goes by `name`. It returns
/// a tuple of fixed length: one extent for each dimension.
pub open spec fn ocaml_array_shape_text(a: ArrayWrapperModel, name: Seq<char>) -> Seq<char> {
    "(* The extent of each dimension. *)\n"@
    + "let "@
    + name
    + "_shape (value : "@
    + name
    + ") : "@
    + ocaml_shape_type_text(a.rank)
    + " =\n"@
    + "  let extents = "@
    + name
    + "_extents value."@
    + name
    + "_context.handle value."@
    + name
    + "_raw in\n"@
    + "  ("@
    + ocaml_extent_reads_text(a.rank)
    + ")\n"@
    + "\n"@
}

/// Writes the shape accessor of the array wrapper that goes by `name`.
pub fn ocaml_array_shape(a: &ArrayWrapper, name: &str) -> (r: String)
    ensures
        r@ == ocaml_array_shape_text(a.deep_view(), name@),
{
    let mut out = String::from_str("(* The extent of each dimension. *)\n");
    out.append("let ");
    out.append(name);
    out.append("_shape (value : ");
    out.append(name);
    out.append(") : ");
    out.append(ocaml_shape_type(a.rank).as_str());
    out.append(" =\n");
    out.append("  let extents = ");
    out.append(name);
    out.append("_extents value.");
    out.append(name);
    out.append("_context.handle value.");
    out.append(name);
    out.append("_raw in\n");
    out.append("  (");
    out.append(ocaml_extent_reads(a.rank).as_str());
    out.append(")\n");
    out.append("\n");
    out
}

/// The function that copies a native array into a new array of the
/// wrapper that goes by `name`.
pub open spec fn ocaml_array_of_array_text(a: ArrayWrapperModel, name: Seq<char>) -> Seq<char> {
    "(* Copies `values` into a new array of the shape `shape`. *)\n"@
    + "let "@
    + name
    + "_of_array (ctx : context) (values : "@
    + a.elem.ocaml_name()
    + " array) (shape : "@
    + ocaml_shape_type_text(a.rank)
    + ") : "@
    + name
    + " =\n"@
    + "  let ("@
    + ocaml_extent_names_text(a.rank)
    + ") = shape in\n"@
    + "  if Int64.to_int (List.fold_left Int64.mul 1L ["@
    + ocaml_extent_list_text(a.rank)
    + "]) <> Array.length values then\n"@
    + "    raise (Error \"shape\");\n"@
    + "  let data = CArray.of_list "@
    + a.elem.ctypes_name()
    + " (Array.to_list values) in\n"@
    + "  "@
    + name
    + "_wrap ctx ("@
    + name
    + "_new ctx.handle (CArray.start data)"@
    + ocaml_extent_arguments_text(a.rank)
    + ")\n"@
    + "\n"@
}

/// Writes the function that copies a native array into a new array.
pub fn ocaml_array_of_array(a: &ArrayWrapper, name: &str) -> (r: String)
    ensures
        r@ == ocaml_array_of_array_text(a.deep_view(), name@),
{
    let mut out = String::from_str("(* Copies `values` into a new array of the shape `shape`. *)\n");
    out.append("let ");
    out.append(name);
    out.append("_of_array (ctx : context) (values : ");
    out.append(a.elem.ocaml_type());
    out.append(" array) (shape : ");
    out.append(ocaml_shape_type(a.rank).as_str());
    out.append(") : ");
    out.append(name);
    out.append(" =\n");
    out.append("  let (");
    out.append(ocaml_extent_names(a.rank).as_str());
    out.append(") = shape in\n");
    out.append("  if Int64.to_int (List.fold_left Int64.mul 1L [");
    out.append(ocaml_extent_list(a.rank).as_str());
    out.append("]) <> Array.length values then\n");
    out.append("    raise (Error \"shape\");\n");
    out.append("  let data = CArray.of_list ");
    out.append(a.elem.ctypes_type());
    out.append(" (Array.to_list values) in\n");
    out.append("  ");
    out.append(name);
    out.append("_wrap ctx (");
    out.append(name);
    out.append("_new ctx.handle (CArray.start data)");
    out.append(ocaml_extent_arguments(a.rank).as_str());
    out.append(")\n");
    out.append("\n");
    out
}

/// The function that copies the elements of an array of the wrapper that
/// goes by `name` into a native array.
pub open spec fn ocaml_array_to_array_text(a: ArrayWrapperModel, name: Seq<char>) -> Seq<char> {
    "(* Copies the elements out. *)\n"@
    + "let "@
    + name
    + "_to_array (value : "@
    + name
    + ") : "@
    + a.elem.ocaml_name()
    + " array =\n"@
    + "  let ("@
    + ocaml_extent_names_text(a.rank)
    + ") = "@
    + name
    + "_shape value in\n"@
    + "  let length = Int64.to_int (List.fold_left Int64.mul 1L ["@
    + ocaml_extent_list_text(a.rank)
    + "]) in\n"@
    + "  let data = CArray.make "@
    + a.elem.ctypes_name()
    + " length in\n"@
    + "  check value."@
    + name
    + "_context ("@
    + name
    + "_values value."@
    + name
    + "_context.handle value."@
    + name
    + "_raw (CArray.start data));\n"@
    + "  sync value."@
    + name
    + "_context;\n"@
    + "  Array.of_list (CArray.to_list data)\n"@
    + "\n"@
}

/// Writes the function that copies the elements of an array out.
pub fn ocaml_array_to_array(a: &ArrayWrapper, name: &str) -> (r: String)
    ensures
        r@ == ocaml_array_to_array_text(a.deep_view(), name@),
{
    let mut out = String::from_str("(* Copies the elements out. *)\n");
    out.append("let ");
    out.append(name);
    out.append("_to_array (value : ");
    out.append(name);
    out.append(") : ");
    out.append(a.elem.ocaml_type());
    out.append(" array =\n");
    out.append("  let (");
    out.append(ocaml_extent_names(a.rank).as_str());
    out.append(") = ");
    out.append(name);
    out.append("_shape value in\n");
    out.append("  let length = Int64.to_int (List.fold_left Int64.mul 1L [");
    out.append(ocaml_extent_list(a.rank).as_str());
    out.append("]) in\n");
    out.append("  let data = CArray.make ");
    out.append(a.elem.ctypes_type());
    out.append(" length in\n");
    out.append("  check value.");
    out.append(name);
    out.append("_context (");
    out.append(name);
    out.append("_values value.");
    out.append(name);
    out.append("_context.handle value.");
    out.append(name);
    out.append("_raw (CArray.start data));\n");
    out.append("  sync value.");
    out.append(name);
    out.append("_context;\n");
    out.append("  Array.of_list (CArray.to_list data)\n");
    out.append("\n");
    out
}

/// The functions of the array wrapper that goes by `name`: `of_array`
/// copies a native array in, `shape` returns the extents as a tuple, and
/// `to_array` copies the elements out.
pub open spec fn ocaml_array_functions_text(a: ArrayWrapperModel, name: Seq<char>) -> Seq<char> {
    "let "@
    + name
    + "_new = foreign \""@
    + a.new
    + "\" (ptr void @-> ptr "@
    + a.elem.ctypes_name()
    + ocaml_dimensions_text(a.rank)
    + " @-> returning (ptr void))\n"@
    + "let "@
    + name
    + "_free = foreign \""@
    + a.free
    + "\" (ptr void @-> ptr void @-> returning int)\n"@
    + "let "@
    + name
    + "_extents = foreign \""@
    + a.shape
    + "\" (ptr void @-> ptr void @-> returning (ptr int64_t))\n"@
    + "let "@
    + name
    + "_values = foreign \""@
    + a.values
    + "\" (ptr void @-> ptr void @-> ptr "@
    + a.elem.ctypes_name()
    + " @-> returning int)\n"@
    + "\n"@
    + ocaml_wrap_text(name)
    + ocaml_array_shape_text(a, name)
    + ocaml_array_of_array_text(a, name)
    + ocaml_array_to_array_text(a, name)
}

/// Writes the functions of the array wrapper that goes by `name`.
pub fn ocaml_array_functions(a: &ArrayWrapper, name: &str) -> (r: String)
    ensures
        r@ == ocaml_array_functions_text(a.deep_view(), name@),
{
    let mut out = String::from_str("let ");
    out.append(name);
    out.append("_new = foreign \"");
    out.append(a.new.as_str());
    out.append("\" (ptr void @-> ptr ");
    out.append(a.elem.ctypes_type());
    out.append(ocaml_dimensions(a.rank).as_str());
    out.append(" @-> returning (ptr void))\n");
    out.append("let ");
    out.append(name);
    out.append("_free = foreign \"");
    out.append(a.free.as_str());
    out.append("\" (ptr void @-> ptr void @-> returning int)\n");
    out.append("let ");
    out.append(name);
    out.append("_extents = foreign \"");
    out.append(a.shape.as_str());
    out.append("\" (ptr void @-> ptr void @-> returning (ptr int64_t))\n");
    out.append("let ");
    out.append(name);
    out.append("_values = foreign \"");
    out.append(a.values.as_str());
    out.append("\" (ptr void @-> ptr void @-> ptr ");
    out.append(a.elem.ctypes_type());
    out.append(" @-> returning int)\n");
    out.append("\n");
    out.append(ocaml_wrap(name).as_str());
    out.append(ocaml_array_shape(a, name).as_str());
    out.append(ocaml_array_of_array(a, name).as_str());
    out.append(ocaml_array_to_array(a, name).as_str());
    out
}

/// The functions of the opaque wrapper that goes by `name`: `store` writes
/// the value as bytes and `restore` reads it back.
pub open spec fn ocaml_opaque_functions_text(o: OpaqueWrapperModel, name: Seq<char>) -> Seq<char> {
    "let "@
    + name
    + "_free = foreign \""@
    + o.free
    + "\" (ptr void @-> ptr void @-> returning int)\n"@
    + "let "@
    + name
    + "_store_raw = foreign \""@
    + o.store
    + "\" (ptr void @-> ptr void @-> ptr (ptr void) @-> ptr size_t @-> returning int)\n"@
    + "let "@
    + name
    + "_restore_raw = foreign \""@
    + o.restore
    + "\" (ptr void @-> ptr void @-> returning (ptr void))\n"@
    + "\n"@
    + ocaml_wrap_text(name)
    + "(* Writes the value as bytes. *)\n"@
    + "let "@
    + name
    + "_store (value : "@
    + name
    + ") : bytes =\n"@
    + "  let data = allocate (ptr void) null in\n"@
    + "  let size = allocate size_t Unsigned.Size_t.zero in\n"@
    + "  check value."@
    + name
    + "_context ("@
    + name
    + "_store_raw value."@
    + name
    + "_context.handle value."@
    + name
    + "_raw data size);\n"@
    + "  let length = Unsigned.Size_t.to_int (!@ size) in\n"@
    + "  let stored = Bytes.of_string (string_from_ptr (from_voidp char (!@ data)) ~length) in\n"@
    + "  c_free (!@ data);\n"@
    + "  stored\n"@
    + "\n"@
    + "(* Reads back a value that `"@
    + name
    + "_store` wrote. *)\n"@
    + "let "@
    + name
    + "_restore (ctx : context) (stored : bytes) : "@
    + name
    + " =\n"@
    + "  let data = CArray.of_string (Bytes.to_string stored) in\n"@
    + "  "@
    + name
    + "_wrap ctx ("@
    + name
    + "_restore_raw ctx.handle (to_voidp (CArray.start data)))\n"@
    + "\n"@
}

/// Writes the functions of the opaque wrapper that goes by `name`.
pub fn ocaml_opaque_functions(o: &OpaqueWrapper, name: &str) -> (r: String)
    ensures
        r@ == ocaml_opaque_functions_text(o.deep_view(), name@),
{
    let mut out = String::from_str("let ");
    out.append(name);
    out.append("_free = foreign \"");
    out.append(o.free.as_str());
    out.append("\" (ptr void @-> ptr void @-> returning int)\n");
    out.append("let ");
    out.append(name);
    out.append("_store_raw = foreign \"");
    out.append(o.store.as_str());
    out.append("\" (ptr void @-> ptr void @-> ptr (ptr void) @-> ptr size_t @-> returning int)\n");
    out.append("let ");
    out.append(name);
    out.append("_restore_raw = foreign \"");
    out.append(o.restore.as_str());
    out.append("\" (ptr void @-> ptr void @-> returning (ptr void))\n");
    out.append("\n");
    out.append(ocaml_wrap(name).as_str());
    out.append("(* Writes the value as bytes. *)\n");
    out.append("let ");
    out.append(name);
    out.append("_store (value : ");
    out.append(name);
    out.append(") : bytes =\n");
    out.append("  let data = allocate (ptr void) null in\n");
    out.append("  let size = allocate size_t Unsigned.Size_t.zero in\n");
    out.append("  check value.");
    out.append(name);
    out.append("_context (");
    out.append(name);
    out.append("_store_raw value.");
    out.append(name);
    out.append("_context.handle value.");
    out.append(name);
    out.append("_raw data size);\n");
    out.append("  let length = Unsigned.Size_t.to_int (!@ size) in\n");
    out.append("  let stored = Bytes.of_string (string_from_ptr (from_voidp char (!@ data)) ~length) in\n");
    out.append("  c_free (!@ data);\n");
    out.append("  stored\n");
    out.append("\n");
    out.append("(* Reads back a value that `");
    out.append(name);
    out.append("_store` wrote. *)\n");
    out.append("let ");
    out.append(name);
    out.append("_restore (ctx : context) (stored : bytes) : ");
    out.append(name);
    out.append(" =\n");
    out.append("  let data = CArray.of_string (Bytes.to_string stored) in\n");
    out.append("  ");
    out.append(name);
    out.append("_wrap ctx (");
    out.append(name);
    out.append("_restore_raw ctx.handle (to_voidp (CArray.start data)))\n");
    out.append("\n");
    out
}

/// An accessor of the opaque wrapper that goes by `name`. It returns the
/// part as a new value.
pub open spec fn ocaml_accessor_text(p: AccessorModel, name: Seq<char>) -> Seq<char> {
    "let "@
    + name
    + "_"@
    + p.name
    + "_raw = foreign \""@
    + p.project
    + "\" (ptr void @-> ptr "@
    + ocaml_foreign_type_text(p.ty)
    + " @-> ptr void @-> returning int)\n"@
    + "\n"@
    + "(* The part `"@
    + p.name
    + "`, as a new value. *)\n"@
    + "let "@
    + name
    + "_"@
    + p.name
    + " (value : "@
    + name
    + ") : "@
    + ocaml_type_text(p.ty)
    + " =\n"@
    + "  let out = allocate_n "@
    + ocaml_foreign_type_text(p.ty)
    + " ~count:1 in\n"@
    + "  check value."@
    + name
    + "_context ("@
    + name
    + "_"@
    + p.name
    + "_raw value."@
    + name
    + "_context.handle out value."@
    + name
    + "_raw);\n"@
    + "  "@
    + ocaml_read_text(p.ty, "value."@ + name + "_context"@, "out"@)
    + "\n"@
    + "\n"@
}

/// Writes an accessor of the opaque wrapper that goes by `name`.
pub fn ocaml_accessor(p: &Accessor, name: &str) -> (r: String)
    ensures
        r@ == ocaml_accessor_text(p.deep_view(), name@),
{
    let mut out = String::from_str("let ");
    out.append(name);
    out.append("_");
    out.append(p.name.as_str());
    out.append("_raw = foreign \"");
    out.append(p.project.as_str());
    out.append("\" (ptr void @-> ptr ");
    out.append(ocaml_foreign_type(&p.ty).as_str());
    out.append(" @-> ptr void @-> returning int)\n");
    out.append("\n");
    out.append("(* The part `");
    out.append(p.name.as_str());
    out.append("`, as a new value. *)\n");
    out.append("let ");
    out.append(name);
    out.append("_");
    out.append(p.name.as_str());
    out.append(" (value : ");
    out.append(name);
    out.append(") : ");
    out.append(ocaml_type(&p.ty).as_str());
    out.append(" =\n");
    out.append("  let out = allocate_n ");
    out.append(ocaml_foreign_type(&p.ty).as_str());
    out.append(" ~count:1 in\n");
    out.append("  check value.");
    out.append(name);
    out.append("_context (");
    out.append(name);
    out.append("_");
    out.append(p.name.as_str());
    out.append("_raw value.");
    out.append(name);
    out.append("_context.handle out value.");
    out.append(name);
    out.append("_raw);\n");
    out.append("  ");
    out.append(ocaml_read(&p.ty, String::from_str("value.").concat(name).concat("_context").as_str(), "out").as_str());
    out.append("\n");
    out.append("\n");
    out
}

/// The accessors of the opaque wrapper that goes by `name`, in the order of
/// the projections.
pub open spec fn ocaml_accessors_text(accessors: Seq<AccessorModel>, name: Seq<char>) -> Seq<char> {
    concatenated(
        Seq::new(
            accessors.len(),
            |k: int| ocaml_accessor_text(accessors[k], name),
        ),
    )
}

/// Writes the accessors of the opaque wrapper that goes by `name`.
pub fn ocaml_accessors(accessors: &Vec<Accessor>, name: &str) -> (r: String)
    ensures
        r@ == ocaml_accessors_text(accessors.deep_view(), name@),
{
    let mut parts: Vec<String> = Vec::new();
    let mut i: usize = 0;
    while i < accessors.len()
        invariant
            i <= accessors.len(),
            parts.deep_view() == Seq::new(
                i as nat,
                |k: int| ocaml_accessor_text(accessors.deep_view()[k], name@),
            ),
        decreases accessors.len() - i,
    {
        let ghost before = parts.deep_view();
        parts.push(ocaml_accessor(&accessors[i], name));
        i = i + 1;
        assert(parts.deep_view() =~= before.push(
            ocaml_accessor_text(accessors.deep_view()[i - 1], name@),
        ));
        assert(parts.deep_view() =~= Seq::new(
            i as nat,
            |k: int| ocaml_accessor_text(accessors.deep_view()[k], name@),
        ));
    }
    assert(parts.deep_view() =~= Seq::new(
        accessors.deep_view().len(),
        |k: int| ocaml_accessor_text(accessors.deep_view()[k], name@),
    ));
    concat_all(&parts)
}

/// The declaration of the type of a wrapper.
pub open spec fn ocaml_declaration_text(w: WrapperModel) -> Seq<char> {
    match w {
        WrapperModel::Array(a) => {
            ocaml_type_declaration_text(ocaml_type_text(a.host_type()))
        },
        WrapperModel::Opaque(o) => {
            ocaml_type_declaration_text(ocaml_type_text(o.host_type()))
        },
    }
}

/// Writes the declaration of the type of a wrapper.
pub fn ocaml_declaration(w: &Wrapper) -> (r: String)
    ensures
        r@ == ocaml_declaration_text(w.deep_view()),
{
    match w {
        Wrapper::Array(a) => {
            ocaml_type_declaration(ocaml_type(&a.host_type()).as_str())
        },
        Wrapper::Opaque(o) => {
            ocaml_type_declaration(ocaml_type(&o.host_type()).as_str())
        },
    }
}

/// The functions of a wrapper that hand out no other wrapper.
pub open spec fn ocaml_definition_text(w: WrapperModel) -> Seq<char> {
    match w {
        WrapperModel::Array(a) => {
            ocaml_array_functions_text(a, ocaml_type_text(a.host_type()))
        },
        WrapperModel::Opaque(o) => {
            ocaml_opaque_functions_text(o, ocaml_type_text(o.host_type()))
        },
    }
}

/// Writes the functions of a wrapper that hand out no other wrapper.
pub fn ocaml_definition(w: &Wrapper) -> (r: String)
    ensures
        r@ == ocaml_definition_text(w.deep_view()),
{
    match w {
        Wrapper::Array(a) => {
            ocaml_array_functions(a, ocaml_type(&a.host_type()).as_str())
        },
        Wrapper::Opaque(o) => {
            ocaml_opaque_functions(o, ocaml_type(&o.host_type()).as_str())
        },
    }
}

/// The accessors of a wrapper: an array wrapper has none.
pub open spec fn ocaml_projection_text(w: WrapperModel) -> Seq<char> {
    match w {
        WrapperModel::Array(_) => {
            Seq::<char>::empty()
        },
        WrapperModel::Opaque(o) => {
            ocaml_accessors_text(o.accessors, ocaml_type_text(o.host_type()))
        },
    }
}

/// Writes the accessors of a wrapper.
pub fn ocaml_projection(w: &Wrapper) -> (r: String)
    ensures
        r@ == ocaml_projection_text(w.deep_view()),
{
    match w {
        Wrapper::Array(_) => {
            String::new()
        },
        Wrapper::Opaque(o) => {
            ocaml_accessors(&o.accessors, ocaml_type(&o.host_type()).as_str())
        },
    }
}

/// The declarations of the wrapper types, in the order of the types' names.
pub open spec fn ocaml_declarations_text(wrappers: Seq<WrapperModel>) -> Seq<char> {
    concatenated(
        Seq::new(
            wrappers.len(),
            |k: int| ocaml_declaration_text(wrappers[k]),
        ),
    )
}

/// Writes the declarations of the wrapper types.
pub fn ocaml_declarations(wrappers: &Vec<Wrapper>) -> (r: String)
    ensures
        r@ == ocaml_declarations_text(wrappers.deep_view()),
{
    let mut parts: Vec<String> = Vec::new();
    let mut i: usize = 0;
    while i < wrappers.len()
        invariant
            i <= wrappers.len(),
            parts.deep_view() == Seq::new(
                i as nat,
                |k: int| ocaml_declaration_text(wrappers.deep_view()[k]),
            ),
        decreases wrappers.len() - i,
    {
        let ghost before = parts.deep_view();
        parts.push(ocaml_declaration(&wrappers[i]));
        i = i + 1;
        assert(parts.deep_view() =~= before.push(
            ocaml_declaration_text(wrappers.deep_view()[i - 1]),
        ));
        assert(parts.deep_view() =~= Seq::new(
            i as nat,
            |k: int| ocaml_declaration_text(wrappers.deep_view()[k]),
        ));
    }
    assert(parts.deep_view() =~= Seq::new(
        wrappers.deep_view().len(),
        |k: int| ocaml_declaration_text(wrappers.deep_view()[k]),
    ));
    concat_all(&parts)
}

/// The functions of the wrappers that hand out no other wrapper, in the
/// order of the types' names.
pub open spec fn ocaml_definitions_text(wrappers: Seq<WrapperModel>) -> Seq<char> {
    concatenated(
        Seq::new(
            wrappers.len(),
            |k: int| ocaml_definition_text(wrappers[k]),
        ),
    )
}

/// Writes the functions of the wrappers that hand out no other wrapper.
pub fn ocaml_definitions(wrappers: &Vec<Wrapper>) -> (r: String)
    ensures
        r@ == ocaml_definitions_text(wrappers.deep_view()),
{
    let mut parts: Vec<String> = Vec::new();
    let mut i: usize = 0;
    while i < wrappers.len()
        invariant
            i <= wrappers.len(),
            parts.deep_view() == Seq::new(
                i as nat,
                |k: int| ocaml_definition_text(wrappers.deep_view()[k]),
            ),
        decreases wrappers.len() - i,
    {
        let ghost before = parts.deep_view();
        parts.push(ocaml_definition(&wrappers[i]));
        i = i + 1;
        assert(parts.deep_view() =~= before.push(
            ocaml_definition_text(wrappers.deep_view()[i - 1]),
        ));
        assert(parts.deep_view() =~= Seq::new(
            i as nat,
            |k: int| ocaml_definition_text(wrappers.deep_view()[k]),
        ));
    }
    assert(parts.deep_view() =~= Seq::new(
        wrappers.deep_view().len(),
        |k: int| ocaml_definition_text(wrappers.deep_view()[k]),
    ));
    concat_all(&parts)
}

/// The accessors of the wrappers, in the order of the types' names.
pub open spec fn ocaml_projections_text(wrappers: Seq<WrapperModel>) -> Seq<char> {
    concatenated(
        Seq::new(
            wrappers.len(),
            |k: int| ocaml_projection_text(wrappers[k]),
        ),
    )
}

/// Writes the accessors of the wrappers.
pub fn ocaml_projections(wrappers: &Vec<Wrapper>) -> (r: String)
    ensures
        r@ == ocaml_projections_text(wrappers.deep_view()),
{
    let mut parts: Vec<String> = Vec::new();
    let mut i: usize = 0;
    while i < wrappers.len()
        invariant
            i <= wrappers.len(),
            parts.deep_view() == Seq::new(
                i as nat,
                |k: int| ocaml_projection_text(wrappers.deep_view()[k]),
            ),
        decreases wrappers.len() - i,
    {
        let ghost before = parts.deep_view();
        parts.push(ocaml_projection(&wrappers[i]));
        i = i + 1;
        assert(parts.deep_view() =~= before.push(
            ocaml_projection_text(wrappers.deep_view()[i - 1]),
        ));
        assert(parts.deep_view() =~= Seq::new(
            i as nat,
            |k: int| ocaml_projection_text(wrappers.deep_view()[k]),
        ));
    }
    assert(parts.deep_view() =~= Seq::new(
        wrappers.deep_view().len(),
        |k: int| ocaml_projection_text(wrappers.deep_view()[k]),
    ));
    concat_all(&parts)
}

/// An argument in a function's head.
pub open spec fn ocaml_argument_text(a: ArgumentModel) -> Seq<char> {
    " ("@
    + a.name
    + " : "@
    + ocaml_type_text(a.ty)
    + ")"@
}

/// Writes an argument of a function's head.
pub fn ocaml_argument(a: &Argument) -> (r: String)
    ensures
        r@ == ocaml_argument_text(a.deep_view()),
{
    let mut out = String::from_str(" (");
    out.append(a.name.as_str());
    out.append(" : ");
    out.append(ocaml_type(&a.ty).as_str());
    out.append(")");
    out
}

/// The arguments in a function's head, in their order.
pub open spec fn ocaml_arguments_text(arguments: Seq<ArgumentModel>) -> Seq<char> {
    concatenated(
        Seq::new(
            arguments.len(),
            |k: int| ocaml_argument_text(arguments[k]),
        ),
    )
}

/// Writes the arguments of a function's head.
pub fn ocaml_arguments(arguments: &Vec<Argument>) -> (r: String)
    ensures
        r@ == ocaml_arguments_text(arguments.deep_view()),
{
    let mut parts: Vec<String> = Vec::new();
    let mut i: usize = 0;
    while i < arguments.len()
        invariant
            i <= arguments.len(),
            parts.deep_view() == Seq::new(
                i as nat,
                |k: int| ocaml_argument_text(arguments.deep_view()[k]),
            ),
        decreases arguments.len() - i,
    {
        let ghost before = parts.deep_view();
        parts.push(ocaml_argument(&arguments[i]));
        i = i + 1;
        assert(parts.deep_view() =~= before.push(
            ocaml_argument_text(arguments.deep_view()[i - 1]),
        ));
        assert(parts.deep_view() =~= Seq::new(
            i as nat,
            |k: int| ocaml_argument_text(arguments.deep_view()[k]),
        ));
    }
    assert(parts.deep_view() =~= Seq::new(
        arguments.deep_view().len(),
        |k: int| ocaml_argument_text(arguments.deep_view()[k]),
    ));
    concat_all(&parts)
}

/// The types of the results, in their order, as the parts of a tuple type.
pub open spec fn ocaml_result_types_text(results: Seq<HostTypeModel>) -> Seq<char> {
    joined(
        Seq::new(
            results.len(),
            |k: int| ocaml_type_text(results[k]),
        ),
        " * "@,
    )
}

/// Writes the types of the results as the parts of a tuple type.
pub fn ocaml_result_types(results: &Vec<HostType>) -> (r: String)
    ensures
        r@ == ocaml_result_types_text(results.deep_view()),
{
    let mut parts: Vec<String> = Vec::new();
    let mut i: usize = 0;
    while i < results.len()
        invariant
            i <= results.len(),
            parts.deep_view() == Seq::new(
                i as nat,
                |k: int| ocaml_type_text(results.deep_view()[k]),
            ),
        decreases results.len() - i,
    {
        let ghost before = parts.deep_view();
        parts.push(ocaml_type(&results[i]));
        i = i + 1;
        assert(parts.deep_view() =~= before.push(
            ocaml_type_text(results.deep_view()[i - 1]),
        ));
        assert(parts.deep_view() =~= Seq::new(
            i as nat,
            |k: int| ocaml_type_text(results.deep_view()[k]),
        ));
    }
    assert(parts.deep_view() =~= Seq::new(
        results.deep_view().len(),
        |k: int| ocaml_type_text(results.deep_view()[k]),
    ));
    join_all(&parts, " * ")
}

/// The type of what a function returns: nothing, the one result, or the
/// tuple of the results.
pub open spec fn ocaml_results_text(results: Seq<HostTypeModel>) -> Seq<char> {
    (if results.len() == 0 {
        "unit"@
    } else {
        ocaml_result_types_text(results)
    })
}

/// Writes the type of what a function returns.
pub fn ocaml_results(results: &Vec<HostType>) -> (r: String)
    ensures
        r@ == ocaml_results_text(results.deep_view()),
{
    if results.len() == 0 {
        String::from_str("unit")
    } else {
        ocaml_result_types(results)
    }
}

/// The part that a result of type `t` takes in the description of a C
/// function.
pub open spec fn ocaml_foreign_result_text(t: HostTypeModel) -> Seq<char> {
    " @-> ptr "@
    + ocaml_foreign_type_text(t)
}

/// Writes the part that a result of type `t` takes in the description of a
/// C function.
pub fn ocaml_foreign_result(t: &HostType) -> (r: String)
    ensures
        r@ == ocaml_foreign_result_text(t.deep_view()),
{
    let mut out = String::from_str(" @-> ptr ");
    out.append(ocaml_foreign_type(t).as_str());
    out
}

/// The part that the results take in the description of a C function.
pub open spec fn ocaml_foreign_results_text(results: Seq<HostTypeModel>) -> Seq<char> {
    concatenated(
        Seq::new(
            results.len(),
            |k: int| ocaml_foreign_result_text(results[k]),
        ),
    )
}

/// Writes the part that the results take in the description of a C
/// function.
pub fn ocaml_foreign_results(results: &Vec<HostType>) -> (r: String)
    ensures
        r@ == ocaml_foreign_results_text(results.deep_view()),
{
    let mut parts: Vec<String> = Vec::new();
    let mut i: usize = 0;
    while i < results.len()
        invariant
            i <= results.len(),
            parts.deep_view() == Seq::new(
                i as nat,
                |k: int| ocaml_foreign_result_text(results.deep_view()[k]),
            ),
        decreases results.len() - i,
    {
        let ghost before = parts.deep_view();
        parts.push(ocaml_foreign_result(&results[i]));
        i = i + 1;
        assert(parts.deep_view() =~= before.push(
            ocaml_foreign_result_text(results.deep_view()[i - 1]),
        ));
        assert(parts.deep_view() =~= Seq::new(
            i as nat,
            |k: int| ocaml_foreign_result_text(results.deep_view()[k]),
        ));
    }
    assert(parts.deep_view() =~= Seq::new(
        results.deep_view().len(),
        |k: int| ocaml_foreign_result_text(results.deep_view()[k]),
    ));
    concat_all(&parts)
}

/// The part that an argument takes in the description of a C function.
pub open spec fn ocaml_foreign_argument_text(a: ArgumentModel) -> Seq<char> {
    " @-> "@
    + ocaml_foreign_type_text(a.ty)
}

/// Writes the part that an argument takes in the description of a C
/// function.
pub fn ocaml_foreign_argument(a: &Argument) -> (r: String)
    ensures
        r@ == ocaml_foreign_argument_text(a.deep_view()),
{
    let mut out = String::from_str(" @-> ");
    out.append(ocaml_foreign_type(&a.ty).as_str());
    out
}

/// The part that the arguments take in the description of a C function.
pub open spec fn ocaml_foreign_arguments_text(arguments: Seq<ArgumentModel>) -> Seq<char> {
    concatenated(
        Seq::new(
            arguments.len(),
            |k: int| ocaml_foreign_argument_text(arguments[k]),
        ),
    )
}

/// Writes the part that the arguments take in the description of a C
/// function.
pub fn ocaml_foreign_arguments(arguments: &Vec<Argument>) -> (r: String)
    ensures
        r@ == ocaml_foreign_arguments_text(arguments.deep_view()),
{
    let mut parts: Vec<String> = Vec::new();
    let mut i: usize = 0;
    while i < arguments.len()
        invariant
            i <= arguments.len(),
            parts.deep_view() == Seq::new(
                i as nat,
                |k: int| ocaml_foreign_argument_text(arguments.deep_view()[k]),
            ),
        decreases arguments.len() - i,
    {
        let ghost before = parts.deep_view();
        parts.push(ocaml_foreign_argument(&arguments[i]));
        i = i + 1;
        assert(parts.deep_view() =~= before.push(
            ocaml_foreign_argument_text(arguments.deep_view()[i - 1]),
        ));
        assert(parts.deep_view() =~= Seq::new(
            i as nat,
            |k: int| ocaml_foreign_argument_text(arguments.deep_view()[k]),
        ));
    }
    assert(parts.deep_view() =~= Seq::new(
        arguments.deep_view().len(),
        |k: int| ocaml_foreign_argument_text(arguments.deep_view()[k]),
    ));
    concat_all(&parts)
}

/// The line that makes the slot for the result at place `i`.
pub open spec fn ocaml_result_slot_text(t: HostTypeModel, i: nat) -> Seq<char> {
    "  let "@
    + ocaml_slot_text(i)
    + " = allocate_n "@
    + ocaml_foreign_type_text(t)
    + " ~count:1 in\n"@
}

/// Writes the line that makes the slot for the result at place `i`.
pub fn ocaml_result_slot(t: &HostType, i: usize) -> (r: String)
    ensures
        r@ == ocaml_result_slot_text(t.deep_view(), i as nat),
{
    let mut out = String::from_str("  let ");
    out.append(ocaml_slot(i).as_str());
    out.append(" = allocate_n ");
    out.append(ocaml_foreign_type(t).as_str());
    out.append(" ~count:1 in\n");
    out
}

/// The lines that make the slots for the results.
pub open spec fn ocaml_result_slots_text(results: Seq<HostTypeModel>) -> Seq<char> {
    concatenated(
        Seq::new(
            results.len(),
            |k: int| ocaml_result_slot_text(results[k], k as nat),
        ),
    )
}

/// Writes the lines that make the slots for the results.
pub fn ocaml_result_slots(results: &Vec<HostType>) -> (r: String)
    ensures
        r@ == ocaml_result_slots_text(results.deep_view()),
{
    let mut parts: Vec<String> = Vec::new();
    let mut i: usize = 0;
    while i < results.len()
        invariant
            i <= results.len(),
            parts.deep_view() == Seq::new(
                i as nat,
                |k: int| ocaml_result_slot_text(results.deep_view()[k], k as nat),
            ),
        decreases results.len() - i,
    {
        let ghost before = parts.deep_view();
        parts.push(ocaml_result_slot(&results[i], i));
        i = i + 1;
        assert(parts.deep_view() =~= before.push(
            ocaml_result_slot_text(results.deep_view()[i - 1], (i - 1) as nat),
        ));
        assert(parts.deep_view() =~= Seq::new(
            i as nat,
            |k: int| ocaml_result_slot_text(results.deep_view()[k], k as nat),
        ));
    }
    assert(parts.deep_view() =~= Seq::new(
        results.deep_view().len(),
        |k: int| ocaml_result_slot_text(results.deep_view()[k], k as nat),
    ));
    concat_all(&parts)
}

/// What the call hands to the C function for the result at place `i`.
pub open spec fn ocaml_call_result_text(i: nat) -> Seq<char> {
    " "@
    + ocaml_slot_text(i)
}

/// Writes what the call hands to the C function for the result at place `i`.
pub fn ocaml_call_result(i: usize) -> (r: String)
    ensures
        r@ == ocaml_call_result_text(i as nat),
{
    let mut out = String::from_str(" ");
    out.append(ocaml_slot(i).as_str());
    out
}

/// What the call hands to the C function for its `n` results.
pub open spec fn ocaml_call_results_text(n: nat) -> Seq<char> {
    concatenated(
        Seq::new(
            n,
            |k: int| ocaml_call_result_text(k as nat),
        ),
    )
}

/// Writes what the call hands to the C function for its `n` results.
pub fn ocaml_call_results(n: usize) -> (r: String)
    ensures
        r@ == ocaml_call_results_text(n as nat),
{
    let mut parts: Vec<String> = Vec::new();
    let mut i: usize = 0;
    while i < n
        invariant
            i <= n,
            parts.deep_view() == Seq::new(
                i as nat,
                |k: int| ocaml_call_result_text(k as nat),
            ),
        decreases n - i,
    {
        let ghost before = parts.deep_view();
        parts.push(ocaml_call_result(i));
        i = i + 1;
        assert(parts.deep_view() =~= before.push(
            ocaml_call_result_text((i - 1) as nat),
        ));
        assert(parts.deep_view() =~= Seq::new(
            i as nat,
            |k: int| ocaml_call_result_text(k as nat),
        ));
    }
    assert(parts.deep_view() =~= Seq::new(
        (n as nat),
        |k: int| ocaml_call_result_text(k as nat),
    ));
    concat_all(&parts)
}

/// What the call hands to the C function for an argument: a scalar itself,
/// the object of a wrapper.
pub open spec fn ocaml_call_argument_text(a: ArgumentModel) -> Seq<char> {
    " "@
    + a.name
    + (if a.ty.is_handle() {
        "."@
        + ocaml_type_text(a.ty)
        + "_raw"@
    } else {
        Seq::<char>::empty()
    })
}

/// Writes what the call hands to the C function for an argument.
pub fn ocaml_call_argument(a: &Argument) -> (r: String)
    ensures
        r@ == ocaml_call_argument_text(a.deep_view()),
{
    let mut out = String::from_str(" ");
    out.append(a.name.as_str());
    let part1 = if a.ty.handle() {
        let mut out = String::from_str(".");
        out.append(ocaml_type(&a.ty).as_str());
        out.append("_raw");
        out
    } else {
        String::new()
    };
    out.append(part1.as_str());
    out
}

/// What the call hands to the C function for its arguments.
pub open spec fn ocaml_call_arguments_text(arguments: Seq<ArgumentModel>) -> Seq<char> {
    concatenated(
        Seq::new(
            arguments.len(),
            |k: int| ocaml_call_argument_text(arguments[k]),
        ),
    )
}

/// Writes what the call hands to the C function for its arguments.
pub fn ocaml_call_arguments(arguments: &Vec<Argument>) -> (r: String)
    ensures
        r@ == ocaml_call_arguments_text(arguments.deep_view()),
{
    let mut parts: Vec<String> = Vec::new();
    let mut i: usize = 0;
    while i < arguments.len()
        invariant
            i <= arguments.len(),
            parts.deep_view() == Seq::new(
                i as nat,
                |k: int| ocaml_call_argument_text(arguments.deep_view()[k]),
            ),
        decreases arguments.len() - i,
    {
        let ghost before = parts.deep_view();
        parts.push(ocaml_call_argument(&arguments[i]));
        i = i + 1;
        assert(parts.deep_view() =~= before.push(
            ocaml_call_argument_text(arguments.deep_view()[i - 1]),
        ));
        assert(parts.deep_view() =~= Seq::new(
            i as nat,
            |k: int| ocaml_call_argument_text(arguments.deep_view()[k]),
        ));
    }
    assert(parts.deep_view() =~= Seq::new(
        arguments.deep_view().len(),
        |k: int| ocaml_call_argument_text(arguments.deep_view()[k]),
    ));
    concat_all(&parts)
}

/// The value that the function returns for the result at place `i`.
pub open spec fn ocaml_result_value_text(t: HostTypeModel, i: nat) -> Seq<char> {
    ocaml_read_text(t, "ctx"@, ocaml_slot_text(i))
}

/// Writes the value that the function returns for the result at place `i`.
pub fn ocaml_result_value(t: &HostType, i: usize) -> (r: String)
    ensures
        r@ == ocaml_result_value_text(t.deep_view(), i as nat),
{
    ocaml_read(t, "ctx", ocaml_slot(i).as_str())
}

/// The values that a function returns, in their order.
pub open spec fn ocaml_result_values_text(results: Seq<HostTypeModel>) -> Seq<char> {
    joined(
        Seq::new(
            results.len(),
            |k: int| ocaml_result_value_text(results[k], k as nat),
        ),
        ", "@,
    )
}

/// Writes the values that a function returns.
pub fn ocaml_result_values(results: &Vec<HostType>) -> (r: String)
    ensures
        r@ == ocaml_result_values_text(results.deep_view()),
{
    let mut parts: Vec<String> = Vec::new();
    let mut i: usize = 0;
    while i < results.len()
        invariant
            i <= results.len(),
            parts.deep_view() == Seq::new(
                i as nat,
                |k: int| ocaml_result_value_text(results.deep_view()[k], k as nat),
            ),
        decreases results.len() - i,
    {
        let ghost before = parts.deep_view();
        parts.push(ocaml_result_value(&results[i], i));
        i = i + 1;
        assert(parts.deep_view() =~= before.push(
            ocaml_result_value_text(results.deep_view()[i - 1], (i - 1) as nat),
        ));
        assert(parts.deep_view() =~= Seq::new(
            i as nat,
            |k: int| ocaml_result_value_text(results.deep_view()[k], k as nat),
        ));
    }
    assert(parts.deep_view() =~= Seq::new(
        results.deep_view().len(),
        |k: int| ocaml_result_value_text(results.deep_view()[k], k as nat),
    ));
    join_all(&parts, ", ")
}

/// What the documentation of a function says of an argument: of a
/// consumed one, that the caller must not use it again. Nothing in the host
/// language holds the caller to this.
pub open spec fn ocaml_consumed_note_text(a: ArgumentModel) -> Seq<char> {
    (if a.passing == Passing::Consumed {
        " It consumes `"@
        + a.name
        + "`: do not use that value again."@
    } else {
        Seq::<char>::empty()
    })
}

/// Writes what the documentation of a function says of an argument.
pub fn ocaml_consumed_note(a: &Argument) -> (r: String)
    ensures
        r@ == ocaml_consumed_note_text(a.deep_view()),
{
    if a.passing == Passing::Consumed {
        let mut out = String::from_str(" It consumes `");
        out.append(a.name.as_str());
        out.append("`: do not use that value again.");
        out
    } else {
        String::new()
    }
}

/// What the documentation of a function says of its arguments.
pub open spec fn ocaml_consumed_notes_text(arguments: Seq<ArgumentModel>) -> Seq<char> {
    concatenated(
        Seq::new(
            arguments.len(),
            |k: int| ocaml_consumed_note_text(arguments[k]),
        ),
    )
}

/// Writes what the documentation of a function says of its arguments.
pub fn ocaml_consumed_notes(arguments: &Vec<Argument>) -> (r: String)
    ensures
        r@ == ocaml_consumed_notes_text(arguments.deep_view()),
{
    let mut parts: Vec<String> = Vec::new();
    let mut i: usize = 0;
    while i < arguments.len()
        invariant
            i <= arguments.len(),
            parts.deep_view() == Seq::new(
                i as nat,
                |k: int| ocaml_consumed_note_text(arguments.deep_view()[k]),
            ),
        decreases arguments.len() - i,
    {
        let ghost before = parts.deep_view();
        parts.push(ocaml_consumed_note(&arguments[i]));
        i = i + 1;
        assert(parts.deep_view() =~= before.push(
            ocaml_consumed_note_text(arguments.deep_view()[i - 1]),
        ));
        assert(parts.deep_view() =~= Seq::new(
            i as nat,
            |k: int| ocaml_consumed_note_text(arguments.deep_view()[k]),
        ));
    }
    assert(parts.deep_view() =~= Seq::new(
        arguments.deep_view().len(),
        |k: int| ocaml_consumed_note_text(arguments.deep_view()[k]),
    ));
    concat_all(&parts)
}

/// The function for an entry point. It calls the C function, raises an
/// exception where the call failed, synchronises the context where the
/// backend works asynchronously, and only then reads the results.
pub open spec fn ocaml_function_text(m: MethodModel) -> Seq<char> {
    "let "@
    + m.name
    + "_raw = foreign \""@
    + m.cfun
    + "\" (ptr void"@
    + ocaml_foreign_results_text(m.results)
    + ocaml_foreign_arguments_text(m.arguments)
    + " @-> returning int)\n"@
    + "\n"@
    + "(* The entry point `"@
    + m.name
    + "`."@
    + ocaml_consumed_notes_text(m.arguments)
    + " *)\n"@
    + "let "@
    + m.name
    + " (ctx : context)"@
    + ocaml_arguments_text(m.arguments)
    + " : "@
    + ocaml_results_text(m.results)
    + " =\n"@
    + ocaml_result_slots_text(m.results)
    + "  check ctx ("@
    + m.name
    + "_raw ctx.handle"@
    + ocaml_call_results_text(m.results.len())
    + ocaml_call_arguments_text(m.arguments)
    + ");\n"@
    + (if m.synchronise {
        "  sync ctx;\n"@
    } else {
        Seq::<char>::empty()
    })
    + "  ("@
    + ocaml_result_values_text(m.results)
    + ")\n"@
    + "\n"@
}

/// Writes the function for an entry point.
pub fn ocaml_function(m: &Method) -> (r: String)
    ensures
        r@ == ocaml_function_text(m.deep_view()),
{
    let mut out = String::from_str("let ");
    out.append(m.name.as_str());
    out.append("_raw = foreign \"");
    out.append(m.cfun.as_str());
    out.append("\" (ptr void");
    out.append(ocaml_foreign_results(&m.results).as_str());
    out.append(ocaml_foreign_arguments(&m.arguments).as_str());
    out.append(" @-> returning int)\n");
    out.append("\n");
    out.append("(* The entry point `");
    out.append(m.name.as_str());
    out.append("`.");
    out.append(ocaml_consumed_notes(&m.arguments).as_str());
    out.append(" *)\n");
    out.append("let ");
    out.append(m.name.as_str());
    out.append(" (ctx : context)");
    out.append(ocaml_arguments(&m.arguments).as_str());
    out.append(" : ");
    out.append(ocaml_results(&m.results).as_str());
    out.append(" =\n");
    out.append(ocaml_result_slots(&m.results).as_str());
    out.append("  check ctx (");
    out.append(m.name.as_str());
    out.append("_raw ctx.handle");
    out.append(ocaml_call_results(m.results.len()).as_str());
    out.append(ocaml_call_arguments(&m.arguments).as_str());
    out.append(");\n");
    let part1 = if m.synchronise {
        String::from_str("  sync ctx;\n")
    } else {
        String::new()
    };
    out.append(part1.as_str());
    out.append("  (");
    out.append(ocaml_result_values(&m.results).as_str());
    out.append(")\n");
    out.append("\n");
    out
}

/// The functions for the entry points, in the order of their names.
pub open spec fn ocaml_functions_text(methods: Seq<MethodModel>) -> Seq<char> {
    concatenated(
        Seq::new(
            methods.len(),
            |k: int| ocaml_function_text(methods[k]),
        ),
    )
}

/// Writes the functions for the entry points.
pub fn ocaml_functions(methods: &Vec<Method>) -> (r: String)
    ensures
        r@ == ocaml_functions_text(methods.deep_view()),
{
    let mut parts: Vec<String> = Vec::new();
    let mut i: usize = 0;
    while i < methods.len()
        invariant
            i <= methods.len(),
            parts.deep_view() == Seq::new(
                i as nat,
                |k: int| ocaml_function_text(methods.deep_view()[k]),
            ),
        decreases methods.len() - i,
    {
        let ghost before = parts.deep_view();
        parts.push(ocaml_function(&methods[i]));
        i = i + 1;
        assert(parts.deep_view() =~= before.push(
            ocaml_function_text(methods.deep_view()[i - 1]),
        ));
        assert(parts.deep_view() =~= Seq::new(
            i as nat,
            |k: int| ocaml_function_text(methods.deep_view()[k]),
        ));
    }
    assert(parts.deep_view() =~= Seq::new(
        methods.deep_view().len(),
        |k: int| ocaml_function_text(methods.deep_view()[k]),
    ));
    concat_all(&parts)
}

/// What every module of bindings holds, whatever the manifest: the
/// exception, and the context, which owns the state of the C library.
pub open spec fn ocaml_prelude_text() -> Seq<char> {
    "open Ctypes\n"@
    + "open Foreign\n"@
    + "\n"@
    + "(* A failure that the bindings report. *)\n"@
    + "exception Error of string\n"@
    + "\n"@
    + "let context_config_new = foreign \"futhark_context_config_new\" (void @-> returning (ptr void))\n"@
    + "let context_config_free = foreign \"futhark_context_config_free\" (ptr void @-> returning void)\n"@
    + "let context_new = foreign \"futhark_context_new\" (ptr void @-> returning (ptr void))\n"@
    + "let context_free = foreign \"futhark_context_free\" (ptr void @-> returning void)\n"@
    + "let context_sync = foreign \"futhark_context_sync\" (ptr void @-> returning int)\n"@
    + "let context_get_error = foreign \"futhark_context_get_error\" (ptr void @-> returning string_opt)\n"@
    + "let c_free = foreign \"free\" (ptr void @-> returning void)\n"@
    + "\n"@
    + "(* The state of the C library. The collector frees the C context and then\n"@
    + "   its configuration once the value is out of reach. *)\n"@
    + "type context = { config : unit ptr; handle : unit ptr }\n"@
    + "\n"@
    + "let check (ctx : context) (code : int) : unit =\n"@
    + "  if code <> 0 then\n"@
    + "    match context_get_error ctx.handle with\n"@
    + "    | Some message -> raise (Error message)\n"@
    + "    | None -> raise (Error \"\")\n"@
    + "\n"@
    + "(* Waits until the work handed to the backend is done. *)\n"@
    + "let sync (ctx : context) : unit = check ctx (context_sync ctx.handle)\n"@
    + "\n"@
    + "(* Makes a context with the default configuration. *)\n"@
    + "let context () : context =\n"@
    + "  let config = context_config_new () in\n"@
    + "  if is_null config then raise (Error \"no configuration\");\n"@
    + "  let handle = context_new config in\n"@
    + "  if is_null handle then begin\n"@
    + "    context_config_free config;\n"@
    + "    raise (Error \"no context\")\n"@
    + "  end;\n"@
    + "  let ctx = { config; handle } in\n"@
    + "  Gc.finalise (fun c -> context_free c.handle; context_config_free c.config) ctx;\n"@
    + "  ctx\n"@
    + "\n"@
}

/// Writes what every module of bindings holds.
pub fn ocaml_prelude() -> (r: String)
    ensures
        r@ == ocaml_prelude_text(),
{
    let mut out = String::from_str("open Ctypes\n");
    out.append("open Foreign\n");
    out.append("\n");
    out.append("(* A failure that the bindings report. *)\n");
    out.append("exception Error of string\n");
    out.append("\n");
    out.append("let context_config_new = foreign \"futhark_context_config_new\" (void @-> returning (ptr void))\n");
    out.append("let context_config_free = foreign \"futhark_context_config_free\" (ptr void @-> returning void)\n");
    out.append("let context_new = foreign \"futhark_context_new\" (ptr void @-> returning (ptr void))\n");
    out.append("let context_free = foreign \"futhark_context_free\" (ptr void @-> returning void)\n");
    out.append("let context_sync = foreign \"futhark_context_sync\" (ptr void @-> returning int)\n");
    out.append("let context_get_error = foreign \"futhark_context_get_error\" (ptr void @-> returning string_opt)\n");
    out.append("let c_free = foreign \"free\" (ptr void @-> returning void)\n");
    out.append("\n");
    out.append("(* The state of the C library. The collector frees the C context and then\n");
    out.append("   its configuration once the value is out of reach. *)\n");
    out.append("type context = { config : unit ptr; handle : unit ptr }\n");
    out.append("\n");
    out.append("let check (ctx : context) (code : int) : unit =\n");
    out.append("  if code <> 0 then\n");
    out.append("    match context_get_error ctx.handle with\n");
    out.append("    | Some message -> raise (Error message)\n");
    out.append("    | None -> raise (Error \"\")\n");
    out.append("\n");
    out.append("(* Waits until the work handed to the backend is done. *)\n");
    out.append("let sync (ctx : context) : unit = check ctx (context_sync ctx.handle)\n");
    out.append("\n");
    out.append("(* Makes a context with the default configuration. *)\n");
    out.append("let context () : context =\n");
    out.append("  let config = context_config_new () in\n");
    out.append("  if is_null config then raise (Error \"no configuration\");\n");
    out.append("  let handle = context_new config in\n");
    out.append("  if is_null handle then begin\n");
    out.append("    context_config_free config;\n");
    out.append("    raise (Error \"no context\")\n");
    out.append("  end;\n");
    out.append("  let ctx = { config; handle } in\n");
    out.append("  Gc.finalise (fun c -> context_free c.handle; context_config_free c.config) ctx;\n");
    out.append("  ctx\n");
    out.append("\n");
    out
}

/// The first lines of the module: its name, and the attribute that keeps
/// the compiler quiet about it where it is wanted.
pub open spec fn ocaml_header_text(module: Seq<char>, attributes: bool) -> Seq<char> {
    "(* Bindings of the module `"@
    + module
    + "`. *)\n"@
    + (if attributes {
        "[@@@warning \"-32\"]\n"@
    } else {
        Seq::<char>::empty()
    })
    + "\n"@
}

/// Writes the first lines of the module.
pub fn ocaml_header(module: &str, attributes: bool) -> (r: String)
    ensures
        r@ == ocaml_header_text(module@, attributes),
{
    let mut out = String::from_str("(* Bindings of the module `");
    out.append(module);
    out.append("`. *)\n");
    let part1 = if attributes {
        String::from_str("[@@@warning \"-32\"]\n")
    } else {
        String::new()
    };
    out.append(part1.as_str());
    out.append("\n");
    out
}

/// The module of bindings in the ML-family language. The wrapper types
/// come first, then the functions that hand out no other wrapper, then the
/// accessors, so that an accessor may hand out a wrapper of any type; the
/// functions for the entry points come last.
pub open spec fn ocaml_module_text(b: BindingsModel, module: Seq<char>, attributes: bool) -> Seq<char> {
    ocaml_header_text(module, attributes)
    + ocaml_prelude_text()
    + ocaml_declarations_text(b.wrappers)
    + "\n"@
    + ocaml_definitions_text(b.wrappers)
    + ocaml_projections_text(b.wrappers)
    + ocaml_functions_text(b.methods)
}

/// Writes the module of bindings in the ML-family language.
pub fn ocaml_module(b: &Bindings, module: &str, attributes: bool) -> (r: String)
    ensures
        r@ == ocaml_module_text(b.deep_view(), module@, attributes),
{
    let mut out = ocaml_header(module, attributes);
    out.append(ocaml_prelude().as_str());
    out.append(ocaml_declarations(&b.wrappers).as_str());
    out.append("\n");
    out.append(ocaml_definitions(&b.wrappers).as_str());
    out.append(ocaml_projections(&b.wrappers).as_str());
    out.append(ocaml_functions(&b.methods).as_str());
    out
}

/// The shape accessor of the wrapper of an array type returns a tuple that
/// holds one extent for each dimension: its head ends in the product of as
/// many parts as the rank says.
pub proof fn lemma_ocaml_shape_has_rank_extents(a: ArrayWrapperModel, name: Seq<char>)
    ensures
        exists|parts: Seq<Seq<char>>, rest: Seq<char>|
            {
                &&& parts.len() == a.extents()
                &&& forall|k: int| 0 <= k < parts.len() ==> parts[k] == "int64"@
                &&& ocaml_array_shape_text(a, name) == "(* The extent of each dimension. *)\n"@
                    + "let "@ + name + "_shape (value : "@ + name + ") : "@ + joined(
                    parts,
                    " * "@,
                ) + rest
            },
{
    let parts = Seq::new(a.rank, |k: int| "int64"@);
    let rest = " =\n"@ + "  let extents = "@ + name + "_extents value."@ + name
        + "_context.handle value."@ + name + "_raw in\n"@ + "  ("@ + ocaml_extent_reads_text(
        a.rank,
    ) + ")\n"@ + "\n"@;
    assert(ocaml_array_shape_text(a, name) =~= "(* The extent of each dimension. *)\n"@ + "let "@
        + name + "_shape (value : "@ + name + ") : "@ + joined(parts, " * "@) + rest);
}

} // verus!
