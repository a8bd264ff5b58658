//! What the bindings hold, before any of it is spelled in a host language:
//! the host-side type behind each type name, and the signature of the method
//! made for each entry point.

use vstd::prelude::*;
use vstd::string::*;
use crate::keyed::{has_key, lemma_one_place, value_of};
use crate::manifest::{
    ArrayTypeModel, Composite, EntryPointModel, Manifest, ManifestModel, OpaqueTypeModel,
    ParamModel, TypeDecl, TypeDeclModel,
};
use crate::primitive::{primitive_named, Primitive};
use crate::text::{
    decimal, decimal_text, identifier_for, identifier_of, is_c_identifier, lemma_identifier_of,
    precedes,
};

verus! {

/// The host-side type that stands for a type name of the manifest.
#[derive(Debug)]
pub enum HostType {
    /// A scalar, passed by value.
    Scalar(Primitive),
    /// The owning wrapper of the arrays of one element type and rank.
    Array { elem: Primitive, rank: u64 },
    /// The owning wrapper of an opaque type.
    Opaque { name: String },
}

/// A `HostType` as plain values.
pub enum HostTypeModel {
    Scalar(Primitive),
    Array { elem: Primitive, rank: nat },
    Opaque { name: Seq<char> },
}

impl DeepView for HostType {
    type V = HostTypeModel;

    open spec fn deep_view(&self) -> HostTypeModel {
        match self {
            HostType::Scalar(p) => HostTypeModel::Scalar(*p),
            HostType::Array { elem, rank } => HostTypeModel::Array { elem: *elem, rank: *rank as nat },
            HostType::Opaque { name } => HostTypeModel::Opaque { name: name@ },
        }
    }
}

impl HostTypeModel {
    /// Whether a value of the type is a handle to an object of the C
    /// library, and not a scalar.
    pub open spec fn is_handle(self) -> bool {
        !(self is Scalar)
    }
}

impl HostType {
    /// Decides `is_handle`.
    pub fn handle(&self) -> (r: bool)
        ensures
            r == self.deep_view().is_handle(),
    {
        match self {
            HostType::Scalar(_) => false,
            _ => true,
        }
    }
}

/// How a method takes an argument.
#[derive(Debug, Clone, Copy, PartialEq, Eq, Structural)]
pub enum Passing {
    /// A scalar that the callee does not take over: the caller keeps its
    /// own.
    Copied,
    /// A handle that the callee only reads: the caller keeps it.
    Borrowed,
    /// Moved into the call: the caller cannot use it again.
    Consumed,
}

/// How an argument of type `ty` is taken: a unique one is consumed, another
/// is copied where it is a scalar and borrowed where it is a handle.
pub open spec fn passing_of(unique: bool, ty: HostTypeModel) -> Passing {
    if unique {
        Passing::Consumed
    } else if ty.is_handle() {
        Passing::Borrowed
    } else {
        Passing::Copied
    }
}

/// An argument of a method.
#[derive(Debug)]
pub struct Argument {
    pub name: String,
    pub ty: HostType,
    pub passing: Passing,
}

/// An `Argument` as plain values.
pub struct ArgumentModel {
    pub name: Seq<char>,
    pub ty: HostTypeModel,
    pub passing: Passing,
}

impl DeepView for Argument {
    type V = ArgumentModel;

    open spec fn deep_view(&self) -> ArgumentModel {
        ArgumentModel { name: self.name@, ty: self.ty.deep_view(), passing: self.passing }
    }
}

/// The method that the context gets for an entry point.
#[derive(Debug)]
pub struct Method {
    pub name: String,
    /// The C symbol that the method calls.
    pub cfun: String,
    pub arguments: Vec<Argument>,
    pub results: Vec<HostType>,
    /// Whether the context is synchronised before the results are read.
    pub synchronise: bool,
}

/// A `Method` as plain values.
pub struct MethodModel {
    pub name: Seq<char>,
    pub cfun: Seq<char>,
    pub arguments: Seq<ArgumentModel>,
    pub results: Seq<HostTypeModel>,
    pub synchronise: bool,
}

impl DeepView for Method {
    type V = MethodModel;

    open spec fn deep_view(&self) -> MethodModel {
        MethodModel {
            name: self.name@,
            cfun: self.cfun@,
            arguments: self.arguments.deep_view(),
            results: self.results.deep_view(),
            synchronise: self.synchronise,
        }
    }
}

/// The letter that stands at place `k` of the alphabet.
pub open spec fn letter_text(k: nat) -> Seq<char> {
    if k == 0 {
        "a"@
    } else if k == 1 {
        "b"@
    } else if k == 2 {
        "c"@
    } else if k == 3 {
        "d"@
    } else if k == 4 {
        "e"@
    } else if k == 5 {
        "f"@
    } else if k == 6 {
        "g"@
    } else if k == 7 {
        "h"@
    } else if k == 8 {
        "i"@
    } else if k == 9 {
        "j"@
    } else if k == 10 {
        "k"@
    } else if k == 11 {
        "l"@
    } else if k == 12 {
        "m"@
    } else if k == 13 {
        "n"@
    } else if k == 14 {
        "o"@
    } else if k == 15 {
        "p"@
    } else if k == 16 {
        "q"@
    } else if k == 17 {
        "r"@
    } else if k == 18 {
        "s"@
    } else if k == 19 {
        "t"@
    } else if k == 20 {
        "u"@
    } else if k == 21 {
        "v"@
    } else if k == 22 {
        "w"@
    } else if k == 23 {
        "x"@
    } else if k == 24 {
        "y"@
    } else {
        "z"@
    }
}

/// The name of the argument at place `i`: `a` to `z` for the first
/// twenty-six, then `a1` to `z1`, and so on.
pub open spec fn argument_name(i: nat) -> Seq<char> {
    if i < 26 {
        letter_text(i)
    } else {
        letter_text(i % 26) + decimal_text(i / 26)
    }
}

fn letter(k: usize) -> (r: &'static str)
    ensures
        r@ == letter_text(k as nat),
{
    if k == 0 {
        "a"
    } else if k == 1 {
        "b"
    } else if k == 2 {
        "c"
    } else if k == 3 {
        "d"
    } else if k == 4 {
        "e"
    } else if k == 5 {
        "f"
    } else if k == 6 {
        "g"
    } else if k == 7 {
        "h"
    } else if k == 8 {
        "i"
    } else if k == 9 {
        "j"
    } else if k == 10 {
        "k"
    } else if k == 11 {
        "l"
    } else if k == 12 {
        "m"
    } else if k == 13 {
        "n"
    } else if k == 14 {
        "o"
    } else if k == 15 {
        "p"
    } else if k == 16 {
        "q"
    } else if k == 17 {
        "r"
    } else if k == 18 {
        "s"
    } else if k == 19 {
        "t"
    } else if k == 20 {
        "u"
    } else if k == 21 {
        "v"
    } else if k == 22 {
        "w"
    } else if k == 23 {
        "x"
    } else if k == 24 {
        "y"
    } else {
        "z"
    }
}

/// Names the argument at place `i`.
pub fn name_argument(i: usize) -> (r: String)
    ensures
        r@ == argument_name(i as nat),
{
    if i < 26 {
        String::from_str(letter(i))
    } else {
        let mut out = String::from_str(letter(i % 26));
        let round: u64 = (i / 26) as u64;
        out.append(decimal(round).as_str());
        out
    }
}

impl ManifestModel {
    /// The host-side type behind the type name `ty`: the scalar of that
    /// name, or else the wrapper of the array or opaque type declared under
    /// it. A name that stands for neither has none.
    pub open spec fn host_type(self, ty: Seq<char>) -> Option<HostTypeModel> {
        match primitive_named(ty) {
            Some(p) => Some(HostTypeModel::Scalar(p)),
            None => if has_key(self.types, ty) {
                match value_of(self.types, ty) {
                    TypeDeclModel::Array(a) => match primitive_named(a.elemtype) {
                        Some(e) => Some(HostTypeModel::Array { elem: e, rank: a.rank }),
                        None => None,
                    },
                    TypeDeclModel::Opaque(_) => Some(HostTypeModel::Opaque { name: ty }),
                }
            } else {
                None
            },
        }
    }

    /// The argument that a method gets for the input at place `i` of `e`.
    pub open spec fn argument(self, e: EntryPointModel, i: int) -> ArgumentModel {
        let ty = self.host_type(e.inputs[i].ty)->0;
        ArgumentModel {
            name: argument_name(i as nat),
            ty,
            passing: passing_of(e.inputs[i].unique, ty),
        }
    }

    /// The method for the entry point `e` that goes by `name`: one argument
    /// for each input and one result for each output, in their order, with
    /// a synchronisation where the backend works asynchronously.
    pub open spec fn method(self, name: Seq<char>, e: EntryPointModel) -> MethodModel {
        MethodModel {
            name,
            cfun: e.cfun,
            arguments: Seq::new(e.inputs.len(), |i: int| self.argument(e, i)),
            results: Seq::new(e.outputs.len(), |i: int| self.host_type(e.outputs[i].ty)->0),
            synchronise: self.backend.asynchronous(),
        }
    }
}

/// In a manifest that keeps its rules, a type name that resolves has a
/// host-side type.
pub proof fn lemma_resolved_has_host_type(m: ManifestModel, ty: Seq<char>)
    requires
        m.valid(),
        m.resolves(ty),
    ensures
        m.host_type(ty) is Some,
{
    if primitive_named(ty) is None {
        let i = choose|i: int| 0 <= i < m.types.len() && (#[trigger] m.types[i]).0 == ty;
        lemma_one_place(m.types, ty, i);
        assert(m.type_valid(i));
    }
}

/// In a manifest that keeps its rules, every type that an entry point takes
/// or gives and every type that a projection hands out resolves within the
/// manifest, and has a host-side type.
pub proof fn lemma_references_resolve(m: ManifestModel)
    requires
        m.valid(),
    ensures
        forall|i: int, j: int|
            #![trigger m.entry_points[i].1.inputs[j]]
            0 <= i < m.entry_points.len() && 0 <= j < m.entry_points[i].1.inputs.len() ==> {
                &&& m.resolves(m.entry_points[i].1.inputs[j].ty)
                &&& m.host_type(m.entry_points[i].1.inputs[j].ty) is Some
            },
        forall|i: int, j: int|
            #![trigger m.entry_points[i].1.outputs[j]]
            0 <= i < m.entry_points.len() && 0 <= j < m.entry_points[i].1.outputs.len() ==> {
                &&& m.resolves(m.entry_points[i].1.outputs[j].ty)
                &&& m.host_type(m.entry_points[i].1.outputs[j].ty) is Some
            },
        forall|i: int, j: int|
            #![trigger m.types[i].1->Opaque_0.projections[j]]
            0 <= i < m.types.len() && m.types[i].1 is Opaque && 0 <= j
                < m.types[i].1->Opaque_0.projections.len() ==> {
                &&& m.resolves(m.types[i].1->Opaque_0.projections[j].ty)
                &&& m.host_type(m.types[i].1->Opaque_0.projections[j].ty) is Some
            },
{
    assert forall|i: int, j: int|
        #![trigger m.entry_points[i].1.inputs[j]]
        0 <= i < m.entry_points.len() && 0 <= j < m.entry_points[i].1.inputs.len() implies {
        &&& m.resolves(m.entry_points[i].1.inputs[j].ty)
        &&& m.host_type(m.entry_points[i].1.inputs[j].ty) is Some
    } by {
        assert(m.entry_point_valid(i));
        lemma_resolved_has_host_type(m, m.entry_points[i].1.inputs[j].ty);
    }
    assert forall|i: int, j: int|
        #![trigger m.entry_points[i].1.outputs[j]]
        0 <= i < m.entry_points.len() && 0 <= j < m.entry_points[i].1.outputs.len() implies {
        &&& m.resolves(m.entry_points[i].1.outputs[j].ty)
        &&& m.host_type(m.entry_points[i].1.outputs[j].ty) is Some
    } by {
        assert(m.entry_point_valid(i));
        lemma_resolved_has_host_type(m, m.entry_points[i].1.outputs[j].ty);
    }
    assert forall|i: int, j: int|
        #![trigger m.types[i].1->Opaque_0.projections[j]]
        0 <= i < m.types.len() && m.types[i].1 is Opaque && 0 <= j
            < m.types[i].1->Opaque_0.projections.len() implies {
        &&& m.resolves(m.types[i].1->Opaque_0.projections[j].ty)
        &&& m.host_type(m.types[i].1->Opaque_0.projections[j].ty) is Some
    } by {
        assert(m.type_valid(i));
        lemma_resolved_has_host_type(m, m.types[i].1->Opaque_0.projections[j].ty);
    }
}

impl Manifest {
    /// Finds the host-side type behind the type name `ty`.
    pub fn host_type(&self, ty: &str) -> (r: Option<HostType>)
        ensures
            r.deep_view() == self@.host_type(ty@),
    {
        match Primitive::from_name(ty) {
            Some(p) => Some(HostType::Scalar(p)),
            None => match self.type_decl(ty) {
                Some(TypeDecl::Array(a)) => match Primitive::from_name(a.elemtype.as_str()) {
                    Some(e) => Some(HostType::Array { elem: e, rank: a.rank }),
                    None => None,
                },
                Some(TypeDecl::Opaque(_)) => Some(HostType::Opaque { name: String::from_str(ty) }),
                None => None,
            },
        }
    }

    /// Plans the method for the entry point at place `i`.
    pub fn method(&self, i: usize) -> (r: Method)
        requires
            self@.valid(),
            i < self@.entry_points.len(),
        ensures
            r.deep_view() == self@.method(self@.entry_points[i as int].0, self@.entry_points[i as int].1),
    {
        let entries = self.entry_points();
        let name = &entries[i].0;
        let entry = &entries[i].1;
        let ghost e = entry.deep_view();
        assert(self@.entry_points[i as int] == (name@, e));
        proof {
            lemma_references_resolve(self@);
        }
        let mut arguments: Vec<Argument> = Vec::new();
        let mut j: usize = 0;
        while j < entry.inputs.len()
            invariant
                j <= entry.inputs.len(),
                self@.valid(),
                i < self@.entry_points.len(),
                e == entry.deep_view(),
                self@.entry_points[i as int].1 == e,
                forall|k: int|
                    0 <= k < e.inputs.len() ==> self@.host_type((#[trigger] e.inputs[k]).ty) is Some,
                arguments.deep_view() == Seq::new(j as nat, |k: int| self@.argument(e, k)),
            decreases entry.inputs.len() - j,
        {
            let input = &entry.inputs[j];
            assert(e.inputs[j as int] == input.deep_view());
            let found = self.host_type(input.ty.as_str());
            assert(found is Some);
            let ty = found.unwrap();
            let passing = if input.unique {
                Passing::Consumed
            } else if ty.handle() {
                Passing::Borrowed
            } else {
                Passing::Copied
            };
            let ghost before = arguments.deep_view();
            let argument = Argument { name: name_argument(j), ty, passing };
            assert(argument.deep_view() == self@.argument(e, j as int));
            arguments.push(argument);
            j = j + 1;
            assert(arguments.deep_view() =~= before.push(self@.argument(e, j - 1)));
            assert(arguments.deep_view() =~= Seq::new(j as nat, |k: int| self@.argument(e, k)));
        }
        let mut results: Vec<HostType> = Vec::new();
        let mut j: usize = 0;
        while j < entry.outputs.len()
            invariant
                j <= entry.outputs.len(),
                self@.valid(),
                i < self@.entry_points.len(),
                e == entry.deep_view(),
                self@.entry_points[i as int].1 == e,
                forall|k: int|
                    0 <= k < e.outputs.len() ==> self@.host_type((#[trigger] e.outputs[k]).ty) is Some,
                results.deep_view() == Seq::new(
                    j as nat,
                    |k: int| self@.host_type(e.outputs[k].ty)->0,
                ),
            decreases entry.outputs.len() - j,
        {
            let output = &entry.outputs[j];
            assert(e.outputs[j as int] == output.deep_view());
            let found = self.host_type(output.ty.as_str());
            assert(found is Some);
            let ghost before = results.deep_view();
            results.push(found.unwrap());
            j = j + 1;
            assert(results.deep_view() =~= before.push(self@.host_type(e.outputs[j - 1].ty)->0));
            assert(results.deep_view() =~= Seq::new(
                j as nat,
                |k: int| self@.host_type(e.outputs[k].ty)->0,
            ));
        }
        Method {
            name: name.clone(),
            cfun: entry.cfun.clone(),
            arguments,
            results,
            synchronise: self.backend().is_asynchronous(),
        }
    }
}

/// How many of the first `n` inputs are unique.
pub open spec fn unique_count(inputs: Seq<ParamModel>, n: nat) -> nat
    decreases n,
{
    if n == 0 {
        0
    } else {
        unique_count(inputs, (n - 1) as nat) + if inputs[n - 1].unique {
            1nat
        } else {
            0nat
        }
    }
}

/// How many of the first `n` arguments are consumed.
pub open spec fn consumed_count(arguments: Seq<ArgumentModel>, n: nat) -> nat
    decreases n,
{
    if n == 0 {
        0
    } else {
        consumed_count(arguments, (n - 1) as nat) + if arguments[n - 1].passing
            == Passing::Consumed {
            1nat
        } else {
            0nat
        }
    }
}

/// A method consumes the unique inputs of its entry point and no others:
/// the argument at each place is consumed exactly where the input at that
/// place is unique, so that as many arguments are consumed as inputs are
/// unique.
pub proof fn lemma_method_consumes_unique_inputs(
    m: ManifestModel,
    name: Seq<char>,
    e: EntryPointModel,
)
    ensures
        m.method(name, e).arguments.len() == e.inputs.len(),
        forall|i: int|
            0 <= i < e.inputs.len() ==> ((#[trigger] m.method(name, e).arguments[i]).passing
                == Passing::Consumed <==> e.inputs[i].unique),
        consumed_count(m.method(name, e).arguments, e.inputs.len()) == unique_count(
            e.inputs,
            e.inputs.len(),
        ),
{
    lemma_counts_agree(m, name, e, e.inputs.len());
}

proof fn lemma_counts_agree(m: ManifestModel, name: Seq<char>, e: EntryPointModel, n: nat)
    requires
        n <= e.inputs.len(),
    ensures
        consumed_count(m.method(name, e).arguments, n) == unique_count(e.inputs, n),
    decreases n,
{
    if n > 0 {
        lemma_counts_agree(m, name, e, (n - 1) as nat);
    }
}

/// The owning wrapper made for an array type.
#[derive(Debug)]
pub struct ArrayWrapper {
    pub elem: Primitive,
    pub rank: u64,
    /// The C symbols that make, free, measure and read an array.
    pub new: String,
    pub free: String,
    pub shape: String,
    pub values: String,
}

/// An `ArrayWrapper` as plain values.
pub struct ArrayWrapperModel {
    pub elem: Primitive,
    pub rank: nat,
    pub new: Seq<char>,
    pub free: Seq<char>,
    pub shape: Seq<char>,
    pub values: Seq<char>,
}

impl DeepView for ArrayWrapper {
    type V = ArrayWrapperModel;

    open spec fn deep_view(&self) -> ArrayWrapperModel {
        ArrayWrapperModel {
            elem: self.elem,
            rank: self.rank as nat,
            new: self.new@,
            free: self.free@,
            shape: self.shape@,
            values: self.values@,
        }
    }
}

impl ArrayWrapperModel {
    /// The host-side type of the wrapper.
    pub open spec fn host_type(self) -> HostTypeModel {
        HostTypeModel::Array { elem: self.elem, rank: self.rank }
    }

    /// How many extents the wrapper's shape accessor returns: one for each
    /// dimension.
    pub open spec fn extents(self) -> nat {
        self.rank
    }
}

impl ArrayWrapper {
    /// The host-side type of the wrapper.
    pub fn host_type(&self) -> (r: HostType)
        ensures
            r.deep_view() == self.deep_view().host_type(),
    {
        HostType::Array { elem: self.elem, rank: self.rank }
    }
}

/// An accessor of an opaque wrapper: it hands out a part of the value as a
/// new value that the caller owns.
#[derive(Debug)]
pub struct Accessor {
    pub name: String,
    /// The C symbol that takes the part out.
    pub project: String,
    pub ty: HostType,
}

/// An `Accessor` as plain values.
pub struct AccessorModel {
    pub name: Seq<char>,
    pub project: Seq<char>,
    pub ty: HostTypeModel,
}

impl DeepView for Accessor {
    type V = AccessorModel;

    open spec fn deep_view(&self) -> AccessorModel {
        AccessorModel { name: self.name@, project: self.project@, ty: self.ty.deep_view() }
    }
}

/// The owning wrapper made for an opaque type.
#[derive(Debug)]
pub struct OpaqueWrapper {
    pub name: String,
    /// The C symbols that free, write and read back a value.
    pub free: String,
    pub store: String,
    pub restore: String,
    pub accessors: Vec<Accessor>,
    pub composite: Composite,
}

/// An `OpaqueWrapper` as plain values.
pub struct OpaqueWrapperModel {
    pub name: Seq<char>,
    pub free: Seq<char>,
    pub store: Seq<char>,
    pub restore: Seq<char>,
    pub accessors: Seq<AccessorModel>,
    pub composite: Composite,
}

impl DeepView for OpaqueWrapper {
    type V = OpaqueWrapperModel;

    open spec fn deep_view(&self) -> OpaqueWrapperModel {
        OpaqueWrapperModel {
            name: self.name@,
            free: self.free@,
            store: self.store@,
            restore: self.restore@,
            accessors: self.accessors.deep_view(),
            composite: self.composite,
        }
    }
}

impl OpaqueWrapperModel {
    /// The host-side type of the wrapper.
    pub open spec fn host_type(self) -> HostTypeModel {
        HostTypeModel::Opaque { name: self.name }
    }
}

impl OpaqueWrapper {
    /// The host-side type of the wrapper.
    pub fn host_type(&self) -> (r: HostType)
        ensures
            r.deep_view() == self.deep_view().host_type(),
    {
        HostType::Opaque { name: self.name.clone() }
    }
}

/// The wrapper made for a type of the manifest.
#[derive(Debug)]
pub enum Wrapper {
    Array(ArrayWrapper),
    Opaque(OpaqueWrapper),
}

/// A `Wrapper` as plain values.
pub enum WrapperModel {
    Array(ArrayWrapperModel),
    Opaque(OpaqueWrapperModel),
}

impl DeepView for Wrapper {
    type V = WrapperModel;

    open spec fn deep_view(&self) -> WrapperModel {
        match self {
            Wrapper::Array(a) => WrapperModel::Array(a.deep_view()),
            Wrapper::Opaque(o) => WrapperModel::Opaque(o.deep_view()),
        }
    }
}

/// All that the bindings of one library hold: a wrapper for each type and a
/// method for each entry point, each list in the order of the manifest's
/// names.
#[derive(Debug)]
pub struct Bindings {
    pub wrappers: Vec<Wrapper>,
    pub methods: Vec<Method>,
}

/// `Bindings` as plain values.
pub struct BindingsModel {
    pub wrappers: Seq<WrapperModel>,
    pub methods: Seq<MethodModel>,
}

impl DeepView for Bindings {
    type V = BindingsModel;

    open spec fn deep_view(&self) -> BindingsModel {
        BindingsModel {
            wrappers: self.wrappers.deep_view(),
            methods: self.methods.deep_view(),
        }
    }
}

impl ManifestModel {
    /// The wrapper for the array type `a`.
    pub open spec fn array_wrapper(self, a: ArrayTypeModel) -> ArrayWrapperModel {
        ArrayWrapperModel {
            elem: primitive_named(a.elemtype)->0,
            rank: a.rank,
            new: a.ops.new,
            free: a.ops.free,
            shape: a.ops.shape,
            values: a.ops.values,
        }
    }

    /// The accessor for the projection at place `j` of the opaque type `o`.
    /// It goes by the identifier that stands for the projection's name.
    pub open spec fn accessor(self, o: OpaqueTypeModel, j: int) -> AccessorModel {
        AccessorModel {
            name: identifier_of(o.projections[j].name),
            project: o.projections[j].project,
            ty: self.host_type(o.projections[j].ty)->0,
        }
    }

    /// The wrapper for the opaque type `o` that goes by `name`: one accessor
    /// for each projection, in their order.
    pub open spec fn opaque_wrapper(self, name: Seq<char>, o: OpaqueTypeModel) -> OpaqueWrapperModel {
        OpaqueWrapperModel {
            name,
            free: o.ops.free,
            store: o.ops.store,
            restore: o.ops.restore,
            accessors: Seq::new(o.projections.len(), |j: int| self.accessor(o, j)),
            composite: o.composite,
        }
    }

    /// The wrapper for the type at place `i`.
    pub open spec fn wrapper(self, i: int) -> WrapperModel {
        match self.types[i].1 {
            TypeDeclModel::Array(a) => WrapperModel::Array(self.array_wrapper(a)),
            TypeDeclModel::Opaque(o) => WrapperModel::Opaque(
                self.opaque_wrapper(self.types[i].0, o),
            ),
        }
    }

    /// The bindings of the library: the wrapper of each type and the method
    /// of each entry point, in the order of their names.
    pub open spec fn bindings(self) -> BindingsModel {
        BindingsModel {
            wrappers: Seq::new(self.types.len(), |i: int| self.wrapper(i)),
            methods: Seq::new(
                self.entry_points.len(),
                |i: int| self.method(self.entry_points[i].0, self.entry_points[i].1),
            ),
        }
    }
}

impl Manifest {
    /// Plans the wrapper for the type at place `i`.
    pub fn wrapper(&self, i: usize) -> (r: Wrapper)
        requires
            self@.valid(),
            i < self@.types.len(),
        ensures
            r.deep_view() == self@.wrapper(i as int),
    {
        let types = self.types();
        let name = &types[i].0;
        assert(self@.types[i as int] == (name@, types[i as int].1.deep_view()));
        assert(self@.type_valid(i as int));
        match &types[i].1 {
            TypeDecl::Array(a) => {
                let elem = Primitive::from_name(a.elemtype.as_str());
                Wrapper::Array(
                    ArrayWrapper {
                        elem: elem.unwrap(),
                        rank: a.rank,
                        new: a.ops.new.clone(),
                        free: a.ops.free.clone(),
                        shape: a.ops.shape.clone(),
                        values: a.ops.values.clone(),
                    },
                )
            },
            TypeDecl::Opaque(o) => {
                let ghost model = o.deep_view();
                proof {
                    lemma_references_resolve(self@);
                    assert forall|k: int| 0 <= k < model.projections.len() implies self@.host_type(
                        (#[trigger] model.projections[k]).ty,
                    ) is Some by {
                        assert(self@.types[i as int].1->Opaque_0.projections[k] == model.projections[k]);
                    }
                }
                let mut accessors: Vec<Accessor> = Vec::new();
                let mut j: usize = 0;
                while j < o.projections.len()
                    invariant
                        j <= o.projections.len(),
                        self@.valid(),
                        model == o.deep_view(),
                        forall|k: int|
                            0 <= k < model.projections.len() ==> self@.host_type(
                                (#[trigger] model.projections[k]).ty,
                            ) is Some,
                        accessors.deep_view() == Seq::new(
                            j as nat,
                            |k: int| self@.accessor(model, k),
                        ),
                    decreases o.projections.len() - j,
                {
                    let p = &o.projections[j];
                    assert(model.projections[j as int] == p.deep_view());
                    let found = self.host_type(p.ty.as_str());
                    assert(found is Some);
                    let ghost before = accessors.deep_view();
                    accessors.push(
                        Accessor {
                            name: identifier_for(p.name.as_str()),
                            project: p.project.clone(),
                            ty: found.unwrap(),
                        },
                    );
                    j = j + 1;
                    assert(accessors.deep_view() =~= before.push(self@.accessor(model, j - 1)));
                    assert(accessors.deep_view() =~= Seq::new(
                        j as nat,
                        |k: int| self@.accessor(model, k),
                    ));
                }
                Wrapper::Opaque(
                    OpaqueWrapper {
                        name: name.clone(),
                        free: o.ops.free.clone(),
                        store: o.ops.store.clone(),
                        restore: o.ops.restore.clone(),
                        accessors,
                        composite: o.composite,
                    },
                )
            },
        }
    }

    /// Plans the bindings of the library.
    pub fn bindings(&self) -> (r: Bindings)
        requires
            self@.valid(),
        ensures
            r.deep_view() == self@.bindings(),
    {
        let mut wrappers: Vec<Wrapper> = Vec::new();
        let mut i: usize = 0;
        let count = self.types().len();
        while i < count
            invariant
                i <= count,
                count == self@.types.len(),
                self@.valid(),
                wrappers.deep_view() == Seq::new(i as nat, |k: int| self@.wrapper(k)),
            decreases count - i,
        {
            let ghost before = wrappers.deep_view();
            wrappers.push(self.wrapper(i));
            i = i + 1;
            assert(wrappers.deep_view() =~= before.push(self@.wrapper(i - 1)));
            assert(wrappers.deep_view() =~= Seq::new(i as nat, |k: int| self@.wrapper(k)));
        }
        let mut methods: Vec<Method> = Vec::new();
        let mut i: usize = 0;
        let count = self.entry_points().len();
        while i < count
            invariant
                i <= count,
                count == self@.entry_points.len(),
                self@.valid(),
                methods.deep_view() == Seq::new(
                    i as nat,
                    |k: int| self@.method(self@.entry_points[k].0, self@.entry_points[k].1),
                ),
            decreases count - i,
        {
            let ghost before = methods.deep_view();
            methods.push(self.method(i));
            i = i + 1;
            assert(methods.deep_view() =~= before.push(
                self@.method(self@.entry_points[i - 1].0, self@.entry_points[i - 1].1),
            ));
            assert(methods.deep_view() =~= Seq::new(
                i as nat,
                |k: int| self@.method(self@.entry_points[k].0, self@.entry_points[k].1),
            ));
        }
        Bindings { wrappers, methods }
    }
}

/// The bindings hold one wrapper for each type and one method for each
/// entry point, in the order of the manifest: where the names of the
/// manifest ascend, so do the names of the methods. The wrapper of an array
/// type of rank `r` is an array wrapper whose shape accessor returns `r`
/// extents. Every accessor of an opaque wrapper goes by an identifier.
pub proof fn lemma_bindings_cover_manifest(m: ManifestModel)
    ensures
        m.bindings().wrappers.len() == m.types.len(),
        m.bindings().methods.len() == m.entry_points.len(),
        forall|i: int|
            0 <= i < m.types.len() && (#[trigger] m.types[i]).1 is Array ==> {
                &&& m.bindings().wrappers[i] is Array
                &&& m.bindings().wrappers[i]->Array_0.extents() == m.types[i].1->Array_0.rank
            },
        forall|i: int|
            0 <= i < m.types.len() && (#[trigger] m.types[i]).1 is Opaque ==> {
                &&& m.bindings().wrappers[i] is Opaque
                &&& m.bindings().wrappers[i]->Opaque_0.name == m.types[i].0
                &&& m.bindings().wrappers[i]->Opaque_0.accessors.len()
                    == m.types[i].1->Opaque_0.projections.len()
            },
        forall|i: int, j: int|
            #![trigger m.bindings().wrappers[i]->Opaque_0.accessors[j]]
            0 <= i < m.types.len() && m.types[i].1 is Opaque && 0 <= j
                < m.types[i].1->Opaque_0.projections.len() ==> is_c_identifier(
                m.bindings().wrappers[i]->Opaque_0.accessors[j].name,
            ),
        forall|i: int|
            0 <= i < m.entry_points.len() ==> (#[trigger] m.bindings().methods[i]).name
                == m.entry_points[i].0,
        m.wf() ==> forall|i: int, j: int|
            #![trigger m.bindings().methods[i], m.bindings().methods[j]]
            0 <= i < j < m.entry_points.len() ==> precedes(
                m.bindings().methods[i].name,
                m.bindings().methods[j].name,
            ),
{
    assert forall|i: int, j: int|
        #![trigger m.bindings().wrappers[i]->Opaque_0.accessors[j]]
        0 <= i < m.types.len() && m.types[i].1 is Opaque && 0 <= j
            < m.types[i].1->Opaque_0.projections.len() implies is_c_identifier(
        m.bindings().wrappers[i]->Opaque_0.accessors[j].name,
    ) by {
        lemma_identifier_of(m.types[i].1->Opaque_0.projections[j].name);
    }
    if m.wf() {
        assert forall|i: int, j: int|
            #![trigger m.bindings().methods[i], m.bindings().methods[j]]
            0 <= i < j < m.entry_points.len() implies precedes(
            m.bindings().methods[i].name,
            m.bindings().methods[j].name,
        ) by {
            assert(precedes(m.entry_points[i].0, m.entry_points[j].0));
        }
    }
}

} // verus!
