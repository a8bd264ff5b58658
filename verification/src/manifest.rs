//! The manifest: what the upstream compiler says of the C library it wrote.

use vstd::prelude::*;
use vstd::string::*;
use crate::backend::Backend;
use crate::error::{Error, ErrorModel};
use crate::keyed::{ascending, find, has_key, insert, inserted, lemma_one_place, value_of};
use crate::primitive::{primitive_named, Primitive};
use crate::text::{c_identifier, is_c_identifier};

verus! {

/// An argument of an entry point.
#[derive(Debug)]
pub struct Param {
    /// The name of the argument's type: a scalar type or a type of the
    /// manifest.
    pub ty: String,
    /// Whether the callee takes the argument over: the caller may not use it
    /// again.
    pub unique: bool,
}

/// A `Param` as plain values.
pub struct ParamModel {
    pub ty: Seq<char>,
    pub unique: bool,
}

impl DeepView for Param {
    type V = ParamModel;

    open spec fn deep_view(&self) -> ParamModel {
        ParamModel { ty: self.ty@, unique: self.unique }
    }
}

impl Clone for Param {
    fn clone(&self) -> (r: Self)
        ensures
            r.deep_view() == self.deep_view(),
    {
        Param { ty: self.ty.clone(), unique: self.unique }
    }
}

/// A result of an entry point.
#[derive(Debug)]
pub struct Output {
    /// The name of the result's type.
    pub ty: String,
}

/// An `Output` as plain values.
pub struct OutputModel {
    pub ty: Seq<char>,
}

impl DeepView for Output {
    type V = OutputModel;

    open spec fn deep_view(&self) -> OutputModel {
        OutputModel { ty: self.ty@ }
    }
}

impl Clone for Output {
    fn clone(&self) -> (r: Self)
        ensures
            r.deep_view() == self.deep_view(),
    {
        Output { ty: self.ty.clone() }
    }
}

/// A function of the source program that the C library exports.
#[derive(Debug)]
pub struct EntryPoint {
    /// The C symbol to call.
    pub cfun: String,
    pub inputs: Vec<Param>,
    pub outputs: Vec<Output>,
    /// The names of the tuning parameters that the entry point reads, where
    /// the manifest lists them.
    pub tuning_params: Option<Vec<String>>,
}

/// An `EntryPoint` as plain values.
pub struct EntryPointModel {
    pub cfun: Seq<char>,
    pub inputs: Seq<ParamModel>,
    pub outputs: Seq<OutputModel>,
    pub tuning_params: Option<Seq<Seq<char>>>,
}

impl DeepView for EntryPoint {
    type V = EntryPointModel;

    open spec fn deep_view(&self) -> EntryPointModel {
        EntryPointModel {
            cfun: self.cfun@,
            inputs: self.inputs.deep_view(),
            outputs: self.outputs.deep_view(),
            tuning_params: self.tuning_params.deep_view(),
        }
    }
}

impl Clone for EntryPoint {
    fn clone(&self) -> (r: Self)
        ensures
            r.deep_view() == self.deep_view(),
    {
        let inputs = self.inputs.clone();
        assert(inputs.deep_view() =~= self.inputs.deep_view());
        let outputs = self.outputs.clone();
        assert(outputs.deep_view() =~= self.outputs.deep_view());
        let tuning_params = match &self.tuning_params {
            Some(names) => {
                let copy = names.clone();
                assert(copy.deep_view() =~= names.deep_view());
                Some(copy)
            },
            None => None,
        };
        EntryPoint { cfun: self.cfun.clone(), inputs, outputs, tuning_params }
    }
}

/// The C symbols that work on an array type.
#[derive(Debug)]
pub struct ArrayOps {
    pub new: String,
    pub free: String,
    pub shape: String,
    pub values: String,
    pub values_raw: Option<String>,
}

/// `ArrayOps` as plain values.
pub struct ArrayOpsModel {
    pub new: Seq<char>,
    pub free: Seq<char>,
    pub shape: Seq<char>,
    pub values: Seq<char>,
    pub values_raw: Option<Seq<char>>,
}

impl DeepView for ArrayOps {
    type V = ArrayOpsModel;

    open spec fn deep_view(&self) -> ArrayOpsModel {
        ArrayOpsModel {
            new: self.new@,
            free: self.free@,
            shape: self.shape@,
            values: self.values@,
            values_raw: self.values_raw.deep_view(),
        }
    }
}

impl Clone for ArrayOps {
    fn clone(&self) -> (r: Self)
        ensures
            r.deep_view() == self.deep_view(),
    {
        let values_raw = match &self.values_raw {
            Some(symbol) => Some(symbol.clone()),
            None => None,
        };
        ArrayOps {
            new: self.new.clone(),
            free: self.free.clone(),
            shape: self.shape.clone(),
            values: self.values.clone(),
            values_raw,
        }
    }
}

/// An array type of the manifest.
#[derive(Debug)]
pub struct ArrayType {
    /// The name of the scalar type that the array holds.
    pub elemtype: String,
    /// The number of dimensions.
    pub rank: u64,
    pub ops: ArrayOps,
}

/// An `ArrayType` as plain values.
pub struct ArrayTypeModel {
    pub elemtype: Seq<char>,
    pub rank: nat,
    pub ops: ArrayOpsModel,
}

impl DeepView for ArrayType {
    type V = ArrayTypeModel;

    open spec fn deep_view(&self) -> ArrayTypeModel {
        ArrayTypeModel {
            elemtype: self.elemtype@,
            rank: self.rank as nat,
            ops: self.ops.deep_view(),
        }
    }
}

impl Clone for ArrayType {
    fn clone(&self) -> (r: Self)
        ensures
            r.deep_view() == self.deep_view(),
    {
        ArrayType { elemtype: self.elemtype.clone(), rank: self.rank, ops: self.ops.clone() }
    }
}

/// The C symbols that work on an opaque type.
#[derive(Debug)]
pub struct OpaqueOps {
    pub free: String,
    pub store: String,
    pub restore: String,
}

/// `OpaqueOps` as plain values.
pub struct OpaqueOpsModel {
    pub free: Seq<char>,
    pub store: Seq<char>,
    pub restore: Seq<char>,
}

impl DeepView for OpaqueOps {
    type V = OpaqueOpsModel;

    open spec fn deep_view(&self) -> OpaqueOpsModel {
        OpaqueOpsModel { free: self.free@, store: self.store@, restore: self.restore@ }
    }
}

impl Clone for OpaqueOps {
    fn clone(&self) -> (r: Self)
        ensures
            r.deep_view() == self.deep_view(),
    {
        OpaqueOps {
            free: self.free.clone(),
            store: self.store.clone(),
            restore: self.restore.clone(),
        }
    }
}

/// A named accessor of an opaque type: it hands out a part of the value.
#[derive(Debug)]
pub struct Projection {
    pub name: String,
    /// The C symbol that takes the part out.
    pub project: String,
    /// The name of the part's type.
    pub ty: String,
}

/// A `Projection` as plain values.
pub struct ProjectionModel {
    pub name: Seq<char>,
    pub project: Seq<char>,
    pub ty: Seq<char>,
}

impl DeepView for Projection {
    type V = ProjectionModel;

    open spec fn deep_view(&self) -> ProjectionModel {
        ProjectionModel { name: self.name@, project: self.project@, ty: self.ty@ }
    }
}

impl Clone for Projection {
    fn clone(&self) -> (r: Self)
        ensures
            r.deep_view() == self.deep_view(),
    {
        Projection {
            name: self.name.clone(),
            project: self.project.clone(),
            ty: self.ty.clone(),
        }
    }
}

/// What an opaque type says of the value behind it.
#[derive(Debug, Clone, Copy, PartialEq, Eq, Structural)]
pub enum Composite {
    /// Nothing: the projections are plain accessors.
    Plain,
    /// The value is a record and the projections are its fields.
    Record,
    /// The value is a sum and the projections are its constructors.
    Sum,
}

/// An opaque type of the manifest: a handle with the operations declared
/// for it.
#[derive(Debug)]
pub struct OpaqueType {
    pub ops: OpaqueOps,
    pub projections: Vec<Projection>,
    pub composite: Composite,
}

/// An `OpaqueType` as plain values.
pub struct OpaqueTypeModel {
    pub ops: OpaqueOpsModel,
    pub projections: Seq<ProjectionModel>,
    pub composite: Composite,
}

impl DeepView for OpaqueType {
    type V = OpaqueTypeModel;

    open spec fn deep_view(&self) -> OpaqueTypeModel {
        OpaqueTypeModel {
            ops: self.ops.deep_view(),
            projections: self.projections.deep_view(),
            composite: self.composite,
        }
    }
}

impl Clone for OpaqueType {
    fn clone(&self) -> (r: Self)
        ensures
            r.deep_view() == self.deep_view(),
    {
        let projections = self.projections.clone();
        assert(projections.deep_view() =~= self.projections.deep_view());
        OpaqueType { ops: self.ops.clone(), projections, composite: self.composite }
    }
}

/// A type that the manifest declares.
#[derive(Debug)]
pub enum TypeDecl {
    Array(ArrayType),
    Opaque(OpaqueType),
}

/// A `TypeDecl` as plain values.
pub enum TypeDeclModel {
    Array(ArrayTypeModel),
    Opaque(OpaqueTypeModel),
}

impl DeepView for TypeDecl {
    type V = TypeDeclModel;

    open spec fn deep_view(&self) -> TypeDeclModel {
        match self {
            TypeDecl::Array(a) => TypeDeclModel::Array(a.deep_view()),
            TypeDecl::Opaque(o) => TypeDeclModel::Opaque(o.deep_view()),
        }
    }
}

impl Clone for TypeDecl {
    fn clone(&self) -> (r: Self)
        ensures
            r.deep_view() == self.deep_view(),
    {
        match self {
            TypeDecl::Array(a) => TypeDecl::Array(a.clone()),
            TypeDecl::Opaque(o) => TypeDecl::Opaque(o.clone()),
        }
    }
}

/// The root of the manifest: the backend that the library was compiled for,
/// the version of the manifest's schema, and the entry points and types of
/// the library, each under its name.
///
/// No name occurs twice among the entry points, nor among the types, and a
/// walk over either meets the names in ascending order: `wf` of the view
/// says so, and it holds of every manifest.
#[derive(Debug)]
pub struct Manifest {
    backend: Backend,
    version: String,
    entry_points: Vec<(String, EntryPoint)>,
    types: Vec<(String, TypeDecl)>,
}

/// A `Manifest` as plain values: the entry points and the types in the order
/// in which they are walked.
pub struct ManifestModel {
    pub backend: Backend,
    pub version: Seq<char>,
    pub entry_points: Seq<(Seq<char>, EntryPointModel)>,
    pub types: Seq<(Seq<char>, TypeDeclModel)>,
}

impl EntryPointModel {
    /// Every argument and result has a type that `m` knows.
    pub open spec fn resolves_in(self, m: ManifestModel) -> bool {
        &&& forall|i: int| 0 <= i < self.inputs.len() ==> m.resolves((#[trigger] self.inputs[i]).ty)
        &&& forall|i: int|
            0 <= i < self.outputs.len() ==> m.resolves((#[trigger] self.outputs[i]).ty)
    }
}

impl ArrayTypeModel {
    /// The array has at least one dimension and holds scalars.
    pub open spec fn well_formed(self) -> bool {
        self.rank >= 1 && primitive_named(self.elemtype) is Some
    }
}

impl OpaqueTypeModel {
    /// Every projection hands out a value of a type that `m` knows.
    pub open spec fn resolves_in(self, m: ManifestModel) -> bool {
        forall|i: int|
            0 <= i < self.projections.len() ==> m.resolves((#[trigger] self.projections[i]).ty)
    }
}

impl ManifestModel {
    /// The names of the entry points ascend, and so do those of the types.
    pub open spec fn wf(self) -> bool {
        ascending(self.entry_points) && ascending(self.types)
    }

    /// `ty` names a scalar type or a type that the manifest declares.
    pub open spec fn resolves(self, ty: Seq<char>) -> bool {
        primitive_named(ty) is Some || has_key(self.types, ty)
    }

    /// The entry point at place `i` is named as an identifier, and its
    /// arguments and results have known types.
    pub open spec fn entry_point_valid(self, i: int) -> bool {
        &&& is_c_identifier(self.entry_points[i].0)
        &&& self.entry_points[i].1.resolves_in(self)
    }

    /// The type at place `i` is sound. An opaque type is named as an
    /// identifier; an array type may go by its spelling in the source
    /// language, which is no identifier.
    pub open spec fn type_valid(self, i: int) -> bool {
        match self.types[i].1 {
            TypeDeclModel::Array(a) => a.well_formed(),
            TypeDeclModel::Opaque(o) => is_c_identifier(self.types[i].0) && o.resolves_in(self),
        }
    }

    /// The manifest keeps the rules of its schema: bindings can be made
    /// for it.
    pub open spec fn valid(self) -> bool {
        &&& self.wf()
        &&& forall|i: int| 0 <= i < self.entry_points.len() ==> #[trigger] self.entry_point_valid(i)
        &&& forall|i: int| 0 <= i < self.types.len() ==> #[trigger] self.type_valid(i)
    }
}

/// The fault of a manifest that breaks the rules of its schema.
pub open spec fn breach() -> ErrorModel {
    ErrorModel::ManifestParse("a name or a type reference breaks the schema"@)
}

impl View for Manifest {
    type V = ManifestModel;

    closed spec fn view(&self) -> ManifestModel {
        ManifestModel {
            backend: self.backend,
            version: self.version@,
            entry_points: self.entry_points.deep_view(),
            types: self.types.deep_view(),
        }
    }
}

impl Clone for Manifest {
    fn clone(&self) -> (r: Self)
        ensures
            r@ == self@,
    {
        proof {
            use_type_invariant(self);
        }
        let mut entry_points: Vec<(String, EntryPoint)> = Vec::new();
        let mut i: usize = 0;
        while i < self.entry_points.len()
            invariant
                i <= self.entry_points.len(),
                entry_points.deep_view() == self.entry_points.deep_view().subrange(0, i as int),
            decreases self.entry_points.len() - i,
        {
            let ghost before = entry_points.deep_view();
            let name = self.entry_points[i].0.clone();
            let entry = self.entry_points[i].1.clone();
            entry_points.push((name, entry));
            i = i + 1;
            assert(entry_points.deep_view() =~= before.push(self.entry_points.deep_view()[i - 1]));
            assert(entry_points.deep_view() =~= self.entry_points.deep_view().subrange(
                0,
                i as int,
            ));
        }
        assert(entry_points.deep_view() =~= self.entry_points.deep_view());
        let mut types: Vec<(String, TypeDecl)> = Vec::new();
        let mut i: usize = 0;
        while i < self.types.len()
            invariant
                i <= self.types.len(),
                types.deep_view() == self.types.deep_view().subrange(0, i as int),
            decreases self.types.len() - i,
        {
            let ghost before = types.deep_view();
            let name = self.types[i].0.clone();
            let decl = self.types[i].1.clone();
            types.push((name, decl));
            i = i + 1;
            assert(types.deep_view() =~= before.push(self.types.deep_view()[i - 1]));
            assert(types.deep_view() =~= self.types.deep_view().subrange(0, i as int));
        }
        assert(types.deep_view() =~= self.types.deep_view());
        Manifest { backend: self.backend, version: self.version.clone(), entry_points, types }
    }
}

impl Manifest {
    /// What holds of every manifest: no name occurs twice, and the names
    /// are walked in ascending order.
    #[verifier::type_invariant]
    pub open spec fn ordered(self) -> bool {
        self@.wf()
    }

    /// A manifest without entry points and types.
    pub fn new(backend: Backend, version: String) -> (r: Manifest)
        ensures
            r@ == (ManifestModel {
                backend,
                version: version@,
                entry_points: Seq::empty(),
                types: Seq::empty(),
            }),
            r@.wf(),
    {
        let r = Manifest { backend, version, entry_points: Vec::new(), types: Vec::new() };
        assert(r.entry_points.deep_view() =~= Seq::empty());
        assert(r.types.deep_view() =~= Seq::empty());
        r
    }

    /// Adds an entry point under `name`, at the place that keeps the names
    /// ascending. Where the name is taken, nothing changes and the answer is
    /// `false`.
    pub fn add_entry_point(&mut self, name: String, entry_point: EntryPoint) -> (r: bool)
        ensures
            final(self)@.wf(),
            r == !has_key(old(self)@.entry_points, name@),
            !r ==> final(self)@ == old(self)@,
            r ==> final(self)@ == (ManifestModel {
                entry_points: inserted(old(self)@.entry_points, name@, entry_point.deep_view()),
                ..old(self)@
            }),
    {
        let mut taken = Manifest::new(Backend::C, String::new());
        core::mem::swap(self, &mut taken);
        proof {
            use_type_invariant(&taken);
        }
        let Manifest { backend, version, mut entry_points, types } = taken;
        let r = insert(&mut entry_points, name, entry_point);
        *self = Manifest { backend, version, entry_points, types };
        r
    }

    /// Adds a type under `name`, at the place that keeps the names ascending.
    /// Where the name is taken, nothing changes and the answer is `false`.
    pub fn add_type(&mut self, name: String, decl: TypeDecl) -> (r: bool)
        ensures
            final(self)@.wf(),
            r == !has_key(old(self)@.types, name@),
            !r ==> final(self)@ == old(self)@,
            r ==> final(self)@ == (ManifestModel {
                types: inserted(old(self)@.types, name@, decl.deep_view()),
                ..old(self)@
            }),
    {
        let mut taken = Manifest::new(Backend::C, String::new());
        core::mem::swap(self, &mut taken);
        proof {
            use_type_invariant(&taken);
        }
        let Manifest { backend, version, entry_points, mut types } = taken;
        let r = insert(&mut types, name, decl);
        *self = Manifest { backend, version, entry_points, types };
        r
    }

    /// The backend that the library was compiled for.
    pub fn backend(&self) -> (r: Backend)
        ensures
            r == self@.backend,
    {
        self.backend
    }

    /// The version of the manifest's schema.
    pub fn version(&self) -> (r: &str)
        ensures
            r@ == self@.version,
    {
        self.version.as_str()
    }

    /// The entry points with their names, in ascending order of the names.
    pub fn entry_points(&self) -> (r: &Vec<(String, EntryPoint)>)
        ensures
            r.deep_view() == self@.entry_points,
            self@.wf(),
    {
        proof {
            use_type_invariant(self);
        }
        &self.entry_points
    }

    /// The types with their names, in ascending order of the names.
    pub fn types(&self) -> (r: &Vec<(String, TypeDecl)>)
        ensures
            r.deep_view() == self@.types,
            self@.wf(),
    {
        proof {
            use_type_invariant(self);
        }
        &self.types
    }

    /// The entry point that goes by `name`.
    pub fn entry_point(&self, name: &str) -> (r: Option<&EntryPoint>)
        ensures
            match r {
                Some(e) => has_key(self@.entry_points, name@) && e.deep_view() == value_of(
                    self@.entry_points,
                    name@,
                ),
                None => !has_key(self@.entry_points, name@),
            },
    {
        proof {
            use_type_invariant(self);
        }
        match find(&self.entry_points, name) {
            Some(i) => {
                proof {
                    lemma_one_place(self@.entry_points, name@, i as int);
                }
                Some(&self.entry_points[i].1)
            },
            None => None,
        }
    }

    /// The type that goes by `name`.
    pub fn type_decl(&self, name: &str) -> (r: Option<&TypeDecl>)
        ensures
            match r {
                Some(t) => has_key(self@.types, name@) && t.deep_view() == value_of(
                    self@.types,
                    name@,
                ),
                None => !has_key(self@.types, name@),
            },
    {
        proof {
            use_type_invariant(self);
        }
        match find(&self.types, name) {
            Some(i) => {
                proof {
                    lemma_one_place(self@.types, name@, i as int);
                }
                Some(&self.types[i].1)
            },
            None => None,
        }
    }

    /// Decides whether `ty` names a scalar type or a type of the manifest.
    pub fn resolves(&self, ty: &str) -> (r: bool)
        ensures
            r == self@.resolves(ty@),
    {
        if Primitive::from_name(ty).is_some() {
            return true;
        }
        find(&self.types, ty).is_some()
    }

    /// Decides whether the entry point at place `i` keeps the rules.
    pub fn entry_point_ok(&self, i: usize) -> (r: bool)
        requires
            i < self@.entry_points.len(),
        ensures
            r == self@.entry_point_valid(i as int),
    {
        let name = &self.entry_points[i].0;
        let entry = &self.entry_points[i].1;
        assert(self@.entry_points[i as int].0 == name@);
        assert(self@.entry_points[i as int].1 == entry.deep_view());
        if !c_identifier(name.as_str()) {
            return false;
        }
        let mut j: usize = 0;
        while j < entry.inputs.len()
            invariant
                j <= entry.inputs.len(),
                i < self@.entry_points.len(),
                self@.entry_points[i as int].1 == entry.deep_view(),
                forall|k: int|
                    0 <= k < j ==> self@.resolves((#[trigger] entry.deep_view().inputs[k]).ty),
            decreases entry.inputs.len() - j,
        {
            if !self.resolves(entry.inputs[j].ty.as_str()) {
                assert(entry.deep_view().inputs[j as int] == entry.inputs[j as int].deep_view());
                assert(!self@.resolves(entry.deep_view().inputs[j as int].ty));
                return false;
            }
            assert(entry.deep_view().inputs[j as int] == entry.inputs[j as int].deep_view());
            j = j + 1;
        }
        let mut j: usize = 0;
        while j < entry.outputs.len()
            invariant
                j <= entry.outputs.len(),
                i < self@.entry_points.len(),
                self@.entry_points[i as int].1 == entry.deep_view(),
                forall|k: int|
                    0 <= k < j ==> self@.resolves((#[trigger] entry.deep_view().outputs[k]).ty),
            decreases entry.outputs.len() - j,
        {
            if !self.resolves(entry.outputs[j].ty.as_str()) {
                assert(entry.deep_view().outputs[j as int] == entry.outputs[j as int].deep_view());
                assert(!self@.resolves(entry.deep_view().outputs[j as int].ty));
                return false;
            }
            assert(entry.deep_view().outputs[j as int] == entry.outputs[j as int].deep_view());
            j = j + 1;
        }
        true
    }

    /// Decides whether the type at place `i` keeps the rules.
    pub fn type_ok(&self, i: usize) -> (r: bool)
        requires
            i < self@.types.len(),
        ensures
            r == self@.type_valid(i as int),
    {
        let name = &self.types[i].0;
        assert(self@.types[i as int].0 == name@);
        assert(self@.types[i as int].1 == self.types[i as int].1.deep_view());
        match &self.types[i].1 {
            TypeDecl::Array(a) => a.rank >= 1 && Primitive::from_name(a.elemtype.as_str()).is_some(),
            TypeDecl::Opaque(o) => {
                if !c_identifier(name.as_str()) {
                    return false;
                }
                let mut j: usize = 0;
                while j < o.projections.len()
                    invariant
                        j <= o.projections.len(),
                        i < self@.types.len(),
                        self@.types[i as int].1 == TypeDeclModel::Opaque(o.deep_view()),
                        forall|k: int|
                            0 <= k < j ==> self@.resolves(
                                (#[trigger] o.deep_view().projections[k]).ty,
                            ),
                    decreases o.projections.len() - j,
                {
                    let p = &o.projections[j];
                    assert(o.deep_view().projections[j as int] == p.deep_view());
                    if !self.resolves(p.ty.as_str()) {
                        assert(!self@.resolves(o.deep_view().projections[j as int].ty));
                        return false;
                    }
                    j = j + 1;
                }
                true
            },
        }
    }

    /// Decides whether bindings can be made for the manifest.
    pub fn is_valid(&self) -> (r: bool)
        ensures
            r == self@.valid(),
    {
        proof {
            use_type_invariant(self);
        }
        let mut i: usize = 0;
        while i < self.entry_points.len()
            invariant
                i <= self.entry_points.len(),
                self.entry_points.deep_view() == self@.entry_points,
                forall|k: int| 0 <= k < i ==> #[trigger] self@.entry_point_valid(k),
            decreases self.entry_points.len() - i,
        {
            if !self.entry_point_ok(i) {
                return false;
            }
            i = i + 1;
        }
        let mut i: usize = 0;
        while i < self.types.len()
            invariant
                i <= self.types.len(),
                self.types.deep_view() == self@.types,
                forall|k: int| 0 <= k < self@.entry_points.len() ==> #[trigger] self@.entry_point_valid(k),
                forall|k: int| 0 <= k < i ==> #[trigger] self@.type_valid(k),
            decreases self.types.len() - i,
        {
            if !self.type_ok(i) {
                return false;
            }
            i = i + 1;
        }
        true
    }

    /// Accepts the manifest where bindings can be made for it, and reports a
    /// breach of the schema where not.
    pub fn validate(&self) -> (r: Result<(), Error>)
        ensures
            r is Ok <==> self@.valid(),
            r is Err ==> r->Err_0@ == breach(),
    {
        if self.is_valid() {
            Ok(())
        } else {
            Err(Error::ManifestParse(String::from_str("a name or a type reference breaks the schema")))
        }
    }
}

} // verus!
