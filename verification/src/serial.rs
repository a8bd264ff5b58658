//! How a manifest is written to a document, and the proof that reading the
//! document gives the manifest back.

use vstd::prelude::*;
use vstd::string::*;
use crate::backend::lemma_backend_named;
use crate::document::{list, member_from, object, text, Json, JsonModel};
use crate::keyed::{ascending, lemma_inserted_ascending, lemma_inserted_last};
use crate::manifest::{
    ArrayOps, ArrayOpsModel, ArrayType, ArrayTypeModel, Composite, EntryPoint, EntryPointModel,
    Manifest, ManifestModel, OpaqueOps, OpaqueOpsModel, OpaqueType, OpaqueTypeModel, Output,
    OutputModel, Param, ParamModel, Projection, ProjectionModel, TypeDecl, TypeDeclModel,
};
use crate::schema::{
    array_ops_read, array_read, composite_read, entry_point_read, entry_points_read,
    manifest_read, object_read, opaque_ops_read, opaque_projections_read, opaque_read,
    output_read, outputs_read, param_read, params_read, projection_read, projections_read,
    texts_read, tuning_params_read, type_decl_read, types_read,
};
use crate::text::precedes;

verus! {

/// An argument as a document.
pub open spec fn param_doc(p: ParamModel) -> JsonModel {
    JsonModel::Object(
        seq![("type"@, JsonModel::Text(p.ty)), ("unique"@, JsonModel::Bool(p.unique))],
    )
}

/// A result as a document.
pub open spec fn output_doc(o: OutputModel) -> JsonModel {
    JsonModel::Object(seq![("type"@, JsonModel::Text(o.ty))])
}

/// A text that may be missing as a document: null stands for a missing one.
pub open spec fn optional_text_doc(s: Option<Seq<char>>) -> JsonModel {
    match s {
        Some(s) => JsonModel::Text(s),
        None => JsonModel::Null,
    }
}

/// The tuning parameters of an entry point as a document: null where the
/// entry point lists none.
pub open spec fn tuning_params_doc(names: Option<Seq<Seq<char>>>) -> JsonModel {
    match names {
        Some(names) => JsonModel::List(
            Seq::new(names.len(), |i: int| JsonModel::Text(names[i])),
        ),
        None => JsonModel::Null,
    }
}

/// An entry point as a document.
pub open spec fn entry_point_doc(e: EntryPointModel) -> JsonModel {
    JsonModel::Object(
        seq![
            ("cfun"@, JsonModel::Text(e.cfun)),
            ("inputs"@, JsonModel::List(Seq::new(e.inputs.len(), |i: int| param_doc(e.inputs[i])))),
            (
                "outputs"@,
                JsonModel::List(Seq::new(e.outputs.len(), |i: int| output_doc(e.outputs[i]))),
            ),
            ("tuning_params"@, tuning_params_doc(e.tuning_params)),
        ],
    )
}

/// The operations of an array type as a document.
pub open spec fn array_ops_doc(ops: ArrayOpsModel) -> JsonModel {
    JsonModel::Object(
        seq![
            ("new"@, JsonModel::Text(ops.new)),
            ("free"@, JsonModel::Text(ops.free)),
            ("shape"@, JsonModel::Text(ops.shape)),
            ("values"@, JsonModel::Text(ops.values)),
            ("values_raw"@, optional_text_doc(ops.values_raw)),
        ],
    )
}

/// An array type as a document.
pub open spec fn array_doc(a: ArrayTypeModel) -> JsonModel {
    JsonModel::Object(
        seq![
            ("kind"@, JsonModel::Text("array"@)),
            ("elemtype"@, JsonModel::Text(a.elemtype)),
            ("rank"@, JsonModel::Integer(a.rank)),
            ("ops"@, array_ops_doc(a.ops)),
        ],
    )
}

/// The operations of an opaque type as a document.
pub open spec fn opaque_ops_doc(ops: OpaqueOpsModel) -> JsonModel {
    JsonModel::Object(
        seq![
            ("free"@, JsonModel::Text(ops.free)),
            ("store"@, JsonModel::Text(ops.store)),
            ("restore"@, JsonModel::Text(ops.restore)),
        ],
    )
}

/// A projection as a document.
pub open spec fn projection_doc(p: ProjectionModel) -> JsonModel {
    JsonModel::Object(
        seq![
            ("name"@, JsonModel::Text(p.name)),
            ("project"@, JsonModel::Text(p.project)),
            ("type"@, JsonModel::Text(p.ty)),
        ],
    )
}

/// What an opaque type says of the value behind it, as a document.
pub open spec fn composite_doc(c: Composite) -> JsonModel {
    match c {
        Composite::Plain => JsonModel::Null,
        Composite::Record => JsonModel::Text("record"@),
        Composite::Sum => JsonModel::Text("sum"@),
    }
}

/// An opaque type as a document.
pub open spec fn opaque_doc(o: OpaqueTypeModel) -> JsonModel {
    JsonModel::Object(
        seq![
            ("kind"@, JsonModel::Text("opaque"@)),
            ("ops"@, opaque_ops_doc(o.ops)),
            (
                "projections"@,
                JsonModel::List(
                    Seq::new(o.projections.len(), |i: int| projection_doc(o.projections[i])),
                ),
            ),
            ("view"@, composite_doc(o.composite)),
        ],
    )
}

/// A type as a document.
pub open spec fn type_decl_doc(t: TypeDeclModel) -> JsonModel {
    match t {
        TypeDeclModel::Array(a) => array_doc(a),
        TypeDeclModel::Opaque(o) => opaque_doc(o),
    }
}

/// The entry points as the members of an object, each under its name.
pub open spec fn entry_points_doc(table: Seq<(Seq<char>, EntryPointModel)>) -> Seq<
    (Seq<char>, JsonModel),
> {
    Seq::new(table.len(), |i: int| (table[i].0, entry_point_doc(table[i].1)))
}

/// The types as the members of an object, each under its name.
pub open spec fn types_doc(table: Seq<(Seq<char>, TypeDeclModel)>) -> Seq<
    (Seq<char>, JsonModel),
> {
    Seq::new(table.len(), |i: int| (table[i].0, type_decl_doc(table[i].1)))
}

/// A manifest as a document.
pub open spec fn manifest_doc(m: ManifestModel) -> JsonModel {
    JsonModel::Object(
        seq![
            ("backend"@, JsonModel::Text(m.backend.name())),
            ("version"@, JsonModel::Text(m.version)),
            ("entry_points"@, JsonModel::Object(entry_points_doc(m.entry_points))),
            ("types"@, JsonModel::Object(types_doc(m.types))),
        ],
    )
}

/// Writes an argument as a document.
pub fn param_json(p: &Param) -> (r: Json)
    ensures
        r.deep_view() == param_doc(p.deep_view()),
{
    let mut members: Vec<(String, Json)> = Vec::new();
    members.push((String::from_str("type"), text(p.ty.as_str())));
    members.push((String::from_str("unique"), Json::Bool(p.unique)));
    assert(members.deep_view() =~= seq![
        ("type"@, JsonModel::Text(p.ty@)),
        ("unique"@, JsonModel::Bool(p.unique)),
    ]);
    object(members)
}

/// Writes a result as a document.
pub fn output_json(o: &Output) -> (r: Json)
    ensures
        r.deep_view() == output_doc(o.deep_view()),
{
    let mut members: Vec<(String, Json)> = Vec::new();
    members.push((String::from_str("type"), text(o.ty.as_str())));
    assert(members.deep_view() =~= seq![
        ("type"@, JsonModel::Text(o.ty@)),
    ]);
    object(members)
}

/// Writes a text that may be missing as a document.
pub fn optional_text_json(s: &Option<String>) -> (r: Json)
    ensures
        r.deep_view() == optional_text_doc(s.deep_view()),
{
    match s {
        Some(s) => text(s.as_str()),
        None => Json::Null,
    }
}

/// Writes a text as a document.
pub fn text_json(s: &String) -> (r: Json)
    ensures
        r.deep_view() == JsonModel::Text(s@),
{
    text(s.as_str())
}

/// The document that a text is.
pub open spec fn text_doc(s: Seq<char>) -> JsonModel {
    JsonModel::Text(s)
}

/// Writes the arguments of an entry point as the items of a list.
pub fn params_json(items: &Vec<Param>) -> (r: Vec<Json>)
    ensures
        r.deep_view() == Seq::new(items.deep_view().len(), |i: int| param_doc(items.deep_view()[i])),
{
    let mut out: Vec<Json> = Vec::new();
    let mut i: usize = 0;
    while i < items.len()
        invariant
            i <= items.len(),
            out.deep_view() == Seq::new(i as nat, |k: int| param_doc(items.deep_view()[k])),
        decreases items.len() - i,
    {
        let ghost before = out.deep_view();
        out.push(param_json(&items[i]));
        i = i + 1;
        assert(out.deep_view() =~= before.push(param_doc(items.deep_view()[i - 1])));
        assert(out.deep_view() =~= Seq::new(i as nat, |k: int| param_doc(items.deep_view()[k])));
    }
    assert(out.deep_view() =~= Seq::new(
        items.deep_view().len(),
        |i: int| param_doc(items.deep_view()[i]),
    ));
    out
}

/// Writes the results of an entry point as the items of a list.
pub fn outputs_json(items: &Vec<Output>) -> (r: Vec<Json>)
    ensures
        r.deep_view() == Seq::new(items.deep_view().len(), |i: int| output_doc(items.deep_view()[i])),
{
    let mut out: Vec<Json> = Vec::new();
    let mut i: usize = 0;
    while i < items.len()
        invariant
            i <= items.len(),
            out.deep_view() == Seq::new(i as nat, |k: int| output_doc(items.deep_view()[k])),
        decreases items.len() - i,
    {
        let ghost before = out.deep_view();
        out.push(output_json(&items[i]));
        i = i + 1;
        assert(out.deep_view() =~= before.push(output_doc(items.deep_view()[i - 1])));
        assert(out.deep_view() =~= Seq::new(i as nat, |k: int| output_doc(items.deep_view()[k])));
    }
    assert(out.deep_view() =~= Seq::new(
        items.deep_view().len(),
        |i: int| output_doc(items.deep_view()[i]),
    ));
    out
}

/// Writes texts as the items of a list.
pub fn texts_json(items: &Vec<String>) -> (r: Vec<Json>)
    ensures
        r.deep_view() == Seq::new(items.deep_view().len(), |i: int| text_doc(items.deep_view()[i])),
{
    let mut out: Vec<Json> = Vec::new();
    let mut i: usize = 0;
    while i < items.len()
        invariant
            i <= items.len(),
            out.deep_view() == Seq::new(i as nat, |k: int| text_doc(items.deep_view()[k])),
        decreases items.len() - i,
    {
        let ghost before = out.deep_view();
        out.push(text_json(&items[i]));
        i = i + 1;
        assert(out.deep_view() =~= before.push(text_doc(items.deep_view()[i - 1])));
        assert(out.deep_view() =~= Seq::new(i as nat, |k: int| text_doc(items.deep_view()[k])));
    }
    assert(out.deep_view() =~= Seq::new(
        items.deep_view().len(),
        |i: int| text_doc(items.deep_view()[i]),
    ));
    out
}

/// Writes the projections of an opaque type as the items of a list.
pub fn projections_json(items: &Vec<Projection>) -> (r: Vec<Json>)
    ensures
        r.deep_view() == Seq::new(items.deep_view().len(), |i: int| projection_doc(items.deep_view()[i])),
{
    let mut out: Vec<Json> = Vec::new();
    let mut i: usize = 0;
    while i < items.len()
        invariant
            i <= items.len(),
            out.deep_view() == Seq::new(i as nat, |k: int| projection_doc(items.deep_view()[k])),
        decreases items.len() - i,
    {
        let ghost before = out.deep_view();
        out.push(projection_json(&items[i]));
        i = i + 1;
        assert(out.deep_view() =~= before.push(projection_doc(items.deep_view()[i - 1])));
        assert(out.deep_view() =~= Seq::new(i as nat, |k: int| projection_doc(items.deep_view()[k])));
    }
    assert(out.deep_view() =~= Seq::new(
        items.deep_view().len(),
        |i: int| projection_doc(items.deep_view()[i]),
    ));
    out
}

/// Writes the tuning parameters of an entry point as a document.
pub fn tuning_params_json(names: &Option<Vec<String>>) -> (r: Json)
    ensures
        r.deep_view() == tuning_params_doc(names.deep_view()),
{
    match names {
        Some(names) => {
            let items = texts_json(names);
            assert(items.deep_view() =~= Seq::new(
                names.deep_view().len(),
                |i: int| JsonModel::Text(names.deep_view()[i]),
            ));
            list(items)
        },
        None => Json::Null,
    }
}

/// Writes an entry point as a document.
pub fn entry_point_json(e: &EntryPoint) -> (r: Json)
    ensures
        r.deep_view() == entry_point_doc(e.deep_view()),
{
    let mut members: Vec<(String, Json)> = Vec::new();
    members.push((String::from_str("cfun"), text(e.cfun.as_str())));
    members.push((String::from_str("inputs"), list(params_json(&e.inputs))));
    members.push((String::from_str("outputs"), list(outputs_json(&e.outputs))));
    members.push((String::from_str("tuning_params"), tuning_params_json(&e.tuning_params)));
    assert(members.deep_view() =~= seq![
        ("cfun"@, JsonModel::Text(e.cfun@)),
        ("inputs"@, JsonModel::List(Seq::new(e.deep_view().inputs.len(), |i: int| param_doc(e.deep_view().inputs[i])))),
        ("outputs"@, JsonModel::List(Seq::new(e.deep_view().outputs.len(), |i: int| output_doc(e.deep_view().outputs[i])))),
        ("tuning_params"@, tuning_params_doc(e.deep_view().tuning_params)),
    ]);
    object(members)
}

/// Writes the operations of an array type as a document.
pub fn array_ops_json(ops: &ArrayOps) -> (r: Json)
    ensures
        r.deep_view() == array_ops_doc(ops.deep_view()),
{
    let mut members: Vec<(String, Json)> = Vec::new();
    members.push((String::from_str("new"), text(ops.new.as_str())));
    members.push((String::from_str("free"), text(ops.free.as_str())));
    members.push((String::from_str("shape"), text(ops.shape.as_str())));
    members.push((String::from_str("values"), text(ops.values.as_str())));
    members.push((String::from_str("values_raw"), optional_text_json(&ops.values_raw)));
    assert(members.deep_view() =~= seq![
        ("new"@, JsonModel::Text(ops.new@)),
        ("free"@, JsonModel::Text(ops.free@)),
        ("shape"@, JsonModel::Text(ops.shape@)),
        ("values"@, JsonModel::Text(ops.values@)),
        ("values_raw"@, optional_text_doc(ops.deep_view().values_raw)),
    ]);
    object(members)
}

/// Writes an array type as a document.
pub fn array_json(a: &ArrayType) -> (r: Json)
    ensures
        r.deep_view() == array_doc(a.deep_view()),
{
    let mut members: Vec<(String, Json)> = Vec::new();
    members.push((String::from_str("kind"), text("array")));
    members.push((String::from_str("elemtype"), text(a.elemtype.as_str())));
    members.push((String::from_str("rank"), Json::Integer(a.rank)));
    members.push((String::from_str("ops"), array_ops_json(&a.ops)));
    assert(members.deep_view() =~= seq![
        ("kind"@, JsonModel::Text("array"@)),
        ("elemtype"@, JsonModel::Text(a.elemtype@)),
        ("rank"@, JsonModel::Integer(a.rank as nat)),
        ("ops"@, array_ops_doc(a.deep_view().ops)),
    ]);
    object(members)
}

/// Writes the operations of an opaque type as a document.
pub fn opaque_ops_json(ops: &OpaqueOps) -> (r: Json)
    ensures
        r.deep_view() == opaque_ops_doc(ops.deep_view()),
{
    let mut members: Vec<(String, Json)> = Vec::new();
    members.push((String::from_str("free"), text(ops.free.as_str())));
    members.push((String::from_str("store"), text(ops.store.as_str())));
    members.push((String::from_str("restore"), text(ops.restore.as_str())));
    assert(members.deep_view() =~= seq![
        ("free"@, JsonModel::Text(ops.free@)),
        ("store"@, JsonModel::Text(ops.store@)),
        ("restore"@, JsonModel::Text(ops.restore@)),
    ]);
    object(members)
}

/// Writes a projection as a document.
pub fn projection_json(p: &Projection) -> (r: Json)
    ensures
        r.deep_view() == projection_doc(p.deep_view()),
{
    let mut members: Vec<(String, Json)> = Vec::new();
    members.push((String::from_str("name"), text(p.name.as_str())));
    members.push((String::from_str("project"), text(p.project.as_str())));
    members.push((String::from_str("type"), text(p.ty.as_str())));
    assert(members.deep_view() =~= seq![
        ("name"@, JsonModel::Text(p.name@)),
        ("project"@, JsonModel::Text(p.project@)),
        ("type"@, JsonModel::Text(p.ty@)),
    ]);
    object(members)
}

/// Writes what an opaque type says of the value behind it as a document.
pub fn composite_json(c: Composite) -> (r: Json)
    ensures
        r.deep_view() == composite_doc(c),
{
    match c {
        Composite::Plain => Json::Null,
        Composite::Record => text("record"),
        Composite::Sum => text("sum"),
    }
}

/// Writes an opaque type as a document.
pub fn opaque_json(o: &OpaqueType) -> (r: Json)
    ensures
        r.deep_view() == opaque_doc(o.deep_view()),
{
    let mut members: Vec<(String, Json)> = Vec::new();
    members.push((String::from_str("kind"), text("opaque")));
    members.push((String::from_str("ops"), opaque_ops_json(&o.ops)));
    members.push((String::from_str("projections"), list(projections_json(&o.projections))));
    members.push((String::from_str("view"), composite_json(o.composite)));
    assert(members.deep_view() =~= seq![
        ("kind"@, JsonModel::Text("opaque"@)),
        ("ops"@, opaque_ops_doc(o.deep_view().ops)),
        ("projections"@, JsonModel::List(Seq::new(o.deep_view().projections.len(), |i: int| projection_doc(o.deep_view().projections[i])))),
        ("view"@, composite_doc(o.composite)),
    ]);
    object(members)
}

/// Writes a type as a document.
pub fn type_decl_json(t: &TypeDecl) -> (r: Json)
    ensures
        r.deep_view() == type_decl_doc(t.deep_view()),
{
    match t {
        TypeDecl::Array(a) => array_json(a),
        TypeDecl::Opaque(o) => opaque_json(o),
    }
}

/// Writes the entry points as the members of an object, each under its name.
pub fn entry_points_json(table: &Vec<(String, EntryPoint)>) -> (r: Vec<(String, Json)>)
    ensures
        r.deep_view() == entry_points_doc(table.deep_view()),
{
    let mut out: Vec<(String, Json)> = Vec::new();
    let mut i: usize = 0;
    while i < table.len()
        invariant
            i <= table.len(),
            out.deep_view() == Seq::new(
                i as nat,
                |k: int| (table.deep_view()[k].0, entry_point_doc(table.deep_view()[k].1)),
            ),
        decreases table.len() - i,
    {
        let ghost before = out.deep_view();
        out.push((table[i].0.clone(), entry_point_json(&table[i].1)));
        i = i + 1;
        assert(out.deep_view() =~= before.push(
            (table.deep_view()[i - 1].0, entry_point_doc(table.deep_view()[i - 1].1)),
        ));
        assert(out.deep_view() =~= Seq::new(
            i as nat,
            |k: int| (table.deep_view()[k].0, entry_point_doc(table.deep_view()[k].1)),
        ));
    }
    assert(out.deep_view() =~= entry_points_doc(table.deep_view()));
    out
}

/// Writes the types as the members of an object, each under its name.
pub fn types_json(table: &Vec<(String, TypeDecl)>) -> (r: Vec<(String, Json)>)
    ensures
        r.deep_view() == types_doc(table.deep_view()),
{
    let mut out: Vec<(String, Json)> = Vec::new();
    let mut i: usize = 0;
    while i < table.len()
        invariant
            i <= table.len(),
            out.deep_view() == Seq::new(
                i as nat,
                |k: int| (table.deep_view()[k].0, type_decl_doc(table.deep_view()[k].1)),
            ),
        decreases table.len() - i,
    {
        let ghost before = out.deep_view();
        out.push((table[i].0.clone(), type_decl_json(&table[i].1)));
        i = i + 1;
        assert(out.deep_view() =~= before.push(
            (table.deep_view()[i - 1].0, type_decl_doc(table.deep_view()[i - 1].1)),
        ));
        assert(out.deep_view() =~= Seq::new(
            i as nat,
            |k: int| (table.deep_view()[k].0, type_decl_doc(table.deep_view()[k].1)),
        ));
    }
    assert(out.deep_view() =~= types_doc(table.deep_view()));
    out
}

impl Manifest {
    /// Writes the manifest as a document. `from_json` reads it back.
    pub fn to_json(&self) -> (r: Json)
        ensures
            r.deep_view() == manifest_doc(self@),
    {
        let mut members: Vec<(String, Json)> = Vec::new();
        members.push((String::from_str("backend"), text(self.backend().to_str())));
        members.push((String::from_str("version"), text(self.version())));
        members.push(
            (String::from_str("entry_points"), object(entry_points_json(self.entry_points()))),
        );
        members.push((String::from_str("types"), object(types_json(self.types()))));
        assert(members.deep_view() =~= seq![
            ("backend"@, JsonModel::Text(self@.backend.name())),
            ("version"@, JsonModel::Text(self@.version)),
            ("entry_points"@, JsonModel::Object(entry_points_doc(self@.entry_points))),
            ("types"@, JsonModel::Object(types_doc(self@.types))),
        ]);
        object(members)
    }
}

/// The names of the members that a manifest's documents hold are what they
/// are written as.
proof fn lemma_names()
    ensures
        "type"@.len() == 4 && "type"@[0] == 't',
        "unique"@.len() == 6,
        "cfun"@.len() == 4 && "cfun"@[0] == 'c',
        "inputs"@.len() == 6 && "inputs"@[0] == 'i',
        "outputs"@.len() == 7,
        "tuning_params"@.len() == 13,
        "new"@.len() == 3,
        "free"@.len() == 4 && "free"@[0] == 'f',
        "shape"@.len() == 5 && "shape"@[0] == 's' && "shape"@[1] == 'h',
        "store"@.len() == 5 && "store"@[0] == 's' && "store"@[1] == 't',
        "values"@.len() == 6 && "values"@[0] == 'v',
        "values_raw"@.len() == 10,
        "restore"@.len() == 7 && "restore"@[0] == 'r',
        "kind"@.len() == 4 && "kind"@[0] == 'k',
        "elemtype"@.len() == 8,
        "rank"@.len() == 4 && "rank"@[0] == 'r',
        "ops"@.len() == 3 && "ops"@[0] == 'o',
        "name"@.len() == 4 && "name"@[0] == 'n',
        "project"@.len() == 7 && "project"@[0] == 'p',
        "projections"@.len() == 11,
        "view"@.len() == 4 && "view"@[0] == 'v',
        "backend"@.len() == 7 && "backend"@[0] == 'b',
        "version"@.len() == 7 && "version"@[0] == 'v',
        "entry_points"@.len() == 12,
        "types"@.len() == 5 && "types"@[0] == 't',
        "array"@.len() == 5,
        "opaque"@.len() == 6,
        "record"@.len() == 6,
        "sum"@.len() == 3,
{
    reveal_strlit("type");
    reveal_strlit("unique");
    reveal_strlit("cfun");
    reveal_strlit("inputs");
    reveal_strlit("outputs");
    reveal_strlit("tuning_params");
    reveal_strlit("new");
    reveal_strlit("free");
    reveal_strlit("shape");
    reveal_strlit("store");
    reveal_strlit("values");
    reveal_strlit("values_raw");
    reveal_strlit("restore");
    reveal_strlit("kind");
    reveal_strlit("elemtype");
    reveal_strlit("rank");
    reveal_strlit("ops");
    reveal_strlit("name");
    reveal_strlit("project");
    reveal_strlit("projections");
    reveal_strlit("view");
    reveal_strlit("backend");
    reveal_strlit("version");
    reveal_strlit("entry_points");
    reveal_strlit("types");
    reveal_strlit("array");
    reveal_strlit("opaque");
    reveal_strlit("record");
    reveal_strlit("sum");
}

/// Reading the document of an argument gives the argument back.
pub proof fn lemma_param_round_trip(p: ParamModel)
    ensures
        param_read(param_doc(p)) == Ok::<ParamModel, Seq<char>>(p),
{
    lemma_names();
    reveal_with_fuel(member_from, 3);
}

/// Reading the document of a result gives the result back.
pub proof fn lemma_output_round_trip(o: OutputModel)
    ensures
        output_read(output_doc(o)) == Ok::<OutputModel, Seq<char>>(o),
{
    reveal_with_fuel(member_from, 2);
}

/// Reading the document of a projection gives the projection back.
pub proof fn lemma_projection_round_trip(p: ProjectionModel)
    ensures
        projection_read(projection_doc(p)) == Ok::<ProjectionModel, Seq<char>>(p),
{
    lemma_names();
    reveal_with_fuel(member_from, 4);
}

proof fn lemma_params_round_trip(xs: Seq<ParamModel>, n: nat)
    requires
        n <= xs.len(),
    ensures
        params_read(Seq::new(xs.len(), |i: int| param_doc(xs[i])), n) == Ok::<Seq<ParamModel>, Seq<char>>(
            xs.subrange(0, n as int),
        ),
    decreases n,
{
    if n == 0 {
        assert(xs.subrange(0, 0) =~= Seq::empty());
    } else {
        lemma_params_round_trip(xs, (n - 1) as nat);
        lemma_param_round_trip(xs[n - 1]);
        assert(xs.subrange(0, n - 1).push(xs[n - 1]) =~= xs.subrange(0, n as int));
    }
}

proof fn lemma_outputs_round_trip(xs: Seq<OutputModel>, n: nat)
    requires
        n <= xs.len(),
    ensures
        outputs_read(Seq::new(xs.len(), |i: int| output_doc(xs[i])), n) == Ok::<Seq<OutputModel>, Seq<char>>(
            xs.subrange(0, n as int),
        ),
    decreases n,
{
    if n == 0 {
        assert(xs.subrange(0, 0) =~= Seq::empty());
    } else {
        lemma_outputs_round_trip(xs, (n - 1) as nat);
        lemma_output_round_trip(xs[n - 1]);
        assert(xs.subrange(0, n - 1).push(xs[n - 1]) =~= xs.subrange(0, n as int));
    }
}

proof fn lemma_projections_round_trip(xs: Seq<ProjectionModel>, n: nat)
    requires
        n <= xs.len(),
    ensures
        projections_read(Seq::new(xs.len(), |i: int| projection_doc(xs[i])), n) == Ok::<Seq<ProjectionModel>, Seq<char>>(
            xs.subrange(0, n as int),
        ),
    decreases n,
{
    if n == 0 {
        assert(xs.subrange(0, 0) =~= Seq::empty());
    } else {
        lemma_projections_round_trip(xs, (n - 1) as nat);
        lemma_projection_round_trip(xs[n - 1]);
        assert(xs.subrange(0, n - 1).push(xs[n - 1]) =~= xs.subrange(0, n as int));
    }
}

proof fn lemma_texts_round_trip(xs: Seq<Seq<char>>, n: nat)
    requires
        n <= xs.len(),
    ensures
        texts_read(Seq::new(xs.len(), |i: int| text_doc(xs[i])), n) == Ok::<Seq<Seq<char>>, Seq<char>>(
            xs.subrange(0, n as int),
        ),
    decreases n,
{
    if n == 0 {
        assert(xs.subrange(0, 0) =~= Seq::empty());
    } else {
        lemma_texts_round_trip(xs, (n - 1) as nat);
        assert(xs.subrange(0, n - 1).push(xs[n - 1]) =~= xs.subrange(0, n as int));
    }
}

/// Reading the document of an entry point gives the entry point back.
pub proof fn lemma_entry_point_round_trip(e: EntryPointModel)
    ensures
        entry_point_read(entry_point_doc(e)) == Ok::<EntryPointModel, Seq<char>>(e),
{
    lemma_names();
    reveal_with_fuel(member_from, 5);
    lemma_params_round_trip(e.inputs, e.inputs.len());
    assert(e.inputs.subrange(0, e.inputs.len() as int) =~= e.inputs);
    lemma_outputs_round_trip(e.outputs, e.outputs.len());
    assert(e.outputs.subrange(0, e.outputs.len() as int) =~= e.outputs);
    let members = entry_point_doc(e)->Object_0;
    match e.tuning_params {
        Some(names) => {
            lemma_texts_round_trip(names, names.len());
            assert(names.subrange(0, names.len() as int) =~= names);
            assert(Seq::new(names.len(), |i: int| JsonModel::Text(names[i])) =~= Seq::new(
                names.len(),
                |i: int| text_doc(names[i]),
            ));
            assert(tuning_params_read(members) == Ok::<Option<Seq<Seq<char>>>, Seq<char>>(
                Some(names),
            ));
        },
        None => {
            assert(tuning_params_read(members) == Ok::<Option<Seq<Seq<char>>>, Seq<char>>(None));
        },
    }
}

/// Reading the document of an array type gives the array type back.
pub proof fn lemma_array_round_trip(a: ArrayTypeModel)
    ensures
        array_read(array_doc(a)->Object_0) == Ok::<ArrayTypeModel, Seq<char>>(a),
        type_decl_read(array_doc(a)) == Ok::<TypeDeclModel, Seq<char>>(TypeDeclModel::Array(a)),
{
    lemma_names();
    reveal_with_fuel(member_from, 6);
    let ops = array_ops_doc(a.ops)->Object_0;
    assert(array_ops_read(ops) == Ok::<ArrayOpsModel, Seq<char>>(a.ops));
}

/// Reading the document of an opaque type gives the opaque type back.
pub proof fn lemma_opaque_round_trip(o: OpaqueTypeModel)
    ensures
        opaque_read(opaque_doc(o)->Object_0) == Ok::<OpaqueTypeModel, Seq<char>>(o),
        type_decl_read(opaque_doc(o)) == Ok::<TypeDeclModel, Seq<char>>(TypeDeclModel::Opaque(o)),
{
    lemma_names();
    reveal_with_fuel(member_from, 5);
    let ops = opaque_ops_doc(o.ops)->Object_0;
    assert(opaque_ops_read(ops) == Ok::<OpaqueOpsModel, Seq<char>>(o.ops));
    lemma_projections_round_trip(o.projections, o.projections.len());
    assert(o.projections.subrange(0, o.projections.len() as int) =~= o.projections);
    let members = opaque_doc(o)->Object_0;
    assert(opaque_projections_read(members) == Ok::<Seq<ProjectionModel>, Seq<char>>(
        o.projections,
    ));
    assert(composite_read(members) == Ok::<Composite, Seq<char>>(o.composite));
}

/// Reading the document of a type gives the type back.
pub proof fn lemma_type_round_trip(t: TypeDeclModel)
    ensures
        type_decl_read(type_decl_doc(t)) == Ok::<TypeDeclModel, Seq<char>>(t),
{
    match t {
        TypeDeclModel::Array(a) => lemma_array_round_trip(a),
        TypeDeclModel::Opaque(o) => lemma_opaque_round_trip(o),
    }
}

proof fn lemma_entry_points_round_trip(table: Seq<(Seq<char>, EntryPointModel)>, n: nat)
    requires
        ascending(table),
        n <= table.len(),
    ensures
        entry_points_read(entry_points_doc(table), n) == Ok::<Seq<(Seq<char>, EntryPointModel)>, Seq<char>>(
            table.subrange(0, n as int),
        ),
    decreases n,
{
    if n == 0 {
        assert(table.subrange(0, 0) =~= Seq::empty());
    } else {
        lemma_entry_points_round_trip(table, (n - 1) as nat);
        let before = table.subrange(0, n - 1);
        let last = table[n - 1];
        lemma_entry_point_round_trip(last.1);
        assert forall|j: int| 0 <= j < before.len() implies precedes(
            (#[trigger] before[j]).0,
            last.0,
        ) by {
            assert(before[j] == table[j]);
        }
        lemma_inserted_last(before, last.0, last.1);
        assert(before.push(last) =~= table.subrange(0, n as int));
    }
}

proof fn lemma_types_round_trip(table: Seq<(Seq<char>, TypeDeclModel)>, n: nat)
    requires
        ascending(table),
        n <= table.len(),
    ensures
        types_read(types_doc(table), n) == Ok::<Seq<(Seq<char>, TypeDeclModel)>, Seq<char>>(
            table.subrange(0, n as int),
        ),
    decreases n,
{
    if n == 0 {
        assert(table.subrange(0, 0) =~= Seq::empty());
    } else {
        lemma_types_round_trip(table, (n - 1) as nat);
        let before = table.subrange(0, n - 1);
        let last = table[n - 1];
        lemma_type_round_trip(last.1);
        assert forall|j: int| 0 <= j < before.len() implies precedes(
            (#[trigger] before[j]).0,
            last.0,
        ) by {
            assert(before[j] == table[j]);
        }
        lemma_inserted_last(before, last.0, last.1);
        assert(before.push(last) =~= table.subrange(0, n as int));
    }
}

/// Writing a manifest to a document and reading the document gives the
/// manifest back: every entry point and every type under its name, with
/// every field as it was.
pub proof fn lemma_manifest_round_trip(m: ManifestModel)
    requires
        m.wf(),
    ensures
        manifest_read(manifest_doc(m)) == Ok::<ManifestModel, Seq<char>>(m),
{
    lemma_names();
    reveal_with_fuel(member_from, 5);
    lemma_backend_named(m.backend.name());
    lemma_entry_points_round_trip(m.entry_points, m.entry_points.len());
    lemma_types_round_trip(m.types, m.types.len());
    assert(m.entry_points.subrange(0, m.entry_points.len() as int) =~= m.entry_points);
    assert(m.types.subrange(0, m.types.len() as int) =~= m.types);
}

proof fn lemma_entry_points_ascend(members: Seq<(Seq<char>, JsonModel)>, n: nat)
    requires
        entry_points_read(members, n) is Ok,
    ensures
        ascending(entry_points_read(members, n)->Ok_0),
    decreases n,
{
    if n > 0 {
        lemma_entry_points_ascend(members, (n - 1) as nat);
        lemma_inserted_ascending(
            entry_points_read(members, (n - 1) as nat)->Ok_0,
            members[n - 1].0,
            entry_point_read(members[n - 1].1)->Ok_0,
        );
    }
}

proof fn lemma_types_ascend(members: Seq<(Seq<char>, JsonModel)>, n: nat)
    requires
        types_read(members, n) is Ok,
    ensures
        ascending(types_read(members, n)->Ok_0),
    decreases n,
{
    if n > 0 {
        lemma_types_ascend(members, (n - 1) as nat);
        lemma_inserted_ascending(
            types_read(members, (n - 1) as nat)->Ok_0,
            members[n - 1].0,
            type_decl_read(members[n - 1].1)->Ok_0,
        );
    }
}

/// In the manifest that a document describes no name occurs twice, and the
/// names ascend, in whatever order the document holds its members.
pub proof fn lemma_read_manifest_is_ordered(d: JsonModel)
    requires
        manifest_read(d) is Ok,
    ensures
        manifest_read(d)->Ok_0.wf(),
{
    let members = d->Object_0;
    let entry_points = object_read(members, "entry_points"@)->Ok_0;
    let types = object_read(members, "types"@)->Ok_0;
    lemma_entry_points_ascend(entry_points, entry_points.len());
    lemma_types_ascend(types, types.len());
}

/// Reading a document and writing what was read gives a document that
/// means the same: reading it gives the same manifest. The members that the
/// reader passed over are gone from it, and what was left to a default is
/// written out.
pub proof fn lemma_document_round_trip(d: JsonModel)
    requires
        manifest_read(d) is Ok,
    ensures
        manifest_read(manifest_doc(manifest_read(d)->Ok_0)) == manifest_read(d),
{
    lemma_read_manifest_is_ordered(d);
    lemma_manifest_round_trip(manifest_read(d)->Ok_0);
}

} // verus!
