//! The schema of the manifest: how a manifest is read from a document. A
//! reader asks for the members it knows and passes over the others, so that
//! a document of a newer upstream compiler can still be read; a member that
//! is required and missing, or that holds a value of the wrong kind, makes
//! the document unreadable, and the first such fault is reported.

use vstd::prelude::*;
use vstd::string::*;
use crate::backend::{backend_named, Backend};
use crate::document::{get, lemma_model_of_parts, member, Json, JsonModel};
use crate::error::{Error, ErrorModel};
use crate::keyed::{has_key, inserted};
use crate::manifest::{
    ArrayOps, ArrayOpsModel, ArrayType, ArrayTypeModel, Composite, EntryPoint, EntryPointModel,
    Manifest, ManifestModel, OpaqueOps, OpaqueOpsModel, OpaqueType, OpaqueTypeModel, Output,
    OutputModel, Param, ParamModel, Projection, ProjectionModel, TypeDecl, TypeDeclModel,
};
use crate::text::str_eq;

verus! {

/// Whether `r` is the outcome of reading what `expected` says: the value
/// where there is one, and else the fault `ManifestParse` with the text
/// that says what is wrong.
pub open spec fn reads<T: DeepView>(r: Result<T, Error>, expected: Result<T::V, Seq<char>>) -> bool {
    match expected {
        Ok(v) => r is Ok && r->Ok_0.deep_view() == v,
        Err(text) => r is Err && r->Err_0@ == ErrorModel::ManifestParse(text),
    }
}

/// The text of a fault: what is wrong, and with which name.
pub open spec fn fault_text(what: Seq<char>, which: Seq<char>) -> Seq<char> {
    what + which
}

/// The fault that says what is wrong, and with which name.
pub fn fault(what: &str, which: &str) -> (r: Error)
    ensures
        r@ == ErrorModel::ManifestParse(fault_text(what@, which@)),
{
    Error::ManifestParse(String::from_str(what).concat(which))
}

/// The text under the name `key`.
pub open spec fn text_read(members: Seq<(Seq<char>, JsonModel)>, key: Seq<char>) -> Result<
    Seq<char>,
    Seq<char>,
> {
    match member(members, key) {
        Some(JsonModel::Text(s)) => Ok(s),
        _ => Err(fault_text("no text under the name "@, key)),
    }
}

/// Reads what `text_read` says.
pub fn text_field(members: &Vec<(String, Json)>, key: &str) -> (r: Result<String, Error>)
    ensures
        reads(r, text_read(members.deep_view(), key@)),
{
    match get(members, key) {
        Some(Json::Text(s)) => Ok(s.clone()),
        _ => Err(fault("no text under the name ", key)),
    }
}

/// The text under the name `key`, which may be missing or null.
pub open spec fn optional_text_read(members: Seq<(Seq<char>, JsonModel)>, key: Seq<char>) -> Result<
    Option<Seq<char>>,
    Seq<char>,
> {
    match member(members, key) {
        None => Ok(None),
        Some(JsonModel::Null) => Ok(None),
        Some(JsonModel::Text(s)) => Ok(Some(s)),
        _ => Err(fault_text("neither text nor null under the name "@, key)),
    }
}

/// Reads what `optional_text_read` says.
pub fn optional_text_field(members: &Vec<(String, Json)>, key: &str) -> (r: Result<Option<String>, Error>)
    ensures
        reads(r, optional_text_read(members.deep_view(), key@)),
{
    match get(members, key) {
        None => Ok(None),
        Some(Json::Null) => Ok(None),
        Some(Json::Text(s)) => Ok(Some(s.clone())),
        _ => Err(fault("neither text nor null under the name ", key)),
    }
}

/// The truth value under the name `key`, which may be missing and is then
/// `false`.
pub open spec fn flag_read(members: Seq<(Seq<char>, JsonModel)>, key: Seq<char>) -> Result<
    bool,
    Seq<char>,
> {
    match member(members, key) {
        None => Ok(false),
        Some(JsonModel::Bool(b)) => Ok(b),
        _ => Err(fault_text("no truth value under the name "@, key)),
    }
}

/// Reads what `flag_read` says.
pub fn flag_field(members: &Vec<(String, Json)>, key: &str) -> (r: Result<bool, Error>)
    ensures
        match flag_read(members.deep_view(), key@) {
            Ok(b) => r is Ok && r->Ok_0 == b,
            Err(text) => r is Err && r->Err_0@ == ErrorModel::ManifestParse(text),
        },
{
    match get(members, key) {
        None => Ok(false),
        Some(Json::Bool(b)) => Ok(*b),
        _ => Err(fault("no truth value under the name ", key)),
    }
}

/// The natural number under the name `key`.
pub open spec fn natural_read(members: Seq<(Seq<char>, JsonModel)>, key: Seq<char>) -> Result<
    nat,
    Seq<char>,
> {
    match member(members, key) {
        Some(JsonModel::Integer(n)) => Ok(n),
        _ => Err(fault_text("no natural number under the name "@, key)),
    }
}

/// Reads what `natural_read` says.
pub fn natural_field(members: &Vec<(String, Json)>, key: &str) -> (r: Result<u64, Error>)
    ensures
        match natural_read(members.deep_view(), key@) {
            Ok(n) => r is Ok && r->Ok_0 as nat == n,
            Err(text) => r is Err && r->Err_0@ == ErrorModel::ManifestParse(text),
        },
{
    match get(members, key) {
        Some(Json::Integer(n)) => Ok(*n),
        _ => Err(fault("no natural number under the name ", key)),
    }
}

/// The members of the object under the name `key`.
pub open spec fn object_read(members: Seq<(Seq<char>, JsonModel)>, key: Seq<char>) -> Result<
    Seq<(Seq<char>, JsonModel)>,
    Seq<char>,
> {
    match member(members, key) {
        Some(JsonModel::Object(inner)) => Ok(inner),
        _ => Err(fault_text("no object under the name "@, key)),
    }
}

/// Reads what `object_read` says.
pub fn object_field<'a>(members: &'a Vec<(String, Json)>, key: &str) -> (r: Result<
    &'a Vec<(String, Json)>,
    Error,
>)
    ensures
        reads(r, object_read(members.deep_view(), key@)),
{
    match get(members, key) {
        Some(j) => match j {
            Json::Object(inner) => {
                proof {
                    lemma_model_of_parts(*j);
                }
                Ok(inner)
            },
            _ => Err(fault("no object under the name ", key)),
        },
        None => Err(fault("no object under the name ", key)),
    }
}

/// The items of the list under the name `key`.
pub open spec fn list_read(members: Seq<(Seq<char>, JsonModel)>, key: Seq<char>) -> Result<
    Seq<JsonModel>,
    Seq<char>,
> {
    match member(members, key) {
        Some(JsonModel::List(items)) => Ok(items),
        _ => Err(fault_text("no list under the name "@, key)),
    }
}

/// Reads what `list_read` says.
pub fn list_field<'a>(members: &'a Vec<(String, Json)>, key: &str) -> (r: Result<
    &'a Vec<Json>,
    Error,
>)
    ensures
        reads(r, list_read(members.deep_view(), key@)),
{
    match get(members, key) {
        Some(j) => match j {
            Json::List(items) => {
                proof {
                    lemma_model_of_parts(*j);
                }
                Ok(items)
            },
            _ => Err(fault("no list under the name ", key)),
        },
        None => Err(fault("no list under the name ", key)),
    }
}

/// The items of the list under the name `key`, which may be missing or
/// null: there are then none.
pub open spec fn optional_list_read(
    members: Seq<(Seq<char>, JsonModel)>,
    key: Seq<char>,
) -> Result<Option<Seq<JsonModel>>, Seq<char>> {
    match member(members, key) {
        None => Ok(None),
        Some(JsonModel::Null) => Ok(None),
        Some(JsonModel::List(items)) => Ok(Some(items)),
        _ => Err(fault_text("neither list nor null under the name "@, key)),
    }
}

/// Reads what `optional_list_read` says.
pub fn optional_list_field<'a>(members: &'a Vec<(String, Json)>, key: &str) -> (r: Result<
    Option<&'a Vec<Json>>,
    Error,
>)
    ensures
        reads(r, optional_list_read(members.deep_view(), key@)),
{
    match get(members, key) {
        None => Ok(None),
        Some(j) => match j {
            Json::Null => Ok(None),
            Json::List(items) => {
                proof {
                    lemma_model_of_parts(*j);
                }
                Ok(Some(items))
            },
            _ => Err(fault("neither list nor null under the name ", key)),
        },
    }
}

/// The argument that `j` describes: an object with the type's name under
/// `type`. `unique` may be missing, and the argument is then not unique.
pub open spec fn param_read(j: JsonModel) -> Result<ParamModel, Seq<char>> {
    match j {
        JsonModel::Object(members) => {
            let ty = text_read(members, "type"@);
            let unique = flag_read(members, "unique"@);
            if ty is Err {
                Err(ty->Err_0)
            } else if unique is Err {
                Err(unique->Err_0)
            } else {
                Ok(
                    ParamModel { ty: ty->Ok_0, unique: unique->Ok_0 },
                )
            }
        },
        _ => Err(fault_text("no object: "@, "an argument"@)),
    }
}

/// Reads what `param_read` says.
pub fn param_from(j: &Json) -> (r: Result<Param, Error>)
    ensures
        reads(r, param_read(j.deep_view())),
{
    match j {
        Json::Object(members) => {
            proof {
                lemma_model_of_parts(*j);
            }
            let ty = text_field(members, "type")?;
            let unique = flag_field(members, "unique")?;
            Ok(Param { ty, unique })
        },
        _ => Err(fault("no object: ", "an argument")),
    }
}

/// The result that `j` describes: an object with the type's name under
/// `type`.
pub open spec fn output_read(j: JsonModel) -> Result<OutputModel, Seq<char>> {
    match j {
        JsonModel::Object(members) => {
            let ty = text_read(members, "type"@);
            if ty is Err {
                Err(ty->Err_0)
            } else {
                Ok(
                    OutputModel { ty: ty->Ok_0 },
                )
            }
        },
        _ => Err(fault_text("no object: "@, "a result"@)),
    }
}

/// Reads what `output_read` says.
pub fn output_from(j: &Json) -> (r: Result<Output, Error>)
    ensures
        reads(r, output_read(j.deep_view())),
{
    match j {
        Json::Object(members) => {
            proof {
                lemma_model_of_parts(*j);
            }
            let ty = text_field(members, "type")?;
            Ok(Output { ty })
        },
        _ => Err(fault("no object: ", "a result")),
    }
}

/// The text that `j` is.
pub open spec fn item_text_read(j: JsonModel) -> Result<Seq<char>, Seq<char>> {
    match j {
        JsonModel::Text(s) => Ok(s),
        _ => Err(fault_text("no text: "@, "an item of a list"@)),
    }
}

/// Reads what `item_text_read` says.
pub fn text_from(j: &Json) -> (r: Result<String, Error>)
    ensures
        reads(r, item_text_read(j.deep_view())),
{
    match j {
        Json::Text(s) => Ok(s.clone()),
        _ => Err(fault("no text: ", "an item of a list")),
    }
}

/// The arguments that the first `n` of `items` describe.
pub open spec fn params_read(items: Seq<JsonModel>, n: nat) -> Result<Seq<ParamModel>, Seq<char>>
    decreases n,
{
    if n == 0 {
        Ok(Seq::empty())
    } else {
        match params_read(items, (n - 1) as nat) {
            Err(e) => Err(e),
            Ok(read) => match param_read(items[n - 1]) {
                Err(e) => Err(e),
                Ok(x) => Ok(read.push(x)),
            },
        }
    }
}

/// A fault among the first items stays the fault of the list.
pub proof fn lemma_params_fault_stays(items: Seq<JsonModel>, n: nat, m: nat)
    requires
        n <= m,
        params_read(items, n) is Err,
    ensures
        params_read(items, m) == params_read(items, n),
    decreases m,
{
    if n < m {
        lemma_params_fault_stays(items, n, (m - 1) as nat);
    }
}

/// Reads what `params_read` says of all items.
pub fn params_from(items: &Vec<Json>) -> (r: Result<Vec<Param>, Error>)
    ensures
        reads(r, params_read(items.deep_view(), items.len() as nat)),
{
    let mut out: Vec<Param> = Vec::new();
    let mut i: usize = 0;
    assert(out.deep_view() =~= Seq::empty());
    while i < items.len()
        invariant
            i <= items.len(),
            params_read(items.deep_view(), i as nat) == Ok::<Seq<ParamModel>, Seq<char>>(out.deep_view()),
        decreases items.len() - i,
    {
        let ghost before = out.deep_view();
        match param_from(&items[i]) {
            Ok(item) => {
                out.push(item);
            },
            Err(e) => {
                proof {
                    lemma_params_fault_stays(items.deep_view(), (i + 1) as nat, items.len() as nat);
                }
                return Err(e);
            },
        }
        i = i + 1;
        assert(out.deep_view() =~= before.push(param_read(items.deep_view()[i - 1])->Ok_0));
    }
    Ok(out)
}

/// The results that the first `n` of `items` describe.
pub open spec fn outputs_read(items: Seq<JsonModel>, n: nat) -> Result<Seq<OutputModel>, Seq<char>>
    decreases n,
{
    if n == 0 {
        Ok(Seq::empty())
    } else {
        match outputs_read(items, (n - 1) as nat) {
            Err(e) => Err(e),
            Ok(read) => match output_read(items[n - 1]) {
                Err(e) => Err(e),
                Ok(x) => Ok(read.push(x)),
            },
        }
    }
}

/// A fault among the first items stays the fault of the list.
pub proof fn lemma_outputs_fault_stays(items: Seq<JsonModel>, n: nat, m: nat)
    requires
        n <= m,
        outputs_read(items, n) is Err,
    ensures
        outputs_read(items, m) == outputs_read(items, n),
    decreases m,
{
    if n < m {
        lemma_outputs_fault_stays(items, n, (m - 1) as nat);
    }
}

/// Reads what `outputs_read` says of all items.
pub fn outputs_from(items: &Vec<Json>) -> (r: Result<Vec<Output>, Error>)
    ensures
        reads(r, outputs_read(items.deep_view(), items.len() as nat)),
{
    let mut out: Vec<Output> = Vec::new();
    let mut i: usize = 0;
    assert(out.deep_view() =~= Seq::empty());
    while i < items.len()
        invariant
            i <= items.len(),
            outputs_read(items.deep_view(), i as nat) == Ok::<Seq<OutputModel>, Seq<char>>(out.deep_view()),
        decreases items.len() - i,
    {
        let ghost before = out.deep_view();
        match output_from(&items[i]) {
            Ok(item) => {
                out.push(item);
            },
            Err(e) => {
                proof {
                    lemma_outputs_fault_stays(items.deep_view(), (i + 1) as nat, items.len() as nat);
                }
                return Err(e);
            },
        }
        i = i + 1;
        assert(out.deep_view() =~= before.push(output_read(items.deep_view()[i - 1])->Ok_0));
    }
    Ok(out)
}

/// The texts that the first `n` of `items` are.
pub open spec fn texts_read(items: Seq<JsonModel>, n: nat) -> Result<Seq<Seq<char>>, Seq<char>>
    decreases n,
{
    if n == 0 {
        Ok(Seq::empty())
    } else {
        match texts_read(items, (n - 1) as nat) {
            Err(e) => Err(e),
            Ok(read) => match item_text_read(items[n - 1]) {
                Err(e) => Err(e),
                Ok(x) => Ok(read.push(x)),
            },
        }
    }
}

/// A fault among the first items stays the fault of the list.
pub proof fn lemma_texts_fault_stays(items: Seq<JsonModel>, n: nat, m: nat)
    requires
        n <= m,
        texts_read(items, n) is Err,
    ensures
        texts_read(items, m) == texts_read(items, n),
    decreases m,
{
    if n < m {
        lemma_texts_fault_stays(items, n, (m - 1) as nat);
    }
}

/// Reads what `texts_read` says of all items.
pub fn texts_from(items: &Vec<Json>) -> (r: Result<Vec<String>, Error>)
    ensures
        reads(r, texts_read(items.deep_view(), items.len() as nat)),
{
    let mut out: Vec<String> = Vec::new();
    let mut i: usize = 0;
    assert(out.deep_view() =~= Seq::empty());
    while i < items.len()
        invariant
            i <= items.len(),
            texts_read(items.deep_view(), i as nat) == Ok::<Seq<Seq<char>>, Seq<char>>(out.deep_view()),
        decreases items.len() - i,
    {
        let ghost before = out.deep_view();
        match text_from(&items[i]) {
            Ok(item) => {
                out.push(item);
            },
            Err(e) => {
                proof {
                    lemma_texts_fault_stays(items.deep_view(), (i + 1) as nat, items.len() as nat);
                }
                return Err(e);
            },
        }
        i = i + 1;
        assert(out.deep_view() =~= before.push(item_text_read(items.deep_view()[i - 1])->Ok_0));
    }
    Ok(out)
}

/// The tuning parameters among `members`: a list of texts under
/// `tuning_params`, which may be missing or null.
pub open spec fn tuning_params_read(members: Seq<(Seq<char>, JsonModel)>) -> Result<
    Option<Seq<Seq<char>>>,
    Seq<char>,
> {
    match optional_list_read(members, "tuning_params"@) {
        Err(e) => Err(e),
        Ok(None) => Ok(None),
        Ok(Some(items)) => match texts_read(items, items.len()) {
            Err(e) => Err(e),
            Ok(names) => Ok(Some(names)),
        },
    }
}

/// Reads what `tuning_params_read` says.
pub fn tuning_params_from(members: &Vec<(String, Json)>) -> (r: Result<Option<Vec<String>>, Error>)
    ensures
        reads(r, tuning_params_read(members.deep_view())),
{
    match optional_list_field(members, "tuning_params")? {
        None => Ok(None),
        Some(items) => {
            let names = texts_from(items)?;
            Ok(Some(names))
        },
    }
}

/// The entry point that `j` describes: an object with the C symbol under
/// `cfun` and the lists `inputs` and `outputs`.
pub open spec fn entry_point_read(j: JsonModel) -> Result<EntryPointModel, Seq<char>> {
    match j {
        JsonModel::Object(members) => {
            let cfun = text_read(members, "cfun"@);
            let inputs = match list_read(members, "inputs"@) {
                Ok(items) => params_read(items, items.len()),
                Err(e) => Err(e),
            };
            let outputs = match list_read(members, "outputs"@) {
                Ok(items) => outputs_read(items, items.len()),
                Err(e) => Err(e),
            };
            let tuning_params = tuning_params_read(members);
            if cfun is Err {
                Err(cfun->Err_0)
            } else if inputs is Err {
                Err(inputs->Err_0)
            } else if outputs is Err {
                Err(outputs->Err_0)
            } else if tuning_params is Err {
                Err(tuning_params->Err_0)
            } else {
                Ok(
                    EntryPointModel {
                        cfun: cfun->Ok_0,
                        inputs: inputs->Ok_0,
                        outputs: outputs->Ok_0,
                        tuning_params: tuning_params->Ok_0,
                    },
                )
            }
        },
        _ => Err(fault_text("no object: "@, "an entry point"@)),
    }
}

/// Reads what `entry_point_read` says.
pub fn entry_point_from(j: &Json) -> (r: Result<EntryPoint, Error>)
    ensures
        reads(r, entry_point_read(j.deep_view())),
{
    match j {
        Json::Object(members) => {
            proof {
                lemma_model_of_parts(*j);
            }
            let cfun = text_field(members, "cfun")?;
            let inputs = params_from(list_field(members, "inputs")?)?;
            let outputs = outputs_from(list_field(members, "outputs")?)?;
            let tuning_params = tuning_params_from(members)?;
            Ok(EntryPoint { cfun, inputs, outputs, tuning_params })
        },
        _ => Err(fault("no object: ", "an entry point")),
    }
}

/// The operations of an array type that `members` name.
pub open spec fn array_ops_read(members: Seq<(Seq<char>, JsonModel)>) -> Result<ArrayOpsModel, Seq<char>> {
    let new = text_read(members, "new"@);
    let free = text_read(members, "free"@);
    let shape = text_read(members, "shape"@);
    let values = text_read(members, "values"@);
    let values_raw = optional_text_read(members, "values_raw"@);
    if new is Err {
        Err(new->Err_0)
    } else if free is Err {
        Err(free->Err_0)
    } else if shape is Err {
        Err(shape->Err_0)
    } else if values is Err {
        Err(values->Err_0)
    } else if values_raw is Err {
        Err(values_raw->Err_0)
    } else {
        Ok(
            ArrayOpsModel {
                new: new->Ok_0,
                free: free->Ok_0,
                shape: shape->Ok_0,
                values: values->Ok_0,
                values_raw: values_raw->Ok_0,
            },
        )
    }
}

/// Reads what `array_ops_read` says.
pub fn array_ops_from(members: &Vec<(String, Json)>) -> (r: Result<ArrayOps, Error>)
    ensures
        reads(r, array_ops_read(members.deep_view())),
{
    let new = text_field(members, "new")?;
    let free = text_field(members, "free")?;
    let shape = text_field(members, "shape")?;
    let values = text_field(members, "values")?;
    let values_raw = optional_text_field(members, "values_raw")?;
    Ok(ArrayOps { new, free, shape, values, values_raw })
}

/// The array type that `members` describe: the element type under
/// `elemtype`, the rank, a natural number, under `rank`, and the operations
/// under `ops`.
pub open spec fn array_read(members: Seq<(Seq<char>, JsonModel)>) -> Result<ArrayTypeModel, Seq<char>> {
    let elemtype = text_read(members, "elemtype"@);
    let rank = natural_read(members, "rank"@);
    let ops = match object_read(members, "ops"@) {
        Ok(inner) => array_ops_read(inner),
        Err(e) => Err(e),
    };
    if elemtype is Err {
        Err(elemtype->Err_0)
    } else if rank is Err {
        Err(rank->Err_0)
    } else if ops is Err {
        Err(ops->Err_0)
    } else {
        Ok(
            ArrayTypeModel { elemtype: elemtype->Ok_0, rank: rank->Ok_0, ops: ops->Ok_0 },
        )
    }
}

/// Reads what `array_read` says.
pub fn array_from(members: &Vec<(String, Json)>) -> (r: Result<ArrayType, Error>)
    ensures
        reads(r, array_read(members.deep_view())),
{
    let elemtype = text_field(members, "elemtype")?;
    let rank = natural_field(members, "rank")?;
    let ops = array_ops_from(object_field(members, "ops")?)?;
    Ok(ArrayType { elemtype, rank, ops })
}

/// The operations of an opaque type that `members` name.
pub open spec fn opaque_ops_read(members: Seq<(Seq<char>, JsonModel)>) -> Result<OpaqueOpsModel, Seq<char>> {
    let free = text_read(members, "free"@);
    let store = text_read(members, "store"@);
    let restore = text_read(members, "restore"@);
    if free is Err {
        Err(free->Err_0)
    } else if store is Err {
        Err(store->Err_0)
    } else if restore is Err {
        Err(restore->Err_0)
    } else {
        Ok(
            OpaqueOpsModel { free: free->Ok_0, store: store->Ok_0, restore: restore->Ok_0 },
        )
    }
}

/// Reads what `opaque_ops_read` says.
pub fn opaque_ops_from(members: &Vec<(String, Json)>) -> (r: Result<OpaqueOps, Error>)
    ensures
        reads(r, opaque_ops_read(members.deep_view())),
{
    let free = text_field(members, "free")?;
    let store = text_field(members, "store")?;
    let restore = text_field(members, "restore")?;
    Ok(OpaqueOps { free, store, restore })
}

/// The projection that `j` describes: an object with the texts `name`,
/// `project` and `type`.
pub open spec fn projection_read(j: JsonModel) -> Result<ProjectionModel, Seq<char>> {
    match j {
        JsonModel::Object(members) => {
            let name = text_read(members, "name"@);
            let project = text_read(members, "project"@);
            let ty = text_read(members, "type"@);
            if name is Err {
                Err(name->Err_0)
            } else if project is Err {
                Err(project->Err_0)
            } else if ty is Err {
                Err(ty->Err_0)
            } else {
                Ok(
                    ProjectionModel { name: name->Ok_0, project: project->Ok_0, ty: ty->Ok_0 },
                )
            }
        },
        _ => Err(fault_text("no object: "@, "a projection"@)),
    }
}

/// Reads what `projection_read` says.
pub fn projection_from(j: &Json) -> (r: Result<Projection, Error>)
    ensures
        reads(r, projection_read(j.deep_view())),
{
    match j {
        Json::Object(members) => {
            proof {
                lemma_model_of_parts(*j);
            }
            let name = text_field(members, "name")?;
            let project = text_field(members, "project")?;
            let ty = text_field(members, "type")?;
            Ok(Projection { name, project, ty })
        },
        _ => Err(fault("no object: ", "a projection")),
    }
}

/// The projections that the first `n` of `items` describe.
pub open spec fn projections_read(items: Seq<JsonModel>, n: nat) -> Result<Seq<ProjectionModel>, Seq<char>>
    decreases n,
{
    if n == 0 {
        Ok(Seq::empty())
    } else {
        match projections_read(items, (n - 1) as nat) {
            Err(e) => Err(e),
            Ok(read) => match projection_read(items[n - 1]) {
                Err(e) => Err(e),
                Ok(x) => Ok(read.push(x)),
            },
        }
    }
}

/// A fault among the first items stays the fault of the list.
pub proof fn lemma_projections_fault_stays(items: Seq<JsonModel>, n: nat, m: nat)
    requires
        n <= m,
        projections_read(items, n) is Err,
    ensures
        projections_read(items, m) == projections_read(items, n),
    decreases m,
{
    if n < m {
        lemma_projections_fault_stays(items, n, (m - 1) as nat);
    }
}

/// Reads what `projections_read` says of all items.
pub fn projections_from(items: &Vec<Json>) -> (r: Result<Vec<Projection>, Error>)
    ensures
        reads(r, projections_read(items.deep_view(), items.len() as nat)),
{
    let mut out: Vec<Projection> = Vec::new();
    let mut i: usize = 0;
    assert(out.deep_view() =~= Seq::empty());
    while i < items.len()
        invariant
            i <= items.len(),
            projections_read(items.deep_view(), i as nat) == Ok::<Seq<ProjectionModel>, Seq<char>>(out.deep_view()),
        decreases items.len() - i,
    {
        let ghost before = out.deep_view();
        match projection_from(&items[i]) {
            Ok(item) => {
                out.push(item);
            },
            Err(e) => {
                proof {
                    lemma_projections_fault_stays(items.deep_view(), (i + 1) as nat, items.len() as nat);
                }
                return Err(e);
            },
        }
        i = i + 1;
        assert(out.deep_view() =~= before.push(projection_read(items.deep_view()[i - 1])->Ok_0));
    }
    Ok(out)
}

/// What `members` say of the value behind an opaque type: `record` or `sum`
/// under `view`, or nothing where `view` is missing or null.
pub open spec fn composite_read(members: Seq<(Seq<char>, JsonModel)>) -> Result<
    Composite,
    Seq<char>,
> {
    match optional_text_read(members, "view"@) {
        Err(e) => Err(e),
        Ok(None) => Ok(Composite::Plain),
        Ok(Some(s)) => if s == "record"@ {
            Ok(Composite::Record)
        } else if s == "sum"@ {
            Ok(Composite::Sum)
        } else {
            Err(fault_text("unknown view: "@, s))
        },
    }
}

/// Reads what `composite_read` says.
pub fn composite_from(members: &Vec<(String, Json)>) -> (r: Result<Composite, Error>)
    ensures
        match composite_read(members.deep_view()) {
            Ok(c) => r is Ok && r->Ok_0 == c,
            Err(text) => r is Err && r->Err_0@ == ErrorModel::ManifestParse(text),
        },
{
    match optional_text_field(members, "view")? {
        None => Ok(Composite::Plain),
        Some(s) => {
            if str_eq(s.as_str(), "record") {
                Ok(Composite::Record)
            } else if str_eq(s.as_str(), "sum") {
                Ok(Composite::Sum)
            } else {
                Err(fault("unknown view: ", s.as_str()))
            }
        },
    }
}

/// The projections among `members`: a list under `projections`, which may
/// be missing or null; the type then has none.
pub open spec fn opaque_projections_read(members: Seq<(Seq<char>, JsonModel)>) -> Result<
    Seq<ProjectionModel>,
    Seq<char>,
> {
    match optional_list_read(members, "projections"@) {
        Err(e) => Err(e),
        Ok(None) => Ok(Seq::empty()),
        Ok(Some(items)) => projections_read(items, items.len()),
    }
}

/// Reads what `opaque_projections_read` says.
pub fn opaque_projections_from(members: &Vec<(String, Json)>) -> (r: Result<
    Vec<Projection>,
    Error,
>)
    ensures
        reads(r, opaque_projections_read(members.deep_view())),
{
    match optional_list_field(members, "projections")? {
        None => {
            let none: Vec<Projection> = Vec::new();
            assert(none.deep_view() =~= Seq::empty());
            Ok(none)
        },
        Some(items) => projections_from(items),
    }
}

/// The opaque type that `members` describe: the operations under `ops`,
/// and the projections and the view where the document holds them.
pub open spec fn opaque_read(members: Seq<(Seq<char>, JsonModel)>) -> Result<OpaqueTypeModel, Seq<char>> {
    let ops = match object_read(members, "ops"@) {
        Ok(inner) => opaque_ops_read(inner),
        Err(e) => Err(e),
    };
    let projections = opaque_projections_read(members);
    let composite = composite_read(members);
    if ops is Err {
        Err(ops->Err_0)
    } else if projections is Err {
        Err(projections->Err_0)
    } else if composite is Err {
        Err(composite->Err_0)
    } else {
        Ok(
            OpaqueTypeModel {
                ops: ops->Ok_0,
                projections: projections->Ok_0,
                composite: composite->Ok_0,
            },
        )
    }
}

/// Reads what `opaque_read` says.
pub fn opaque_from(members: &Vec<(String, Json)>) -> (r: Result<OpaqueType, Error>)
    ensures
        reads(r, opaque_read(members.deep_view())),
{
    let ops = opaque_ops_from(object_field(members, "ops")?)?;
    let projections = opaque_projections_from(members)?;
    let composite = composite_from(members)?;
    Ok(OpaqueType { ops, projections, composite })
}

/// The type that `j` describes: an object whose member `kind` says whether
/// it is an array type or an opaque type, and thereby which other members
/// count.
pub open spec fn type_decl_read(j: JsonModel) -> Result<TypeDeclModel, Seq<char>> {
    match j {
        JsonModel::Object(members) => match text_read(members, "kind"@) {
            Err(e) => Err(e),
            Ok(kind) => if kind == "array"@ {
                match array_read(members) {
                    Err(e) => Err(e),
                    Ok(a) => Ok(TypeDeclModel::Array(a)),
                }
            } else if kind == "opaque"@ {
                match opaque_read(members) {
                    Err(e) => Err(e),
                    Ok(o) => Ok(TypeDeclModel::Opaque(o)),
                }
            } else {
                Err(fault_text("unknown kind of type: "@, kind))
            },
        },
        _ => Err(fault_text("no object: "@, "a type"@)),
    }
}

/// Reads what `type_decl_read` says.
pub fn type_decl_from(j: &Json) -> (r: Result<TypeDecl, Error>)
    ensures
        reads(r, type_decl_read(j.deep_view())),
{
    match j {
        Json::Object(members) => {
            proof {
                lemma_model_of_parts(*j);
            }
            let kind = text_field(members, "kind")?;
            if str_eq(kind.as_str(), "array") {
                Ok(TypeDecl::Array(array_from(members)?))
            } else if str_eq(kind.as_str(), "opaque") {
                Ok(TypeDecl::Opaque(opaque_from(members)?))
            } else {
                Err(fault("unknown kind of type: ", kind.as_str()))
            }
        },
        _ => Err(fault("no object: ", "a type")),
    }
}

/// The entry points that the first `n` of `members` describe, each under
/// the name of its member, in ascending order of the names. A name that
/// occurs twice is a fault; a document that was read from JSON text holds
/// none.
pub open spec fn entry_points_read(members: Seq<(Seq<char>, JsonModel)>, n: nat) -> Result<
    Seq<(Seq<char>, EntryPointModel)>,
    Seq<char>,
>
    decreases n,
{
    if n == 0 {
        Ok(Seq::empty())
    } else {
        match entry_points_read(members, (n - 1) as nat) {
            Err(e) => Err(e),
            Ok(table) => match entry_point_read(members[n - 1].1) {
                Err(e) => Err(e),
                Ok(x) => if has_key(table, members[n - 1].0) {
                    Err(fault_text("a name occurs twice: "@, members[n - 1].0))
                } else {
                    Ok(inserted(table, members[n - 1].0, x))
                },
            },
        }
    }
}

/// A fault among the first members stays the fault of the object.
pub proof fn lemma_entry_points_fault_stays(members: Seq<(Seq<char>, JsonModel)>, n: nat, m: nat)
    requires
        n <= m,
        entry_points_read(members, n) is Err,
    ensures
        entry_points_read(members, m) == entry_points_read(members, n),
    decreases m,
{
    if n < m {
        lemma_entry_points_fault_stays(members, n, (m - 1) as nat);
    }
}

fn entry_points_from(manifest: &mut Manifest, members: &Vec<(String, Json)>) -> (r: Result<(), Error>)
    requires
        old(manifest)@.entry_points.len() == 0,
    ensures
        match entry_points_read(members.deep_view(), members.len() as nat) {
            Ok(table) => r is Ok && final(manifest)@ == (ManifestModel {
                entry_points: table,
                ..old(manifest)@
            }),
            Err(text) => r is Err && r->Err_0@ == ErrorModel::ManifestParse(text),
        },
{
    let ghost start = manifest@;
    assert(start.entry_points =~= Seq::empty());
    let mut i: usize = 0;
    while i < members.len()
        invariant
            i <= members.len(),
            entry_points_read(members.deep_view(), i as nat) is Ok,
            manifest@ == (ManifestModel {
                entry_points: entry_points_read(members.deep_view(), i as nat)->Ok_0,
                ..start
            }),
        decreases members.len() - i,
    {
        assert(members.deep_view()[i as int] == (
            members[i as int].0@,
            members[i as int].1.deep_view(),
        ));
        match entry_point_from(&members[i].1) {
            Ok(item) => {
                if !manifest.add_entry_point(members[i].0.clone(), item) {
                    proof {
                        lemma_entry_points_fault_stays(members.deep_view(), (i + 1) as nat, members.len() as nat);
                    }
                    return Err(fault("a name occurs twice: ", members[i].0.as_str()));
                }
            },
            Err(e) => {
                proof {
                    lemma_entry_points_fault_stays(members.deep_view(), (i + 1) as nat, members.len() as nat);
                }
                return Err(e);
            },
        }
        i = i + 1;
    }
    Ok(())
}

/// The types that the first `n` of `members` describe, each under the name
/// of its member, in ascending order of the names. A name that occurs twice
/// is a fault; a document that was read from JSON text holds none.
pub open spec fn types_read(members: Seq<(Seq<char>, JsonModel)>, n: nat) -> Result<
    Seq<(Seq<char>, TypeDeclModel)>,
    Seq<char>,
>
    decreases n,
{
    if n == 0 {
        Ok(Seq::empty())
    } else {
        match types_read(members, (n - 1) as nat) {
            Err(e) => Err(e),
            Ok(table) => match type_decl_read(members[n - 1].1) {
                Err(e) => Err(e),
                Ok(x) => if has_key(table, members[n - 1].0) {
                    Err(fault_text("a name occurs twice: "@, members[n - 1].0))
                } else {
                    Ok(inserted(table, members[n - 1].0, x))
                },
            },
        }
    }
}

/// A fault among the first members stays the fault of the object.
pub proof fn lemma_types_fault_stays(members: Seq<(Seq<char>, JsonModel)>, n: nat, m: nat)
    requires
        n <= m,
        types_read(members, n) is Err,
    ensures
        types_read(members, m) == types_read(members, n),
    decreases m,
{
    if n < m {
        lemma_types_fault_stays(members, n, (m - 1) as nat);
    }
}

fn types_from(manifest: &mut Manifest, members: &Vec<(String, Json)>) -> (r: Result<(), Error>)
    requires
        old(manifest)@.types.len() == 0,
    ensures
        match types_read(members.deep_view(), members.len() as nat) {
            Ok(table) => r is Ok && final(manifest)@ == (ManifestModel {
                types: table,
                ..old(manifest)@
            }),
            Err(text) => r is Err && r->Err_0@ == ErrorModel::ManifestParse(text),
        },
{
    let ghost start = manifest@;
    assert(start.types =~= Seq::empty());
    let mut i: usize = 0;
    while i < members.len()
        invariant
            i <= members.len(),
            types_read(members.deep_view(), i as nat) is Ok,
            manifest@ == (ManifestModel {
                types: types_read(members.deep_view(), i as nat)->Ok_0,
                ..start
            }),
        decreases members.len() - i,
    {
        assert(members.deep_view()[i as int] == (
            members[i as int].0@,
            members[i as int].1.deep_view(),
        ));
        match type_decl_from(&members[i].1) {
            Ok(item) => {
                if !manifest.add_type(members[i].0.clone(), item) {
                    proof {
                        lemma_types_fault_stays(members.deep_view(), (i + 1) as nat, members.len() as nat);
                    }
                    return Err(fault("a name occurs twice: ", members[i].0.as_str()));
                }
            },
            Err(e) => {
                proof {
                    lemma_types_fault_stays(members.deep_view(), (i + 1) as nat, members.len() as nat);
                }
                return Err(e);
            },
        }
        i = i + 1;
    }
    Ok(())
}

/// The backend that `members` name under `backend`.
pub open spec fn backend_read(members: Seq<(Seq<char>, JsonModel)>) -> Result<Backend, Seq<char>> {
    match text_read(members, "backend"@) {
        Err(e) => Err(e),
        Ok(name) => match backend_named(name) {
            Some(b) => Ok(b),
            None => Err(fault_text("unknown backend: "@, name)),
        },
    }
}

/// Reads what `backend_read` says.
pub fn backend_from(members: &Vec<(String, Json)>) -> (r: Result<Backend, Error>)
    ensures
        match backend_read(members.deep_view()) {
            Ok(b) => r is Ok && r->Ok_0 == b,
            Err(text) => r is Err && r->Err_0@ == ErrorModel::ManifestParse(text),
        },
{
    let name = text_field(members, "backend")?;
    match Backend::from_name(name.as_str()) {
        Some(b) => Ok(b),
        None => Err(fault("unknown backend: ", name.as_str())),
    }
}

/// The manifest that the document `j` describes: an object with the
/// backend's name under `backend`, a text under `version`, and the objects
/// `entry_points` and `types`, whose members are the entry points and the
/// types under their names.
pub open spec fn manifest_read(j: JsonModel) -> Result<ManifestModel, Seq<char>> {
    match j {
        JsonModel::Object(members) => {
            let backend = backend_read(members);
            let version = text_read(members, "version"@);
            let callables = object_read(members, "entry_points"@);
            let declared = object_read(members, "types"@);
            let entry_points = match callables {
                Ok(inner) => entry_points_read(inner, inner.len()),
                Err(e) => Err(e),
            };
            let types = match declared {
                Ok(inner) => types_read(inner, inner.len()),
                Err(e) => Err(e),
            };
            if backend is Err {
                Err(backend->Err_0)
            } else if version is Err {
                Err(version->Err_0)
            } else if callables is Err {
                Err(callables->Err_0)
            } else if declared is Err {
                Err(declared->Err_0)
            } else if entry_points is Err {
                Err(entry_points->Err_0)
            } else if types is Err {
                Err(types->Err_0)
            } else {
                Ok(
                    ManifestModel {
                        backend: backend->Ok_0,
                        version: version->Ok_0,
                        entry_points: entry_points->Ok_0,
                        types: types->Ok_0,
                    },
                )
            }
        },
        _ => Err(fault_text("no object: "@, "the manifest"@)),
    }
}

impl Manifest {
    /// Reads a manifest from a document. The answer is the manifest that
    /// the document describes, or the fault `ManifestParse` with the text
    /// of the first fault where it describes none.
    pub fn from_json(j: &Json) -> (r: Result<Manifest, Error>)
        ensures
            match manifest_read(j.deep_view()) {
                Ok(m) => r is Ok && r->Ok_0@ == m && m.wf(),
                Err(text) => r is Err && r->Err_0@ == ErrorModel::ManifestParse(text),
            },
    {
        match j {
            Json::Object(members) => {
                proof {
                    lemma_model_of_parts(*j);
                }
                let backend = backend_from(members)?;
                let version = text_field(members, "version")?;
                let callables = object_field(members, "entry_points")?;
                let declared = object_field(members, "types")?;
                let mut manifest = Manifest::new(backend, version);
                entry_points_from(&mut manifest, callables)?;
                types_from(&mut manifest, declared)?;
                proof {
                    use_type_invariant(&manifest);
                }
                Ok(manifest)
            },
            _ => Err(fault("no object: ", "the manifest")),
        }
    }
}

} // verus!
