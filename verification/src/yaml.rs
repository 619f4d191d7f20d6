//! Reading the captured configuration text. The text is handed to a YAML
//! document parser; every outcome the reader can observe — whether the text
//! parses into a mapping, whether a key is present or null, a key's string,
//! boolean, list or file-entry value — is a function of the text alone, so
//! each outcome carries a name, the trusted readers tie their results to
//! those names, and the verified walk from document to `BuildSpec` has an
//! exact contract over them.
use vstd::prelude::*;
use vstd::string::StringExecFns;

use crate::cfg::{BuildSpec, DockerBuild, File, RawSpec};
use crate::error::LaunchError;
use crate::text::{chars_to_string, opt_view};

verus! {

/// The text parses as a YAML document whose top level is a mapping.
pub uninterp spec fn yaml_doc_ok(text: Seq<char>) -> bool;

/// The parsed document has this top-level key.
pub uninterp spec fn yaml_has_key(text: Seq<char>, key: Seq<char>) -> bool;

/// The key's value is null.
pub uninterp spec fn yaml_null_key(text: Seq<char>, key: Seq<char>) -> bool;

/// The key's value, when that value is a string.
pub uninterp spec fn yaml_str_value(text: Seq<char>, key: Seq<char>) -> Option<Seq<char>>;

/// The key's value, when that value is a boolean.
pub uninterp spec fn yaml_bool_value(text: Seq<char>, key: Seq<char>) -> Option<bool>;

/// The key's items, when its value is a sequence; an item is its text when
/// that item is a string.
pub uninterp spec fn yaml_list_items(text: Seq<char>, key: Seq<char>) -> Option<
    Seq<Option<Seq<char>>>,
>;

/// The key's entries, when its value is a sequence: for each entry, whether
/// it is a mapping, and its `path` and `content` fields (the outer option:
/// the field is present; the inner: its value is a string).
pub uninterp spec fn yaml_file_entries(text: Seq<char>, key: Seq<char>) -> Option<
    Seq<(bool, Option<Option<Seq<char>>>, Option<Option<Seq<char>>>)>,
>;

/// The key's value is a mapping.
pub uninterp spec fn yaml_map_value(text: Seq<char>, key: Seq<char>) -> bool;

/// The nested key under `key` is present.
pub uninterp spec fn yaml_sub_has_key(text: Seq<char>, key: Seq<char>, sub: Seq<char>) -> bool;

/// The nested key's value is null.
pub uninterp spec fn yaml_sub_null_key(text: Seq<char>, key: Seq<char>, sub: Seq<char>) -> bool;

/// The nested key's value, when that value is a string.
pub uninterp spec fn yaml_sub_str_value(text: Seq<char>, key: Seq<char>, sub: Seq<char>) -> Option<
    Seq<char>,
>;

/// The nested key's items, when its value is a sequence of strings.
pub uninterp spec fn yaml_sub_list_items(text: Seq<char>, key: Seq<char>, sub: Seq<char>) -> Option<
    Seq<Option<Seq<char>>>,
>;

/// Relies on serde_yaml::from_str and Value::is_mapping: whether the text
/// parses into a document whose top level is a mapping.
#[verifier::external_body]
fn yaml_doc_check(text: &Vec<char>) -> (r: bool)
    ensures
        r == yaml_doc_ok(text@),
{
    let s: String = text.iter().collect();
    serde_yaml::from_str::<serde_yaml::Value>(&s).map(|d| d.is_mapping()).unwrap_or(false)
}

/// Relies on serde_yaml::from_str, Value::get, Value::is_null and
/// Value::as_str: presence, nullness and string value of a top-level key.
#[verifier::external_body]
fn yaml_str_entry(text: &Vec<char>, key: &str) -> (r: (bool, bool, Option<String>))
    ensures
        r.0 == yaml_has_key(text@, key@),
        r.1 == yaml_null_key(text@, key@),
        opt_view(r.2) == yaml_str_value(text@, key@),
{
    let s: String = text.iter().collect();
    let doc: serde_yaml::Value = match serde_yaml::from_str(&s) {
        Ok(d) => d,
        Err(_) => return (false, false, None),
    };
    match doc.get(key) {
        None => (false, false, None),
        Some(v) => (true, v.is_null(), v.as_str().map(|x| x.to_string())),
    }
}

/// Relies on serde_yaml::from_str, Value::get, Value::is_null and
/// Value::as_bool: presence, nullness and boolean value of a top-level key.
#[verifier::external_body]
fn yaml_bool_entry(text: &Vec<char>, key: &str) -> (r: (bool, bool, Option<bool>))
    ensures
        r.0 == yaml_has_key(text@, key@),
        r.1 == yaml_null_key(text@, key@),
        r.2 == yaml_bool_value(text@, key@),
{
    let s: String = text.iter().collect();
    let doc: serde_yaml::Value = match serde_yaml::from_str(&s) {
        Ok(d) => d,
        Err(_) => return (false, false, None),
    };
    match doc.get(key) {
        None => (false, false, None),
        Some(v) => (true, v.is_null(), v.as_bool()),
    }
}

/// Relies on serde_yaml::from_str, Value::get, Value::is_null,
/// Value::as_sequence and Value::as_str: presence, nullness and items of a
/// top-level sequence key.
#[verifier::external_body]
fn yaml_list_entry(text: &Vec<char>, key: &str) -> (r: (bool, bool, Option<Vec<Option<String>>>))
    ensures
        r.0 == yaml_has_key(text@, key@),
        r.1 == yaml_null_key(text@, key@),
        (match r.2 {
            Some(v) => Some(v.deep_view()),
            None => None,
        }) == yaml_list_items(text@, key@),
{
    let s: String = text.iter().collect();
    let doc: serde_yaml::Value = match serde_yaml::from_str(&s) {
        Ok(d) => d,
        Err(_) => return (false, false, None),
    };
    match doc.get(key) {
        None => (false, false, None),
        Some(v) => (true, v.is_null(), v.as_sequence().map(|sq| sq.iter().map(|x| x.as_str().map(|y| y.to_string())).collect())),
    }
}

/// Relies on serde_yaml::from_str, Value::get, Value::is_mapping,
/// Value::as_sequence and Value::as_str: the file entries of a top-level
/// sequence key, each as its mapping flag and its `path` and `content`
/// string fields.
#[verifier::external_body]
fn yaml_files_entry(text: &Vec<char>, key: &str) -> (r: (
    bool,
    Option<Vec<(bool, Option<Option<String>>, Option<Option<String>>)>>,
))
    ensures
        r.0 == yaml_has_key(text@, key@),
        (match r.1 {
            Some(v) => Some(v.deep_view()),
            None => None,
        }) == yaml_file_entries(text@, key@),
{
    let s: String = text.iter().collect();
    let doc: serde_yaml::Value = match serde_yaml::from_str(&s) {
        Ok(d) => d,
        Err(_) => return (false, None),
    };
    let entry = |e: &serde_yaml::Value| (e.is_mapping(), e.get("path").map(|p| p.as_str().map(|x| x.to_string())), e.get("content").map(|c| c.as_str().map(|x| x.to_string())));
    match doc.get(key) {
        None => (false, None),
        Some(v) => (true, v.as_sequence().map(|sq| sq.iter().map(entry).collect())),
    }
}

/// Relies on serde_yaml::from_str, Value::get, Value::is_null and
/// Value::is_mapping: presence, nullness and mapping flag of a top-level key.
#[verifier::external_body]
fn yaml_map_entry(text: &Vec<char>, key: &str) -> (r: (bool, bool, bool))
    ensures
        r.0 == yaml_has_key(text@, key@),
        r.1 == yaml_null_key(text@, key@),
        r.2 == yaml_map_value(text@, key@),
{
    let s: String = text.iter().collect();
    let doc: serde_yaml::Value = match serde_yaml::from_str(&s) {
        Ok(d) => d,
        Err(_) => return (false, false, false),
    };
    match doc.get(key) {
        None => (false, false, false),
        Some(v) => (true, v.is_null(), v.is_mapping()),
    }
}

/// Relies on serde_yaml::from_str, Value::get, Value::is_null and
/// Value::as_str: presence, nullness and string value of a nested key.
#[verifier::external_body]
fn yaml_sub_str_entry(text: &Vec<char>, key: &str, sub: &str) -> (r: (bool, bool, Option<String>))
    ensures
        r.0 == yaml_sub_has_key(text@, key@, sub@),
        r.1 == yaml_sub_null_key(text@, key@, sub@),
        opt_view(r.2) == yaml_sub_str_value(text@, key@, sub@),
{
    let s: String = text.iter().collect();
    let doc: serde_yaml::Value = match serde_yaml::from_str(&s) {
        Ok(d) => d,
        Err(_) => return (false, false, None),
    };
    match doc.get(key).and_then(|v| v.get(sub)) {
        None => (false, false, None),
        Some(v) => (true, v.is_null(), v.as_str().map(|x| x.to_string())),
    }
}

/// Relies on serde_yaml::from_str, Value::get, Value::is_null,
/// Value::as_sequence and Value::as_str: presence, nullness and items of a
/// nested sequence key.
#[verifier::external_body]
fn yaml_sub_list_entry(text: &Vec<char>, key: &str, sub: &str) -> (r: (
    bool,
    bool,
    Option<Vec<Option<String>>>,
))
    ensures
        r.0 == yaml_sub_has_key(text@, key@, sub@),
        r.1 == yaml_sub_null_key(text@, key@, sub@),
        (match r.2 {
            Some(v) => Some(v.deep_view()),
            None => None,
        }) == yaml_sub_list_items(text@, key@, sub@),
{
    let s: String = text.iter().collect();
    let doc: serde_yaml::Value = match serde_yaml::from_str(&s) {
        Ok(d) => d,
        Err(_) => return (false, false, None),
    };
    match doc.get(key).and_then(|v| v.get(sub)) {
        None => (false, false, None),
        Some(v) => (true, v.is_null(), v.as_sequence().map(|sq| sq.iter().map(|x| x.as_str().map(|y| y.to_string())).collect())),
    }
}

/// A defaulted string field is well-kinded: when present, its value is a
/// string (null included, a null is not a string).
pub open spec fn str_field_ok(t: Seq<char>, k: Seq<char>) -> bool {
    yaml_has_key(t, k) ==> yaml_str_value(t, k) is Some
}

/// An optional string field is well-kinded: when present and non-null, its
/// value is a string.
pub open spec fn opt_str_field_ok(t: Seq<char>, k: Seq<char>) -> bool {
    (yaml_has_key(t, k) && !yaml_null_key(t, k)) ==> yaml_str_value(t, k) is Some
}

/// The value an optional string field supplies: absent and null both give
/// nothing.
pub open spec fn opt_str_field_val(t: Seq<char>, k: Seq<char>) -> Option<Seq<char>> {
    if yaml_has_key(t, k) && !yaml_null_key(t, k) {
        yaml_str_value(t, k)
    } else {
        None
    }
}

/// A defaulted boolean field is well-kinded: when present, its value is a
/// boolean.
pub open spec fn bool_field_ok(t: Seq<char>, k: Seq<char>) -> bool {
    yaml_has_key(t, k) ==> yaml_bool_value(t, k) is Some
}

/// The value a defaulted boolean field yields: false when absent.
pub open spec fn bool_field_val(t: Seq<char>, k: Seq<char>) -> bool {
    if yaml_has_key(t, k) {
        yaml_bool_value(t, k)->0
    } else {
        false
    }
}

/// A defaulted list field is well-kinded: when present, its value is a
/// sequence whose every item is a string.
pub open spec fn list_field_ok(t: Seq<char>, k: Seq<char>) -> bool {
    yaml_has_key(t, k) ==> (yaml_list_items(t, k) matches Some(items) && (forall|i: int|
        0 <= i < items.len() ==> (#[trigger] items[i]) is Some))
}

/// The strings a defaulted list field yields: empty when absent.
pub open spec fn list_field_val(t: Seq<char>, k: Seq<char>) -> Seq<Seq<char>> {
    if yaml_has_key(t, k) {
        yaml_list_items(t, k)->0.map_values(|o: Option<Seq<char>>| o->0)
    } else {
        Seq::empty()
    }
}

/// The file entries are well-kinded: every entry is a mapping with string
/// fields `path` and `content`, both present.
pub open spec fn files_entries_ok(t: Seq<char>, k: Seq<char>) -> bool {
    yaml_file_entries(t, k) matches Some(es) && (forall|i: int|
        0 <= i < es.len() ==> {
            &&& (#[trigger] es[i]).0
            &&& es[i].1 is Some
            &&& es[i].1->0 is Some
            &&& es[i].2 is Some
            &&& es[i].2->0 is Some
        })
}

pub open spec fn files_field_ok(t: Seq<char>) -> bool {
    yaml_has_key(t, "files"@) ==> files_entries_ok(t, "files"@)
}

/// The (path, content) pairs the `files` field supplies: empty when absent.
pub open spec fn files_field_val(t: Seq<char>) -> Seq<(Seq<char>, Seq<char>)> {
    if yaml_has_key(t, "files"@) {
        yaml_file_entries(t, "files"@)->0.map_values(
            |e: (bool, Option<Option<Seq<char>>>, Option<Option<Seq<char>>>)|
                (e.1->0->0, e.2->0->0),
        )
    } else {
        Seq::empty()
    }
}

/// A nested optional string field is well-kinded.
pub open spec fn sub_opt_str_ok(t: Seq<char>, k: Seq<char>, sk: Seq<char>) -> bool {
    (yaml_sub_has_key(t, k, sk) && !yaml_sub_null_key(t, k, sk)) ==> yaml_sub_str_value(t, k, sk)
        is Some
}

pub open spec fn sub_opt_str_val(t: Seq<char>, k: Seq<char>, sk: Seq<char>) -> Option<Seq<char>> {
    if yaml_sub_has_key(t, k, sk) && !yaml_sub_null_key(t, k, sk) {
        yaml_sub_str_value(t, k, sk)
    } else {
        None
    }
}

/// A nested defaulted list field is well-kinded.
pub open spec fn sub_list_ok(t: Seq<char>, k: Seq<char>, sk: Seq<char>) -> bool {
    yaml_sub_has_key(t, k, sk) ==> (yaml_sub_list_items(t, k, sk) matches Some(items) && (forall|
        i: int,
    |
        0 <= i < items.len() ==> (#[trigger] items[i]) is Some))
}

pub open spec fn sub_list_val(t: Seq<char>, k: Seq<char>, sk: Seq<char>) -> Seq<Seq<char>> {
    if yaml_sub_has_key(t, k, sk) {
        yaml_sub_list_items(t, k, sk)->0.map_values(|o: Option<Seq<char>>| o->0)
    } else {
        Seq::empty()
    }
}

/// The `docker_build` field supplies a value: present and non-null.
pub open spec fn docker_field_present(t: Seq<char>) -> bool {
    yaml_has_key(t, "docker_build"@) && !yaml_null_key(t, "docker_build"@)
}

/// The `docker_build` field is well-kinded: when it supplies a value, that
/// value is a mapping with well-kinded subfields.
pub open spec fn docker_field_ok(t: Seq<char>) -> bool {
    docker_field_present(t) ==> {
        &&& yaml_map_value(t, "docker_build"@)
        &&& sub_opt_str_ok(t, "docker_build"@, "dockerfile"@)
        &&& sub_opt_str_ok(t, "docker_build"@, "src_mount_dir"@)
        &&& sub_list_ok(t, "docker_build"@, "extra_args"@)
    }
}

/// Every field the document supplies has the right kind of value.
pub open spec fn field_kinds_ok(t: Seq<char>) -> bool {
    &&& str_field_ok(t, "script_src"@)
    &&& opt_str_field_ok(t, "build_cmd"@)
    &&& opt_str_field_ok(t, "build_once_cmd"@)
    &&& str_field_ok(t, "target_bin"@)
    &&& opt_str_field_ok(t, "target_interpreter"@)
    &&& str_field_ok(t, "replace_shebang_with"@)
    &&& files_field_ok(t)
    &&& list_field_ok(t, "deps"@)
    &&& docker_field_ok(t)
    &&& list_field_ok(t, "extra_src_paths"@)
    &&& bool_field_ok(t, "build_in_script_dir"@)
}

/// The text is an acceptable configuration document: it parses into a
/// mapping, every supplied field has the right kind, and the required
/// `script_src` is supplied.
pub open spec fn config_ok(t: Seq<char>) -> bool {
    &&& yaml_doc_ok(t)
    &&& field_kinds_ok(t)
    &&& yaml_has_key(t, "script_src"@)
}

/// The non-`files` fields a specification parsed from `t` must hold: the
/// document's own values where supplied, the named defaults elsewhere.
pub open spec fn spec_matches_doc(spec: BuildSpec, t: Seq<char>) -> bool {
    &&& spec.script_src@ == yaml_str_value(t, "script_src"@)->0
    &&& opt_view(spec.build_cmd) == opt_str_field_val(t, "build_cmd"@)
    &&& opt_view(spec.build_once_cmd) == opt_str_field_val(t, "build_once_cmd"@)
    &&& spec.target_bin@ == (if yaml_has_key(t, "target_bin"@) {
        yaml_str_value(t, "target_bin"@)->0
    } else {
        "./script"@
    })
    &&& opt_view(spec.target_interpreter) == opt_str_field_val(t, "target_interpreter"@)
    &&& spec.replace_shebang_with@ == (if yaml_has_key(t, "replace_shebang_with"@) {
        yaml_str_value(t, "replace_shebang_with"@)->0
    } else {
        Seq::<char>::empty()
    })
    &&& spec.deps.deep_view() == list_field_val(t, "deps"@)
    &&& spec.extra_src_paths.deep_view() == list_field_val(t, "extra_src_paths"@)
    &&& spec.build_in_script_dir == bool_field_val(t, "build_in_script_dir"@)
    &&& docker_matches(spec.docker_build, t)
}

/// The `docker_build` field a specification parsed from `t` must hold.
pub open spec fn docker_matches(d: Option<DockerBuild>, t: Seq<char>) -> bool {
    if docker_field_present(t) {
        &&& d matches Some(db)
        &&& opt_view(db.dockerfile) == sub_opt_str_val(t, "docker_build"@, "dockerfile"@)
        &&& opt_view(db.src_mount_dir) == sub_opt_str_val(t, "docker_build"@, "src_mount_dir"@)
        &&& db.extra_args.deep_view() == sub_list_val(t, "docker_build"@, "extra_args"@)
    } else {
        d is None
    }
}

fn field_type_error(key: &str) -> (r: LaunchError)
    ensures
        r matches LaunchError::FieldType { field } && field@ == key@,
{
    LaunchError::FieldType { field: String::from_str(key) }
}

/// A defaulted string field: an absent key is `None`; a present value must
/// be a string.
fn get_string(text: &Vec<char>, key: &str) -> (r: Result<Option<String>, LaunchError>)
    ensures
        !yaml_has_key(text@, key@) ==> r == Ok::<Option<String>, LaunchError>(None),
        (yaml_has_key(text@, key@) && yaml_str_value(text@, key@) is Some) ==> (r matches Ok(
            Some(s),
        ) && s@ == yaml_str_value(text@, key@)->0),
        (yaml_has_key(text@, key@) && yaml_str_value(text@, key@) is None) ==> (r matches Err(
            LaunchError::FieldType { field },
        ) && field@ == key@),
{
    let e = yaml_str_entry(text, key);
    if !e.0 {
        Ok(None)
    } else {
        match e.2 {
            Some(s) => Ok(Some(s)),
            None => Err(field_type_error(key)),
        }
    }
}

/// An optional string field: an absent key or a null value is `None`; a
/// present non-null value must be a string.
fn get_opt_string(text: &Vec<char>, key: &str) -> (r: Result<Option<String>, LaunchError>)
    ensures
        opt_str_field_ok(text@, key@) ==> (r matches Ok(o) && opt_view(o) == opt_str_field_val(
            text@,
            key@,
        )),
        !opt_str_field_ok(text@, key@) ==> (r matches Err(LaunchError::FieldType { field })
            && field@ == key@),
{
    let e = yaml_str_entry(text, key);
    if !e.0 || e.1 {
        Ok(None)
    } else {
        match e.2 {
            Some(s) => Ok(Some(s)),
            None => Err(field_type_error(key)),
        }
    }
}

/// A defaulted boolean field: an absent key is `None`; a present value must
/// be a boolean.
fn get_bool(text: &Vec<char>, key: &str) -> (r: Result<Option<bool>, LaunchError>)
    ensures
        !yaml_has_key(text@, key@) ==> r == Ok::<Option<bool>, LaunchError>(None),
        (yaml_has_key(text@, key@) && yaml_bool_value(text@, key@) is Some) ==> r == Ok::<
            Option<bool>,
            LaunchError,
        >(yaml_bool_value(text@, key@)),
        (yaml_has_key(text@, key@) && yaml_bool_value(text@, key@) is None) ==> (r matches Err(
            LaunchError::FieldType { field },
        ) && field@ == key@),
{
    let e = yaml_bool_entry(text, key);
    if !e.0 {
        Ok(None)
    } else {
        match e.2 {
            Some(b) => Ok(Some(b)),
            None => Err(field_type_error(key)),
        }
    }
}

/// Turns a read sequence into its strings; any non-string item is a
/// field-kind error naming `key`.
fn collect_strings(items: Vec<Option<String>>, key: &str) -> (r: Result<Vec<String>, LaunchError>)
    ensures
        (forall|i: int| 0 <= i < items.deep_view().len() ==> (#[trigger] items.deep_view()[i])
            is Some) ==> (r matches Ok(v) && v.deep_view() == items.deep_view().map_values(
            |o: Option<Seq<char>>| o->0,
        )),
        (exists|i: int| 0 <= i < items.deep_view().len() && (#[trigger] items.deep_view()[i])
            is None) ==> (r matches Err(LaunchError::FieldType { field }) && field@ == key@),
{
    let ghost model = items.deep_view();
    let mut out: Vec<String> = Vec::new();
    let n = items.len();
    let mut i: usize = 0;
    while i < n
        invariant
            i <= n,
            n == items@.len(),
            model == items.deep_view(),
            forall|j: int| 0 <= j < i ==> (#[trigger] model[j]) is Some,
            out.deep_view() == model.take(i as int).map_values(|o: Option<Seq<char>>| o->0),
        decreases n - i,
    {
        let ghost pre_dv = out.deep_view();
        proof {
            assert(items@[i as int].deep_view() == model[i as int]);
        }
        match &items[i] {
            None => {
                return Err(field_type_error(key));
            },
            Some(s) => {
                out.push(s.clone());
            },
        }
        i = i + 1;
        proof {
            assert(out.deep_view() =~~= pre_dv.push(model[i - 1]->0));
            assert(out.deep_view() =~~= model.take(i as int).map_values(
                |o: Option<Seq<char>>| o->0,
            ));
        }
    }
    proof {
        assert(model.take(n as int) =~= model);
    }
    Ok(out)
}

/// A defaulted list-of-strings field: an absent key is `None`; a present
/// value must be a sequence whose every item is a string.
fn get_string_list(text: &Vec<char>, key: &str) -> (r: Result<Option<Vec<String>>, LaunchError>)
    ensures
        !yaml_has_key(text@, key@) ==> r == Ok::<Option<Vec<String>>, LaunchError>(None),
        (yaml_has_key(text@, key@) && list_field_ok(text@, key@)) ==> (r matches Ok(Some(v))
            && v.deep_view() == list_field_val(text@, key@)),
        (yaml_has_key(text@, key@) && !list_field_ok(text@, key@)) ==> (r matches Err(
            LaunchError::FieldType { field },
        ) && field@ == key@),
{
    let e = yaml_list_entry(text, key);
    if !e.0 {
        return Ok(None);
    }
    match e.2 {
        None => Err(field_type_error(key)),
        Some(items) => {
            let out = collect_strings(items, key)?;
            Ok(Some(out))
        },
    }
}

/// The `files` field: an absent key is `None`; a present value must be a
/// sequence of mappings, each with string fields `path` and `content`, both
/// required.
fn get_files(text: &Vec<char>, key: &str) -> (r: Result<Option<Vec<File>>, LaunchError>)
    ensures
        !yaml_has_key(text@, key@) ==> r == Ok::<Option<Vec<File>>, LaunchError>(None),
        (yaml_has_key(text@, key@) && files_entries_ok(text@, key@)) ==> (r matches Ok(Some(v))
            && v@.map_values(|f: File| (f.path@, f.content@)) == yaml_file_entries(text@, key@)
            ->0.map_values(
            |e: (bool, Option<Option<Seq<char>>>, Option<Option<Seq<char>>>)|
                (e.1->0->0, e.2->0->0),
        )),
        (yaml_has_key(text@, key@) && !files_entries_ok(text@, key@)) ==> r is Err,
        r is Err ==> (r->Err_0 matches LaunchError::FieldType { .. } || r->Err_0
            matches LaunchError::MissingField { .. }),
{
    let e = yaml_files_entry(text, key);
    if !e.0 {
        return Ok(None);
    }
    let items = match e.1 {
        None => {
            return Err(field_type_error(key));
        },
        Some(items) => items,
    };
    let ghost model = yaml_file_entries(text@, key@)->0;
    proof {
        assert(model == items.deep_view());
    }
    let mut out: Vec<File> = Vec::new();
    let n = items.len();
    let mut i: usize = 0;
    while i < n
        invariant
            i <= n,
            n == items@.len(),
            model == items.deep_view(),
            forall|j: int|
                0 <= j < i ==> {
                    &&& (#[trigger] model[j]).0
                    &&& model[j].1 is Some
                    &&& model[j].1->0 is Some
                    &&& model[j].2 is Some
                    &&& model[j].2->0 is Some
                },
            out@.len() == i,
            forall|j: int|
                0 <= j < i ==> (#[trigger] out@[j]).path@ == model[j].1->0->0 && out@[j].content@
                    == model[j].2->0->0,
        decreases n - i,
    {
        proof {
            assert(items@[i as int].deep_view() == model[i as int]);
        }
        let entry = &items[i];
        if !entry.0 {
            return Err(field_type_error(key));
        }
        let path = match &entry.1 {
            None => {
                return Err(LaunchError::MissingField { field: String::from_str("path") });
            },
            Some(None) => {
                return Err(field_type_error("path"));
            },
            Some(Some(s)) => s.clone(),
        };
        let content = match &entry.2 {
            None => {
                return Err(LaunchError::MissingField { field: String::from_str("content") });
            },
            Some(None) => {
                return Err(field_type_error("content"));
            },
            Some(Some(s)) => s.clone(),
        };
        out.push(File { path, content });
        i = i + 1;
    }
    proof {
        assert(out@.map_values(|f: File| (f.path@, f.content@)) =~= model.map_values(
            |e: (bool, Option<Option<Seq<char>>>, Option<Option<Seq<char>>>)|
                (e.1->0->0, e.2->0->0),
        ));
    }
    Ok(Some(out))
}

/// The `docker_build` field: an absent key or a null value is `None`; a
/// present non-null value must be a mapping with optional string fields
/// `dockerfile` and `src_mount_dir` and a defaulted list field `extra_args`.
fn get_docker(text: &Vec<char>) -> (r: Result<Option<DockerBuild>, LaunchError>)
    ensures
        !docker_field_present(text@) ==> r == Ok::<Option<DockerBuild>, LaunchError>(None),
        (docker_field_present(text@) && docker_field_ok(text@)) ==> (r matches Ok(Some(db))
            && docker_matches(Some(db), text@)),
        (docker_field_present(text@) && !docker_field_ok(text@)) ==> (r matches Err(
            LaunchError::FieldType { .. },
        )),
{
    let e = yaml_map_entry(text, "docker_build");
    if !e.0 || e.1 {
        return Ok(None);
    }
    if !e.2 {
        return Err(field_type_error("docker_build"));
    }
    let df = yaml_sub_str_entry(text, "docker_build", "dockerfile");
    let dockerfile = if !df.0 || df.1 {
        None
    } else {
        match df.2 {
            Some(s) => Some(s),
            None => {
                return Err(field_type_error("dockerfile"));
            },
        }
    };
    let sm = yaml_sub_str_entry(text, "docker_build", "src_mount_dir");
    let src_mount_dir = if !sm.0 || sm.1 {
        None
    } else {
        match sm.2 {
            Some(s) => Some(s),
            None => {
                return Err(field_type_error("src_mount_dir"));
            },
        }
    };
    let ea = yaml_sub_list_entry(text, "docker_build", "extra_args");
    let extra_args = if !ea.0 {
        Vec::new()
    } else {
        match ea.2 {
            None => {
                return Err(field_type_error("extra_args"));
            },
            Some(items) => collect_strings(items, "extra_args")?,
        }
    };
    proof {
        if !ea.0 {
            assert(extra_args.deep_view() =~= sub_list_val(
                text@,
                "docker_build"@,
                "extra_args"@,
            ));
        }
    }
    Ok(Some(DockerBuild { dockerfile, src_mount_dir, extra_args }))
}

/// Parses the captured configuration text into a build specification with
/// every default filled in. The parse succeeds exactly when the text is
/// non-empty and an acceptable document; an empty capture or an unparseable
/// document is a syntax error carrying the offending text, so a script with
/// no begin marker never proceeds with a default specification.
pub(crate) fn parse_config_text(cfg_text: &Vec<char>) -> (r: Result<BuildSpec, LaunchError>)
    ensures
        r is Ok <==> (cfg_text@.len() > 0 && config_ok(cfg_text@)),
        (cfg_text@.len() == 0 || !yaml_doc_ok(cfg_text@)) ==> (r matches Err(
            LaunchError::ConfigSyntax { text },
        ) && text@ == cfg_text@),
        (cfg_text@.len() > 0 && yaml_doc_ok(cfg_text@) && field_kinds_ok(cfg_text@)
            && !yaml_has_key(cfg_text@, "script_src"@)) ==> (r matches Err(
            LaunchError::MissingField { field },
        ) && field@ == "script_src"@),
        r matches Ok(spec) ==> spec_matches_doc(spec, cfg_text@) && spec.files@.map_values(
            |f: File| (f.path@, f.content@),
        ) == files_field_val(cfg_text@),
{
    if cfg_text.len() == 0 {
        return Err(LaunchError::ConfigSyntax { text: chars_to_string(cfg_text) });
    }
    if !yaml_doc_check(cfg_text) {
        return Err(LaunchError::ConfigSyntax { text: chars_to_string(cfg_text) });
    }
    let raw = RawSpec {
        script_src: get_string(cfg_text, "script_src")?,
        build_cmd: get_opt_string(cfg_text, "build_cmd")?,
        build_once_cmd: get_opt_string(cfg_text, "build_once_cmd")?,
        target_bin: get_string(cfg_text, "target_bin")?,
        target_interpreter: get_opt_string(cfg_text, "target_interpreter")?,
        replace_shebang_with: get_string(cfg_text, "replace_shebang_with")?,
        files: get_files(cfg_text, "files")?,
        deps: get_string_list(cfg_text, "deps")?,
        docker_build: get_docker(cfg_text)?,
        extra_src_paths: get_string_list(cfg_text, "extra_src_paths")?,
        build_in_script_dir: get_bool(cfg_text, "build_in_script_dir")?,
    };
    let r = BuildSpec::from_raw(raw);
    proof {
        if r is Ok {
            assert(r->Ok_0.files@.map_values(|f: File| (f.path@, f.content@)) =~= files_field_val(
                cfg_text@,
            ));
            assert(r->Ok_0.deps.deep_view() =~= list_field_val(cfg_text@, "deps"@));
            assert(r->Ok_0.extra_src_paths.deep_view() =~= list_field_val(
                cfg_text@,
                "extra_src_paths"@,
            ));
        }
    }
    r
}

} // verus!
