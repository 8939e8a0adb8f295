//! Decoding of the remote index's JSON records.
//!
//! serde_json parses the response body and reports, per record field, what
//! shape the field holds; the functions here apply the record rules — which
//! fields are required, and which absent or `null` fields read as defaults —
//! and assemble the typed records. What serde_json returns for a given input
//! is named by the uninterpreted functions `parsed_json`, `array_value`,
//! `string_value` and `field_shape` (each a function of its arguments alone),
//! and every decode contract is exact over those names.

use crate::types::{lemma_deep_view_push, CaskInfo, CaskInfoView, FormulaInfo, FormulaInfoView,
    Versions, VersionsView};
use vstd::prelude::*;

verus! {

/// serde_json's dynamic JSON value, declared so it can cross signatures.
#[verifier::external_type_specification]
#[verifier::external_body]
pub struct ExValue(serde_json::Value);

/// What one field of a JSON record holds, as far as the records here consume
/// it: absent, null, a string, a boolean, an array, a nested object, or some
/// other shape.
pub enum JsonField {
    Absent,
    Null,
    Text(String),
    Flag(bool),
    Items(Vec<serde_json::Value>),
    Nested(serde_json::Value),
    Other,
}

/// Model of [`JsonField`].
#[verifier::ext_equal]
pub enum JsonFieldView {
    Absent,
    Null,
    Text(Seq<char>),
    Flag(bool),
    Items(Seq<serde_json::Value>),
    Nested(serde_json::Value),
    Other,
}

impl View for JsonField {
    type V = JsonFieldView;

    open spec fn view(&self) -> JsonFieldView {
        match self {
            JsonField::Absent => JsonFieldView::Absent,
            JsonField::Null => JsonFieldView::Null,
            JsonField::Text(t) => JsonFieldView::Text(t@),
            JsonField::Flag(b) => JsonFieldView::Flag(*b),
            JsonField::Items(items) => JsonFieldView::Items(items@),
            JsonField::Nested(v) => JsonFieldView::Nested(*v),
            JsonField::Other => JsonFieldView::Other,
        }
    }
}

/// The value a JSON document parses to, or nothing when it is malformed;
/// a function of the text alone.
pub uninterp spec fn parsed_json(s: Seq<char>) -> Option<serde_json::Value>;

/// The elements of an array value, or nothing for any other shape.
pub uninterp spec fn array_value(v: serde_json::Value) -> Option<Seq<serde_json::Value>>;

/// The text of a string value, or nothing for any other shape.
pub uninterp spec fn string_value(v: serde_json::Value) -> Option<Seq<char>>;

/// The shape one field of a record object holds.
pub uninterp spec fn field_shape(v: serde_json::Value, key: Seq<char>) -> JsonFieldView;

/// The parsed document of a parse result, with the error dropped.
pub open spec fn ok_value(r: Result<serde_json::Value, String>) -> Option<serde_json::Value> {
    match r {
        Ok(v) => Some(v),
        Err(_) => None,
    }
}

/// The elements held by an optional array, as a sequence.
pub open spec fn items_of(r: Option<Vec<serde_json::Value>>) -> Option<Seq<serde_json::Value>> {
    match r {
        Some(items) => Some(items@),
        None => None,
    }
}

/// Relies on `serde_json::from_str::<Value>`: parses one JSON document — a
/// pure function of the text — with the parse failure as a human-readable
/// reason.
#[verifier::external_body]
fn parse_json(s: &str) -> (r: Result<serde_json::Value, String>)
    ensures
        ok_value(r) == parsed_json(s@),
{
    serde_json::from_str(s).map_err(|e| e.to_string())
}

/// Relies on the public variants of `serde_json::Value`: hands back the
/// elements of an array value, and refuses any other shape.
#[verifier::external_body]
fn value_as_array(v: serde_json::Value) -> (r: Option<Vec<serde_json::Value>>)
    ensures
        items_of(r) == array_value(v),
{
    match v {
        serde_json::Value::Array(items) => Some(items),
        _ => None,
    }
}

/// Relies on the public variants of `serde_json::Value`: hands back the text
/// of a string value, and refuses any other shape.
#[verifier::external_body]
fn value_as_string(v: &serde_json::Value) -> (r: Option<String>)
    ensures
        r.deep_view() == string_value(*v),
{
    match v {
        serde_json::Value::String(s) => Some(s.clone()),
        _ => None,
    }
}

/// Relies on `serde_json::Map::get` and the public variants of
/// `serde_json::Value`: classifies one field of a record object, a pure
/// function of the object and the key.
#[verifier::external_body]
fn field_of(v: &serde_json::Value, key: &str) -> (r: JsonField)
    ensures
        r@ == field_shape(*v, key@),
{
    let serde_json::Value::Object(m) = v else {
        return JsonField::Other;
    };
    match m.get(key) {
        None => JsonField::Absent,
        Some(serde_json::Value::Null) => JsonField::Null,
        Some(serde_json::Value::String(s)) => JsonField::Text(s.clone()),
        Some(serde_json::Value::Bool(b)) => JsonField::Flag(*b),
        Some(serde_json::Value::Array(a)) => JsonField::Items(a.clone()),
        Some(x@serde_json::Value::Object(_)) => JsonField::Nested(x.clone()),
        Some(_) => JsonField::Other,
    }
}

/// The rule for a field that must hold a string: any other shape refuses the
/// record.
pub open spec fn required_text_view(f: JsonFieldView) -> Option<Seq<char>> {
    match f {
        JsonFieldView::Text(t) => Some(t),
        _ => None,
    }
}

/// The rule for a defaulted string field: an absent field reads as the empty
/// string.
pub open spec fn text_or_empty_view(f: JsonFieldView) -> Option<Seq<char>> {
    match f {
        JsonFieldView::Absent => Some(Seq::empty()),
        JsonFieldView::Text(t) => Some(t),
        _ => None,
    }
}

/// The rule for a defaulted string field that also reads a JSON `null` as
/// the empty string rather than as an error.
pub open spec fn text_null_or_empty_view(f: JsonFieldView) -> Option<Seq<char>> {
    match f {
        JsonFieldView::Absent => Some(Seq::empty()),
        JsonFieldView::Null => Some(Seq::empty()),
        JsonFieldView::Text(t) => Some(t),
        _ => None,
    }
}

/// The rule for an optional string field: absent and `null` both read as no
/// value.
pub open spec fn optional_text_view(f: JsonFieldView) -> Option<Option<Seq<char>>> {
    match f {
        JsonFieldView::Absent => Some(None),
        JsonFieldView::Null => Some(None),
        JsonFieldView::Text(t) => Some(Some(t)),
        _ => None,
    }
}

/// The rule for an optional boolean field: absent and `null` both read as no
/// value.
pub open spec fn optional_flag_view(f: JsonFieldView) -> Option<Option<bool>> {
    match f {
        JsonFieldView::Absent => Some(None),
        JsonFieldView::Null => Some(None),
        JsonFieldView::Flag(b) => Some(Some(b)),
        _ => None,
    }
}

/// The strings of a list of values, in order; a non-string element refuses
/// the whole list.
pub open spec fn texts_view(items: Seq<serde_json::Value>) -> Option<Seq<Seq<char>>>
    decreases items.len(),
{
    if items.len() == 0 {
        Some(Seq::empty())
    } else {
        match (texts_view(items.drop_last()), string_value(items.last())) {
            (Some(rest), Some(t)) => Some(rest.push(t)),
            _ => None,
        }
    }
}

/// The rule for a defaulted string-list field: an absent field reads as the
/// empty list; `null` and non-string elements refuse the record.
pub open spec fn texts_field_view(f: JsonFieldView) -> Option<Seq<Seq<char>>> {
    match f {
        JsonFieldView::Absent => Some(Seq::empty()),
        JsonFieldView::Items(items) => texts_view(items),
        _ => None,
    }
}

/// The rule for the version block: a nested object whose `stable` and `head`
/// fields are optional strings.
pub open spec fn versions_view(f: JsonFieldView) -> Option<VersionsView> {
    match f {
        JsonFieldView::Nested(obj) => match (
            optional_text_view(field_shape(obj, "stable"@)),
            optional_text_view(field_shape(obj, "head"@)),
        ) {
            (Some(stable), Some(head)) => Some(VersionsView { stable, head }),
            _ => None,
        },
        _ => None,
    }
}

/// The formula-like record one JSON object reads as: `name` and `full_name`
/// and the version block are required, the other fields default.
pub open spec fn formula_view_of(v: serde_json::Value) -> Option<FormulaInfoView> {
    match (
        required_text_view(field_shape(v, "name"@)),
        required_text_view(field_shape(v, "full_name"@)),
        text_or_empty_view(field_shape(v, "desc"@)),
        text_or_empty_view(field_shape(v, "homepage"@)),
        versions_view(field_shape(v, "versions"@)),
        optional_text_view(field_shape(v, "license"@)),
        texts_field_view(field_shape(v, "dependencies"@)),
        text_or_empty_view(field_shape(v, "tap"@)),
    ) {
        (
            Some(name),
            Some(full_name),
            Some(desc),
            Some(homepage),
            Some(versions),
            Some(license),
            Some(dependencies),
            Some(tap),
        ) => Some(
            FormulaInfoView {
                name,
                full_name,
                desc,
                homepage,
                versions,
                license,
                dependencies,
                tap,
            },
        ),
        _ => None,
    }
}

/// The cask-like record one JSON object reads as: only `token` is required,
/// and its `desc` reads both an absent field and a JSON `null` as the empty
/// string.
pub open spec fn cask_view_of(v: serde_json::Value) -> Option<CaskInfoView> {
    match (
        required_text_view(field_shape(v, "token"@)),
        texts_field_view(field_shape(v, "name"@)),
        text_null_or_empty_view(field_shape(v, "desc"@)),
        text_or_empty_view(field_shape(v, "homepage"@)),
        text_or_empty_view(field_shape(v, "version"@)),
        optional_flag_view(field_shape(v, "auto_updates"@)),
    ) {
        (Some(token), Some(name), Some(desc), Some(homepage), Some(version), Some(
            auto_updates,
        )) => Some(CaskInfoView { token, name, desc, homepage, version, auto_updates }),
        _ => None,
    }
}

/// The formula-like records of a list of JSON objects, in order; one
/// malformed record refuses the whole list.
pub open spec fn formulae_view(items: Seq<serde_json::Value>) -> Option<Seq<FormulaInfoView>>
    decreases items.len(),
{
    if items.len() == 0 {
        Some(Seq::empty())
    } else {
        match (formulae_view(items.drop_last()), formula_view_of(items.last())) {
            (Some(rest), Some(f)) => Some(rest.push(f)),
            _ => None,
        }
    }
}

/// The cask-like records of a list of JSON objects, in order; one malformed
/// record refuses the whole list.
pub open spec fn casks_view(items: Seq<serde_json::Value>) -> Option<Seq<CaskInfoView>>
    decreases items.len(),
{
    if items.len() == 0 {
        Some(Seq::empty())
    } else {
        match (casks_view(items.drop_last()), cask_view_of(items.last())) {
            (Some(rest), Some(c)) => Some(rest.push(c)),
            _ => None,
        }
    }
}

/// The formula records a whole response body decodes to: the body must parse
/// as a JSON array of well-formed records; anything else is refused, with no
/// partial result.
pub open spec fn decoded_formulae(body: Seq<char>) -> Option<Seq<FormulaInfoView>> {
    match parsed_json(body) {
        Some(v) => match array_value(v) {
            Some(items) => formulae_view(items),
            None => None,
        },
        None => None,
    }
}

/// The cask records a whole response body decodes to.
pub open spec fn decoded_casks(body: Seq<char>) -> Option<Seq<CaskInfoView>> {
    match parsed_json(body) {
        Some(v) => match array_value(v) {
            Some(items) => casks_view(items),
            None => None,
        },
        None => None,
    }
}

/// A field that must hold a string: any other shape refuses the record.
pub fn required_text(f: JsonField) -> (r: Option<String>)
    ensures
        r.deep_view() == required_text_view(f@),
{
    match f {
        JsonField::Text(s) => Some(s),
        _ => None,
    }
}

/// A defaulted string field: an absent field reads as the empty string.
pub fn text_or_empty(f: JsonField) -> (r: Option<String>)
    ensures
        r.deep_view() == text_or_empty_view(f@),
{
    match f {
        JsonField::Absent => Some(String::new()),
        JsonField::Text(s) => Some(s),
        _ => None,
    }
}

/// A defaulted string field that also reads a JSON `null` as the empty
/// string rather than as an error.
pub fn text_null_or_empty(f: JsonField) -> (r: Option<String>)
    ensures
        r.deep_view() == text_null_or_empty_view(f@),
{
    match f {
        JsonField::Absent => Some(String::new()),
        JsonField::Null => Some(String::new()),
        JsonField::Text(s) => Some(s),
        _ => None,
    }
}

/// An optional string field: absent and `null` both read as `None`.
pub fn optional_text(f: JsonField) -> (r: Option<Option<String>>)
    ensures
        r.deep_view() == optional_text_view(f@),
{
    match f {
        JsonField::Absent => Some(None),
        JsonField::Null => Some(None),
        JsonField::Text(s) => Some(Some(s)),
        _ => None,
    }
}

/// An optional boolean field: absent and `null` both read as `None`.
pub fn optional_flag(f: JsonField) -> (r: Option<Option<bool>>)
    ensures
        r.deep_view() == optional_flag_view(f@),
{
    match f {
        JsonField::Absent => Some(None),
        JsonField::Null => Some(None),
        JsonField::Flag(b) => Some(Some(b)),
        _ => None,
    }
}

/// Law: a cask-like record's `desc` field reads both an absent field and a
/// JSON `null` as the empty string — never as an error: whenever the record
/// decodes at all, such a `desc` is empty, and a `desc` of that shape is
/// never what refuses the record.
pub proof fn lemma_cask_desc_defaults(v: serde_json::Value)
    requires
        field_shape(v, "desc"@) is Absent || field_shape(v, "desc"@) is Null,
    ensures
        cask_view_of(v) matches Some(c) ==> c.desc == Seq::<char>::empty(),
        text_null_or_empty_view(field_shape(v, "desc"@)) is Some,
{
}

proof fn lemma_texts_view_failure(items: Seq<serde_json::Value>, i: int)
    requires
        0 <= i < items.len(),
        string_value(items[i]) is None,
    ensures
        texts_view(items) is None,
    decreases items.len(),
{
    if i < items.len() - 1 {
        lemma_texts_view_failure(items.drop_last(), i);
    }
}

proof fn lemma_formulae_view_failure(items: Seq<serde_json::Value>, i: int)
    requires
        0 <= i < items.len(),
        formula_view_of(items[i]) is None,
    ensures
        formulae_view(items) is None,
    decreases items.len(),
{
    if i < items.len() - 1 {
        lemma_formulae_view_failure(items.drop_last(), i);
    }
}

proof fn lemma_casks_view_failure(items: Seq<serde_json::Value>, i: int)
    requires
        0 <= i < items.len(),
        cask_view_of(items[i]) is None,
    ensures
        casks_view(items) is None,
    decreases items.len(),
{
    if i < items.len() - 1 {
        lemma_casks_view_failure(items.drop_last(), i);
    }
}

/// The strings of an array value, in order; an element of any other shape
/// refuses it.
fn texts_of(items: &Vec<serde_json::Value>) -> (r: Option<Vec<String>>)
    ensures
        r.deep_view() == texts_view(items@),
{
    let mut out: Vec<String> = Vec::new();
    let mut i: usize = 0;
    while i < items.len()
        invariant
            i <= items@.len(),
            texts_view(items@.take(i as int)) == Some(out.deep_view()),
        decreases items@.len() - i,
    {
        let ghost prefix = out.deep_view();
        match value_as_string(&items[i]) {
            Some(s) => {
                let ghost prev = out;
                out.push(s);
                proof {
                    lemma_deep_view_push(prev, out, out@[prefix.len() as int]);
                    let t1 = items@.take(i + 1);
                    assert(t1.drop_last() =~= items@.take(i as int));
                    assert(t1.last() == items@[i as int]);
                    assert(out.deep_view() =~= prefix.push(string_value(items@[i as int]).unwrap()));
                    assert(texts_view(t1) == Some(out.deep_view()));
                }
            },
            None => {
                proof {
                    lemma_texts_view_failure(items@, i as int);
                }
                return None;
            },
        }
        i = i + 1;
    }
    proof {
        assert(items@.take(items@.len() as int) =~= items@);
    }
    Some(out)
}

/// A defaulted string-list field: an absent field reads as the empty list.
pub fn texts_or_empty(f: JsonField) -> (r: Option<Vec<String>>)
    ensures
        r.deep_view() == texts_field_view(f@),
{
    match f {
        JsonField::Absent => {
            let empty: Vec<String> = Vec::new();
            proof {
                assert(empty.deep_view() =~= Seq::<Seq<char>>::empty());
            }
            Some(empty)
        },
        JsonField::Items(items) => texts_of(&items),
        _ => None,
    }
}

/// The version block of a formula-like record: a nested object whose
/// `stable` and `head` fields are optional strings.
fn versions_from(f: JsonField) -> (r: Option<Versions>)
    ensures
        r.deep_view() == versions_view(f@),
{
    match f {
        JsonField::Nested(obj) => {
            let stable = match optional_text(field_of(&obj, "stable")) {
                Some(o) => o,
                None => {
                    return None;
                },
            };
            let head = match optional_text(field_of(&obj, "head")) {
                Some(o) => o,
                None => {
                    return None;
                },
            };
            Some(Versions { stable, head })
        },
        _ => None,
    }
}

/// Reads one formula-like record from a JSON object; the result is exactly
/// the record the field rules give for that object, or nothing when a
/// required or malformed field refuses it.
pub fn formula_from_value(v: &serde_json::Value) -> (r: Option<FormulaInfo>)
    ensures
        r.deep_view() == formula_view_of(*v),
{
    let name = match required_text(field_of(v, "name")) {
        Some(s) => s,
        None => {
            return None;
        },
    };
    let full_name = match required_text(field_of(v, "full_name")) {
        Some(s) => s,
        None => {
            return None;
        },
    };
    let desc = match text_or_empty(field_of(v, "desc")) {
        Some(s) => s,
        None => {
            return None;
        },
    };
    let homepage = match text_or_empty(field_of(v, "homepage")) {
        Some(s) => s,
        None => {
            return None;
        },
    };
    let versions = match versions_from(field_of(v, "versions")) {
        Some(vv) => vv,
        None => {
            return None;
        },
    };
    let license = match optional_text(field_of(v, "license")) {
        Some(o) => o,
        None => {
            return None;
        },
    };
    let dependencies = match texts_or_empty(field_of(v, "dependencies")) {
        Some(d) => d,
        None => {
            return None;
        },
    };
    let tap = match text_or_empty(field_of(v, "tap")) {
        Some(s) => s,
        None => {
            return None;
        },
    };
    let record = FormulaInfo { name, full_name, desc, homepage, versions, license, dependencies, tap };
    proof {
        assert(formula_view_of(*v) == Some(record.deep_view()));
    }
    Some(record)
}

/// Reads one cask-like record from a JSON object; its `desc` field reads a
/// JSON `null` as the empty string.
pub fn cask_from_value(v: &serde_json::Value) -> (r: Option<CaskInfo>)
    ensures
        r.deep_view() == cask_view_of(*v),
{
    let token = match required_text(field_of(v, "token")) {
        Some(s) => s,
        None => {
            return None;
        },
    };
    let name = match texts_or_empty(field_of(v, "name")) {
        Some(n) => n,
        None => {
            return None;
        },
    };
    let desc = match text_null_or_empty(field_of(v, "desc")) {
        Some(s) => s,
        None => {
            return None;
        },
    };
    let homepage = match text_or_empty(field_of(v, "homepage")) {
        Some(s) => s,
        None => {
            return None;
        },
    };
    let version = match text_or_empty(field_of(v, "version")) {
        Some(s) => s,
        None => {
            return None;
        },
    };
    let auto_updates = match optional_flag(field_of(v, "auto_updates")) {
        Some(o) => o,
        None => {
            return None;
        },
    };
    let record = CaskInfo { token, name, desc, homepage, version, auto_updates };
    proof {
        assert(cask_view_of(*v) == Some(record.deep_view()));
    }
    Some(record)
}

/// Decodes the remote formula index: the result is `Ok` exactly when the
/// body parses as a JSON array of well-formed formula records, and then
/// holds those records in array order, with defaults applied; any parse
/// failure or malformed record fails the whole decode with a human-readable
/// reason.
pub fn decode_formulae(body: &str) -> (r: Result<Vec<FormulaInfo>, String>)
    ensures
        r matches Ok(out) ==> (decoded_formulae(body@) matches Some(ds) && out.deep_view() == ds),
        r is Err ==> decoded_formulae(body@) is None,
{
    let parsed = match parse_json(body) {
        Ok(v) => v,
        Err(e) => {
            return Err(e);
        },
    };
    let items = match value_as_array(parsed) {
        Some(i) => i,
        None => {
            return Err("expected a JSON array".to_owned());
        },
    };
    let ghost whole = decoded_formulae(body@);
    proof {
        assert(whole == formulae_view(items@));
    }
    let mut out: Vec<FormulaInfo> = Vec::new();
    let mut i: usize = 0;
    while i < items.len()
        invariant
            i <= items@.len(),
            whole == decoded_formulae(body@),
            whole == formulae_view(items@),
            formulae_view(items@.take(i as int)) == Some(out.deep_view()),
        decreases items@.len() - i,
    {
        let ghost prefix = out.deep_view();
        match formula_from_value(&items[i]) {
            Some(f) => {
                let ghost prev = out;
                out.push(f);
                proof {
                    lemma_deep_view_push(prev, out, out@[prefix.len() as int]);
                    let t1 = items@.take(i + 1);
                    assert(t1.drop_last() =~= items@.take(i as int));
                    assert(t1.last() == items@[i as int]);
                    assert(out.deep_view() =~= prefix.push(
                        formula_view_of(items@[i as int]).unwrap(),
                    ));
                    assert(formulae_view(t1) == Some(out.deep_view()));
                }
            },
            None => {
                proof {
                    lemma_formulae_view_failure(items@, i as int);
                }
                return Err("malformed record in the formula index".to_owned());
            },
        }
        i = i + 1;
    }
    proof {
        assert(items@.take(items@.len() as int) =~= items@);
    }
    Ok(out)
}

/// Decodes the remote cask index: the result is `Ok` exactly when the body
/// parses as a JSON array of well-formed cask records, and then holds those
/// records in array order, with defaults applied; any parse failure or
/// malformed record fails the whole decode with a human-readable reason.
pub fn decode_casks(body: &str) -> (r: Result<Vec<CaskInfo>, String>)
    ensures
        r matches Ok(out) ==> (decoded_casks(body@) matches Some(ds) && out.deep_view() == ds),
        r is Err ==> decoded_casks(body@) is None,
{
    let parsed = match parse_json(body) {
        Ok(v) => v,
        Err(e) => {
            return Err(e);
        },
    };
    let items = match value_as_array(parsed) {
        Some(i) => i,
        None => {
            return Err("expected a JSON array".to_owned());
        },
    };
    let ghost whole = decoded_casks(body@);
    proof {
        assert(whole == casks_view(items@));
    }
    let mut out: Vec<CaskInfo> = Vec::new();
    let mut i: usize = 0;
    while i < items.len()
        invariant
            i <= items@.len(),
            whole == decoded_casks(body@),
            whole == casks_view(items@),
            casks_view(items@.take(i as int)) == Some(out.deep_view()),
        decreases items@.len() - i,
    {
        let ghost prefix = out.deep_view();
        match cask_from_value(&items[i]) {
            Some(c) => {
                let ghost prev = out;
                out.push(c);
                proof {
                    lemma_deep_view_push(prev, out, out@[prefix.len() as int]);
                    let t1 = items@.take(i + 1);
                    assert(t1.drop_last() =~= items@.take(i as int));
                    assert(t1.last() == items@[i as int]);
                    assert(out.deep_view() =~= prefix.push(
                        cask_view_of(items@[i as int]).unwrap(),
                    ));
                    assert(casks_view(t1) == Some(out.deep_view()));
                }
            },
            None => {
                proof {
                    lemma_casks_view_failure(items@, i as int);
                }
                return Err("malformed record in the cask index".to_owned());
            },
        }
        i = i + 1;
    }
    proof {
        assert(items@.take(items@.len() as int) =~= items@);
    }
    Ok(out)
}

} // verus!
