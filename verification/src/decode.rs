//! Decoding of the response body: the envelope shape the server answers
//! with, and the extraction of its address records.
//!
//! The shape is exactly `{erro: bool, mensagem: string, total: u32,
//! dados: [record, ...]}`, where a record carries the string fields `uf`,
//! `localidade`, `bairro`, `cep`, and its street under exactly one of the
//! two keys `logradouro` and `logradouroDNEC`. Anything else is a decode
//! error; a well-formed envelope with no records is reported as not
//! found.

use vstd::prelude::*;
use crate::json::JsonValue;
use crate::json::obj_get;
use crate::json::parse_json;
use crate::json::spec_obj_get;
use crate::json::spec_parse_json;
use crate::num::all_digits;
use crate::num::digits_value;
use crate::num::parse_u32;
use crate::types::CEP;
use crate::types::CepError;
use crate::types::RespostaAPI;

verus! {

/// The value under `key`, when `j` is an object that has one.
pub open spec fn obj_field(j: JsonValue, key: Seq<char>) -> Option<JsonValue> {
    if j is Obj {
        spec_obj_get(j->Obj_0@, key)
    } else {
        None
    }
}

/// `j` has a string under `key`.
pub open spec fn field_is_str(j: JsonValue, key: Seq<char>) -> bool {
    obj_field(j, key) matches Some(v) && v is Str
}

/// The characters of the string under `key`.
pub open spec fn str_field(j: JsonValue, key: Seq<char>) -> Seq<char> {
    obj_field(j, key)->Some_0->Str_0@
}

/// The street of a record: the string under `logradouro`, or under its
/// alternate name `logradouroDNEC` when only that one is present.
pub open spec fn record_street(r: JsonValue) -> Seq<char> {
    if obj_field(r, "logradouro"@) is Some {
        str_field(r, "logradouro"@)
    } else {
        str_field(r, "logradouroDNEC"@)
    }
}

/// A well-formed address record: the four plain string fields, and the
/// street under exactly one of its two names.
pub open spec fn record_wf(r: JsonValue) -> bool {
    &&& r is Obj
    &&& field_is_str(r, "uf"@)
    &&& field_is_str(r, "localidade"@)
    &&& field_is_str(r, "bairro"@)
    &&& field_is_str(r, "cep"@)
    &&& match (obj_field(r, "logradouro"@), obj_field(r, "logradouroDNEC"@)) {
        (Some(a), None) => a is Str,
        (None, Some(b)) => b is Str,
        _ => false,
    }
}

/// `c` carries exactly the fields of the record `r`.
pub open spec fn record_matches(c: CEP, r: JsonValue) -> bool {
    &&& c.uf@ == str_field(r, "uf"@)
    &&& c.localidade@ == str_field(r, "localidade"@)
    &&& c.logradouro@ == record_street(r)
    &&& c.bairro@ == str_field(r, "bairro"@)
    &&& c.cep@ == str_field(r, "cep"@)
}

/// The digits name a number a `u32` can hold.
pub open spec fn num_is_u32(s: Seq<char>) -> bool {
    s.len() > 0 && all_digits(s) && digits_value(s) <= u32::MAX
}

/// Every element of `dados` is a well-formed record.
pub open spec fn all_records_wf(ds: Seq<JsonValue>) -> bool {
    forall|i: int| 0 <= i < ds.len() ==> record_wf(ds[i])
}

/// A well-formed envelope: the error flag, the message, a count a `u32`
/// can hold, and a sequence of well-formed records.
pub open spec fn envelope_wf(j: JsonValue) -> bool {
    &&& j is Obj
    &&& obj_field(j, "erro"@) matches Some(v) && v is Bool
    &&& obj_field(j, "mensagem"@) matches Some(v) && v is Str
    &&& obj_field(j, "total"@) matches Some(v) && v is Num && num_is_u32(v->Num_0@)
    &&& obj_field(j, "dados"@) matches Some(v) && v is Arr && all_records_wf(v->Arr_0@)
}

/// The record sequence of a well-formed envelope.
pub open spec fn spec_dados(j: JsonValue) -> Seq<JsonValue> {
    obj_field(j, "dados"@)->Some_0->Arr_0@
}

/// `env` carries exactly the fields of the envelope `j`.
pub open spec fn envelope_matches(env: RespostaAPI, j: JsonValue) -> bool {
    &&& env.erro == obj_field(j, "erro"@)->Some_0->Bool_0
    &&& env.mensagem@ == str_field(j, "mensagem"@)
    &&& env.total == digits_value(obj_field(j, "total"@)->Some_0->Num_0@)
    &&& env.dados@.len() == spec_dados(j).len()
    &&& forall|i: int|
        0 <= i < spec_dados(j).len() ==> record_matches(env.dados@[i], spec_dados(j)[i])
}

/// The error every malformed envelope is reported with.
fn shape_error() -> (e: CepError)
    ensures
        e matches CepError::DecodeError(m) && m@ == "unexpected envelope shape"@,
{
    CepError::DecodeError(String::from_str("unexpected envelope shape"))
}

/// Extract one address record, exactly when it is well-formed.
pub fn extract_record(r: &JsonValue) -> (out: Option<CEP>)
    ensures
        out is Some <==> record_wf(*r),
        out matches Some(c) ==> record_matches(c, *r),
{
    let fields = match r {
        JsonValue::Obj(fields) => fields,
        _ => {
            return None;
        },
    };
    let uf = match obj_get(fields, "uf") {
        Some(v) => match v {
            JsonValue::Str(s) => s.clone(),
            _ => {
                return None;
            },
        },
        None => {
            return None;
        },
    };
    let localidade = match obj_get(fields, "localidade") {
        Some(v) => match v {
            JsonValue::Str(s) => s.clone(),
            _ => {
                return None;
            },
        },
        None => {
            return None;
        },
    };
    let bairro = match obj_get(fields, "bairro") {
        Some(v) => match v {
            JsonValue::Str(s) => s.clone(),
            _ => {
                return None;
            },
        },
        None => {
            return None;
        },
    };
    let cep = match obj_get(fields, "cep") {
        Some(v) => match v {
            JsonValue::Str(s) => s.clone(),
            _ => {
                return None;
            },
        },
        None => {
            return None;
        },
    };
    let logradouro = match (obj_get(fields, "logradouro"), obj_get(fields, "logradouroDNEC")) {
        (Some(v), None) => match v {
            JsonValue::Str(s) => s.clone(),
            _ => {
                return None;
            },
        },
        (None, Some(v)) => match v {
            JsonValue::Str(s) => s.clone(),
            _ => {
                return None;
            },
        },
        _ => {
            return None;
        },
    };
    Some(CEP { uf, localidade, logradouro, bairro, cep })
}

/// Decode the envelope, exactly when it is well-formed.
pub fn decode_envelope(j: &JsonValue) -> (r: Result<RespostaAPI, CepError>)
    ensures
        r is Ok <==> envelope_wf(*j),
        r matches Ok(env) ==> envelope_matches(env, *j),
        r matches Err(e) ==> (e matches CepError::DecodeError(m) && m@
            == "unexpected envelope shape"@),
{
    let fields = match j {
        JsonValue::Obj(fields) => fields,
        _ => {
            return Err(shape_error());
        },
    };
    let erro = match obj_get(fields, "erro") {
        Some(v) => match v {
            JsonValue::Bool(b) => *b,
            _ => {
                return Err(shape_error());
            },
        },
        None => {
            return Err(shape_error());
        },
    };
    let mensagem = match obj_get(fields, "mensagem") {
        Some(v) => match v {
            JsonValue::Str(s) => s.clone(),
            _ => {
                return Err(shape_error());
            },
        },
        None => {
            return Err(shape_error());
        },
    };
    let total = match obj_get(fields, "total") {
        Some(v) => match v {
            JsonValue::Num(s) => match parse_u32(s.as_str()) {
                Some(t) => t,
                None => {
                    return Err(shape_error());
                },
            },
            _ => {
                return Err(shape_error());
            },
        },
        None => {
            return Err(shape_error());
        },
    };
    let ds = match obj_get(fields, "dados") {
        Some(v) => match v {
            JsonValue::Arr(a) => a,
            _ => {
                return Err(shape_error());
            },
        },
        None => {
            return Err(shape_error());
        },
    };
    let mut dados: Vec<CEP> = Vec::new();
    let mut i: usize = 0;
    while i < ds.len()
        invariant
            0 <= i <= ds@.len(),
            ds@ == spec_dados(*j),
            obj_field(*j, "dados"@) matches Some(v) && v is Arr,
            dados@.len() == i,
            forall|k: int| 0 <= k < i ==> record_wf(ds@[k]),
            forall|k: int| 0 <= k < i ==> record_matches(dados@[k], ds@[k]),
        decreases ds@.len() - i,
    {
        match extract_record(&ds[i]) {
            Some(c) => {
                dados.push(c);
            },
            None => {
                return Err(shape_error());
            },
        }
        i = i + 1;
    }
    Ok(RespostaAPI { erro, mensagem, total, dados })
}

/// What a successful decode of `body` returns: the first record of a
/// well-formed, non-empty envelope.
pub open spec fn decode_ok(body: Seq<char>, c: CEP) -> bool {
    &&& spec_parse_json(body) matches Some(j) && envelope_wf(j) && spec_dados(j).len() > 0
        && record_matches(c, spec_dados(j)[0])
}

/// What a failed decode of `body` returns: a decode error exactly for
/// text that is not a well-formed envelope, and not-found exactly for a
/// well-formed envelope with no records.
pub open spec fn decode_err(body: Seq<char>, e: CepError) -> bool {
    match e {
        CepError::DecodeError(m) => (spec_parse_json(body) is None && m@ == "malformed JSON"@) || (
        spec_parse_json(body) matches Some(j) && !envelope_wf(j) && m@
            == "unexpected envelope shape"@),
        CepError::NotFound => spec_parse_json(body) matches Some(j) && envelope_wf(j)
            && spec_dados(j).len() == 0,
        _ => false,
    }
}

/// Decode a response body into its first address record.
pub fn decode_body(body: &str) -> (r: Result<CEP, CepError>)
    ensures
        r matches Ok(c) ==> decode_ok(body@, c),
        r matches Err(e) ==> decode_err(body@, e),
{
    let parsed = match parse_json(body) {
        Some(j) => j,
        None => {
            return Err(CepError::DecodeError(String::from_str("malformed JSON")));
        },
    };
    let env = match decode_envelope(&parsed) {
        Ok(env) => env,
        Err(e) => {
            return Err(e);
        },
    };
    if env.dados.len() == 0 {
        return Err(CepError::NotFound);
    }
    let first = &env.dados[0];
    Ok(first.clone())
}

} // verus!
