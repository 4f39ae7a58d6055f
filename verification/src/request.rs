//! The fixed endpoint and the form payload of one lookup request, and the
//! decision of whether a request may be sent at all.
//!
//! The library issues no network traffic itself: `prepare_request` either
//! rejects the candidate code or hands back the exact form fields to POST
//! to `endpoint_url`, and the caller performs the transfer.

use vstd::prelude::*;
use crate::types::CepError;
use crate::types::cep_error_congruent;
use crate::validate::is_valid_cep;
use crate::validate::rejection_reason;
use crate::validate::validate_cep;

verus! {

/// The fixed URL the lookup posts to.
pub open spec fn spec_endpoint_url() -> Seq<char> {
    "https://buscacepinter.correios.com.br/app/consulta/html/consulta-detalhes-cep.php"@
}

/// The fixed URL the lookup posts to.
pub fn endpoint_url() -> (r: &'static str)
    ensures
        r@ == spec_endpoint_url(),
{
    "https://buscacepinter.correios.com.br/app/consulta/html/consulta-detalhes-cep.php"
}

/// The six form fields of one lookup request for the code `cep`, in order.
pub open spec fn form_fields_match(fields: Seq<(String, String)>, cep: Seq<char>) -> bool {
    &&& fields.len() == 6
    &&& fields[0].0@ == "endereco"@ && fields[0].1@ == cep
    &&& fields[1].0@ == "tipoCEP"@ && fields[1].1@ == "ALL"@
    &&& fields[2].0@ == "cepaux"@ && fields[2].1@ == ""@
    &&& fields[3].0@ == "mensagem_alerta"@ && fields[3].1@ == ""@
    &&& fields[4].0@ == "pagina"@ && fields[4].1@ == "/app/endereco/index.php"@
    &&& fields[5].0@ == "cep"@ && fields[5].1@ == cep
}

/// Build the form payload for the code `cep`.
pub fn build_form(cep: &str) -> (r: Vec<(String, String)>)
    ensures
        form_fields_match(r@, cep@),
{
    let mut fields: Vec<(String, String)> = Vec::new();
    fields.push((String::from_str("endereco"), String::from_str(cep)));
    fields.push((String::from_str("tipoCEP"), String::from_str("ALL")));
    fields.push((String::from_str("cepaux"), String::from_str("")));
    fields.push((String::from_str("mensagem_alerta"), String::from_str("")));
    fields.push((String::from_str("pagina"), String::from_str("/app/endereco/index.php")));
    fields.push((String::from_str("cep"), String::from_str(cep)));
    fields
}

/// Validate the candidate code and, exactly when it is well-formed, hand
/// back the form payload to send. No payload ever exists for a rejected
/// code, so no request can be issued for one.
pub fn prepare_request(cep: &str) -> (r: Result<Vec<(String, String)>, CepError>)
    ensures
        r is Ok <==> is_valid_cep(cep@),
        r matches Ok(fields) ==> form_fields_match(fields@, cep@),
        r matches Err(e) ==> (e matches CepError::InvalidInput(m) && m@ == rejection_reason(cep@)),
{
    match validate_cep(cep) {
        Ok(()) => Ok(build_form(cep)),
        Err(e) => Err(e),
    }
}

/// The two payloads agree on every field name and value.
pub open spec fn form_congruent(a: Seq<(String, String)>, b: Seq<(String, String)>) -> bool {
    a.len() == b.len() && forall|i: int|
        0 <= i < a.len() ==> a[i].0@ == b[i].0@ && a[i].1@ == b[i].1@
}

/// The request is a function of the candidate code alone: any two
/// prepared requests for the same code are both rejected with the same
/// reason, or both carry the same form payload.
pub proof fn lemma_prepare_request_deterministic(
    cep: Seq<char>,
    r1: Result<Vec<(String, String)>, CepError>,
    r2: Result<Vec<(String, String)>, CepError>,
)
    requires
        r1 is Ok <==> is_valid_cep(cep),
        r1 matches Ok(fields) ==> form_fields_match(fields@, cep),
        r1 matches Err(e) ==> (e matches CepError::InvalidInput(m) && m@ == rejection_reason(cep)),
        r2 is Ok <==> is_valid_cep(cep),
        r2 matches Ok(fields) ==> form_fields_match(fields@, cep),
        r2 matches Err(e) ==> (e matches CepError::InvalidInput(m) && m@ == rejection_reason(cep)),
    ensures
        r1 is Ok <==> r2 is Ok,
        r1 is Ok && r2 is Ok ==> form_congruent(r1->Ok_0@, r2->Ok_0@),
        r1 is Err && r2 is Err ==> cep_error_congruent(r1->Err_0, r2->Err_0),
{
}

} // verus!
