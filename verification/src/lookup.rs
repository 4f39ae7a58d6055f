//! Interpretation of one HTTP exchange: a non-success status becomes an
//! `HttpRequest` error carrying the status, a success status hands the
//! body to the decoder.

use vstd::prelude::*;
use crate::decode::decode_body;
use crate::decode::decode_err;
use crate::decode::decode_ok;
use crate::decode::record_matches;
use crate::decode::spec_dados;
use crate::json::spec_parse_json;
use crate::num::dec_digits;
use crate::num::u16_to_string;
use crate::types::CEP;
use crate::types::CepError;
use crate::types::cep_congruent;
use crate::types::cep_error_congruent;

verus! {

/// The status codes the lookup accepts a body under.
pub open spec fn http_success(status: u16) -> bool {
    200 <= status < 300
}

/// The detail text of the error a non-success status is reported with.
pub open spec fn status_message(status: u16) -> Seq<char> {
    "status: "@ + dec_digits(status as nat)
}

/// What a successful lookup of one response returns.
pub open spec fn response_outcome_ok(status: u16, body: Seq<char>, c: CEP) -> bool {
    http_success(status) && decode_ok(body, c)
}

/// What a failed lookup of one response returns.
pub open spec fn response_outcome_err(status: u16, body: Seq<char>, e: CepError) -> bool {
    if http_success(status) {
        decode_err(body, e)
    } else {
        e matches CepError::HttpRequest(m) && m@ == status_message(status)
    }
}

/// Interpret the status code and body text of one response: the first
/// address record of a well-formed envelope under a success status, an
/// error otherwise.
pub fn handle_response(status: u16, body: &str) -> (r: Result<CEP, CepError>)
    ensures
        r matches Ok(c) ==> response_outcome_ok(status, body@, c),
        r matches Err(e) ==> response_outcome_err(status, body@, e),
{
    if status < 200 || status >= 300 {
        let msg = String::from_str("status: ").concat(u16_to_string(status).as_str());
        return Err(CepError::HttpRequest(msg));
    }
    decode_body(body)
}

/// A lookup is a function of the response alone: any two results drawn
/// from the same status and body text succeed or fail together, agree on
/// every field of the record, and agree on the kind and detail of the
/// error.
pub proof fn lemma_lookup_idempotent(
    status: u16,
    body: Seq<char>,
    r1: Result<CEP, CepError>,
    r2: Result<CEP, CepError>,
)
    requires
        r1 matches Ok(c) ==> response_outcome_ok(status, body, c),
        r1 matches Err(e) ==> response_outcome_err(status, body, e),
        r2 matches Ok(c) ==> response_outcome_ok(status, body, c),
        r2 matches Err(e) ==> response_outcome_err(status, body, e),
    ensures
        r1 is Ok <==> r2 is Ok,
        r1 is Ok && r2 is Ok ==> cep_congruent(r1->Ok_0, r2->Ok_0),
        r1 is Err && r2 is Err ==> cep_error_congruent(r1->Err_0, r2->Err_0),
{
    match (r1, r2) {
        (Ok(c1), Ok(c2)) => {
            let j = spec_parse_json(body)->Some_0;
            assert(record_matches(c1, spec_dados(j)[0]));
            assert(record_matches(c2, spec_dados(j)[0]));
        },
        (Err(e1), Err(e2)) => {
            if http_success(status) {
                match (e1, e2) {
                    (CepError::DecodeError(m1), CepError::DecodeError(m2)) => {
                        if spec_parse_json(body) is None {
                            assert(m1@ == "malformed JSON"@ && m2@ == "malformed JSON"@);
                        } else {
                            assert(m1@ == "unexpected envelope shape"@ && m2@
                                == "unexpected envelope shape"@);
                        }
                    },
                    _ => {},
                }
            }
        },
        _ => {},
    }
}

} // verus!
