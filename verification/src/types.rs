//! The record, envelope and error types of the lookup operation.

use vstd::prelude::*;

verus! {

/// Everything that can go wrong during a lookup.
#[derive(Debug)]
pub enum CepError {
    /// The candidate code was rejected before any network activity.
    InvalidInput(String),
    /// The transport failed, or the server answered with a non-success status.
    HttpRequest(String),
    /// The response body was not the expected JSON envelope.
    DecodeError(String),
    /// The envelope was well-formed but carried no address records.
    NotFound,
}

/// One address record, as the server returns it. No validation is applied
/// to the fields beyond their presence in the response.
#[derive(Debug)]
pub struct CEP {
    pub uf: String,
    pub localidade: String,
    pub logradouro: String,
    pub bairro: String,
    pub cep: String,
}

/// The envelope the server wraps its address records in. Only `dados` is
/// consumed by the lookup; the other fields are decoded but not acted upon.
#[derive(Debug)]
pub struct RespostaAPI {
    pub erro: bool,
    pub mensagem: String,
    pub total: u32,
    pub dados: Vec<CEP>,
}

/// An alternate envelope shape the server is known to produce on other
/// paths. It is declared for completeness and never produced by the
/// decoder here.
#[derive(Debug)]
pub struct RespostaCorreios {
    pub erro: Option<String>,
    pub dados: Vec<CEP>,
}

/// Two records agree on every field, character for character.
pub open spec fn cep_congruent(a: CEP, b: CEP) -> bool {
    &&& a.uf@ == b.uf@
    &&& a.localidade@ == b.localidade@
    &&& a.logradouro@ == b.logradouro@
    &&& a.bairro@ == b.bairro@
    &&& a.cep@ == b.cep@
}

impl Clone for CEP {
    fn clone(&self) -> (r: CEP)
        ensures
            cep_congruent(*self, r),
    {
        CEP {
            uf: self.uf.clone(),
            localidade: self.localidade.clone(),
            logradouro: self.logradouro.clone(),
            bairro: self.bairro.clone(),
            cep: self.cep.clone(),
        }
    }
}

impl PartialEq for CEP {
    fn eq(&self, other: &CEP) -> (r: bool) {
        self.uf == other.uf && self.localidade == other.localidade
            && self.logradouro == other.logradouro && self.bairro == other.bairro
            && self.cep == other.cep
    }
}

impl vstd::std_specs::cmp::PartialEqSpecImpl for CEP {
    open spec fn obeys_eq_spec() -> bool {
        true
    }

    open spec fn eq_spec(&self, other: &CEP) -> bool {
        cep_congruent(*self, *other)
    }
}

/// Two errors are of the same kind and carry the same detail text.
pub open spec fn cep_error_congruent(a: CepError, b: CepError) -> bool {
    match (a, b) {
        (CepError::InvalidInput(x), CepError::InvalidInput(y)) => x@ == y@,
        (CepError::HttpRequest(x), CepError::HttpRequest(y)) => x@ == y@,
        (CepError::DecodeError(x), CepError::DecodeError(y)) => x@ == y@,
        (CepError::NotFound, CepError::NotFound) => true,
        _ => false,
    }
}

impl PartialEq for CepError {
    fn eq(&self, other: &CepError) -> (r: bool) {
        match (self, other) {
            (CepError::InvalidInput(x), CepError::InvalidInput(y)) => *x == *y,
            (CepError::HttpRequest(x), CepError::HttpRequest(y)) => *x == *y,
            (CepError::DecodeError(x), CepError::DecodeError(y)) => *x == *y,
            (CepError::NotFound, CepError::NotFound) => true,
            _ => false,
        }
    }
}

impl vstd::std_specs::cmp::PartialEqSpecImpl for CepError {
    open spec fn obeys_eq_spec() -> bool {
        true
    }

    open spec fn eq_spec(&self, other: &CepError) -> bool {
        cep_error_congruent(*self, *other)
    }
}

/// What `message` returns for each error.
pub open spec fn spec_message(e: CepError) -> Seq<char> {
    match e {
        CepError::InvalidInput(s) => "invalid input: "@ + s@,
        CepError::HttpRequest(s) => "http request failed: "@ + s@,
        CepError::DecodeError(s) => "could not decode the response: "@ + s@,
        CepError::NotFound => "no address record was found"@,
    }
}

impl CepError {
    /// A human-readable description of the error, in place of `Display`.
    pub fn message(&self) -> (m: String)
        ensures
            m@ == spec_message(*self),
    {
        match self {
            CepError::InvalidInput(s) => String::from_str("invalid input: ").concat(s.as_str()),
            CepError::HttpRequest(s) => String::from_str("http request failed: ").concat(
                s.as_str(),
            ),
            CepError::DecodeError(s) => String::from_str("could not decode the response: ").concat(
                s.as_str(),
            ),
            CepError::NotFound => String::from_str("no address record was found"),
        }
    }
}

} // verus!
