//! Client library for the Correios CEP (Brazilian postal code) lookup
//! service: input validation, request payload construction, and decoding
//! of the JSON envelope the service answers with.
//!
//! The network transport itself is left to the caller: the library hands
//! out the endpoint and the form payload, and interprets the status code
//! and body text the caller got back.

pub mod decode;
pub mod json;
pub mod lookup;
pub mod num;
pub mod request;
pub mod types;
pub mod validate;

pub use types::CEP;
pub use types::CepError;
pub use types::RespostaAPI;
pub use types::RespostaCorreios;
pub use lookup::handle_response;
pub use request::endpoint_url;
pub use request::prepare_request;
pub use validate::validate_cep;
