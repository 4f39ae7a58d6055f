//! Tests of the lookup pipeline: validation, payload construction, and
//! decoding of stubbed responses.

use ceprustico::handle_response;
use ceprustico::prepare_request;
use ceprustico::validate_cep;
use ceprustico::endpoint_url;
use ceprustico::CEP;
use ceprustico::CepError;
use ceprustico::RespostaCorreios;

const ONE_RECORD_BODY: &str = r#"{"erro":false,"mensagem":"DADOS ENCONTRADOS","total":1,"dados":[{"uf":"SP","localidade":"São Paulo","logradouro":"Praça da Sé","bairro":"Sé","cep":"01310000"}]}"#;

fn expected_record() -> CEP {
    CEP {
        uf: "SP".to_string(),
        localidade: "São Paulo".to_string(),
        logradouro: "Praça da Sé".to_string(),
        bairro: "Sé".to_string(),
        cep: "01310000".to_string(),
    }
}

#[test]
fn test_cep_is_null_or_empty() {
    let cep = "";
    let result = prepare_request(cep);
    assert!(result.is_err());
}

#[test]
fn test_cep_has_size_8() {
    let cep = "1234567";
    let result = prepare_request(cep);
    assert!(result.is_err());
}

#[test]
fn test_must_be_only_digits() {
    let cep = "1234567a";
    let result = prepare_request(cep);
    assert!(result.is_err());
}

#[test]
fn empty_input_is_rejected_as_empty() {
    match validate_cep("") {
        Err(CepError::InvalidInput(m)) => assert_eq!(m, "empty"),
        other => panic!("expected InvalidInput, got {:?}", other),
    }
}

#[test]
fn non_digit_input_is_rejected_before_length() {
    // Non-empty, wrong length, and with a non-digit: the digit check wins.
    match validate_cep("12x") {
        Err(CepError::InvalidInput(m)) => assert_eq!(m, "non-digit characters"),
        other => panic!("expected InvalidInput, got {:?}", other),
    }
    match validate_cep("1234567a") {
        Err(CepError::InvalidInput(m)) => assert_eq!(m, "non-digit characters"),
        other => panic!("expected InvalidInput, got {:?}", other),
    }
}

#[test]
fn wrong_length_input_is_rejected() {
    for cep in ["1234567", "123456789", "1"] {
        match validate_cep(cep) {
            Err(CepError::InvalidInput(m)) => assert_eq!(m, "wrong length"),
            other => panic!("expected InvalidInput, got {:?}", other),
        }
    }
}

#[test]
fn valid_input_is_accepted() {
    assert!(validate_cep("01310000").is_ok());
    assert!(validate_cep("00000000").is_ok());
    assert!(validate_cep("99999999").is_ok());
}

#[test]
fn no_request_is_issued_for_invalid_input() {
    // A stub standing in for the HTTP adapter: the test fails if the
    // pipeline ever reaches it on invalid input.
    let mut adapter_calls = 0;
    for cep in ["", "1310-000", "0131000", "013100000", "abcdefgh"] {
        if let Ok(fields) = prepare_request(cep) {
            adapter_calls += 1;
            let _ = fields;
        }
    }
    assert_eq!(adapter_calls, 0);
}

#[test]
fn form_payload_holds_the_six_fixed_fields() {
    let fields = prepare_request("01310000").expect("a valid code must yield a payload");
    let expected = vec![
        ("endereco".to_string(), "01310000".to_string()),
        ("tipoCEP".to_string(), "ALL".to_string()),
        ("cepaux".to_string(), String::new()),
        ("mensagem_alerta".to_string(), String::new()),
        ("pagina".to_string(), "/app/endereco/index.php".to_string()),
        ("cep".to_string(), "01310000".to_string()),
    ];
    assert_eq!(fields, expected);
}

#[test]
fn endpoint_is_the_fixed_consulta_url() {
    assert_eq!(
        endpoint_url(),
        "https://buscacepinter.correios.com.br/app/consulta/html/consulta-detalhes-cep.php"
    );
}

#[test]
fn one_record_envelope_yields_that_record() {
    let got = handle_response(200, ONE_RECORD_BODY).expect("well-formed envelope must decode");
    assert_eq!(got, expected_record());
}

#[test]
fn street_is_accepted_under_its_alternate_key() {
    let body = r#"{"erro":false,"mensagem":"ok","total":1,"dados":[{"uf":"SP","localidade":"São Paulo","logradouroDNEC":"Praça da Sé","bairro":"Sé","cep":"01310000"}]}"#;
    let got = handle_response(200, body).expect("alternate street key must decode");
    assert_eq!(got, expected_record());
}

#[test]
fn both_street_keys_are_a_decode_error() {
    let body = r#"{"erro":false,"mensagem":"ok","total":1,"dados":[{"uf":"SP","localidade":"São Paulo","logradouro":"a","logradouroDNEC":"b","bairro":"Sé","cep":"01310000"}]}"#;
    assert!(matches!(
        handle_response(200, body),
        Err(CepError::DecodeError(_))
    ));
}

#[test]
fn missing_record_field_is_a_decode_error() {
    let body = r#"{"erro":false,"mensagem":"ok","total":1,"dados":[{"uf":"SP","logradouro":"Praça da Sé","bairro":"Sé","cep":"01310000"}]}"#;
    assert!(matches!(
        handle_response(200, body),
        Err(CepError::DecodeError(_))
    ));
}

#[test]
fn missing_envelope_field_is_a_decode_error() {
    let body = r#"{"mensagem":"ok","total":0,"dados":[]}"#;
    assert!(matches!(
        handle_response(200, body),
        Err(CepError::DecodeError(_))
    ));
}

#[test]
fn empty_dados_is_not_found() {
    let body = r#"{"erro":true,"mensagem":"DADOS NAO ENCONTRADOS","total":0,"dados":[]}"#;
    assert!(matches!(handle_response(200, body), Err(CepError::NotFound)));
}

#[test]
fn malformed_json_is_a_decode_error_not_a_crash() {
    for body in ["", "not json at all", "{\"erro\":", "[1,2", "{\"erro\":false"] {
        match handle_response(200, body) {
            Err(CepError::DecodeError(m)) => assert_eq!(m, "malformed JSON"),
            other => panic!("expected DecodeError, got {:?}", other),
        }
    }
}

#[test]
fn http_status_500_is_reported_with_the_status() {
    match handle_response(500, ONE_RECORD_BODY) {
        Err(CepError::HttpRequest(m)) => assert_eq!(m, "status: 500"),
        other => panic!("expected HttpRequest, got {:?}", other),
    }
    // The body is never looked at under a non-success status.
    match handle_response(500, "garbage that would not decode") {
        Err(CepError::HttpRequest(m)) => assert_eq!(m, "status: 500"),
        other => panic!("expected HttpRequest, got {:?}", other),
    }
}

#[test]
fn non_success_statuses_carry_their_code_and_skip_the_body() {
    for (status, msg) in [(404u16, "status: 404"), (300, "status: 300"), (199, "status: 199"), (0, "status: 0")] {
        match handle_response(status, ONE_RECORD_BODY) {
            Err(CepError::HttpRequest(m)) => assert_eq!(m, msg),
            other => panic!("expected HttpRequest, got {:?}", other),
        }
    }
}

#[test]
fn success_statuses_reach_the_decoder() {
    assert!(handle_response(200, ONE_RECORD_BODY).is_ok());
    assert!(handle_response(299, ONE_RECORD_BODY).is_ok());
}

#[test]
fn repeated_lookups_of_the_same_response_are_equal() {
    let r1 = handle_response(200, ONE_RECORD_BODY).unwrap();
    let r2 = handle_response(200, ONE_RECORD_BODY).unwrap();
    assert_eq!(r1, r2);

    let e1 = handle_response(200, r#"{"erro":true,"mensagem":"x","total":0,"dados":[]}"#);
    let e2 = handle_response(200, r#"{"erro":true,"mensagem":"x","total":0,"dados":[]}"#);
    assert_eq!(e1.unwrap_err(), e2.unwrap_err());
}

#[test]
fn first_record_of_many_is_returned() {
    let body = r#"{"erro":false,"mensagem":"ok","total":2,"dados":[{"uf":"SP","localidade":"São Paulo","logradouro":"Praça da Sé","bairro":"Sé","cep":"01310000"},{"uf":"RJ","localidade":"Rio de Janeiro","logradouro":"Avenida Atlântica","bairro":"Copacabana","cep":"22021001"}]}"#;
    let got = handle_response(200, body).unwrap();
    assert_eq!(got, expected_record());
}

#[test]
fn a_malformed_later_record_is_a_decode_error() {
    let body = r#"{"erro":false,"mensagem":"ok","total":2,"dados":[{"uf":"SP","localidade":"São Paulo","logradouro":"Praça da Sé","bairro":"Sé","cep":"01310000"},{"uf":7}]}"#;
    assert!(matches!(
        handle_response(200, body),
        Err(CepError::DecodeError(_))
    ));
}

#[test]
fn unknown_fields_are_ignored() {
    let body = r#"{"erro":false,"mensagem":"ok","total":1,"extra":null,"dados":[{"uf":"SP","localidade":"São Paulo","logradouro":"Praça da Sé","bairro":"Sé","cep":"01310000","ibge":"3550308"}]}"#;
    let got = handle_response(200, body).unwrap();
    assert_eq!(got, expected_record());
}

#[test]
fn total_must_be_an_unsigned_32_bit_integer() {
    let shape = |total: &str| {
        format!(
            r#"{{"erro":false,"mensagem":"ok","total":{},"dados":[]}}"#,
            total
        )
    };
    // In range: a well-formed envelope with no records.
    assert!(matches!(
        handle_response(200, &shape("4294967295")),
        Err(CepError::NotFound)
    ));
    // Above u32, negative, fractional, or a string: decode errors.
    for total in ["4294967296", "-1", "1.5", "\"1\""] {
        assert!(matches!(
            handle_response(200, &shape(total)),
            Err(CepError::DecodeError(_))
        ));
    }
}

#[test]
fn wrongly_typed_fields_are_a_decode_error() {
    for body in [
        r#"{"erro":"no","mensagem":"ok","total":0,"dados":[]}"#,
        r#"{"erro":false,"mensagem":3,"total":0,"dados":[]}"#,
        r#"{"erro":false,"mensagem":"ok","total":0,"dados":{}}"#,
        r#"{"erro":false,"mensagem":"ok","total":0,"dados":[null]}"#,
        r#"[1,2,3]"#,
        r#""just a string""#,
    ] {
        assert!(matches!(
            handle_response(200, body),
            Err(CepError::DecodeError(_))
        ));
    }
}

#[test]
fn error_messages_describe_each_kind() {
    assert_eq!(
        CepError::NotFound.message(),
        "no address record was found"
    );
    assert_eq!(
        CepError::InvalidInput("empty".to_string()).message(),
        "invalid input: empty"
    );
    assert_eq!(
        CepError::HttpRequest("status: 500".to_string()).message(),
        "http request failed: status: 500"
    );
    assert_eq!(
        CepError::DecodeError("malformed JSON".to_string()).message(),
        "could not decode the response: malformed JSON"
    );
}

#[test]
fn records_compare_and_clone_by_field() {
    let a = expected_record();
    let b = a.clone();
    assert_eq!(a, b);
    let mut c = a.clone();
    c.cep = "99999999".to_string();
    assert!(a != c);
}

#[test]
fn alternate_envelope_shape_can_be_carried() {
    let alt = RespostaCorreios {
        erro: None,
        dados: vec![expected_record()],
    };
    assert!(alt.erro.is_none());
    assert_eq!(alt.dados[0], expected_record());
}
