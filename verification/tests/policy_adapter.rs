use rats_tls::canonical::Measurement;
use rats_tls::evidence::{CsvEvidence, SgxEvidence};
use rats_tls::json::JsonMember;
use rats_tls::policy::{decide, AdapterError, Decision, PolicyInput, PolicyQuery};

const ZEROS_B64: &str = "AAAAAAAAAAAAAAAAAAAAAAAAAAAAAAAAAAAAAAAAAAA=";
const ONES_B64: &str = "//////////////////////////////////////////8=";

fn sgx(enclave: u8, signer: u8, product_id: u32, security_version: u32) -> SgxEvidence {
    SgxEvidence {
        mr_enclave: Measurement::new([enclave; 32]),
        mr_signer: Measurement::new([signer; 32]),
        product_id,
        security_version,
    }
}

#[test]
fn sgx_input_holds_the_fields_in_canonical_form() {
    let doc = PolicyInput::from_sgx(&sgx(0, 0xff, 1, 2));
    assert_eq!(
        doc,
        PolicyInput::Sgx {
            mr_enclave: ZEROS_B64.to_string(),
            mr_signer: ONES_B64.to_string(),
            product_id: 1,
            svn: 2,
        }
    );
}

#[test]
fn csv_input_holds_the_measure_in_canonical_form() {
    let doc = PolicyInput::from_csv(&CsvEvidence { measure: Measurement::new([0xff; 32]) });
    assert_eq!(doc, PolicyInput::Csv { measure: ONES_B64.to_string() });
}

#[test]
fn sgx_input_as_json_text() {
    let text = PolicyInput::from_sgx(&sgx(0, 0, 1, 1)).to_json();
    assert_eq!(
        text,
        format!(
            "{{\"mrEnclave\":\"{}\",\"mrSigner\":\"{}\",\"productId\":1,\"svn\":1}}",
            ZEROS_B64, ZEROS_B64
        )
    );
}

#[test]
fn csv_input_as_json_text() {
    let text = PolicyInput::from_csv(&CsvEvidence { measure: Measurement::new([0; 32]) }).to_json();
    assert_eq!(text, format!("{{\"measure\":\"{}\"}}", ZEROS_B64));
}

#[test]
fn integers_pass_through_unchanged() {
    let text = PolicyInput::from_sgx(&sgx(0, 0, u32::MAX, 0)).to_json();
    let value: serde_json::Value = serde_json::from_str(&text).unwrap();
    assert_eq!(value["productId"].as_u64(), Some(4294967295));
    assert_eq!(value["svn"].as_u64(), Some(0));
    assert_eq!(value["mrEnclave"].as_str(), Some(ZEROS_B64));
    assert_eq!(value.as_object().unwrap().len(), 4);
}

#[test]
fn json_text_escapes_what_json_requires() {
    let doc = PolicyInput::Csv { measure: "a\"b\\c\n".to_string() };
    assert_eq!(doc.to_json(), "{\"measure\":\"a\\\"b\\\\c\\n\"}");
}

#[test]
fn same_evidence_same_document() {
    let a = PolicyInput::from_sgx(&sgx(7, 9, 3, 4));
    let b = PolicyInput::from_sgx(&sgx(7, 9, 3, 4));
    assert_eq!(a, b);
    assert_eq!(a.to_json(), b.to_json());
    assert_eq!(PolicyQuery::for_sgx(&sgx(7, 9, 3, 4)), PolicyQuery::for_sgx(&sgx(7, 9, 3, 4)));
}

#[test]
fn sgx_query_names_the_sgx_policy_and_dataset() {
    let ev = sgx(1, 2, 3, 4);
    let q = PolicyQuery::for_sgx(&ev);
    assert_eq!(q.policy_id, "sgxPolicy.rego");
    assert_eq!(q.dataset_id, "sgxData");
    assert_eq!(q.input, PolicyInput::from_sgx(&ev).to_json());
}

#[test]
fn csv_query_names_the_csv_policy_and_dataset() {
    let ev = CsvEvidence { measure: Measurement::new([5; 32]) };
    let q = PolicyQuery::for_csv(&ev);
    assert_eq!(q.policy_id, "csvPolicy.rego");
    assert_eq!(q.dataset_id, "csvData");
    assert_eq!(q.input, PolicyInput::from_csv(&ev).to_json());
}

#[test]
fn allow_true_is_a_decision_that_allows() {
    assert_eq!(
        Decision::parse("{\"allow\":true}"),
        Ok(Decision { allow: true, parse_info: None })
    );
}

#[test]
fn allow_false_is_a_decision_that_denies() {
    assert_eq!(
        Decision::parse("{\"allow\": false, \"parseInfo\": \"mrEnclave is not in the list\"}"),
        Ok(Decision {
            allow: false,
            parse_info: Some("mrEnclave is not in the list".to_string()),
        })
    );
}

#[test]
fn explanation_is_kept_with_an_allow_too() {
    assert_eq!(
        Decision::parse("{\"parseInfo\":\"all good\",\"allow\":true,\"extra\":[1,2]}"),
        Ok(Decision { allow: true, parse_info: Some("all good".to_string()) })
    );
}

#[test]
fn explanation_that_is_no_string_is_not_kept() {
    assert_eq!(
        Decision::parse("{\"allow\":false,\"parseInfo\":{\"mrEnclave\":[\"a\",\"b\"]}}"),
        Ok(Decision { allow: false, parse_info: None })
    );
    assert_eq!(
        Decision::parse("{\"allow\":false,\"parseInfo\":null}"),
        Ok(Decision { allow: false, parse_info: None })
    );
}

#[test]
fn reply_that_is_not_json_is_malformed() {
    assert_eq!(Decision::parse("allow"), Err(AdapterError::MalformedResponse));
    assert_eq!(Decision::parse(""), Err(AdapterError::MalformedResponse));
    assert_eq!(Decision::parse("{\"allow\":true"), Err(AdapterError::MalformedResponse));
    assert_eq!(Decision::parse("{\"allow\":true} trailing"), Err(AdapterError::MalformedResponse));
}

#[test]
fn reply_without_allow_is_an_error() {
    assert_eq!(Decision::parse("{}"), Err(AdapterError::MissingAllow));
    assert_eq!(Decision::parse("{\"parseInfo\":\"x\"}"), Err(AdapterError::MissingAllow));
    assert_eq!(Decision::parse("{\"Allow\":true}"), Err(AdapterError::MissingAllow));
}

#[test]
fn allow_that_is_no_boolean_is_an_error() {
    assert_eq!(Decision::parse("{\"allow\":\"true\"}"), Err(AdapterError::MissingAllow));
    assert_eq!(Decision::parse("{\"allow\":1}"), Err(AdapterError::MissingAllow));
    assert_eq!(Decision::parse("{\"allow\":null}"), Err(AdapterError::MissingAllow));
    assert_eq!(Decision::parse("{\"allow\":[true]}"), Err(AdapterError::MissingAllow));
    assert_eq!(Decision::parse("{\"allow\":{\"allow\":true}}"), Err(AdapterError::MissingAllow));
}

#[test]
fn reply_that_is_no_object_is_an_error() {
    assert_eq!(Decision::parse("true"), Err(AdapterError::MissingAllow));
    assert_eq!(Decision::parse("[{\"allow\":true}]"), Err(AdapterError::MissingAllow));
    assert_eq!(Decision::parse("\"allow\""), Err(AdapterError::MissingAllow));
    assert_eq!(Decision::parse("null"), Err(AdapterError::MissingAllow));
}

#[test]
fn failed_engine_call_is_an_engine_error() {
    assert_eq!(
        decide(Err("connection refused".to_string())),
        Err(AdapterError::Engine("connection refused".to_string()))
    );
}

#[test]
fn successful_engine_call_is_read_as_a_reply() {
    assert_eq!(
        decide(Ok("{\"allow\":true}".to_string())),
        Ok(Decision { allow: true, parse_info: None })
    );
    assert_eq!(decide(Ok("<html>".to_string())), Err(AdapterError::MalformedResponse));
    assert_eq!(decide(Ok("{\"deny\":true}".to_string())), Err(AdapterError::MissingAllow));
}

#[test]
fn decision_from_members() {
    assert_eq!(
        Decision::from_members(JsonMember::Bool(true), JsonMember::Absent),
        Ok(Decision { allow: true, parse_info: None })
    );
    assert_eq!(
        Decision::from_members(JsonMember::Bool(false), JsonMember::Text("why".to_string())),
        Ok(Decision { allow: false, parse_info: Some("why".to_string()) })
    );
    assert_eq!(
        Decision::from_members(JsonMember::Bool(false), JsonMember::Object),
        Ok(Decision { allow: false, parse_info: None })
    );
    for allow in [
        JsonMember::Absent,
        JsonMember::Null,
        JsonMember::Number,
        JsonMember::Text("true".to_string()),
        JsonMember::Array,
        JsonMember::Object,
    ] {
        assert_eq!(
            Decision::from_members(allow, JsonMember::Text("x".to_string())),
            Err(AdapterError::MissingAllow)
        );
    }
}
