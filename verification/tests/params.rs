use attestation_agent::enc_mods::crypto::Algorithm;
use attestation_agent::enc_mods::params::{parse_input_params, InputParams};

fn defaults() -> InputParams {
    InputParams { sample: false, keyid: None, keypath: None, algorithm: Algorithm::A256GCM }
}

#[test]
fn sample_request_with_key_id() {
    let params = parse_input_params("sample=true::keyid=kbs:///a/b/c");
    assert_eq!(
        params,
        InputParams {
            sample: true,
            keyid: Some("kbs:///a/b/c".to_string()),
            keypath: None,
            algorithm: Algorithm::A256GCM,
        }
    );
}

#[test]
fn empty_request_yields_defaults() {
    assert_eq!(parse_input_params(""), defaults());
}

#[test]
fn default_algorithm_is_gcm() {
    assert_eq!(Algorithm::default(), Algorithm::A256GCM);
}

#[test]
fn all_four_keys_are_read() {
    let params =
        parse_input_params("sample=false::keyid=kbs:///x::keypath=/home/key::algorithm=A256CTR");
    assert_eq!(
        params,
        InputParams {
            sample: false,
            keyid: Some("kbs:///x".to_string()),
            keypath: Some("/home/key".to_string()),
            algorithm: Algorithm::A256CTR,
        }
    );
}

#[test]
fn order_of_fields_does_not_matter() {
    let one = parse_input_params("keyid=k::keypath=/p::sample=true");
    let other = parse_input_params("sample=true::keypath=/p::keyid=k");
    assert_eq!(one, other);
}

#[test]
fn last_occurrence_of_a_key_wins() {
    let params = parse_input_params("keyid=first::sample=true::keyid=second::sample=false");
    assert_eq!(params.keyid, Some("second".to_string()));
    assert!(!params.sample);
}

#[test]
fn unknown_keys_are_ignored() {
    assert_eq!(parse_input_params("colour=blue::size=9"), defaults());
}

#[test]
fn malformed_sample_falls_back_to_false() {
    for request in ["sample=TRUE", "sample=1", "sample=yes", "sample=", "sample= true", "sample"] {
        assert!(!parse_input_params(request).sample, "{}", request);
    }
}

#[test]
fn sample_false_is_false() {
    assert!(!parse_input_params("sample=false").sample);
}

#[test]
fn algorithm_is_read_from_its_own_key() {
    assert_eq!(parse_input_params("algorithm=A256CTR").algorithm, Algorithm::A256CTR);
    assert_eq!(parse_input_params("algorithm=A256GCM").algorithm, Algorithm::A256GCM);
}

#[test]
fn key_path_is_not_taken_for_the_algorithm() {
    let params = parse_input_params("keypath=A256CTR");
    assert_eq!(params.algorithm, Algorithm::A256GCM);
    assert_eq!(params.keypath, Some("A256CTR".to_string()));
}

#[test]
fn malformed_algorithm_falls_back_to_gcm() {
    for request in ["algorithm=a256ctr", "algorithm=AES", "algorithm=", "algorithm=A256CTR "] {
        assert_eq!(parse_input_params(request).algorithm, Algorithm::A256GCM, "{}", request);
    }
}

#[test]
fn field_is_cut_at_its_first_equals_sign() {
    let params = parse_input_params("keyid=a=b=c");
    assert_eq!(params.keyid, Some("a=b=c".to_string()));
}

#[test]
fn field_without_equals_sign_says_nothing() {
    assert_eq!(parse_input_params("keyid::sample"), defaults());
}

#[test]
fn empty_value_is_a_value() {
    let params = parse_input_params("keyid=::keypath=");
    assert_eq!(params.keyid, Some(String::new()));
    assert_eq!(params.keypath, Some(String::new()));
}

#[test]
fn single_colons_stay_in_the_value() {
    let params = parse_input_params("keyid=kbs:///default/key/tag");
    assert_eq!(params.keyid, Some("kbs:///default/key/tag".to_string()));
}

#[test]
fn leftmost_separator_is_taken_from_three_colons() {
    let params = parse_input_params("keypath=/p:::keyid=x");
    assert_eq!(params.keypath, Some("/p".to_string()));
    assert_eq!(params.keyid, None);
}

#[test]
fn four_colons_enclose_an_empty_field() {
    let params = parse_input_params("keypath=/p::::keyid=x");
    assert_eq!(params.keypath, Some("/p".to_string()));
    assert_eq!(params.keyid, Some("x".to_string()));
}

#[test]
fn trailing_separator_is_harmless() {
    let params = parse_input_params("sample=true::");
    assert!(params.sample);
}

#[test]
fn trailing_single_colon_belongs_to_the_value() {
    let params = parse_input_params("keyid=x:");
    assert_eq!(params.keyid, Some("x:".to_string()));
}

#[test]
fn keys_are_matched_exactly() {
    assert_eq!(parse_input_params("Sample=true:: keyid=x::keyid =y"), defaults());
}

#[test]
fn values_beyond_ascii_are_kept() {
    let params = parse_input_params("keyid=schlüssel/鍵::keypath=/tmp/ключ");
    assert_eq!(params.keyid, Some("schlüssel/鍵".to_string()));
    assert_eq!(params.keypath, Some("/tmp/ключ".to_string()));
}

#[test]
fn algorithm_name_is_its_identifier() {
    assert_eq!(Algorithm::A256GCM.as_str(), "A256GCM");
    assert_eq!(Algorithm::A256CTR.as_str(), "A256CTR");
}
