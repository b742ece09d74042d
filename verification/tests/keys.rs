use attestation_agent::enc_mods::crypto::{Algorithm, HARDCODED_KEY};
use attestation_agent::enc_mods::keys::{
    derive_key_parameters, draw_entropy, entropy_from_draws, generate_key_parameters,
    policy_needs_entropy, Entropy,
    KeyMaterial, DEFAULT_KEY_REPO_PATH, HARD_CODED_KEYID,
};
use attestation_agent::enc_mods::params::{parse_input_params, InputParams};
use attestation_agent::error::ErrorKind;

fn fixed_entropy() -> Entropy {
    Entropy {
        key: [0xab; 32],
        iv: [0xcd; 12],
        tag: [70, 235, 208, 238, 14, 109, 67, 201, 185, 13, 204, 195, 90, 145, 63, 62],
    }
}

#[test]
fn sample_mode_is_deterministic() {
    let params = parse_input_params("sample=true");
    let first = generate_key_parameters(&params, None).unwrap();
    let second = generate_key_parameters(&params, None).unwrap();
    assert_eq!(first, second);
    assert_eq!(first.key, HARDCODED_KEY.to_vec());
    assert_eq!(first.iv, vec![0u8; 12]);
    assert_eq!(first.kid, "kbs:///default/test-key/1");
    assert_eq!(first.kid, HARD_CODED_KEYID);
}

#[test]
fn sample_key_is_the_fixed_one() {
    assert_eq!(
        HARDCODED_KEY,
        [
            217, 155, 119, 5, 176, 186, 122, 22, 130, 149, 179, 163, 54, 114, 112, 176, 221, 155,
            55, 27, 245, 20, 202, 139, 155, 167, 240, 163, 55, 17, 218, 234
        ]
    );
}

#[test]
fn sample_mode_ignores_key_path_key_id_and_key_file() {
    let params = parse_input_params("sample=true::keypath=/nowhere::keyid=mine");
    let plain = generate_key_parameters(&parse_input_params("sample=true"), None).unwrap();
    assert_eq!(generate_key_parameters(&params, None).unwrap(), plain);
    assert_eq!(generate_key_parameters(&params, Some(Ok(vec![1, 2]))).unwrap(), plain);
    assert_eq!(generate_key_parameters(&params, Some(Err("gone".to_string()))).unwrap(), plain);
    assert_eq!(derive_key_parameters(&params, None, &fixed_entropy()).unwrap(), plain);
}

#[test]
fn random_mode_has_the_lengths_owed() {
    let material = generate_key_parameters(&parse_input_params(""), None).unwrap();
    assert_eq!(material.key.len(), 32);
    assert_eq!(material.iv.len(), 12);
}

#[test]
fn random_mode_gives_fresh_keys() {
    let params = parse_input_params("");
    let first = generate_key_parameters(&params, None).unwrap();
    let second = generate_key_parameters(&params, None).unwrap();
    assert_ne!(first.key, second.key);
    assert_ne!(first.iv, second.iv);
    assert_ne!(first.kid, second.kid);
    assert_ne!(first.key, vec![0u8; 32]);
}

#[test]
fn generated_key_id_is_under_the_default_namespace() {
    let material = generate_key_parameters(&parse_input_params(""), None).unwrap();
    let tag = material.kid.strip_prefix("default/image-kek/").unwrap();
    assert_eq!(tag.len(), 36);
    assert_eq!(DEFAULT_KEY_REPO_PATH, "default/image-kek");
}

#[test]
fn supplied_key_id_is_kept() {
    let params = parse_input_params("keyid=kbs:///mine/key/1");
    let material = generate_key_parameters(&params, None).unwrap();
    assert_eq!(material.kid, "kbs:///mine/key/1");
    assert_eq!(material.key.len(), 32);
}

#[test]
fn key_from_file_is_taken_as_it_is() {
    let params = parse_input_params("keypath=/home/key");
    let material = generate_key_parameters(&params, Some(Ok(vec![1, 2, 3, 4, 5]))).unwrap();
    assert_eq!(material.key, vec![1, 2, 3, 4, 5]);
    assert_eq!(material.iv.len(), 12);
    assert!(material.kid.starts_with("default/image-kek/"));
}

#[test]
fn key_file_with_key_id() {
    let params = parse_input_params("keypath=/home/key::keyid=kbs:///a/b/c");
    let material = generate_key_parameters(&params, Some(Ok(vec![9; 32]))).unwrap();
    assert_eq!(material.key, vec![9; 32]);
    assert_eq!(material.kid, "kbs:///a/b/c");
}

#[test]
fn unreadable_key_file_is_a_key_material_failure() {
    let params = parse_input_params("keypath=/home/key");
    let err = generate_key_parameters(&params, Some(Err("permission denied".to_string())))
        .unwrap_err();
    assert_eq!(err.kind, ErrorKind::KeyMaterialFailure);
    assert_eq!(err.cause, "permission denied");
}

#[test]
fn key_file_that_was_not_read_is_a_key_material_failure() {
    let params = parse_input_params("keypath=/home/key");
    let err = generate_key_parameters(&params, None).unwrap_err();
    assert_eq!(err.kind, ErrorKind::KeyMaterialFailure);
    assert_eq!(err.cause, "the key file was not read");
}

#[test]
fn key_file_is_not_consulted_without_a_key_path() {
    let material =
        generate_key_parameters(&parse_input_params(""), Some(Err("gone".to_string()))).unwrap();
    assert_eq!(material.key.len(), 32);
}

#[test]
fn key_material_for_given_entropy_in_random_mode() {
    let material = derive_key_parameters(&parse_input_params(""), None, &fixed_entropy()).unwrap();
    assert_eq!(
        material,
        KeyMaterial {
            key: vec![0xab; 32],
            iv: vec![0xcd; 12],
            kid: "default/image-kek/46ebd0ee-0e6d-43c9-b90d-ccc35a913f3e".to_string(),
        }
    );
}

#[test]
fn identifier_tag_has_version_and_variant_set() {
    let mut entropy = fixed_entropy();
    entropy.tag = [0xff; 16];
    let material = derive_key_parameters(&parse_input_params(""), None, &entropy).unwrap();
    assert_eq!(material.kid, "default/image-kek/ffffffff-ffff-4fff-bfff-ffffffffffff");
    entropy.tag = [0; 16];
    let material = derive_key_parameters(&parse_input_params(""), None, &entropy).unwrap();
    assert_eq!(material.kid, "default/image-kek/00000000-0000-4000-8000-000000000000");
}

#[test]
fn key_material_for_given_entropy_in_file_mode() {
    let params = InputParams {
        sample: false,
        keyid: Some("k".to_string()),
        keypath: Some("/p".to_string()),
        algorithm: Algorithm::A256CTR,
    };
    let material = derive_key_parameters(&params, Some(Ok(vec![7; 16])), &fixed_entropy()).unwrap();
    assert_eq!(
        material,
        KeyMaterial { key: vec![7; 16], iv: vec![0xcd; 12], kid: "k".to_string() }
    );
}

#[test]
fn zero_entropy_is_all_zeros() {
    assert_eq!(Entropy::zero(), Entropy { key: [0; 32], iv: [0; 12], tag: [0; 16] });
}

#[test]
fn drawn_entropy_is_fresh() {
    let first = draw_entropy().unwrap();
    let second = draw_entropy().unwrap();
    assert_ne!(first, second);
    assert_ne!(first.key, [0; 32]);
}

#[test]
fn entropy_is_needed_only_where_the_result_depends_on_it() {
    let sample = parse_input_params("sample=true");
    let file = parse_input_params("keypath=/p");
    let random = parse_input_params("");
    assert!(!policy_needs_entropy(&sample, &None));
    assert!(!policy_needs_entropy(&file, &None));
    assert!(!policy_needs_entropy(&file, &Some(Err("gone".to_string()))));
    assert!(policy_needs_entropy(&file, &Some(Ok(vec![1]))));
    assert!(policy_needs_entropy(&random, &None));
}

#[test]
fn entropy_is_the_bytes_drawn() {
    let entropy = entropy_from_draws(Ok([1; 32]), Ok([2; 12]), Ok([3; 16])).unwrap();
    assert_eq!(entropy, Entropy { key: [1; 32], iv: [2; 12], tag: [3; 16] });
}

#[test]
fn one_failed_draw_fails_the_entropy() {
    let outcomes = [
        entropy_from_draws(Err(rand::Error::new("no entropy")), Ok([2; 12]), Ok([3; 16])),
        entropy_from_draws(Ok([1; 32]), Err(rand::Error::new("no entropy")), Ok([3; 16])),
        entropy_from_draws(Ok([1; 32]), Ok([2; 12]), Err(rand::Error::new("no entropy"))),
        entropy_from_draws(
            Err(rand::Error::new("no entropy")),
            Err(rand::Error::new("no entropy")),
            Err(rand::Error::new("no entropy")),
        ),
    ];
    for outcome in outcomes {
        let err = outcome.unwrap_err();
        assert_eq!(err.kind, ErrorKind::KeyMaterialFailure);
        assert_eq!(err.cause, "the entropy source failed");
    }
}
