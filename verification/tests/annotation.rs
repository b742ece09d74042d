use aes_gcm::aead::Aead;
use aes_gcm::{Aes256Gcm, KeyInit, Nonce};
use attestation_agent::enc_mods::crypto::{Algorithm, HARDCODED_KEY};
use attestation_agent::enc_mods::keys::{Entropy, KeyMaterial};
use attestation_agent::enc_mods::params::parse_input_params;
use attestation_agent::enc_mods::{
    annotation_transition, enc_optsdata_gen_anno, AnnotationAction, AnnotationEvent,
    AnnotationPacket, AnnotationState, AnnotationStep, KbsParameter, KBS_RESOURCE_URL_PREFIX,
};
use attestation_agent::error::{AgentError, ErrorKind};
use base64::Engine;

const NO_KBS: KbsParameter = KbsParameter { endpoint: false, signing_key: false };
const KBS: KbsParameter = KbsParameter { endpoint: true, signing_key: true };

/// The collaborators of the builder: a key file, a cipher and a key broker.
struct Driver {
    key_file: Result<Vec<u8>, String>,
    cipher_works: bool,
    broker_accepts: bool,
    log: Vec<String>,
    registered: Vec<(String, Vec<u8>)>,
}

impl Driver {
    fn new() -> Driver {
        Driver {
            key_file: Err("no such file".to_string()),
            cipher_works: true,
            broker_accepts: true,
            log: Vec::new(),
            registered: Vec::new(),
        }
    }

    fn perform(&mut self, action: AnnotationAction) -> AnnotationEvent {
        match action {
            AnnotationAction::ReadKeyFile { path } => {
                self.log.push(format!("read {}", path));
                AnnotationEvent::KeyFileRead(self.key_file.clone())
            }
            AnnotationAction::Encrypt { optsdata, key, iv, algorithm } => {
                self.log.push(format!("encrypt {}", algorithm.as_str()));
                if !self.cipher_works {
                    return AnnotationEvent::Encrypted(Err("cipher broke".to_string()));
                }
                AnnotationEvent::Encrypted(seal(&optsdata, &key, &iv))
            }
            AnnotationAction::RegisterKek { key, kid } => {
                self.log.push(format!("register {}", kid));
                if self.broker_accepts {
                    self.registered.push((kid, key));
                    AnnotationEvent::Registered(Ok(()))
                } else {
                    AnnotationEvent::Registered(Err("403 Forbidden".to_string()))
                }
            }
        }
    }

    fn build(&mut self, kbs: KbsParameter, optsdata: &[u8], request: &str) -> Result<String, AgentError> {
        let mut step = enc_optsdata_gen_anno(
            AnnotationState::Idle { kbs, optsdata: optsdata.to_vec(), request: request.to_string() },
            AnnotationEvent::Start,
        );
        for _ in 0..8 {
            match step {
                AnnotationStep::Finished(annotation) => return annotation,
                AnnotationStep::Continue { state, action } => {
                    let event = self.perform(action);
                    step = enc_optsdata_gen_anno(state, event);
                }
            }
        }
        panic!("the building did not end");
    }
}

fn seal(plaintext: &[u8], key: &[u8], iv: &[u8]) -> Result<Vec<u8>, String> {
    let cipher = Aes256Gcm::new_from_slice(key).map_err(|e| format!("{:?}", e))?;
    if iv.len() != 12 {
        return Err("bad iv".to_string());
    }
    cipher.encrypt(Nonce::from_slice(iv), plaintext).map_err(|e| format!("{:?}", e))
}

fn open(sealed: &[u8], key: &[u8], iv: &[u8]) -> Vec<u8> {
    let cipher = Aes256Gcm::new_from_slice(key).unwrap();
    cipher.decrypt(Nonce::from_slice(iv), sealed).unwrap()
}

fn field(annotation: &str, name: &str) -> String {
    let value: serde_json::Value = serde_json::from_str(annotation).unwrap();
    value[name].as_str().unwrap().to_string()
}

fn decode(text: &str) -> Vec<u8> {
    base64::engine::general_purpose::STANDARD.decode(text).unwrap()
}

#[test]
fn sample_request_end_to_end() {
    let mut driver = Driver::new();
    let annotation = driver.build(NO_KBS, b"hello", "sample=true").unwrap();
    assert_eq!(field(&annotation, "wrap_type"), "A256GCM");
    assert!(field(&annotation, "kid").contains("kbs:///default/test-key/1"));
    assert_eq!(field(&annotation, "kid"), "kbs:///kbs:///default/test-key/1");
    assert_eq!(field(&annotation, "iv"), "AAAAAAAAAAAAAAAA");
    let sealed = decode(&field(&annotation, "wrapped_data"));
    assert_eq!(open(&sealed, &HARDCODED_KEY, &[0u8; 12]), b"hello");
    assert_eq!(driver.log, vec!["encrypt A256GCM"]);
}

#[test]
fn sample_annotation_is_the_same_every_time() {
    let first = Driver::new().build(NO_KBS, b"hello", "sample=true").unwrap();
    let second = Driver::new().build(NO_KBS, b"hello", "sample=true").unwrap();
    assert_eq!(first, second);
}

#[test]
fn failed_registration_yields_no_annotation() {
    let mut driver = Driver::new();
    driver.broker_accepts = false;
    let err = driver.build(KBS, b"hello", "sample=false").unwrap_err();
    assert_eq!(err.kind, ErrorKind::RegistrationFailure);
    assert_eq!(err.cause, "403 Forbidden");
    assert!(driver.registered.is_empty());
}

#[test]
fn registered_key_is_the_one_in_the_annotation() {
    let mut driver = Driver::new();
    let annotation = driver.build(KBS, b"hello", "keyid=kbs:///mine/key/1").unwrap();
    assert_eq!(driver.registered.len(), 1);
    let (kid, key) = driver.registered[0].clone();
    assert_eq!(kid, "kbs:///mine/key/1");
    assert_eq!(field(&annotation, "kid"), "kbs:///kbs:///mine/key/1");
    let sealed = decode(&field(&annotation, "wrapped_data"));
    let iv = decode(&field(&annotation, "iv"));
    assert_eq!(open(&sealed, &key, &iv), b"hello");
    assert_eq!(driver.log, vec!["encrypt A256GCM", "register kbs:///mine/key/1"]);
}

#[test]
fn sample_request_is_never_registered() {
    let mut driver = Driver::new();
    driver.broker_accepts = false;
    let annotation = driver.build(KBS, b"hello", "sample=true");
    assert!(annotation.is_ok());
    assert_eq!(driver.log, vec!["encrypt A256GCM"]);
}

#[test]
fn nothing_is_registered_without_both_endpoint_and_key() {
    for kbs in [
        KbsParameter { endpoint: true, signing_key: false },
        KbsParameter { endpoint: false, signing_key: true },
        NO_KBS,
    ] {
        let mut driver = Driver::new();
        driver.broker_accepts = false;
        assert!(driver.build(kbs, b"hello", "").is_ok());
        assert_eq!(driver.log, vec!["encrypt A256GCM"]);
    }
}

#[test]
fn key_file_is_read_where_the_request_names_one() {
    let mut driver = Driver::new();
    driver.key_file = Ok(vec![3u8; 32]);
    let annotation = driver.build(KBS, b"hello", "keypath=/home/key::keyid=k").unwrap();
    assert_eq!(driver.log, vec!["read /home/key", "encrypt A256GCM", "register k"]);
    assert_eq!(driver.registered[0].1, vec![3u8; 32]);
    let sealed = decode(&field(&annotation, "wrapped_data"));
    let iv = decode(&field(&annotation, "iv"));
    assert_eq!(iv.len(), 12);
    assert_eq!(open(&sealed, &[3u8; 32], &iv), b"hello");
}

#[test]
fn unreadable_key_file_ends_the_building() {
    let mut driver = Driver::new();
    let err = driver.build(KBS, b"hello", "keypath=/home/key").unwrap_err();
    assert_eq!(err.kind, ErrorKind::KeyMaterialFailure);
    assert_eq!(err.cause, "no such file");
    assert_eq!(driver.log, vec!["read /home/key"]);
}

#[test]
fn key_of_the_wrong_length_is_the_ciphers_to_refuse() {
    let mut driver = Driver::new();
    driver.key_file = Ok(vec![3u8; 5]);
    let err = driver.build(NO_KBS, b"hello", "keypath=/home/key").unwrap_err();
    assert_eq!(err.kind, ErrorKind::EncryptionFailure);
}

#[test]
fn failing_cipher_ends_the_building_before_registration() {
    let mut driver = Driver::new();
    driver.cipher_works = false;
    let err = driver.build(KBS, b"hello", "").unwrap_err();
    assert_eq!(err.kind, ErrorKind::EncryptionFailure);
    assert_eq!(err.cause, "cipher broke");
    assert_eq!(driver.log, vec!["encrypt A256GCM"]);
}

#[test]
fn requested_algorithm_reaches_cipher_and_annotation() {
    let step = enc_optsdata_gen_anno(
        AnnotationState::Idle {
            kbs: NO_KBS,
            optsdata: b"data".to_vec(),
            request: "sample=true::algorithm=A256CTR".to_string(),
        },
        AnnotationEvent::Start,
    );
    let state = match step {
        AnnotationStep::Continue {
            state,
            action: AnnotationAction::Encrypt { optsdata, key, iv, algorithm },
        } => {
            assert_eq!(optsdata, b"data");
            assert_eq!(key, HARDCODED_KEY.to_vec());
            assert_eq!(iv, vec![0u8; 12]);
            assert_eq!(algorithm, Algorithm::A256CTR);
            state
        }
        other => panic!("unexpected step {:?}", other),
    };
    match enc_optsdata_gen_anno(state, AnnotationEvent::Encrypted(Ok(vec![1, 2, 3]))) {
        AnnotationStep::Finished(Ok(annotation)) => assert_eq!(
            annotation,
            "{\"kid\":\"kbs:///kbs:///default/test-key/1\",\"wrapped_data\":\"AQID\",\
             \"iv\":\"AAAAAAAAAAAAAAAA\",\"wrap_type\":\"A256CTR\"}"
        ),
        other => panic!("unexpected step {:?}", other),
    }
}

#[test]
fn building_for_given_entropy() {
    let entropy = Entropy {
        key: [0x11; 32],
        iv: [0x22; 12],
        tag: [70, 235, 208, 238, 14, 109, 67, 201, 185, 13, 204, 195, 90, 145, 63, 62],
    };
    let step = annotation_transition(
        AnnotationState::Idle { kbs: KBS, optsdata: b"data".to_vec(), request: String::new() },
        AnnotationEvent::Start,
        &entropy,
    );
    let state = match step {
        AnnotationStep::Continue {
            state,
            action: AnnotationAction::Encrypt { optsdata, key, iv, algorithm },
        } => {
            assert_eq!(optsdata, b"data");
            assert_eq!(key, vec![0x11; 32]);
            assert_eq!(iv, vec![0x22; 12]);
            assert_eq!(algorithm, Algorithm::A256GCM);
            state
        }
        other => panic!("unexpected step {:?}", other),
    };
    let step = annotation_transition(state, AnnotationEvent::Encrypted(Ok(vec![0xff])), &entropy);
    let state = match step {
        AnnotationStep::Continue { state, action: AnnotationAction::RegisterKek { key, kid } } => {
            assert_eq!(key, vec![0x11; 32]);
            assert_eq!(kid, "default/image-kek/46ebd0ee-0e6d-43c9-b90d-ccc35a913f3e");
            state
        }
        other => panic!("unexpected step {:?}", other),
    };
    match annotation_transition(state, AnnotationEvent::Registered(Ok(())), &entropy) {
        AnnotationStep::Finished(Ok(annotation)) => assert_eq!(
            annotation,
            "{\"kid\":\"kbs:///default/image-kek/46ebd0ee-0e6d-43c9-b90d-ccc35a913f3e\",\
             \"wrapped_data\":\"/w==\",\"iv\":\"IiIiIiIiIiIiIiIi\",\"wrap_type\":\"A256GCM\"}"
        ),
        other => panic!("unexpected step {:?}", other),
    }
}

#[test]
fn idle_builder_starts_whatever_the_event() {
    let step = enc_optsdata_gen_anno(
        AnnotationState::Idle {
            kbs: NO_KBS,
            optsdata: Vec::new(),
            request: "keypath=/k".to_string(),
        },
        AnnotationEvent::Registered(Ok(())),
    );
    match step {
        AnnotationStep::Continue {
            state: AnnotationState::ReadingKey { .. },
            action: AnnotationAction::ReadKeyFile { path },
        } => assert_eq!(path, "/k"),
        other => panic!("unexpected step {:?}", other),
    }
}

fn encrypting(kbs: KbsParameter, sample: bool) -> AnnotationState {
    AnnotationState::Encrypting {
        kbs,
        sample,
        material: KeyMaterial { key: vec![1; 32], iv: vec![0; 12], kid: "k".to_string() },
        algorithm: Algorithm::A256GCM,
    }
}

#[test]
fn report_out_of_turn_while_encrypting_is_an_encryption_failure() {
    match enc_optsdata_gen_anno(encrypting(KBS, false), AnnotationEvent::Registered(Ok(()))) {
        AnnotationStep::Finished(Err(err)) => {
            assert_eq!(err.kind, ErrorKind::EncryptionFailure);
            assert_eq!(err.cause, "the cipher did not report");
        }
        other => panic!("unexpected step {:?}", other),
    }
}

#[test]
fn report_out_of_turn_while_registering_is_a_registration_failure() {
    let packet = AnnotationPacket::new("k", &[1], &[0; 12], Algorithm::A256GCM).unwrap();
    let state = AnnotationState::Registering { packet };
    match enc_optsdata_gen_anno(state, AnnotationEvent::Encrypted(Ok(vec![1]))) {
        AnnotationStep::Finished(Err(err)) => {
            assert_eq!(err.kind, ErrorKind::RegistrationFailure);
            assert_eq!(err.cause, "the registration was not reported");
        }
        other => panic!("unexpected step {:?}", other),
    }
}

#[test]
fn report_out_of_turn_while_reading_the_key_is_a_key_material_failure() {
    let state = AnnotationState::ReadingKey {
        kbs: NO_KBS,
        optsdata: Vec::new(),
        params: parse_input_params("keypath=/k"),
    };
    match enc_optsdata_gen_anno(state, AnnotationEvent::Start) {
        AnnotationStep::Finished(Err(err)) => {
            assert_eq!(err.kind, ErrorKind::KeyMaterialFailure);
            assert_eq!(err.cause, "the key file was not read");
        }
        other => panic!("unexpected step {:?}", other),
    }
}

#[test]
fn packet_fields_are_encoded() {
    let packet =
        AnnotationPacket::new("default/key/1", &[1, 2, 3], &[0; 12], Algorithm::A256GCM).unwrap();
    assert_eq!(
        packet,
        AnnotationPacket {
            kid: "kbs:///default/key/1".to_string(),
            wrapped_data: "AQID".to_string(),
            iv: "AAAAAAAAAAAAAAAA".to_string(),
            wrap_type: "A256GCM".to_string(),
        }
    );
    assert_eq!(KBS_RESOURCE_URL_PREFIX, "kbs://");
}

#[test]
fn packet_of_empty_data() {
    let packet = AnnotationPacket::new("", &[], &[], Algorithm::A256CTR).unwrap();
    assert_eq!(packet.kid, "kbs:///");
    assert_eq!(packet.wrapped_data, "");
    assert_eq!(packet.iv, "");
    assert_eq!(packet.wrap_type, "A256CTR");
}

#[test]
fn packet_json_has_the_fields_in_order() {
    let packet = AnnotationPacket {
        kid: "kbs:///k".to_string(),
        wrapped_data: "AQID".to_string(),
        iv: "AAAA".to_string(),
        wrap_type: "A256GCM".to_string(),
    };
    assert_eq!(
        packet.to_json().unwrap(),
        "{\"kid\":\"kbs:///k\",\"wrapped_data\":\"AQID\",\"iv\":\"AAAA\",\"wrap_type\":\"A256GCM\"}"
    );
}

#[test]
fn packet_json_escapes_what_json_asks_for() {
    let packet = AnnotationPacket {
        kid: "a\"b\\c\nd\u{1}é".to_string(),
        wrapped_data: String::new(),
        iv: String::new(),
        wrap_type: String::new(),
    };
    assert_eq!(
        packet.to_json().unwrap(),
        "{\"kid\":\"a\\\"b\\\\c\\nd\\u0001é\",\"wrapped_data\":\"\",\"iv\":\"\",\"wrap_type\":\"\"}"
    );
}

#[test]
fn packet_round_trips_through_json() {
    let packet = AnnotationPacket {
        kid: "kbs:///a \"quoted\" \\ key\t\n\u{7f}\u{0}/鍵".to_string(),
        wrapped_data: "q83vEjRWeJA=".to_string(),
        iv: "AAAAAAAAAAAAAAAA".to_string(),
        wrap_type: "A256GCM".to_string(),
    };
    let text = packet.to_json().unwrap();
    let value: serde_json::Value = serde_json::from_str(&text).unwrap();
    let members = value.as_object().unwrap();
    assert_eq!(members.len(), 4);
    let read = AnnotationPacket {
        kid: members["kid"].as_str().unwrap().to_string(),
        wrapped_data: members["wrapped_data"].as_str().unwrap().to_string(),
        iv: members["iv"].as_str().unwrap().to_string(),
        wrap_type: members["wrap_type"].as_str().unwrap().to_string(),
    };
    assert_eq!(read, packet);
}

#[test]
fn packet_json_is_what_the_json_crate_writes_for_the_same_members() {
    let packet =
        AnnotationPacket::new("k", &[9, 8, 7, 6], &[5; 12], Algorithm::A256GCM).unwrap();
    let mut members = serde_json::Map::new();
    members.insert("kid".to_string(), serde_json::Value::String(packet.kid.clone()));
    members.insert(
        "wrapped_data".to_string(),
        serde_json::Value::String(packet.wrapped_data.clone()),
    );
    members.insert("iv".to_string(), serde_json::Value::String(packet.iv.clone()));
    members.insert("wrap_type".to_string(), serde_json::Value::String(packet.wrap_type.clone()));
    let parsed: serde_json::Value = serde_json::from_str(&packet.to_json().unwrap()).unwrap();
    assert_eq!(parsed, serde_json::Value::Object(members));
}
