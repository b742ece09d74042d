//! The key provider's encryption side: from a request string to the
//! annotation that a decrypting party later finds in an image layer.
//!
//! Building an annotation takes work that is not the library's: reading a
//! key file, the cipher, and registering the key with a key broker. The
//! builder decides what is to be done and in which order; the driver does
//! it, one action at a time, and reports back.

use vstd::prelude::*;
use vstd::slice::slice_to_vec;
use vstd::string::*;
use crate::enc_mods::crypto::Algorithm;
use crate::enc_mods::keys::{
    derive_key_parameters,
    draw_entropy,
    key_file_view,
    key_parameters,
    material_view,
    needs_entropy,
    no_entropy,
    entropy_unavailable,
    sample_key_material,
    policy_needs_entropy,
    Entropy,
    EntropyView,
    KeyFile,
    KeyMaterial,
    KeyMaterialView,
};
use crate::enc_mods::params::{parse_input_params, parsed_params, InputParams, InputParamsView};
use crate::encoding::{
    base64_fits,
    base64_standard,
    encode_base64,
    json_object,
    json_record,
    members_view,
};
use crate::error::{AgentError, ErrorKind, ErrorView};

pub mod crypto;
pub mod keys;
pub mod params;

verus! {

/// The scheme that the key identifier of an annotation is put under.
pub const KBS_RESOURCE_URL_PREFIX: &'static str = "kbs://";

/// What the annotation of an encrypted image layer holds. The names of the
/// fields and the encodings of their values are fixed: other tools read them.
#[derive(Clone, Debug, PartialEq, Eq)]
pub struct AnnotationPacket {
    /// Key identifier, to manage multiple keys.
    pub kid: String,
    /// The encrypted data, in base64.
    pub wrapped_data: String,
    /// The initialisation vector, in base64.
    pub iv: String,
    /// The encryption algorithm and mode.
    pub wrap_type: String,
}

/// Mathematical value of an [`AnnotationPacket`].
pub struct AnnotationPacketView {
    pub kid: Seq<char>,
    pub wrapped_data: Seq<char>,
    pub iv: Seq<char>,
    pub wrap_type: Seq<char>,
}

impl View for AnnotationPacket {
    type V = AnnotationPacketView;

    open spec fn view(&self) -> AnnotationPacketView {
        AnnotationPacketView {
            kid: self.kid@,
            wrapped_data: self.wrapped_data@,
            iv: self.iv@,
            wrap_type: self.wrap_type@,
        }
    }
}

/// The JSON text of an annotation: one object with the four fields in the
/// order of their declaration.
pub open spec fn packet_json(packet: AnnotationPacketView) -> Seq<char> {
    json_object(
        seq![
            ("kid"@, packet.kid),
            ("wrapped_data"@, packet.wrapped_data),
            ("iv"@, packet.iv),
            ("wrap_type"@, packet.wrap_type),
        ],
    )
}

/// The failure for data too long to encode.
pub open spec fn annotation_not_encodable() -> ErrorView {
    ErrorView { kind: ErrorKind::SerializationFailure, cause: "Serialize annotation failed"@ }
}

/// The annotation for encrypted data: the key identifier under the broker's
/// resource scheme, the data and the initialisation vector in base64, and
/// the algorithm's identifier.
pub open spec fn annotation_packet(
    kid: Seq<char>,
    encrypted: Seq<u8>,
    iv: Seq<u8>,
    algorithm: Algorithm,
) -> Result<AnnotationPacketView, ErrorView> {
    if base64_fits(encrypted.len()) && base64_fits(iv.len()) {
        Ok(
            AnnotationPacketView {
                kid: "kbs://"@ + "/"@ + kid,
                wrapped_data: base64_standard(encrypted),
                iv: base64_standard(iv),
                wrap_type: algorithm.name(),
            },
        )
    } else {
        Err(annotation_not_encodable())
    }
}

/// Mathematical value of an annotation or the failure to make it.
pub open spec fn packet_view(packet: Result<AnnotationPacket, AgentError>) -> Result<
    AnnotationPacketView,
    ErrorView,
> {
    match packet {
        Ok(p) => Ok(p@),
        Err(e) => Err(e@),
    }
}

impl AnnotationPacket {
    /// The annotation for data encrypted under the key `kid` with `iv`.
    pub fn new(kid: &str, encrypted: &[u8], iv: &[u8], algorithm: Algorithm) -> (packet: Result<
        AnnotationPacket,
        AgentError,
    >)
        ensures
            packet_view(packet) == annotation_packet(kid@, encrypted@, iv@, algorithm),
    {
        match (encode_base64(encrypted), encode_base64(iv)) {
            (Some(wrapped_data), Some(iv)) => {
                let mut prefixed = KBS_RESOURCE_URL_PREFIX.to_owned();
                prefixed.append("/");
                prefixed.append(kid);
                Ok(
                    AnnotationPacket {
                        kid: prefixed,
                        wrapped_data,
                        iv,
                        wrap_type: algorithm.as_str().to_owned(),
                    },
                )
            },
            _ => Err(not_serialized()),
        }
    }

    /// The annotation as JSON text. Text can be written for every annotation.
    pub fn to_json(&self) -> (text: Result<String, AgentError>)
        ensures
            annotation_view(text) == Ok::<Seq<char>, ErrorView>(packet_json(self@)),
    {
        let mut members: Vec<(String, String)> = Vec::new();
        members.push((String::from_str("kid"), self.kid.clone()));
        members.push((String::from_str("wrapped_data"), self.wrapped_data.clone()));
        members.push((String::from_str("iv"), self.iv.clone()));
        members.push((String::from_str("wrap_type"), self.wrap_type.clone()));
        assert(members_view(members@) == seq![
            ("kid"@, self.kid@),
            ("wrapped_data"@, self.wrapped_data@),
            ("iv"@, self.iv@),
            ("wrap_type"@, self.wrap_type@),
        ]);
        match json_record(&members) {
            Ok(text) => Ok(text),
            Err(_) => Err(not_serialized()),
        }
    }
}

/// The failure to encode an annotation.
fn not_serialized() -> (e: AgentError)
    ensures
        e@ == annotation_not_encodable(),
{
    AgentError::with_message(ErrorKind::SerializationFailure, "Serialize annotation failed")
}

/// Which parts of a key broker registration the caller supplied. The key is
/// registered only where both are there.
#[derive(Clone, Copy, Debug, PartialEq, Eq, Structural)]
pub struct KbsParameter {
    /// The broker's address.
    pub endpoint: bool,
    /// The key that signs the registration.
    pub signing_key: bool,
}

impl KbsParameter {
    /// Whether a registration can be made.
    pub open spec fn complete(self) -> bool {
        self.endpoint && self.signing_key
    }
}

/// Where the building of an annotation stands.
#[derive(Debug)]
pub enum AnnotationState {
    /// Nothing was done yet.
    Idle { kbs: KbsParameter, optsdata: Vec<u8>, request: String },
    /// The key file is being read.
    ReadingKey { kbs: KbsParameter, optsdata: Vec<u8>, params: InputParams },
    /// The data is being encrypted.
    Encrypting { kbs: KbsParameter, sample: bool, material: KeyMaterial, algorithm: Algorithm },
    /// The key is being registered with the broker.
    Registering { packet: AnnotationPacket },
}

/// What the driver reports back after an action.
#[derive(Debug)]
pub enum AnnotationEvent {
    /// The building is to begin.
    Start,
    /// The key file was read, or could not be.
    KeyFileRead(Result<Vec<u8>, String>),
    /// The cipher returned the encrypted data, or failed.
    Encrypted(Result<Vec<u8>, String>),
    /// The broker took the key, or registration failed.
    Registered(Result<(), String>),
}

/// What the driver is to do next.
#[derive(Debug)]
pub enum AnnotationAction {
    /// Read the key from the file at `path`.
    ReadKeyFile { path: String },
    /// Encrypt `optsdata` under `key` and `iv` with `algorithm`.
    Encrypt { optsdata: Vec<u8>, key: Vec<u8>, iv: Vec<u8>, algorithm: Algorithm },
    /// Register `key` with the broker under `kid`.
    RegisterKek { key: Vec<u8>, kid: String },
}

/// The result of one step of the building.
#[derive(Debug)]
pub enum AnnotationStep {
    /// The driver performs `action` and reports back to `state`.
    Continue { state: AnnotationState, action: AnnotationAction },
    /// The building is over: the annotation as JSON text, or the failure.
    Finished(Result<String, AgentError>),
}

/// Mathematical value of an [`AnnotationState`].
pub enum AnnotationStateView {
    Idle { kbs: KbsParameter, optsdata: Seq<u8>, request: Seq<char> },
    ReadingKey { kbs: KbsParameter, optsdata: Seq<u8>, params: InputParamsView },
    Encrypting { kbs: KbsParameter, sample: bool, material: KeyMaterialView, algorithm: Algorithm },
    Registering { packet: AnnotationPacketView },
}

/// Mathematical value of an [`AnnotationEvent`].
pub enum AnnotationEventView {
    Start,
    KeyFileRead(Result<Seq<u8>, Seq<char>>),
    Encrypted(Result<Seq<u8>, Seq<char>>),
    Registered(Result<(), Seq<char>>),
}

/// Mathematical value of an [`AnnotationAction`].
pub enum AnnotationActionView {
    ReadKeyFile { path: Seq<char> },
    Encrypt { optsdata: Seq<u8>, key: Seq<u8>, iv: Seq<u8>, algorithm: Algorithm },
    RegisterKek { key: Seq<u8>, kid: Seq<char> },
}

/// Mathematical value of an [`AnnotationStep`].
pub enum AnnotationStepView {
    Continue { state: AnnotationStateView, action: AnnotationActionView },
    Finished(Result<Seq<char>, ErrorView>),
}

/// Mathematical value of bytes or the cause for which there are none.
pub open spec fn bytes_view(outcome: Result<Vec<u8>, String>) -> Result<Seq<u8>, Seq<char>> {
    match outcome {
        Ok(bytes) => Ok(bytes@),
        Err(cause) => Err(cause@),
    }
}

/// Mathematical value of what a registration came to.
pub open spec fn registration_view(outcome: Result<(), String>) -> Result<(), Seq<char>> {
    match outcome {
        Ok(done) => Ok(done),
        Err(cause) => Err(cause@),
    }
}

/// Mathematical value of an annotation's text or the failure to build it.
pub open spec fn annotation_view(annotation: Result<String, AgentError>) -> Result<
    Seq<char>,
    ErrorView,
> {
    match annotation {
        Ok(text) => Ok(text@),
        Err(e) => Err(e@),
    }
}

impl View for AnnotationState {
    type V = AnnotationStateView;

    open spec fn view(&self) -> AnnotationStateView {
        match *self {
            AnnotationState::Idle { kbs, optsdata, request } => AnnotationStateView::Idle {
                kbs,
                optsdata: optsdata@,
                request: request@,
            },
            AnnotationState::ReadingKey {
                kbs,
                optsdata,
                params,
            } => AnnotationStateView::ReadingKey { kbs, optsdata: optsdata@, params: params@ },
            AnnotationState::Encrypting {
                kbs,
                sample,
                material,
                algorithm,
            } => AnnotationStateView::Encrypting { kbs, sample, material: material@, algorithm },
            AnnotationState::Registering { packet } => AnnotationStateView::Registering {
                packet: packet@,
            },
        }
    }
}

impl View for AnnotationEvent {
    type V = AnnotationEventView;

    open spec fn view(&self) -> AnnotationEventView {
        match *self {
            AnnotationEvent::Start => AnnotationEventView::Start,
            AnnotationEvent::KeyFileRead(outcome) => AnnotationEventView::KeyFileRead(
                bytes_view(outcome),
            ),
            AnnotationEvent::Encrypted(outcome) => AnnotationEventView::Encrypted(
                bytes_view(outcome),
            ),
            AnnotationEvent::Registered(outcome) => AnnotationEventView::Registered(
                registration_view(outcome),
            ),
        }
    }
}

impl View for AnnotationAction {
    type V = AnnotationActionView;

    open spec fn view(&self) -> AnnotationActionView {
        match *self {
            AnnotationAction::ReadKeyFile { path } => AnnotationActionView::ReadKeyFile {
                path: path@,
            },
            AnnotationAction::Encrypt {
                optsdata,
                key,
                iv,
                algorithm,
            } => AnnotationActionView::Encrypt { optsdata: optsdata@, key: key@, iv: iv@, algorithm },
            AnnotationAction::RegisterKek { key, kid } => AnnotationActionView::RegisterKek {
                key: key@,
                kid: kid@,
            },
        }
    }
}

impl View for AnnotationStep {
    type V = AnnotationStepView;

    open spec fn view(&self) -> AnnotationStepView {
        match *self {
            AnnotationStep::Continue { state, action } => AnnotationStepView::Continue {
                state: state@,
                action: action@,
            },
            AnnotationStep::Finished(annotation) => AnnotationStepView::Finished(
                annotation_view(annotation),
            ),
        }
    }
}

/// Whether a policy takes its key from a file.
pub open spec fn reads_key_file(params: InputParamsView) -> bool {
    !params.sample && params.keypath is Some
}

/// What the driver reports of the key file, where its report is about that.
pub open spec fn key_file_of(event: AnnotationEventView) -> Option<Result<Seq<u8>, Seq<char>>> {
    match event {
        AnnotationEventView::KeyFileRead(outcome) => Some(outcome),
        _ => None,
    }
}

/// The step that follows the generation of key material: the data goes to
/// the cipher under the key and the initialisation vector generated, or
/// the building ends with the failure to generate them.
pub open spec fn begin_encryption(
    kbs: KbsParameter,
    optsdata: Seq<u8>,
    params: InputParamsView,
    material: Result<KeyMaterialView, ErrorView>,
) -> AnnotationStepView {
    match material {
        Ok(m) => AnnotationStepView::Continue {
            state: AnnotationStateView::Encrypting {
                kbs,
                sample: params.sample,
                material: m,
                algorithm: params.algorithm,
            },
            action: AnnotationActionView::Encrypt {
                optsdata,
                key: m.key,
                iv: m.iv,
                algorithm: params.algorithm,
            },
        },
        Err(e) => AnnotationStepView::Finished(Err(e)),
    }
}

/// Whether the key is to be registered: a registration can be made and the
/// request is not for the sample key provider, whose key no broker gates.
pub open spec fn registers_key(kbs: KbsParameter, sample: bool) -> bool {
    kbs.complete() && !sample
}

/// The step that follows encryption: the key goes to the broker where it is
/// to be registered, and else the annotation is handed out.
pub open spec fn after_encryption(
    kbs: KbsParameter,
    sample: bool,
    material: KeyMaterialView,
    algorithm: Algorithm,
    encrypted: Seq<u8>,
) -> AnnotationStepView {
    match annotation_packet(material.kid, encrypted, material.iv, algorithm) {
        Ok(packet) => if registers_key(kbs, sample) {
            AnnotationStepView::Continue {
                state: AnnotationStateView::Registering { packet },
                action: AnnotationActionView::RegisterKek { key: material.key, kid: material.kid },
            }
        } else {
            AnnotationStepView::Finished(Ok(packet_json(packet)))
        },
        Err(e) => AnnotationStepView::Finished(Err(e)),
    }
}

/// The failure for a report other than that of the cipher while the
/// encrypted data was awaited.
pub open spec fn encryption_unreported() -> ErrorView {
    ErrorView { kind: ErrorKind::EncryptionFailure, cause: "the cipher did not report"@ }
}

/// The failure for a report other than that of the registration while it
/// was awaited.
pub open spec fn registration_unreported() -> ErrorView {
    ErrorView { kind: ErrorKind::RegistrationFailure, cause: "the registration was not reported"@ }
}

/// The transitions of the building, for the entropy given.
///
/// The request is read and key material generated, after the key file was
/// read where the policy asks for it; the data is encrypted; the key is
/// registered where that is asked for; then the annotation is handed out.
/// Every failure ends the building at once, with no annotation.
pub open spec fn annotation_step(
    state: AnnotationStateView,
    event: AnnotationEventView,
    entropy: EntropyView,
) -> AnnotationStepView {
    match state {
        AnnotationStateView::Idle { kbs, optsdata, request } => {
            let params = parsed_params(request);
            if reads_key_file(params) {
                AnnotationStepView::Continue {
                    state: AnnotationStateView::ReadingKey { kbs, optsdata, params },
                    action: AnnotationActionView::ReadKeyFile { path: params.keypath->0 },
                }
            } else {
                begin_encryption(kbs, optsdata, params, key_parameters(params, None, entropy))
            }
        },
        AnnotationStateView::ReadingKey { kbs, optsdata, params } => begin_encryption(
            kbs,
            optsdata,
            params,
            key_parameters(params, key_file_of(event), entropy),
        ),
        AnnotationStateView::Encrypting { kbs, sample, material, algorithm } => match event {
            AnnotationEventView::Encrypted(Ok(encrypted)) => after_encryption(
                kbs,
                sample,
                material,
                algorithm,
                encrypted,
            ),
            AnnotationEventView::Encrypted(Err(cause)) => AnnotationStepView::Finished(
                Err(ErrorView { kind: ErrorKind::EncryptionFailure, cause }),
            ),
            _ => AnnotationStepView::Finished(Err(encryption_unreported())),
        },
        AnnotationStateView::Registering { packet } => match event {
            AnnotationEventView::Registered(Ok(_)) => AnnotationStepView::Finished(
                Ok(packet_json(packet)),
            ),
            AnnotationEventView::Registered(Err(cause)) => AnnotationStepView::Finished(
                Err(ErrorView { kind: ErrorKind::RegistrationFailure, cause }),
            ),
            _ => AnnotationStepView::Finished(Err(registration_unreported())),
        },
    }
}

/// Whether a step depends on the entropy drawn: only a step that generates
/// key material can.
pub open spec fn step_needs_entropy(state: AnnotationStateView, event: AnnotationEventView) -> bool {
    match state {
        AnnotationStateView::Idle { kbs, optsdata, request } => {
            let params = parsed_params(request);
            !reads_key_file(params) && needs_entropy(params, None)
        },
        AnnotationStateView::ReadingKey { kbs, optsdata, params } => needs_entropy(
            params,
            key_file_of(event),
        ),
        _ => false,
    }
}

/// What a step may come to: where it needs no entropy, the one step that
/// the transitions determine; where it needs some, the step for some
/// entropy, or the end of the building on the failure of the entropy source.
pub open spec fn annotation_step_allowed(
    state: AnnotationStateView,
    event: AnnotationEventView,
    step: AnnotationStepView,
) -> bool {
    if step_needs_entropy(state, event) {
        step == AnnotationStepView::Finished(Err(entropy_unavailable())) || exists|
            entropy: EntropyView,
        |
            entropy.wf() && step == #[trigger] annotation_step(state, event, entropy)
    } else {
        step == annotation_step(state, event, no_entropy())
    }
}

/// Hands the data to the cipher under the key material generated.
fn encrypt_with(
    kbs: KbsParameter,
    optsdata: Vec<u8>,
    params: &InputParams,
    material: Result<KeyMaterial, AgentError>,
) -> (step: AnnotationStep)
    ensures
        step@ == begin_encryption(kbs, optsdata@, params@, material_view(material)),
{
    match material {
        Ok(material) => {
            let key = slice_to_vec(material.key.as_slice());
            let iv = slice_to_vec(material.iv.as_slice());
            AnnotationStep::Continue {
                state: AnnotationState::Encrypting {
                    kbs,
                    sample: params.sample,
                    material,
                    algorithm: params.algorithm,
                },
                action: AnnotationAction::Encrypt {
                    optsdata,
                    key,
                    iv,
                    algorithm: params.algorithm,
                },
            }
        },
        Err(e) => AnnotationStep::Finished(Err(e)),
    }
}

/// Takes the report of the cipher.
fn encrypted(
    kbs: KbsParameter,
    sample: bool,
    material: KeyMaterial,
    algorithm: Algorithm,
    event: AnnotationEvent,
) -> (step: AnnotationStep)
    ensures
        step@ == annotation_step(
            AnnotationStateView::Encrypting { kbs, sample, material: material@, algorithm },
            event@,
            no_entropy(),
        ),
{
    match event {
        AnnotationEvent::Encrypted(Ok(data)) => {
            match AnnotationPacket::new(
                material.kid.as_str(),
                data.as_slice(),
                material.iv.as_slice(),
                algorithm,
            ) {
                Ok(packet) => {
                    if kbs.endpoint && kbs.signing_key && !sample {
                        AnnotationStep::Continue {
                            state: AnnotationState::Registering { packet },
                            action: AnnotationAction::RegisterKek {
                                key: material.key,
                                kid: material.kid,
                            },
                        }
                    } else {
                        AnnotationStep::Finished(packet.to_json())
                    }
                },
                Err(e) => AnnotationStep::Finished(Err(e)),
            }
        },
        AnnotationEvent::Encrypted(Err(cause)) => AnnotationStep::Finished(
            Err(AgentError::new(ErrorKind::EncryptionFailure, cause)),
        ),
        _ => AnnotationStep::Finished(
            Err(
                AgentError::with_message(ErrorKind::EncryptionFailure, "the cipher did not report"),
            ),
        ),
    }
}

/// Takes the report of the registration.
fn registered(packet: AnnotationPacket, event: AnnotationEvent) -> (step: AnnotationStep)
    ensures
        step@ == annotation_step(
            AnnotationStateView::Registering { packet: packet@ },
            event@,
            no_entropy(),
        ),
{
    match event {
        AnnotationEvent::Registered(Ok(_)) => AnnotationStep::Finished(packet.to_json()),
        AnnotationEvent::Registered(Err(cause)) => AnnotationStep::Finished(
            Err(AgentError::new(ErrorKind::RegistrationFailure, cause)),
        ),
        _ => AnnotationStep::Finished(
            Err(
                AgentError::with_message(
                    ErrorKind::RegistrationFailure,
                    "the registration was not reported",
                ),
            ),
        ),
    }
}

/// What the driver reports of the key file, where its report is about that.
fn key_file_in(event: AnnotationEvent) -> (key_file: KeyFile)
    ensures
        key_file_view(key_file) == key_file_of(event@),
{
    match event {
        AnnotationEvent::KeyFileRead(Ok(key)) => Some(Ok(key)),
        AnnotationEvent::KeyFileRead(Err(cause)) => Some(Err(cause)),
        _ => None,
    }
}

/// One step of the building of an annotation, for the entropy given: from
/// where the building stands and what the driver reports, to what the
/// driver does next or to the annotation.
pub fn annotation_transition(
    state: AnnotationState,
    event: AnnotationEvent,
    entropy: &Entropy,
) -> (step: AnnotationStep)
    ensures
        step@ == annotation_step(state@, event@, entropy@),
{
    match state {
        AnnotationState::Idle { kbs, optsdata, request } => {
            let params = parse_input_params(request.as_str());
            match (params.sample, &params.keypath) {
                (false, Some(path)) => {
                    let path = path.clone();
                    AnnotationStep::Continue {
                        state: AnnotationState::ReadingKey { kbs, optsdata, params },
                        action: AnnotationAction::ReadKeyFile { path },
                    }
                },
                _ => {
                    let material = derive_key_parameters(&params, None, entropy);
                    encrypt_with(kbs, optsdata, &params, material)
                },
            }
        },
        AnnotationState::ReadingKey { kbs, optsdata, params } => {
            let material = derive_key_parameters(&params, key_file_in(event), entropy);
            encrypt_with(kbs, optsdata, &params, material)
        },
        AnnotationState::Encrypting { kbs, sample, material, algorithm } => encrypted(
            kbs,
            sample,
            material,
            algorithm,
            event,
        ),
        AnnotationState::Registering { packet } => registered(packet, event),
    }
}

/// One step of the building of an annotation: from where the building
/// stands and what the driver reports, to what the driver does next or to
/// the annotation.
///
/// A building starts in `Idle` with the caller's data and request; the
/// event handed to an idle builder is not looked at. Entropy is drawn from
/// the operating system in the step that generates key material, and only
/// where that material depends on it.
pub fn enc_optsdata_gen_anno(state: AnnotationState, event: AnnotationEvent) -> (step:
    AnnotationStep)
    ensures
        annotation_step_allowed(state@, event@, step@),
{
    let ghost before = state@;
    let ghost report = event@;
    let step = match state {
        AnnotationState::Idle { kbs, optsdata, request } => {
            let params = parse_input_params(request.as_str());
            match (params.sample, &params.keypath) {
                (false, Some(path)) => {
                    let path = path.clone();
                    AnnotationStep::Continue {
                        state: AnnotationState::ReadingKey { kbs, optsdata, params },
                        action: AnnotationAction::ReadKeyFile { path },
                    }
                },
                _ => generate_and_encrypt(kbs, optsdata, &params, None),
            }
        },
        AnnotationState::ReadingKey { kbs, optsdata, params } => generate_and_encrypt(
            kbs,
            optsdata,
            &params,
            key_file_in(event),
        ),
        AnnotationState::Encrypting { kbs, sample, material, algorithm } => encrypted(
            kbs,
            sample,
            material,
            algorithm,
            event,
        ),
        AnnotationState::Registering { packet } => registered(packet, event),
    };
    proof {
        if step_needs_entropy(before, report) && step@ != AnnotationStepView::Finished(
            Err(entropy_unavailable()),
        ) {
            let (kbs, optsdata, params, key_file) = generation_of(before, report);
            let entropy = choose|entropy: EntropyView|
                entropy.wf() && step@ == begin_encryption(
                    kbs,
                    optsdata,
                    params,
                    #[trigger] key_parameters(params, key_file, entropy),
                );
            assert(step@ == annotation_step(before, report, entropy));
        }
    }
    step
}

/// What a step that generates key material works on.
spec fn generation_of(state: AnnotationStateView, event: AnnotationEventView) -> (
    KbsParameter,
    Seq<u8>,
    InputParamsView,
    Option<Result<Seq<u8>, Seq<char>>>,
) {
    match state {
        AnnotationStateView::Idle { kbs, optsdata, request } => (
            kbs,
            optsdata,
            parsed_params(request),
            None,
        ),
        AnnotationStateView::ReadingKey { kbs, optsdata, params } => (
            kbs,
            optsdata,
            params,
            key_file_of(event),
        ),
        _ => arbitrary(),
    }
}

/// Generates key material, drawing the entropy it needs, and hands the data
/// to the cipher.
fn generate_and_encrypt(
    kbs: KbsParameter,
    optsdata: Vec<u8>,
    params: &InputParams,
    key_file: KeyFile,
) -> (step: AnnotationStep)
    ensures
        needs_entropy(params@, key_file_view(key_file)) ==> (step@ == AnnotationStepView::Finished(
            Err(entropy_unavailable()),
        ) || exists|entropy: EntropyView|
            entropy.wf() && step@ == begin_encryption(
                kbs,
                optsdata@,
                params@,
                #[trigger] key_parameters(params@, key_file_view(key_file), entropy),
            )),
        !needs_entropy(params@, key_file_view(key_file)) ==> step@ == begin_encryption(
            kbs,
            optsdata@,
            params@,
            key_parameters(params@, key_file_view(key_file), no_entropy()),
        ),
{
    if !policy_needs_entropy(params, &key_file) {
        let material = derive_key_parameters(params, key_file, &Entropy::zero());
        return encrypt_with(kbs, optsdata, params, material);
    }
    match draw_entropy() {
        Ok(entropy) => {
            proof {
                vstd::array::array_len_matches_n(&entropy.key);
                vstd::array::array_len_matches_n(&entropy.iv);
                vstd::array::array_len_matches_n(&entropy.tag);
                assert(entropy@.wf());
            }
            let material = derive_key_parameters(params, key_file, &entropy);
            encrypt_with(kbs, optsdata, params, material)
        },
        Err(e) => AnnotationStep::Finished(Err(e)),
    }
}

/// Where the building stands after the driver's reports, taken in turn
/// from `state` until the building is over.
pub open spec fn annotation_run(
    state: AnnotationStateView,
    reports: Seq<AnnotationEventView>,
    entropy: EntropyView,
) -> AnnotationStepView
    recommends
        reports.len() > 0,
    decreases reports.len(),
{
    let step = annotation_step(state, reports[0], entropy);
    if reports.len() <= 1 {
        step
    } else {
        match step {
            AnnotationStepView::Continue { state: next, action } => annotation_run(
                next,
                reports.drop_first(),
                entropy,
            ),
            AnnotationStepView::Finished(annotation) => step,
        }
    }
}

/// How far a building has come.
pub open spec fn annotation_progress(state: AnnotationStateView) -> nat {
    match state {
        AnnotationStateView::Idle { .. } => 0,
        AnnotationStateView::ReadingKey { .. } => 1,
        AnnotationStateView::Encrypting { .. } => 2,
        AnnotationStateView::Registering { .. } => 3,
    }
}

/// Nothing is tried twice: every step takes the building further, so that
/// the key file is read, the data encrypted and the key registered at most
/// once each, in this order.
pub proof fn lemma_no_second_attempt(
    state: AnnotationStateView,
    event: AnnotationEventView,
    entropy: EntropyView,
)
    ensures
        annotation_step(state, event, entropy) matches AnnotationStepView::Continue {
            state: next,
            action,
        } ==> {
            &&& annotation_progress(next) > annotation_progress(state)
            &&& action is ReadKeyFile <==> next is ReadingKey
            &&& action is Encrypt <==> next is Encrypting
            &&& action is RegisterKek <==> next is Registering
        },
{
}

/// No annotation is handed out for a key that was to be registered and was
/// not: a step ends the building with an annotation only on the report of
/// a successful registration, or on the report of the cipher where no
/// registration is asked for. A failed registration ends the building with
/// `RegistrationFailure` and its cause.
pub proof fn lemma_annotation_only_after_registration(
    state: AnnotationStateView,
    event: AnnotationEventView,
    entropy: EntropyView,
)
    ensures
        annotation_step(state, event, entropy) matches AnnotationStepView::Finished(Ok(_)) ==> {
            ||| state is Registering && event matches AnnotationEventView::Registered(Ok(_))
            ||| state matches AnnotationStateView::Encrypting { kbs, sample, .. } && !registers_key(
                kbs,
                sample,
            ) && event matches AnnotationEventView::Encrypted(Ok(_))
        },
        state is Registering ==> (event matches AnnotationEventView::Registered(Err(cause))
            ==> annotation_step(state, event, entropy) == AnnotationStepView::Finished(
            Err(ErrorView { kind: ErrorKind::RegistrationFailure, cause }),
        )),
{
}

/// A request for the sample key provider never leads to a registration,
/// whatever was supplied for one: the step on the cipher's report ends the
/// building.
pub proof fn lemma_sample_skips_registration(
    kbs: KbsParameter,
    material: KeyMaterialView,
    algorithm: Algorithm,
    event: AnnotationEventView,
    entropy: EntropyView,
)
    ensures
        annotation_step(
            AnnotationStateView::Encrypting { kbs, sample: true, material, algorithm },
            event,
            entropy,
        ) is Finished,
{
}

/// The building for a sample request as a whole: no key file is read, no
/// entropy is used and no key is registered. The data goes to the cipher
/// under the sample key material, and the cipher's output comes back in
/// the annotation, under the sample key's identifier.
pub proof fn lemma_sample_annotation(
    kbs: KbsParameter,
    optsdata: Seq<u8>,
    request: Seq<char>,
    encrypted: Seq<u8>,
    entropy: EntropyView,
)
    requires
        parsed_params(request).sample,
        base64_fits(encrypted.len()),
    ensures
        annotation_step(
            AnnotationStateView::Idle { kbs, optsdata, request },
            AnnotationEventView::Start,
            entropy,
        ) matches AnnotationStepView::Continue { state, action } && action
            == (AnnotationActionView::Encrypt {
            optsdata,
            key: sample_key_material().key,
            iv: sample_key_material().iv,
            algorithm: parsed_params(request).algorithm,
        }),
        annotation_run(
            AnnotationStateView::Idle { kbs, optsdata, request },
            seq![AnnotationEventView::Start, AnnotationEventView::Encrypted(Ok(encrypted))],
            entropy,
        ) == AnnotationStepView::Finished(
            Ok(
                packet_json(
                    AnnotationPacketView {
                        kid: "kbs://"@ + "/"@ + "kbs:///default/test-key/1"@,
                        wrapped_data: base64_standard(encrypted),
                        iv: base64_standard(Seq::new(12, |i: int| 0u8)),
                        wrap_type: parsed_params(request).algorithm.name(),
                    },
                ),
            ),
        ),
{
    let reports = seq![AnnotationEventView::Start, AnnotationEventView::Encrypted(Ok(encrypted))];
    assert(reports.drop_first() =~= seq![AnnotationEventView::Encrypted(Ok(encrypted))]);
    assert(base64_fits(12)) by {
        assert(4 * (12nat / 3) + 4 == 20);
    }
    let params = parsed_params(request);
    let encrypting = AnnotationStateView::Encrypting {
        kbs,
        sample: true,
        material: sample_key_material(),
        algorithm: params.algorithm,
    };
    assert(annotation_run(encrypting, reports.drop_first(), entropy) == annotation_step(
        encrypting,
        AnnotationEventView::Encrypted(Ok(encrypted)),
        entropy,
    ));
}

/// The building for a request whose key is to be registered, where the
/// registration fails: whatever the cipher returned, the building ends
/// with `RegistrationFailure` and the cause, and with no annotation.
pub proof fn lemma_failed_registration(
    kbs: KbsParameter,
    optsdata: Seq<u8>,
    request: Seq<char>,
    encrypted: Seq<u8>,
    cause: Seq<char>,
    entropy: EntropyView,
)
    requires
        kbs.complete(),
        !parsed_params(request).sample,
        parsed_params(request).keypath is None,
        entropy.wf(),
        base64_fits(encrypted.len()),
    ensures
        annotation_run(
            AnnotationStateView::Idle { kbs, optsdata, request },
            seq![
                AnnotationEventView::Start,
                AnnotationEventView::Encrypted(Ok(encrypted)),
                AnnotationEventView::Registered(Err(cause)),
            ],
            entropy,
        ) == AnnotationStepView::Finished(
            Err(ErrorView { kind: ErrorKind::RegistrationFailure, cause }),
        ),
{
    let all = seq![
        AnnotationEventView::Start,
        AnnotationEventView::Encrypted(Ok(encrypted)),
        AnnotationEventView::Registered(Err(cause)),
    ];
    let after_start = seq![
        AnnotationEventView::Encrypted(Ok(encrypted)),
        AnnotationEventView::Registered(Err(cause)),
    ];
    let last = seq![AnnotationEventView::Registered(Err(cause))];
    assert(all.drop_first() =~= after_start);
    assert(after_start.drop_first() =~= last);
    assert(base64_fits(12)) by {
        assert(4 * (12nat / 3) + 4 == 20);
    }
    let params = parsed_params(request);
    let material = key_parameters(params, None, entropy)->Ok_0;
    let encrypting = AnnotationStateView::Encrypting {
        kbs,
        sample: false,
        material,
        algorithm: params.algorithm,
    };
    let packet = annotation_packet(material.kid, encrypted, material.iv, params.algorithm)->Ok_0;
    let registering = AnnotationStateView::Registering { packet };
    assert(annotation_run(registering, last, entropy) == AnnotationStepView::Finished(
        Err(ErrorView { kind: ErrorKind::RegistrationFailure, cause }),
    ));
    assert(annotation_run(encrypting, after_start, entropy) == AnnotationStepView::Finished(
        Err(ErrorView { kind: ErrorKind::RegistrationFailure, cause }),
    ));
}

} // verus!
