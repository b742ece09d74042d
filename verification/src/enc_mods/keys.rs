//! Key material for one encryption: a key, an initialisation vector and the
//! key's identifier, obtained as the request's policy says.

use vstd::prelude::*;
use vstd::slice::slice_to_vec;
use vstd::string::*;
use crate::enc_mods::crypto::HARDCODED_KEY;
use crate::enc_mods::params::{InputParams, InputParamsView};
use crate::encoding::{os_random, uuid_v4, uuid_v4_text};
use crate::error::{AgentError, ErrorKind, ErrorView};

verus! {

/// The key identifier of the sample key provider.
pub const HARD_CODED_KEYID: &'static str = "kbs:///default/test-key/1";

/// The namespace under which an identifier is made up for a key that came
/// without one.
pub const DEFAULT_KEY_REPO_PATH: &'static str = "default/image-kek";

/// A key, the initialisation vector to use it with, and the key's identifier.
#[derive(Clone, Debug, PartialEq, Eq)]
pub struct KeyMaterial {
    pub key: Vec<u8>,
    pub iv: Vec<u8>,
    pub kid: String,
}

/// Mathematical value of [`KeyMaterial`].
pub struct KeyMaterialView {
    pub key: Seq<u8>,
    pub iv: Seq<u8>,
    pub kid: Seq<char>,
}

impl View for KeyMaterial {
    type V = KeyMaterialView;

    open spec fn view(&self) -> KeyMaterialView {
        KeyMaterialView { key: self.key@, iv: self.iv@, kid: self.kid@ }
    }
}

/// Random bytes for one generation of key material.
#[derive(Clone, Copy, Debug, PartialEq, Eq)]
pub struct Entropy {
    /// For the key, where none is supplied.
    pub key: [u8; 32],
    /// For the initialisation vector.
    pub iv: [u8; 12],
    /// For the identifier, where none is supplied.
    pub tag: [u8; 16],
}

/// Mathematical value of [`Entropy`].
pub struct EntropyView {
    pub key: Seq<u8>,
    pub iv: Seq<u8>,
    pub tag: Seq<u8>,
}

impl EntropyView {
    /// Whether each part has the length of its array.
    pub open spec fn wf(self) -> bool {
        self.key.len() == 32 && self.iv.len() == 12 && self.tag.len() == 16
    }
}

impl View for Entropy {
    type V = EntropyView;

    open spec fn view(&self) -> EntropyView {
        EntropyView { key: self.key@, iv: self.iv@, tag: self.tag@ }
    }
}

/// The entropy of all zeros, which stands where none is drawn.
pub open spec fn no_entropy() -> EntropyView {
    EntropyView {
        key: Seq::new(32, |i: int| 0u8),
        iv: Seq::new(12, |i: int| 0u8),
        tag: Seq::new(16, |i: int| 0u8),
    }
}

impl Entropy {
    /// The entropy of all zeros.
    pub fn zero() -> (entropy: Entropy)
        ensures
            entropy@ == no_entropy(),
    {
        let entropy = Entropy { key: [0u8; 32], iv: [0u8; 12], tag: [0u8; 16] };
        assert(entropy.key@ =~= no_entropy().key);
        assert(entropy.iv@ =~= no_entropy().iv);
        assert(entropy.tag@ =~= no_entropy().tag);
        entropy
    }
}

/// What reading the key file came to, where it was read.
pub type KeyFile = Option<Result<Vec<u8>, String>>;

/// Mathematical value of a [`KeyFile`].
pub open spec fn key_file_view(key_file: KeyFile) -> Option<Result<Seq<u8>, Seq<char>>> {
    match key_file {
        Some(Ok(key)) => Some(Ok(key@)),
        Some(Err(cause)) => Some(Err(cause@)),
        None => None,
    }
}

/// Mathematical value of key material or the failure to obtain it.
pub open spec fn material_view(material: Result<KeyMaterial, AgentError>) -> Result<
    KeyMaterialView,
    ErrorView,
> {
    match material {
        Ok(m) => Ok(m@),
        Err(e) => Err(e@),
    }
}

/// The key material of the sample key provider: the hard-coded key, an
/// initialisation vector of zeros and the hard-coded identifier.
pub open spec fn sample_key_material() -> KeyMaterialView {
    KeyMaterialView {
        key: HARDCODED_KEY@,
        iv: Seq::new(12, |i: int| 0u8),
        kid: "kbs:///default/test-key/1"@,
    }
}

/// The identifier of a key: the one supplied, or one made up under the
/// default namespace from a random tag.
pub open spec fn key_id(keyid: Option<Seq<char>>, tag: Seq<u8>) -> Seq<char> {
    match keyid {
        Some(kid) => kid,
        None => "default/image-kek"@ + "/"@ + uuid_v4_text(tag),
    }
}

/// The failure for a key file that the policy asks for and that was not read.
pub open spec fn key_file_not_read() -> ErrorView {
    ErrorView { kind: ErrorKind::KeyMaterialFailure, cause: "the key file was not read"@ }
}

/// The failure of the entropy source.
pub open spec fn entropy_unavailable() -> ErrorView {
    ErrorView { kind: ErrorKind::KeyMaterialFailure, cause: "the entropy source failed"@ }
}

/// The key material that a policy yields, given what reading the key file
/// came to and the entropy drawn.
///
/// In order: a sample request gets the sample material. A request with a
/// key path gets the file's bytes as its key, of whatever length, or fails
/// with the cause for which the file could not be read. Any other request
/// gets a random key. Outside sample mode the initialisation vector is
/// random.
pub open spec fn key_parameters(
    params: InputParamsView,
    key_file: Option<Result<Seq<u8>, Seq<char>>>,
    entropy: EntropyView,
) -> Result<KeyMaterialView, ErrorView> {
    if params.sample {
        Ok(sample_key_material())
    } else if params.keypath is Some {
        match key_file {
            Some(Ok(key)) => Ok(
                KeyMaterialView { key, iv: entropy.iv, kid: key_id(params.keyid, entropy.tag) },
            ),
            Some(Err(cause)) => Err(ErrorView { kind: ErrorKind::KeyMaterialFailure, cause }),
            None => Err(key_file_not_read()),
        }
    } else {
        Ok(
            KeyMaterialView {
                key: entropy.key,
                iv: entropy.iv,
                kid: key_id(params.keyid, entropy.tag),
            },
        )
    }
}

/// Whether the key material of a policy depends on the entropy drawn.
pub open spec fn needs_entropy(
    params: InputParamsView,
    key_file: Option<Result<Seq<u8>, Seq<char>>>,
) -> bool {
    !params.sample && (params.keypath is None || key_file matches Some(Ok(_)))
}

/// What generating key material may come to: where the policy needs no
/// entropy, the one result it determines; where it needs some, the result
/// for some entropy, or the failure of the entropy source.
pub open spec fn key_parameters_allowed(
    params: InputParamsView,
    key_file: Option<Result<Seq<u8>, Seq<char>>>,
    material: Result<KeyMaterialView, ErrorView>,
) -> bool {
    if needs_entropy(params, key_file) {
        material == Err::<KeyMaterialView, ErrorView>(entropy_unavailable()) || exists|
            entropy: EntropyView,
        |
            entropy.wf() && material == #[trigger] key_parameters(params, key_file, entropy)
    } else {
        material == key_parameters(params, key_file, no_entropy())
    }
}

/// The bytes of `array` as a vector.
fn bytes_of<const N: usize>(array: &[u8; N]) -> (bytes: Vec<u8>)
    ensures
        bytes@ == array@,
{
    slice_to_vec(array.as_slice())
}

/// The key material that a policy yields for the entropy given.
pub fn derive_key_parameters(
    input_params: &InputParams,
    key_file: KeyFile,
    entropy: &Entropy,
) -> (material: Result<KeyMaterial, AgentError>)
    ensures
        material_view(material) == key_parameters(
            input_params@,
            key_file_view(key_file),
            entropy@,
        ),
{
    if input_params.sample {
        let iv: [u8; 12] = [0u8; 12];
        let material = KeyMaterial {
            key: bytes_of(&HARDCODED_KEY),
            iv: bytes_of(&iv),
            kid: HARD_CODED_KEYID.to_owned(),
        };
        assert(material.iv@ =~= sample_key_material().iv);
        return Ok(material);
    }
    let key = match &input_params.keypath {
        Some(_) => match key_file {
            Some(Ok(key)) => key,
            Some(Err(cause)) => {
                return Err(AgentError::new(ErrorKind::KeyMaterialFailure, cause));
            },
            None => {
                return Err(
                    AgentError::with_message(
                        ErrorKind::KeyMaterialFailure,
                        "the key file was not read",
                    ),
                );
            },
        },
        None => bytes_of(&entropy.key),
    };
    let kid = match &input_params.keyid {
        Some(kid) => kid.clone(),
        None => {
            let mut kid = DEFAULT_KEY_REPO_PATH.to_owned();
            kid.append("/");
            kid.append(uuid_v4(entropy.tag).as_str());
            kid
        },
    };
    Ok(KeyMaterial { key, iv: bytes_of(&entropy.iv), kid })
}

/// Draws fresh entropy from the operating system: one draw for each part.
/// Whether the draws succeed and what they give is the entropy source's;
/// what is made of them is `entropy_from_draws`.
pub fn draw_entropy() -> (entropy: Result<Entropy, AgentError>)
    ensures
        entropy matches Err(e) ==> e@ == entropy_unavailable(),
{
    let iv = os_random::<12>();
    let key = os_random::<32>();
    let tag = os_random::<16>();
    entropy_from_draws(key, iv, tag)
}

/// Mathematical value of entropy or the failure to draw it.
pub open spec fn entropy_view(entropy: Result<Entropy, AgentError>) -> Result<
    EntropyView,
    ErrorView,
> {
    match entropy {
        Ok(e) => Ok(e@),
        Err(e) => Err(e@),
    }
}

/// The entropy that three draws come to: the bytes drawn where every draw
/// succeeded, and the failure of the entropy source where any did not.
pub open spec fn entropy_of_draws(
    key: Result<[u8; 32], rand::Error>,
    iv: Result<[u8; 12], rand::Error>,
    tag: Result<[u8; 16], rand::Error>,
) -> Result<EntropyView, ErrorView> {
    match (key, iv, tag) {
        (Ok(key), Ok(iv), Ok(tag)) => Ok(EntropyView { key: key@, iv: iv@, tag: tag@ }),
        _ => Err(entropy_unavailable()),
    }
}

/// Makes the entropy for one generation of key material from what the
/// draws for its parts came to. Entropy is never made up: a part that
/// could not be drawn fails the whole.
pub fn entropy_from_draws(
    key: Result<[u8; 32], rand::Error>,
    iv: Result<[u8; 12], rand::Error>,
    tag: Result<[u8; 16], rand::Error>,
) -> (entropy: Result<Entropy, AgentError>)
    ensures
        entropy_view(entropy) == entropy_of_draws(key, iv, tag),
{
    match (key, iv, tag) {
        (Ok(key), Ok(iv), Ok(tag)) => Ok(Entropy { key, iv, tag }),
        _ => Err(
            AgentError::with_message(ErrorKind::KeyMaterialFailure, "the entropy source failed"),
        ),
    }
}

/// Whether the key material of a policy depends on the entropy drawn.
pub fn policy_needs_entropy(input_params: &InputParams, key_file: &KeyFile) -> (needed: bool)
    ensures
        needed == needs_entropy(input_params@, key_file_view(*key_file)),
{
    !input_params.sample && (input_params.keypath.is_none() || match key_file {
        Some(Ok(_)) => true,
        _ => false,
    })
}

/// Generates the key, the initialisation vector and the key identifier for
/// a request. `key_file` is what reading the file at the request's key path
/// came to; it is consulted only where the policy takes its key from there.
///
/// Randomness comes from the operating system's entropy source, and none
/// is drawn where the result does not depend on it.
pub fn generate_key_parameters(input_params: &InputParams, key_file: KeyFile) -> (material: Result<
    KeyMaterial,
    AgentError,
>)
    ensures
        key_parameters_allowed(
            input_params@,
            key_file_view(key_file),
            material_view(material),
        ),
{
    if !policy_needs_entropy(input_params, &key_file) {
        return derive_key_parameters(input_params, key_file, &Entropy::zero());
    }
    match draw_entropy() {
        Ok(entropy) => {
            proof {
                vstd::array::array_len_matches_n(&entropy.key);
                vstd::array::array_len_matches_n(&entropy.iv);
                vstd::array::array_len_matches_n(&entropy.tag);
                assert(entropy@.wf());
            }
            derive_key_parameters(input_params, key_file, &entropy)
        },
        Err(e) => Err(e),
    }
}

/// Sample-mode generation is deterministic: whatever else two requests
/// ask for and whatever came of their key files, with `sample` set both
/// get the same key, initialisation vector and key identifier.
pub proof fn lemma_sample_mode_deterministic(
    first: InputParamsView,
    first_file: Option<Result<Seq<u8>, Seq<char>>>,
    first_material: Result<KeyMaterialView, ErrorView>,
    second: InputParamsView,
    second_file: Option<Result<Seq<u8>, Seq<char>>>,
    second_material: Result<KeyMaterialView, ErrorView>,
)
    requires
        first.sample,
        second.sample,
        key_parameters_allowed(first, first_file, first_material),
        key_parameters_allowed(second, second_file, second_material),
    ensures
        first_material == second_material,
        first_material == Ok::<KeyMaterialView, ErrorView>(sample_key_material()),
{
}

/// Generated key material has an initialisation vector of 12 bytes in every
/// mode, and a key of 32 bytes wherever the key is not read from a file.
pub proof fn lemma_generated_lengths(
    params: InputParamsView,
    key_file: Option<Result<Seq<u8>, Seq<char>>>,
    material: KeyMaterialView,
)
    requires
        key_parameters_allowed(params, key_file, Ok(material)),
    ensures
        material.iv.len() == 12,
        params.sample || params.keypath is None ==> material.key.len() == 32,
{
    vstd::array::array_len_matches_n(&HARDCODED_KEY);
    if needs_entropy(params, key_file) {
        let entropy = choose|entropy: EntropyView|
            entropy.wf() && Ok::<KeyMaterialView, ErrorView>(material) == #[trigger] key_parameters(
                params,
                key_file,
                entropy,
            );
        assert(entropy.wf());
    }
}

/// A key that comes without an identifier gets one under the default
/// namespace; a key that comes with one keeps it.
pub proof fn lemma_key_id(
    params: InputParamsView,
    key_file: Option<Result<Seq<u8>, Seq<char>>>,
    material: KeyMaterialView,
)
    requires
        !params.sample,
        key_parameters_allowed(params, key_file, Ok(material)),
    ensures
        params.keyid matches Some(kid) ==> material.kid == kid,
        params.keyid is None ==> exists|tag: Seq<u8>|
            tag.len() == 16 && material.kid == "default/image-kek"@ + "/"@ + #[trigger] uuid_v4_text(
                tag,
            ),
{
    if needs_entropy(params, key_file) {
        let entropy = choose|entropy: EntropyView|
            entropy.wf() && Ok::<KeyMaterialView, ErrorView>(material) == #[trigger] key_parameters(
                params,
                key_file,
                entropy,
            );
        assert(material.kid == key_id(params.keyid, entropy.tag));
        if params.keyid is None {
            assert(entropy.tag.len() == 16 && material.kid == "default/image-kek"@ + "/"@
                + uuid_v4_text(entropy.tag));
        }
    }
}

} // verus!
