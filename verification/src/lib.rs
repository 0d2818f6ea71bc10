//! A zero-knowledge authentication library built on the Chaum-Pedersen
//! interactive proof of equality of two discrete logarithms.
//!
//! A prover convinces a verifier that it knows a secret exponent `x` with
//! `y1 = g^x mod p` and `y2 = h^x mod p` without revealing `x`.  The crate
//! holds the cryptographic engine, the in-memory store that binds users,
//! outstanding challenges and sessions, the request validation, and the
//! byte-level facade that a transport can sit on.

use vstd::prelude::*;

use crate::algorithm::{ChaumPedersenAlgorthim, ParameterError, fixed_p_256, fixed_q_256,
    valid_parameters};
use crate::chaum_pedersen_logic::ChaumPedersenLogicImpl;
use crate::chaum_pedersen_server::CPAuthServer;
use crate::chaum_pedersen_validation::ChaumPedersenValidationImpl;
use crate::map_access::MapDataAccess;
use crate::model::{UserV, ChallengeV, SessionV};
use crate::num::Num;

pub mod algorithm;
pub mod assoc;
pub mod chaum_pedersen_logic;
pub mod chaum_pedersen_model;
pub mod chaum_pedersen_server;
pub mod chaum_pedersen_validation;
pub mod map_access;
pub mod model;
pub mod num;
pub mod soundness;

verus! {

/// The 64-bit hash that maps a password string to an exponent.  The value
/// is a function of the string alone.
pub uninterp spec fn fx_hash_of(s: Seq<char>) -> nat;

/// Relies on `rustc_hash::FxHasher`: an unseeded polynomial hash whose
/// value is a function of the hashed bytes and the target word width
/// alone, so on the 64-bit targets this crate is built for the result
/// depends on the string alone.
#[verifier::external_body]
fn fx_hash_u64(t: &String) -> (r: u64)
    ensures
        r == fx_hash_of(t@),
{
    let mut hasher = rustc_hash::FxHasher::default();
    std::hash::Hash::hash(t, &mut hasher);
    std::hash::Hasher::finish(&hasher)
}

/// The exponent a password string stands for: its 64-bit hash read as a
/// non-negative integer, so a value below `2^64`.
pub fn calculate_hash(t: &String) -> (r: Num)
    ensures
        r@ == fx_hash_of(t@),
        r@ < vstd::arithmetic::power2::pow2(64),
{
    proof {
        vstd::arithmetic::power2::lemma2_to64();
    }
    Num::from_u64(fx_hash_u64(t))
}

/// The configuration of a server: the bit length of the modulus, whether
/// to take the modulus from the built-in table rather than sample one, and
/// the address a transport would bind.
pub struct Config {
    /// The bit size of the prime modulus.
    pub bit_size: u16,
    /// Whether to use the fixed parameter table instead of sampling.
    pub fixed_parameters: bool,
    /// The port a transport would listen on.
    pub port: u16,
    /// The host a transport would listen on.
    pub host: String,
}

impl Default for Config {
    /// The default configuration: 256-bit sampled parameters on
    /// `[::1]:50051`.
    fn default() -> (r: Config)
        ensures
            r.bit_size == 256,
            !r.fixed_parameters,
            r.port == 50051,
            r.host@ == "[::1]"@,
    {
        Config {
            bit_size: 256,
            fixed_parameters: false,
            port: 50051,
            host: String::from_str("[::1]"),
        }
    }
}

/// Build a ready-to-serve server: select parameters of the configured
/// size, seed the engine, and start from an empty store.  A fixed 256-bit
/// request succeeds exactly when the built-in table entry passes the
/// subgroup checks, and then serves exactly that entry.
pub fn bootstrap_server(config: Config) -> (r: Result<CPAuthServer, ParameterError>)
    ensures
        r matches Ok(server) ==> server.wf() && server.logic.algorithm.parameters.bit_size
            == config.bit_size && server.logic.data_access.users_map() == Map::<
            Seq<char>,
            UserV,
        >::empty() && server.logic.data_access.challenges_map() == Map::<
            Seq<char>,
            ChallengeV,
        >::empty() && server.logic.data_access.sessions_map() == Map::<Seq<char>, SessionV>::empty(),
        config.fixed_parameters ==> (r == Err::<CPAuthServer, ParameterError>(
            ParameterError::UnsupportedBitSize,
        ) <==> config.bit_size != 256),
        config.fixed_parameters && config.bit_size == 256 ==> ((r is Ok) <==> valid_parameters(
            fixed_p_256(),
            fixed_q_256(),
            4,
            9,
        )),
        config.fixed_parameters && config.bit_size == 256 ==> (r matches Ok(server)
            ==> server.logic.algorithm.parameters.p@ == fixed_p_256()
            && server.logic.algorithm.parameters.q@ == fixed_q_256()
            && server.logic.algorithm.parameters.g@ == 4 && server.logic.algorithm.parameters.h@
            == 9),
        !config.fixed_parameters ==> (r == Err::<CPAuthServer, ParameterError>(
            ParameterError::UnsupportedBitSize,
        ) <==> config.bit_size < 32),
{
    let parameters = match ChaumPedersenAlgorthim::find_parameters(
        config.bit_size,
        config.fixed_parameters,
    ) {
        Ok(ps) => ps,
        Err(e) => {
            return Err(e);
        },
    };
    let algorithm = ChaumPedersenAlgorthim::new(&parameters);
    let data_access = MapDataAccess::new();
    let validation = ChaumPedersenValidationImpl::new();
    let logic = ChaumPedersenLogicImpl::new(algorithm, data_access, validation);
    Ok(CPAuthServer::new(logic))
}

} // verus!
