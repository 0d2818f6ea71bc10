use auth_lib::algorithm::{ChaumPedersenAlgorthim, ParameterError};
use auth_lib::calculate_hash;
use auth_lib::chaum_pedersen_model::ValidationErrors;
use auth_lib::num::Num;

fn fixed_engine() -> ChaumPedersenAlgorthim {
    let parameters = ChaumPedersenAlgorthim::find_parameters(256, true)
        .expect("the built-in 256-bit entry must pass its checks");
    ChaumPedersenAlgorthim::new(&parameters)
}

#[test]
fn solve_challenge_exact_value() {
    let engine = fixed_engine();
    // s = (k - c * x) mod q with k = 10, c = 2, x = 3 is 4.
    let s = engine.solve_challenge(&Num::from_u64(3), &Num::from_u64(10), &Num::from_u64(2));
    assert_eq!(s.to_bytes_be(), vec![0x04]);
}

#[test]
fn solve_challenge_wraps_into_range() {
    let engine = fixed_engine();
    // k - c * x is negative: k = 1, c = 5, x = 2, so s = q - 9.
    let s = engine.solve_challenge(&Num::from_u64(2), &Num::from_u64(1), &Num::from_u64(5));
    let parameters = engine.get_parameters();
    let q = parameters.q.to_bytes_be();
    let s_bytes = s.to_bytes_be();
    // s is below q: same length and smaller in the last byte after a
    // shared prefix, and adding 9 gives exactly q.
    assert_eq!(s_bytes.len(), q.len());
    let mut carry: u16 = 9;
    let mut sum = s_bytes.clone();
    for i in (0..sum.len()).rev() {
        let v = sum[i] as u16 + carry;
        sum[i] = (v % 256) as u8;
        carry = v / 256;
        if carry == 0 {
            break;
        }
    }
    assert_eq!(carry, 0);
    assert_eq!(sum, q, "s + 9 must equal q");
}

#[test]
fn exponentiation_exact_small_values() {
    let engine = fixed_engine();
    let (y1, y2) = engine.exponentiation(&Num::from_u64(2));
    // g = 4 and h = 9, so g^2 = 16 and h^2 = 81 far below the modulus.
    assert_eq!(y1.to_bytes_be(), vec![0x10]);
    assert_eq!(y2.to_bytes_be(), vec![0x51]);
}

#[test]
fn generated_challenge_is_in_range() {
    let mut engine = fixed_engine();
    for _ in 0..16 {
        let c = engine.generate_random();
        let bytes = c.to_bytes_be();
        assert!(bytes.len() >= 1 && bytes.len() <= 32, "challenge too wide");
        assert_ne!(bytes, vec![0x00], "challenge below two");
        assert_ne!(bytes, vec![0x01], "challenge below two");
    }
}

#[test]
fn honest_prover_passes_verification() {
    let mut engine = fixed_engine();
    let x = calculate_hash(&"My Super Secret Password".to_string());
    let (y1, y2) = engine.exponentiation(&x);
    let k = engine.generate_random();
    let (r1, r2) = engine.exponentiation(&k);
    let c = engine.generate_random();
    let s = engine.solve_challenge(&x, &k, &c);
    assert!(engine.verify(&y1, &y2, &r1, &r2, &s, &c));
}

#[test]
fn wrong_secret_fails_verification() {
    let mut engine = fixed_engine();
    let x = calculate_hash(&"My Super Secret Password".to_string());
    let other = calculate_hash(&"Another Password".to_string());
    let (y1, y2) = engine.exponentiation(&other);
    let k = engine.generate_random();
    let (r1, r2) = engine.exponentiation(&k);
    let c = engine.generate_random();
    let s = engine.solve_challenge(&x, &k, &c);
    assert!(!engine.verify(&y1, &y2, &r1, &r2, &s, &c));
}

#[test]
fn byte_encoding_is_canonical() {
    let n = Num::from_bytes_be(vec![0x00, 0x00, 0x05]);
    assert_eq!(n.to_bytes_be(), vec![0x05]);

    let zero = Num::from_bytes_be(vec![]);
    assert_eq!(zero.to_bytes_be(), vec![0x00]);
    assert!(zero.is_zero());

    let padded_zero = Num::from_bytes_be(vec![0x00, 0x00]);
    assert!(padded_zero.is_zero());
    assert_eq!(padded_zero.to_bytes_be(), vec![0x00]);

    let word = Num::from_u64(0x0102);
    assert!(!word.is_zero());
    assert_eq!(word.to_bytes_be(), vec![0x01, 0x02]);
}

#[test]
fn fixed_table_rejects_other_bit_sizes() {
    let result = ChaumPedersenAlgorthim::find_parameters(128, true);
    assert!(matches!(result, Err(ParameterError::UnsupportedBitSize)));
}

#[test]
fn tiny_bit_sizes_are_rejected() {
    // The safe-prime sampler misbehaves below 32 bits, so sampling
    // refuses everything smaller.
    for bits in [0u16, 1, 2, 3, 16, 31] {
        let result = ChaumPedersenAlgorthim::find_parameters(bits, false);
        assert!(matches!(result, Err(ParameterError::UnsupportedBitSize)));
    }
}

#[test]
fn fixed_table_serves_exact_constants() {
    let parameters = ChaumPedersenAlgorthim::find_parameters(256, true)
        .expect("the built-in 256-bit entry must pass its checks");
    let expected_p: Vec<u8> = vec![
        0x5e, 0x8c, 0x41, 0x3e, 0x14, 0x52, 0x69, 0xf1, 0x27, 0xaf, 0x7b, 0x9c, 0x7f, 0x94, 0xea,
        0x3c, 0xa5, 0x97, 0xc5, 0x2d, 0x7e, 0x22, 0x22, 0x3e, 0x12, 0xaf, 0x3f, 0x01, 0x95, 0x15,
        0xc3, 0xaf,
    ];
    let expected_q: Vec<u8> = vec![
        0x2f, 0x46, 0x20, 0x9f, 0x0a, 0x29, 0x34, 0xf8, 0x93, 0xd7, 0xbd, 0xce, 0x3f, 0xca, 0x75,
        0x1e, 0x52, 0xcb, 0xe2, 0x96, 0xbf, 0x11, 0x11, 0x1f, 0x09, 0x57, 0x9f, 0x80, 0xca, 0x8a,
        0xe1, 0xd7,
    ];
    assert_eq!(parameters.p.to_bytes_be(), expected_p);
    assert_eq!(parameters.q.to_bytes_be(), expected_q);
    assert_eq!(parameters.g.to_bytes_be(), vec![0x04]);
    assert_eq!(parameters.h.to_bytes_be(), vec![0x09]);
    assert_eq!(parameters.bit_size, 256);
}

#[test]
fn generated_parameters_pass_their_checks() {
    let parameters = ChaumPedersenAlgorthim::find_parameters(32, false)
        .expect("a sampled 32-bit safe prime must pass the subgroup checks");
    assert_eq!(parameters.bit_size, 32);
    assert_eq!(parameters.g.to_bytes_be(), vec![0x04]);
    assert_eq!(parameters.h.to_bytes_be(), vec![0x09]);
    // The modulus has the requested length: exactly 32 bits.
    let p_bytes = parameters.p.to_bytes_be();
    assert_eq!(p_bytes.len(), 4);
    assert!(p_bytes[0] >= 0x80, "the top bit of the modulus must be set");
    assert!(!parameters.q.is_zero());
}

#[test]
fn password_hash_is_deterministic_and_discriminating() {
    let a1 = calculate_hash(&"My Super Secret Password".to_string());
    let a2 = calculate_hash(&"My Super Secret Password".to_string());
    let b = calculate_hash(&"my super secret password".to_string());
    assert_eq!(a1.to_bytes_be(), a2.to_bytes_be());
    assert_ne!(a1.to_bytes_be(), b.to_bytes_be());
    assert!(!a1.is_zero());
}

#[test]
fn identifiers_render_as_hyphenated_lowercase_hex() {
    let mut server = auth_lib::bootstrap_server(auth_lib::Config {
        bit_size: 256,
        fixed_parameters: true,
        port: 50051,
        host: String::from("[::1]"),
    })
    .expect("fixed 256-bit parameters must be available");
    let mut engine = fixed_engine();
    let x = calculate_hash(&"My Super Secret Password".to_string());
    let (y1, y2) = engine.exponentiation(&x);
    server
        .register(&auth_lib::chaum_pedersen_server::RegisterRequest {
            user: String::from("renderer"),
            y1: y1.to_bytes_be(),
            y2: y2.to_bytes_be(),
        })
        .expect("registration must succeed");
    let k = engine.generate_random();
    let (r1, r2) = engine.exponentiation(&k);
    let challenge = server
        .create_authentication_challenge(&auth_lib::chaum_pedersen_server::AuthenticationChallengeRequest {
            user: String::from("renderer"),
            r1: r1.to_bytes_be(),
            r2: r2.to_bytes_be(),
        })
        .expect("challenge must be issued");
    let id = challenge.auth_id;
    assert_eq!(id.len(), 36, "identifier must have 36 characters");
    for (i, ch) in id.chars().enumerate() {
        if i == 8 || i == 13 || i == 18 || i == 23 {
            assert_eq!(ch, '-', "hyphen expected at position {}", i);
        } else {
            assert!(
                ch.is_ascii_hexdigit() && !ch.is_ascii_uppercase(),
                "lower-case hex digit expected at position {}",
                i
            );
        }
    }
}

#[test]
fn error_messages_are_generic() {
    assert_eq!(
        ValidationErrors::InvalidArgument.status_message(),
        "Invalid argument"
    );
    assert_eq!(
        ValidationErrors::Unauthenticated.status_message(),
        "Unauthenticated"
    );
    assert_eq!(ValidationErrors::NotFound.status_message(), "Not found");
    assert_eq!(
        ValidationErrors::AlreadyExists.status_message(),
        "Already exists"
    );
}
