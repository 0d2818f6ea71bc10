use auth_lib::algorithm::{ChaumPedersenAlgorthim, ChaumPedersenParameters};
use auth_lib::chaum_pedersen_model::ValidationErrors;
use auth_lib::chaum_pedersen_server::{
    AuthenticationAnswerRequest, AuthenticationChallengeRequest, CPAuthServer, RegisterRequest,
};
use auth_lib::num::Num;
use auth_lib::{bootstrap_server, calculate_hash, Config};
use uuid::Uuid;

fn make_server() -> CPAuthServer {
    let config = Config {
        bit_size: 256,
        fixed_parameters: true,
        port: 50051,
        host: String::from("[::1]"),
    };
    bootstrap_server(config).expect("fixed 256-bit parameters must be available")
}

fn client_algorithm(server: &CPAuthServer) -> ChaumPedersenAlgorthim {
    let encoded = server
        .get_authentication_parameters()
        .expect("parameters must be available");
    let parameters = ChaumPedersenParameters {
        p: Num::from_bytes_be(encoded.p),
        q: Num::from_bytes_be(encoded.q),
        g: Num::from_bytes_be(encoded.g),
        h: Num::from_bytes_be(encoded.h),
        bit_size: encoded.bit_size as u16,
    };
    ChaumPedersenAlgorthim::new(&parameters)
}

fn register_test_user(server: &mut CPAuthServer, algorithm: &ChaumPedersenAlgorthim) -> (String, Num) {
    let x = calculate_hash(&"My Super Secret Password".to_string());
    let (y1, y2) = algorithm.exponentiation(&x);
    let user = Uuid::new_v4().to_string();
    let request = RegisterRequest {
        user: user.clone(),
        y1: y1.to_bytes_be(),
        y2: y2.to_bytes_be(),
    };
    server.register(&request).expect("registration must succeed");
    (user, x)
}

fn issue_test_challenge(
    server: &mut CPAuthServer,
    algorithm: &mut ChaumPedersenAlgorthim,
    user: &str,
) -> (String, Num, Num) {
    let k = algorithm.generate_random();
    let (r1, r2) = algorithm.exponentiation(&k);
    let request = AuthenticationChallengeRequest {
        user: user.to_string(),
        r1: r1.to_bytes_be(),
        r2: r2.to_bytes_be(),
    };
    let response = server
        .create_authentication_challenge(&request)
        .expect("challenge must be issued");
    (response.auth_id, Num::from_bytes_be(response.c), k)
}

fn expect_unauthenticated<T>(result: Result<T, ValidationErrors>) {
    match result {
        Ok(_) => panic!("expected error"),
        Err(e) => assert!(
            matches!(e, ValidationErrors::Unauthenticated),
            "expected unauthenticated error"
        ),
    }
}

fn expect_already_exists<T>(result: Result<T, ValidationErrors>) {
    match result {
        Ok(_) => panic!("expected error"),
        Err(e) => assert!(
            matches!(e, ValidationErrors::AlreadyExists),
            "expected already exists error"
        ),
    }
}

fn expect_invalid_argument<T>(result: Result<T, ValidationErrors>) {
    match result {
        Ok(_) => panic!("expected error"),
        Err(e) => assert!(
            matches!(e, ValidationErrors::InvalidArgument),
            "expected invalid argument error"
        ),
    }
}

#[test]
fn can_get_parameters() {
    let server = make_server();

    let parameters = server.get_authentication_parameters();

    assert!(parameters.is_ok());
    let parameters = parameters.unwrap();
    assert!(parameters.p.len() > 0, "parameters are empty");
    assert!(parameters.q.len() > 0, "parameters are empty");
    assert!(parameters.g.len() > 0, "parameters are empty");
    assert!(parameters.h.len() > 0, "parameters are empty");
    assert!(parameters.bit_size > 0, "parameters are empty");
}

#[test]
fn can_register_user() {
    let mut server = make_server();
    let algorithm = client_algorithm(&server);

    let x = calculate_hash(&"My Super Secret Password".to_string());
    let (y1, y2) = algorithm.exponentiation(&x);
    let register_request = RegisterRequest {
        user: Uuid::new_v4().to_string(),
        y1: y1.to_bytes_be(),
        y2: y2.to_bytes_be(),
    };

    let response = server.register(&register_request);

    assert!(response.is_ok());
}

#[test]
fn register_user_twice_panics() {
    let mut server = make_server();
    let algorithm = client_algorithm(&server);

    let x = calculate_hash(&"My Super Secret Password".to_string());
    let (y1, y2) = algorithm.exponentiation(&x);
    let register_request = RegisterRequest {
        user: Uuid::new_v4().to_string(),
        y1: y1.to_bytes_be(),
        y2: y2.to_bytes_be(),
    };
    let again = RegisterRequest {
        user: register_request.user.clone(),
        y1: register_request.y1.clone(),
        y2: register_request.y2.clone(),
    };

    assert!(server.register(&register_request).is_ok());
    expect_already_exists(server.register(&again));
}

#[test]
fn register_user_with_zero_password_panics() {
    let mut server = make_server();

    let register_request = RegisterRequest {
        user: Uuid::new_v4().to_string(),
        y1: [0x00].to_vec(),
        y2: [0x00].to_vec(),
    };

    expect_invalid_argument(server.register(&register_request));
}

#[test]
fn register_user_with_empty_password_panics() {
    let mut server = make_server();

    let register_request = RegisterRequest {
        user: Uuid::new_v4().to_string(),
        y1: [].to_vec(),
        y2: [].to_vec(),
    };

    expect_invalid_argument(server.register(&register_request));
}

#[test]
fn register_user_with_empty_name_panics() {
    let mut server = make_server();
    let algorithm = client_algorithm(&server);

    let x = calculate_hash(&"My Super Secret Password".to_string());
    let (y1, y2) = algorithm.exponentiation(&x);
    let register_request = RegisterRequest {
        user: String::from(""),
        y1: y1.to_bytes_be(),
        y2: y2.to_bytes_be(),
    };

    expect_invalid_argument(server.register(&register_request));
}

#[test]
fn can_get_challenge() {
    let mut server = make_server();
    let mut algorithm = client_algorithm(&server);
    let (user, _x) = register_test_user(&mut server, &algorithm);

    let k = algorithm.generate_random();
    let (r1, r2) = algorithm.exponentiation(&k);
    let challenge_request = AuthenticationChallengeRequest {
        user: user.clone(),
        r1: r1.to_bytes_be(),
        r2: r2.to_bytes_be(),
    };

    let response = server.create_authentication_challenge(&challenge_request);

    assert!(response.is_ok());
    let challenge = response.unwrap();
    assert!(challenge.c.len() > 0, "challenge is empty");
    assert!(!challenge.auth_id.is_empty(), "no auth id provided");
}

#[test]
fn can_get_challenge_twice() {
    let mut server = make_server();
    let mut algorithm = client_algorithm(&server);
    let (user, _x) = register_test_user(&mut server, &algorithm);
    let _first = issue_test_challenge(&mut server, &mut algorithm, &user);

    let k = algorithm.generate_random();
    let (r1, r2) = algorithm.exponentiation(&k);
    let challenge_request = AuthenticationChallengeRequest {
        user: user.clone(),
        r1: r1.to_bytes_be(),
        r2: r2.to_bytes_be(),
    };

    let response = server.create_authentication_challenge(&challenge_request);

    assert!(response.is_ok());
    let challenge = response.unwrap();
    assert!(challenge.c.len() > 0, "challenge is empty");
    assert!(!challenge.auth_id.is_empty(), "no auth id provided");
}

#[test]
fn get_challenge_with_non_existing_user_panics() {
    let mut server = make_server();
    let mut algorithm = client_algorithm(&server);

    let k = algorithm.generate_random();
    let (r1, r2) = algorithm.exponentiation(&k);
    let challenge_request = AuthenticationChallengeRequest {
        user: Uuid::new_v4().to_string(),
        r1: r1.to_bytes_be(),
        r2: r2.to_bytes_be(),
    };

    expect_unauthenticated(server.create_authentication_challenge(&challenge_request));
}

#[test]
fn get_challenge_with_zero_commitment_panics() {
    let mut server = make_server();
    let algorithm = client_algorithm(&server);
    let (user, _x) = register_test_user(&mut server, &algorithm);

    let challenge_request = AuthenticationChallengeRequest {
        user: user.clone(),
        r1: [0x00].to_vec(),
        r2: [0x00].to_vec(),
    };

    expect_invalid_argument(server.create_authentication_challenge(&challenge_request));
}

#[test]
fn get_challenge_with_empty_commitment_panics() {
    let mut server = make_server();
    let algorithm = client_algorithm(&server);
    let (user, _x) = register_test_user(&mut server, &algorithm);

    let challenge_request = AuthenticationChallengeRequest {
        user: user.clone(),
        r1: [].to_vec(),
        r2: [].to_vec(),
    };

    expect_invalid_argument(server.create_authentication_challenge(&challenge_request));
}

#[test]
fn solving_challenge_returns_session() {
    let mut server = make_server();
    let mut algorithm = client_algorithm(&server);
    let (user, x) = register_test_user(&mut server, &algorithm);
    let (auth_id, c, k) = issue_test_challenge(&mut server, &mut algorithm, &user);

    let s = algorithm.solve_challenge(&x, &k, &c);
    let solution_request = AuthenticationAnswerRequest {
        auth_id: auth_id.clone(),
        s: s.to_bytes_be(),
    };

    let response = server.verify_authentication(&solution_request);

    assert!(response.is_ok());
    let session = response.unwrap();
    assert!(!session.session_id.is_empty(), "no session id provided");
}

#[test]
fn solving_challenge_of_first_challenge_panics() {
    let mut server = make_server();
    let mut algorithm = client_algorithm(&server);
    let (user, x) = register_test_user(&mut server, &algorithm);
    let (first_auth_id, first_c, first_k) = issue_test_challenge(&mut server, &mut algorithm, &user);
    let _second = issue_test_challenge(&mut server, &mut algorithm, &user);

    let s = algorithm.solve_challenge(&x, &first_k, &first_c);
    let solution_request = AuthenticationAnswerRequest {
        auth_id: first_auth_id.clone(),
        s: s.to_bytes_be(),
    };

    expect_unauthenticated(server.verify_authentication(&solution_request));
}

#[test]
fn wrongly_solving_challenge_panics() {
    let mut server = make_server();
    let mut algorithm = client_algorithm(&server);
    let (user, _x) = register_test_user(&mut server, &algorithm);
    let (auth_id, _c, _k) = issue_test_challenge(&mut server, &mut algorithm, &user);

    let solution_request = AuthenticationAnswerRequest {
        auth_id: auth_id.clone(),
        s: [0xAA].to_vec(),
    };

    expect_unauthenticated(server.verify_authentication(&solution_request));
}

#[test]
fn not_solving_challenge_panics() {
    let mut server = make_server();
    let mut algorithm = client_algorithm(&server);
    let (user, _x) = register_test_user(&mut server, &algorithm);
    let (auth_id, _c, _k) = issue_test_challenge(&mut server, &mut algorithm, &user);

    let solution_request = AuthenticationAnswerRequest {
        auth_id: auth_id.clone(),
        s: [].to_vec(),
    };

    expect_invalid_argument(server.verify_authentication(&solution_request));
}

#[test]
fn solving_challenge_with_unkown_auth_id_panics() {
    let mut server = make_server();
    let mut algorithm = client_algorithm(&server);
    let (user, x) = register_test_user(&mut server, &algorithm);
    let (_auth_id, c, k) = issue_test_challenge(&mut server, &mut algorithm, &user);

    let s = algorithm.solve_challenge(&x, &k, &c);
    let solution_request = AuthenticationAnswerRequest {
        auth_id: Uuid::new_v4().to_string(),
        s: s.to_bytes_be(),
    };

    expect_unauthenticated(server.verify_authentication(&solution_request));
}
