use gistit::cli::errors::{Error, FetchError, IoError, ParamsError};
use gistit::cli::fetch;
use gistit::cli::link::hash_in_path;
use gistit::cli::payload::{FetchParams, FetchQuery, GistitInner, GistitPayload, SendParams};
use gistit::cli::send;

fn payload() -> GistitPayload {
    GistitPayload {
        hash: "#abc".to_string(),
        author: "me".to_string(),
        description: Some("a file".to_string()),
        colorscheme: "ansi".to_string(),
        lifespan: 3600,
        secret: None,
        timestamp: "1650000000000".to_string(),
        gistit: GistitInner {
            name: "main.rs".to_string(),
            lang: "rust".to_string(),
            size: 12,
            data: "Zm4gbWFpbigpIHt9".to_string(),
        },
    }
}

fn fetch_args(theme: Option<&str>) -> fetch::Args {
    fetch::Args {
        hash: Some("#abc".to_string()),
        url: None,
        secret: Some("s3cret".to_string()),
        theme: theme.map(str::to_string),
        no_syntax_highlighting: true,
    }
}

#[test]
fn fetch_action_takes_the_arguments() {
    let action = fetch::Action::from_args(fetch_args(Some("ansi"))).unwrap();
    assert_eq!(
        action,
        fetch::Action {
            hash: Some("#abc".to_string()),
            url: None,
            secret: Some("s3cret".to_string()),
            colorscheme: "ansi".to_string(),
            no_syntax_highlighting: true,
        }
    );
}

#[test]
fn fetch_action_needs_a_theme() {
    assert_eq!(fetch::Action::from_args(fetch_args(None)), Err(Error::Argument));
}

#[test]
fn fetch_prepare_carries_params_and_secret() {
    let action = fetch::Action::from_args(fetch_args(Some("ansi"))).unwrap();
    let params = FetchParams { hash: Some("#abc".to_string()), url: None };
    let config = action.prepare(Ok(params.clone()), Some(Ok(())));
    assert_eq!(config, Ok(fetch::Config::new(params, Some("s3cret".to_string()))));
}

#[test]
fn fetch_prepare_hands_a_failure_of_the_parameters_on_first() {
    let action = fetch::Action::from_args(fetch_args(Some("ansi"))).unwrap();
    let bad_params = Error::Params(ParamsError::InvalidUrl("bad".to_string()));
    let bad_secret = Error::IO(IoError::StdinWrite("short".to_string()));
    assert_eq!(action.prepare(Err(bad_params.clone()), None), Err(bad_params.clone()));
    assert_eq!(action.prepare(Err(bad_params.clone()), Some(Err(bad_secret))), Err(bad_params));
}

#[test]
fn fetch_prepare_hands_a_failure_of_the_secret_on() {
    let action = fetch::Action::from_args(fetch_args(Some("ansi"))).unwrap();
    let params = FetchParams { hash: Some("#abc".to_string()), url: None };
    let bad_secret = Error::IO(IoError::StdinWrite("short".to_string()));
    assert_eq!(action.prepare(Ok(params), Some(Err(bad_secret.clone()))), Err(bad_secret));
}

#[test]
fn fetch_prepare_without_secret_asks_for_no_check() {
    let mut action = fetch::Action::from_args(fetch_args(Some("ansi"))).unwrap();
    action.secret = None;
    let params = FetchParams { hash: Some("#abc".to_string()), url: None };
    assert_eq!(action.secret_to_check(&Ok(params.clone())), None);
    assert_eq!(
        action.prepare(Ok(params.clone()), None),
        Ok(fetch::Config::new(params.clone(), None))
    );
    let stray = Error::IO(IoError::StdinWrite("short".to_string()));
    assert_eq!(
        action.prepare(Ok(params.clone()), Some(Err(stray))),
        Ok(fetch::Config::new(params, None))
    );
}

#[test]
fn fetch_secret_is_checked_only_after_the_parameters_passed() {
    let action = fetch::Action::from_args(fetch_args(Some("ansi"))).unwrap();
    let params = FetchParams { hash: Some("#abc".to_string()), url: None };
    assert_eq!(action.secret_to_check(&Ok(params)), Some("s3cret"));
    assert_eq!(action.secret_to_check(&Err(Error::Argument)), None);
}

#[test]
fn fetch_config_new_keeps_its_parts() {
    let params = FetchParams { hash: None, url: Some("https://gistit.vercel.app/x".to_string()) };
    let config = fetch::Config::new(params.clone(), None);
    assert_eq!(config.params, params);
    assert_eq!(config.maybe_secret, None);
}

#[test]
fn fetch_query_takes_the_hash_as_given() {
    let params = FetchParams {
        hash: Some("#abc".to_string()),
        url: Some("not a url".to_string()),
    };
    let query = fetch::Config::new(params, Some("s".to_string())).into_json().unwrap();
    assert_eq!(query, FetchQuery { hash: "#abc".to_string(), secret: Some("s".to_string()) });
}

#[test]
fn fetch_query_takes_the_hash_out_of_the_address() {
    let params = FetchParams {
        hash: None,
        url: Some("https://gistit.vercel.app/abc123?x=1".to_string()),
    };
    let query = fetch::Config::new(params, None).into_json().unwrap();
    assert_eq!(query, FetchQuery { hash: "abc123".to_string(), secret: None });
}

#[test]
fn fetch_query_refuses_what_is_no_url() {
    let params = FetchParams { hash: None, url: Some("not a url".to_string()) };
    let got = fetch::Config::new(params, None).into_json();
    let said = url::Url::parse("not a url").unwrap_err().to_string();
    assert_eq!(said, "relative URL without a base");
    assert_eq!(got, Err(Error::Params(ParamsError::InvalidUrl(said))));

    let params = FetchParams { hash: None, url: Some("https://".to_string()) };
    let got = fetch::Config::new(params, None).into_json();
    assert_eq!(got, Err(Error::Params(ParamsError::InvalidUrl("empty host".to_string()))));
}

#[test]
fn fetch_query_is_not_tried_without_hash_and_address() {
    let params = FetchParams { hash: None, url: None };
    assert_eq!(fetch::Config::new(params, None).try_into_json(), None);
}

#[test]
fn fetch_query_is_not_tried_on_an_address_without_path() {
    let params = FetchParams { hash: None, url: Some("mailto:".to_string()) };
    assert_eq!(fetch::Config::new(params.clone(), None).try_into_json(), None);
    assert!(params.try_final_hash().is_none());
}

#[test]
fn fetch_query_is_tried_where_a_gistit_is_named() {
    let params = FetchParams { hash: None, url: Some("https://host/some/where".to_string()) };
    let got = fetch::Config::new(params.clone(), None).try_into_json();
    assert_eq!(got, Some(Ok(FetchQuery { hash: "some/where".to_string(), secret: None })));
    assert_eq!(params.try_final_hash(), Some(Ok("some/where".to_string())));
    assert_eq!(params.final_hash(), Ok("some/where".to_string()));
}

#[test]
fn hash_in_path_drops_the_first_byte() {
    assert_eq!(hash_in_path("/abc"), Some("abc".to_string()));
    assert_eq!(hash_in_path("/"), Some(String::new()));
    assert_eq!(hash_in_path("x/\u{e9}"), Some("/\u{e9}".to_string()));
    assert_eq!(hash_in_path(""), None);
    assert_eq!(hash_in_path("\u{e9}abc"), None);
}

#[test]
fn fetch_response_with_payload_is_the_payload() {
    let response = fetch::Response { success: Some(payload()), error: None };
    assert_eq!(response.into_inner(), Ok(payload()));
    let both = fetch::Response { success: Some(payload()), error: Some("late".to_string()) };
    assert_eq!(both.into_inner(), Ok(payload()));
}

#[test]
fn fetch_response_with_error_is_a_failed_request() {
    let response = fetch::Response { success: None, error: Some("no such gistit".to_string()) };
    assert_eq!(
        response.into_inner(),
        Err(Error::IO(IoError::Request("no such gistit".to_string())))
    );
}

#[test]
fn fetch_shows_what_an_ok_answer_carries() {
    let mut retries = fetch::SecretRetries::new();
    assert_eq!(retries.dispatch(200, false), fetch::FetchStep::Show);
    assert_eq!(retries.count, 0);
}

#[test]
fn fetch_asks_for_the_secret_three_times() {
    let mut retries = fetch::SecretRetries::new();
    assert_eq!(
        retries.dispatch(401, false),
        fetch::FetchStep::AskSecret { prompt: "A secret is required to fetch this Gistit" }
    );
    for _ in 0..2 {
        assert_eq!(
            retries.dispatch(401, true),
            fetch::FetchStep::AskSecret { prompt: "Secret is incorrect, try again" }
        );
    }
    assert_eq!(retries.count, 3);
    assert_eq!(
        retries.dispatch(401, true),
        fetch::FetchStep::Fail(Error::Fetch(FetchError::ExaustedSecretRetries))
    );
    assert_eq!(retries.count, 4);
}

#[test]
fn fetch_retry_count_stops_at_its_largest_value() {
    let mut retries = fetch::SecretRetries { count: 254 };
    for _ in 0..3 {
        assert_eq!(
            retries.dispatch(401, true),
            fetch::FetchStep::Fail(Error::Fetch(FetchError::ExaustedSecretRetries))
        );
    }
    assert_eq!(retries.count, 255);
}

#[test]
fn fetch_fails_on_other_answers() {
    let mut retries = fetch::SecretRetries::new();
    assert_eq!(
        retries.dispatch(404, false),
        fetch::FetchStep::Fail(Error::Fetch(FetchError::NotFound))
    );
    for status in [0, 199, 201, 400, 403, 500, u16::MAX] {
        assert_eq!(
            retries.dispatch(status, false),
            fetch::FetchStep::Fail(Error::Fetch(FetchError::UnexpectedResponse))
        );
    }
    assert_eq!(retries.count, 0);
}

fn send_args() -> send::Args {
    send::Args {
        file: Some(b"src/main.rs".to_vec()),
        description: Some("a file".to_string()),
        author: Some("me".to_string()),
        theme: Some("ansi".to_string()),
        secret: None,
        lifespan: Some("3600".to_string()),
        clipboard: true,
        dry_run: false,
    }
}

#[test]
fn send_action_takes_the_arguments() {
    let action = send::Action::from_args(send_args()).unwrap();
    assert_eq!(
        action,
        send::Action {
            file: b"src/main.rs".to_vec(),
            description: Some("a file".to_string()),
            author: "me".to_string(),
            theme: "ansi".to_string(),
            secret: None,
            lifespan: "3600".to_string(),
            clipboard: true,
            dry_run: false,
        }
    );
}

#[test]
fn send_action_needs_file_author_theme_and_lifespan() {
    let mut args = send_args();
    args.file = None;
    assert_eq!(send::Action::from_args(args), Err(Error::Argument));
    let mut args = send_args();
    args.author = None;
    assert_eq!(send::Action::from_args(args), Err(Error::Argument));
    let mut args = send_args();
    args.theme = None;
    assert_eq!(send::Action::from_args(args), Err(Error::Argument));
    let mut args = send_args();
    args.lifespan = None;
    assert_eq!(send::Action::from_args(args), Err(Error::Argument));
    let mut args = send_args();
    args.description = None;
    args.secret = None;
    assert!(send::Action::from_args(args).is_ok());
}

#[test]
fn send_dry_run_uploads_nothing() {
    let mut action = send::Action::from_args(send_args()).unwrap();
    assert_eq!(action.dispatch(), send::SendStep::Upload);
    action.dry_run = true;
    assert_eq!(action.dispatch(), send::SendStep::Skip);
}

#[test]
fn send_receipt_says_whether_the_hash_was_copied() {
    let mut action = send::Action::from_args(send_args()).unwrap();
    let response = send::Response { success: Some("#abc".to_string()), error: None };
    assert_eq!(
        action.receipt(response.clone()),
        Ok(send::Receipt {
            hash: "#abc".to_string(),
            copy: true,
            remark: "(copied to clipboard)",
        })
    );
    action.clipboard = false;
    assert_eq!(
        action.receipt(response),
        Ok(send::Receipt { hash: "#abc".to_string(), copy: false, remark: "" })
    );
}

#[test]
fn send_receipt_hands_the_server_s_error_on() {
    let action = send::Action::from_args(send_args()).unwrap();
    let response = send::Response { success: None, error: Some("too large".to_string()) };
    assert_eq!(
        action.receipt(response),
        Err(Error::IO(IoError::Request("too large".to_string())))
    );
}

#[test]
fn send_response_with_hash_is_the_hash() {
    let response = send::Response { success: Some("#abc".to_string()), error: None };
    assert_eq!(response.into_inner(), Ok("#abc".to_string()));
}

#[test]
fn send_response_with_error_is_a_failed_request() {
    let response = send::Response { success: None, error: Some("too large".to_string()) };
    assert_eq!(response.into_inner(), Err(Error::IO(IoError::Request("too large".to_string()))));
}

fn send_config(secret: Option<&str>) -> send::Config {
    send::Config::new(
        send::FileData {
            name: "main.rs".to_string(),
            lang: "rust".to_string(),
            size: 12,
            data: b"fn main() {}".to_vec(),
            encoded: "Zm4gbWFpbigpIHt9".to_string(),
        },
        SendParams {
            author: "me".to_string(),
            description: Some("a file".to_string()),
            colorscheme: "ansi".to_string(),
            lifespan: 3600,
        },
        secret.map(str::to_string),
    )
}

#[test]
fn send_config_new_keeps_its_parts() {
    let config = send_config(Some("hashed"));
    assert_eq!(config.file.name, "main.rs");
    assert_eq!(config.params.lifespan, 3600);
    assert_eq!(config.maybe_secret, Some("hashed".to_string()));
}

#[test]
fn send_secret_text_is_empty_without_a_secret() {
    assert_eq!(send_config(Some("hashed")).secret_text(), "hashed");
    assert_eq!(send_config(None).secret_text(), "");
}

#[test]
fn send_hash_is_mark_and_digest() {
    assert_eq!(send_config(None).hash("0cc175b9c0f1b6a831c399e269772661"), "#0cc175b9c0f1b6a831c399e269772661");
    assert_eq!(send_config(None).hash(""), "#");
}

#[test]
fn send_payload_is_made_of_config_hash_and_time() {
    let got = send_config(None).into_payload("abc", "1650000000000".to_string());
    assert_eq!(got, payload());
    let got = send_config(Some("hashed")).into_payload("abc", "1".to_string());
    assert_eq!(got.secret, Some("hashed".to_string()));
    assert_eq!(got.timestamp, "1");
}

fn file_data(name: &str) -> send::FileData {
    send::FileData {
        name: name.to_string(),
        lang: "rust".to_string(),
        size: 12,
        data: b"fn main() {}".to_vec(),
        encoded: "Zm4gbWFpbigpIHt9".to_string(),
    }
}

fn send_params() -> SendParams {
    SendParams {
        author: "me".to_string(),
        description: None,
        colorscheme: "ansi".to_string(),
        lifespan: 3600,
    }
}

fn nothing_known() -> send::Outcomes {
    send::Outcomes { params: None, file: None, hashed_secret: None, encrypted: None }
}

#[test]
fn send_checks_run_in_order_without_a_secret() {
    let action = send::Action::from_args(send_args()).unwrap();
    let mut known = nothing_known();
    assert_eq!(action.prepare(known.clone()), send::Prepared::Due(send::Check::Params, known.clone()));
    known.params = Some(Ok(send_params()));
    assert_eq!(action.prepare(known.clone()), send::Prepared::Due(send::Check::File, known.clone()));
    known.file = Some(Ok(file_data("main.rs")));
    assert_eq!(
        action.prepare(known),
        send::Prepared::Ready(send::Config::new(file_data("main.rs"), send_params(), None))
    );
}

#[test]
fn send_checks_run_in_order_with_a_secret() {
    let mut action = send::Action::from_args(send_args()).unwrap();
    action.secret = Some("s3cret".to_string());
    let mut known = nothing_known();
    known.params = Some(Ok(send_params()));
    known.file = Some(Ok(file_data("main.rs")));
    assert_eq!(action.prepare(known.clone()), send::Prepared::Due(send::Check::Secret, known.clone()));
    known.hashed_secret = Some(Ok("hashed".to_string()));
    assert_eq!(
        action.prepare(known.clone()),
        send::Prepared::Due(send::Check::Encrypt, known.clone())
    );
    known.encrypted = Some(Ok(file_data("main.rs.enc")));
    assert_eq!(
        action.prepare(known),
        send::Prepared::Ready(send::Config::new(
            file_data("main.rs.enc"),
            send_params(),
            Some("hashed".to_string())
        ))
    );
}

#[test]
fn send_checks_end_at_the_first_failure() {
    let mut action = send::Action::from_args(send_args()).unwrap();
    action.secret = Some("s3cret".to_string());
    let bad = |text: &str| Error::IO(IoError::Request(text.to_string()));

    let mut known = nothing_known();
    known.params = Some(Err(bad("params")));
    known.file = Some(Err(bad("file")));
    assert_eq!(action.prepare(known), send::Prepared::Failed(bad("params")));

    let mut known = nothing_known();
    known.params = Some(Ok(send_params()));
    known.file = Some(Err(bad("file")));
    known.hashed_secret = Some(Err(bad("secret")));
    assert_eq!(action.prepare(known), send::Prepared::Failed(bad("file")));

    let mut known = nothing_known();
    known.params = Some(Ok(send_params()));
    known.file = Some(Ok(file_data("main.rs")));
    known.hashed_secret = Some(Err(bad("secret")));
    known.encrypted = Some(Err(bad("encrypt")));
    assert_eq!(action.prepare(known.clone()), send::Prepared::Failed(bad("secret")));

    known.hashed_secret = Some(Ok("hashed".to_string()));
    assert_eq!(action.prepare(known), send::Prepared::Failed(bad("encrypt")));
}

#[test]
fn send_without_secret_looks_at_no_outcome_of_one() {
    let action = send::Action::from_args(send_args()).unwrap();
    let mut known = nothing_known();
    known.params = Some(Ok(send_params()));
    known.file = Some(Ok(file_data("main.rs")));
    known.hashed_secret = Some(Err(Error::Argument));
    known.encrypted = Some(Err(Error::Argument));
    assert_eq!(
        action.prepare(known),
        send::Prepared::Ready(send::Config::new(file_data("main.rs"), send_params(), None))
    );
}
