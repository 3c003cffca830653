use gistit::cli::payload::{FetchParams, FetchQuery, GistitInner, GistitPayload};
use gistit::gistit_cli::fetch::{
    choice, preview_header, save_path, success_tip, web_address, Action, Args, Choice, Config, Failure,
    FetchStep, GistitFetch, Plan, Response, SecretRetries,
};

fn args() -> Args {
    Args { hash: None, url: Some("https://gistit.vercel.app/abc".to_string()), secret: None }
}

fn settings(colorscheme: Option<&str>, preview: Option<bool>, save: Option<bool>) -> GistitFetch {
    GistitFetch { colorscheme: colorscheme.map(str::to_string), preview, save }
}

fn payload() -> GistitPayload {
    GistitPayload {
        hash: "abc".to_string(),
        author: "me".to_string(),
        description: None,
        colorscheme: "ansi".to_string(),
        lifespan: 60,
        secret: None,
        timestamp: "0".to_string(),
        gistit: GistitInner {
            name: "a.txt".to_string(),
            lang: "text".to_string(),
            size: 0,
            data: String::new(),
        },
    }
}

#[test]
fn action_takes_arguments_and_merged_settings() {
    let action = Action::from_args(args(), settings(Some("ansi"), Some(true), Some(false)));
    assert_eq!(
        action,
        Ok(Action {
            hash: None,
            url: Some("https://gistit.vercel.app/abc".to_string()),
            secret: None,
            colorscheme: Some("ansi".to_string()),
            preview: true,
            save: false,
        })
    );
}

#[test]
fn action_needs_every_setting() {
    for merged in [
        settings(None, Some(true), Some(true)),
        settings(Some("ansi"), None, Some(true)),
        settings(Some("ansi"), Some(true), None),
        settings(None, None, None),
    ] {
        assert_eq!(Action::from_args(args(), merged), Err(Failure::Argument));
    }
}

#[test]
fn plan_asks_where_the_action_says_nothing() {
    let mut action =
        Action::from_args(args(), settings(Some("ansi"), Some(false), Some(false))).unwrap();
    assert_eq!(
        action.plan(),
        Plan { prevent_ask_tip: false, preview: false, save: false, ask: true }
    );
    action.preview = true;
    assert_eq!(
        action.plan(),
        Plan { prevent_ask_tip: true, preview: true, save: false, ask: false }
    );
    action.save = true;
    assert_eq!(
        action.plan(),
        Plan { prevent_ask_tip: true, preview: true, save: true, ask: false }
    );
    action.preview = false;
    assert_eq!(
        action.plan(),
        Plan { prevent_ask_tip: true, preview: false, save: true, ask: false }
    );
}

#[test]
fn preview_colorscheme_defaults_to_ansi() {
    let mut action =
        Action::from_args(args(), settings(Some("dracula"), Some(true), Some(false))).unwrap();
    assert_eq!(action.preview_colorscheme(), "dracula");
    action.colorscheme = None;
    assert_eq!(action.preview_colorscheme(), "ansi");
}

#[test]
fn choices_are_in_the_order_shown() {
    assert_eq!(choice(0), Choice::SaveLocally);
    assert_eq!(choice(1), Choice::PreviewInTerminal);
    assert_eq!(choice(2), Choice::OpenInBrowser);
}

#[test]
fn preview_header_joins_its_parts() {
    assert_eq!(preview_header("a.txt", "me", None), "a.txt | me");
    assert_eq!(preview_header("a.txt", "me", Some("notes")), "a.txt | me | notes");
    assert_eq!(preview_header("", "", Some("")), " |  | ");
}

#[test]
fn tip_is_left_out_where_the_action_said_what_to_do() {
    assert_eq!(success_tip(true), "");
    assert_eq!(
        success_tip(false),
        "\nYou can disable the asking behavior by using one of the flags: '--save', '--preview'\n"
    );
}

#[test]
fn web_address_ends_in_the_hash() {
    assert_eq!(web_address("abc"), "https://gistit.vercel.app/abc");
}

#[test]
fn prepare_carries_params_and_secret() {
    let mut action =
        Action::from_args(args(), settings(Some("ansi"), Some(true), Some(false))).unwrap();
    action.secret = Some("s".to_string());
    let params = FetchParams { hash: Some("abc".to_string()), url: None };
    assert_eq!(
        action.prepare(Ok(params.clone()), Some(Ok(()))),
        Ok(Config::new(params, Some("s".to_string())))
    );
}

#[test]
fn prepare_hands_the_first_failure_on() {
    let mut action =
        Action::from_args(args(), settings(Some("ansi"), Some(true), Some(false))).unwrap();
    action.secret = Some("s".to_string());
    let params = FetchParams { hash: Some("abc".to_string()), url: None };
    assert_eq!(
        action.prepare(Err(Failure::InvalidUrl), Some(Err(Failure::Argument))),
        Err(Failure::InvalidUrl)
    );
    assert_eq!(
        action.prepare(Ok(params.clone()), Some(Err(Failure::Argument))),
        Err(Failure::Argument)
    );
    assert_eq!(action.secret_to_check(&Ok(params.clone())), Some("s"));
    assert_eq!(action.secret_to_check(&Err(Failure::InvalidUrl)), None);
    action.secret = None;
    assert_eq!(action.secret_to_check(&Ok(params.clone())), None);
    assert_eq!(
        action.prepare(Ok(params.clone()), Some(Err(Failure::Argument))),
        Ok(Config::new(params, None))
    );
}

#[test]
fn query_takes_the_hash_out_of_the_address() {
    let params = FetchParams { hash: None, url: Some("https://gistit.vercel.app/abc".to_string()) };
    let got = Config::new(params, Some("s".to_string())).into_json();
    assert_eq!(got, Ok(FetchQuery { hash: "abc".to_string(), secret: Some("s".to_string()) }));
}

#[test]
fn query_refuses_what_is_no_url() {
    let params = FetchParams { hash: None, url: Some("::".to_string()) };
    assert_eq!(Config::new(params.clone(), None).into_json(), Err(Failure::InvalidUrl));
    assert_eq!(Config::new(params, None).try_into_json(), Some(Err(Failure::InvalidUrl)));
}

#[test]
fn query_is_not_tried_without_hash_and_address() {
    let params = FetchParams { hash: None, url: None };
    assert_eq!(Config::new(params, None).try_into_json(), None);
}

#[test]
fn response_with_payload_is_the_payload() {
    let response = Response { success: Some(payload()), error: None };
    assert_eq!(response.into_inner(), Ok(payload()));
}

#[test]
fn response_with_error_is_unexpected() {
    let response = Response { success: None, error: Some("boom".to_string()) };
    assert_eq!(response.into_inner(), Err(Failure::FetchUnexpectedResponse));
}

#[test]
fn ok_answer_is_delivered() {
    let mut retries = SecretRetries::new();
    assert_eq!(retries.dispatch(200, true), FetchStep::Deliver);
    assert_eq!(retries.count, 0);
}

#[test]
fn secret_is_asked_for_three_times() {
    let mut retries = SecretRetries::new();
    assert_eq!(
        retries.dispatch(401, false),
        FetchStep::AskSecret {
            warning: "A secret is required to fetch this gistit",
            prompt: "\nsecret",
        }
    );
    for _ in 0..2 {
        assert_eq!(
            retries.dispatch(401, true),
            FetchStep::AskSecret { warning: "Secret is invalid", prompt: "\ntry again" }
        );
    }
    assert_eq!(retries.dispatch(401, true), FetchStep::Fail(Failure::FetchEnoughRetries));
    assert_eq!(retries.count, 4);
}

#[test]
fn other_answers_fail() {
    let mut retries = SecretRetries::new();
    assert_eq!(retries.dispatch(404, false), FetchStep::Fail(Failure::FetchNotFound));
    assert_eq!(retries.dispatch(500, false), FetchStep::Fail(Failure::FetchUnexpectedResponse));
    assert_eq!(retries.count, 0);
}

#[test]
fn file_is_saved_under_the_place_of_the_settings() {
    assert_eq!(save_path(Some(b"/home/me/gistits"), "a.txt"), Ok(b"/home/me/gistits/a.txt".to_vec()));
    assert_eq!(save_path(Some(b"/home/me/"), "a.txt"), Ok(b"/home/me/a.txt".to_vec()));
    assert_eq!(save_path(Some(&[0x2f, 0xff]), "\u{e9}"), Ok(vec![0x2f, 0xff, 0x2f, 0xc3, 0xa9]));
}

#[test]
fn saving_needs_a_place() {
    assert_eq!(save_path(None, "a.txt"), Err(Failure::Settings));
}

#[test]
fn retry_count_stops_at_its_largest_value() {
    let mut retries = SecretRetries { count: 255 };
    assert_eq!(retries.dispatch(401, true), FetchStep::Fail(Failure::FetchEnoughRetries));
    assert_eq!(retries.count, 255);
}
