//! Fetching a gistit and then previewing it, saving it, or asking: what is
//! asked of the server, and what each answer and each choice leads to.

use vstd::prelude::*;
use vstd::string::StringExecFns;
use vstd::string::StringSliceAdditionalSpecFns;
use vstd::utf8::encode_utf8;
use crate::cli::payload::{FetchParams, FetchQuery, GistitPayload};
use crate::path::{join, joined};

verus! {

/// Status of an answer that carries the gistit.
pub const STATUS_OK: u16 = 200;

/// Status of an answer that wants a secret, or another one.
pub const STATUS_UNAUTHORIZED: u16 = 401;

/// Status of an answer that knows no such gistit.
pub const STATUS_NOT_FOUND: u16 = 404;

/// The largest number of earlier refusals after which the secret is asked
/// for once more.
pub const SECRET_RETRY_LIMIT: u8 = 2;

/// Why the action failed.
#[derive(Debug, Clone, Copy, PartialEq, Eq, Structural)]
pub enum Failure {
    /// A required argument is missing from arguments and settings alike.
    Argument,
    /// The address is no URL.
    InvalidUrl,
    /// The server answered with what fetching does not know.
    FetchUnexpectedResponse,
    /// The secret was asked for as often as is allowed.
    FetchEnoughRetries,
    /// The server knows no such gistit.
    FetchNotFound,
    /// The settings name no place to save to.
    Settings,
}

/// The arguments of the command line, as far as fetching reads them.
#[derive(Debug, Clone, PartialEq, Eq)]
pub struct Args {
    pub hash: Option<String>,
    pub url: Option<String>,
    pub secret: Option<String>,
}

/// The settings of fetching, each of which may be left open. The arguments
/// give one such value and the settings file another; the two are merged
/// before an action is made of them.
#[derive(Debug, Clone, PartialEq, Eq)]
pub struct GistitFetch {
    pub colorscheme: Option<String>,
    pub preview: Option<bool>,
    pub save: Option<bool>,
}

/// The fetch action with its parameters.
#[derive(Debug, Clone, PartialEq, Eq)]
pub struct Action {
    pub hash: Option<String>,
    pub url: Option<String>,
    pub secret: Option<String>,
    pub colorscheme: Option<String>,
    pub preview: bool,
    pub save: bool,
}

/// What is done with a gistit that was fetched.
#[derive(Debug, Clone, Copy, PartialEq, Eq, Structural)]
pub struct Plan {
    /// Whether the report leaves out the hint at the flags.
    pub prevent_ask_tip: bool,
    /// Whether the gistit is shown in the terminal.
    pub preview: bool,
    /// Whether the gistit is saved.
    pub save: bool,
    /// Whether the user is asked what to do.
    pub ask: bool,
}

/// What the user chose to do with a gistit.
#[derive(Debug, Clone, Copy, PartialEq, Eq, Structural)]
pub enum Choice {
    SaveLocally,
    PreviewInTerminal,
    OpenInBrowser,
}

/// The colorscheme of a preview where the action names none.
pub const DEFAULT_COLORSCHEME: &'static str = "ansi";

/// Where the gistits are shown on the web.
pub const WEB_ADDRESS: &'static str = "https://gistit.vercel.app/";

/// Hint that closes the report where the user is going to be asked.
pub const ASK_TIP: &'static str =
    "\nYou can disable the asking behavior by using one of the flags: '--save', '--preview'\n";

impl Action {
    /// The action that the arguments and the merged settings ask for.
    /// Colorscheme, preview and save are required of the settings: where one
    /// of them is left open, the arguments are refused.
    pub fn from_args(args: Args, merged: GistitFetch) -> (r: Result<Action, Failure>)
        ensures
            match (merged.colorscheme, merged.preview, merged.save) {
                (Some(colorscheme), Some(preview), Some(save)) => r == Ok::<Action, Failure>(
                    Action {
                        hash: args.hash,
                        url: args.url,
                        secret: args.secret,
                        colorscheme: Some(colorscheme),
                        preview,
                        save,
                    },
                ),
                _ => r == Err::<Action, Failure>(Failure::Argument),
            },
    {
        let colorscheme = match merged.colorscheme {
            Some(colorscheme) => colorscheme,
            None => { return Err(Failure::Argument); },
        };
        let preview = match merged.preview {
            Some(preview) => preview,
            None => { return Err(Failure::Argument); },
        };
        let save = match merged.save {
            Some(save) => save,
            None => { return Err(Failure::Argument); },
        };
        Ok(
            Action {
                hash: args.hash,
                url: args.url,
                secret: args.secret,
                colorscheme: Some(colorscheme),
                preview,
                save,
            },
        )
    }

    /// The secret that is to be checked once the check of the parameters
    /// has ended as `params`: the action's secret, where it has one and the
    /// parameters passed. The parameters are checked first, and after a
    /// failure of theirs nothing else is checked.
    pub fn secret_to_check(&self, params: &Result<FetchParams, Failure>) -> (due: Option<&str>)
        ensures
            match (*params, self.secret) {
                (Ok(_), Some(secret)) => due matches Some(text) && text@ == secret@,
                _ => due is None,
            },
    {
        match params {
            Ok(_) => match &self.secret {
                Some(secret) => Some(secret.as_str()),
                None => None,
            },
            Err(_) => None,
        }
    }

    /// What the checks of this action end in. `params` is the outcome of
    /// the check of the parameters, `secret` that of the check of the
    /// secret where it was run.
    pub open spec fn spec_prepare(
        &self,
        params: Result<FetchParams, Failure>,
        secret: Option<Result<(), Failure>>,
    ) -> Result<Config, Failure> {
        match params {
            Err(error) => Err(error),
            Ok(checked) => match (self.secret, secret) {
                (Some(_), Some(Err(error))) => Err(error),
                _ => Ok(Config { params: checked, maybe_secret: self.secret }),
            },
        }
    }

    /// The checked data of this action, or the failure of a check, handed
    /// on as it is. A failure of the parameters comes first. The outcome of
    /// the secret's check counts only where the action has a secret. Where
    /// no check failed, the data is the checked parameters and the action's
    /// secret.
    pub fn prepare(&self, params: Result<FetchParams, Failure>, secret: Option<Result<(), Failure>>) -> (r:
        Result<Config, Failure>)
        ensures
            r == self.spec_prepare(params, secret),
    {
        let checked = match params {
            Ok(checked) => checked,
            Err(error) => { return Err(error); },
        };
        match &self.secret {
            Some(own) => {
                match secret {
                    Some(Err(error)) => { return Err(error); },
                    _ => {},
                }
                Ok(Config::new(checked, Some(own.clone())))
            },
            None => Ok(Config::new(checked, None)),
        }
    }

    /// What is done with the gistit that was fetched: it is previewed and
    /// saved as the action says, and the user is asked where it says
    /// neither.
    pub fn plan(&self) -> (plan: Plan)
        ensures
            plan == (Plan {
                prevent_ask_tip: self.preview || self.save,
                preview: self.preview,
                save: self.save,
                ask: !self.save && !self.preview,
            }),
    {
        Plan {
            prevent_ask_tip: self.preview || self.save,
            preview: self.preview,
            save: self.save,
            ask: !self.save && !self.preview,
        }
    }

    /// The colorscheme of the preview: the action's, or the default.
    pub fn preview_colorscheme(&self) -> (colorscheme: &str)
        ensures
            colorscheme@ == match self.colorscheme {
                Some(own) => own@,
                None => DEFAULT_COLORSCHEME@,
            },
    {
        match &self.colorscheme {
            Some(own) => own.as_str(),
            None => DEFAULT_COLORSCHEME,
        }
    }
}

/// What the entry `index` of the question stands for, in the order in which
/// the entries are shown.
pub fn choice(index: usize) -> (chosen: Choice)
    requires
        index <= 2,
    ensures
        chosen == if index == 0 {
            Choice::SaveLocally
        } else if index == 1 {
            Choice::PreviewInTerminal
        } else {
            Choice::OpenInBrowser
        },
{
    if index == 0 {
        Choice::SaveLocally
    } else if index == 1 {
        Choice::PreviewInTerminal
    } else {
        Choice::OpenInBrowser
    }
}

/// Title of a preview: the file's name and the author, and the description
/// where there is one, each as the terminal is to show it.
pub open spec fn spec_preview_header(
    name: Seq<char>,
    author: Seq<char>,
    description: Option<Seq<char>>,
) -> Seq<char> {
    match description {
        Some(text) => name + " | "@ + author + " | "@ + text,
        None => name + " | "@ + author,
    }
}

/// Title of a preview, made of its styled parts.
pub fn preview_header(name: &str, author: &str, description: Option<&str>) -> (header: String)
    ensures
        header@ == spec_preview_header(
            name@,
            author@,
            match description {
                Some(text) => Some(text@),
                None => None,
            },
        ),
{
    let mut header = String::from_str(name);
    header.append(" | ");
    header.append(author);
    match description {
        Some(text) => {
            header.append(" | ");
            header.append(text);
        },
        None => {},
    }
    header
}

/// Where the file `name` is saved, as the bytes of a path: under the place
/// that the settings name.
/// Settings that name no place are refused.
pub fn save_path(save_location: Option<&[u8]>, name: &str) -> (r: Result<Vec<u8>, Failure>)
    ensures
        match save_location {
            Some(place) => r is Ok && r.unwrap()@ == joined(place@, encode_utf8(name@)),
            None => r == Err::<Vec<u8>, Failure>(Failure::Settings),
        },
{
    match save_location {
        Some(place) => Ok(join(place, name.as_bytes())),
        None => Err(Failure::Settings),
    }
}

/// Hint that closes the report of a fetch: none where the action said what
/// to do with the gistit.
pub fn success_tip(prevent_ask_tip: bool) -> (tip: &'static str)
    ensures
        tip@ == if prevent_ask_tip {
            ""@
        } else {
            ASK_TIP@
        },
{
    if prevent_ask_tip {
        ""
    } else {
        ASK_TIP
    }
}

/// Where the gistit with this hash is shown on the web.
pub fn web_address(hash: &str) -> (address: String)
    ensures
        address@ == WEB_ADDRESS@ + hash@,
{
    let mut address = String::from_str(WEB_ADDRESS);
    address.append(hash);
    address
}

/// The checked data that is dispatched.
#[derive(Debug, Clone, PartialEq, Eq)]
pub struct Config {
    pub params: FetchParams,
    pub maybe_secret: Option<String>,
}

impl Config {
    /// The data made of its two parts.
    pub fn new(params: FetchParams, maybe_secret: Option<String>) -> (config: Config)
        ensures
            config.params == params,
            config.maybe_secret == maybe_secret,
    {
        Config { params, maybe_secret }
    }

    /// What the server is asked for: the hash that the parameters name,
    /// and the secret. An address that is no URL is refused.
    pub fn into_json(self) -> (r: Result<FetchQuery, Failure>)
        requires
            self.params.names_a_gistit(),
        ensures
            match self.params.spec_final_hash() {
                Ok(hash) => r is Ok && r.unwrap().hash@ == hash && r.unwrap().secret
                    == self.maybe_secret,
                Err(_) => r == Err::<FetchQuery, Failure>(Failure::InvalidUrl),
            },
    {
        match self.params.final_hash() {
            Ok(hash) => Ok(FetchQuery { hash, secret: self.maybe_secret }),
            Err(_) => Err(Failure::InvalidUrl),
        }
    }

    /// What the server is asked for, where the parameters name a gistit at
    /// all; nothing where they do not.
    pub fn try_into_json(self) -> (r: Option<Result<FetchQuery, Failure>>)
        ensures
            r is Some <==> self.params.names_a_gistit(),
            r is Some ==> match self.params.spec_final_hash() {
                Ok(hash) => r.unwrap() is Ok && r.unwrap().unwrap().hash@ == hash
                    && r.unwrap().unwrap().secret == self.maybe_secret,
                Err(_) => r.unwrap() == Err::<FetchQuery, Failure>(Failure::InvalidUrl),
            },
    {
        match self.params.try_final_hash() {
            Some(_) => Some(self.into_json()),
            None => None,
        }
    }
}

/// The answer of the server to a fetch: the gistit, or an error message.
#[derive(Debug, Clone, PartialEq, Eq)]
pub struct Response {
    pub success: Option<GistitPayload>,
    pub error: Option<String>,
}

impl Response {
    /// The gistit that the answer carries; an answer that carries an error
    /// message instead is an unexpected one. An answer holds one of the two.
    pub fn into_inner(self) -> (r: Result<GistitPayload, Failure>)
        requires
            self.success is Some || self.error is Some,
        ensures
            self.success is Some ==> r == Ok::<GistitPayload, Failure>(self.success.unwrap()),
            self.success is None ==> r == Err::<GistitPayload, Failure>(
                Failure::FetchUnexpectedResponse,
            ),
    {
        match self.success {
            Some(payload) => Ok(payload),
            None => Err(Failure::FetchUnexpectedResponse),
        }
    }
}

/// How often the server has refused the secret during one fetch. The count
/// belongs to the fetch that carries it, not to the process.
#[derive(Debug, Clone, Copy, PartialEq, Eq, Structural)]
pub struct SecretRetries {
    pub count: u8,
}

/// What is to be done about an answer of the server.
#[derive(Debug, Clone, Copy, PartialEq, Eq)]
pub enum FetchStep {
    /// Read the gistit out of the answer and go by the plan.
    Deliver,
    /// Warn, ask for a secret with this prompt, then fetch again with it.
    AskSecret { warning: &'static str, prompt: &'static str },
    /// Give up.
    Fail(Failure),
}

/// Warning after a secret that the server refused.
pub const WARN_SECRET_INVALID: &'static str = "Secret is invalid";

/// Prompt after a secret that the server refused.
pub const PROMPT_TRY_AGAIN: &'static str = "\ntry again";

/// Warning where the gistit has a secret and none was given.
pub const WARN_SECRET_REQUIRED: &'static str = "A secret is required to fetch this gistit";

/// Prompt where the gistit has a secret and none was given.
pub const PROMPT_SECRET: &'static str = "\nsecret";

impl SecretRetries {
    /// No refusal yet.
    pub fn new() -> (fresh: SecretRetries)
        ensures
            fresh.count == 0,
    {
        SecretRetries { count: 0 }
    }

    /// What the status of the server's answer leads to. A refusal is
    /// counted, and leads to asking for a secret while no more than
    /// `SECRET_RETRY_LIMIT` refusals came before it.
    pub open spec fn spec_dispatch(self, status: u16, has_secret: bool) -> FetchStep {
        if status == STATUS_OK {
            FetchStep::Deliver
        } else if status == STATUS_UNAUTHORIZED {
            if self.count <= SECRET_RETRY_LIMIT {
                if has_secret {
                    FetchStep::AskSecret { warning: WARN_SECRET_INVALID, prompt: PROMPT_TRY_AGAIN }
                } else {
                    FetchStep::AskSecret { warning: WARN_SECRET_REQUIRED, prompt: PROMPT_SECRET }
                }
            } else {
                FetchStep::Fail(Failure::FetchEnoughRetries)
            }
        } else if status == STATUS_NOT_FOUND {
            FetchStep::Fail(Failure::FetchNotFound)
        } else {
            FetchStep::Fail(Failure::FetchUnexpectedResponse)
        }
    }

    /// What the status of the server's answer leads to; counts a refusal.
    /// The count stops at its largest value, so that a fetch that has given
    /// up on the secret never asks for it again.
    pub fn dispatch(&mut self, status: u16, has_secret: bool) -> (step: FetchStep)
        ensures
            step == old(self).spec_dispatch(status, has_secret),
            final(self).count == if status == STATUS_UNAUTHORIZED && old(self).count < u8::MAX {
                (old(self).count + 1) as u8
            } else {
                old(self).count
            },
    {
        if status == STATUS_OK {
            FetchStep::Deliver
        } else if status == STATUS_UNAUTHORIZED {
            let before: u8 = self.count;
            if before < u8::MAX {
                self.count = before + 1;
            }
            if before <= SECRET_RETRY_LIMIT {
                if has_secret {
                    FetchStep::AskSecret { warning: WARN_SECRET_INVALID, prompt: PROMPT_TRY_AGAIN }
                } else {
                    FetchStep::AskSecret { warning: WARN_SECRET_REQUIRED, prompt: PROMPT_SECRET }
                }
            } else {
                FetchStep::Fail(Failure::FetchEnoughRetries)
            }
        } else if status == STATUS_NOT_FOUND {
            FetchStep::Fail(Failure::FetchNotFound)
        } else {
            FetchStep::Fail(Failure::FetchUnexpectedResponse)
        }
    }
}

/// The secret is asked for no more than three times during one fetch:
/// a refusal leads to asking exactly while fewer than three refusals came
/// before it, and to giving up ever after.
pub proof fn law_secret_is_asked_thrice(retries: SecretRetries, has_secret: bool)
    ensures
        retries.spec_dispatch(STATUS_UNAUTHORIZED, has_secret) is AskSecret <==> retries.count
            < 3,
        retries.count >= 3 ==> retries.spec_dispatch(STATUS_UNAUTHORIZED, has_secret) == FetchStep::Fail(Failure::FetchEnoughRetries),
{
}

} // verus!
