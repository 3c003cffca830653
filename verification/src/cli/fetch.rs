//! Fetching a gistit from the server: what is asked, and what each answer
//! of the server leads to.

use vstd::prelude::*;
use crate::cli::errors::{Error, FetchError, IoError, ParamsError};
use crate::cli::payload::{FetchParams, FetchQuery, GistitPayload};

verus! {

/// Status of an answer that carries the gistit.
pub const STATUS_OK: u16 = 200;

/// Status of an answer that wants a secret, or another one.
pub const STATUS_UNAUTHORIZED: u16 = 401;

/// Status of an answer that knows no such gistit.
pub const STATUS_NOT_FOUND: u16 = 404;

/// The largest number of earlier refusals after which the secret is asked
/// for once more.
pub const SECRET_RETRY_LIMIT: u8 = 2;

/// The arguments of the command line, as far as fetching reads them.
#[derive(Debug, Clone, PartialEq, Eq)]
pub struct Args {
    pub hash: Option<String>,
    pub url: Option<String>,
    pub secret: Option<String>,
    pub theme: Option<String>,
    pub no_syntax_highlighting: bool,
}

/// The fetch action with its parameters.
#[derive(Debug, Clone, PartialEq, Eq)]
pub struct Action {
    pub hash: Option<String>,
    pub url: Option<String>,
    pub secret: Option<String>,
    pub colorscheme: String,
    pub no_syntax_highlighting: bool,
}

impl Action {
    /// The action that the arguments ask for. The theme is required: without
    /// it the arguments are refused.
    pub fn from_args(args: Args) -> (r: Result<Action, Error>)
        ensures
            match args.theme {
                Some(theme) => r == Ok::<Action, Error>(
                    Action {
                        hash: args.hash,
                        url: args.url,
                        secret: args.secret,
                        colorscheme: theme,
                        no_syntax_highlighting: args.no_syntax_highlighting,
                    },
                ),
                None => r == Err::<Action, Error>(Error::Argument),
            },
    {
        match args.theme {
            Some(theme) => Ok(
                Action {
                    hash: args.hash,
                    url: args.url,
                    secret: args.secret,
                    colorscheme: theme,
                    no_syntax_highlighting: args.no_syntax_highlighting,
                },
            ),
            None => Err(Error::Argument),
        }
    }

    /// The secret that is to be checked once the check of the parameters
    /// has ended as `params`: the action's secret, where it has one and the
    /// parameters passed. The parameters are checked first, and after a
    /// failure of theirs nothing else is checked.
    pub fn secret_to_check(&self, params: &Result<FetchParams, Error>) -> (due: Option<&str>)
        ensures
            match (*params, self.secret) {
                (Ok(_), Some(secret)) => due matches Some(text) && text@ == secret@,
                _ => due is None,
            },
    {
        match params {
            Ok(_) => match &self.secret {
                Some(secret) => Some(secret.as_str()),
                None => None,
            },
            Err(_) => None,
        }
    }

    /// What the checks of this action end in. `params` is the outcome of
    /// the check of the parameters, `secret` that of the check of the
    /// secret where it was run.
    pub open spec fn spec_prepare(
        &self,
        params: Result<FetchParams, Error>,
        secret: Option<Result<(), Error>>,
    ) -> Result<Config, Error> {
        match params {
            Err(error) => Err(error),
            Ok(checked) => match (self.secret, secret) {
                (Some(_), Some(Err(error))) => Err(error),
                _ => Ok(Config { params: checked, maybe_secret: self.secret }),
            },
        }
    }

    /// The checked data of this action, or the failure of a check, handed
    /// on as it is. A failure of the parameters comes first. The outcome of
    /// the secret's check counts only where the action has a secret. Where
    /// no check failed, the data is the checked parameters and the action's
    /// secret.
    pub fn prepare(&self, params: Result<FetchParams, Error>, secret: Option<Result<(), Error>>) -> (r:
        Result<Config, Error>)
        ensures
            r == self.spec_prepare(params, secret),
    {
        let checked = match params {
            Ok(checked) => checked,
            Err(error) => { return Err(error); },
        };
        match &self.secret {
            Some(own) => {
                match secret {
                    Some(Err(error)) => { return Err(error); },
                    _ => {},
                }
                Ok(Config::new(checked, Some(own.clone())))
            },
            None => Ok(Config::new(checked, None)),
        }
    }
}

/// The checked data that is dispatched.
#[derive(Debug, Clone, PartialEq, Eq)]
pub struct Config {
    pub params: FetchParams,
    pub maybe_secret: Option<String>,
}

impl Config {
    /// The data made of its two parts.
    pub fn new(params: FetchParams, maybe_secret: Option<String>) -> (config: Config)
        ensures
            config.params == params,
            config.maybe_secret == maybe_secret,
    {
        Config { params, maybe_secret }
    }

    /// What the server is asked for: the hash that the parameters name,
    /// and the secret. An address that is no URL is refused as
    /// `ParamsError::InvalidUrl`, with the words in which `url` refuses it.
    pub fn into_json(self) -> (r: Result<FetchQuery, Error>)
        requires
            self.params.names_a_gistit(),
        ensures
            match self.params.spec_final_hash() {
                Ok(hash) => r is Ok && r.unwrap().hash@ == hash && r.unwrap().secret
                    == self.maybe_secret,
                Err(message) => r matches Err(Error::Params(ParamsError::InvalidUrl(got))) && got@
                    == message,
            },
    {
        match self.params.final_hash() {
            Ok(hash) => Ok(FetchQuery { hash, secret: self.maybe_secret }),
            Err(message) => Err(Error::Params(ParamsError::InvalidUrl(message))),
        }
    }

    /// What the server is asked for, where the parameters name a gistit at
    /// all; nothing where they do not.
    pub fn try_into_json(self) -> (r: Option<Result<FetchQuery, Error>>)
        ensures
            r is Some <==> self.params.names_a_gistit(),
            r is Some ==> match self.params.spec_final_hash() {
                Ok(hash) => r.unwrap() is Ok && r.unwrap().unwrap().hash@ == hash
                    && r.unwrap().unwrap().secret == self.maybe_secret,
                Err(message) => r.unwrap() matches Err(Error::Params(ParamsError::InvalidUrl(got)))
                    && got@ == message,
            },
    {
        match self.params.try_final_hash() {
            Some(_) => Some(self.into_json()),
            None => None,
        }
    }
}

/// The answer of the server to a fetch: the gistit, or an error message.
#[derive(Debug, Clone, PartialEq, Eq)]
pub struct Response {
    pub success: Option<GistitPayload>,
    pub error: Option<String>,
}

impl Response {
    /// The gistit that the answer carries; where it carries none, its error
    /// message as a failed request. An answer holds one of the two.
    pub fn into_inner(self) -> (r: Result<GistitPayload, Error>)
        requires
            self.success is Some || self.error is Some,
        ensures
            self.success is Some ==> r == Ok::<GistitPayload, Error>(self.success.unwrap()),
            self.success is None ==> r == Err::<GistitPayload, Error>(
                Error::IO(IoError::Request(self.error.unwrap())),
            ),
    {
        match self.success {
            Some(payload) => Ok(payload),
            None => match self.error {
                Some(message) => Err(Error::IO(IoError::Request(message))),
                None => vstd::pervasive::unreached(),
            },
        }
    }
}

/// How often the server has refused the secret during one fetch. The count
/// belongs to the fetch that carries it, not to the process.
#[derive(Debug, Clone, Copy, PartialEq, Eq, Structural)]
pub struct SecretRetries {
    pub count: u8,
}

/// What is to be done about an answer of the server.
#[derive(Debug, Clone, PartialEq, Eq)]
pub enum FetchStep {
    /// Read the gistit out of the answer and show it.
    Show,
    /// Ask for a secret with this prompt, then fetch again with it.
    AskSecret { prompt: &'static str },
    /// Give up.
    Fail(Error),
}

/// Prompt after a secret that the server refused.
pub const PROMPT_SECRET_INCORRECT: &'static str = "Secret is incorrect, try again";

/// Prompt where the gistit has a secret and none was given.
pub const PROMPT_SECRET_REQUIRED: &'static str = "A secret is required to fetch this Gistit";

impl SecretRetries {
    /// No refusal yet.
    pub fn new() -> (fresh: SecretRetries)
        ensures
            fresh.count == 0,
    {
        SecretRetries { count: 0 }
    }

    /// What the status of the server's answer leads to. A refusal is
    /// counted, and leads to asking for a secret while no more than
    /// `SECRET_RETRY_LIMIT` refusals came before it.
    pub open spec fn spec_dispatch(self, status: u16, has_secret: bool) -> FetchStep {
        if status == STATUS_OK {
            FetchStep::Show
        } else if status == STATUS_UNAUTHORIZED {
            if self.count <= SECRET_RETRY_LIMIT {
                FetchStep::AskSecret {
                    prompt: if has_secret {
                        PROMPT_SECRET_INCORRECT
                    } else {
                        PROMPT_SECRET_REQUIRED
                    },
                }
            } else {
                FetchStep::Fail(Error::Fetch(FetchError::ExaustedSecretRetries))
            }
        } else if status == STATUS_NOT_FOUND {
            FetchStep::Fail(Error::Fetch(FetchError::NotFound))
        } else {
            FetchStep::Fail(Error::Fetch(FetchError::UnexpectedResponse))
        }
    }

    /// What the status of the server's answer leads to; counts a refusal.
    /// The count stops at its largest value, so that a fetch that has given
    /// up on the secret never asks for it again.
    pub fn dispatch(&mut self, status: u16, has_secret: bool) -> (step: FetchStep)
        ensures
            step == old(self).spec_dispatch(status, has_secret),
            final(self).count == if status == STATUS_UNAUTHORIZED && old(self).count < u8::MAX {
                (old(self).count + 1) as u8
            } else {
                old(self).count
            },
    {
        if status == STATUS_OK {
            FetchStep::Show
        } else if status == STATUS_UNAUTHORIZED {
            let before: u8 = self.count;
            if before < u8::MAX {
                self.count = before + 1;
            }
            if before <= SECRET_RETRY_LIMIT {
                FetchStep::AskSecret {
                    prompt: if has_secret {
                        PROMPT_SECRET_INCORRECT
                    } else {
                        PROMPT_SECRET_REQUIRED
                    },
                }
            } else {
                FetchStep::Fail(Error::Fetch(FetchError::ExaustedSecretRetries))
            }
        } else if status == STATUS_NOT_FOUND {
            FetchStep::Fail(Error::Fetch(FetchError::NotFound))
        } else {
            FetchStep::Fail(Error::Fetch(FetchError::UnexpectedResponse))
        }
    }
}

/// The secret is asked for no more than three times during one fetch:
/// a refusal leads to asking exactly while fewer than three refusals came
/// before it, and to giving up ever after.
pub proof fn law_secret_is_asked_thrice(retries: SecretRetries, has_secret: bool)
    ensures
        retries.spec_dispatch(STATUS_UNAUTHORIZED, has_secret) is AskSecret <==> retries.count
            < 3,
        retries.count >= 3 ==> retries.spec_dispatch(STATUS_UNAUTHORIZED, has_secret) == FetchStep::Fail(Error::Fetch(FetchError::ExaustedSecretRetries)),
{
}

} // verus!
