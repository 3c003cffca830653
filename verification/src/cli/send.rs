//! Sending a gistit to the server: what is uploaded, and what the server's
//! answer leads to.

use vstd::prelude::*;
use vstd::string::StringExecFns;
use crate::cli::errors::{Error, IoError};
use crate::cli::payload::{GistitInner, GistitPayload, SendParams};

verus! {

/// The arguments of the command line, as far as sending reads them.
#[derive(Debug, Clone, PartialEq, Eq)]
pub struct Args {
    /// The path of the file, in the bytes that the system gave it in.
    pub file: Option<Vec<u8>>,
    pub description: Option<String>,
    pub author: Option<String>,
    pub theme: Option<String>,
    pub secret: Option<String>,
    pub lifespan: Option<String>,
    pub clipboard: bool,
    pub dry_run: bool,
}

/// The send action with its parameters.
#[derive(Debug, Clone, PartialEq, Eq)]
pub struct Action {
    /// The path of the file to be sent, in the bytes that the system gave
    /// it in.
    pub file: Vec<u8>,
    /// The description of this gistit.
    pub description: Option<String>,
    /// The author information.
    pub author: String,
    /// The colorscheme to be displayed.
    pub theme: String,
    /// The password to encrypt with.
    pub secret: Option<String>,
    /// The lifespan of the gistit.
    pub lifespan: String,
    /// Whether to copy the hash of the sent gistit to the clipboard.
    pub clipboard: bool,
    /// Whether to stop before the upload.
    pub dry_run: bool,
}

/// Whether the upload takes place.
#[derive(Debug, Clone, Copy, PartialEq, Eq, Structural)]
pub enum SendStep {
    /// A dry run: nothing is uploaded.
    Skip,
    /// Build the payload and upload it.
    Upload,
}

/// What a successful upload is reported with.
#[derive(Debug, Clone, PartialEq, Eq)]
pub struct Receipt {
    /// The hash under which the server holds the gistit.
    pub hash: String,
    /// Whether the hash goes to the clipboard.
    pub copy: bool,
    /// The remark behind the hash in the report.
    pub remark: &'static str,
}

/// Remark in the report where the hash went to the clipboard.
pub const REMARK_COPIED: &'static str = "(copied to clipboard)";

/// Remark in the report where it did not.
pub const REMARK_NONE: &'static str = "";

/// A file that was read and checked, as far as sending reads it.
#[derive(Debug, Clone, PartialEq, Eq)]
pub struct FileData {
    pub name: String,
    pub lang: String,
    pub size: u64,
    /// The bytes of the file.
    pub data: Vec<u8>,
    /// The bytes of the file in the form that the server takes.
    pub encoded: String,
}

/// A check that the send action runs before it uploads.
#[derive(Debug, Clone, Copy, PartialEq, Eq, Structural)]
pub enum Check {
    /// Check the parameters.
    Params,
    /// Read the file and check it.
    File,
    /// Check the secret and hash it.
    Secret,
    /// Encrypt the file with the secret.
    Encrypt,
}

/// How the checks that were run so far ended; a check that was not run has
/// no outcome.
#[derive(Debug, Clone, PartialEq, Eq)]
pub struct Outcomes {
    /// The checked parameters.
    pub params: Option<Result<SendParams, Error>>,
    /// The file as it was read.
    pub file: Option<Result<FileData, Error>>,
    /// The hashed secret.
    pub hashed_secret: Option<Result<String, Error>>,
    /// The encrypted file.
    pub encrypted: Option<Result<FileData, Error>>,
}

/// What the checks of a send have come to.
#[derive(Debug, Clone, PartialEq, Eq)]
pub enum Prepared {
    /// This check is due next; what is known so far comes back with it.
    Due(Check, Outcomes),
    /// A check failed.
    Failed(Error),
    /// Every check that was due has passed.
    Ready(Config),
}

impl Action {
    /// The action that the arguments ask for. File, author, theme and
    /// lifespan are required: without one of them the arguments are refused.
    pub fn from_args(args: Args) -> (r: Result<Action, Error>)
        ensures
            match (args.file, args.author, args.theme, args.lifespan) {
                (Some(file), Some(author), Some(theme), Some(lifespan)) => r == Ok::<Action, Error>(
                    Action {
                        file,
                        description: args.description,
                        author,
                        theme,
                        secret: args.secret,
                        lifespan,
                        clipboard: args.clipboard,
                        dry_run: args.dry_run,
                    },
                ),
                _ => r == Err::<Action, Error>(Error::Argument),
            },
    {
        let file = match args.file {
            Some(file) => file,
            None => { return Err(Error::Argument); },
        };
        let author = match args.author {
            Some(author) => author,
            None => { return Err(Error::Argument); },
        };
        let theme = match args.theme {
            Some(theme) => theme,
            None => { return Err(Error::Argument); },
        };
        let lifespan = match args.lifespan {
            Some(lifespan) => lifespan,
            None => { return Err(Error::Argument); },
        };
        Ok(
            Action {
                file,
                description: args.description,
                author,
                theme,
                secret: args.secret,
                lifespan,
                clipboard: args.clipboard,
                dry_run: args.dry_run,
            },
        )
    }

    /// What the checks of this action have come to, and which is due next.
    /// The parameters are checked first, so that bad input is told before
    /// the file is read; then the file is read and checked; and only where
    /// the action has a secret, the secret is checked and hashed, and then
    /// the file encrypted with it. The first failure ends the checks and is
    /// handed on as it is.
    pub open spec fn spec_prepare(&self, known: Outcomes) -> Prepared {
        match known.params {
            None => Prepared::Due(Check::Params, known),
            Some(Err(error)) => Prepared::Failed(error),
            Some(Ok(params)) => match known.file {
                None => Prepared::Due(Check::File, known),
                Some(Err(error)) => Prepared::Failed(error),
                Some(Ok(file)) => if self.secret is None {
                    Prepared::Ready(Config { file, params, maybe_secret: None })
                } else {
                    match known.hashed_secret {
                        None => Prepared::Due(Check::Secret, known),
                        Some(Err(error)) => Prepared::Failed(error),
                        Some(Ok(hashed)) => match known.encrypted {
                            None => Prepared::Due(Check::Encrypt, known),
                            Some(Err(error)) => Prepared::Failed(error),
                            Some(Ok(encrypted)) => Prepared::Ready(
                                Config { file: encrypted, params, maybe_secret: Some(hashed) },
                            ),
                        },
                    }
                },
            },
        }
    }

    /// What the checks of this action have come to: the check that is due
    /// next, with what is known handed back; the failure of a check; or the
    /// data that is dispatched. Without a secret the data holds the file as
    /// it was read; with one, the encrypted file and the hashed secret.
    pub fn prepare(&self, known: Outcomes) -> (r: Prepared)
        ensures
            r == self.spec_prepare(known),
    {
        let Outcomes { params, file, hashed_secret, encrypted } = known;
        let checked = match params {
            None => {
                return Prepared::Due(
                    Check::Params,
                    Outcomes { params: None, file, hashed_secret, encrypted },
                );
            },
            Some(Err(error)) => { return Prepared::Failed(error); },
            Some(Ok(checked)) => checked,
        };
        let plain = match file {
            None => {
                return Prepared::Due(
                    Check::File,
                    Outcomes { params: Some(Ok(checked)), file: None, hashed_secret, encrypted },
                );
            },
            Some(Err(error)) => { return Prepared::Failed(error); },
            Some(Ok(plain)) => plain,
        };
        if self.secret.is_none() {
            return Prepared::Ready(Config::new(plain, checked, None));
        }
        let hashed = match hashed_secret {
            None => {
                return Prepared::Due(
                    Check::Secret,
                    Outcomes {
                        params: Some(Ok(checked)),
                        file: Some(Ok(plain)),
                        hashed_secret: None,
                        encrypted,
                    },
                );
            },
            Some(Err(error)) => { return Prepared::Failed(error); },
            Some(Ok(hashed)) => hashed,
        };
        match encrypted {
            None => Prepared::Due(
                Check::Encrypt,
                Outcomes {
                    params: Some(Ok(checked)),
                    file: Some(Ok(plain)),
                    hashed_secret: Some(Ok(hashed)),
                    encrypted: None,
                },
            ),
            Some(Err(error)) => Prepared::Failed(error),
            Some(Ok(secured)) => Prepared::Ready(Config::new(secured, checked, Some(hashed))),
        }
    }

    /// Whether the upload takes place: not in a dry run.
    pub fn dispatch(&self) -> (step: SendStep)
        ensures
            step == if self.dry_run {
                SendStep::Skip
            } else {
                SendStep::Upload
            },
    {
        if self.dry_run {
            SendStep::Skip
        } else {
            SendStep::Upload
        }
    }

    /// What the server's answer to the upload is reported with, or the
    /// failure that it carries.
    pub fn receipt(&self, response: Response) -> (r: Result<Receipt, Error>)
        requires
            response.success is Some || response.error is Some,
        ensures
            response.success is Some ==> r == Ok::<Receipt, Error>(
                Receipt {
                    hash: response.success.unwrap(),
                    copy: self.clipboard,
                    remark: if self.clipboard {
                        REMARK_COPIED
                    } else {
                        REMARK_NONE
                    },
                },
            ),
            response.success is None ==> r == Err::<Receipt, Error>(
                Error::IO(IoError::Request(response.error.unwrap())),
            ),
    {
        match response.into_inner() {
            Ok(hash) => Ok(
                Receipt {
                    hash,
                    copy: self.clipboard,
                    remark: if self.clipboard {
                        REMARK_COPIED
                    } else {
                        REMARK_NONE
                    },
                },
            ),
            Err(error) => Err(error),
        }
    }
}

/// The checked data that is dispatched.
#[derive(Debug, Clone, PartialEq, Eq)]
pub struct Config {
    pub file: FileData,
    pub params: SendParams,
    /// The hashed secret, where the gistit has one.
    pub maybe_secret: Option<String>,
}

/// The mark that a hash made by the command line begins with.
pub const SERVER_IDENTIFIER: &'static str = "#";

impl Config {
    /// The data made of its three parts.
    pub fn new(file: FileData, params: SendParams, maybe_secret: Option<String>) -> (config:
        Config)
        ensures
            config.file == file,
            config.params == params,
            config.maybe_secret == maybe_secret,
    {
        Config { file, params, maybe_secret }
    }

    /// The text that is digested after the file: the hashed secret, or
    /// nothing where there is none.
    pub fn secret_text(&self) -> (text: &str)
        ensures
            text@ == match self.maybe_secret {
                Some(secret) => secret@,
                None => ""@,
            },
    {
        match &self.maybe_secret {
            Some(secret) => secret.as_str(),
            None => "",
        }
    }

    /// The hash of this gistit: the mark, then `digest`, which is the digest
    /// of the file's bytes followed by `secret_text`.
    pub fn hash(&self, digest: &str) -> (hash: String)
        ensures
            hash@ == SERVER_IDENTIFIER@ + digest@,
    {
        let mut hash = String::from_str(SERVER_IDENTIFIER);
        hash.append(digest);
        hash
    }

    /// The payload that is uploaded. `digest` is the digest that `hash`
    /// takes, `timestamp` the time of the upload as the server reads it.
    pub fn into_payload(self, digest: &str, timestamp: String) -> (payload: GistitPayload)
        ensures
            payload.hash@ == SERVER_IDENTIFIER@ + digest@,
            payload.author == self.params.author,
            payload.description == self.params.description,
            payload.colorscheme == self.params.colorscheme,
            payload.lifespan == self.params.lifespan,
            payload.secret == self.maybe_secret,
            payload.timestamp == timestamp,
            payload.gistit.name == self.file.name,
            payload.gistit.lang == self.file.lang,
            payload.gistit.size == self.file.size,
            payload.gistit.data == self.file.encoded,
    {
        let hash = self.hash(digest);
        GistitPayload {
            hash,
            author: self.params.author,
            description: self.params.description,
            colorscheme: self.params.colorscheme,
            lifespan: self.params.lifespan,
            secret: self.maybe_secret,
            timestamp,
            gistit: GistitInner {
                name: self.file.name,
                lang: self.file.lang,
                size: self.file.size,
                data: self.file.encoded,
            },
        }
    }
}

/// The answer of the server to an upload: the hash, or an error message.
#[derive(Debug, Clone, PartialEq, Eq)]
pub struct Response {
    pub success: Option<String>,
    pub error: Option<String>,
}

impl Response {
    /// The hash that the answer carries; where it carries none, its error
    /// message as a failed request. An answer holds one of the two.
    pub fn into_inner(self) -> (r: Result<String, Error>)
        requires
            self.success is Some || self.error is Some,
        ensures
            self.success is Some ==> r == Ok::<String, Error>(self.success.unwrap()),
            self.success is None ==> r == Err::<String, Error>(
                Error::IO(IoError::Request(self.error.unwrap())),
            ),
    {
        match self.success {
            Some(hash) => Ok(hash),
            None => match self.error {
                Some(message) => Err(Error::IO(IoError::Request(message))),
                None => vstd::pervasive::unreached(),
            },
        }
    }
}

} // verus!
