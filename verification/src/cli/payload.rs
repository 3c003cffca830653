//! What travels between the command line and the server, and the checked
//! parameters of an action.

use vstd::pervasive::unreached;
use vstd::prelude::*;
use crate::cli::link::{after_first_byte, hash_in_path, parse_url_path, url_path};

verus! {

/// The file of a gistit as the server holds it.
#[derive(Debug, Clone, PartialEq, Eq)]
pub struct GistitInner {
    pub name: String,
    pub lang: String,
    pub size: u64,
    pub data: String,
}

/// A gistit as the server holds it.
#[derive(Debug, Clone, PartialEq, Eq)]
pub struct GistitPayload {
    pub hash: String,
    pub author: String,
    pub description: Option<String>,
    pub colorscheme: String,
    pub lifespan: u16,
    pub secret: Option<String>,
    pub timestamp: String,
    pub gistit: GistitInner,
}

/// The checked parameters of a fetch: the gistit is named by its hash or by
/// its address.
#[derive(Debug, Clone, PartialEq, Eq)]
pub struct FetchParams {
    pub hash: Option<String>,
    pub url: Option<String>,
}

/// The checked parameters of a send.
#[derive(Debug, Clone, PartialEq, Eq)]
pub struct SendParams {
    pub author: String,
    pub description: Option<String>,
    pub colorscheme: String,
    pub lifespan: u16,
}

/// What the server is asked for: a hash, and the secret where one is set.
#[derive(Debug, Clone, PartialEq, Eq)]
pub struct FetchQuery {
    pub hash: String,
    pub secret: Option<String>,
}

impl FetchParams {
    /// The parameters name a gistit, and the hash can be had from them: a
    /// hash is given, or an address whose path, where it is a URL, has
    /// something behind its first byte.
    pub open spec fn names_a_gistit(&self) -> bool {
        match (self.hash, self.url) {
            (Some(_), _) => true,
            (None, Some(address)) => match url_path(address@) {
                Ok(path) => after_first_byte(path) is Some,
                Err(_) => true,
            },
            (None, None) => false,
        }
    }

    /// The hash that the parameters name: the hash itself where one is
    /// given, else what the address holds behind the slash of its path; or,
    /// where the address is no URL, the words in which it is refused.
    pub open spec fn spec_final_hash(&self) -> Result<Seq<char>, Seq<char>>
        recommends
            self.names_a_gistit(),
    {
        match self.hash {
            Some(hash) => Ok(hash@),
            None => match url_path(self.url.unwrap()@) {
                Ok(path) => Ok(after_first_byte(path).unwrap()),
                Err(message) => Err(message),
            },
        }
    }

    /// The hash that the parameters name, or the words in which the address
    /// is refused as a URL.
    pub fn final_hash(&self) -> (r: Result<String, String>)
        requires
            self.names_a_gistit(),
        ensures
            match self.spec_final_hash() {
                Ok(hash) => r matches Ok(got) && got@ == hash,
                Err(message) => r matches Err(got) && got@ == message,
            },
    {
        match &self.hash {
            Some(hash) => Ok(hash.clone()),
            None => {
                let address = match &self.url {
                    Some(address) => address,
                    None => unreached(),
                };
                match parse_url_path(address.as_str()) {
                    Ok(path) => match hash_in_path(path.as_str()) {
                        Some(hash) => Ok(hash),
                        None => unreached(),
                    },
                    Err(message) => Err(message),
                }
            },
        }
    }

    /// The hash that the parameters name, where they name a gistit at all:
    /// nothing where neither hash nor address is given, or where the path of
    /// the address has nothing to take the first byte off.
    pub fn try_final_hash(&self) -> (r: Option<Result<String, String>>)
        ensures
            r is Some <==> self.names_a_gistit(),
            r is Some ==> match self.spec_final_hash() {
                Ok(hash) => r.unwrap() matches Ok(got) && got@ == hash,
                Err(message) => r.unwrap() matches Err(got) && got@ == message,
            },
    {
        let named = match &self.hash {
            Some(_) => true,
            None => match &self.url {
                Some(address) => match parse_url_path(address.as_str()) {
                    Ok(path) => hash_in_path(path.as_str()).is_some(),
                    Err(_) => true,
                },
                None => false,
            },
        };
        if named {
            Some(self.final_hash())
        } else {
            None
        }
    }
}

} // verus!
