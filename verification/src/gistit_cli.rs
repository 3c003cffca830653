//! The decisions of the fetch action that can preview a gistit, save it, or
//! ask what to do with it.

pub mod fetch;
