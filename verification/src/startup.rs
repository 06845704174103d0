//! What the program does, from the options that it was started with.

use vstd::prelude::*;
use vstd::string::*;

verus! {

/// What the program is to do.
#[derive(Debug)]
pub enum Startup {
    /// Write the description of the API to this file.
    WriteSchema(String),
    /// Serve the API.
    Serve(ServeOptions),
}

/// How the program serves the API.
#[derive(Debug)]
pub struct ServeOptions {
    /// The address and port to listen on.
    pub bind: String,
    /// The directory that holds the data.
    pub directory: String,
}

/// Decides what to do, from the address, the data directory and the schema file
/// that the options name.  Without a schema file the API is served, for which a
/// data directory must be named.
pub fn plan(bind: Option<String>, directory: Option<String>, schema: Option<String>) -> (r: Result<
    Startup,
    String,
>)
    ensures
        match (schema, directory) {
            (Some(file), _) => r == Ok::<Startup, String>(Startup::WriteSchema(file)),
            (None, Some(dir)) => {
                &&& r matches Ok(Startup::Serve(options))
                &&& options.directory == dir
                &&& options.bind@ == match bind {
                    Some(address) => address@,
                    None => "0.0.0.0:9978"@,
                }
            },
            (None, None) => {
                r matches Err(message) && message@ == "ERROR: must specify data directory (-d)"@
            },
        },
{
    if let Some(file) = schema {
        return Ok(Startup::WriteSchema(file));
    }
    let bind = match bind {
        Some(address) => address,
        None => "0.0.0.0:9978".to_owned(),
    };
    match directory {
        Some(directory) => Ok(Startup::Serve(ServeOptions { bind, directory })),
        None => Err("ERROR: must specify data directory (-d)".to_owned()),
    }
}

/// Refuses a data directory that is not a directory.
pub fn check_directory(directory: &str, is_directory: bool) -> (r: Result<(), String>)
    ensures
        match r {
            Ok(_) => is_directory,
            Err(message) => {
                &&& !is_directory
                &&& message@ == "ERROR: "@ + directory@ + " should be a directory"@
            },
        },
{
    if is_directory {
        Ok(())
    } else {
        Err("ERROR: ".to_owned().concat(directory).concat(" should be a directory"))
    }
}

} // verus!
