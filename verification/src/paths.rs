use vstd::prelude::*;
use crate::error::Error;

verus! {

/// The application's data directory under the user's home directory.
pub open spec fn weave_directory_spec(home: Seq<char>) -> Seq<char> {
    home + "/.weave"@
}

/// The directory that holds one log file per launched client instance.
pub open spec fn client_logs_directory_spec(home: Seq<char>) -> Seq<char> {
    weave_directory_spec(home) + "/logs/client"@
}

/// The fixed, well-known location of the monitoring-agent artifact.
pub open spec fn loader_path_spec(home: Seq<char>) -> Seq<char> {
    weave_directory_spec(home) + "/loader.jar"@
}

/// Resolve the application's data directory. `home` is the user's home
/// directory as the surrounding layer resolved it, or `None` when the
/// environment gives none.
pub fn get_weave_directory(home: &Option<String>) -> (r: Result<String, Error>)
    ensures
        home matches Some(h) ==> (r matches Ok(p) && p@ == weave_directory_spec(h@)),
        home is None ==> (r matches Err(e) && e matches Error::Message(m) && m@
            == "Home directory not found"@),
{
    match home {
        Some(h) => Ok(h.clone().concat("/.weave")),
        None => Err(Error::Message(String::from_str("Home directory not found"))),
    }
}

/// Resolve the per-client log directory. The caller creates it on disk on
/// first need; this function only computes where it lives.
pub fn get_weave_client_logs_path(home: &Option<String>) -> (r: Result<String, Error>)
    ensures
        home matches Some(h) ==> (r matches Ok(p) && p@ == client_logs_directory_spec(h@)),
        home is None ==> (r matches Err(e) && e matches Error::Message(m) && m@
            == "Home directory not found"@),
{
    match get_weave_directory(home) {
        Ok(dir) => Ok(dir.concat("/logs/client")),
        Err(e) => Err(e),
    }
}

/// Resolve the monitoring-agent artifact path. `loader_present` is whether a
/// file currently exists at that location, as the caller observed it; when it
/// does not, launching must fail before any process is spawned.
pub fn get_weave_loader_path(home: &Option<String>, loader_present: bool) -> (r: Result<
    String,
    Error,
>)
    ensures
        home matches Some(h) ==> (loader_present ==> (r matches Ok(p) && p@ == loader_path_spec(
            h@,
        ))),
        home is Some && !loader_present ==> (r matches Err(e) && e matches Error::Message(m)
            && m@ == "Weave-Loader JAR file (~/.weave/loader.jar) not found"@),
        home is None ==> (r matches Err(e) && e matches Error::Message(m) && m@
            == "Home directory not found"@),
{
    match get_weave_directory(home) {
        Ok(dir) => {
            if loader_present {
                Ok(dir.concat("/loader.jar"))
            } else {
                Err(
                    Error::Message(
                        String::from_str("Weave-Loader JAR file (~/.weave/loader.jar) not found"),
                    ),
                )
            }
        },
        Err(e) => Err(e),
    }
}

/// A file path directly under `dir`.
pub fn join_path(dir: &str, file_name: &str) -> (r: String)
    ensures
        r@ == dir@ + "/"@ + file_name@,
{
    String::from_str(dir).concat("/").concat(file_name)
}

} // verus!
