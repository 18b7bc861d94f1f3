use vstd::prelude::*;
use crate::connection::ConnectionJob;

verus! {

/// Command-line options.
#[derive(Clone, Debug)]
pub struct Args {
    /// Remote URL of the project.
    pub url: Option<String>,
    /// Path of a local working copy of the project.
    pub git_path: Option<String>,
    /// Clean up without asking.
    pub batch_mode: bool,
    /// Only analyse, and print the figures as one record.
    pub analysis_mode: bool,
    /// Age in days from which pipelines and jobs count as old.
    pub days: usize,
}

/// Where to find the project: the URL when one is given, else the working
/// copy path, else the current directory.
pub fn connection_job(args: &Args) -> (r: ConnectionJob)
    ensures
        match args.url {
            Some(u) => r is FromUrl && r->FromUrl_0@ == u@,
            None => r is FromPath && r->FromPath_0@ == match args.git_path {
                Some(p) => p@,
                None => "."@,
            },
        },
{
    match &args.url {
        Some(u) => ConnectionJob::FromUrl(u.clone()),
        None => match &args.git_path {
            Some(p) => ConnectionJob::FromPath(p.clone()),
            None => ConnectionJob::FromPath(String::from_str(".")),
        },
    }
}

} // verus!
