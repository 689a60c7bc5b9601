use vstd::prelude::*;

use crate::error::ScrapeError;

verus! {

/// What one run works on: the root page to fetch and the directory that
/// receives the downloaded files.
#[derive(Debug, Clone, PartialEq, Eq)]
pub struct RunConfig {
    pub url: String,
    pub output_dir: String,
}

pub open spec fn current_dir() -> Seq<char> {
    seq!['.']
}

/// The run that the command line asks for, given its positional arguments
/// and the directory option. The first positional argument is the root
/// page; without one the run is a `Usage` error. The output directory is
/// the option's value, or the current directory where it is not given.
pub fn plan_run(free: &Vec<String>, directory: Option<String>) -> (r: Result<RunConfig, ScrapeError>)
    ensures
        free@.len() == 0 ==> r == Err::<RunConfig, ScrapeError>(ScrapeError::Usage),
        free@.len() > 0 ==> r.is_ok(),
        r matches Ok(c) ==> c.url@ == free@[0]@,
        r matches Ok(c) ==> c.output_dir@ == match directory {
            Some(d) => d@,
            None => current_dir(),
        },
{
    if free.len() == 0 {
        return Err(ScrapeError::Usage);
    }
    let url = free[0].clone();
    let output_dir = match directory {
        Some(d) => d,
        None => {
            let d = String::from_str(".");
            proof {
                reveal_strlit(".");
                assert(d@ =~= current_dir());
            }
            d
        },
    };
    Ok(RunConfig { url, output_dir })
}

} // verus!
