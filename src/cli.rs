use vstd::prelude::*;

verus! {

/// Command-line arguments: the path of the stored cookie file.
pub struct Cli {
    pub cookie: String,
}

} // verus!
