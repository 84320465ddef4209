//! Where the tracker keeps its data.

use vstd::prelude::*;

verus! {

/// The directory holding the files of the media.
pub struct Config {
    pub data_dir: String,
}

impl Config {
    /// The configuration used when the real one cannot be read.
    pub fn placeholder() -> (res: Config)
        ensures
            res.data_dir@ == Seq::<char>::empty(),
    {
        Config { data_dir: String::new() }
    }
}

} // verus!
