//! The seam for running external programs (`nvidia-smi` for the discrete
//! GPU), so the logic above it can be exercised against canned output.

use vstd::prelude::*;
use crate::sysfs::IoError;

verus! {

/// The arguments of a command line as text.
pub open spec fn arg_texts(args: Seq<&str>) -> Seq<Seq<char>> {
    args.map_values(|a: &str| a@)
}

/// Runs a program and returns its captured standard output.
///
/// Each run is accounted for by `run_result(program, args, r)`, which an
/// implementation may define to describe itself; by default it holds of any
/// output. Code written for every runner can establish it only by running.
pub trait CommandRunner: Send + Sync {
    open spec fn run_result(
        &self,
        program: Seq<char>,
        args: Seq<Seq<char>>,
        r: Result<String, IoError>,
    ) -> bool {
        true
    }

    fn run(&self, program: &str, args: &[&str]) -> (r: Result<String, IoError>)
        ensures
            self.run_result(program@, arg_texts(args@), r),
    ;
}

} // verus!
