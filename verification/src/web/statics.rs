//! The static files of the frontend, found by name.

use vstd::prelude::*;

verus! {

/// A static file has a name, by which its address is recognized, and the
/// contents of the file.
///
/// The name includes a short hash of the contents, so that clients may
/// cache the file for a long time.
#[derive(Debug, PartialEq, Eq)]
pub struct StaticFile {
    pub content: &'static [u8],
    pub name: &'static str,
}

/// Whether `at` is the position of the first file with the given name.
pub open spec fn first_named(statics: Seq<StaticFile>, name: Seq<char>, at: int) -> bool {
    &&& 0 <= at < statics.len()
    &&& statics[at].name@ == name
    &&& forall|j: int| 0 <= j < at ==> (#[trigger] statics[j]).name@ != name
}

impl StaticFile {
    /// Gets a single file by name from a table of files, if the table
    /// holds one: the first of that name.
    pub fn get<'a>(statics: &'a [StaticFile], name: &str) -> (found: Option<&'a StaticFile>)
        ensures
            match found {
                Some(file) => exists|at: int|
                    first_named(statics@, name@, at) && *file == statics@[at],
                None => forall|j: int|
                    0 <= j < statics.len() ==> (#[trigger] statics@[j]).name@ != name@,
            },
    {
        let wanted = name.to_owned();
        let mut i: usize = 0;
        while i < statics.len()
            invariant
                i <= statics.len(),
                wanted@ == name@,
                forall|j: int| 0 <= j < i ==> (#[trigger] statics@[j]).name@ != name@,
            decreases statics.len() - i,
        {
            let candidate = statics[i].name.to_owned();
            if candidate == wanted {
                assert(first_named(statics@, name@, i as int));
                return Some(&statics[i]);
            }
            i += 1;
        }
        None
    }
}

} // verus!
