use vstd::prelude::*;
use vstd::string::*;

verus! {

/// The locations, relative to the resource directory, where the backend
/// executable may stand, in the order in which they are tried.
pub open spec fn candidate_locations() -> Seq<Seq<char>> {
    seq![
        "protrace-backend"@,
        "dist/protrace-backend"@,
        "_up_/dist/protrace-backend"@,
        "../dist/protrace-backend"@,
    ]
}

/// The name under which an executable is launched: Windows wants the
/// `.exe` suffix, other platforms take the path as it is.
pub open spec fn executable_name(base: Seq<char>, windows: bool) -> Seq<char> {
    if windows {
        base + ".exe"@
    } else {
        base
    }
}

/// The first location found, in order. Entry `i` of `probes` is the
/// resolved path of candidate `i` where that path exists, and `None` where
/// it could not be resolved or does not exist.
pub open spec fn first_found(probes: Seq<Option<String>>) -> Option<String>
    decreases probes.len(),
{
    if probes.len() == 0 {
        None
    } else if probes[0] is Some {
        probes[0]
    } else {
        first_found(probes.drop_first())
    }
}

/// The path to launch, where the backend was found.
pub open spec fn launch_path(probes: Seq<Option<String>>, windows: bool) -> Seq<char>
    recommends
        first_found(probes) is Some,
{
    executable_name(first_found(probes)->Some_0@, windows)
}

/// The candidate locations of the backend executable, in search order.
pub fn candidate_paths() -> (r: Vec<String>)
    ensures
        r@.len() == candidate_locations().len(),
        forall|i: int| 0 <= i < r@.len() ==> #[trigger] r@[i]@ == candidate_locations()[i],
{
    let mut r: Vec<String> = Vec::new();
    r.push(String::from_str("protrace-backend"));
    r.push(String::from_str("dist/protrace-backend"));
    r.push(String::from_str("_up_/dist/protrace-backend"));
    r.push(String::from_str("../dist/protrace-backend"));
    r
}

/// The name under which the executable at `base` is launched on the
/// platform described by `windows`.
pub fn platform_executable_name(base: &str, windows: bool) -> (r: String)
    ensures
        r@ == executable_name(base@, windows),
{
    let mut r = String::from_str(base);
    if windows {
        r.append(".exe");
    }
    r
}

/// The first path found among `probes` (see `first_found`), if any.
pub fn locate_backend(probes: &Vec<Option<String>>) -> (r: Option<&String>)
    ensures
        match first_found(probes@) {
            Some(p) => r == Some(&p),
            None => r is None,
        },
{
    let mut i: usize = 0;
    assert(probes@.subrange(0, probes@.len() as int) =~= probes@);
    while i < probes.len()
        invariant
            i <= probes@.len(),
            first_found(probes@) == first_found(probes@.subrange(i as int, probes@.len() as int)),
        decreases probes.len() - i,
    {
        let ghost rest = probes@.subrange(i as int, probes@.len() as int);
        assert(rest.drop_first() =~= probes@.subrange(i + 1, probes@.len() as int));
        match &probes[i] {
            Some(p) => {
                return Some(p);
            },
            None => {},
        }
        i = i + 1;
    }
    assert(probes@.subrange(i as int, probes@.len() as int) =~= Seq::<Option<String>>::empty());
    None
}

} // verus!
