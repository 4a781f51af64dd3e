//! The paths under which the answers are found.

use vstd::prelude::*;

verus! {

/// What is asked for under a path.
#[derive(Clone, Copy, Debug, PartialEq, Eq, Structural)]
pub enum Route {
    UserData,
    MetaData,
    VendorData,
}

/// A path below the prefix.
pub open spec fn path(path_prefix: Seq<char>, name: Seq<char>) -> Seq<char> {
    path_prefix + "/"@ + name
}

/// The paths below the prefix, each with what is asked for under it.
pub open spec fn routes(path_prefix: Seq<char>) -> Seq<(Seq<char>, Route)> {
    seq![
        (path(path_prefix, "user-data"@), Route::UserData),
        (path(path_prefix, "meta-data"@), Route::MetaData),
        (path(path_prefix, "vendor-data"@), Route::VendorData),
    ]
}

/// A path with what is asked for under it.
#[derive(Debug)]
pub struct RouterEntry {
    pub path: String,
    pub route: Route,
}

impl View for RouterEntry {
    type V = (Seq<char>, Route);

    open spec fn view(&self) -> (Seq<char>, Route) {
        (self.path@, self.route)
    }
}

/// Writes a path below the prefix.
fn route_path(path_prefix: &str, name: &str) -> (text: String)
    ensures
        text@ == path(path_prefix@, name@),
{
    let mut text: String = path_prefix.to_string();
    text.append("/");
    text.append(name);
    text
}

/// The table of routes below a prefix.
pub fn get_router(path_prefix: &str) -> (router: Vec<RouterEntry>)
    ensures
        router.len() == routes(path_prefix@).len(),
        forall|i: int| 0 <= i < router.len() ==> (#[trigger] router@[i])@ == routes(path_prefix@)[i],
{
    vec![
        RouterEntry { path: route_path(path_prefix, "user-data"), route: Route::UserData },
        RouterEntry { path: route_path(path_prefix, "meta-data"), route: Route::MetaData },
        RouterEntry { path: route_path(path_prefix, "vendor-data"), route: Route::VendorData },
    ]
}

/// Under one prefix no path stands for two things.
pub proof fn law_paths_are_distinct(path_prefix: Seq<char>, i: int, j: int)
    requires
        0 <= i < j < routes(path_prefix).len(),
    ensures
        routes(path_prefix)[i].0 != routes(path_prefix)[j].0,
{
    reveal_strlit("/");
    reveal_strlit("user-data");
    reveal_strlit("meta-data");
    reveal_strlit("vendor-data");
    let n = path_prefix.len() as int;
    let table = routes(path_prefix);
    assert(table[0].0[n + 1] == 'u');
    assert(table[1].0[n + 1] == 'm');
    assert(table[2].0[n + 1] == 'v');
}

/// There are three paths: that of the prefix with `/user-data` behind it, which stands for the user
/// data, and likewise those of the metadata and the vendor data.
pub proof fn law_each_answer_has_its_path(path_prefix: Seq<char>, i: int, route: Route)
    ensures
        routes(path_prefix).len() == 3,
        0 <= i < 3 ==> routes(path_prefix)[i].0 == path_prefix + match routes(path_prefix)[i].1 {
            Route::UserData => "/user-data"@,
            Route::MetaData => "/meta-data"@,
            Route::VendorData => "/vendor-data"@,
        },
        exists|k: int|
            0 <= k < routes(path_prefix).len() && (#[trigger] routes(path_prefix)[k]).1 == route,
{
    reveal_strlit("/");
    reveal_strlit("user-data");
    reveal_strlit("meta-data");
    reveal_strlit("vendor-data");
    reveal_strlit("/user-data");
    reveal_strlit("/meta-data");
    reveal_strlit("/vendor-data");
    let table = routes(path_prefix);
    assert(table[0].0 =~= path_prefix + "/user-data"@);
    assert(table[1].0 =~= path_prefix + "/meta-data"@);
    assert(table[2].0 =~= path_prefix + "/vendor-data"@);
    assert(table[0].1 == Route::UserData);
    assert(table[1].1 == Route::MetaData);
    assert(table[2].1 == Route::VendorData);
}

/// What is said of an entry is said of its own path and route.
pub proof fn law_entry_is_shown_as_it_is(entry: RouterEntry)
    ensures
        entry@.0 == entry.path@,
        entry@.1 == entry.route,
{
}

} // verus!
