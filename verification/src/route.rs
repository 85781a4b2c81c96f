//! The relay coordinator's routing rule: `/subscriber` registers a new
//! listener, `/publisher` registers a new broadcaster, anything else is a
//! not-found response.

use vstd::prelude::*;

verus! {

/// Where an inbound request is dispatched.
#[derive(Clone, Copy, PartialEq, Eq, Structural, Debug)]
pub enum Route {
    Subscribe,
    Publish,
    NotFound,
}

/// Routes a request path: `/subscriber` to the subscribe handler,
/// `/publisher` to the publish handler, any other path to not-found.
pub fn route(path: &String) -> (r: Route)
    ensures
        r is Subscribe <==> path@ == "/subscriber"@,
        r is Publish <==> path@ == "/publisher"@,
        r is NotFound <==> path@ != "/subscriber"@ && path@ != "/publisher"@,
{
    proof {
        reveal_strlit("/subscriber");
        reveal_strlit("/publisher");
        assert("/subscriber"@.len() == 11);
        assert("/publisher"@.len() == 10);
    }
    let subscriber_path: String = "/subscriber".to_owned();
    if *path == subscriber_path {
        return Route::Subscribe;
    }
    let publisher_path: String = "/publisher".to_owned();
    if *path == publisher_path {
        return Route::Publish;
    }
    Route::NotFound
}

} // verus!
