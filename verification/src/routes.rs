use vstd::prelude::*;
use vstd::string::StrSliceExecFns;
use crate::text::push_char;
use crate::text::str_eq;

verus! {

/// The request methods the service answers.
#[derive(Clone, Copy, PartialEq, Eq, Debug)]
pub enum Method {
    Get,
    Post,
    Delete,
}

/// Which handler a request reaches; a delete carries the email named by
/// the final path segment.
#[derive(PartialEq, Eq, Debug)]
pub enum Route {
    Greet,
    HealthCheck,
    Subscribe,
    ListSubscriptions,
    DeleteSubscription { email: String },
}

/// The mathematical image of a routing decision.
pub ghost enum RouteData {
    Greet,
    HealthCheck,
    Subscribe,
    ListSubscriptions,
    DeleteSubscription { email: Seq<char> },
}

impl View for Route {
    type V = RouteData;

    open spec fn view(&self) -> RouteData {
        match self {
            Route::Greet => RouteData::Greet,
            Route::HealthCheck => RouteData::HealthCheck,
            Route::Subscribe => RouteData::Subscribe,
            Route::ListSubscriptions => RouteData::ListSubscriptions,
            Route::DeleteSubscription { email } => RouteData::DeleteSubscription {
                email: email@,
            },
        }
    }
}

/// The path under which a delete names its email as the final segment.
pub open spec fn delete_prefix() -> Seq<char> {
    "/delete-subscriptions/"@
}

/// Whether a path names a delete: the prefix followed by one non-empty
/// segment that holds no further slash.
pub open spec fn is_delete_path(path: Seq<char>) -> bool {
    &&& path.len() > delete_prefix().len()
    &&& path.take(delete_prefix().len() as int) == delete_prefix()
    &&& !path.skip(delete_prefix().len() as int).contains('/')
}

/// The route table of the service: which method and path reach which
/// handler.
pub open spec fn spec_route(m: Method, path: Seq<char>) -> Option<RouteData> {
    if m == Method::Get && path == "/"@ {
        Some(RouteData::Greet)
    } else if m == Method::Get && path == "/health-check"@ {
        Some(RouteData::HealthCheck)
    } else if m == Method::Get && path == "/get-subscriptions"@ {
        Some(RouteData::ListSubscriptions)
    } else if m == Method::Post && path == "/subscription"@ {
        Some(RouteData::Subscribe)
    } else if m == Method::Delete && is_delete_path(path) {
        Some(RouteData::DeleteSubscription { email: path.skip(delete_prefix().len() as int) })
    } else {
        None
    }
}

/// The email segment of a delete path, where the path has that shape.
#[verifier::loop_isolation(false)]
fn delete_email(path: &str) -> (r: Option<String>)
    ensures
        match r {
            Some(e) => is_delete_path(path@) && e@ == path@.skip(delete_prefix().len() as int),
            None => !is_delete_path(path@),
        },
{
    let prefix = "/delete-subscriptions/";
    proof {
        assert(prefix@ == delete_prefix());
    }
    let plen = prefix.unicode_len();
    let n = path.unicode_len();
    if n <= plen {
        return None;
    }
    let mut i: usize = 0;
    while i < plen
        invariant
            i <= plen,
            plen == delete_prefix().len(),
            n == path@.len(),
            n > plen,
            forall|j: int| 0 <= j < i ==> path@[j] == delete_prefix()[j],
        decreases plen - i,
    {
        if path.get_char(i) != prefix.get_char(i) {
            proof {
                if path@.take(plen as int) == delete_prefix() {
                    assert(path@.take(plen as int)[i as int] == path@[i as int]);
                }
            }
            return None;
        }
        i += 1;
    }
    proof {
        assert(path@.take(plen as int) =~= delete_prefix());
    }
    let mut email = String::new();
    let mut j: usize = plen;
    while j < n
        invariant
            plen <= j <= n,
            n == path@.len(),
            plen == delete_prefix().len(),
            path@.take(plen as int) == delete_prefix(),
            email@ == path@.subrange(plen as int, j as int),
            forall|k: int| plen <= k < j ==> path@[k] != '/',
        decreases n - j,
    {
        let c = path.get_char(j);
        if c == '/' {
            proof {
                assert(path@.skip(plen as int)[j - plen] == '/');
            }
            return None;
        }
        push_char(&mut email, c);
        proof {
            assert(email@ =~= path@.subrange(plen as int, j + 1));
        }
        j += 1;
    }
    proof {
        assert(email@ =~= path@.skip(plen as int));
        assert(!path@.skip(plen as int).contains('/')) by {
            if path@.skip(plen as int).contains('/') {
                let k = choose|k: int|
                    0 <= k < path@.skip(plen as int).len() && path@.skip(plen as int)[k] == '/';
                assert(path@[k + plen] == '/');
            }
        };
    }
    Some(email)
}

/// Routes one request: method and path to the matching
/// handler, `None` where the service has no matching route.
pub fn route(method: Method, path: &str) -> (r: Option<Route>)
    ensures
        match r {
            Some(rt) => spec_route(method, path@) == Some(rt@),
            None => spec_route(method, path@) is None,
        },
{
    match method {
        Method::Get => {
            if str_eq(path, "/") {
                Some(Route::Greet)
            } else if str_eq(path, "/health-check") {
                Some(Route::HealthCheck)
            } else if str_eq(path, "/get-subscriptions") {
                Some(Route::ListSubscriptions)
            } else {
                None
            }
        },
        Method::Post => {
            if str_eq(path, "/subscription") {
                Some(Route::Subscribe)
            } else {
                None
            }
        },
        Method::Delete => {
            match delete_email(path) {
                Some(email) => Some(Route::DeleteSubscription { email }),
                None => None,
            }
        },
    }
}

} // verus!
