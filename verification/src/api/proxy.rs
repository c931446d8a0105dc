use vstd::prelude::*;
use vstd::string::StringExecFns;
use crate::utils::app_error::OK;
use crate::utils::text::{push_signed_decimal, signed_decimal};

verus! {

/// The address that answers for `breed`: one random picture, or `num_pics`
/// of them where a number is given.
pub open spec fn breed_url_spec(breed: Seq<char>, num_pics: Option<i32>) -> Seq<char> {
    let one = "https://dog.ceo/api/breed/"@ + breed + "/images/random"@;
    match num_pics {
        Some(n) => one + "/"@ + signed_decimal(n as int),
        None => one,
    }
}

pub fn breed_url(breed: &str, num_pics: Option<i32>) -> (url: String)
    ensures
        url@ == breed_url_spec(breed@, num_pics),
{
    let mut url = "https://dog.ceo/api/breed/".to_owned();
    url.append(breed);
    url.append("/images/random");
    match num_pics {
        Some(n) => {
            url.append("/");
            push_signed_decimal(&mut url, n as i64);
        },
        None => {},
    }
    url
}

/// What the proxy does with a request.
#[derive(Debug, PartialEq, Eq)]
pub enum ProxyPlan {
    /// Answer with what the cache holds.
    Serve { status: u16, body: Vec<u8> },
    /// Ask the backend at this address, remember its answer under the breed
    /// and pass it on.
    Fetch { url: String },
}

/// Decides how a request for `breed` is answered, given what the cache holds
/// under that breed: a hit is served as it is with status 200, a miss goes
/// to the backend.
pub fn proxy_handler(breed: &str, num_pics: Option<i32>, cached: Option<Vec<u8>>) -> (plan:
    ProxyPlan)
    ensures
        match cached {
            Some(body) => plan == (ProxyPlan::Serve { status: OK, body }),
            None => plan is Fetch && plan->url@ == breed_url_spec(breed@, num_pics),
        },
{
    match cached {
        Some(body) => ProxyPlan::Serve { status: OK, body },
        None => ProxyPlan::Fetch { url: breed_url(breed, num_pics) },
    }
}

} // verus!
