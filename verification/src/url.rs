//! The webhook URL for a configured web-application host.

use vstd::prelude::*;

verus! {

/// The scheme the notification is sent over.
pub open spec fn url_scheme() -> Seq<char> {
    "http://"@
}

/// The fixed path of the webhook that announces a finished embedding run.
pub open spec fn webhook_path() -> Seq<char> {
    "/webhook/embed-successful"@
}

/// The webhook URL: the scheme, then the configured host, then the fixed
/// path. Neither the host nor the path is URL-encoded.
pub open spec fn webhook_url_spec(host: Seq<char>) -> Seq<char> {
    url_scheme() + host + webhook_path()
}

/// Builds the URL the notification is posted to.
pub fn build_webhook_url(host: &str) -> (r: String)
    ensures
        r@ == webhook_url_spec(host@),
{
    let mut r = String::from_str("http://");
    r.append(host);
    r.append("/webhook/embed-successful");
    proof {
        assert(r@ =~= webhook_url_spec(host@));
    }
    r
}

/// The host changes only the host segment: every webhook URL starts with the
/// scheme, ends with the fixed path, and carries the host in between.
pub proof fn lemma_url_shape(host: Seq<char>)
    ensures
        webhook_url_spec(host).len() == url_scheme().len() + host.len() + webhook_path().len(),
        webhook_url_spec(host).subrange(0, url_scheme().len() as int) == url_scheme(),
        webhook_url_spec(host).subrange(
            url_scheme().len() as int,
            url_scheme().len() + host.len() as int,
        ) == host,
        webhook_url_spec(host).subrange(
            url_scheme().len() + host.len() as int,
            webhook_url_spec(host).len() as int,
        ) == webhook_path(),
{
    let url = webhook_url_spec(host);
    let m = url_scheme().len() as int;
    let n = host.len() as int;
    assert(url.subrange(0, m) =~= url_scheme());
    assert(url.subrange(m, m + n) =~= host);
    assert(url.subrange(m + n, url.len() as int) =~= webhook_path());
}

} // verus!
