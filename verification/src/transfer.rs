//! The request sizes of the transfer tests and the addresses the
//! measurements are made against.
use vstd::prelude::*;
use crate::text::{decimal, push_decimal};

verus! {

/// Bytes each download request asks for.
pub const DOWNLOAD_REQUEST_BYTES: usize = 25_000_000;

/// Bytes of the body each upload request posts (4 MB).
pub const UPLOAD_BODY_BYTES: usize = 4_194_304;

/// The address that serves a download of a given number of bytes.
pub const DOWNLOAD_URL_PREFIX: &'static str = "https://speed.cloudflare.com/__down?bytes=";

/// The address uploads are posted to.
pub const UPLOAD_URL: &'static str = "https://speed.cloudflare.com/__up";

/// The host used when no server could be chosen.
pub const DEFAULT_HOST: &'static str = "speed.cloudflare.com";

/// The address every download request of the download test fetches:
/// 25 000 000 bytes from the download endpoint.
pub fn download_test_url() -> (r: String)
    ensures
        r@ == DOWNLOAD_URL_PREFIX@ + decimal(DOWNLOAD_REQUEST_BYTES as nat),
{
    download_url(DOWNLOAD_REQUEST_BYTES)
}

/// The size of the body every upload request of the upload test posts.
pub fn upload_body_size() -> (r: usize)
    ensures
        r == UPLOAD_BODY_BYTES,
{
    UPLOAD_BODY_BYTES
}

/// The address that serves a download of `bytes` bytes.
pub fn download_url(bytes: usize) -> (r: String)
    ensures
        r@ == DOWNLOAD_URL_PREFIX@ + decimal(bytes as nat),
{
    let mut s = String::from_str(DOWNLOAD_URL_PREFIX);
    push_decimal(&mut s, bytes as u64);
    s
}

/// The address probed to measure the latency to `host`: a one-byte
/// download from it.
pub fn probe_url(host: &str) -> (r: String)
    ensures
        r@ == "https://"@ + host@ + "/__down?bytes=1"@,
{
    let mut s = String::from_str("https://");
    s.append(host);
    s.append("/__down?bytes=1");
    s
}

/// The host the latency and speed tests run against: the chosen server's,
/// or the default host when no server was chosen.
pub fn test_host(chosen: Option<&String>) -> (r: String)
    ensures
        r@ == (match chosen {
            Some(h) => h@,
            None => DEFAULT_HOST@,
        }),
{
    match chosen {
        Some(h) => h.clone(),
        None => String::from_str(DEFAULT_HOST),
    }
}

/// The index of the first server whose id is the preferred one, when a
/// preferred id is given.
pub fn preferred_server_index(ids: &Vec<String>, preferred: &str) -> (r: Option<usize>)
    ensures
        preferred@.len() == 0 ==> r is None,
        preferred@.len() > 0 ==> match r {
            Some(i) => i < ids@.len() && ids@[i as int]@ == preferred@ && forall|k: int|
                0 <= k < i ==> (#[trigger] ids@[k])@ != preferred@,
            None => forall|k: int| 0 <= k < ids@.len() ==> (#[trigger] ids@[k])@ != preferred@,
        },
{
    if preferred.unicode_len() == 0 {
        return None;
    }
    let mut i: usize = 0;
    while i < ids.len()
        invariant
            preferred@.len() > 0,
            i <= ids@.len(),
            forall|k: int| 0 <= k < i ==> (#[trigger] ids@[k])@ != preferred@,
        decreases ids@.len() - i,
    {
        if crate::text::text_eq(ids[i].as_str(), preferred) {
            return Some(i);
        }
        i = i + 1;
    }
    None
}

} // verus!
