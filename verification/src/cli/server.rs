//! Serving the static directory: what is served, where it is announced, and
//! which headers keep browsers from caching it.

use crate::cli::error::{CliError, CliErrorModel};
use crate::text::{decimal, decimal_string};
use vstd::prelude::*;
use vstd::string::*;

verus! {

/// The address that stands for every interface of the machine.
pub const ALL_INTERFACES: &'static str = "0.0.0.0";

/// What to serve, and where.
#[derive(Debug)]
pub struct ServePlan {
    /// The directory whose files are served.
    pub static_dir: String,
    /// The address to listen on.
    pub host: String,
    /// The port to listen on.
    pub port: u16,
}

/// The address `http://` host `:` port.
pub open spec fn url(host: Seq<char>, port: u16) -> Seq<char> {
    "http://"@ + host + seq![':'] + decimal(port as nat)
}

/// The addresses under which a server on `host` and `port` is announced. One
/// that listens on every interface is announced under `localhost` and, where
/// the machine's own address is known, under that too; any other under its
/// host alone.
pub open spec fn spec_access_urls(
    host: Seq<char>,
    port: u16,
    local_ip: Option<Seq<char>>,
) -> Seq<Seq<char>> {
    if host == ALL_INTERFACES@ {
        seq![url("localhost"@, port)] + (match local_ip {
            Some(ip) => seq![url(ip, port)],
            None => Seq::empty(),
        })
    } else {
        seq![url(host, port)]
    }
}

/// The response headers that keep browsers from caching what is served, as
/// name and value.
pub open spec fn spec_cache_headers() -> Seq<(Seq<char>, Seq<char>)> {
    seq![
        ("Cache-Control"@, "no-cache, no-store, must-revalidate"@),
        ("Pragma"@, "no-cache"@),
        ("Expires"@, "0"@),
    ]
}

/// Writes the address `http://` host `:` port.
pub fn format_url(host: &str, port: u16) -> (text: String)
    ensures
        text@ == url(host@, port),
{
    proof {
        reveal_strlit(":");
    }
    let mut text = String::from_str("http://");
    text.append(host);
    text.append(":");
    assert(":"@ =~= seq![':']);
    let number = decimal_string(port as u64);
    text.append(number.as_str());
    assert(text@ =~= url(host@, port));
    text
}

/// Whether a server on `host` listens on every interface.
pub fn binds_all_interfaces(host: &str) -> (all: bool)
    ensures
        all == (host@ == ALL_INTERFACES@),
{
    String::from_str(host) == String::from_str(ALL_INTERFACES)
}

/// The addresses under which a server on `host` and `port` is announced,
/// `local_ip` being the machine's own address where it is known.
pub fn access_urls(host: &str, port: u16, local_ip: Option<&str>) -> (urls: Vec<String>)
    ensures
        crate::text::texts(urls@) == spec_access_urls(
            host@,
            port,
            match local_ip {
                Some(ip) => Some(ip@),
                None => None,
            },
        ),
{
    let mut urls: Vec<String> = Vec::new();
    if binds_all_interfaces(host) {
        urls.push(format_url("localhost", port));
        match local_ip {
            Some(ip) => {
                urls.push(format_url(ip, port));
            },
            None => {},
        }
    } else {
        urls.push(format_url(host, port));
    }
    proof {
        let expected = spec_access_urls(
            host@,
            port,
            match local_ip {
                Some(ip) => Some(ip@),
                None => None,
            },
        );
        assert(crate::text::texts(urls@) =~= expected);
    }
    urls
}

/// The response headers that keep browsers from caching what is served.
pub fn cache_headers() -> (headers: Vec<(&'static str, &'static str)>)
    ensures
        headers@.map_values(|h: (&'static str, &'static str)| (h.0@, h.1@))
            == spec_cache_headers(),
{
    let mut headers: Vec<(&'static str, &'static str)> = Vec::new();
    headers.push(("Cache-Control", "no-cache, no-store, must-revalidate"));
    headers.push(("Pragma", "no-cache"));
    headers.push(("Expires", "0"));
    assert(headers@.map_values(|h: (&'static str, &'static str)| (h.0@, h.1@))
        =~= spec_cache_headers());
    headers
}

/// The plan for serving `static_dir_path` on `host` and `port`, given
/// whether that path is an existing directory. Where it is not, serving
/// fails with `MissingStaticDir`.
pub fn serve_static(static_dir_path: &str, is_dir: bool, port: u16, host: &str) -> (result: Result<
    ServePlan,
    CliError,
>)
    ensures
        !is_dir ==> result is Err && result->Err_0@ == (CliErrorModel::MissingStaticDir {
            path: static_dir_path@,
        }),
        is_dir ==> result is Ok && result->Ok_0.static_dir@ == static_dir_path@
            && result->Ok_0.host@ == host@ && result->Ok_0.port == port,
{
    if !is_dir {
        return Err(CliError::MissingStaticDir { path: String::from_str(static_dir_path) });
    }
    Ok(
        ServePlan {
            static_dir: String::from_str(static_dir_path),
            host: String::from_str(host),
            port,
        },
    )
}

} // verus!
