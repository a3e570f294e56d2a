use vstd::prelude::*;

verus! {

/// How the MCP server talks to its client.
#[derive(Debug, Clone, PartialEq, Eq)]
pub enum Transport {
    /// Over the process's standard input and output.
    Stdio,
    /// Over streamable HTTP, at a host and port.
    Http,
}

/// The transport a `--transport` value names: `stdio`, or `streamable-http` (also
/// accepted as `http`).
pub open spec fn transport_of(name: Seq<char>) -> Option<Transport> {
    if name == "stdio"@ {
        Some(Transport::Stdio)
    } else if name == "streamable-http"@ || name == "http"@ {
        Some(Transport::Http)
    } else {
        None
    }
}

/// The transport that `name` names, if any.
pub fn parse_transport(name: &String) -> (r: Option<Transport>)
    ensures
        r == transport_of(name@),
{
    let stdio = String::from_str("stdio");
    let streamable = String::from_str("streamable-http");
    let http = String::from_str("http");
    if *name == stdio {
        Some(Transport::Stdio)
    } else if *name == streamable || *name == http {
        Some(Transport::Http)
    } else {
        None
    }
}

/// The address the HTTP transport binds: host and port joined by a colon.
pub fn bind_address(host: &String, port: &String) -> (r: String)
    ensures
        r@ == host@ + ":"@ + port@,
{
    let mut r = host.clone();
    r.append(":");
    r.append(port.as_str());
    r
}

/// Where the Telegram session is kept when the configuration names no file.
pub open spec fn default_session_file() -> Seq<char> {
    "tg_mcp_server.session"@
}

/// The session file to use: the configured one, or the default.
pub fn session_path(configured: Option<String>) -> (r: String)
    ensures
        match configured {
            Some(p) => r == p,
            None => r@ == default_session_file(),
        },
{
    match configured {
        Some(p) => p,
        None => String::from_str("tg_mcp_server.session"),
    }
}

} // verus!
