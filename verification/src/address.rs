//! Where a connection goes: the default port of a WebSocket URL's scheme and
//! the resolved address that a connection is made to.

use vstd::prelude::*;

verus! {

/// The port that a URL of the given scheme names when it gives none:
/// 80 for `ws`, 443 for `wss`, and none for any other scheme.
pub open spec fn scheme_port(scheme: Seq<char>) -> Option<u16> {
    if scheme == "ws"@ {
        Some(80u16)
    } else if scheme == "wss"@ {
        Some(443u16)
    } else {
        None
    }
}

/// Only the two WebSocket schemes have a default port: 80 for `ws` and 443
/// for `wss`; every other scheme, whatever it is, has none.
pub proof fn lemma_default_port_only_for_websocket(scheme: Seq<char>)
    ensures
        scheme_port(scheme) is Some <==> (scheme == "ws"@ || scheme == "wss"@),
        scheme == "ws"@ ==> scheme_port(scheme) == Some(80u16),
        scheme == "wss"@ ==> scheme_port(scheme) == Some(443u16),
{
    reveal_strlit("ws");
    reveal_strlit("wss");
    assert("ws"@.len() != "wss"@.len());
}

/// The default port of a WebSocket scheme.
pub fn default_port(scheme: &str) -> (port: Option<u16>)
    ensures
        port == scheme_port(scheme@),
{
    let scheme: String = scheme.to_owned();
    let ws: String = "ws".to_owned();
    if scheme == ws {
        return Some(80);
    }
    let wss: String = "wss".to_owned();
    if scheme == wss {
        return Some(443);
    }
    None
}

/// The address a connection is made to: the first of those a name resolved
/// to, and none where it resolved to none.
pub fn pick_address<A: Copy>(addrs: &[A]) -> (a: Option<A>)
    ensures
        addrs@.len() == 0 ==> a is None,
        addrs@.len() > 0 ==> a == Some(addrs@[0]),
{
    if addrs.len() == 0 {
        None
    } else {
        Some(addrs[0])
    }
}

} // verus!
