//! Transport families: each connection names its transport with a
//! case-insensitive tag.

use vstd::prelude::*;

verus! {

use crate::strutil::{spec_ascii_ieq, str_ieq_ascii};

/// Whether a transport tag names the WebSocket JSON transport.
pub open spec fn spec_is_ws_type(s: Seq<char>) -> bool {
    spec_ascii_ieq(s, seq!['w', 's', '_', 'j', 's', 'o', 'n'])
}

/// Whether a transport tag names an XML-bodied transport (`http_xml` or
/// `rss`).
pub open spec fn spec_is_xml_type(s: Seq<char>) -> bool {
    spec_ascii_ieq(s, seq!['h', 't', 't', 'p', '_', 'x', 'm', 'l']) || spec_ascii_ieq(
        s,
        seq!['r', 's', 's'],
    )
}

/// Whether a connection reads a WebSocket JSON stream.
pub fn is_ws_connection_type(connection_type: &str) -> (r: bool)
    ensures
        r == spec_is_ws_type(connection_type@),
{
    proof {
        reveal_strlit("ws_json");
        assert("ws_json"@ =~= seq!['w', 's', '_', 'j', 's', 'o', 'n']);
    }
    str_ieq_ascii(connection_type, "ws_json")
}

/// Whether a connection's payload is an XML document.
pub fn is_xml_connection_type(connection_type: &str) -> (r: bool)
    ensures
        r == spec_is_xml_type(connection_type@),
{
    proof {
        reveal_strlit("http_xml");
        reveal_strlit("rss");
        assert("http_xml"@ =~= seq!['h', 't', 't', 'p', '_', 'x', 'm', 'l']);
        assert("rss"@ =~= seq!['r', 's', 's']);
    }
    str_ieq_ascii(connection_type, "http_xml") || str_ieq_ascii(connection_type, "rss")
}

} // verus!
