//! The options that change how a request is forwarded to an upstream.

use crate::error::RpxyError;
use vstd::prelude::*;
use vstd::std_specs::convert::TryFromSpecImpl;

verus! {

/// One way in which forwarding to an upstream departs from the default.
#[derive(Debug, Clone, Copy, Hash, PartialEq, Eq, Structural)]
pub enum UpstreamOption {
    /// Leave the `Host` header as the client sent it.
    DisableOverrideHost,
    /// Ask the upstream to upgrade insecure requests.
    UpgradeInsecureRequests,
    /// Speak HTTP/1.1 to the upstream, whatever the client speaks.
    ForceHttp11Upstream,
    /// Speak HTTP/2 to the upstream, whatever the client speaks.
    ForceHttp2Upstream,
}

/// The option that a text names, if it names one. The match is exact: no
/// case folding, no trimming, no prefix.
pub open spec fn named_option(text: Seq<char>) -> Option<UpstreamOption> {
    if text == "diaable_override_host"@ {
        Some(UpstreamOption::DisableOverrideHost)
    } else if text == "upgrade_insecure_requests"@ {
        Some(UpstreamOption::UpgradeInsecureRequests)
    } else if text == "force_http11_upstream"@ {
        Some(UpstreamOption::ForceHttp11Upstream)
    } else if text == "force_http2_upstream"@ {
        Some(UpstreamOption::ForceHttp2Upstream)
    } else {
        None
    }
}

/// Whether two texts are the same, character for character.
pub fn same_text(a: &str, b: &str) -> (same: bool)
    ensures
        same == (a@ == b@),
{
    let x = a.as_bytes();
    let y = b.as_bytes();
    if x.len() != y.len() {
        return false;
    }
    let mut i: usize = 0;
    while i < x.len()
        invariant
            x@ == vstd::utf8::encode_utf8(a@),
            y@ == vstd::utf8::encode_utf8(b@),
            x@.len() == y@.len(),
            i <= x@.len(),
            x@.subrange(0, i as int) == y@.subrange(0, i as int),
        decreases x@.len() - i,
    {
        if x[i] != y[i] {
            return false;
        }
        i += 1;
    }
    proof {
        assert(x@ == x@.subrange(0, i as int));
        assert(y@ == y@.subrange(0, i as int));
        vstd::utf8::encode_utf8_decode_utf8(a@);
        vstd::utf8::encode_utf8_decode_utf8(b@);
    }
    true
}

impl<'a> TryFrom<&'a str> for UpstreamOption {
    type Error = RpxyError;

    fn try_from(val: &'a str) -> (parsed: Result<Self, RpxyError>) {
        if same_text(val, "diaable_override_host") {
            Ok(UpstreamOption::DisableOverrideHost)
        } else if same_text(val, "upgrade_insecure_requests") {
            Ok(UpstreamOption::UpgradeInsecureRequests)
        } else if same_text(val, "force_http11_upstream") {
            Ok(UpstreamOption::ForceHttp11Upstream)
        } else if same_text(val, "force_http2_upstream") {
            Ok(UpstreamOption::ForceHttp2Upstream)
        } else {
            Err(RpxyError::UnsupportedUpstreamOption)
        }
    }
}

impl<'a> TryFromSpecImpl<&'a str> for UpstreamOption {
    open spec fn obeys_try_from_spec() -> bool {
        true
    }

    open spec fn try_from_spec(val: &'a str) -> Result<Self, RpxyError> {
        match named_option(val@) {
            Some(option) => Ok(option),
            None => Err(RpxyError::UnsupportedUpstreamOption),
        }
    }
}

} // verus!
