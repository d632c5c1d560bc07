//! One logical client session: it pins the block height of the first
//! response it sees and holds every later response in the same session to
//! that height, so a multi-step read sequence observes a single snapshot of
//! remote state.

use vstd::prelude::*;

verus! {

use vstd::string::StringExecFns;
use crate::error::Error;
use crate::envelope::{Envelope, be_u32, decode_envelope};
use crate::codec::{hex_encode, b64_decode, b64_decoding};
use crate::text::{dec_of, hex_of};

/// The height taken from the first four bytes of a decoded envelope.
pub open spec fn parsed_height(bytes: Seq<u8>) -> u32 {
    be_u32(bytes.subrange(0, 4)) as u32
}

/// What observing a response height does to a session's pinned height: the
/// first observation pins it, a matching one keeps it, a differing one fails
/// with both heights.
pub open spec fn observe_model(pinned: Option<u32>, observed: u32) -> Result<Option<u32>, Error> {
    match pinned {
        None => Ok(Some(observed)),
        Some(p) => if p == observed {
            Ok(Some(p))
        } else {
            Err(Error::Consistency { expected: p, observed })
        },
    }
}

/// A session observing a whole sequence of response heights in order,
/// stopping at the first mismatch.
pub open spec fn run_heights(pinned: Option<u32>, hs: Seq<u32>) -> Result<Option<u32>, Error>
    decreases hs.len(),
{
    if hs.len() == 0 {
        Ok(pinned)
    } else {
        match observe_model(pinned, hs[0]) {
            Ok(p) => run_heights(p, hs.drop_first()),
            Err(e) => Err(e),
        }
    }
}

/// Law: a session whose pin is unset or already equals `h` accepts any
/// sequence of responses that all carry height `h`.
pub proof fn lemma_pinned_same_height_succeeds(pinned: Option<u32>, hs: Seq<u32>, h: u32)
    requires
        forall|i: int| 0 <= i < hs.len() ==> hs[i] == h,
        pinned is None || pinned == Some(h),
    ensures
        run_heights(pinned, hs) is Ok,
    decreases hs.len(),
{
    if hs.len() > 0 {
        lemma_pinned_same_height_succeeds(Some(h), hs.drop_first(), h);
    }
}

/// Law: however many queries a fresh session issues, if the server answers
/// with the same height each time, the whole session succeeds.
pub proof fn lemma_same_height_session_succeeds(hs: Seq<u32>, h: u32)
    requires
        forall|i: int| 0 <= i < hs.len() ==> hs[i] == h,
    ensures
        run_heights(None, hs) is Ok,
{
    lemma_pinned_same_height_succeeds(None, hs, h);
}

/// Law: in a fresh session whose second response's height differs from its
/// first's, the second observation fails with a `Consistency` error carrying
/// both heights, whatever comes after.
pub proof fn lemma_height_change_fails(hs: Seq<u32>)
    requires
        hs.len() >= 2,
        hs[1] != hs[0],
    ensures
        run_heights(None, hs) == Err::<Option<u32>, Error>(
            Error::Consistency { expected: hs[0], observed: hs[1] },
        ),
{
    let rest = hs.drop_first();
    assert(rest[0] == hs[1]);
    assert(run_heights(None, hs) == run_heights(Some(hs[0]), rest));
}

/// Resolves the configured gateway base URL: absence of the stored value is
/// a configuration error, surfaced before any network call.
pub fn resolve_endpoint(stored: Option<String>) -> (r: Result<String, Error>)
    ensures
        stored matches Some(s) ==> r == Ok::<String, Error>(s),
        stored is None ==> r == Err::<String, Error>(Error::Config),
{
    match stored {
        Some(s) => Ok(s),
        None => Err(Error::Config),
    }
}

/// Judges the read endpoint's answer before the body is decoded: a 2xx
/// status hands the body on, anything else is a `Transport` error carrying
/// that body verbatim.
pub fn transport_outcome(status: u16, body: String) -> (r: Result<String, Error>)
    ensures
        200 <= status < 300 ==> r == Ok::<String, Error>(body),
        !(200 <= status < 300) ==> r == Err::<String, Error>(Error::Transport(body)),
{
    if 200 <= status && status < 300 {
        Ok(body)
    } else {
        Err(Error::Transport(body))
    }
}

/// A client session. It owns at most one pinned height; the pin is set by
/// the first successful query response the session observes and never moves
/// afterwards.
pub struct WebClient {
    /// The pinned height, unset until the first response arrives.
    pub height: Option<u32>,
}

impl WebClient {
    /// A fresh session with no pinned height.
    pub fn new() -> (c: Self)
        ensures
            c.height is None,
    {
        WebClient { height: None }
    }

    /// Checks a response height against the pin, setting the pin on the
    /// first observation, exactly as `observe_model` says.
    pub fn observe_height(&mut self, observed: u32) -> (r: Result<(), Error>)
        ensures
            match observe_model(old(self).height, observed) {
                Ok(p) => r is Ok && final(self).height == p,
                Err(e) => r == Err::<(), Error>(e) && final(self).height == old(self).height,
            },
    {
        let cur = self.height;
        match cur {
            None => {
                self.height = Some(observed);
                Ok(())
            },
            Some(p) => {
                if p == observed {
                    Ok(())
                } else {
                    Err(Error::Consistency { expected: p, observed })
                }
            },
        }
    }

    /// The GET URL for a state query: the endpoint, the hex of the query
    /// bytes, and — once the session is pinned — the pinned height, so the
    /// server re-serves the same logical snapshot.
    pub fn query_url(&self, endpoint: &str, query_bytes: &Vec<u8>) -> (url: String)
        ensures
            url@ == endpoint@ + "/query/"@ + hex_of(query_bytes@) + (match self.height {
                None => Seq::<char>::empty(),
                Some(h) => "?height="@ + dec_of(h as nat),
            }),
    {
        let mut url = endpoint.to_owned();
        url.append("/query/");
        let hex_query = hex_encode(query_bytes);
        url.append(hex_query.as_str());
        let cur = self.height;
        match cur {
            None => {
                proof {
                    assert(url@ =~= endpoint@ + "/query/"@ + hex_of(query_bytes@)
                        + Seq::<char>::empty());
                }
                url
            },
            Some(h) => {
                url.append("?height=");
                let dec = crate::text::u32_to_dec(h);
                url.append(dec.as_str());
                proof {
                    assert(url@ =~= endpoint@ + "/query/"@ + hex_of(query_bytes@) + ("?height="@
                        + dec_of(h as nat)));
                }
                url
            },
        }
    }

    /// Takes the base64 body of a query response, decodes and splits it, and
    /// holds its height to the session's pin.
    ///
    /// A body that is not base64, or whose envelope is under 36 bytes, fails
    /// with `Decode`; a height that contradicts the pin fails with
    /// `Consistency` naming both heights; otherwise the parsed envelope
    /// comes back exactly and the session is pinned to its height.
    pub fn ingest_response(&mut self, body: &str) -> (r: Result<Envelope, Error>)
        ensures
            b64_decoding(body@) is None ==> r == Err::<Envelope, Error>(Error::Decode)
                && final(self).height == old(self).height,
            b64_decoding(body@) matches Some(bytes) ==> (bytes.len() < 36 ==> r == Err::<
                Envelope,
                Error,
            >(Error::Decode) && final(self).height == old(self).height),
            b64_decoding(body@) matches Some(bytes) ==> (bytes.len() >= 36 ==> ({
                let h = parsed_height(bytes);
                match old(self).height {
                    Some(p) => if p != h {
                        r == Err::<Envelope, Error>(Error::Consistency { expected: p, observed: h })
                            && final(self).height == old(self).height
                    } else {
                        (r matches Ok(e) && e.is_parse_of(bytes)) && final(self).height == Some(h)
                    },
                    None => (r matches Ok(e) && e.is_parse_of(bytes)) && final(self).height == Some(h),
                }
            })),
    {
        let decoded = b64_decode(body);
        match decoded {
            None => Err(Error::Decode),
            Some(bytes) => {
                match decode_envelope(&bytes) {
                    Err(e) => Err(e),
                    Ok(env) => {
                        proof {
                            assert(env.height == parsed_height(bytes@));
                        }
                        match self.observe_height(env.height) {
                            Ok(_) => Ok(env),
                            Err(e) => Err(e),
                        }
                    },
                }
            },
        }
    }
}

} // verus!
