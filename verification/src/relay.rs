//! The deposit-commitment announcement: a locally computed commitment is
//! posted to every relayer in a caller-supplied list, in order, all or
//! nothing. The first relayer that answers with anything but HTTP 200 aborts
//! the whole operation — a partially announced commitment risks the deposit
//! going unnoticed, so the caller must retry from scratch.
//!
//! The caller performs the HTTP POSTs; this state machine decides which URL
//! is next and what each status means.

use vstd::prelude::*;

verus! {

use vstd::string::StringExecFns;
use crate::error::Error;
use crate::text::{dec_of, percent_of, ascii_seq};
use crate::codec::{b64_encode, b64_encoding, url_encode, is_base64_char};

/// The announcement URL for one relayer: the percent-encoded base64
/// commitment, the signatory-set index, and the deposit address, as query
/// parameters.
pub open spec fn announce_url_of(
    relayer: Seq<char>,
    commitment_b64: Seq<char>,
    sigset_index: u32,
    deposit_addr: Seq<char>,
) -> Seq<char> {
    relayer + "?dest_bytes="@ + percent_of(commitment_b64) + "&sigset_index="@ + dec_of(
        sigset_index as nat,
    ) + "&deposit_addr="@ + deposit_addr
}

/// Builds the announcement URL for one relayer.
pub fn announce_url(
    relayer: &str,
    commitment_b64: &str,
    sigset_index: u32,
    deposit_addr: &str,
) -> (url: String)
    requires
        ascii_seq(commitment_b64@),
    ensures
        url@ == announce_url_of(relayer@, commitment_b64@, sigset_index, deposit_addr@),
{
    let mut url = relayer.to_owned();
    url.append("?dest_bytes=");
    let enc = url_encode(commitment_b64);
    url.append(enc.as_str());
    url.append("&sigset_index=");
    let idx = crate::text::u32_to_dec(sigset_index);
    url.append(idx.as_str());
    url.append("&deposit_addr=");
    url.append(deposit_addr);
    proof {
        assert(url@ =~= announce_url_of(relayer@, commitment_b64@, sigset_index, deposit_addr@));
    }
    url
}

/// One announcement operation over an ordered relayer list. The caller asks
/// `next_request` for the URL to POST to, performs the request, and hands
/// the status back to `on_status`; a non-200 status aborts the remainder.
pub struct Announcement {
    /// The relayer URLs, in announcement order.
    pub relayers: Vec<String>,
    /// The base64 of the commitment bytes.
    pub commitment_b64: String,
    /// The signatory-set index the commitment belongs to.
    pub sigset_index: u32,
    /// The resulting deposit address, passed along for the relayers.
    pub deposit_addr: String,
    /// How many relayers have answered 200 so far.
    pub next_index: usize,
    /// Whether a relayer failed and the operation is abandoned.
    pub aborted: bool,
}

impl Announcement {
    /// The state is within bounds and the commitment text is base64, hence
    /// ASCII.
    pub open spec fn wf(self) -> bool {
        &&& self.next_index <= self.relayers@.len()
        &&& ascii_seq(self.commitment_b64@)
    }

    /// Starts an announcement of `commitment` (raw bytes; encoded to base64
    /// here) to `relayers`, in order.
    pub fn new(
        commitment: &Vec<u8>,
        sigset_index: u32,
        deposit_addr: String,
        relayers: Vec<String>,
    ) -> (a: Self)
        ensures
            a.wf(),
            a.relayers == relayers,
            a.commitment_b64@ == b64_encoding(commitment@),
            a.sigset_index == sigset_index,
            a.deposit_addr == deposit_addr,
            a.next_index == 0,
            !a.aborted,
    {
        let commitment_b64 = b64_encode(commitment);
        proof {
            assert forall|i: int| 0 <= i < commitment_b64@.len() implies (commitment_b64@[i]
                as nat) < 128 by {
                assert(is_base64_char(commitment_b64@[i]));
            }
        }
        Announcement {
            relayers,
            commitment_b64,
            sigset_index,
            deposit_addr,
            next_index: 0,
            aborted: false,
        }
    }

    /// The URL to POST to next: `None` once every relayer has answered 200,
    /// or after any relayer has failed — an aborted announcement sends
    /// nothing further.
    pub fn next_request(&self) -> (r: Option<String>)
        requires
            self.wf(),
        ensures
            self.aborted || self.next_index == self.relayers@.len() ==> r is None,
            !self.aborted && self.next_index < self.relayers@.len() ==> (r matches Some(url)
                && url@ == announce_url_of(
                self.relayers@[self.next_index as int]@,
                self.commitment_b64@,
                self.sigset_index,
                self.deposit_addr@,
            )),
    {
        if self.aborted || self.next_index >= self.relayers.len() {
            return None;
        }
        Some(
            announce_url(
                self.relayers[self.next_index].as_str(),
                self.commitment_b64.as_str(),
                self.sigset_index,
                self.deposit_addr.as_str(),
            ),
        )
    }

    /// Takes the HTTP status the current relayer answered with. 200 moves on
    /// to the next relayer; anything else fails the whole operation with a
    /// `Relayer` error naming that status, and no further request is issued.
    pub fn on_status(&mut self, status: u16) -> (r: Result<(), Error>)
        requires
            old(self).wf(),
            !old(self).aborted,
            old(self).next_index < old(self).relayers@.len(),
        ensures
            final(self).wf(),
            final(self).relayers == old(self).relayers,
            final(self).commitment_b64 == old(self).commitment_b64,
            final(self).sigset_index == old(self).sigset_index,
            final(self).deposit_addr == old(self).deposit_addr,
            status == 200 ==> r is Ok && final(self).next_index == old(self).next_index + 1
                && !final(self).aborted,
            status != 200 ==> r == Err::<(), Error>(Error::Relayer { status })
                && final(self).aborted && final(self).next_index == old(self).next_index,
    {
        if status == 200 {
            let n = self.relayers.len();
            proof {
                assert(self.next_index < n);
            }
            self.next_index = self.next_index + 1;
            Ok(())
        } else {
            self.aborted = true;
            Err(Error::Relayer { status })
        }
    }

    /// Whether every relayer has been announced to successfully.
    pub fn done(&self) -> (r: bool)
        ensures
            r == (!self.aborted && self.next_index == self.relayers@.len()),
    {
        !self.aborted && self.next_index == self.relayers.len()
    }
}

} // verus!
