//! Downloading forwarded messages: where to fetch a resource from.
//!
//! The server answers a request for a resource with a descriptor: a result
//! code, the hosts that hold the resource, the path to ask them for, and the
//! key that the body is encrypted with. This module checks the descriptor
//! and builds the address to fetch from. Fetching the body, and what is to be
//! done with it, is not settled here.

use crate::elem::RQElem;
use crate::error::{Field, RQError, RQResult};
use crate::text::{decimal, push_decimal};
use crate::upload::Endpoint;
use vstd::prelude::*;
use vstd::string::StringExecFns;
use vstd::utf8::{decode_utf8, valid_utf8};

verus! {

/// The channel type that stands for the well-known host.
pub const CHANNEL_WELL_KNOWN: i32 = 2;

/// What the server answers to a request for a resource.
#[derive(Clone, Debug)]
pub struct DownloadDescriptor {
    /// Zero where the request was granted.
    pub result: i32,
    /// The channel to fetch over, where the answer names one.
    pub channel_type: Option<i32>,
    /// The addresses of the hosts that hold the resource.
    pub down_ip: Vec<u32>,
    /// Their ports.
    pub down_port: Vec<u32>,
    /// The path to ask a host for, as the server wrote it.
    pub path: Vec<u8>,
    /// The key that the body is encrypted with.
    pub key: Vec<u8>,
}

/// Where to fetch a resource from, and how to read it.
#[derive(Clone, Debug)]
pub struct DownloadPlan {
    pub url: String,
    pub key: Vec<u8>,
}

/// The part of an address that stands at `place`, the lowest byte being the
/// first part.
pub open spec fn octet(ip: u32, place: nat) -> nat {
    if place == 0 {
        (ip % 256) as nat
    } else if place == 1 {
        (ip / 256 % 256) as nat
    } else if place == 2 {
        (ip / 65536 % 256) as nat
    } else {
        (ip / 16777216) as nat
    }
}

/// An endpoint as text: the four parts of its address with dots between
/// them, a colon, and the port.
pub open spec fn host_text(e: Endpoint) -> Seq<char> {
    decimal(octet(e.ip, 0)) + "."@ + decimal(octet(e.ip, 1)) + "."@ + decimal(octet(e.ip, 2))
        + "."@ + decimal(octet(e.ip, 3)) + ":"@ + decimal(e.port as nat)
}

/// The text that `String::from_utf8_lossy` makes of `bytes`.
pub uninterp spec fn utf8_lossy(bytes: Seq<u8>) -> Seq<char>;

/// Calls `String::from_utf8_lossy`. The claim: the text depends on the bytes
/// alone, and bytes that are valid UTF-8 give the text that they encode.
#[verifier::external_body]
fn lossy_text(bytes: &[u8]) -> (text: String)
    ensures
        text@ == utf8_lossy(bytes@),
        valid_utf8(bytes@) ==> text@ == decode_utf8(bytes@),
{
    String::from_utf8_lossy(bytes).into_owned()
}

/// The host that a descriptor names: the well-known one, or the last of its
/// addresses with the last of its ports, of which the low 16 bits count.
pub open spec fn prefix_of(d: DownloadDescriptor) -> Seq<char> {
    if d.channel_type == Some(CHANNEL_WELL_KNOWN) {
        "https://ssl.htdata.qq.com"@
    } else {
        "http://"@ + host_text(
            Endpoint { ip: d.down_ip@.last(), port: d.down_port@.last() as u16 },
        )
    }
}

/// The field whose absence stops the download, if one does.
pub open spec fn missing_of(d: DownloadDescriptor) -> Option<Field> {
    if d.channel_type == Some(CHANNEL_WELL_KNOWN) {
        None
    } else if d.down_ip@.len() == 0 {
        Some(Field::DownloadAddress)
    } else if d.down_port@.len() == 0 {
        Some(Field::DownloadPort)
    } else {
        None
    }
}

/// The address to fetch the resource of a descriptor from: the host, and
/// behind it the path as the server wrote it.
pub open spec fn url_of(d: DownloadDescriptor) -> Seq<char> {
    prefix_of(d) + utf8_lossy(d.path@)
}

impl Endpoint {
    /// Writes the endpoint as text, as it stands in an address.
    pub fn push_host(&self, s: &mut String)
        ensures
            final(s)@ == old(s)@ + host_text(*self),
    {
        let ip = self.ip;
        push_decimal(s, (ip % 256) as u64);
        s.append(".");
        push_decimal(s, (ip / 256 % 256) as u64);
        s.append(".");
        push_decimal(s, (ip / 65536 % 256) as u64);
        s.append(".");
        push_decimal(s, (ip / 16777216) as u64);
        s.append(":");
        push_decimal(s, self.port as u64);
        proof {
            assert(s@ =~= old(s)@ + host_text(*self));
        }
    }
}

/// Checks a descriptor and builds the address to fetch its resource from.
///
/// A descriptor with another result than zero is refused as not fitting the
/// request. Unless it names the well-known channel, it must bring an address
/// and a port; the address is looked for first. A path that is valid UTF-8
/// stands in the address as the text that it encodes.
pub fn download_plan(d: DownloadDescriptor) -> (r: RQResult<DownloadPlan>)
    ensures
        d.result != 0 ==> r == Err::<DownloadPlan, RQError>(RQError::ProtocolMismatch),
        d.result == 0 ==> match missing_of(d) {
            Some(field) => r == Err::<DownloadPlan, RQError>(RQError::MissingField(field)),
            None => r is Ok && r->Ok_0.url@ == url_of(d) && r->Ok_0.key == d.key,
        },
        d.result == 0 && missing_of(d) is None && valid_utf8(d.path@) ==> r is Ok && r->Ok_0.url@
            == prefix_of(d) + decode_utf8(d.path@),
{
    if d.result != 0 {
        return Err(RQError::ProtocolMismatch);
    }
    let mut url: String;
    if d.channel_type == Some(CHANNEL_WELL_KNOWN) {
        url = String::from_str("https://ssl.htdata.qq.com");
    } else {
        if d.down_ip.len() == 0 {
            return Err(RQError::MissingField(Field::DownloadAddress));
        }
        if d.down_port.len() == 0 {
            return Err(RQError::MissingField(Field::DownloadPort));
        }
        let ip = d.down_ip[d.down_ip.len() - 1];
        let port = d.down_port[d.down_port.len() - 1] as u16;
        url = String::from_str("http://");
        Endpoint { ip, port }.push_host(&mut url);
    }
    let path = lossy_text(d.path.as_slice());
    url.append(path.as_str());
    Ok(DownloadPlan { url, key: d.key })
}

/// One of the messages that were forwarded together.
#[derive(Clone, Debug)]
pub struct ForwardMessage {
    pub sender_id: i64,
    pub time: i32,
    pub sender_name: String,
    pub elements: Vec<RQElem>,
}

/// Downloads the messages that a descriptor stands for, as far as that is
/// settled: the descriptor is checked and the address is found, as
/// `download_plan` does. How the body is fetched, decrypted, unpacked and
/// read is not settled; until it is, a download that got this far ends in
/// `RQError::Unimplemented`.
pub fn download_msgs(d: DownloadDescriptor) -> (r: RQResult<Vec<ForwardMessage>>)
    ensures
        d.result != 0 ==> r == Err::<Vec<ForwardMessage>, RQError>(RQError::ProtocolMismatch),
        d.result == 0 ==> r == Err::<Vec<ForwardMessage>, RQError>(
            match missing_of(d) {
                Some(field) => RQError::MissingField(field),
                None => RQError::Unimplemented,
            },
        ),
{
    match download_plan(d) {
        Ok(_) => Err(RQError::Unimplemented),
        Err(e) => Err(e),
    }
}

} // verus!
