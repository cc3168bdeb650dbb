//! Where the bytes of a source come from, read from its URL.
use vstd::prelude::*;
use crate::text::{
    decimal, has_prefix, is_digit, lemma_decimal_reads_back, lemma_port_reads_decimal,
    lemma_remove_all_absent, parse_port, parse_u16, remove_all, remove_pattern, starts_with,
};

verus! {

/// The kind of source a URL names.
#[derive(Clone, Copy, Debug, PartialEq, Eq, Structural)]
pub enum SourceKind {
    /// A local file.
    File,
    /// An SRT stream.
    Srt,
}

impl SourceKind {
    /// `Srt` for a URL that begins with `srt://`, `File` for any other.
    pub fn from_url(url: &str) -> (k: SourceKind)
        ensures
            k == (if has_prefix(url@, "srt://"@) { SourceKind::Srt } else { SourceKind::File }),
    {
        if starts_with(url, "srt://") {
            SourceKind::Srt
        } else {
            SourceKind::File
        }
    }
}

/// How to reach an SRT peer.
#[derive(Debug)]
pub enum SrtEndpoint {
    /// Wait for a caller on this local port.
    Listen { port: u16 },
    /// Call the peer at this address.
    Connect { address: String },
}

/// The endpoint that an SRT URL names: `srt://:PORT` listens on PORT, with
/// every `srt://:` taken out of the URL before the port is read; any other
/// URL calls the address that is left once every `srt://` is taken out.
/// `None` when a listening URL does not hold a port.
pub fn srt_endpoint(url: &str) -> (r: Option<SrtEndpoint>)
    ensures
        has_prefix(url@, "srt://:"@) ==> match parse_u16(remove_all(url@, "srt://:"@)) {
            Some(port) => r matches Some(SrtEndpoint::Listen { port: p }) && p == port,
            None => r is None,
        },
        !has_prefix(url@, "srt://:"@) ==> (r matches Some(SrtEndpoint::Connect { address }) && address@
            == remove_all(url@, "srt://"@)),
{
    if starts_with(url, "srt://:") {
        let rest = remove_pattern(url, "srt://:");
        match parse_port(rest.as_str()) {
            Some(port) => Some(SrtEndpoint::Listen { port }),
            None => None,
        }
    } else {
        let address = remove_pattern(url, "srt://");
        Some(SrtEndpoint::Connect { address })
    }
}

/// `srt://:` and a port listens on that port; `srt://` and an address that
/// does not start with `:` and holds no `s` calls that address.
pub proof fn lemma_srt_urls(port: u16, address: Seq<char>)
    ensures
        ({
            let url = "srt://:"@ + decimal(port as nat);
            has_prefix(url, "srt://:"@) && parse_u16(remove_all(url, "srt://:"@)) == Some(port)
        }),
        ({
            let url = "srt://"@ + address;
            address.len() > 0 && address[0] != ':' && !address.contains('s') ==> !has_prefix(url, "srt://:"@)
                && remove_all(url, "srt://"@) == address
        }),
{
    reveal_strlit("srt://:");
    reveal_strlit("srt://");
    let listen = "srt://:"@;
    let digits = decimal(port as nat);
    let url = listen + digits;
    assert(url.take(listen.len() as int) =~= listen);
    assert(url.skip(listen.len() as int) =~= digits);
    lemma_decimal_reads_back(port as nat);
    assert(!digits.contains('s')) by {
        if digits.contains('s') {
            let j = choose|j: int| 0 <= j < digits.len() && digits[j] == 's';
            assert(is_digit(digits[j]));
        }
    }
    lemma_remove_all_absent(digits, listen);
    lemma_port_reads_decimal(port as nat, digits, 0);
    let call = "srt://"@;
    let url2 = call + address;
    if address.len() > 0 && address[0] != ':' && !address.contains('s') {
        assert(url2.take(call.len() as int) =~= call);
        assert(url2.skip(call.len() as int) =~= address);
        assert(url2[6] == address[0]);
        assert(url2.len() >= 7 ==> url2.take(7)[6] != listen[6]);
        lemma_remove_all_absent(address, call);
    }
}

} // verus!
