use vstd::prelude::*;
use vstd::string::{StringExecFns, StringSliceAdditionalSpecFns};

verus! {

/// The string that the opening handshake appends to the client's key.
pub const MAGIC_STRING: &'static str = "258EAFA5-E914-47DA-95CA-C5AB0DC85B11";

/// The SHA-1 digest of a message.
pub uninterp spec fn sha1_digest(data: Seq<u8>) -> Seq<u8>;

/// The base64 text of some bytes, in the standard alphabet and with padding.
pub uninterp spec fn base64_standard(data: Seq<u8>) -> Seq<char>;

/// The accept key that answers a client's key.
pub open spec fn accept_key(sec_ws_key: Seq<u8>) -> Seq<char> {
    base64_standard(sha1_digest(sec_ws_key + MAGIC_STRING.spec_bytes()))
}

/// The header lines of a response, one `name: value` line for each header.
pub open spec fn header_lines(headers: Seq<(String, String)>) -> Seq<char>
    decreases headers.len(),
{
    if headers.len() == 0 {
        Seq::empty()
    } else {
        header_lines(headers.drop_last()) + headers.last().0@ + ": "@ + headers.last().1@ + "\r\n"@
    }
}

/// The response that switches protocols, with the given accept key and headers.
pub open spec fn response_text(key: Seq<char>, headers: Seq<(String, String)>) -> Seq<char> {
    "HTTP/1.1 101 Switching Protocols\r\nUpgrade: websocket\r\nConnection: Upgrade\r\nSec-WebSocket-Accept: "@
        + key + "\r\n"@ + header_lines(headers) + "\r\n"@
}

/// The accept key for a client's key: the base64 text of the SHA-1 digest of
/// the key followed by the magic string.
pub fn accept_key_from(sec_ws_key: &[u8]) -> (key: String)
    ensures
        key@ == accept_key(sec_ws_key@),
{
    let magic = MAGIC_STRING.as_bytes();
    let mut message: Vec<u8> = Vec::new();
    let mut i: usize = 0;
    while i < sec_ws_key.len()
        invariant
            i <= sec_ws_key@.len(),
            message@ == sec_ws_key@.take(i as int),
        decreases sec_ws_key@.len() - i,
    {
        message.push(sec_ws_key[i]);
        i += 1;
        assert(message@ =~= sec_ws_key@.take(i as int));
    }
    assert(sec_ws_key@.take(i as int) =~= sec_ws_key@);
    let mut j: usize = 0;
    while j < magic.len()
        invariant
            j <= magic@.len(),
            message@ == sec_ws_key@ + magic@.take(j as int),
        decreases magic@.len() - j,
    {
        message.push(magic[j]);
        j += 1;
        assert(message@ =~= sec_ws_key@ + magic@.take(j as int));
    }
    assert(magic@.take(j as int) =~= magic@);
    let digest = sha1(message.as_slice());
    base64(digest.as_slice())
}

/// The response to a client's opening handshake.
pub fn response(sec_ws_key: &[u8], headers: &Vec<(String, String)>) -> (text: String)
    ensures
        text@ == response_text(accept_key(sec_ws_key@), headers@),
{
    let key = accept_key_from(sec_ws_key);
    let mut text = String::from_str(
        "HTTP/1.1 101 Switching Protocols\r\nUpgrade: websocket\r\nConnection: Upgrade\r\nSec-WebSocket-Accept: ",
    );
    text.append(key.as_str());
    text.append("\r\n");
    let ghost head = text@;
    let mut i: usize = 0;
    while i < headers.len()
        invariant
            i <= headers@.len(),
            text@ == head + header_lines(headers@.take(i as int)),
        decreases headers@.len() - i,
    {
        let ghost before = text@;
        text.append(headers[i].0.as_str());
        text.append(": ");
        text.append(headers[i].1.as_str());
        text.append("\r\n");
        assert(headers@.take(i + 1).drop_last() =~= headers@.take(i as int));
        assert(text@ =~= head + header_lines(headers@.take(i + 1)));
        i += 1;
    }
    assert(headers@.take(i as int) =~= headers@);
    text.append("\r\n");
    assert(text@ =~= response_text(accept_key(sec_ws_key@), headers@));
    text
}

/// `sha1::Digest::digest` of `sha1::Sha1`: the SHA-1 digest of the message,
/// which has 20 bytes.
#[verifier::external_body]
fn sha1(data: &[u8]) -> (digest: Vec<u8>)
    ensures
        digest@ == sha1_digest(data@),
        digest@.len() == 20,
{
    <sha1::Sha1 as sha1::Digest>::digest(data).to_vec()
}

/// `base64::Engine::encode` of `base64::prelude::BASE64_STANDARD`: the base64
/// text of the bytes. The bytes must be few enough for the length of the text
/// to fit.
#[verifier::external_body]
fn base64(data: &[u8]) -> (text: String)
    requires
        4 * (data@.len() / 3) + 4 <= usize::MAX,
    ensures
        text@ == base64_standard(data@),
{
    base64::Engine::encode(&base64::prelude::BASE64_STANDARD, data)
}

} // verus!
