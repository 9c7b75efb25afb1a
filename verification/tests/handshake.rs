use websocket::server::handshake::{accept_key_from, response, MAGIC_STRING};

#[test]
fn accept_key_matches_the_protocol_example() {
    assert_eq!(accept_key_from(b"dGhlIHNhbXBsZSBub25jZQ=="), "s3pPLMBiTxaQ9kYGzzhZRbK+xOo=");
}

#[test]
fn accept_key_of_another_key() {
    assert_eq!(accept_key_from(b"x3JJHMbDL1EzLkh9GBhXDw=="), "HSmrc0sMlYUkAGmm5OPpG2HaGWk=");
    assert_eq!(accept_key_from(b"").len(), 28);
}

#[test]
fn magic_string_is_the_protocols() {
    assert_eq!(MAGIC_STRING, "258EAFA5-E914-47DA-95CA-C5AB0DC85B11");
}

#[test]
fn response_without_headers() {
    let text = response(b"dGhlIHNhbXBsZSBub25jZQ==", &Vec::new());
    assert_eq!(
        text,
        "HTTP/1.1 101 Switching Protocols\r\nUpgrade: websocket\r\nConnection: Upgrade\r\nSec-WebSocket-Accept: s3pPLMBiTxaQ9kYGzzhZRbK+xOo=\r\n\r\n"
    );
}

#[test]
fn response_with_headers_in_order() {
    let headers = vec![
        ("Sec-WebSocket-Protocol".to_string(), "chat".to_string()),
        ("Server".to_string(), "tictactoe".to_string()),
    ];
    let text = response(b"dGhlIHNhbXBsZSBub25jZQ==", &headers);
    assert_eq!(
        text,
        "HTTP/1.1 101 Switching Protocols\r\nUpgrade: websocket\r\nConnection: Upgrade\r\nSec-WebSocket-Accept: s3pPLMBiTxaQ9kYGzzhZRbK+xOo=\r\nSec-WebSocket-Protocol: chat\r\nServer: tictactoe\r\n\r\n"
    );
}
