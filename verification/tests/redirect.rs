use http_stress::redirect::{build_client_builder, decide, decide_in_chain, RedirectAction};
use std::io::ErrorKind;
use std::time::Duration;
use tokio::net::{UnixListener, UnixStream};

/// Reads one request head from `stream` and gives the path it asks for.
async fn read_path(stream: &UnixStream) -> String {
    let mut request = Vec::new();
    let mut buffer = [0u8; 1024];
    loop {
        if stream.readable().await.is_err() {
            break;
        }
        match stream.try_read(&mut buffer) {
            Ok(0) => break,
            Ok(n) => {
                request.extend_from_slice(&buffer[..n]);
                if request.windows(4).any(|w| w == b"\r\n\r\n") {
                    break;
                }
            }
            Err(e) if e.kind() == ErrorKind::WouldBlock => continue,
            Err(_) => break,
        }
    }
    let text = String::from_utf8_lossy(&request).into_owned();
    text.split_whitespace().nth(1).unwrap_or("/").to_string()
}

/// Writes all of `bytes` to `stream`.
async fn write_all(stream: &UnixStream, bytes: &[u8]) {
    let mut sent = 0;
    while sent < bytes.len() {
        if stream.writable().await.is_err() {
            break;
        }
        match stream.try_write(&bytes[sent..]) {
            Ok(n) => sent += n,
            Err(e) if e.kind() == ErrorKind::WouldBlock => continue,
            Err(_) => break,
        }
    }
}

/// A server whose address `/hop/k` redirects to `/hop/k+1` for each `k`
/// below `chain`, and answers 200 from there on.
async fn serve_chain(listener: UnixListener, chain: usize) {
    loop {
        let stream = match listener.accept().await {
            Ok((stream, _)) => stream,
            Err(_) => return,
        };
        let path = read_path(&stream).await;
        let hop: usize = path.trim_start_matches("/hop/").parse().unwrap_or(0);
        let response = if hop < chain {
            format!(
                "HTTP/1.1 302 Found\r\nLocation: /hop/{}\r\nContent-Length: 0\r\nConnection: close\r\n\r\n",
                hop + 1
            )
        } else {
            String::from("HTTP/1.1 200 OK\r\nContent-Length: 4\r\nConnection: close\r\n\r\ndone")
        };
        write_all(&stream, response.as_bytes()).await;
    }
}

/// Requests `/hop/0` of a chain of `chain` redirects with a client capped
/// at `cap` hops: the status of the response that the client returns, and
/// the path that it came from.
fn request_chain(cap: usize, chain: usize) -> (u16, String) {
    let runtime = tokio::runtime::Builder::new_current_thread().enable_all().build().unwrap();
    runtime.block_on(async move {
        // A socket in the abstract namespace: it has a name and no file.
        let socket = format!("\0http_stress_redirect_{}_{}", cap, chain);
        let listener = UnixListener::bind(&socket).unwrap();
        tokio::spawn(serve_chain(listener, chain));
        let client = build_client_builder(cap).unix_socket(socket).build().unwrap();
        let sent = client.get("http://chain.test/hop/0").send();
        let response = tokio::time::timeout(Duration::from_secs(10), sent)
            .await
            .expect("the request timed out")
            .expect("the request failed");
        (response.status().as_u16(), response.url().path().to_string())
    })
}

#[test]
fn a_client_capped_at_zero_returns_the_redirect_itself() {
    assert_eq!(request_chain(0, 1), (302, String::from("/hop/0")));
}

#[test]
fn a_client_follows_a_chain_within_its_cap() {
    assert_eq!(request_chain(1, 1), (200, String::from("/hop/1")));
    assert_eq!(request_chain(3, 3), (200, String::from("/hop/3")));
    assert_eq!(request_chain(5, 2), (200, String::from("/hop/2")));
}

#[test]
fn a_client_stops_at_its_cap_without_an_error() {
    assert_eq!(request_chain(1, 3), (302, String::from("/hop/1")));
    assert_eq!(request_chain(2, 3), (302, String::from("/hop/2")));
    assert_eq!(request_chain(0, 3), (302, String::from("/hop/0")));
}

#[test]
fn a_client_without_redirects_gets_the_response() {
    assert_eq!(request_chain(0, 0), (200, String::from("/hop/0")));
    assert_eq!(request_chain(4, 0), (200, String::from("/hop/0")));
}

#[test]
fn a_cap_of_zero_returns_the_first_redirect_unfollowed() {
    assert_eq!(decide(0, 0), RedirectAction::Stop);
    assert_eq!(decide_in_chain(1, 0), RedirectAction::Stop);
}

#[test]
fn redirects_are_followed_up_to_the_cap() {
    assert_eq!(decide(0, 3), RedirectAction::Follow);
    assert_eq!(decide(1, 3), RedirectAction::Follow);
    assert_eq!(decide(2, 3), RedirectAction::Follow);
    assert_eq!(decide(3, 3), RedirectAction::Stop);
    assert_eq!(decide(4, 3), RedirectAction::Stop);
    assert_eq!(decide(usize::MAX, 3), RedirectAction::Stop);
    assert_eq!(decide(usize::MAX - 1, usize::MAX), RedirectAction::Follow);
    assert_eq!(decide(usize::MAX, usize::MAX), RedirectAction::Stop);
}

#[test]
fn the_chain_counts_its_first_address() {
    assert_eq!(decide_in_chain(1, 1), RedirectAction::Follow);
    assert_eq!(decide_in_chain(2, 1), RedirectAction::Stop);
    assert_eq!(decide_in_chain(3, 3), RedirectAction::Follow);
    assert_eq!(decide_in_chain(4, 3), RedirectAction::Stop);
    assert_eq!(decide_in_chain(0, 0), RedirectAction::Follow);
}

#[test]
fn both_decisions_agree_on_every_chain() {
    for cap in 0..6usize {
        for requested in 1..10usize {
            assert_eq!(decide_in_chain(requested, cap), decide(requested - 1, cap));
        }
    }
}

#[test]
fn a_stopped_chain_stays_stopped() {
    for cap in 0..6usize {
        let mut stopped = false;
        let mut followed = 0;
        for hops in 0..10usize {
            match decide(hops, cap) {
                RedirectAction::Follow => {
                    assert!(!stopped);
                    followed += 1;
                }
                RedirectAction::Stop => stopped = true,
            }
        }
        assert_eq!(followed, cap);
    }
}

#[test]
fn the_builder_gives_a_client() {
    assert!(build_client_builder(0).build().is_ok());
    assert!(build_client_builder(5).build().is_ok());
}
