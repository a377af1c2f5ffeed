//! Uploading a photo to the logger.

use vstd::prelude::*;
use vstd::string::*;

use super::config::Config;
use crate::text::{chars_of, dec, text_of, u64_text};

verus! {

/// Where photos are uploaded to.
pub open spec fn upload_addr_text(cfg: Config) -> Seq<char> {
    cfg.upload_host@ + ":"@ + dec(cfg.upload_port as nat)
}

/// Where photos are uploaded to.
pub fn upload_addr(cfg: &Config) -> (r: String)
    ensures
        r@ == upload_addr_text(*cfg),
{
    let mut t = cfg.upload_host.clone();
    t.append(":");
    t.append(u64_text(cfg.upload_port as u64).as_str());
    t
}

/// The head of the request that uploads a photo of `len` bytes.
pub open spec fn request_head(addr: Seq<char>, timestamp: Seq<char>, len: nat) -> Seq<char> {
    "POST /upload HTTP/1.1\r\nHost: "@ + addr
        + "\r\nContent-Type: image/jpeg\r\nX-Timestamp: "@ + timestamp + "\r\nContent-Length: "@
        + dec(len) + "\r\nConnection: close\r\n\r\n"@
}

/// The head of the request that uploads a photo; the photo follows it.
pub fn http_post_jpeg(cfg: &Config, jpeg: &[u8], timestamp: &str) -> (r: String)
    ensures
        r@ == request_head(upload_addr_text(*cfg), timestamp@, jpeg@.len()),
{
    let mut t = "POST /upload HTTP/1.1\r\nHost: ".to_owned();
    t.append(upload_addr(cfg).as_str());
    t.append("\r\nContent-Type: image/jpeg\r\nX-Timestamp: ");
    t.append(timestamp);
    t.append("\r\nContent-Length: ");
    t.append(u64_text(jpeg.len() as u64).as_str());
    t.append("\r\nConnection: close\r\n\r\n");
    t
}

/// The first line of a text, without the line break and a carriage return in front of it.
pub open spec fn first_line(s: Seq<char>) -> Seq<char> {
    if !s.contains('\n') {
        s
    } else {
        let end = s.index_of_first('\n')->0;
        if end > 0 && s[end - 1] == '\r' {
            s.take(end - 1)
        } else {
            s.take(end)
        }
    }
}

/// The status line of a response.
pub fn status_line(response: &str) -> (r: String)
    ensures
        r@ == first_line(response@),
{
    let chars = chars_of(response);
    let mut i: usize = 0;
    while i < chars.len() && chars[i] != '\n'
        invariant
            chars@ == response@,
            i <= chars.len(),
            forall|j: int| 0 <= j < i ==> response@[j] != '\n',
        decreases chars.len() - i,
    {
        i = i + 1;
    }
    if i == chars.len() {
        return response.to_owned();
    }
    proof {
        assert(response@[i as int] == '\n');
        response@.index_of_first_ensures('\n');
        assert(response@.index_of_first('\n') == Some(i as int));
    }
    if i > 0 && chars[i - 1] == '\r' {
        text_of(&chars, 0, i - 1)
    } else {
        text_of(&chars, 0, i)
    }
}

} // verus!
