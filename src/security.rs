//! Size limits on content handled by the application.
use vstd::prelude::*;
use crate::text::{decimal, digit_char, decimal_text, digit_str};
use crate::json::text_is;

verus! {

/// Largest accepted size, in bytes, of a file or a piece of content (10 MiB).
pub const MAX_FILE_SIZE: u64 = 10485760;

/// Bytes in one mebibyte.
pub const BYTES_PER_MB: u64 = 1048576;

/// `size` bytes in hundredths of a mebibyte, rounded to the nearest, ties to even.
pub open spec fn mb_hundredths(size: nat) -> nat {
    let q = size * 100 / BYTES_PER_MB as nat;
    let r = size * 100 % BYTES_PER_MB as nat;
    if 2 * r > BYTES_PER_MB as nat || (2 * r == BYTES_PER_MB as nat && q % 2 == 1) {
        q + 1
    } else {
        q
    }
}

/// Two decimal digits of `n < 100`, with a leading zero.
pub open spec fn two_digits(n: nat) -> Seq<char> {
    seq![digit_char(n / 10), digit_char(n % 10)]
}

/// `size` bytes written in mebibytes with two decimals, as in `15.00`.
pub open spec fn mb_text(size: nat) -> Seq<char> {
    decimal(mb_hundredths(size) / 100) + seq!['.'] + two_digits(mb_hundredths(size) % 100)
}

/// The message that rejects `size` bytes of the thing called `what`.
pub open spec fn too_large_message(what: Seq<char>, size: nat) -> Seq<char> {
    what + " too large: "@ + mb_text(size) + " MB (max "@ + decimal(MAX_FILE_SIZE as nat
        / BYTES_PER_MB as nat) + " MB)"@
}

/// Writes `size` bytes in mebibytes with two decimals.
fn mb_string(size: u64) -> (r: String)
    ensures
        r@ == mb_text(size as nat),
{
    let wide: u128 = size as u128 * 100;
    let q: u128 = wide / (BYTES_PER_MB as u128);
    let rem: u128 = wide % (BYTES_PER_MB as u128);
    let h: u128 = if 2 * rem > BYTES_PER_MB as u128 || (2 * rem == BYTES_PER_MB as u128 && q % 2
        == 1) {
        q + 1
    } else {
        q
    };
    assert(h == mb_hundredths(size as nat));
    assert(h / 100 <= u64::MAX) by (nonlinear_arith)
        requires
            h <= q + 1,
            q == wide / 1048576,
            wide == size * 100,
            size <= u64::MAX,
    ;
    let mut s = decimal_text((h / 100) as u64);
    s.append(".");
    let frac: u64 = (h % 100) as u64;
    s.append(digit_str(frac / 10));
    s.append(digit_str(frac % 10));
    proof {
        reveal_strlit(".");
    }
    assert(s@ =~= mb_text(size as nat));
    s
}

/// The rejection message for `size` bytes of the thing called `what`.
fn too_large(what: &str, size: u64) -> (r: String)
    ensures
        r@ == too_large_message(what@, size as nat),
{
    let mut s = String::from_str(what);
    s.append(" too large: ");
    let mb = mb_string(size);
    s.append(mb.as_str());
    s.append(" MB (max ");
    let limit = decimal_text(MAX_FILE_SIZE / BYTES_PER_MB);
    s.append(limit.as_str());
    s.append(" MB)");
    assert(s@ =~= too_large_message(what@, size as nat));
    s
}

/// Checks that content about to be written is at most `MAX_FILE_SIZE` bytes.
pub fn validate_content_size(content: &str) -> (r: Result<(), String>)
    ensures
        r is Ok <==> content.len() <= MAX_FILE_SIZE,
        r matches Err(m) ==> m@ == too_large_message("Content"@, content.len() as nat),
{
    let size: u64 = content.len() as u64;
    if size > MAX_FILE_SIZE {
        return Err(too_large("Content", size));
    }
    Ok(())
}

/// Checks a file's size, read from its metadata, against `MAX_FILE_SIZE`.
pub fn check_file_size(file_size: u64) -> (r: Result<(), String>)
    ensures
        r is Ok <==> file_size <= MAX_FILE_SIZE,
        r matches Err(m) ==> m@ == too_large_message("File"@, file_size as nat),
{
    if file_size > MAX_FILE_SIZE {
        return Err(too_large("File", file_size));
    }
    Ok(())
}

/// The host of a URL as the `url` crate parses it: nothing for text that is
/// no absolute URL, `Some(None)` for a URL without a host.
pub uninterp spec fn url_host(s: Seq<char>) -> Option<Option<Seq<char>>>;

/// Relies on `url::Url::parse` and `url::Url::host_str`: the host, if any, of
/// the URL that the text spells, or the parser's error message. Both depend on
/// the text alone.
#[verifier::external_body]
fn parse_url_host(s: &str) -> (r: Result<Option<String>, String>)
    ensures
        r is Err <==> url_host(s@) is None,
        r matches Ok(None) ==> url_host(s@) == Some(None::<Seq<char>>),
        r matches Ok(Some(h)) ==> url_host(s@) == Some(Some(h@)),
{
    match url::Url::parse(s) {
        Ok(u) => Ok(u.host_str().map(|h| h.to_string())),
        Err(e) => Err(e.to_string()),
    }
}

/// The hosts on which the model server may run: this machine only.
pub open spec fn is_local_host(h: Seq<char>) -> bool {
    h == "localhost"@ || h == "127.0.0.1"@ || h == "::1"@
}

/// The message that refuses a model server on another host.
pub open spec fn remote_host_message(h: Seq<char>) -> Seq<char> {
    "Security violation: Ollama must run on localhost. Found hostname: '"@ + h
        + "'\nAllowed values: localhost, 127.0.0.1, ::1\nThis restriction protects student privacy (GDPR/FERPA compliance)."@
}

fn is_local(h: &String) -> (r: bool)
    ensures
        r == is_local_host(h@),
{
    text_is(h, "localhost") || text_is(h, "127.0.0.1") || text_is(h, "::1")
}

/// Judges a model server address from what the URL parser made of it: the
/// address is accepted, as it was written, only where its host is this machine.
pub fn judge_ollama_host(url_str: &str, parsed: Result<Option<String>, String>) -> (r: Result<
    String,
    String,
>)
    ensures
        parsed matches Err(e) ==> (r matches Err(m) && m@ == "Invalid Ollama URL format: "@ + e@),
        parsed matches Ok(None) ==> (r matches Err(m) && m@ == "Ollama URL must have a hostname"@),
        parsed matches Ok(Some(h)) ==> if is_local_host(h@) {
            r matches Ok(u) && u@ == url_str@
        } else {
            r matches Err(m) && m@ == remote_host_message(h@)
        },
{
    match parsed {
        Err(e) => {
            let mut m = String::from_str("Invalid Ollama URL format: ");
            m.append(e.as_str());
            Err(m)
        },
        Ok(None) => Err(String::from_str("Ollama URL must have a hostname")),
        Ok(Some(h)) => {
            if is_local(&h) {
                Ok(String::from_str(url_str))
            } else {
                let mut m = String::from_str(
                    "Security violation: Ollama must run on localhost. Found hostname: '",
                );
                m.append(h.as_str());
                m.append(
                    "'\nAllowed values: localhost, 127.0.0.1, ::1\nThis restriction protects student privacy (GDPR/FERPA compliance).",
                );
                Err(m)
            }
        },
    }
}

/// Accepts a model server address only where it names this machine, so that
/// no student data leaves it.
pub fn validate_ollama_url(url_str: &str) -> (r: Result<String, String>)
    ensures
        url_host(url_str@) is None ==> r is Err,
        url_host(url_str@) == Some(None::<Seq<char>>) ==> (r matches Err(m) && m@
            == "Ollama URL must have a hostname"@),
        url_host(url_str@) matches Some(Some(h)) ==> if is_local_host(h) {
            r matches Ok(u) && u@ == url_str@
        } else {
            r matches Err(m) && m@ == remote_host_message(h)
        },
{
    let parsed = parse_url_host(url_str);
    judge_ollama_host(url_str, parsed)
}

} // verus!
