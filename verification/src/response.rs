//! The response builder: given the bytes read from a connection and the
//! number of bytes actually read, it produces a status line and a body.
//!
//! If the leading bytes of the buffer are exactly the ASCII request line
//! `"GET / HTTP/1.1\r\n"`, the status line is `"HTTP/1.1 200 OK\r\n\r\n"` and
//! the body says the request came from a browser; otherwise the status line
//! is empty and the body says the access was direct. The response written
//! back is the plain concatenation of status line and body, with no further
//! framing: a diagnostic echo, not a conformant HTTP response.

use vstd::prelude::*;
use vstd::string::*;
use crate::decimal::{dec_rep, dec_string};

verus! {

/// The ASCII bytes of the request line `"GET / HTTP/1.1\r\n"`.
pub open spec fn get_request_prefix() -> Seq<u8> {
    seq![
        71u8,
        69u8,
        84u8,
        32u8,
        47u8,
        32u8,
        72u8,
        84u8,
        84u8,
        80u8,
        47u8,
        49u8,
        46u8,
        49u8,
        13u8,
        10u8,
    ]
}

/// Whether the first 16 bytes of the buffer are exactly the GET request line.
pub open spec fn is_get_request(data: Seq<u8>) -> bool {
    data.len() >= 16 && data.subrange(0, 16) == get_request_prefix()
}

/// The status line owed for a buffer: the OK line for a GET request line,
/// empty for anything else.
pub open spec fn spec_status_line(data: Seq<u8>) -> Seq<char> {
    if is_get_request(data) {
        "HTTP/1.1 200 OK\r\n\r\n"@
    } else {
        Seq::<char>::empty()
    }
}

/// The body owed for a buffer and a byte count: a fixed prefix naming the
/// access kind, the exact decimal of the count, and the word `bytes`.
pub open spec fn spec_body(data: Seq<u8>, n: nat) -> Seq<char> {
    (if is_get_request(data) {
        "invoked from browser: got "@
    } else {
        "direct access: got "@
    }) + dec_rep(n) + " bytes"@
}

/// The full response: status line, then body, nothing else.
pub open spec fn spec_response(data: Seq<u8>, n: nat) -> Seq<char> {
    spec_status_line(data) + spec_body(data, n)
}

fn get_literal() -> (v: Vec<u8>)
    ensures
        v@ == get_request_prefix(),
{
    let v: Vec<u8> = vec![
        71u8,
        69u8,
        84u8,
        32u8,
        47u8,
        32u8,
        72u8,
        84u8,
        84u8,
        80u8,
        47u8,
        49u8,
        46u8,
        49u8,
        13u8,
        10u8,
    ];
    proof {
        assert(v@ =~= get_request_prefix());
    }
    v
}

/// Whether the buffer starts with the GET request line.
pub fn is_get(data: &Vec<u8>) -> (r: bool)
    ensures
        r == is_get_request(data@),
{
    if data.len() < 16 {
        return false;
    }
    let lit = get_literal();
    let mut i: usize = 0;
    while i < 16
        invariant
            0 <= i <= 16,
            data@.len() >= 16,
            lit@ == get_request_prefix(),
            forall|j: int| 0 <= j < i ==> data@[j] == get_request_prefix()[j],
        decreases 16 - i,
    {
        if data[i] != lit[i] {
            proof {
                assert(data@.subrange(0, 16)[i as int] == data@[i as int]);
            }
            return false;
        }
        i += 1;
    }
    proof {
        assert(data@.subrange(0, 16) =~= get_request_prefix());
    }
    true
}

/// Builds the status line and the body for the buffer `data` and the byte
/// count `n`.
pub fn build(data: &Vec<u8>, n: usize) -> (r: (String, String))
    ensures
        r.0@ == spec_status_line(data@),
        r.1@ == spec_body(data@, n as nat),
{
    let get = is_get(data);
    let count = dec_string(n);
    let mut body = if get {
        String::from_str("invoked from browser: got ")
    } else {
        String::from_str("direct access: got ")
    };
    body.append(count.as_str());
    body.append(" bytes");
    let status = if get {
        String::from_str("HTTP/1.1 200 OK\r\n\r\n")
    } else {
        String::from_str("")
    };
    proof {
        reveal_strlit("");
        assert(status@ =~= spec_status_line(data@));
        assert(body@ =~= spec_body(data@, n as nat));
    }
    (status, body)
}

/// Builds the full response text: the status line immediately followed by
/// the body.
pub fn build_response(data: &Vec<u8>, n: usize) -> (r: String)
    ensures
        r@ == spec_response(data@, n as nat),
{
    let (status, body) = build(data, n);
    let mut r = status;
    r.append(body.as_str());
    proof {
        assert(r@ =~= spec_response(data@, n as nat));
    }
    r
}

/// For every buffer whose first 16 bytes are the GET request line the status
/// line is the OK line, and for every other buffer (the empty one included)
/// it is empty.
pub proof fn lemma_status_line_law(data: Seq<u8>)
    ensures
        is_get_request(data) ==> spec_status_line(data) == "HTTP/1.1 200 OK\r\n\r\n"@,
        !is_get_request(data) ==> spec_status_line(data) == Seq::<char>::empty(),
{
}

/// For every buffer and byte count, the body contains the exact decimal of
/// the count as a contiguous run of characters.
pub proof fn lemma_body_contains_count(data: Seq<u8>, n: nat)
    ensures
        exists|i: int|
            0 <= i && i + dec_rep(n).len() <= spec_body(data, n).len() && #[trigger] spec_body(
                data,
                n,
            ).subrange(i, i + dec_rep(n).len() as int) == dec_rep(n),
{
    let prefix = if is_get_request(data) {
        "invoked from browser: got "@
    } else {
        "direct access: got "@
    };
    let i = prefix.len() as int;
    assert(spec_body(data, n).subrange(i, i + dec_rep(n).len() as int) =~= dec_rep(n));
}

/// Building a response is a pure function of the buffer and the count: any
/// two results that meet the builder's contract on the same input are equal.
pub proof fn lemma_build_deterministic(data: Seq<u8>, n: nat, r1: Seq<char>, r2: Seq<char>)
    requires
        r1 == spec_response(data, n),
        r2 == spec_response(data, n),
    ensures
        r1 == r2,
{
}

} // verus!
