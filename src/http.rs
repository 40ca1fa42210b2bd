//! Writing an HTTP response head by hand.
use crate::text::push_str;
use vstd::prelude::*;

verus! {

/// The header lines `name: value\r\n` of `headers`, in order.
pub open spec fn header_lines(headers: Seq<(String, String)>) -> Seq<char>
    decreases headers.len(),
{
    if headers.len() == 0 {
        Seq::empty()
    } else {
        header_lines(headers.drop_last()) + headers.last().0@ + ": "@ + headers.last().1@ + "\r\n"@
    }
}

/// The head of an HTTP response: the status line, the header lines and the blank
/// line, each ended by CRLF. `version` is written as `HTTP/1.1`, `status` as
/// `406 Not Acceptable`.
pub fn write_response(version: &str, status: &str, headers: &Vec<(String, String)>) -> (r: String)
    ensures
        r@ == version@ + " "@ + status@ + "\r\n"@ + header_lines(headers@) + "\r\n"@,
{
    let mut out = String::new();
    push_str(&mut out, version);
    push_str(&mut out, " ");
    push_str(&mut out, status);
    push_str(&mut out, "\r\n");
    let ghost head = out@;
    let mut i: usize = 0;
    while i < headers.len()
        invariant
            i <= headers@.len(),
            out@ == head + header_lines(headers@.take(i as int)),
        decreases headers@.len() - i,
    {
        let ghost before = out@;
        push_str(&mut out, headers[i].0.as_str());
        push_str(&mut out, ": ");
        push_str(&mut out, headers[i].1.as_str());
        push_str(&mut out, "\r\n");
        assert(headers@.take(i + 1).drop_last() =~= headers@.take(i as int));
        assert(out@ =~= head + header_lines(headers@.take(i + 1)));
        i = i + 1;
    }
    assert(headers@.take(headers@.len() as int) =~= headers@);
    push_str(&mut out, "\r\n");
    out
}

} // verus!
