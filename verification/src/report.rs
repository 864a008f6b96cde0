//! Result reporting: decimal rendering of byte counts and port numbers, and
//! the human-readable status messages a transfer session ends with.

use vstd::prelude::*;
use vstd::string::StrSliceExecFns;
use vstd::string::StringExecFns;

verus! {

/// The character for a single decimal digit value.
pub open spec fn dec_digit(d: int) -> char {
    if d == 0 {
        '0'
    } else if d == 1 {
        '1'
    } else if d == 2 {
        '2'
    } else if d == 3 {
        '3'
    } else if d == 4 {
        '4'
    } else if d == 5 {
        '5'
    } else if d == 6 {
        '6'
    } else if d == 7 {
        '7'
    } else if d == 8 {
        '8'
    } else {
        '9'
    }
}

/// The usual decimal rendering of a non-negative integer: no sign, no
/// leading zeros except for the number zero itself.
pub open spec fn dec_rep(n: int) -> Seq<char>
    decreases n,
{
    if n < 0 {
        Seq::empty()
    } else if n < 10 {
        seq![dec_digit(n)]
    } else {
        dec_rep(n / 10).push(dec_digit(n % 10))
    }
}

/// Renders `n` in decimal.
pub fn u64_to_decimal(n: u64) -> (r: String)
    ensures
        r@ == dec_rep(n as int),
    decreases n,
{
    let digits = "0123456789";
    proof {
        reveal_strlit("0123456789");
    }
    let d = (n % 10) as usize;
    let last = digits.substring_ascii(d, d + 1);
    proof {
        assert(last@ =~= seq![dec_digit(n as int % 10)]);
    }
    if n < 10 {
        let r = last.to_owned();
        proof {
            assert(r@ =~= dec_rep(n as int));
        }
        r
    } else {
        let mut r = u64_to_decimal(n / 10);
        r.append(last);
        proof {
            assert(r@ =~= dec_rep(n as int));
        }
        r
    }
}

/// Text of the send-side bind failure.
pub open spec fn bind_error_text(detail: Seq<char>) -> Seq<char> {
    "Bind Error: "@ + detail
}

/// Text of the receive-side bind failure on the local data port.
pub open spec fn local_bind_error_text(detail: Seq<char>) -> Seq<char> {
    "Local Bind Error: "@ + detail
}

/// Text of a failure while waiting for the peer to connect.
pub open spec fn accept_error_text(detail: Seq<char>) -> Seq<char> {
    "Accept Error: "@ + detail
}

/// Text of the send-side failure to dial the peer back on the data port.
pub open spec fn connect_back_error_text(detail: Seq<char>) -> Seq<char> {
    "Failed to connect back to PC: "@ + detail
}

/// Text of the receive-side failure to reach the peer with the trigger
/// notification.
pub open spec fn notify_error_text() -> Seq<char> {
    "Could not notify remote device"@
}

/// Text of a completed send session.
pub open spec fn send_success_text() -> Seq<char> {
    "File Sent Successfully"@
}

/// Text of a send session whose pump aborted mid-stream.
pub open spec fn send_incomplete_text() -> Seq<char> {
    "File Send Incomplete"@
}

/// Text of a completed receive session.
pub open spec fn receive_success_text() -> Seq<char> {
    "Transfer Successful"@
}

/// Text of a receive session whose pump aborted mid-stream.
pub open spec fn receive_incomplete_text() -> Seq<char> {
    "Transfer Incomplete"@
}

/// Text of the file-information summary: name and size in bytes.
pub open spec fn file_info_text(name: Seq<char>, size: int) -> Seq<char> {
    "Success!\nFile Name: "@ + name + "\nSize: "@ + dec_rep(size) + " bytes"@
}

/// Text of a failure to read a file's metadata.
pub open spec fn metadata_error_text(detail: Seq<char>) -> Seq<char> {
    "Rust FD Error: "@ + detail
}

/// Builds the send-side bind failure message.
pub fn bind_error_message(detail: &str) -> (r: String)
    ensures
        r@ == bind_error_text(detail@),
{
    let mut s = "Bind Error: ".to_owned();
    s.append(detail);
    s
}

/// Builds the receive-side bind failure message.
pub fn local_bind_error_message(detail: &str) -> (r: String)
    ensures
        r@ == local_bind_error_text(detail@),
{
    let mut s = "Local Bind Error: ".to_owned();
    s.append(detail);
    s
}

/// Builds the accept failure message.
pub fn accept_error_message(detail: &str) -> (r: String)
    ensures
        r@ == accept_error_text(detail@),
{
    let mut s = "Accept Error: ".to_owned();
    s.append(detail);
    s
}

/// Builds the dial-back failure message.
pub fn connect_back_error_message(detail: &str) -> (r: String)
    ensures
        r@ == connect_back_error_text(detail@),
{
    let mut s = "Failed to connect back to PC: ".to_owned();
    s.append(detail);
    s
}

/// Builds the notify failure message.
pub fn notify_error_message() -> (r: String)
    ensures
        r@ == notify_error_text(),
{
    "Could not notify remote device".to_owned()
}

/// Builds the send success message.
pub fn send_success_message() -> (r: String)
    ensures
        r@ == send_success_text(),
{
    "File Sent Successfully".to_owned()
}

/// Builds the send incomplete message.
pub fn send_incomplete_message() -> (r: String)
    ensures
        r@ == send_incomplete_text(),
{
    "File Send Incomplete".to_owned()
}

/// Builds the receive success message.
pub fn receive_success_message() -> (r: String)
    ensures
        r@ == receive_success_text(),
{
    "Transfer Successful".to_owned()
}

/// Builds the receive incomplete message.
pub fn receive_incomplete_message() -> (r: String)
    ensures
        r@ == receive_incomplete_text(),
{
    "Transfer Incomplete".to_owned()
}

/// Builds the file-information summary for a file of the given name and
/// size.
pub fn file_info_message(name: &str, size: u64) -> (r: String)
    ensures
        r@ == file_info_text(name@, size as int),
{
    let mut s = "Success!\nFile Name: ".to_owned();
    s.append(name);
    s.append("\nSize: ");
    let num = u64_to_decimal(size);
    s.append(num.as_str());
    s.append(" bytes");
    proof {
        assert(s@ =~= file_info_text(name@, size as int));
    }
    s
}

/// Builds the metadata failure message.
pub fn metadata_error_message(detail: &str) -> (r: String)
    ensures
        r@ == metadata_error_text(detail@),
{
    let mut s = "Rust FD Error: ".to_owned();
    s.append(detail);
    s
}

} // verus!
