//! Reading a compiler or linker diagnostic out of the buffer it was written to.

use vstd::prelude::*;

verus! {

/// Size of the buffer that a compiler or linker diagnostic is read into,
/// terminating NUL included.
pub const INFO_LOG_CAPACITY: usize = 1024;

/// A compile or link status of `GL_FALSE` reports failure; any other value success.
pub const STATUS_FAILED: i32 = 0;

/// Whether a compile or link status reports success.
pub open spec fn status_ok(status: i32) -> bool {
    status != STATUS_FAILED
}

/// Whether `n` is where the text of a raw log ends: before the first NUL,
/// at the end of the bytes, or at the capacity left beside the terminator.
pub open spec fn is_log_end(raw: Seq<u8>, n: int) -> bool {
    &&& 0 <= n <= raw.len()
    &&& n <= INFO_LOG_CAPACITY - 1
    &&& forall|j: int| 0 <= j < n ==> raw[j] != 0
    &&& (n == raw.len() || n == INFO_LOG_CAPACITY - 1 || raw[n] == 0)
}

/// Length of the text held in a raw log.
pub open spec fn log_end(raw: Seq<u8>) -> int {
    choose|n: int| is_log_end(raw, n)
}

/// The text of a raw log as the library reports it.
pub open spec fn diagnostic(raw: Seq<u8>) -> Seq<char> {
    lossy_text(raw.take(log_end(raw)))
}

/// Text that `String::from_utf8_lossy` makes of the given bytes.
pub uninterp spec fn lossy_text(b: Seq<u8>) -> Seq<char>;

/// Relies on `String::from_utf8_lossy`: the bytes decoded as UTF-8, each
/// invalid sequence replaced by U+FFFD; the result depends on the bytes alone.
#[verifier::external_body]
fn decode_lossy(b: &Vec<u8>) -> (r: String)
    ensures
        r@ == lossy_text(b@),
{
    String::from_utf8_lossy(b.as_slice()).into_owned()
}

/// Only one position can end the text of a raw log.
pub proof fn lemma_log_end_unique(raw: Seq<u8>, n: int, m: int)
    requires
        is_log_end(raw, n),
        is_log_end(raw, m),
    ensures
        n == m,
{
    if n < m {
        assert(raw[n] != 0);
    } else if m < n {
        assert(raw[m] != 0);
    }
}

/// Every raw log has a text end, which `log_end` names.
pub proof fn lemma_log_end(raw: Seq<u8>, n: int)
    requires
        is_log_end(raw, n),
    ensures
        log_end(raw) == n,
{
    lemma_log_end_unique(raw, n, log_end(raw));
}

/// Turns the bytes that a compiler or linker wrote into a diagnostic: the text
/// before the first NUL, bounded by the log buffer, decoded as UTF-8.
pub fn info_log_text(raw: &Vec<u8>) -> (r: String)
    ensures
        r@ == diagnostic(raw@),
{
    let mut text: Vec<u8> = Vec::new();
    let mut i: usize = 0;
    while i < raw.len() && i < INFO_LOG_CAPACITY - 1 && raw[i] != 0
        invariant
            i <= raw@.len(),
            i <= INFO_LOG_CAPACITY - 1,
            forall|j: int| 0 <= j < i ==> raw@[j] != 0,
            text@ == raw@.take(i as int),
        decreases raw@.len() - i,
    {
        text.push(raw[i]);
        i = i + 1;
        assert(text@ =~= raw@.take(i as int));
    }
    proof {
        lemma_log_end(raw@, i as int);
    }
    decode_lossy(&text)
}

} // verus!
