//! Readiness of an isle: the guest's service writes a fixed token to the
//! isle's log once it listens for connections.
use vstd::prelude::*;

verus! {

/// The log line text that marks the guest's service as ready.
pub const READY_TOKEN: &'static str = "TCP server is listening.";

/// The bytes of [`READY_TOKEN`].
pub open spec fn ready_token() -> Seq<u8> {
    READY_TOKEN@.map_values(|c: char| c as u8)
}

/// Whether `needle` stands in `hay` starting at position `i`.
pub open spec fn occurs_at(hay: Seq<u8>, needle: Seq<u8>, i: int) -> bool {
    &&& 0 <= i
    &&& i + needle.len() <= hay.len()
    &&& hay.subrange(i, i + needle.len()) == needle
}

/// Whether `needle` stands anywhere in `hay`.
pub open spec fn contains(hay: Seq<u8>, needle: Seq<u8>) -> bool {
    exists|i: int| occurs_at(hay, needle, i)
}

/// Whether a log holds the readiness token.
pub open spec fn log_is_ready(log: Seq<u8>) -> bool {
    contains(log, ready_token())
}

/// The token holds no line break, so each of its occurrences in a log lies
/// within one line: a log holds the token exactly when one of its lines does.
pub proof fn lemma_token_within_line(log: Seq<u8>, i: int)
    requires
        occurs_at(log, ready_token(), i),
    ensures
        forall|j: int| i <= j < i + ready_token().len() ==> log[j] != 10u8 && log[j] != 13u8,
{
    reveal_strlit("TCP server is listening.");
    assert forall|j: int| i <= j < i + ready_token().len() implies log[j] != 10u8 && log[j]
        != 13u8 by {
        assert(log[j] == log.subrange(i, i + ready_token().len())[j - i]);
    }
}

fn matches_at(hay: &[u8], needle: &[u8], i: usize) -> (r: bool)
    requires
        i + needle@.len() <= hay@.len(),
    ensures
        r == occurs_at(hay@, needle@, i as int),
{
    let n = hay.len();
    let mut j: usize = 0;
    while j < needle.len()
        invariant
            n == hay@.len(),
            i + needle@.len() <= hay@.len(),
            j <= needle@.len(),
            forall|k: int| 0 <= k < j ==> hay@[i + k] == needle@[k],
        decreases needle@.len() - j,
    {
        if hay[i + j] != needle[j] {
            assert(hay@.subrange(i as int, i + needle@.len())[j as int] != needle@[j as int]);
            return false;
        }
        j = j + 1;
    }
    assert(hay@.subrange(i as int, i + needle@.len()) =~= needle@);
    true
}

/// Whether `needle` stands anywhere in `hay`.
pub fn find(hay: &[u8], needle: &[u8]) -> (r: bool)
    ensures
        r == contains(hay@, needle@),
{
    if needle.len() == 0 {
        assert(hay@.subrange(0, 0) =~= needle@);
        assert(occurs_at(hay@, needle@, 0));
        return true;
    }
    if needle.len() > hay.len() {
        return false;
    }
    let starts = hay.len() - needle.len() + 1;
    let mut i: usize = 0;
    while i < starts
        invariant
            starts + needle@.len() == hay@.len() + 1,
            forall|k: int| 0 <= k < i ==> !occurs_at(hay@, needle@, k),
        decreases starts - i,
    {
        if matches_at(hay, needle, i) {
            return true;
        }
        i = i + 1;
    }
    false
}

/// The bytes of [`READY_TOKEN`].
pub fn ready_token_bytes() -> (r: &'static [u8])
    ensures
        r@ == ready_token(),
{
    broadcast use vstd::string::is_ascii_spec_bytes;
    proof {
        reveal_strlit("TCP server is listening.");
    }
    assert(vstd::string::is_ascii(READY_TOKEN));
    let b = READY_TOKEN.as_bytes();
    assert(b@ =~= ready_token());
    b
}

/// Whether a log's current content holds the readiness token on some line.
pub fn scan_log(log: &[u8]) -> (r: bool)
    ensures
        r == log_is_ready(log@),
{
    find(log, ready_token_bytes())
}

} // verus!
