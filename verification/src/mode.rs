//! Startup mode selection.
//!
//! On startup the process reads one line from the operator.  After the
//! line is trimmed of surrounding blanks, `1` selects server mode and
//! `2` selects client mode; anything else is an invalid selection, on
//! which the process reports and exits without binding a listener or
//! starting the client loop.

use vstd::prelude::*;

verus! {

/// The mode the process runs in, resolved once at startup.
#[derive(Clone, Copy, Debug, PartialEq, Eq, Structural)]
pub enum StartupMode {
    Server,
    Client,
    Invalid,
}

/// A byte the trim removes: space, tab, carriage return or line feed,
/// the blanks a console line can carry around the selection.
pub open spec fn is_blank(b: u8) -> bool {
    b == 32 || b == 9 || b == 13 || b == 10
}

/// The input with its leading blanks removed.
pub open spec fn trim_start_spec(s: Seq<u8>) -> Seq<u8>
    decreases s.len(),
{
    if s.len() > 0 && is_blank(s[0]) {
        trim_start_spec(s.drop_first())
    } else {
        s
    }
}

/// The input with its trailing blanks removed.
pub open spec fn trim_end_spec(s: Seq<u8>) -> Seq<u8>
    decreases s.len(),
{
    if s.len() > 0 && is_blank(s[s.len() - 1]) {
        trim_end_spec(s.drop_last())
    } else {
        s
    }
}

/// The input with both leading and trailing blanks removed.
pub open spec fn trim_spec(s: Seq<u8>) -> Seq<u8> {
    trim_end_spec(trim_start_spec(s))
}

/// The mode an operator line selects: the trimmed line `1` starts the
/// server, the trimmed line `2` starts the client, and any other line
/// is an invalid selection.
pub open spec fn mode_of(line: Seq<u8>) -> StartupMode {
    if trim_spec(line) == seq![49u8] {
        StartupMode::Server
    } else if trim_spec(line) == seq![50u8] {
        StartupMode::Client
    } else {
        StartupMode::Invalid
    }
}

proof fn lemma_trim_start(s: Seq<u8>, lo: int)
    requires
        0 <= lo <= s.len(),
        forall|j: int| 0 <= j < lo ==> is_blank(s[j]),
        lo < s.len() ==> !is_blank(s[lo]),
    ensures
        trim_start_spec(s) == s.subrange(lo, s.len() as int),
    decreases lo,
{
    if lo == 0 {
        assert(s.subrange(0, s.len() as int) =~= s);
    } else {
        let t = s.drop_first();
        lemma_trim_start(t, lo - 1);
        assert(t.subrange(lo - 1, t.len() as int) =~= s.subrange(lo, s.len() as int));
    }
}

proof fn lemma_trim_end(s: Seq<u8>, hi: int)
    requires
        0 <= hi <= s.len(),
        forall|j: int| hi <= j < s.len() ==> is_blank(s[j]),
        hi > 0 ==> !is_blank(s[hi - 1]),
    ensures
        trim_end_spec(s) == s.subrange(0, hi),
    decreases s.len() - hi,
{
    if hi == s.len() {
        assert(s.subrange(0, s.len() as int) =~= s);
    } else {
        let t = s.drop_last();
        lemma_trim_end(t, hi);
        assert(t.subrange(0, hi) =~= s.subrange(0, hi));
    }
}

fn blank(b: u8) -> (r: bool)
    ensures
        r == is_blank(b),
{
    b == 32 || b == 9 || b == 13 || b == 10
}

/// The operator line with surrounding blanks removed, as the selection
/// match reads it.
pub fn trim_bytes(s: &[u8]) -> (r: Vec<u8>)
    ensures
        r@ == trim_spec(s@),
{
    let n = s.len();
    let mut lo: usize = 0;
    while lo < n && blank(s[lo])
        invariant
            0 <= lo <= n,
            n == s@.len(),
            forall|j: int| 0 <= j < lo ==> is_blank(s@[j]),
        decreases n - lo,
    {
        lo = lo + 1;
    }
    let mut hi: usize = n;
    while hi > lo && blank(s[hi - 1])
        invariant
            lo <= hi <= n,
            n == s@.len(),
            forall|j: int| hi <= j < n ==> is_blank(s@[j]),
        decreases hi,
    {
        hi = hi - 1;
    }
    let mut r: Vec<u8> = Vec::new();
    let mut i: usize = lo;
    while i < hi
        invariant
            lo <= i <= hi <= n,
            n == s@.len(),
            r@ == s@.subrange(lo as int, i as int),
        decreases hi - i,
    {
        r.push(s[i]);
        proof {
            assert(r@ =~= s@.subrange(lo as int, i + 1));
        }
        i = i + 1;
    }
    proof {
        lemma_trim_start(s@, lo as int);
        let t = trim_start_spec(s@);
        lemma_trim_end(t, hi - lo);
        assert(t.subrange(0, hi - lo) =~= s@.subrange(lo as int, hi as int));
    }
    r
}

/// The startup decision on an operator line: exactly the trimmed line
/// `1` starts the server, exactly the trimmed line `2` starts the
/// client, and every other line is invalid and starts nothing.
pub fn select_mode(line: &[u8]) -> (m: StartupMode)
    ensures
        m == mode_of(line@),
{
    let t = trim_bytes(line);
    if t.len() == 1 && t[0] == 49 {
        proof {
            assert(t@ =~= seq![49u8]);
        }
        StartupMode::Server
    } else if t.len() == 1 && t[0] == 50 {
        proof {
            assert(t@ =~= seq![50u8]);
        }
        StartupMode::Client
    } else {
        StartupMode::Invalid
    }
}

/// The message reported when the operator's selection is neither mode.
pub fn invalid_selection_message() -> (r: &'static str)
    ensures
        r@ == "Invalid selection. Please enter 1 for Server or 2 for Client."@,
{
    "Invalid selection. Please enter 1 for Server or 2 for Client."
}

} // verus!
