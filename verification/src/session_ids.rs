//! Identifiers of streams, downloads and connect hosts.

use vstd::prelude::*;
use vstd::string::*;

use crate::text::{concat, decimal, decimal_text};
use crate::text::{law_decimal_digits, law_decimal_injective};

verus! {

/// Hands out the numbers that keep session identifiers apart.
#[derive(Debug)]
pub struct SessionCounter {
    next: u64,
}

impl View for SessionCounter {
    type V = u64;

    /// The number that the next identifier gets.
    closed spec fn view(&self) -> u64 {
        self.next
    }
}

impl SessionCounter {
    /// A counter whose first number is one.
    pub fn new() -> (counter: SessionCounter)
        ensures
            counter@ == 1,
    {
        SessionCounter { next: 1 }
    }
}

/// The number after `n`; after the largest number the count starts again at zero.
pub open spec fn following(n: u64) -> u64 {
    if n == u64::MAX {
        0
    } else {
        (n + 1) as u64
    }
}

/// The number that a counter at `n` has reached after `calls` identifiers.
pub open spec fn after_calls(n: u64, calls: nat) -> u64
    decreases calls,
{
    if calls == 0 {
        n
    } else {
        following(after_calls(n, (calls - 1) as nat))
    }
}

/// A prefix, a hyphen and a number.
pub open spec fn numbered(prefix: Seq<char>, n: nat) -> Seq<char> {
    prefix + "-"@ + decimal(n)
}

/// The identifier that consists of a prefix and a number.
pub open spec fn session_id_of(prefix: Seq<char>, n: u64) -> Seq<char> {
    numbered(prefix, n as nat)
}

/// The next identifier with the given prefix.
pub fn next_session_id(counter: &mut SessionCounter, prefix: &str) -> (id: String)
    ensures
        id@ == session_id_of(prefix@, old(counter)@),
        final(counter)@ == following(old(counter)@),
{
    let number: u64 = counter.next;
    counter.next = number.wrapping_add(1);
    concat(prefix, "-").concat(decimal_text(number as u128).as_str())
}

/// A numbered text determines its prefix and its number.
pub proof fn law_numbered_injective(p: Seq<char>, m: nat, q: Seq<char>, n: nat)
    requires
        numbered(p, m) == numbered(q, n),
    ensures
        p == q,
        m == n,
{
    let s = numbered(p, m);
    let dm = decimal(m);
    let dn = decimal(n);
    law_decimal_digits(m);
    law_decimal_digits(n);
    reveal_strlit("-");
    assert("-"@ =~= seq!['-']);
    assert(s[s.len() - dm.len() - 1] == '-');
    assert(numbered(q, n)[s.len() - dn.len() - 1] == '-');
    if dm.len() < dn.len() {
        assert(numbered(q, n)[s.len() - dm.len() - 1] == dn[dn.len() - dm.len() - 1]);
    } else if dn.len() < dm.len() {
        assert(s[s.len() - dn.len() - 1] == dm[dm.len() - dn.len() - 1]);
    }
    assert(dm.len() == dn.len());
    assert(p =~= s.take(s.len() - dm.len() - 1));
    assert(q =~= s.take(s.len() - dn.len() - 1));
    assert(dm =~= s.skip(s.len() - dm.len()));
    assert(dn =~= s.skip(s.len() - dn.len()));
    law_decimal_injective(m, n);
}

/// An identifier determines its prefix and its number.
pub proof fn law_session_id_injective(p: Seq<char>, m: u64, q: Seq<char>, n: u64)
    requires
        session_id_of(p, m) == session_id_of(q, n),
    ensures
        p == q,
        m == n,
{
    law_numbered_injective(p, m as nat, q, n as nat);
}

proof fn lemma_after_calls(n: u64, calls: nat)
    ensures
        after_calls(n, calls) == (n + calls) % 0x1_0000_0000_0000_0000,
    decreases calls,
{
    if calls > 0 {
        lemma_after_calls(n, (calls - 1) as nat);
    }
}

/// Two identifiers from one counter differ, whatever their prefixes, unless the counter has gone
/// round all its numbers in between.
pub proof fn law_session_ids_differ(n: u64, calls: nat, p: Seq<char>, q: Seq<char>)
    requires
        0 < calls < 0x1_0000_0000_0000_0000,
    ensures
        session_id_of(p, n) != session_id_of(q, after_calls(n, calls)),
{
    lemma_after_calls(n, calls);
    if session_id_of(p, n) == session_id_of(q, after_calls(n, calls)) {
        law_session_id_injective(p, n, q, after_calls(n, calls));
    }
}

/// An identifier is its prefix, a hyphen and its number in decimal; the counter goes up by one each
/// time, and starts again at zero when it is full.
pub proof fn law_session_id(prefix: Seq<char>, n: u64)
    ensures
        session_id_of(prefix, n) == prefix + "-"@ + decimal(n as nat),
        n < u64::MAX ==> following(n) == n + 1,
        following(u64::MAX) == 0,
{
}

} // verus!
