//! Monitors as the remote service reports them, and the listing that
//! prints them sorted by name.
use vstd::prelude::*;
use vstd::seq_lib::*;
use vstd::multiset::Multiset;
use crate::error::CliError;
use crate::text::{lex_le, lemma_lex_le_total, lemma_lex_le_trans, str_le, copy_str};

verus! {

/// A monitor as fetched from the remote service: opaque identity,
/// name, and a free-form status string. Never created or changed here.
pub struct Monitor {
    pub id: String,
    pub name: String,
    pub status: String,
}

/// The per-invocation context of the `monitors` command: the resolved
/// organization slug.
pub struct MonitorContext {
    pub org: String,
}

impl MonitorContext {
    /// The organization this invocation addresses.
    pub fn get_org(&self) -> (r: Result<&str, CliError>)
        ensures
            r matches Ok(o) && o@ == self.org@,
    {
        Ok(self.org.as_str())
    }
}

pub open spec fn monitor_le(a: Monitor, b: Monitor) -> bool {
    lex_le(a.name@, b.name@)
}

/// Sorted by name, ascending.
pub open spec fn sorted_by_name(s: Seq<Monitor>) -> bool {
    forall|i: int, j: int| 0 <= i < j < s.len() ==> monitor_le(#[trigger] s[i], #[trigger] s[j])
}

/// Inserting an element into a sequence adds it to the sequence's
/// multiset of elements.
proof fn lemma_to_multiset_insert(s: Seq<Monitor>, k: int, x: Monitor)
    requires
        0 <= k <= s.len(),
    ensures
        s.insert(k, x).to_multiset() == s.to_multiset().insert(x),
{
    let t = s.insert(k, x);
    t.to_multiset_ensures();
    assert(t.remove(k) =~= s);
    assert(t[k] == x);
    assert(s.to_multiset() =~= t.to_multiset().remove(x));
    assert(t.contains(x));
    assert(t.to_multiset().count(x) > 0);
    assert(t.to_multiset() =~= s.to_multiset().insert(x));
}

/// Sort monitors by name, ascending: the result holds exactly the
/// given monitors, ordered lexicographically by name.
pub fn sort_monitors_by_name(monitors: Vec<Monitor>) -> (r: Vec<Monitor>)
    ensures
        sorted_by_name(r@),
        r@.to_multiset() == monitors@.to_multiset(),
{
    let mut rest = monitors;
    let mut r: Vec<Monitor> = Vec::new();
    proof {
        r@.to_multiset_ensures();
        assert(r@.to_multiset() =~= Multiset::<Monitor>::empty());
        assert(r@.to_multiset().add(rest@.to_multiset()) =~= monitors@.to_multiset());
    }
    while rest.len() > 0
        invariant
            sorted_by_name(r@),
            r@.to_multiset().add(rest@.to_multiset()) == monitors@.to_multiset(),
        decreases rest.len(),
    {
        proof {
            rest@.to_multiset_ensures();
            assert(rest@.drop_last().push(rest@.last()) =~= rest@);
            rest@.drop_last().to_multiset_ensures();
        }
        let x = rest.pop().unwrap();
        let mut k: usize = 0;
        while k < r.len() && str_le(r[k].name.as_str(), x.name.as_str())
            invariant
                k <= r@.len(),
                forall|i: int| 0 <= i < k ==> monitor_le(#[trigger] r@[i], x),
            decreases r@.len() - k,
        {
            k = k + 1;
        }
        proof {
            if k < r@.len() {
                lemma_lex_le_total(r@[k as int].name@, x.name@);
            }
            assert forall|j: int| k <= j < r@.len() implies monitor_le(x, #[trigger] r@[j]) by {
                if j > k {
                    lemma_lex_le_trans(x.name@, r@[k as int].name@, r@[j].name@);
                }
            }
            lemma_to_multiset_insert(r@, k as int, x);
        }
        let ghost old_r = r@;
        r.insert(k, x);
        proof {
            assert forall|i: int, j: int|
                0 <= i < j < r@.len() implies monitor_le(#[trigger] r@[i], #[trigger] r@[j]) by {
                if j < k {
                    assert(r@[i] == old_r[i] && r@[j] == old_r[j]);
                } else if i > k {
                    assert(r@[i] == old_r[i - 1] && r@[j] == old_r[j - 1]);
                } else if i < k && j == k {
                    assert(r@[i] == old_r[i] && r@[j] == x);
                } else if i == k && j > k {
                    assert(r@[i] == x && r@[j] == old_r[j - 1]);
                } else if i < k && j > k {
                    assert(r@[i] == old_r[i] && r@[j] == old_r[j - 1]);
                    lemma_lex_le_trans(old_r[i].name@, x.name@, old_r[j - 1].name@);
                }
            }
        }
    }
    proof {
        rest@.to_multiset_ensures();
        assert(rest@.to_multiset() =~= Multiset::<Monitor>::empty());
        assert(r@.to_multiset().add(rest@.to_multiset()) =~= r@.to_multiset());
    }
    r
}

/// The printed row of one monitor: its ID, name and status, in the
/// column order of the listing.
pub fn monitor_row(m: &Monitor) -> (r: Vec<String>)
    ensures
        r@.len() == 3,
        r@[0]@ == m.id@,
        r@[1]@ == m.name@,
        r@[2]@ == m.status@,
{
    let mut r: Vec<String> = Vec::new();
    r.push(copy_str(m.id.as_str()));
    r.push(copy_str(m.name.as_str()));
    r.push(copy_str(m.status.as_str()));
    r
}

} // verus!
