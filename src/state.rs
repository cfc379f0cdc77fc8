//! The vault's own persisted state: its configuration and the registry that
//! links each native denomination to the issuer of its receipt token.
use vstd::prelude::*;
use crate::lexorder::{compare_str, lemma_lex_irreflexive, lemma_lex_transitive, lex_lt};

verus! {

/// The vault's configuration.
#[derive(Clone, Debug)]
pub struct Config {
    /// The address of the admin that can register vaults.
    pub admin: String,
}

/// Registry entries as plain sequences: denomination, then issuer address.
pub open spec fn entries_view(v: Seq<(String, String)>) -> Seq<(Seq<char>, Seq<char>)> {
    v.map_values(|e: (String, String)| (e.0@, e.1@))
}

/// Denominations strictly ascend, so each appears at most once.
pub open spec fn sorted_keys(e: Seq<(Seq<char>, Seq<char>)>) -> bool {
    forall|i: int, j: int| 0 <= i < j < e.len() ==> lex_lt(#[trigger] e[i].0, #[trigger] e[j].0)
}

/// Whether `d` has an entry.
pub open spec fn has_key(e: Seq<(Seq<char>, Seq<char>)>, d: Seq<char>) -> bool {
    exists|i: int| 0 <= i < e.len() && #[trigger] e[i].0 == d
}

/// The issuer registered for `d`, if any.
pub open spec fn lookup(e: Seq<(Seq<char>, Seq<char>)>, d: Seq<char>) -> Option<Seq<char>> {
    if has_key(e, d) {
        Some(e[choose|i: int| 0 <= i < e.len() && #[trigger] e[i].0 == d].1)
    } else {
        None
    }
}

/// In a sorted registry the entry at `i` is what `lookup` finds for its key.
pub proof fn lemma_lookup_at(e: Seq<(Seq<char>, Seq<char>)>, i: int)
    requires
        sorted_keys(e),
        0 <= i < e.len(),
    ensures
        lookup(e, e[i].0) == Some(e[i].1),
{
    let d = e[i].0;
    assert(has_key(e, d));
    let j = choose|j: int| 0 <= j < e.len() && #[trigger] e[j].0 == d;
    lemma_lex_irreflexive(d);
    if j < i {
        assert(lex_lt(e[j].0, e[i].0));
    } else if i < j {
        assert(lex_lt(e[i].0, e[j].0));
    }
    assert(j == i);
    assert(lookup(e, d) == Some(e[j].1));
}

/// The registry of vaults, kept in ascending order of denomination.
pub struct Registry {
    entries: Vec<(String, String)>,
}

impl Registry {
    /// The entries, in order.
    pub closed spec fn view_entries(&self) -> Seq<(Seq<char>, Seq<char>)> {
        entries_view(self.entries@)
    }

    /// The registry as a map from denomination to issuer.
    pub open spec fn issuer_of(&self, d: Seq<char>) -> Option<Seq<char>> {
        lookup(self.view_entries(), d)
    }

    /// The denominations, in ascending order.
    pub open spec fn denoms(&self) -> Seq<Seq<char>> {
        self.view_entries().map_values(|e: (Seq<char>, Seq<char>)| e.0)
    }

    pub open spec fn wf(&self) -> bool {
        sorted_keys(self.view_entries())
    }

    /// An empty registry.
    pub fn new() -> (r: Registry)
        ensures
            r.wf(),
            r.denoms().len() == 0,
            forall|d: Seq<char>| r.issuer_of(d) is None,
    {
        let r = Registry { entries: Vec::new() };
        proof {
            assert(r.view_entries().len() == 0);
        }
        r
    }

    /// The issuer registered for `denom`.
    pub fn get(&self, denom: &str) -> (r: Option<String>)
        requires
            self.wf(),
        ensures
            match r {
                Some(a) => self.issuer_of(denom@) == Some(a@),
                None => self.issuer_of(denom@) is None,
            },
    {
        let n = self.entries.len();
        let mut i: usize = 0;
        while i < n
            invariant
                n == self.entries@.len(),
                i <= n,
                self.wf(),
                forall|j: int| 0 <= j < i ==> (#[trigger] self.view_entries()[j]).0 != denom@,
            decreases n - i,
        {
            if compare_str(self.entries[i].0.as_str(), denom) == 0 {
                proof {
                    lemma_lookup_at(self.view_entries(), i as int);
                }
                return Some(self.entries[i].1.clone());
            }
            i = i + 1;
        }
        None
    }

    /// Links `denom` to `issuer`, replacing an earlier link of `denom`.
    pub fn insert(&mut self, denom: String, issuer: String)
        requires
            old(self).wf(),
        ensures
            final(self).wf(),
            final(self).issuer_of(denom@) == Some(issuer@),
            forall|d: Seq<char>| d != denom@ ==> final(self).issuer_of(d) == old(self).issuer_of(d),
    {
        let ghost pre = self.view_entries();
        let n = self.entries.len();
        let mut i: usize = 0;
        let mut found: bool = false;
        let mut past: bool = false;
        while i < n && !found && !past
            invariant
                n == self.entries@.len(),
                pre == self.view_entries(),
                i <= n,
                sorted_keys(pre),
                !(found && past),
                found ==> i < n && pre[i as int].0 == denom@,
                past ==> i < n && lex_lt(denom@, pre[i as int].0),
                forall|j: int| 0 <= j < i ==> lex_lt(#[trigger] pre[j].0, denom@),
            decreases n - i + (if found || past { 0int } else { 1int }),
        {
            let c = compare_str(self.entries[i].0.as_str(), denom.as_str());
            if c == 0 {
                found = true;
            } else if c > 0 {
                past = true;
            } else {
                i = i + 1;
            }
        }
        if found {
            self.entries.remove(i);
            self.entries.insert(i, (denom, issuer));
            proof {
                let post = self.view_entries();
                assert(post =~= pre.update(i as int, (denom@, issuer@)));
                assert(sorted_keys(post));
                lemma_lookup_at(post, i as int);
                assert forall|d: Seq<char>| d != denom@ implies lookup(post, d) == lookup(pre, d) by {
                    if has_key(pre, d) {
                        let k = choose|k: int| 0 <= k < pre.len() && #[trigger] pre[k].0 == d;
                        lemma_lookup_at(pre, k);
                        lemma_lookup_at(post, k);
                    } else if has_key(post, d) {
                        let k = choose|k: int| 0 <= k < post.len() && #[trigger] post[k].0 == d;
                        assert(pre[k].0 == d);
                    }
                }
            }
        } else {
            self.entries.insert(i, (denom, issuer));
            proof {
                let post = self.view_entries();
                assert(post =~= pre.insert(i as int, (denom@, issuer@)));
                assert forall|a: int, b: int| 0 <= a < b < post.len() implies lex_lt(
                    #[trigger] post[a].0,
                    #[trigger] post[b].0,
                ) by {
                    if b == i {
                    } else if a == i {
                        if b > i + 1 {
                            lemma_lex_transitive(denom@, pre[i as int].0, pre[b - 1].0);
                        }
                    } else if a > i {
                        assert(post[a] == pre[a - 1] && post[b] == pre[b - 1]);
                    } else if b > i {
                        assert(post[b] == pre[b - 1]);
                        if i < n {
                            lemma_lex_transitive(pre[a].0, denom@, pre[i as int].0);
                            if b - 1 > i {
                                lemma_lex_transitive(pre[a].0, pre[i as int].0, pre[b - 1].0);
                            }
                        }
                    }
                }
                lemma_lookup_at(post, i as int);
                assert forall|d: Seq<char>| d != denom@ implies lookup(post, d) == lookup(pre, d) by {
                    if has_key(pre, d) {
                        let k = choose|k: int| 0 <= k < pre.len() && #[trigger] pre[k].0 == d;
                        lemma_lookup_at(pre, k);
                        if k < i {
                            assert(post[k] == pre[k]);
                            lemma_lookup_at(post, k);
                        } else {
                            assert(post[k + 1] == pre[k]);
                            lemma_lookup_at(post, k + 1);
                        }
                    } else if has_key(post, d) {
                        let k = choose|k: int| 0 <= k < post.len() && #[trigger] post[k].0 == d;
                        if k < i {
                            assert(pre[k].0 == d);
                        } else {
                            assert(pre[k - 1].0 == d);
                        }
                    }
                }
            }
        }
    }

    /// The registered denominations, in ascending order.
    pub fn keys(&self) -> (r: Vec<String>)
        requires
            self.wf(),
        ensures
            r@.len() == self.denoms().len(),
            forall|i: int| 0 <= i < r@.len() ==> #[trigger] r@[i]@ == self.denoms()[i],
    {
        let n = self.entries.len();
        let mut out: Vec<String> = Vec::new();
        let mut i: usize = 0;
        while i < n
            invariant
                n == self.entries@.len(),
                i <= n,
                out@.len() == i,
                forall|j: int| 0 <= j < i ==> #[trigger] out@[j]@ == self.denoms()[j],
            decreases n - i,
        {
            out.push(self.entries[i].0.clone());
            i = i + 1;
        }
        out
    }
}

/// A sorted registry lists its denominations in strictly ascending order,
/// and lists exactly the denominations that have an issuer.
pub proof fn law_denoms_listed(r: &Registry)
    requires
        r.wf(),
    ensures
        forall|i: int, j: int| 0 <= i < j < r.denoms().len() ==> lex_lt(#[trigger] r.denoms()[i], #[trigger] r.denoms()[j]),
        forall|d: Seq<char>| r.issuer_of(d) is Some <==> r.denoms().contains(d),
{
    let e = r.view_entries();
    assert forall|d: Seq<char>| r.issuer_of(d) is Some <==> r.denoms().contains(d) by {
        if r.denoms().contains(d) {
            let k = choose|k: int| 0 <= k < r.denoms().len() && r.denoms()[k] == d;
            assert(e[k].0 == d);
        }
        if r.issuer_of(d) is Some {
            let k = choose|k: int| 0 <= k < e.len() && #[trigger] e[k].0 == d;
            assert(r.denoms()[k] == d);
        }
    }
}

} // verus!
