//! Saved server connection profiles.
use vstd::prelude::*;

verus! {

/// A single saved server connection profile.
#[derive(Debug, Clone)]
pub struct ConnectionProfile {
    /// Unique identifier (UUID v4).
    pub id: String,
    /// Human-readable label (e.g., "Galaxy S25 - Home").
    pub name: String,
    /// Server address (e.g., "192.168.1.42:9050").
    pub address: String,
    /// Persistent API key obtained from pairing.
    pub api_key: Option<String>,
    /// When this profile was last connected to, in milliseconds since the
    /// Unix epoch (UTC).
    pub last_used: Option<i64>,
}

/// A profile as mathematical values.
pub struct ProfileView {
    pub id: Seq<char>,
    pub name: Seq<char>,
    pub address: Seq<char>,
    pub api_key: Option<Seq<char>>,
    pub last_used: Option<i64>,
}

impl View for ConnectionProfile {
    type V = ProfileView;

    open spec fn view(&self) -> ProfileView {
        ProfileView {
            id: self.id@,
            name: self.name@,
            address: self.address@,
            api_key: match self.api_key {
                Some(k) => Some(k@),
                None => None,
            },
            last_used: self.last_used,
        }
    }
}

impl ConnectionProfile {
    /// Create a new profile with a generated ID.
    pub fn new(name: String, address: String) -> (p: Self)
        ensures
            p.name == name,
            p.address == address,
            p.api_key is None,
            p.last_used is None,
            crate::ids::is_uuid_v4_text(p.id@),
    {
        ConnectionProfile {
            id: crate::ids::new_uuid_v4(),
            name,
            address,
            api_key: None,
            last_used: None,
        }
    }
}

/// The first position from `k` on of a profile with this id, or -1.
pub open spec fn index_of_id_from(ps: Seq<ConnectionProfile>, id: Seq<char>, k: int) -> int
    decreases ps.len() - k,
{
    if k < 0 || k >= ps.len() {
        -1
    } else if ps[k].id@ == id {
        k
    } else {
        index_of_id_from(ps, id, k + 1)
    }
}

/// The first position of a profile with this id, or -1.
pub open spec fn index_of_id(ps: Seq<ConnectionProfile>, id: Seq<char>) -> int {
    index_of_id_from(ps, id, 0)
}

pub proof fn lemma_index_of_id_from(ps: Seq<ConnectionProfile>, id: Seq<char>, k: int)
    requires
        0 <= k <= ps.len(),
    ensures
        index_of_id_from(ps, id, k) == -1 || (k <= index_of_id_from(ps, id, k) < ps.len()
            && ps[index_of_id_from(ps, id, k)].id@ == id),
        index_of_id_from(ps, id, k) == -1 ==> forall|j: int| k <= j < ps.len() ==> ps[j].id@ != id,
        forall|j: int| k <= j < index_of_id_from(ps, id, k) ==> ps[j].id@ != id,
    decreases ps.len() - k,
{
    if k < ps.len() && ps[k].id@ != id {
        lemma_index_of_id_from(ps, id, k + 1);
    }
}

/// The profiles without those that have this id, in order.
pub open spec fn without_id(ps: Seq<ConnectionProfile>, id: Seq<char>) -> Seq<ConnectionProfile>
    decreases ps.len(),
{
    if ps.len() == 0 {
        seq![]
    } else if ps[0].id@ == id {
        without_id(ps.drop_first(), id)
    } else {
        seq![ps[0]] + without_id(ps.drop_first(), id)
    }
}

/// Persistent store for connection profiles.
#[derive(Debug, Clone)]
pub struct ConnectionProfileStore {
    /// Saved profiles.
    pub profiles: Vec<ConnectionProfile>,
    /// ID of the last-used profile.
    pub active_profile_id: Option<String>,
}

impl Default for ConnectionProfileStore {
    fn default() -> (s: Self)
        ensures
            s.profiles@.len() == 0,
            s.active_profile_id is None,
    {
        ConnectionProfileStore { profiles: Vec::new(), active_profile_id: None }
    }
}

fn find_index(ps: &Vec<ConnectionProfile>, id: &str) -> (r: Option<usize>)
    ensures
        match r {
            Some(i) => i as int == index_of_id(ps@, id@) && i < ps@.len(),
            None => index_of_id(ps@, id@) == -1,
        },
{
    let mut i: usize = 0;
    while i < ps.len()
        invariant
            i <= ps@.len(),
            index_of_id(ps@, id@) == index_of_id_from(ps@, id@, i as int),
        decreases ps@.len() - i,
    {
        if crate::text::str_eq(ps[i].id.as_str(), id) {
            return Some(i);
        }
        i = i + 1;
    }
    None
}

impl ConnectionProfileStore {
    /// Add or update a profile: the first profile with the same id is
    /// replaced, otherwise the profile is appended.
    pub fn upsert(&mut self, profile: ConnectionProfile)
        ensures
            index_of_id(old(self).profiles@, profile.id@) == -1 ==> final(self).profiles@
                == old(self).profiles@.push(profile),
            index_of_id(old(self).profiles@, profile.id@) != -1 ==> final(self).profiles@
                == old(self).profiles@.update(index_of_id(old(self).profiles@, profile.id@), profile),
            final(self).active_profile_id == old(self).active_profile_id,
    {
        match find_index(&self.profiles, profile.id.as_str()) {
            Some(i) => {
                proof {
                    lemma_index_of_id_from(self.profiles@, profile.id@, 0);
                }
                self.profiles.set(i, profile);
            },
            None => {
                self.profiles.push(profile);
            },
        }
    }

    /// Remove every profile with this id; forget it as the active profile.
    pub fn remove(&mut self, id: &str)
        ensures
            final(self).profiles@ == without_id(old(self).profiles@, id@),
            (old(self).active_profile_id matches Some(a) && a@ == id@)
                ==> final(self).active_profile_id is None,
            !(old(self).active_profile_id matches Some(a) && a@ == id@)
                ==> final(self).active_profile_id == old(self).active_profile_id,
    {
        let ghost orig = self.profiles@;
        let mut i: usize = 0;
        assert(orig.subrange(0, 0) + without_id(orig.subrange(0, orig.len() as int), id@)
            =~= without_id(orig, id@)) by {
            assert(orig.subrange(0, orig.len() as int) =~= orig);
        }
        while i < self.profiles.len()
            invariant
                i <= self.profiles@.len(),
                self.active_profile_id == old(self).active_profile_id,
                without_id(orig, id@) == self.profiles@.subrange(0, i as int) + without_id(
                    self.profiles@.subrange(i as int, self.profiles@.len() as int),
                    id@,
                ),
            decreases self.profiles@.len() - i,
        {
            let ghost before = self.profiles@;
            let ghost rest = before.subrange(i as int, before.len() as int);
            assert(rest.drop_first() =~= before.subrange(i + 1, before.len() as int));
            if crate::text::str_eq(self.profiles[i].id.as_str(), id) {
                self.profiles.remove(i);
                assert(self.profiles@.subrange(0, i as int) =~= before.subrange(0, i as int));
                assert(self.profiles@.subrange(i as int, self.profiles@.len() as int)
                    =~= rest.drop_first());
            } else {
                assert(before.subrange(0, i + 1) =~= before.subrange(0, i as int) + seq![
                    before[i as int],
                ]);
                assert(rest[0] == before[i as int]);
                assert(without_id(rest, id@) == seq![before[i as int]] + without_id(
                    rest.drop_first(),
                    id@,
                ));
                assert(before.subrange(0, i as int) + without_id(rest, id@) =~= before.subrange(
                    0,
                    i + 1,
                ) + without_id(rest.drop_first(), id@));
                i = i + 1;
            }
        }
        assert(self.profiles@.subrange(0, i as int) =~= self.profiles@);
        assert(without_id(
            self.profiles@.subrange(i as int, self.profiles@.len() as int),
            id@,
        ) =~= seq![]);
        let clear = match &self.active_profile_id {
            Some(a) => crate::text::str_eq(a.as_str(), id),
            None => false,
        };
        if clear {
            self.active_profile_id = None;
        }
    }

    /// Get a profile by ID: the first one with that id.
    pub fn get(&self, id: &str) -> (r: Option<&ConnectionProfile>)
        ensures
            index_of_id(self.profiles@, id@) == -1 ==> r is None,
            index_of_id(self.profiles@, id@) != -1 ==> r == Some(
                &self.profiles@[index_of_id(self.profiles@, id@)],
            ),
    {
        match find_index(&self.profiles, id) {
            Some(i) => Some(&self.profiles[i]),
            None => None,
        }
    }

    /// Get the active profile.
    pub fn active(&self) -> (r: Option<&ConnectionProfile>)
        ensures
            match self.active_profile_id {
                None => r is None,
                Some(a) => if index_of_id(self.profiles@, a@) == -1 {
                    r is None
                } else {
                    r == Some(&self.profiles@[index_of_id(self.profiles@, a@)])
                },
            },
    {
        match &self.active_profile_id {
            Some(a) => self.get(a.as_str()),
            None => None,
        }
    }
}

/// After `upsert(p)`, looking up `p.id` finds `p`.
pub proof fn law_upsert_then_get(ps: Seq<ConnectionProfile>, p: ConnectionProfile)
    ensures
        ({
            let after = if index_of_id(ps, p.id@) == -1 {
                ps.push(p)
            } else {
                ps.update(index_of_id(ps, p.id@), p)
            };
            index_of_id(after, p.id@) != -1 && after[index_of_id(after, p.id@)] == p
        }),
{
    lemma_index_of_id_from(ps, p.id@, 0);
    if index_of_id(ps, p.id@) == -1 {
        let after = ps.push(p);
        lemma_index_of_id_from(after, p.id@, 0);
        assert(forall|j: int| 0 <= j < ps.len() ==> after[j] == ps[j]);
        assert(after[ps.len() as int].id@ == p.id@);
    } else {
        let i = index_of_id(ps, p.id@);
        let after = ps.update(i, p);
        lemma_index_of_id_from(after, p.id@, 0);
        assert(after[i].id@ == p.id@);
    }
}

/// After `remove(id)`, no profile has that id, and every other profile is
/// kept, in order.
pub proof fn law_remove_then_get(ps: Seq<ConnectionProfile>, id: Seq<char>)
    ensures
        index_of_id(without_id(ps, id), id) == -1,
        forall|q: ConnectionProfile| q.id@ != id ==> (ps.contains(q) <==> without_id(ps, id).contains(q)),
    decreases ps.len(),
{
    let w = without_id(ps, id);
    lemma_without_id(ps, id);
    lemma_index_of_id_from(w, id, 0);
    if index_of_id(w, id) != -1 {
        assert(w[index_of_id(w, id)].id@ != id);
    }
}

proof fn lemma_without_id(ps: Seq<ConnectionProfile>, id: Seq<char>)
    ensures
        forall|j: int| 0 <= j < without_id(ps, id).len() ==> (#[trigger] without_id(ps, id)[j]).id@ != id,
        forall|q: ConnectionProfile| q.id@ != id ==> (ps.contains(q) <==> without_id(ps, id).contains(q)),
    decreases ps.len(),
{
    if ps.len() > 0 {
        let t = ps.drop_first();
        lemma_without_id(t, id);
        let w = without_id(ps, id);
        assert forall|q: ConnectionProfile| q.id@ != id implies (ps.contains(q) <==> w.contains(q)) by {
            if ps.contains(q) {
                let k = choose|k: int| 0 <= k < ps.len() && ps[k] == q;
                if k > 0 {
                    assert(t[k - 1] == q);
                    assert(t.contains(q));
                    let m = choose|m: int| 0 <= m < without_id(t, id).len() && without_id(t, id)[m] == q;
                    if ps[0].id@ == id {
                        assert(w[m] == q);
                    } else {
                        assert(w[m + 1] == q);
                    }
                } else {
                    assert(w[0] == q);
                }
            }
            if w.contains(q) {
                let m = choose|m: int| 0 <= m < w.len() && w[m] == q;
                if ps[0].id@ == id {
                    assert(without_id(t, id)[m] == q);
                    assert(without_id(t, id).contains(q));
                    assert(t.contains(q));
                    let k = choose|k: int| 0 <= k < t.len() && t[k] == q;
                    assert(ps[k + 1] == q);
                } else if m == 0 {
                    assert(ps[0] == q);
                } else {
                    assert(without_id(t, id)[m - 1] == q);
                    assert(without_id(t, id).contains(q));
                    assert(t.contains(q));
                    let k = choose|k: int| 0 <= k < t.len() && t[k] == q;
                    assert(ps[k + 1] == q);
                }
            }
        }
        assert forall|j: int| 0 <= j < w.len() implies (#[trigger] w[j]).id@ != id by {
            if ps[0].id@ == id {
                assert(w[j] == without_id(t, id)[j]);
            } else if j > 0 {
                assert(w[j] == without_id(t, id)[j - 1]);
            }
        }
    }
}

} // verus!
