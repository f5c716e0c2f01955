//! What the interactive surface shows of the records: icon names, the mod an instance
//! runs, and the starred instances.
use vstd::prelude::*;

use crate::config::{Config, Instance, Mod, Profile, ProfileConfig};
use crate::idmap::{id_lt, ids_sorted, IdMap};
use crate::text::opt_view;

verus! {

/// Something that has an icon, named by a file name relative to the icon folders.
pub trait GetIcon {
    /// The name of the icon, if there is one.
    spec fn spec_icon_name(&self, mods: Map<Seq<char>, Mod>) -> Option<Seq<char>>;

    /// The name of the icon, if there is one; `mods` are the known mods.
    fn get_icon(&self, mods: &IdMap<Mod>) -> (r: Option<String>)
        ensures
            opt_view(r) == self.spec_icon_name(mods@),
    ;
}

/// The icon that the updater of a mod saves: `<org>/<repo>/icon.png`.
pub open spec fn updater_icon(org: Seq<char>, repo: Seq<char>) -> Seq<char> {
    org + "/"@ + repo + "/icon.png"@
}

impl GetIcon for Mod {
    /// A mod's own icon, else the one its updater fetches.
    open spec fn spec_icon_name(&self, mods: Map<Seq<char>, Mod>) -> Option<Seq<char>> {
        match self.icon {
            Some(i) => Some(i@),
            None => match self.updater {
                Some(u) => Some(updater_icon(u.github_org@, u.github_repo@)),
                None => None,
            },
        }
    }

    fn get_icon(&self, mods: &IdMap<Mod>) -> (r: Option<String>) {
        match &self.icon {
            Some(i) => Some(i.clone()),
            None => match &self.updater {
                Some(u) => Some(
                    u.github_org.clone().concat("/").concat(u.github_repo.as_str()).concat(
                        "/icon.png",
                    ),
                ),
                None => None,
            },
        }
    }
}

impl GetIcon for Instance {
    /// An instance's own icon, else its mod's.
    open spec fn spec_icon_name(&self, mods: Map<Seq<char>, Mod>) -> Option<Seq<char>> {
        match self.icon {
            Some(i) => Some(i@),
            None => if mods.dom().contains(self.mod_id@) {
                mods[self.mod_id@].spec_icon_name(mods)
            } else {
                None
            },
        }
    }

    fn get_icon(&self, mods: &IdMap<Mod>) -> (r: Option<String>) {
        match &self.icon {
            Some(i) => Some(i.clone()),
            None => match mods.get(self.mod_id.as_str()) {
                Some(m) => m.get_icon(mods),
                None => None,
            },
        }
    }
}

/// The name shown for a mod that does not exist.
pub open spec fn unknown_mod() -> Seq<char> {
    "Unknown Mod"@
}

impl Instance {
    /// The id and name of the mod the instance runs. A mod id that names no mod resolves
    /// to a placeholder shown as unknown.
    pub fn display_mod(&self, mods: &IdMap<Mod>) -> (r: (String, String))
        ensures
            mods@.dom().contains(self.mod_id@) ==> r.0@ == self.mod_id@ && r.1@
                == mods@[self.mod_id@].name@,
            !mods@.dom().contains(self.mod_id@) ==> r.0@ == unknown_mod() && r.1@ == unknown_mod(),
    {
        match mods.get(self.mod_id.as_str()) {
            Some(m) => (self.mod_id.clone(), m.name.clone()),
            None => (String::from_str("Unknown Mod"), String::from_str("Unknown Mod")),
        }
    }
}

/// The starred entries of a list of instances, in order.
pub open spec fn starred_of(s: Seq<(String, Instance)>) -> Seq<(String, Instance)>
    decreases s.len(),
{
    if s.len() == 0 {
        Seq::empty()
    } else if s.last().1.starred {
        starred_of(s.drop_last()).push(s.last())
    } else {
        starred_of(s.drop_last())
    }
}

/// For each profile of `ps` with a starred instance, in order: its id, its settings and
/// its starred instances.
pub open spec fn starred_profiles(ps: Seq<(String, ProfileConfig)>) -> Seq<
    (String, Profile, Seq<(String, Instance)>),
>
    decreases ps.len(),
{
    if ps.len() == 0 {
        Seq::empty()
    } else {
        let prev = starred_profiles(ps.drop_last());
        let (id, p) = ps.last();
        let st = starred_of(p.instances.entries());
        if st.len() > 0 {
            prev.push((id, p.profile, st))
        } else {
            prev
        }
    }
}

/// Each starred entry is an entry of the list, and starred entries of an id-sorted list
/// ascend by id.
pub proof fn lemma_starred_sorted(s: Seq<(String, Instance)>)
    ensures
        forall|k: int|
            0 <= k < starred_of(s).len() ==> exists|i: int|
                0 <= i < s.len() && s[i] == #[trigger] starred_of(s)[k],
        ids_sorted(s) ==> ids_sorted(starred_of(s)),
    decreases s.len(),
{
    if s.len() > 0 {
        let pre = s.drop_last();
        lemma_starred_sorted(pre);
        let prev = starred_of(pre);
        let cur = starred_of(s);
        assert forall|k: int| 0 <= k < cur.len() implies exists|i: int|
            0 <= i < s.len() && s[i] == #[trigger] cur[k] by {
            if k < prev.len() {
                assert(cur[k] == prev[k]);
                let i = choose|i: int| 0 <= i < pre.len() && pre[i] == prev[k];
                assert(s[i] == pre[i]);
            } else {
                assert(s[s.len() - 1] == cur[k]);
            }
        }
        if ids_sorted(s) {
            assert(ids_sorted(pre)) by {
                assert forall|a: int, b: int| 0 <= a < b < pre.len() implies id_lt(
                    #[trigger] pre[a].0@,
                    #[trigger] pre[b].0@,
                ) by {
                    assert(pre[a] == s[a] && pre[b] == s[b]);
                }
            }
            assert forall|a: int, b: int| 0 <= a < b < cur.len() implies id_lt(
                #[trigger] cur[a].0@,
                #[trigger] cur[b].0@,
            ) by {
                if b < prev.len() {
                    assert(cur[a] == prev[a] && cur[b] == prev[b]);
                } else {
                    assert(cur[a] == prev[a]);
                    let i = choose|i: int| 0 <= i < pre.len() && pre[i] == prev[a];
                    assert(s[i] == pre[i]);
                    assert(cur[b] == s[s.len() - 1]);
                }
            }
        }
    }
}

/// Each listed starred profile comes from the list, and those of an id-sorted list ascend
/// by id.
pub proof fn lemma_starred_profiles_sorted(ps: Seq<(String, ProfileConfig)>)
    ensures
        forall|k: int|
            0 <= k < starred_profiles(ps).len() ==> exists|i: int|
                0 <= i < ps.len() && ps[i].0 == (#[trigger] starred_profiles(ps)[k]).0,
        ids_sorted(ps) ==> forall|a: int, b: int|
            0 <= a < b < starred_profiles(ps).len() ==> id_lt(
                (#[trigger] starred_profiles(ps)[a]).0@,
                (#[trigger] starred_profiles(ps)[b]).0@,
            ),
    decreases ps.len(),
{
    if ps.len() > 0 {
        let pre = ps.drop_last();
        lemma_starred_profiles_sorted(pre);
        let prev = starred_profiles(pre);
        let cur = starred_profiles(ps);
        assert forall|k: int| 0 <= k < cur.len() implies exists|i: int|
            0 <= i < ps.len() && ps[i].0 == (#[trigger] cur[k]).0 by {
            if k < prev.len() {
                assert(cur[k] == prev[k]);
                let i = choose|i: int| 0 <= i < pre.len() && pre[i].0 == prev[k].0;
                assert(ps[i] == pre[i]);
            } else {
                assert(ps[ps.len() - 1].0 == cur[k].0);
            }
        }
        if ids_sorted(ps) {
            assert(ids_sorted(pre)) by {
                assert forall|a: int, b: int| 0 <= a < b < pre.len() implies id_lt(
                    #[trigger] pre[a].0@,
                    #[trigger] pre[b].0@,
                ) by {
                    assert(pre[a] == ps[a] && pre[b] == ps[b]);
                }
            }
            assert forall|a: int, b: int| 0 <= a < b < cur.len() implies id_lt(
                (#[trigger] cur[a]).0@,
                (#[trigger] cur[b]).0@,
            ) by {
                if b < prev.len() {
                    assert(cur[a] == prev[a] && cur[b] == prev[b]);
                } else {
                    assert(cur[a] == prev[a]);
                    let i = choose|i: int| 0 <= i < pre.len() && pre[i].0 == prev[a].0;
                    assert(ps[i] == pre[i]);
                    assert(cur[b].0 == ps[ps.len() - 1].0);
                }
            }
        }
    }
}

/// The starred instances listed for each profile come from a profile's instance map, and
/// so ascend by id.
pub proof fn lemma_starred_profile_lists_sorted(ps: Seq<(String, ProfileConfig)>, k: int)
    requires
        0 <= k < starred_profiles(ps).len(),
        forall|i: int| 0 <= i < ps.len() ==> ids_sorted(#[trigger] ps[i].1.instances.entries()),
    ensures
        ids_sorted(starred_profiles(ps)[k].2),
    decreases ps.len(),
{
    let pre = ps.drop_last();
    let prev = starred_profiles(pre);
    if k < prev.len() {
        assert forall|i: int| 0 <= i < pre.len() implies ids_sorted(#[trigger] pre[i].1.instances.entries()) by {
            assert(pre[i] == ps[i]);
        }
        lemma_starred_profile_lists_sorted(pre, k);
    } else {
        let last = ps[ps.len() - 1];
        assert(ids_sorted(last.1.instances.entries()));
        lemma_starred_sorted(last.1.instances.entries());
    }
}

/// The starred instances of a profile, in ascending id order.
pub fn starred_instances(p: &ProfileConfig) -> (r: Vec<(String, Instance)>)
    ensures
        r@ == starred_of(p.instances.entries()),
        ids_sorted(r@),
        ids_sorted(p.instances.entries()),
{
    let mut out: Vec<(String, Instance)> = Vec::new();
    let mut i: usize = 0;
    let n = p.instances.len();
    while i < n
        invariant
            i <= n,
            n == p.instances.entries().len(),
            out@ == starred_of(p.instances.entries().subrange(0, i as int)),
        decreases n - i,
    {
        let (id, inst) = p.instances.entry(i);
        proof {
            assert(p.instances.entries().subrange(0, i + 1).drop_last() =~= p.instances.entries().subrange(
                0,
                i as int,
            ));
        }
        if inst.starred {
            out.push((id.clone(), inst.clone()));
        }
        i = i + 1;
    }
    proof {
        assert(p.instances.entries().subrange(0, n as int) =~= p.instances.entries());
        lemma_starred_sorted(p.instances.entries());
    }
    out
}

/// The profiles that have starred instances, with those instances, both in ascending id
/// order.
pub fn get_starred_profiles(cfg: &Config) -> (r: Vec<(String, Profile, Vec<(String, Instance)>)>)
    ensures
        forall|a: int, b: int| 0 <= a < b < r@.len() ==> id_lt((#[trigger] r@[a]).0@, (#[trigger] r@[b]).0@),
        forall|a: int| 0 <= a < r@.len() ==> ids_sorted((#[trigger] r@[a]).2@),
        r@.len() == starred_profiles(cfg.profiles.entries()).len(),
        forall|i: int|
            0 <= i < r@.len() ==> {
                let e = starred_profiles(cfg.profiles.entries())[i];
                &&& (#[trigger] r@[i]).0 == e.0
                &&& r@[i].1 == e.1
                &&& r@[i].2@ == e.2
            },
{
    let mut out: Vec<(String, Profile, Vec<(String, Instance)>)> = Vec::new();
    let mut i: usize = 0;
    let n = cfg.profiles.len();
    while i < n
        invariant
            i <= n,
            n == cfg.profiles.entries().len(),
            out@.len() == starred_profiles(cfg.profiles.entries().subrange(0, i as int)).len(),
            forall|j: int| 0 <= j < i ==> ids_sorted(#[trigger] cfg.profiles.entries()[j].1.instances.entries()),
            forall|j: int|
                0 <= j < out@.len() ==> {
                    let e = starred_profiles(cfg.profiles.entries().subrange(0, i as int))[j];
                    &&& (#[trigger] out@[j]).0 == e.0
                    &&& out@[j].1 == e.1
                    &&& out@[j].2@ == e.2
                },
        decreases n - i,
    {
        let (id, p) = cfg.profiles.entry(i);
        proof {
            assert(cfg.profiles.entries().subrange(0, i + 1).drop_last() =~= cfg.profiles.entries().subrange(
                0,
                i as int,
            ));
        }
        let st = starred_instances(p);
        if st.len() > 0 {
            out.push((id.clone(), p.profile.clone(), st));
        }
        i = i + 1;
    }
    proof {
        assert(cfg.profiles.entries().subrange(0, n as int) =~= cfg.profiles.entries());
        lemma_starred_profiles_sorted(cfg.profiles.entries());
        assert forall|a: int| 0 <= a < out@.len() implies ids_sorted((#[trigger] out@[a]).2@) by {
            let e = starred_profiles(cfg.profiles.entries())[a];
            assert(out@[a].2@ == e.2);
            lemma_starred_profile_lists_sorted(cfg.profiles.entries(), a);
        }
    }
    out
}

} // verus!
