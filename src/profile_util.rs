//! The profile algebra: the names a profile allows, the merge of several
//! profiles and the diff of two.

use vstd::prelude::*;

use crate::names::{
    seq_lt, seq_view, sorted_strict, str_lt, lemma_lt_irreflexive, lemma_lt_transitive, lemma_lt_total,
    lemma_sorted_strict_unique, SyscallNameSet,
};
use crate::oci::{Arch, LinuxSeccomp, LinuxSeccompAction, LinuxSyscall};

verus! {

/// Every name that some rule of `rules` lists.
pub open spec fn rule_names(rules: Seq<LinuxSyscall>) -> Set<Seq<char>> {
    Set::new(
        |n: Seq<char>|
            exists|i: int, j: int|
                0 <= i < rules.len() && 0 <= j < rules[i].names@.len() && #[trigger] rules[i].names@[j]@ == n,
    )
}

/// The names a profile lists, whatever the action of their rule.
pub open spec fn profile_names(p: LinuxSeccomp) -> Set<Seq<char>> {
    match p.syscalls {
        Some(rules) => rule_names(rules@),
        None => Set::empty(),
    }
}

/// The union of the names of all the profiles.
pub open spec fn profiles_names(ps: Seq<LinuxSeccomp>) -> Set<Seq<char>> {
    Set::new(|n: Seq<char>| exists|i: int| 0 <= i < ps.len() && #[trigger] profile_names(ps[i]).contains(n))
}

/// A profile of the shape that synthesis produces: default action errno, the
/// given architectures, and one allow rule that lists exactly `names`, sorted
/// and without duplicates.
pub open spec fn is_allow_list(p: LinuxSeccomp, names: Set<Seq<char>>, archs: Seq<Arch>) -> bool {
    &&& p.default_action == LinuxSeccompAction::SCMP_ACT_ERRNO
    &&& p.architectures matches Some(a) && a@ == archs
    &&& p.syscalls matches Some(rules) && rules@.len() == 1
        && rules@[0].action == LinuxSeccompAction::SCMP_ACT_ALLOW
        && rules@[0].args is None
        && sorted_strict(seq_view(rules@[0].names@))
        && seq_view(rules@[0].names@).to_set() == names
}

/// The architectures that a merged profile names.
pub open spec fn merge_archs() -> Seq<Arch> {
    seq![Arch::SCMP_ARCH_X86, Arch::SCMP_ARCH_X86_64]
}

/// A profile with one allow rule listing `names`, default action errno.
pub fn allow_list_profile(names: Vec<String>, archs: Vec<Arch>) -> (r: LinuxSeccomp)
    requires
        sorted_strict(seq_view(names@)),
    ensures
        is_allow_list(r, seq_view(names@).to_set(), archs@),
        profile_names(r) == seq_view(names@).to_set(),
{
    let ghost nv = seq_view(names@);
    let rule = LinuxSyscall { names, action: LinuxSeccompAction::SCMP_ACT_ALLOW, args: None };
    let mut rules: Vec<LinuxSyscall> = Vec::new();
    rules.push(rule);
    let r = LinuxSeccomp {
        default_action: LinuxSeccompAction::SCMP_ACT_ERRNO,
        architectures: Some(archs),
        syscalls: Some(rules),
    };
    assert(profile_names(r) =~= nv.to_set()) by {
        assert forall|n: Seq<char>| nv.to_set().contains(n) implies profile_names(r).contains(n) by {
            let j = choose|j: int| 0 <= j < nv.len() && nv[j] == n;
            assert(rules@[0].names@[j]@ == n);
        }
        assert forall|n: Seq<char>| profile_names(r).contains(n) implies nv.to_set().contains(n) by {
            let rs = r.syscalls->0@;
            let (a, b) = choose|a: int, b: int|
                0 <= a < rs.len() && 0 <= b < rs[a].names@.len() && #[trigger] rs[a].names@[b]@ == n;
            assert(a == 0);
            assert(nv[b] == n);
        }
    }
    r
}

/// Adds to `set` every name that `profile` lists.
fn add_profile_names(set: &mut SyscallNameSet, profile: &LinuxSeccomp)
    requires
        sorted_strict(old(set)@),
    ensures
        sorted_strict(final(set)@),
        final(set)@.to_set() == old(set)@.to_set().union(profile_names(*profile)),
{
    match &profile.syscalls {
        None => {
            assert(old(set)@.to_set().union(Set::empty()) =~= old(set)@.to_set());
        },
        Some(rules) => {
            let ghost start = set@.to_set();
            let mut i: usize = 0;
            while i < rules.len()
                invariant
                    i <= rules@.len(),
                    sorted_strict(set@),
                    profile.syscalls == Some(*rules),
                    set@.to_set() == start.union(
                        Set::new(
                            |n: Seq<char>|
                                exists|a: int, b: int|
                                    0 <= a < i && 0 <= b < rules@[a].names@.len() && #[trigger] rules@[a].names@[b]@ == n,
                        ),
                    ),
                decreases rules@.len() - i,
            {
                let names = &rules[i].names;
                let ghost before = set@.to_set();
                let mut j: usize = 0;
                while j < names.len()
                    invariant
                        i < rules@.len(),
                        *names == rules@[i as int].names,
                        j <= names@.len(),
                        sorted_strict(set@),
                        set@.to_set() == before.union(
                            Set::new(|n: Seq<char>| exists|b: int| 0 <= b < j && #[trigger] names@[b]@ == n),
                        ),
                    decreases names@.len() - j,
                {
                    set.insert(names[j].clone());
                    j = j + 1;
                    assert(set@.to_set() =~= before.union(
                        Set::new(|n: Seq<char>| exists|b: int| 0 <= b < j && #[trigger] names@[b]@ == n),
                    ));
                }
                i = i + 1;
                assert(set@.to_set() =~= start.union(
                    Set::new(
                        |n: Seq<char>|
                            exists|a: int, b: int|
                                0 <= a < i && 0 <= b < rules@[a].names@.len() && #[trigger] rules@[a].names@[b]@ == n,
                    ),
                )) by {
                    assert forall|n: Seq<char>| set@.to_set().contains(n) implies start.union(
                        Set::new(
                            |n: Seq<char>|
                                exists|a: int, b: int|
                                    0 <= a < i && 0 <= b < rules@[a].names@.len() && #[trigger] rules@[a].names@[b]@ == n,
                        ),
                    ).contains(n) by {
                        if !before.contains(n) {
                            let b = choose|b: int| 0 <= b < names@.len() && #[trigger] names@[b]@ == n;
                            assert(rules@[i - 1].names@[b]@ == n);
                        }
                    }
                }
            }
            assert(set@.to_set() =~= start.union(profile_names(*profile)));
        },
    }
}

/// The names that `profile` lists, sorted and without duplicates.
pub fn extract_syscall_names(profile: LinuxSeccomp) -> (r: Vec<String>)
    ensures
        sorted_strict(seq_view(r@)),
        seq_view(r@).to_set() == profile_names(profile),
{
    let mut set = SyscallNameSet::new();
    add_profile_names(&mut set, &profile);
    assert(Seq::<Seq<char>>::empty().to_set().union(profile_names(profile)) =~= profile_names(profile));
    set.to_vec()
}

/// Merges profiles into one allow list.
///
/// With no profiles this is the profile that allows everything. Otherwise the
/// result has default action errno, the x86 and x86_64 architectures, and one
/// allow rule listing every name of every profile, sorted, without duplicates.
pub fn merge(profiles: Vec<LinuxSeccomp>) -> (r: LinuxSeccomp)
    ensures
        profile_names(r) == profiles_names(profiles@),
        profiles@.len() == 0 ==> r.default_action == LinuxSeccompAction::SCMP_ACT_ALLOW
            && r.architectures is None && r.syscalls is None,
        profiles@.len() > 0 ==> is_allow_list(r, profiles_names(profiles@), merge_archs()),
{
    if profiles.len() == 0 {
        let r = LinuxSeccomp::default();
        assert(profiles_names(profiles@) =~= Set::empty());
        return r;
    }
    let mut set = SyscallNameSet::new();
    let mut i: usize = 0;
    while i < profiles.len()
        invariant
            i <= profiles@.len(),
            sorted_strict(set@),
            set@.to_set() == profiles_names(profiles@.subrange(0, i as int)),
        decreases profiles@.len() - i,
    {
        let ghost before = set@.to_set();
        add_profile_names(&mut set, &profiles[i]);
        i = i + 1;
        assert(set@.to_set() =~= profiles_names(profiles@.subrange(0, i as int))) by {
            let ps = profiles@.subrange(0, i as int);
            let prev = profiles@.subrange(0, i - 1);
            assert forall|n: Seq<char>| set@.to_set().contains(n) implies profiles_names(ps).contains(n) by {
                if before.contains(n) {
                    let k = choose|k: int| 0 <= k < prev.len() && #[trigger] profile_names(prev[k]).contains(n);
                    assert(ps[k] == prev[k]);
                } else {
                    assert(ps[i - 1] == profiles@[i - 1]);
                }
            }
            assert forall|n: Seq<char>| profiles_names(ps).contains(n) implies set@.to_set().contains(n) by {
                let k = choose|k: int| 0 <= k < ps.len() && #[trigger] profile_names(ps[k]).contains(n);
                if k < i - 1 {
                    assert(prev[k] == ps[k]);
                }
            }
        }
    }
    assert(profiles@.subrange(0, i as int) =~= profiles@);
    let mut archs: Vec<Arch> = Vec::new();
    archs.push(Arch::SCMP_ARCH_X86);
    archs.push(Arch::SCMP_ARCH_X86_64);
    assert(archs@ =~= merge_archs());
    allow_list_profile(set.to_vec(), archs)
}


/// The names of an allow list, in order.
pub open spec fn allow_list_names(p: LinuxSeccomp) -> Seq<Seq<char>> {
    seq_view(p.syscalls->0@[0].names@)
}

/// Merging the result of a merge again changes nothing: same default action,
/// same architectures, same names in the same order.
pub proof fn lemma_merge_idempotent(ps: Seq<LinuxSeccomp>, once: LinuxSeccomp, twice: LinuxSeccomp)
    requires
        ps.len() > 0,
        is_allow_list(once, profiles_names(ps), merge_archs()),
        is_allow_list(twice, profiles_names(seq![once]), merge_archs()),
    ensures
        twice.default_action == once.default_action,
        twice.architectures->0@ == once.architectures->0@,
        allow_list_names(twice) == allow_list_names(once),
{
    let n1 = allow_list_names(once);
    assert(profiles_names(seq![once]) =~= profile_names(once)) by {
        assert forall|n: Seq<char>| profile_names(once).contains(n) implies profiles_names(seq![once]).contains(n) by {
            assert(seq![once][0] == once);
        }
    }
    assert(profile_names(once) =~= n1.to_set()) by {
        let rs = once.syscalls->0@;
        assert forall|n: Seq<char>| profile_names(once).contains(n) implies n1.to_set().contains(n) by {
            let (a, b) = choose|a: int, b: int|
                0 <= a < rs.len() && 0 <= b < rs[a].names@.len() && #[trigger] rs[a].names@[b]@ == n;
            assert(n1[b] == n);
        }
        assert forall|n: Seq<char>| n1.to_set().contains(n) implies profile_names(once).contains(n) by {
            let b = choose|b: int| 0 <= b < n1.len() && n1[b] == n;
            assert(rs[0].names@[b]@ == n);
        }
    }
    lemma_sorted_strict_unique(allow_list_names(twice), n1);
}

/// The names of a merge do not depend on the order of the profiles, nor on
/// how often one is repeated: two lists with the same profiles merge to the
/// same names in the same order.
pub proof fn lemma_merge_order_irrelevant(ps: Seq<LinuxSeccomp>, qs: Seq<LinuxSeccomp>, rp: LinuxSeccomp, rq: LinuxSeccomp)
    requires
        ps.to_set() == qs.to_set(),
        ps.len() > 0,
        is_allow_list(rp, profiles_names(ps), merge_archs()),
        is_allow_list(rq, profiles_names(qs), merge_archs()),
    ensures
        allow_list_names(rp) == allow_list_names(rq),
{
    assert(profiles_names(ps) =~= profiles_names(qs)) by {
        assert forall|n: Seq<char>| profiles_names(ps).contains(n) implies profiles_names(qs).contains(n) by {
            let i = choose|i: int| 0 <= i < ps.len() && #[trigger] profile_names(ps[i]).contains(n);
            assert(ps.to_set().contains(ps[i]));
            let j = choose|j: int| 0 <= j < qs.len() && qs[j] == ps[i];
            assert(profile_names(qs[j]).contains(n));
        }
        assert forall|n: Seq<char>| profiles_names(qs).contains(n) implies profiles_names(ps).contains(n) by {
            let i = choose|i: int| 0 <= i < qs.len() && #[trigger] profile_names(qs[i]).contains(n);
            assert(qs.to_set().contains(qs[i]));
            let j = choose|j: int| 0 <= j < ps.len() && ps[j] == qs[i];
            assert(profile_names(ps[j]).contains(n));
        }
    }
    lemma_sorted_strict_unique(allow_list_names(rp), allow_list_names(rq));
}

/// Where a name of a diff stands.
#[derive(Clone, Copy, Debug, PartialEq, Eq, Structural)]
pub enum DiffStatus {
    /// Only the first profile lists it.
    OnlyPath1,
    /// Only the second profile lists it.
    OnlyPath2,
    /// Both profiles list it.
    Both,
}

/// The diff of two name sets: each name of either, with where it stands.
pub open spec fn diff_map(a: Set<Seq<char>>, b: Set<Seq<char>>) -> Map<Seq<char>, DiffStatus> {
    Map::new(
        |n: Seq<char>| a.contains(n) || b.contains(n),
        |n: Seq<char>|
            if a.contains(n) && b.contains(n) {
                DiffStatus::Both
            } else if a.contains(n) {
                DiffStatus::OnlyPath1
            } else {
                DiffStatus::OnlyPath2
            },
    )
}

/// The same diff with the two sides exchanged.
pub open spec fn swap_sides(m: Map<Seq<char>, DiffStatus>) -> Map<Seq<char>, DiffStatus> {
    Map::new(
        |n: Seq<char>| m.contains_key(n),
        |n: Seq<char>|
            match m[n] {
                DiffStatus::OnlyPath1 => DiffStatus::OnlyPath2,
                DiffStatus::OnlyPath2 => DiffStatus::OnlyPath1,
                DiffStatus::Both => DiffStatus::Both,
            },
    )
}

/// The map that a list of entries describes; a later entry for a name
/// overrides an earlier one.
pub open spec fn entries_map(s: Seq<(Seq<char>, DiffStatus)>) -> Map<Seq<char>, DiffStatus>
    decreases s.len(),
{
    if s.len() == 0 {
        Map::empty()
    } else {
        entries_map(s.drop_last()).insert(s.last().0, s.last().1)
    }
}

pub open spec fn entry_names(s: Seq<(Seq<char>, DiffStatus)>) -> Seq<Seq<char>> {
    s.map_values(|e: (Seq<char>, DiffStatus)| e.0)
}

/// The result of a diff: names in ascending order, each with its status.
#[derive(Clone, Debug)]
pub struct SyscallDiff {
    entries: Vec<(String, DiffStatus)>,
}

impl View for SyscallDiff {
    type V = Map<Seq<char>, DiffStatus>;

    closed spec fn view(&self) -> Map<Seq<char>, DiffStatus> {
        entries_map(self.entry_seq())
    }
}

proof fn lemma_entries_map_len(s: Seq<(Seq<char>, DiffStatus)>)
    requires
        sorted_strict(entry_names(s)),
    ensures
        entries_map(s).dom() == entry_names(s).to_set(),
        entries_map(s).dom().len() == s.len(),
    decreases s.len(),
{
    if s.len() > 0 {
        let p = s.drop_last();
        assert(entry_names(p) =~= entry_names(s).drop_last());
        lemma_entries_map_len(p);
        assert(entry_names(s) =~= entry_names(p).push(s.last().0));
        entry_names(p).lemma_push_to_set_commute(s.last().0);
        assert(entries_map(s).dom() =~= entry_names(s).to_set());
        if entries_map(p).dom().contains(s.last().0) {
            let k = choose|k: int| 0 <= k < p.len() && entry_names(p)[k] == s.last().0;
            assert(seq_lt(entry_names(s)[k], entry_names(s)[s.len() - 1]));
            lemma_lt_irreflexive(s.last().0);
        }
    } else {
        assert(entries_map(s).dom() =~= entry_names(s).to_set());
    }
}

proof fn lemma_entries_map_lookup(s: Seq<(Seq<char>, DiffStatus)>, k: int)
    requires
        sorted_strict(entry_names(s)),
        0 <= k < s.len(),
    ensures
        entries_map(s).contains_key(s[k].0),
        entries_map(s)[s[k].0] == s[k].1,
    decreases s.len(),
{
    if k < s.len() - 1 {
        let p = s.drop_last();
        assert(entry_names(p) =~= entry_names(s).drop_last());
        lemma_entries_map_lookup(p, k);
        assert(seq_lt(entry_names(s)[k], entry_names(s)[s.len() - 1]));
        lemma_lt_irreflexive(s[k].0);
    }
}

impl SyscallDiff {
    pub closed spec fn entry_seq(&self) -> Seq<(Seq<char>, DiffStatus)> {
        self.entries@.map_values(|e: (String, DiffStatus)| (e.0@, e.1))
    }

    /// Names are in ascending order, each once.
    pub closed spec fn wf(&self) -> bool {
        sorted_strict(entry_names(self.entry_seq()))
    }

    /// The number of names.
    pub fn len(&self) -> (r: usize)
        requires
            self.wf(),
        ensures
            r == self@.dom().len(),
    {
        proof {
            lemma_entries_map_len(self.entry_seq());
        }
        self.entries.len()
    }

    /// The status of `name`, if either side lists it.
    pub fn get(&self, name: &String) -> (r: Option<&DiffStatus>)
        requires
            self.wf(),
        ensures
            match r {
                Some(st) => self@.contains_key(name@) && self@[name@] == *st,
                None => !self@.contains_key(name@),
            },
    {
        let mut i: usize = 0;
        while i < self.entries.len()
            invariant
                self.wf(),
                i <= self.entries@.len(),
                forall|k: int| 0 <= k < i ==> self.entry_seq()[k].0 != name@,
            decreases self.entries@.len() - i,
        {
            if self.entries[i].0 == *name {
                proof {
                    lemma_entries_map_lookup(self.entry_seq(), i as int);
                }
                return Some(&self.entries[i].1);
            }
            i = i + 1;
        }
        proof {
            lemma_entries_map_len(self.entry_seq());
            if self@.contains_key(name@) {
                let k = choose|k: int| 0 <= k < self.entry_seq().len() && entry_names(self.entry_seq())[k] == name@;
            }
        }
        None
    }

    /// The names with the given status, in ascending order.
    pub fn names_with(&self, status: DiffStatus) -> (r: Vec<String>)
        requires
            self.wf(),
        ensures
            sorted_strict(seq_view(r@)),
            seq_view(r@).to_set() == Set::new(|n: Seq<char>| self@.contains_key(n) && self@[n] == status),
    {
        let mut r: Vec<String> = Vec::new();
        let mut i: usize = 0;
        let ghost es = self.entry_seq();
        while i < self.entries.len()
            invariant
                self.wf(),
                es == self.entry_seq(),
                i <= self.entries@.len(),
                forall|k: int| 0 <= k < r@.len() ==> exists|m: int| 0 <= m < i && es[m].0 == #[trigger] r@[k]@ && es[m].1 == status,
                forall|m: int| 0 <= m < i && es[m].1 == status ==> seq_view(r@).contains(#[trigger] es[m].0),
                forall|k: int| 0 <= k < r@.len() && i < es.len() ==> seq_lt(#[trigger] r@[k]@, es[i as int].0),
                sorted_strict(seq_view(r@)),
            decreases self.entries@.len() - i,
        {
            let ghost oi = i as int;
            let ghost before = r@;
            if self.entries[i].1 == status {
                r.push(self.entries[i].0.clone());
                assert(seq_view(r@) =~= seq_view(before).push(es[oi].0));
            }
            i = i + 1;
            assert forall|k: int| 0 <= k < r@.len() implies exists|m: int| 0 <= m < i && es[m].0 == #[trigger] r@[k]@ && es[m].1 == status by {
                if k < before.len() {
                    assert(r@[k] == before[k]);
                    let m = choose|m: int| 0 <= m < oi && es[m].0 == before[k]@ && es[m].1 == status;
                } else {
                    assert(es[oi].0 == r@[k]@);
                }
            }
            assert forall|m: int| 0 <= m < i && es[m].1 == status implies seq_view(r@).contains(#[trigger] es[m].0) by {
                if m < oi {
                    let k = choose|k: int| 0 <= k < before.len() && seq_view(before)[k] == es[m].0;
                    assert(seq_view(r@)[k] == es[m].0);
                } else {
                    assert(seq_view(r@)[r@.len() - 1] == es[m].0);
                }
            }
            assert forall|k: int| 0 <= k < r@.len() && i < es.len() implies seq_lt(#[trigger] r@[k]@, es[i as int].0) by {
                let m = choose|m: int| 0 <= m < i && es[m].0 == r@[k]@ && es[m].1 == status;
                assert(entry_names(es)[m] == es[m].0);
                assert(entry_names(es)[i as int] == es[i as int].0);
            }
        }
        proof {
            let target = Set::new(|n: Seq<char>| self@.contains_key(n) && self@[n] == status);
            assert forall|n: Seq<char>| seq_view(r@).to_set().contains(n) implies target.contains(n) by {
                let k = choose|k: int| 0 <= k < r@.len() && seq_view(r@)[k] == n;
                assert(r@[k]@ == n);
                let m = choose|m: int| 0 <= m < i && es[m].0 == r@[k]@ && es[m].1 == status;
                lemma_entries_map_lookup(es, m);
            }
            assert forall|n: Seq<char>| target.contains(n) implies seq_view(r@).to_set().contains(n) by {
                lemma_entries_map_len(es);
                let m = choose|m: int| 0 <= m < es.len() && entry_names(es)[m] == n;
                lemma_entries_map_lookup(es, m);
            }
            assert(seq_view(r@).to_set() =~= target);
        }
        r
    }
}

/// Compares the names of two profiles: each name that either lists, marked
/// as listed by the first only, the second only, or both.
pub fn diff(profile1: LinuxSeccomp, profile2: LinuxSeccomp) -> (r: SyscallDiff)
    ensures
        r.wf(),
        r@ == diff_map(profile_names(profile1), profile_names(profile2)),
{
    let a = extract_syscall_names(profile1);
    let b = extract_syscall_names(profile2);
    let ghost av = seq_view(a@);
    let ghost bv = seq_view(b@);
    let mut entries: Vec<(String, DiffStatus)> = Vec::new();
    let mut i: usize = 0;
    let mut j: usize = 0;
    while i < a.len() || j < b.len()
        invariant
            av == seq_view(a@),
            bv == seq_view(b@),
            sorted_strict(av),
            sorted_strict(bv),
            i <= av.len(),
            j <= bv.len(),
            forall|k: int| 0 <= k < i && j < bv.len() ==> seq_lt(#[trigger] av[k], bv[j as int]),
            forall|k: int| 0 <= k < j && i < av.len() ==> seq_lt(#[trigger] bv[k], av[i as int]),
            ({
                let d = SyscallDiff { entries };
                &&& sorted_strict(entry_names(d.entry_seq()))
                &&& entries_map(d.entry_seq()) == diff_map(av.take(i as int).to_set(), bv.take(j as int).to_set())
                &&& forall|k: int| 0 <= k < d.entry_seq().len() ==>
                    (av.take(i as int).contains(#[trigger] entry_names(d.entry_seq())[k])
                        || bv.take(j as int).contains(entry_names(d.entry_seq())[k]))
            }),
        decreases av.len() + bv.len() - i - j,
    {
        let ghost old_es = (SyscallDiff { entries }).entry_seq();
        let ghost (oi, oj) = (i as int, j as int);
        let take_left = j >= b.len() || (i < a.len() && str_lt(a[i].as_str(), b[j].as_str()));
        let same = !take_left && i < a.len() && a[i] == b[j];
        let ghost x: Seq<char>;
        if take_left {
            proof { x = av[oi]; }
            entries.push((a[i].clone(), DiffStatus::OnlyPath1));
            i = i + 1;
        } else if same {
            proof { x = av[oi]; }
            entries.push((a[i].clone(), DiffStatus::Both));
            i = i + 1;
            j = j + 1;
        } else {
            proof { x = bv[oj]; }
            entries.push((b[j].clone(), DiffStatus::OnlyPath2));
            j = j + 1;
        }
        proof {
            let d = SyscallDiff { entries };
            let es = d.entry_seq();
            assert(es =~= old_es.push(es.last()));
            assert(es.drop_last() =~= old_es);
            assert(es.last().0 == x);
            if !take_left && !same && oi < av.len() {
                lemma_lt_total(av[oi], bv[oj]);
            }
            // x is above every name seen so far
            assert(forall|k: int| 0 <= k < oi ==> seq_lt(#[trigger] av[k], x));
            assert(forall|k: int| 0 <= k < oj ==> seq_lt(#[trigger] bv[k], x));
            assert forall|k: int| 0 <= k < old_es.len() implies seq_lt(#[trigger] entry_names(old_es)[k], x) by {
                let y = entry_names(old_es)[k];
                if av.take(oi).contains(y) {
                    let m = choose|m: int| 0 <= m < oi && av.take(oi)[m] == y;
                    assert(av[m] == y);
                } else {
                    let m = choose|m: int| 0 <= m < oj && bv.take(oj)[m] == y;
                    assert(bv[m] == y);
                }
            }
            assert(entry_names(es) =~= entry_names(old_es).push(x));
            assert(av.take(i as int) =~= if i as int > oi { av.take(oi).push(av[oi]) } else { av.take(oi) });
            assert(bv.take(j as int) =~= if j as int > oj { bv.take(oj).push(bv[oj]) } else { bv.take(oj) });
            assert(!av.take(oi).contains(x)) by {
                if av.take(oi).contains(x) {
                    let m = choose|m: int| 0 <= m < oi && av.take(oi)[m] == x;
                    lemma_lt_irreflexive(x);
                }
            }
            assert(!bv.take(oj).contains(x)) by {
                if bv.take(oj).contains(x) {
                    let m = choose|m: int| 0 <= m < oj && bv.take(oj)[m] == x;
                    lemma_lt_irreflexive(x);
                }
            }
            av.take(oi).lemma_push_to_set_commute(av[oi]);
            bv.take(oj).lemma_push_to_set_commute(bv[oj]);
            assert(entries_map(es) == entries_map(old_es).insert(x, es.last().1));
            assert(entries_map(es) =~= diff_map(av.take(i as int).to_set(), bv.take(j as int).to_set()));
            assert forall|k: int| 0 <= k < es.len() implies (av.take(i as int).contains(#[trigger] entry_names(es)[k])
                || bv.take(j as int).contains(entry_names(es)[k])) by {
                if k < old_es.len() {
                    assert(entry_names(es)[k] == entry_names(old_es)[k]);
                    let y = entry_names(old_es)[k];
                    if av.take(oi).contains(y) {
                        let m = choose|m: int| 0 <= m < oi && av.take(oi)[m] == y;
                        assert(av.take(i as int)[m] == y);
                    } else {
                        let m = choose|m: int| 0 <= m < oj && bv.take(oj)[m] == y;
                        assert(bv.take(j as int)[m] == y);
                    }
                } else {
                    if i as int > oi {
                        assert(av.take(i as int)[oi] == x);
                    } else {
                        assert(bv.take(j as int)[oj] == x);
                    }
                }
            }
            assert forall|k: int| 0 <= k < i && j < bv.len() implies seq_lt(#[trigger] av[k], bv[j as int]) by {
                if k < oi && j as int > oj {
                    lemma_lt_transitive(av[k], bv[oj], bv[j as int]);
                }
                if k == oi && same {
                    assert(bv[oj] == av[oi]);
                }
            }
            assert forall|k: int| 0 <= k < j && i < av.len() implies seq_lt(#[trigger] bv[k], av[i as int]) by {
                if k < oj && i as int > oi {
                    lemma_lt_transitive(bv[k], av[oi], av[i as int]);
                }
                if k == oj && same {
                    assert(bv[oj] == av[oi]);
                }
            }
        }
    }
    let r = SyscallDiff { entries };
    proof {
        assert(av.take(i as int) =~= av);
        assert(bv.take(j as int) =~= bv);
        assert(diff_map(av.to_set(), bv.to_set()) =~= diff_map(profile_names(profile1), profile_names(profile2)));
    }
    r
}

/// Swapping the two profiles of a diff exchanges "only the first" and "only
/// the second" and keeps every name and every "both".
pub proof fn lemma_diff_swap(a: LinuxSeccomp, b: LinuxSeccomp)
    ensures
        diff_map(profile_names(b), profile_names(a)) == swap_sides(diff_map(profile_names(a), profile_names(b))),
{
    assert(diff_map(profile_names(b), profile_names(a)) =~= swap_sides(diff_map(profile_names(a), profile_names(b))));
}

} // verus!
