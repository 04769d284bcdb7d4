//! Syscall names as strings: a lexicographic order over their characters and
//! a sorted, duplicate-free set of names.

use vstd::prelude::*;

verus! {

/// The view of a list of strings as character sequences.
pub open spec fn seq_view(v: Seq<String>) -> Seq<Seq<char>> {
    v.map_values(|s: String| s@)
}

/// Lexicographic order on character sequences, by code point; this is the
/// order `Ord` gives `String` (UTF-8 byte order agrees with code point order).
pub open spec fn seq_lt(a: Seq<char>, b: Seq<char>) -> bool
    decreases a.len(),
{
    if a.len() == 0 {
        b.len() > 0
    } else if b.len() == 0 {
        false
    } else if a[0] != b[0] {
        a[0] < b[0]
    } else {
        seq_lt(a.drop_first(), b.drop_first())
    }
}

/// Every element is strictly below the next one: sorted, with no duplicates.
pub open spec fn sorted_strict(s: Seq<Seq<char>>) -> bool {
    forall|i: int, j: int| 0 <= i < j < s.len() ==> seq_lt(#[trigger] s[i], #[trigger] s[j])
}

pub proof fn lemma_lt_irreflexive(a: Seq<char>)
    ensures
        !seq_lt(a, a),
    decreases a.len(),
{
    if a.len() > 0 {
        lemma_lt_irreflexive(a.drop_first());
    }
}

pub proof fn lemma_lt_transitive(a: Seq<char>, b: Seq<char>, c: Seq<char>)
    requires
        seq_lt(a, b),
        seq_lt(b, c),
    ensures
        seq_lt(a, c),
    decreases a.len(),
{
    if a.len() > 0 && b.len() > 0 && c.len() > 0 {
        if a[0] == b[0] && b[0] == c[0] {
            lemma_lt_transitive(a.drop_first(), b.drop_first(), c.drop_first());
        }
    }
}

pub proof fn lemma_lt_total(a: Seq<char>, b: Seq<char>)
    requires
        a != b,
    ensures
        seq_lt(a, b) || seq_lt(b, a),
    decreases a.len(),
{
    if a.len() > 0 && b.len() > 0 && a[0] == b[0] {
        if a.drop_first() == b.drop_first() {
            assert(a =~= seq![a[0]] + a.drop_first());
            assert(b =~= seq![b[0]] + b.drop_first());
        }
        lemma_lt_total(a.drop_first(), b.drop_first());
    } else if a.len() > 0 && b.len() > 0 {
        assert(a[0] != b[0]);
    } else if a.len() == 0 && b.len() == 0 {
        assert(a =~= b);
    }
}

proof fn lemma_lt_common_prefix(a: Seq<char>, b: Seq<char>, i: int)
    requires
        0 <= i <= a.len(),
        i <= b.len(),
        forall|j: int| 0 <= j < i ==> a[j] == b[j],
    ensures
        seq_lt(a, b) == seq_lt(a.skip(i), b.skip(i)),
    decreases i,
{
    if i > 0 {
        lemma_lt_common_prefix(a.drop_first(), b.drop_first(), i - 1);
        assert(a.drop_first().skip(i - 1) =~= a.skip(i));
        assert(b.drop_first().skip(i - 1) =~= b.skip(i));
    } else {
        assert(a.skip(0) =~= a);
        assert(b.skip(0) =~= b);
    }
}

/// A sorted, duplicate-free sequence is determined by its set of elements.
pub proof fn lemma_sorted_strict_unique(a: Seq<Seq<char>>, b: Seq<Seq<char>>)
    requires
        sorted_strict(a),
        sorted_strict(b),
        a.to_set() == b.to_set(),
    ensures
        a == b,
    decreases a.len(),
{
    if a.len() == 0 {
        if b.len() > 0 {
            assert(b.to_set().contains(b[0]));
        }
        assert(a =~= b);
    } else {
        assert(a.to_set().contains(a[0]));
        assert(b.to_set().contains(a[0]));
        let k = choose|k: int| 0 <= k < b.len() && b[k] == a[0];
        assert(a.to_set().contains(b[0]));
        let m = choose|m: int| 0 <= m < a.len() && a[m] == b[0];
        if k > 0 && m > 0 {
            assert(seq_lt(b[0], a[0]));
            assert(seq_lt(a[0], b[0]));
            lemma_lt_transitive(a[0], b[0], a[0]);
            lemma_lt_irreflexive(a[0]);
        }
        if k == 0 || m == 0 {
            assert(a[0] == b[0]);
        }
        let a1 = a.drop_first();
        let b1 = b.drop_first();
        assert(a1.to_set() =~= b1.to_set()) by {
            assert forall|x: Seq<char>| a1.to_set().contains(x) implies b1.to_set().contains(x) by {
                let i = choose|i: int| 0 <= i < a1.len() && a1[i] == x;
                assert(a[i + 1] == x);
                assert(seq_lt(a[0], x));
                assert(a.to_set().contains(x));
                assert(b.to_set().contains(x));
                let j = choose|j: int| 0 <= j < b.len() && b[j] == x;
                if j == 0 {
                    lemma_lt_irreflexive(x);
                }
                assert(b1[j - 1] == x);
            }
            assert forall|x: Seq<char>| b1.to_set().contains(x) implies a1.to_set().contains(x) by {
                let i = choose|i: int| 0 <= i < b1.len() && b1[i] == x;
                assert(b[i + 1] == x);
                assert(seq_lt(b[0], x));
                assert(a.to_set().contains(x));
                let j = choose|j: int| 0 <= j < a.len() && a[j] == x;
                if j == 0 {
                    lemma_lt_irreflexive(x);
                }
                assert(a1[j - 1] == x);
            }
        }
        lemma_sorted_strict_unique(a1, b1);
        assert(a =~= seq![a[0]] + a1);
        assert(b =~= seq![b[0]] + b1);
    }
}

/// Whether `a` comes strictly before `b` in the order of `seq_lt`.
pub fn str_lt(a: &str, b: &str) -> (r: bool)
    ensures
        r == seq_lt(a@, b@),
{
    let la = a.unicode_len();
    let lb = b.unicode_len();
    let mut i: usize = 0;
    while i < la && i < lb
        invariant
            la == a@.len(),
            lb == b@.len(),
            i <= la,
            i <= lb,
            forall|j: int| 0 <= j < i ==> a@[j] == b@[j],
        decreases la - i,
    {
        let ca = a.get_char(i);
        let cb = b.get_char(i);
        if ca != cb {
            proof {
                lemma_lt_common_prefix(a@, b@, i as int);
                assert(a@.skip(i as int)[0] == ca);
                assert(b@.skip(i as int)[0] == cb);
            }
            return ca < cb;
        }
        i = i + 1;
    }
    proof {
        lemma_lt_common_prefix(a@, b@, i as int);
    }
    i < lb
}


/// Whether two strings hold the same characters.
pub fn str_eq(a: &str, b: &str) -> (r: bool)
    ensures
        r == (a@ == b@),
{
    let la = a.unicode_len();
    let lb = b.unicode_len();
    if la != lb {
        return false;
    }
    let mut i: usize = 0;
    while i < la
        invariant
            la == a@.len(),
            lb == b@.len(),
            la == lb,
            i <= la,
            forall|j: int| 0 <= j < i ==> a@[j] == b@[j],
        decreases la - i,
    {
        if a.get_char(i) != b.get_char(i) {
            return false;
        }
        i = i + 1;
    }
    assert(a@ =~= b@);
    true
}

/// Copies a list of string slices into owned strings.
pub fn to_strings(items: &[&str]) -> (r: Vec<String>)
    ensures
        seq_view(r@) == items@.map_values(|s: &str| s@),
{
    let mut r: Vec<String> = Vec::new();
    let mut i: usize = 0;
    while i < items.len()
        invariant
            i <= items@.len(),
            r@.len() == i,
            forall|j: int| 0 <= j < i ==> #[trigger] r@[j]@ == items@[j]@,
        decreases items@.len() - i,
    {
        r.push(String::from_str(items[i]));
        i = i + 1;
    }
    assert(seq_view(r@) =~= items@.map_values(|s: &str| s@));
    r
}

/// A set of syscall names, kept sorted and free of duplicates.
pub struct SyscallNameSet {
    names: Vec<String>,
}

impl View for SyscallNameSet {
    type V = Seq<Seq<char>>;

    /// The names in ascending order.
    closed spec fn view(&self) -> Seq<Seq<char>> {
        seq_view(self.names@)
    }
}

impl SyscallNameSet {
    pub fn new() -> (r: SyscallNameSet)
        ensures
            r@ == Seq::<Seq<char>>::empty(),
    {
        SyscallNameSet { names: Vec::new() }
    }

    pub fn len(&self) -> (r: usize)
        ensures
            r == self@.len(),
    {
        self.names.len()
    }

    /// Adds `name`; a name already present leaves the set unchanged.
    pub fn insert(&mut self, name: String)
        requires
            sorted_strict(old(self)@),
        ensures
            sorted_strict(final(self)@),
            final(self)@.to_set() == old(self)@.to_set().insert(name@),
    {
        let n = self.names.len();
        let ghost old_names = seq_view(self.names@);
        let mut k: usize = 0;
        let mut below = true;
        while k < n && below
            invariant
                n == self.names.len(),
                old_names == seq_view(self.names@),
                k <= n,
                forall|j: int| 0 <= j < k ==> seq_lt(#[trigger] old_names[j], name@),
                !below ==> k < n && !seq_lt(old_names[k as int], name@),
            decreases n - k + (if below { 1int } else { 0int }),
        {
            if str_lt(self.names[k].as_str(), name.as_str()) {
                k = k + 1;
            } else {
                below = false;
            }
        }
        if k < n && self.names[k] == name {
            assert(old_names[k as int] == name@);
            assert(old_names.to_set().insert(name@) =~= old_names.to_set());
            return;
        }
        proof {
            if k < n {
                lemma_lt_total(old_names[k as int], name@);
            }
        }
        self.names.insert(k, name);
        let ghost new_names = seq_view(self.names@);
        assert(new_names =~= old_names.insert(k as int, name@));
        assert forall|i: int, j: int| 0 <= i < j < new_names.len() implies seq_lt(
            #[trigger] new_names[i],
            #[trigger] new_names[j],
        ) by {
            if j < k {
            } else if j == k {
            } else if i < k {
                if j - 1 > k {
                    lemma_lt_transitive(name@, old_names[k as int], old_names[j - 1]);
                }
                lemma_lt_transitive(new_names[i], name@, new_names[j]);
            } else if i == k {
                if j - 1 > k {
                    lemma_lt_transitive(name@, old_names[k as int], old_names[j - 1]);
                }
            }
        }
        assert(new_names.to_set() =~= old_names.to_set().insert(name@)) by {
            assert forall|x: Seq<char>| new_names.to_set().contains(x) implies old_names.to_set().insert(name@).contains(x) by {
                let i = choose|i: int| 0 <= i < new_names.len() && new_names[i] == x;
                if i < k {
                    assert(old_names[i] == x);
                } else if i > k {
                    assert(old_names[i - 1] == x);
                }
            }
            assert forall|x: Seq<char>| old_names.to_set().insert(name@).contains(x) implies new_names.to_set().contains(x) by {
                if x == name@ {
                    assert(new_names[k as int] == x);
                } else {
                    let i = choose|i: int| 0 <= i < old_names.len() && old_names[i] == x;
                    if i < k {
                        assert(new_names[i] == x);
                    } else {
                        assert(new_names[i + 1] == x);
                    }
                }
            }
        }
    }

    /// The names in ascending order.
    pub fn to_vec(&self) -> (r: Vec<String>)
        ensures
            seq_view(r@) == self@,
    {
        let r = self.names.clone();
        assert(seq_view(r@) =~= seq_view(self.names@)) by {
            assert forall|i: int| 0 <= i < r@.len() implies r@[i]@ == self.names@[i]@ by {
                assert(cloned::<String>(self.names@[i], r@[i]));
            }
        }
        r
    }
}

} // verus!
