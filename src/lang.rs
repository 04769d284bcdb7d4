//! The static analyzers: they read a binary's symbol table and turn the
//! symbol names into a syscall allow list.
//!
//! The C analyzer looks each dynamic symbol up in a function to syscalls
//! table. The Go analyzer matches the runtime's `syscall.<Name>` wrappers in
//! the full symbol table and keeps the names that are x86_64 syscalls.

use vstd::prelude::*;

use object::{Object, ObjectSymbol};

use crate::arch::{is_syscall, is_syscall_spec};
use crate::names::{seq_view, sorted_strict, str_eq, SyscallNameSet};
use crate::oci::{Arch, LinuxSeccomp};
use crate::profile_util::{allow_list_profile, is_allow_list};

verus! {

// ---------------------------------------------------------------------------
// What the outside crates compute

/// The names of the dynamic symbols of an object file, in table order; `None`
/// for a symbol whose name cannot be read. `None` if the file does not parse.
pub uninterp spec fn dynamic_symbol_names_of(data: Seq<u8>) -> Option<Seq<Option<Seq<char>>>>;

/// The names of the symbols of an object file's symbol table, as for
/// `dynamic_symbol_names_of`.
pub uninterp spec fn symbol_names_of(data: Seq<u8>) -> Option<Seq<Option<Seq<char>>>>;

/// The entries of a JSON object that maps strings to lists of strings, in key
/// order; `None` if the text is not such a document.
pub uninterp spec fn syscall_map_json_of(doc: Seq<u8>) -> Option<Seq<(Seq<char>, Seq<Seq<char>>)>>;

/// The leftmost-first, non-overlapping matches of a regular expression in a
/// text, in order; `None` if the pattern does not compile.
pub uninterp spec fn regex_matches_of(pattern: Seq<char>, text: Seq<char>) -> Option<Seq<Seq<char>>>;

/// The Unicode lowercase of a string.
pub uninterp spec fn lower_of(s: Seq<char>) -> Seq<char>;

pub open spec fn opt_names_view(v: Seq<Option<String>>) -> Seq<Option<Seq<char>>> {
    v.map_values(|o: Option<String>| match o {
        Some(s) => Some(s@),
        None => None,
    })
}

pub open spec fn map_entries_view(v: Seq<(String, Vec<String>)>) -> Seq<(Seq<char>, Seq<Seq<char>>)> {
    v.map_values(|e: (String, Vec<String>)| (e.0@, seq_view(e.1@)))
}

/// Relies on `object::File::parse` and `Object::dynamic_symbols` (object
/// crate): the dynamic symbols of the file and their names, which depend on
/// the bytes alone.
#[verifier::external_body]
fn dynamic_symbol_names(data: &[u8]) -> (r: Option<Vec<Option<String>>>)
    ensures
        match r {
            Some(v) => dynamic_symbol_names_of(data@) == Some(opt_names_view(v@)),
            None => dynamic_symbol_names_of(data@) is None,
        },
{
    let file = object::File::parse(data).ok()?;
    Some(file.dynamic_symbols().map(|s| s.name().ok().map(String::from)).collect())
}

/// Relies on `object::File::parse` and `Object::symbols` (object crate): the
/// symbols of the file's symbol table and their names, which depend on the
/// bytes alone.
#[verifier::external_body]
fn symbol_names(data: &[u8]) -> (r: Option<Vec<Option<String>>>)
    ensures
        match r {
            Some(v) => symbol_names_of(data@) == Some(opt_names_view(v@)),
            None => symbol_names_of(data@) is None,
        },
{
    let file = object::File::parse(data).ok()?;
    Some(file.symbols().map(|s| s.name().ok().map(String::from)).collect())
}

/// Relies on `serde_json::from_slice` into a `BTreeMap<String, Vec<String>>`
/// (serde_json crate): the document's entries, which depend on its bytes
/// alone.
#[verifier::external_body]
fn parse_syscall_map_json(doc: &[u8]) -> (r: Option<Vec<(String, Vec<String>)>>)
    ensures
        match r {
            Some(v) => syscall_map_json_of(doc@) == Some(map_entries_view(v@)),
            None => syscall_map_json_of(doc@) is None,
        },
{
    let map: std::collections::BTreeMap<String, Vec<String>> = serde_json::from_slice(doc).ok()?;
    Some(map.into_iter().collect())
}

/// Relies on `regex::Regex::new` and `Regex::find_iter` (regex crate): the
/// matches depend on the pattern and the text alone.
#[verifier::external_body]
fn regex_find_all(pattern: &str, text: &str) -> (r: Option<Vec<String>>)
    ensures
        match r {
            Some(v) => regex_matches_of(pattern@, text@) == Some(seq_view(v@)),
            None => regex_matches_of(pattern@, text@) is None,
        },
{
    let re = regex::Regex::new(pattern).ok()?;
    Some(re.find_iter(text).map(|m| m.as_str().to_string()).collect())
}

/// Relies on `str::to_lowercase`: the result depends on the characters alone.
#[verifier::external_body]
fn lowercase(s: &str) -> (r: String)
    ensures
        r@ == lower_of(s@),
{
    s.to_lowercase()
}

// ---------------------------------------------------------------------------
// The function to syscalls table

/// The syscalls stored last for `name`, if any.
pub open spec fn syscalls_for(entries: Seq<(Seq<char>, Seq<Seq<char>>)>, name: Seq<char>) -> Option<Seq<Seq<char>>>
    decreases entries.len(),
{
    if entries.len() == 0 {
        None
    } else if entries.last().0 == name {
        Some(entries.last().1)
    } else {
        syscalls_for(entries.drop_last(), name)
    }
}

/// A table from function names to the syscalls each one makes. A later entry
/// for a name overrides an earlier one.
#[derive(Clone, Debug)]
pub struct SyscallMap {
    entries: Vec<(String, Vec<String>)>,
}

impl View for SyscallMap {
    type V = Seq<(Seq<char>, Seq<Seq<char>>)>;

    closed spec fn view(&self) -> Seq<(Seq<char>, Seq<Seq<char>>)> {
        map_entries_view(self.entries@)
    }
}

impl SyscallMap {
    pub fn new() -> (r: SyscallMap)
        ensures
            r@ == Seq::<(Seq<char>, Seq<Seq<char>>)>::empty(),
    {
        SyscallMap { entries: Vec::new() }
    }

    /// Records that the function `name` makes the syscalls `syscalls`.
    pub fn insert(&mut self, name: String, syscalls: Vec<String>)
        ensures
            final(self)@ == old(self)@.push((name@, seq_view(syscalls@))),
    {
        let ghost e = (name@, seq_view(syscalls@));
        self.entries.push((name, syscalls));
        assert(self@ =~= old(self)@.push(e));
    }

    /// The syscalls of the function `name`.
    pub fn get(&self, name: &str) -> (r: Option<&Vec<String>>)
        ensures
            match r {
                Some(v) => syscalls_for(self@, name@) == Some(seq_view(v@)),
                None => syscalls_for(self@, name@) is None,
            },
    {
        let mut i: usize = self.entries.len();
        assert(self@.subrange(0, i as int) =~= self@);
        while i > 0
            invariant
                i <= self.entries@.len(),
                self@.len() == self.entries@.len(),
                syscalls_for(self@, name@) == syscalls_for(self@.subrange(0, i as int), name@),
            decreases i,
        {
            assert(self@.subrange(0, i as int).drop_last() =~= self@.subrange(0, i - 1));
            if str_eq(self.entries[i - 1].0.as_str(), name) {
                return Some(&self.entries[i - 1].1);
            }
            i = i - 1;
        }
        assert(self@.subrange(0, 0).len() == 0);
        None
    }

    /// The table that a parsed mapping document describes.
    pub fn from_entries(entries: Vec<(String, Vec<String>)>) -> (r: SyscallMap)
        ensures
            r@ == map_entries_view(entries@),
    {
        SyscallMap { entries }
    }
}

/// Reads a function to syscalls mapping document (a JSON object from function
/// names to lists of syscall names).
pub fn parse_syscall_map(doc: &[u8]) -> (r: Option<SyscallMap>)
    ensures
        match r {
            Some(m) => syscall_map_json_of(doc@) == Some(m@),
            None => syscall_map_json_of(doc@) is None,
        },
{
    match parse_syscall_map_json(doc) {
        Some(entries) => Some(SyscallMap::from_entries(entries)),
        None => None,
    }
}

// ---------------------------------------------------------------------------
// The C analyzer

/// The syscalls of each symbol in turn, in table order; symbols that the
/// table lacks contribute nothing.
pub open spec fn mapped_syscalls(symbols: Seq<Seq<char>>, table: Seq<(Seq<char>, Seq<Seq<char>>)>) -> Seq<Seq<char>>
    decreases symbols.len(),
{
    if symbols.len() == 0 {
        Seq::empty()
    } else {
        mapped_syscalls(symbols.drop_last(), table) + match syscalls_for(table, symbols.last()) {
            Some(v) => v,
            None => Seq::empty(),
        }
    }
}

/// The names that could be read, in order.
pub open spec fn readable_names(s: Seq<Option<Seq<char>>>) -> Seq<Seq<char>>
    decreases s.len(),
{
    if s.len() == 0 {
        Seq::empty()
    } else {
        readable_names(s.drop_last()) + match s.last() {
            Some(n) => seq![n],
            None => Seq::empty(),
        }
    }
}

/// Looks every symbol up in `fn_to_syscall_table` and concatenates the
/// syscalls found, in the order of the symbols.
pub fn allow_syscall_list_from_symbols(symbols: Vec<String>, fn_to_syscall_table: SyscallMap) -> (r: Vec<String>)
    ensures
        seq_view(r@) == mapped_syscalls(seq_view(symbols@), fn_to_syscall_table@),
{
    let mut syscalls: Vec<String> = Vec::new();
    let mut i: usize = 0;
    while i < symbols.len()
        invariant
            i <= symbols@.len(),
            seq_view(syscalls@) == mapped_syscalls(seq_view(symbols@).take(i as int), fn_to_syscall_table@),
        decreases symbols@.len() - i,
    {
        let ghost before = seq_view(syscalls@);
        let ghost done = seq_view(symbols@).take(i as int + 1);
        assert(done.drop_last() =~= seq_view(symbols@).take(i as int));
        match fn_to_syscall_table.get(symbols[i].as_str()) {
            Some(found) => {
                let mut j: usize = 0;
                while j < found.len()
                    invariant
                        j <= found@.len(),
                        seq_view(syscalls@) == before + seq_view(found@).take(j as int),
                    decreases found@.len() - j,
                {
                    let ghost prev = seq_view(syscalls@);
                    syscalls.push(found[j].clone());
                    assert(seq_view(syscalls@) =~= prev.push(found@[j as int]@));
                    assert(seq_view(found@).take(j as int + 1) =~= seq_view(found@).take(j as int).push(found@[j as int]@));
                    j = j + 1;
                    assert(seq_view(syscalls@) =~= before + seq_view(found@).take(j as int));
                }
                assert(seq_view(found@).take(j as int) =~= seq_view(found@));
            },
            None => {
                assert(seq_view(syscalls@) =~= before + Seq::<Seq<char>>::empty());
            },
        }
        i = i + 1;
    }
    assert(seq_view(symbols@).take(i as int) =~= seq_view(symbols@));
    syscalls
}

/// Keeps the names that could be read.
fn readable(names: Vec<Option<String>>) -> (r: Vec<String>)
    ensures
        seq_view(r@) == readable_names(opt_names_view(names@)),
{
    let mut r: Vec<String> = Vec::new();
    let mut i: usize = 0;
    while i < names.len()
        invariant
            i <= names@.len(),
            seq_view(r@) == readable_names(opt_names_view(names@).take(i as int)),
        decreases names@.len() - i,
    {
        let ghost before = seq_view(r@);
        assert(opt_names_view(names@).take(i as int + 1).drop_last() =~= opt_names_view(names@).take(i as int));
        match &names[i] {
            Some(n) => {
                r.push(n.clone());
                assert(seq_view(r@) =~= before + seq![n@]);
            },
            None => {
                assert(seq_view(r@) =~= before + Seq::<Seq<char>>::empty());
            },
        }
        i = i + 1;
    }
    assert(opt_names_view(names@).take(i as int) =~= opt_names_view(names@));
    r
}

/// The names of a list as a sorted set.
fn sorted_unique(names: Vec<String>) -> (r: Vec<String>)
    ensures
        sorted_strict(seq_view(r@)),
        seq_view(r@).to_set() == seq_view(names@).to_set(),
{
    let mut set = SyscallNameSet::new();
    let mut i: usize = 0;
    while i < names.len()
        invariant
            i <= names@.len(),
            sorted_strict(set@),
            set@.to_set() == seq_view(names@).take(i as int).to_set(),
        decreases names@.len() - i,
    {
        set.insert(names[i].clone());
        proof {
            let v = seq_view(names@);
            assert(v.take(i as int + 1) =~= v.take(i as int).push(v[i as int]));
            v.take(i as int).lemma_push_to_set_commute(v[i as int]);
        }
        i = i + 1;
    }
    assert(seq_view(names@).take(i as int) =~= seq_view(names@));
    set.to_vec()
}

/// The architectures that the analyzers and the tracer name.
pub open spec fn target_archs() -> Seq<Arch> {
    seq![Arch::SCMP_ARCH_X86_64]
}

fn target_arch_list() -> (r: Vec<Arch>)
    ensures
        r@ == target_archs(),
{
    let mut r: Vec<Arch> = Vec::new();
    r.push(Arch::SCMP_ARCH_X86_64);
    assert(r@ =~= target_archs());
    r
}

/// The C analyzer's profile for a binary whose dynamic symbols are `symbols`:
/// one allow rule with the syscalls of those symbols, sorted, once each.
pub fn c_profile_from_symbols(symbols: Vec<String>, fn_to_syscall_table: SyscallMap) -> (r: LinuxSeccomp)
    ensures
        is_allow_list(r, mapped_syscalls(seq_view(symbols@), fn_to_syscall_table@).to_set(), target_archs()),
{
    let syscalls = allow_syscall_list_from_symbols(symbols, fn_to_syscall_table);
    allow_list_profile(sorted_unique(syscalls), target_arch_list())
}

/// Why an analysis failed.
#[derive(Clone, Copy, Debug, PartialEq, Eq, Structural)]
pub enum AnalyzeError {
    /// The binary is not an object file that can be parsed.
    InvalidBinary,
    /// The function to syscalls mapping document does not parse.
    InvalidSyscallMap,
    /// The symbol pattern does not compile.
    InvalidPattern,
}

// ---------------------------------------------------------------------------
// The Go analyzer

/// The pattern of the Go runtime's syscall wrappers in a symbol table.
pub const GO_SYSCALL_PATTERN: &'static str = "syscall.[a-zA-Z][\\w]+";

/// The namespace prefix of the Go runtime's syscall wrappers.
pub const GO_SYSCALL_PREFIX: &'static str = "syscall.";

/// The symbol names, one per line.
pub open spec fn symbol_text(names: Seq<Seq<char>>) -> Seq<char>
    decreases names.len(),
{
    if names.len() == 0 {
        Seq::empty()
    } else {
        symbol_text(names.drop_last()) + seq!['\n'] + names.last()
    }
}

/// A matched wrapper name without its namespace prefix.
pub open spec fn strip_namespace(m: Seq<char>) -> Seq<char> {
    if m.len() >= GO_SYSCALL_PREFIX@.len() && m.take(GO_SYSCALL_PREFIX@.len() as int) == GO_SYSCALL_PREFIX@ {
        m.skip(GO_SYSCALL_PREFIX@.len() as int)
    } else {
        m
    }
}

/// The syscall names that a list of matched wrapper names stands for.
pub open spec fn go_candidates(matches: Seq<Seq<char>>) -> Set<Seq<char>> {
    Set::new(|c: Seq<char>| exists|i: int| 0 <= i < matches.len() && c == lower_of(strip_namespace(#[trigger] matches[i])))
}

/// The known syscall names among a set of candidates.
pub open spec fn known_syscalls(candidates: Set<Seq<char>>) -> Set<Seq<char>> {
    candidates.filter(|c: Seq<char>| is_syscall_spec(c))
}

/// Joins symbol names into one text, one name per line.
fn join_lines(names: &Vec<String>) -> (r: String)
    ensures
        r@ == symbol_text(seq_view(names@)),
{
    let mut text = String::new();
    let mut i: usize = 0;
    while i < names.len()
        invariant
            i <= names@.len(),
            text@ == symbol_text(seq_view(names@).take(i as int)),
        decreases names@.len() - i,
    {
        proof {
            reveal_strlit("\n");
        }
        text.append("\n");
        text.append(names[i].as_str());
        assert(seq_view(names@).take(i as int + 1).drop_last() =~= seq_view(names@).take(i as int));
        i = i + 1;
        assert(text@ =~= symbol_text(seq_view(names@).take(i as int)));
    }
    assert(seq_view(names@).take(i as int) =~= seq_view(names@));
    text
}

/// Removes the namespace prefix from a matched wrapper name.
pub fn strip_syscall_namespace(m: &str) -> (r: &str)
    ensures
        r@ == strip_namespace(m@),
{
    let prefix = GO_SYSCALL_PREFIX;
    proof {
        reveal_strlit("syscall.");
    }
    let plen = prefix.unicode_len();
    let mlen = m.unicode_len();
    if mlen < plen {
        return m;
    }
    let head = m.substring_char(0, plen);
    if str_eq(head, prefix) {
        m.substring_char(plen, mlen)
    } else {
        m
    }
}

/// The syscall name a matched wrapper name stands for: without its namespace
/// prefix, in lowercase.
pub fn syscall_candidate(m: &str) -> (r: String)
    ensures
        r@ == lower_of(strip_namespace(m@)),
{
    lowercase(strip_syscall_namespace(m))
}

/// The candidates that are x86_64 syscall names, sorted, once each.
pub fn known_syscall_names(candidates: Vec<String>) -> (r: Vec<String>)
    ensures
        sorted_strict(seq_view(r@)),
        seq_view(r@).to_set() == known_syscalls(seq_view(candidates@).to_set()),
{
    let mut set = SyscallNameSet::new();
    let mut i: usize = 0;
    while i < candidates.len()
        invariant
            i <= candidates@.len(),
            sorted_strict(set@),
            set@.to_set() == known_syscalls(seq_view(candidates@).take(i as int).to_set()),
        decreases candidates@.len() - i,
    {
        let ghost v = seq_view(candidates@);
        proof {
            assert(v.take(i as int + 1) =~= v.take(i as int).push(v[i as int]));
            v.take(i as int).lemma_push_to_set_commute(v[i as int]);
        }
        if is_syscall(candidates[i].as_str()) {
            set.insert(candidates[i].clone());
            assert(set@.to_set() =~= known_syscalls(v.take(i as int + 1).to_set()));
        } else {
            assert(set@.to_set() =~= known_syscalls(v.take(i as int + 1).to_set()));
        }
        i = i + 1;
    }
    assert(seq_view(candidates@).take(i as int) =~= seq_view(candidates@));
    set.to_vec()
}

/// The x86_64 syscalls that the Go runtime wrappers among `symbols` stand
/// for, sorted, once each.
pub fn go_syscalls_from_symbols(symbols: &Vec<String>) -> (r: Result<Vec<String>, AnalyzeError>)
    ensures
        match regex_matches_of(GO_SYSCALL_PATTERN@, symbol_text(seq_view(symbols@))) {
            Some(ms) => r matches Ok(names) && sorted_strict(seq_view(names@))
                && seq_view(names@).to_set() == known_syscalls(go_candidates(ms)),
            None => r == Err::<Vec<String>, AnalyzeError>(AnalyzeError::InvalidPattern),
        },
{
    let text = join_lines(symbols);
    let matches = match regex_find_all(GO_SYSCALL_PATTERN, text.as_str()) {
        Some(ms) => ms,
        None => return Err(AnalyzeError::InvalidPattern),
    };
    let ghost mv = seq_view(matches@);
    let mut candidates: Vec<String> = Vec::new();
    let mut i: usize = 0;
    while i < matches.len()
        invariant
            i <= matches@.len(),
            mv == seq_view(matches@),
            candidates@.len() == i,
            forall|k: int| 0 <= k < i ==> #[trigger] candidates@[k]@ == lower_of(strip_namespace(mv[k])),
        decreases matches@.len() - i,
    {
        candidates.push(syscall_candidate(matches[i].as_str()));
        i = i + 1;
    }
    let names = known_syscall_names(candidates);
    proof {
        assert forall|c: Seq<char>| seq_view(candidates@).to_set().contains(c) == go_candidates(mv).contains(c) by {
            if seq_view(candidates@).to_set().contains(c) {
                let k = choose|k: int| 0 <= k < candidates@.len() && seq_view(candidates@)[k] == c;
                assert(c == lower_of(strip_namespace(mv[k])));
            }
            if go_candidates(mv).contains(c) {
                let k = choose|k: int| 0 <= k < mv.len() && c == lower_of(strip_namespace(#[trigger] mv[k]));
                assert(seq_view(candidates@)[k] == c);
            }
        }
        assert(seq_view(candidates@).to_set() =~= go_candidates(mv));
    }
    Ok(names)
}


/// Builds the Go analyzer's profile from the names of a symbol table.
pub fn go_profile_from_symbols(symbols: &Vec<String>) -> (r: Result<LinuxSeccomp, AnalyzeError>)
    ensures
        match regex_matches_of(GO_SYSCALL_PATTERN@, symbol_text(seq_view(symbols@))) {
            Some(ms) => r matches Ok(p) && is_allow_list(p, known_syscalls(go_candidates(ms)), target_archs()),
            None => r == Err::<LinuxSeccomp, AnalyzeError>(AnalyzeError::InvalidPattern),
        },
{
    match go_syscalls_from_symbols(symbols) {
        Ok(names) => Ok(allow_list_profile(names, target_arch_list())),
        Err(e) => Err(e),
    }
}

// ---------------------------------------------------------------------------
// Analyzer selection

/// The language a binary was written in, which selects the analyzer.
#[derive(Clone, Copy, Debug, PartialEq, Eq, Structural)]
pub enum Language {
    C,
    Go,
}

/// The language that a lowercase tag names.
pub open spec fn language_of(tag: Seq<char>) -> Option<Language> {
    if tag == "c"@ {
        Some(Language::C)
    } else if tag == "go"@ || tag == "golang"@ {
        Some(Language::Go)
    } else {
        None
    }
}

impl Language {
    /// The language that an already lowercase tag names: `c`, `go` or `golang`.
    pub fn from_lowercase(tag: &str) -> (r: Option<Language>)
        ensures
            r == language_of(tag@),
    {
        if str_eq(tag, "c") {
            Some(Language::C)
        } else if str_eq(tag, "go") || str_eq(tag, "golang") {
            Some(Language::Go)
        } else {
            None
        }
    }

    /// The language that a tag names, whatever its case.
    pub fn parse(tag: &str) -> (r: Option<Language>)
        ensures
            r == language_of(lower_of(tag@)),
    {
        let lower = lowercase(tag);
        Language::from_lowercase(lower.as_str())
    }
}

impl std::str::FromStr for Language {
    type Err = ();

    fn from_str(lang: &str) -> Result<Language, ()> {
        match Language::parse(lang) {
            Some(l) => Ok(l),
            None => Err(()),
        }
    }
}

/// The C analyzer: dynamic symbols looked up in a function to syscalls table.
#[derive(Clone, Debug)]
pub struct CSeccompProfiler {
    pub destination: String,
    pub target_bin: String,
    pub syscall_map: String,
}

/// The Go analyzer: runtime syscall wrappers found in the symbol table.
#[derive(Clone, Debug)]
pub struct GoSeccompProfiler {
    pub destination: String,
    pub target_bin: String,
}

impl CSeccompProfiler {
    /// The profile for the binary `bin_data`, given the function to syscalls
    /// document `syscall_map_doc`.
    pub fn analyze(&self, bin_data: &[u8], syscall_map_doc: &[u8]) -> (r: Result<LinuxSeccomp, AnalyzeError>)
        ensures
            match dynamic_symbol_names_of(bin_data@) {
                None => r == Err::<LinuxSeccomp, AnalyzeError>(AnalyzeError::InvalidBinary),
                Some(syms) => match syscall_map_json_of(syscall_map_doc@) {
                    None => r == Err::<LinuxSeccomp, AnalyzeError>(AnalyzeError::InvalidSyscallMap),
                    Some(table) => r matches Ok(p) && is_allow_list(
                        p,
                        mapped_syscalls(readable_names(syms), table).to_set(),
                        target_archs(),
                    ),
                },
            },
    {
        let symbols = match dynamic_symbol_names(bin_data) {
            Some(s) => readable(s),
            None => return Err(AnalyzeError::InvalidBinary),
        };
        let table = match parse_syscall_map(syscall_map_doc) {
            Some(t) => t,
            None => return Err(AnalyzeError::InvalidSyscallMap),
        };
        Ok(c_profile_from_symbols(symbols, table))
    }
}

impl GoSeccompProfiler {
    /// The profile for the binary `bin_data`.
    pub fn analyze(&self, bin_data: &[u8]) -> (r: Result<LinuxSeccomp, AnalyzeError>)
        ensures
            match symbol_names_of(bin_data@) {
                None => r == Err::<LinuxSeccomp, AnalyzeError>(AnalyzeError::InvalidBinary),
                Some(syms) => match regex_matches_of(GO_SYSCALL_PATTERN@, symbol_text(readable_names(syms))) {
                    None => r == Err::<LinuxSeccomp, AnalyzeError>(AnalyzeError::InvalidPattern),
                    Some(ms) => r matches Ok(p) && is_allow_list(p, known_syscalls(go_candidates(ms)), target_archs()),
                },
            },
    {
        let symbols = match symbol_names(bin_data) {
            Some(s) => readable(s),
            None => return Err(AnalyzeError::InvalidBinary),
        };
        go_profile_from_symbols(&symbols)
    }
}

/// An analyzer, selected by language.
#[derive(Clone, Debug)]
pub enum SeccompProfiler {
    C(CSeccompProfiler),
    Go(GoSeccompProfiler),
}

impl SeccompProfiler {
    /// Where the profile is to be written.
    pub fn destination(&self) -> (r: &String)
        ensures
            r == match self {
                SeccompProfiler::C(p) => &p.destination,
                SeccompProfiler::Go(p) => &p.destination,
            },
    {
        match self {
            SeccompProfiler::C(p) => &p.destination,
            SeccompProfiler::Go(p) => &p.destination,
        }
    }
}

/// Why an analyzer could not be built.
#[derive(Clone, Copy, Debug, PartialEq, Eq, Structural)]
pub enum BuildError {
    /// The C analyzer needs a function to syscalls mapping document.
    MissingSyscallMap,
}

/// Collects an analyzer's configuration and checks it before building.
#[derive(Clone, Debug)]
pub struct SeccompProfilerBuilder {
    pub src: String,
    pub dst: String,
    pub lang: Language,
    pub syscall_map: Option<String>,
}

impl SeccompProfilerBuilder {
    /// A builder for the analyzer of `lang` that reads the binary `src` and
    /// writes the profile to `dst`.
    pub fn new(src: String, dst: String, lang: Language) -> (r: SeccompProfilerBuilder)
        ensures
            r.src == src,
            r.dst == dst,
            r.lang == lang,
            r.syscall_map is None,
    {
        SeccompProfilerBuilder { src, dst, lang, syscall_map: None }
    }

    /// Sets the path of the function to syscalls mapping document.
    pub fn set_syscall_map(&mut self, syscall_map: String) -> (r: &mut SeccompProfilerBuilder)
        ensures
            r.src == old(self).src,
            r.dst == old(self).dst,
            r.lang == old(self).lang,
            r.syscall_map == Some(syscall_map),
            *final(self) == *final(r),
    {
        self.syscall_map = Some(syscall_map);
        self
    }

    /// The analyzer for the configured language; the C analyzer fails to build
    /// without a mapping document.
    pub fn build(&self) -> (r: Result<SeccompProfiler, BuildError>)
        ensures
            match self.lang {
                Language::C => match self.syscall_map {
                    Some(m) => r matches Ok(SeccompProfiler::C(p))
                        && p.target_bin == self.src && p.destination == self.dst && p.syscall_map == m,
                    None => r == Err::<SeccompProfiler, BuildError>(BuildError::MissingSyscallMap),
                },
                Language::Go => r matches Ok(SeccompProfiler::Go(p))
                    && p.target_bin == self.src && p.destination == self.dst,
            },
    {
        match self.lang {
            Language::C => match &self.syscall_map {
                Some(m) => Ok(SeccompProfiler::C(CSeccompProfiler {
                    target_bin: self.src.clone(),
                    destination: self.dst.clone(),
                    syscall_map: m.clone(),
                })),
                None => Err(BuildError::MissingSyscallMap),
            },
            Language::Go => Ok(SeccompProfiler::Go(GoSeccompProfiler {
                target_bin: self.src.clone(),
                destination: self.dst.clone(),
            })),
        }
    }
}

/// Whether `fname` is an x86_64 syscall name.
pub fn is_syscalls(fname: &str) -> (r: bool)
    ensures
        r == is_syscall_spec(fname@),
{
    is_syscall(fname)
}

} // verus!
