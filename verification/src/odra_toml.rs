//! The contract registry: the list of contracts that a project declares,
//! each by its fully qualified name.

use crate::errors::{Error, ErrorKind};
use crate::text::{chars_of, last_index, last_index_of, lemma_last_index_of, lemma_run_len_bounds, run_len};
use vstd::prelude::*;
use vstd::string::*;

verus! {

/// There is a colon at offset `i` of `s`.
pub open spec fn colon_at(s: Seq<char>, i: int) -> bool {
    0 <= i < s.len() && s[i] == ':'
}

/// A fully qualified name is two or more segments joined by `::`, where a
/// segment is a non-empty run of characters other than the colon. Said
/// without naming the segments: the text neither starts nor ends with a
/// colon, holds at least one, and every colon has exactly one colon beside
/// it.
pub open spec fn well_formed_fqn(s: Seq<char>) -> bool {
    &&& s.len() > 0
    &&& s[0] != ':'
    &&& s[s.len() - 1] != ':'
    &&& exists|i: int| colon_at(s, i)
    &&& forall|i: int| #[trigger]
        colon_at(s, i) ==> ((i >= 1 && s[i - 1] == ':') != (i + 1 < s.len() && s[i + 1] == ':'))
}

/// The last segment of a fully qualified name.
pub open spec fn fqn_struct_name(s: Seq<char>) -> Seq<char> {
    s.subrange(last_index_of(s, ':') + 1, s.len() as int)
}

/// Everything before the last `::` of a fully qualified name.
pub open spec fn fqn_module_path(s: Seq<char>) -> Seq<char> {
    s.subrange(0, last_index_of(s, ':') - 1)
}

/// The first segment of a fully qualified name.
pub open spec fn fqn_first_segment(s: Seq<char>) -> Seq<char> {
    s.subrange(0, run_len(s, ':'))
}

/// A non-empty run of characters other than the colon.
pub open spec fn is_segment(seg: Seq<char>) -> bool {
    seg.len() > 0 && forall|i: int| 0 <= i < seg.len() ==> seg[i] != ':'
}

/// The segments joined by `::`.
pub open spec fn joined_segments(segs: Seq<Seq<char>>) -> Seq<char>
    decreases segs.len(),
{
    if segs.len() == 0 {
        Seq::<char>::empty()
    } else if segs.len() == 1 {
        segs[0]
    } else {
        joined_segments(segs.drop_last()) + seq![':', ':'] + segs.last()
    }
}

/// A contract of the project.
#[derive(Debug, PartialEq, Eq)]
pub struct Contract {
    pub(crate) fqn: String,
}

impl View for Contract {
    type V = Seq<char>;

    /// The contract's fully qualified name.
    closed spec fn view(&self) -> Seq<char> {
        self.fqn@
    }
}

impl DeepView for Contract {
    type V = Seq<char>;

    open spec fn deep_view(&self) -> Seq<char> {
        self@
    }
}

impl Clone for Contract {
    fn clone(&self) -> (r: Self)
        ensures
            r@ == self@,
    {
        proof {
            use_type_invariant(self);
        }
        Contract { fqn: self.fqn.clone() }
    }
}

/// Whether `s` is a well-formed fully qualified name.
pub fn is_well_formed_fqn(s: &str) -> (r: bool)
    ensures
        r == well_formed_fqn(s@),
{
    let v = chars_of(s);
    let n = v.len();
    if n == 0 || v[0] == ':' || v[n - 1] == ':' {
        return false;
    }
    let mut seen = false;
    let mut i: usize = 0;
    while i < n
        invariant
            v@ == s@,
            n == v@.len(),
            i <= n,
            seen == (exists|k: int| 0 <= k < i && colon_at(v@, k)),
            forall|k: int|
                0 <= k < i && #[trigger] colon_at(v@, k) ==> ((k >= 1 && v@[k - 1] == ':') != (k
                    + 1 < n && v@[k + 1] == ':')),
        decreases n - i,
    {
        if v[i] == ':' {
            let before = i >= 1 && v[i - 1] == ':';
            let after = i + 1 < n && v[i + 1] == ':';
            if before == after {
                assert(colon_at(v@, i as int));
                return false;
            }
            assert(colon_at(v@, i as int));
            seen = true;
        }
        i = i + 1;
    }
    proof {
        if !seen {
            assert forall|k: int| !colon_at(s@, k) by {
                if 0 <= k < n {
                }
            }
        }
    }
    seen
}

impl Contract {
    /// A contract has a well-formed fully qualified name.
    #[verifier::type_invariant]
    pub closed spec fn inv(&self) -> bool {
        well_formed_fqn(self.fqn@)
    }

    /// The contract named `fqn`. A name that is not two or more segments
    /// joined by `::` is refused.
    pub fn new(fqn: String) -> (r: Result<Contract, Error>)
        ensures
            well_formed_fqn(fqn@) ==> r is Ok && r->Ok_0@ == fqn@,
            !well_formed_fqn(fqn@) ==> r is Err && r->Err_0@ == (ErrorKind::MalformedFqn, fqn@),
    {
        if is_well_formed_fqn(fqn.as_str()) {
            Ok(Contract { fqn })
        } else {
            Err(Error::MalformedFqn(fqn))
        }
    }

    /// The fully qualified name.
    pub fn fqn(&self) -> (r: &String)
        ensures
            r@ == self@,
            well_formed_fqn(self@),
    {
        proof {
            use_type_invariant(self);
        }
        &self.fqn
    }

    /// The path of the module that defines the contract: everything before
    /// the last `::`.
    pub fn module_name(&self) -> (r: String)
        ensures
            r@ == fqn_module_path(self@),
    {
        proof {
            use_type_invariant(self);
            lemma_last_index_of(self.fqn@, ':');
        }
        let v = chars_of(self.fqn.as_str());
        match last_index(&v, ':') {
            Some(j) => {
                assert(colon_at(self.fqn@, j as int));
                String::from_str(self.fqn.as_str().substring_char(0, j - 1))
            },
            None => {
                proof {
                    let k = choose|k: int| colon_at(self.fqn@, k);
                    assert(colon_at(self.fqn@, k));
                }
                String::new()
            },
        }
    }

    /// The name of the contract's type: the last segment.
    pub fn struct_name(&self) -> (r: String)
        ensures
            r@ == fqn_struct_name(self@),
    {
        proof {
            lemma_last_index_of(self.fqn@, ':');
        }
        let v = chars_of(self.fqn.as_str());
        let n = v.len();
        match last_index(&v, ':') {
            Some(j) => String::from_str(self.fqn.as_str().substring_char(j + 1, n)),
            None => {
                assert(self.fqn@.subrange(0, n as int) =~= self.fqn@);
                self.fqn.clone()
            },
        }
    }

    /// The name of the crate that holds the contract: in a workspace the
    /// contract's first segment, else the project's name.
    pub fn crate_name(&self, project: &crate::project::Project) -> (r: String)
        ensures
            r@ == (if crate::project::is_workspace_view(project.members.deep_view()) {
                fqn_first_segment(self@)
            } else {
                project.name@
            }),
    {
        if project.is_workspace() {
            self.root_module()
        } else {
            project.name.clone()
        }
    }

    /// The name of the crate or top-level module that owns the contract: the
    /// first segment.
    pub fn root_module(&self) -> (r: String)
        ensures
            r@ == fqn_first_segment(self@),
    {
        let v = chars_of(self.fqn.as_str());
        let n = v.len();
        let mut j: usize = 0;
        assert(self.fqn@.subrange(0, n as int) =~= self.fqn@);
        while j < n && v[j] != ':'
            invariant
                v@ == self.fqn@,
                n == v@.len(),
                j <= n,
                run_len(self.fqn@, ':') == j + run_len(self.fqn@.subrange(j as int, n as int), ':'),
            decreases n - j,
        {
            proof {
                let t = self.fqn@.subrange(j as int, n as int);
                assert(t.subrange(1, t.len() as int) =~= self.fqn@.subrange(j + 1, n as int));
            }
            j = j + 1;
        }
        String::from_str(self.fqn.as_str().substring_char(0, j))
    }
}

/// The run of characters other than `sep` at the start of `s` has length
/// `k` if the first `k` characters are not `sep` and the next one, if any,
/// is.
pub proof fn lemma_run_len_is(s: Seq<char>, sep: char, k: int)
    requires
        0 <= k <= s.len(),
        forall|i: int| 0 <= i < k ==> s[i] != sep,
        k < s.len() ==> s[k] == sep,
    ensures
        run_len(s, sep) == k,
{
    lemma_run_len_bounds(s, sep);
}

/// What joining segments gives: text that starts with the first segment,
/// has no colon but in pairs between segments, and holds a colon as soon as
/// there are two segments.
pub proof fn lemma_joined_shape(segs: Seq<Seq<char>>)
    requires
        segs.len() >= 1,
        forall|i: int| 0 <= i < segs.len() ==> is_segment(#[trigger] segs[i]),
    ensures
        ({
            let j = joined_segments(segs);
            &&& j.len() >= segs[0].len() > 0
            &&& j.subrange(0, segs[0].len() as int) == segs[0]
            &&& j[0] != ':'
            &&& j[j.len() - 1] != ':'
            &&& segs.len() >= 2 ==> j.len() > segs[0].len() && j[segs[0].len() as int] == ':'
            &&& forall|i: int| #[trigger]
                colon_at(j, i) ==> ((i >= 1 && j[i - 1] == ':') != (i + 1 < j.len() && j[i + 1]
                    == ':'))
        }),
    decreases segs.len(),
{
    let j = joined_segments(segs);
    if segs.len() == 1 {
        assert(is_segment(segs[0]));
        assert(j.subrange(0, segs[0].len() as int) =~= segs[0]);
    } else {
        let front = segs.drop_last();
        let p = joined_segments(front);
        let last = segs.last();
        let m = p.len() as int;
        assert forall|i: int| 0 <= i < front.len() implies is_segment(#[trigger] front[i]) by {
            assert(front[i] == segs[i]);
        }
        lemma_joined_shape(front);
        assert(is_segment(last));
        assert(front[0] == segs[0]);
        assert(j =~= p + seq![':', ':'] + last);
        assert(j.len() == m + 2 + last.len());
        assert forall|i: int| 0 <= i < m implies j[i] == p[i] by {}
        assert(j[m] == ':' && j[m + 1] == ':');
        assert forall|i: int| m + 2 <= i < j.len() implies j[i] == last[i - m - 2] by {}
        assert(j.subrange(0, segs[0].len() as int) =~= p.subrange(0, segs[0].len() as int));
        if front.len() >= 2 {
            assert(j[segs[0].len() as int] == p[segs[0].len() as int]);
        } else {
            assert(p.len() == segs[0].len());
        }
        assert forall|i: int| #[trigger] colon_at(j, i) implies ((i >= 1 && j[i - 1] == ':') != (i
            + 1 < j.len() && j[i + 1] == ':')) by {
            if i < m {
                assert(colon_at(p, i));
                if i + 1 == m {
                    assert(p[m - 1] != ':');
                }
            } else if i == m {
                assert(j[m - 1] == p[m - 1]);
            } else if i == m + 1 {
                assert(j[m + 2] == last[0]);
            } else {
                assert(j[i] == last[i - m - 2]);
            }
        }
    }
}

/// For every list of two or more segments, the segments joined by `::` are
/// a well-formed name; its last segment is the type's name, what stands
/// before the last `::` is the module path, and its first segment is the
/// owning crate or module.
pub proof fn lemma_fqn_parts(segs: Seq<Seq<char>>)
    requires
        segs.len() >= 2,
        forall|i: int| 0 <= i < segs.len() ==> is_segment(#[trigger] segs[i]),
    ensures
        well_formed_fqn(joined_segments(segs)),
        fqn_struct_name(joined_segments(segs)) == segs.last(),
        fqn_module_path(joined_segments(segs)) == joined_segments(segs.drop_last()),
        fqn_first_segment(joined_segments(segs)) == segs[0],
{
    let j = joined_segments(segs);
    let front = segs.drop_last();
    let p = joined_segments(front);
    let last = segs.last();
    let m = p.len() as int;
    lemma_joined_shape(segs);
    assert(is_segment(last));
    assert(is_segment(segs[0]));
    assert(j =~= p + seq![':', ':'] + last);
    assert(j[m + 1] == ':');
    assert(colon_at(j, m + 1));
    assert forall|i: int| m + 2 <= i < j.len() implies j[i] != ':' by {
        assert(j[i] == last[i - m - 2]);
    }
    lemma_last_index_of(j, ':');
    assert(last_index_of(j, ':') == m + 1);
    assert(j.subrange(m + 2, j.len() as int) =~= last);
    assert(j.subrange(0, m) =~= p);
    assert forall|i: int| 0 <= i < segs[0].len() implies j[i] != ':' by {
        assert(j.subrange(0, segs[0].len() as int)[i] == j[i]);
    }
    lemma_run_len_is(j, ':', segs[0].len() as int);
}

/// Text without `::` is no well-formed name.
pub proof fn lemma_no_separator_is_malformed(s: Seq<char>)
    requires
        !crate::text::contains_text(s, seq![':', ':']),
    ensures
        !well_formed_fqn(s),
{
    if well_formed_fqn(s) {
        let i = choose|i: int| colon_at(s, i);
        assert(colon_at(s, i));
        let sep = seq![':', ':'];
        if i >= 1 && s[i - 1] == ':' {
            assert(s.subrange(i - 1, i + 1) =~= sep);
            assert(crate::text::occurs_at(s, sep, i - 1));
        } else {
            assert(s.subrange(i, i + 2) =~= sep);
            assert(crate::text::occurs_at(s, sep, i));
        }
    }
}

/// The contract registry.
#[derive(Clone, Debug, PartialEq, Eq)]
pub struct OdraToml {
    /// The contracts of the project, in the order of the file.
    pub contracts: Vec<Contract>,
    /// Where the registry was read from.
    pub location: String,
}

/// Some contract of the registry has `name` as its last segment.
pub open spec fn registry_has_contract(contracts: Seq<Seq<char>>, name: Seq<char>) -> bool {
    exists|i: int| 0 <= i < contracts.len() && fqn_struct_name(#[trigger] contracts[i]) == name
}

/// Some contract of the registry has `name` as its first segment.
pub open spec fn registry_has_module(contracts: Seq<Seq<char>>, name: Seq<char>) -> bool {
    exists|i: int| 0 <= i < contracts.len() && fqn_first_segment(#[trigger] contracts[i]) == name
}

impl OdraToml {
    /// Whether the registry lists a contract whose type is named
    /// `contract_name`.
    pub fn has_contract(&self, contract_name: &str) -> (r: bool)
        ensures
            r == registry_has_contract(self.contracts.deep_view(), contract_name@),
    {
        let mut i: usize = 0;
        while i < self.contracts.len()
            invariant
                i <= self.contracts.len(),
                forall|k: int|
                    0 <= k < i ==> fqn_struct_name(#[trigger] self.contracts.deep_view()[k])
                        != contract_name@,
            decreases self.contracts.len() - i,
        {
            let name = self.contracts[i].struct_name();
            if crate::text::same_text(name.as_str(), contract_name) {
                assert(self.contracts.deep_view()[i as int] == self.contracts[i as int]@);
                return true;
            }
            assert(self.contracts.deep_view()[i as int] == self.contracts[i as int]@);
            i = i + 1;
        }
        false
    }

    /// Whether some contract of the registry belongs to the crate or
    /// top-level module `module_name`.
    pub fn has_module(&self, module_name: &str) -> (r: bool)
        ensures
            r == registry_has_module(self.contracts.deep_view(), module_name@),
    {
        let mut i: usize = 0;
        while i < self.contracts.len()
            invariant
                i <= self.contracts.len(),
                forall|k: int|
                    0 <= k < i ==> fqn_first_segment(#[trigger] self.contracts.deep_view()[k])
                        != module_name@,
            decreases self.contracts.len() - i,
        {
            let name = self.contracts[i].root_module();
            if crate::text::same_text(name.as_str(), module_name) {
                assert(self.contracts.deep_view()[i as int] == self.contracts[i as int]@);
                return true;
            }
            assert(self.contracts.deep_view()[i as int] == self.contracts[i as int]@);
            i = i + 1;
        }
        false
    }
}

} // verus!
