//! Paths, as text with `/` between components, and the names of the files
//! that a build produces.

use crate::consts::WASM_TARGET;
use crate::text::{
    chars_of, concat, concat3, last_index, last_index_of, lemma_last_index_of, replace_all,
    replaced, trim_end, trimmed_end,
};
use convert_case::{Boundary, Case, Casing};
use vstd::prelude::*;
use vstd::string::*;

verus! {

/// `tail` adjoined to `base`: a `tail` that starts at the root replaces
/// `base`; otherwise the two are joined by one `/`, which an empty `base`
/// or one that already ends in `/` does not need.
pub open spec fn joined_path(base: Seq<char>, tail: Seq<char>) -> Seq<char> {
    if tail.len() > 0 && tail[0] == '/' {
        tail
    } else if base.len() == 0 {
        tail
    } else if base[base.len() - 1] == '/' {
        base + tail
    } else {
        base + seq!['/'] + tail
    }
}

/// The path without its last component; the root and the empty path have
/// none.
pub open spec fn parent_of(path: Seq<char>) -> Option<Seq<char>> {
    let i = last_index_of(path, '/');
    if path.len() == 0 {
        None
    } else if i < 0 {
        Some(Seq::<char>::empty())
    } else if i == 0 {
        if path.len() == 1 {
            None
        } else {
            Some(seq!['/'])
        }
    } else {
        Some(path.subrange(0, i))
    }
}

/// A path and then each of its ancestors, nearest first.
pub open spec fn ancestors_of(path: Seq<char>) -> Seq<Seq<char>>
    decreases path.len(),
{
    match parent_of(path) {
        Some(p) => if p.len() < path.len() {
            seq![path] + ancestors_of(p)
        } else {
            seq![path]
        },
        None => seq![path],
    }
}

/// The parent of a path is shorter than the path.
pub proof fn lemma_parent_shorter(path: Seq<char>)
    ensures
        parent_of(path) is Some ==> parent_of(path)->0.len() < path.len(),
{
    lemma_last_index_of(path, '/');
}

/// What follows a path in the list of its ancestors is the list of the
/// ancestors of its parent, and so on upwards: from any place on, the list
/// is the list of the ancestors of the path at that place.
pub proof fn lemma_ancestors_suffix(path: Seq<char>, k: int)
    requires
        0 <= k < ancestors_of(path).len(),
    ensures
        ancestors_of(path).subrange(k, ancestors_of(path).len() as int) == ancestors_of(
            ancestors_of(path)[k],
        ),
    decreases path.len(),
{
    let all = ancestors_of(path);
    lemma_parent_shorter(path);
    if k == 0 {
        assert(all.subrange(0, all.len() as int) =~= all);
    } else {
        let p = parent_of(path)->0;
        let rest = ancestors_of(p);
        assert(all =~= seq![path] + rest);
        lemma_ancestors_suffix(p, k - 1);
        assert(all.subrange(k, all.len() as int) =~= rest.subrange(k - 1, rest.len() as int));
        assert(all[k] == rest[k - 1]);
    }
}

/// The last component of a path: what follows its last `/`.
pub open spec fn file_name_of(path: Seq<char>) -> Seq<char> {
    path.subrange(last_index_of(path, '/') + 1, path.len() as int)
}

/// The name of the binary of the contract `contract_name`.
pub open spec fn wasm_file_name_of(contract_name: Seq<char>) -> Seq<char> {
    contract_name + ".wasm"@
}

/// The directory that receives the binaries of the project at `root`.
pub open spec fn wasm_dir_of(root: Seq<char>) -> Seq<char> {
    joined_path(root, "wasm"@)
}

/// Where the binary of `contract_name` is placed under `root`.
pub open spec fn wasm_path_in_wasm_dir_of(contract_name: Seq<char>, root: Seq<char>) -> Seq<char> {
    joined_path(wasm_dir_of(root), wasm_file_name_of(contract_name))
}

/// Where the toolchain leaves the release binary of `contract_name` when it
/// builds under `root` into `target_dir`.
pub open spec fn wasm_path_in_target_of(
    contract_name: Seq<char>,
    root: Seq<char>,
    target_dir: Seq<char>,
) -> Seq<char> {
    joined_path(
        joined_path(root, target_dir + "/"@ + WASM_TARGET@ + "/release"@),
        wasm_file_name_of(contract_name),
    )
}

/// `s` without the whitespace at its start.
pub open spec fn trimmed_start(s: Seq<char>) -> Seq<char>
    decreases s.len(),
{
    if s.len() > 0 && crate::text::is_whitespace_char(s[0]) {
        trimmed_start(s.subrange(1, s.len() as int))
    } else {
        s
    }
}

/// The text between the first `=` of `output` and the next one (or the
/// end).
pub open spec fn second_assignment_piece(output: Seq<char>) -> Seq<char> {
    let a = crate::text::run_len(output, '=');
    let rest = output.subrange(a + 1, output.len() as int);
    rest.subrange(0, crate::text::run_len(rest, '='))
}

/// The target directory that `output`, the answer of the toolchain to a
/// query for `build.target-dir`, names: what follows the first `=`, without
/// the whitespace around it and without quotes; `target` where there is no
/// answer or no `=` in it.
pub open spec fn build_target_dir_of(output: Option<Seq<char>>) -> Seq<char> {
    match output {
        None => "target"@,
        Some(text) => if crate::text::run_len(text, '=') >= text.len() {
            "target"@
        } else {
            replaced(
                trimmed_end(trimmed_start(second_assignment_piece(text))),
                seq!['"'],
                Seq::<char>::empty(),
            )
        },
    }
}

/// A way of writing a name made of several words.
#[derive(Clone, Copy, Debug, PartialEq, Eq, Structural)]
pub enum TextCase {
    /// Every word in small letters, an underscore between the words.
    Snake,
    /// Every word capitalized, nothing between the words.
    UpperCamel,
    /// Every word in small letters, a space between the words.
    Lower,
}

/// A place where a word would end by default, and does not where it is
/// named.
#[derive(Clone, Copy, Debug, PartialEq, Eq, Structural)]
pub enum Joint {
    /// Between a capital letter and a following digit.
    UpperDigit,
    /// Between a small letter and a following digit.
    LowerDigit,
}

/// What `convert_case` makes of `text` in the case `case`, with its
/// default word boundaries less those of `joints`.
pub uninterp spec fn converted(text: Seq<char>, case: TextCase, joints: Seq<Joint>) -> Seq<char>;

/// The joints of names as this crate writes them: a digit after a letter
/// starts no word.
pub open spec fn letter_digit_joints() -> Seq<Joint> {
    seq![Joint::UpperDigit, Joint::LowerDigit]
}

/// `text` in snake case, where a digit after a letter starts no word.
pub open spec fn snake_case_of(text: Seq<char>) -> Seq<char> {
    converted(text, TextCase::Snake, letter_digit_joints())
}

/// `text` in upper camel case, where a digit after a letter starts no
/// word.
pub open spec fn camel_case_of(text: Seq<char>) -> Seq<char> {
    converted(text, TextCase::UpperCamel, letter_digit_joints())
}

/// `text` in the case `case`, with the default word boundaries.
pub open spec fn case_of(text: Seq<char>, case: TextCase) -> Seq<char> {
    converted(text, case, Seq::<Joint>::empty())
}

/// `tail` adjoined to `base`.
pub fn join(base: &str, tail: &str) -> (r: String)
    ensures
        r@ == joined_path(base@, tail@),
{
    let t = chars_of(tail);
    let b = chars_of(base);
    if t.len() > 0 && t[0] == '/' {
        String::from_str(tail)
    } else if b.len() == 0 {
        String::from_str(tail)
    } else if b[b.len() - 1] == '/' {
        concat(base, tail)
    } else {
        proof {
            reveal_strlit("/");
            assert("/"@ =~= seq!['/']);
        }
        concat3(base, "/", tail)
    }
}

/// The path without its last component.
pub fn parent(path: &str) -> (r: Option<String>)
    ensures
        r.deep_view() == parent_of(path@),
{
    let v = chars_of(path);
    if v.len() == 0 {
        return None;
    }
    proof {
        lemma_last_index_of(path@, '/');
    }
    match last_index(&v, '/') {
        None => Some(String::new()),
        Some(i) => {
            if i == 0 {
                if v.len() == 1 {
                    None
                } else {
                    proof {
                        reveal_strlit("/");
                        assert("/"@ =~= seq!['/']);
                    }
                    Some(String::from_str("/"))
                }
            } else {
                Some(String::from_str(path.substring_char(0, i)))
            }
        },
    }
}

/// A path and then each of its ancestors, nearest first.
pub fn ancestors(path: &str) -> (r: Vec<String>)
    ensures
        r.deep_view() == ancestors_of(path@),
{
    let mut out: Vec<String> = Vec::new();
    let mut current = String::from_str(path);
    assert(out.deep_view() =~= Seq::<Seq<char>>::empty());
    assert(out.deep_view() + ancestors_of(current@) =~= ancestors_of(path@));
    loop
        invariant
            out.deep_view() + ancestors_of(current@) == ancestors_of(path@),
        decreases current@.len(),
    {
        let ghost before = out.deep_view();
        proof {
            lemma_parent_shorter(current@);
        }
        let up = parent(current.as_str());
        out.push(current.clone());
        assert(out.deep_view() =~= before.push(current@));
        match up {
            None => {
                assert(out.deep_view() =~= before + ancestors_of(current@));
                return out;
            },
            Some(p) => {
                assert(before.push(current@) + ancestors_of(p@) =~= before + (seq![current@]
                    + ancestors_of(p@)));
                current = p;
            },
        }
    }
}

/// The last component of a path.
pub fn file_name(path: &str) -> (r: String)
    ensures
        r@ == file_name_of(path@),
{
    let v = chars_of(path);
    let n = v.len();
    proof {
        lemma_last_index_of(path@, '/');
    }
    match last_index(&v, '/') {
        None => {
            assert(path@.subrange(0, n as int) =~= path@);
            String::from_str(path)
        },
        Some(i) => String::from_str(path.substring_char(i + 1, n)),
    }
}

/// The name of the binary of the contract `contract_name`.
pub fn wasm_file_name(contract_name: &str) -> (r: String)
    ensures
        r@ == wasm_file_name_of(contract_name@),
{
    concat(contract_name, ".wasm")
}

/// The directory that receives the binaries of the project at
/// `project_root`.
pub fn wasm_dir(project_root: &str) -> (r: String)
    ensures
        r@ == wasm_dir_of(project_root@),
{
    join(project_root, "wasm")
}

/// Where the binary of `contract_name` is placed under `project_root`.
pub fn wasm_path_in_wasm_dir(contract_name: &str, project_root: &str) -> (r: String)
    ensures
        r@ == wasm_path_in_wasm_dir_of(contract_name@, project_root@),
{
    let dir = wasm_dir(project_root);
    let file = wasm_file_name(contract_name);
    join(dir.as_str(), file.as_str())
}

/// Where the toolchain leaves the release binary of `contract_name` when it
/// builds under `project_root` into `target_dir`.
pub fn wasm_path_in_target(contract_name: &str, project_root: &str, target_dir: &str) -> (r:
    String)
    ensures
        r@ == wasm_path_in_target_of(contract_name@, project_root@, target_dir@),
{
    let mut sub = String::from_str(target_dir);
    sub.append("/");
    sub.append(WASM_TARGET);
    sub.append("/release");
    let dir = join(project_root, sub.as_str());
    let file = wasm_file_name(contract_name);
    join(dir.as_str(), file.as_str())
}

/// `s` without the whitespace at its start.
pub fn trim_start(s: &str) -> (r: String)
    ensures
        r@ == trimmed_start(s@),
{
    let v = chars_of(s);
    let n = v.len();
    let mut i: usize = 0;
    assert(s@.subrange(0, n as int) =~= s@);
    while i < n && crate::text::is_whitespace(v[i])
        invariant
            v@ == s@,
            n == v@.len(),
            i <= n,
            trimmed_start(s@.subrange(i as int, n as int)) == trimmed_start(s@),
        decreases n - i,
    {
        proof {
            let t = s@.subrange(i as int, n as int);
            assert(t.subrange(1, t.len() as int) =~= s@.subrange(i + 1, n as int));
        }
        i = i + 1;
    }
    String::from_str(s.substring_char(i, n))
}

/// The offset of the first `sep` in `v` at or after `from`, or the length.
fn run_end(v: &Vec<char>, from: usize, sep: char) -> (r: usize)
    requires
        from <= v@.len(),
    ensures
        r == from + crate::text::run_len(v@.subrange(from as int, v@.len() as int), sep),
        from <= r <= v@.len(),
{
    let n = v.len();
    let mut j: usize = from;
    while j < n && v[j] != sep
        invariant
            n == v@.len(),
            from <= j <= n,
            crate::text::run_len(v@.subrange(from as int, n as int), sep) == (j - from)
                + crate::text::run_len(v@.subrange(j as int, n as int), sep),
        decreases n - j,
    {
        proof {
            let t = v@.subrange(j as int, n as int);
            assert(t.subrange(1, t.len() as int) =~= v@.subrange(j + 1, n as int));
        }
        j = j + 1;
    }
    j
}

/// The target directory named by the toolchain's answer to a query for
/// `build.target-dir`; `None` stands for a query that could not be run or
/// whose answer was not text.
pub fn get_build_target_dir(output: Option<&str>) -> (r: String)
    ensures
        r@ == build_target_dir_of(output.deep_view()),
{
    match output {
        None => String::from_str("target"),
        Some(text) => {
            let v = chars_of(text);
            let n = v.len();
            assert(v@.subrange(0, n as int) =~= v@);
            let a = run_end(&v, 0, '=');
            if a >= n {
                String::from_str("target")
            } else {
                let b = run_end(&v, a + 1, '=');
                let piece = text.substring_char(a + 1, b);
                proof {
                    let rest = text@.subrange(a + 1, n as int);
                    assert(rest.subrange(0, b - (a + 1)) =~= text@.subrange(a + 1, b as int));
                }
                let left = trim_start(piece);
                let both = trim_end(left.as_str());
                proof {
                    reveal_strlit("\"");
                    reveal_strlit("");
                    assert("\""@ =~= seq!['"']);
                    assert(""@ =~= Seq::<char>::empty());
                }
                replace_all(both.as_str(), "\"", "")
            }
        },
    }
}

/// `text` in the case `case`. The conversion is `convert_case`'s: this
/// function hands `text` to `Casing::with_boundaries` with the crate's
/// default boundaries, takes those of `joints` out again with
/// `StateConverter::without_boundaries`, and lets `StateConverter::to_case`
/// convert. It says only that what comes back is what that crate makes of
/// the three.
#[verifier::external_body]
pub(crate) fn convert(text: &str, case: TextCase, joints: &Vec<Joint>) -> (r: String)
    ensures
        r@ == converted(text@, case, joints@),
{
    let removed: Vec<Boundary> = joints.iter().map(|j| match j {
        Joint::UpperDigit => Boundary::UpperDigit,
        Joint::LowerDigit => Boundary::LowerDigit,
    }).collect();
    text.with_boundaries(&Boundary::defaults()).without_boundaries(&removed).to_case(match case {
        TextCase::Snake => Case::Snake,
        TextCase::UpperCamel => Case::UpperCamel,
        TextCase::Lower => Case::Lower,
    })
}

/// The joints of names as this crate writes them.
fn name_joints() -> (r: Vec<Joint>)
    ensures
        r@ == letter_digit_joints(),
{
    let mut joints: Vec<Joint> = Vec::new();
    joints.push(Joint::UpperDigit);
    joints.push(Joint::LowerDigit);
    assert(joints@ =~= letter_digit_joints());
    joints
}

/// `text` in the case `case`, with the default word boundaries.
pub fn to_case(text: &str, case: TextCase) -> (r: String)
    ensures
        r@ == case_of(text@, case),
{
    let joints: Vec<Joint> = Vec::new();
    assert(joints@ =~= Seq::<Joint>::empty());
    convert(text, case, &joints)
}

/// `text` in snake case, where a digit after a letter starts no word.
pub fn to_snake_case(text: &str) -> (r: String)
    ensures
        r@ == snake_case_of(text@),
{
    convert(text, TextCase::Snake, &name_joints())
}

/// `text` in upper camel case, where a digit after a letter starts no
/// word.
pub fn to_camel_case(text: &str) -> (r: String)
    ensures
        r@ == camel_case_of(text@),
{
    convert(text, TextCase::UpperCamel, &name_joints())
}

} // verus!
