//! The builder: assembles the environment, options and command lines
//! that drive the configure, compile and install steps, and plans
//! the script-driven build.  The unverified binary spawns the tools
//! with exactly what is assembled here.

use vstd::prelude::*;
use vstd::string::StrSliceExecFns;
use vstd::string::StringExecFns;

use crate::bundle::{BuildFlagNode, BuildOptionNode, InstallDirectiveNode};
use crate::paths::spec_join;
use crate::strutil::str_eq;

verus! {

/// What can go wrong while assembling a build.
#[derive(Debug, Clone, PartialEq)]
pub enum BuildError {
    /// A flag value names a variable the environment does not hold.
    UnknownVariable(String),
    /// A flag value with an unterminated `${` reference.
    UnterminatedReference(String),
    /// Neither a make nor a ninja driver file is present.
    NoBuildToolFound,
}

/// The build driver detected in the build directory.
#[derive(Debug, Clone, Copy, PartialEq, Eq, Structural)]
pub enum BuildTool {
    Make,
    Ninja,
}

impl BuildTool {
    /// The name the driver is invoked by.
    pub fn to_string(&self) -> (r: String)
        ensures
            r@ == match *self {
                BuildTool::Make => "make"@,
                BuildTool::Ninja => "ninja"@,
            },
    {
        match self {
            BuildTool::Make => String::from_str("make"),
            BuildTool::Ninja => String::from_str("ninja"),
        }
    }
}

/// Which driver runs the compile: a makefile selects make, a ninja
/// file selects ninja, and nothing is an error.
pub fn detect_build_tool(has_makefile: bool, has_ninja: bool) -> (r: Result<BuildTool, BuildError>)
    ensures
        match r {
            Ok(t) => t == (if has_makefile {
                BuildTool::Make
            } else {
                BuildTool::Ninja
            }) && (has_makefile || has_ninja),
            Err(e) => !has_makefile && !has_ninja && e == BuildError::NoBuildToolFound,
        },
{
    if has_makefile {
        Ok(BuildTool::Make)
    } else if has_ninja {
        Ok(BuildTool::Ninja)
    } else {
        Err(BuildError::NoBuildToolFound)
    }
}

/// The key–value pairs of an environment, by character content.
pub open spec fn env_view(e: Seq<(String, String)>) -> Seq<(Seq<char>, Seq<char>)> {
    e.map_values(|p: (String, String)| (p.0@, p.1@))
}

/// The value of the first pair carrying the key.
pub open spec fn pairs_lookup(e: Seq<(Seq<char>, Seq<char>)>, k: Seq<char>) -> Option<Seq<char>>
    decreases e.len(),
{
    if e.len() == 0 {
        None
    } else if e[0].0 == k {
        Some(e[0].1)
    } else {
        pairs_lookup(e.skip(1), k)
    }
}

/// The environment after a flag value lands on a key: an existing
/// entry grows by a space and the value, a missing one is created.
pub open spec fn sp_append(
    e: Seq<(Seq<char>, Seq<char>)>,
    k: Seq<char>,
    v: Seq<char>,
) -> Seq<(Seq<char>, Seq<char>)>
    decreases e.len(),
{
    if e.len() == 0 {
        seq![(k, v)]
    } else if e[0].0 == k {
        seq![(k, e[0].1 + seq![' '] + v)] + e.skip(1)
    } else {
        seq![e[0]] + sp_append(e.skip(1), k, v)
    }
}

/// The environment after a plain insert: an existing entry is
/// overwritten, a missing one is created.
pub open spec fn sp_set(
    e: Seq<(Seq<char>, Seq<char>)>,
    k: Seq<char>,
    v: Seq<char>,
) -> Seq<(Seq<char>, Seq<char>)>
    decreases e.len(),
{
    if e.len() == 0 {
        seq![(k, v)]
    } else if e[0].0 == k {
        seq![(k, v)] + e.skip(1)
    } else {
        seq![e[0]] + sp_set(e.skip(1), k, v)
    }
}

proof fn lemma_sp_append_split(e: Seq<(Seq<char>, Seq<char>)>, k: Seq<char>, v: Seq<char>, i: int)
    requires
        0 <= i <= e.len(),
        forall|j: int| 0 <= j < i ==> (#[trigger] e[j]).0 != k,
    ensures
        sp_append(e, k, v) == e.take(i) + sp_append(e.skip(i), k, v),
    decreases i,
{
    if i == 0 {
        assert(e.take(0) + sp_append(e.skip(0), k, v) =~= sp_append(e.skip(0), k, v));
        assert(e.skip(0) =~= e);
    } else {
        lemma_sp_append_split(e, k, v, i - 1);
        assert(e.skip(i - 1)[0] == e[i - 1]);
        assert(e.skip(i - 1).skip(1) =~= e.skip(i));
        assert(sp_append(e.skip(i - 1), k, v) == seq![e[i - 1]] + sp_append(e.skip(i), k, v));
        assert(e.take(i - 1) + (seq![e[i - 1]] + sp_append(e.skip(i), k, v)) =~= e.take(i)
            + sp_append(e.skip(i), k, v));
    }
}

proof fn lemma_sp_set_split(e: Seq<(Seq<char>, Seq<char>)>, k: Seq<char>, v: Seq<char>, i: int)
    requires
        0 <= i <= e.len(),
        forall|j: int| 0 <= j < i ==> (#[trigger] e[j]).0 != k,
    ensures
        sp_set(e, k, v) == e.take(i) + sp_set(e.skip(i), k, v),
    decreases i,
{
    if i == 0 {
        assert(e.take(0) + sp_set(e.skip(0), k, v) =~= sp_set(e.skip(0), k, v));
        assert(e.skip(0) =~= e);
    } else {
        lemma_sp_set_split(e, k, v, i - 1);
        assert(e.skip(i - 1)[0] == e[i - 1]);
        assert(e.skip(i - 1).skip(1) =~= e.skip(i));
        assert(sp_set(e.skip(i - 1), k, v) == seq![e[i - 1]] + sp_set(e.skip(i), k, v));
        assert(e.take(i - 1) + (seq![e[i - 1]] + sp_set(e.skip(i), k, v)) =~= e.take(i) + sp_set(
            e.skip(i),
            k,
            v,
        ));
    }
}

/// Appends a flag value to the named variable, space-separated.
pub fn env_append(env: &mut Vec<(String, String)>, key: &str, value: &str)
    ensures
        env_view(final(env)@) == sp_append(env_view(old(env)@), key@, value@),
{
    let ghost e0 = env_view(env@);
    let mut i: usize = 0;
    while i < env.len()
        invariant
            i <= env@.len(),
            env_view(env@) == e0,
            e0 == env_view(old(env)@),
            env@.len() == e0.len(),
            forall|j: int| 0 <= j < i ==> (#[trigger] e0[j]).0 != key@,
        decreases env@.len() - i,
    {
        if str_eq(env[i].0.as_str(), key) {
            let ghost vold = env@;
            let pair = env.remove(i);
            let mut val = pair.1;
            val.append(" ");
            val.append(value);
            env.insert(i, (pair.0, val));
            proof {
                reveal_strlit(" ");
                lemma_sp_append_split(e0, key@, value@, i as int);
                assert(e0.skip(i as int)[0] == e0[i as int]);
                assert(e0.skip(i as int).skip(1) =~= e0.skip(i + 1));
                assert(sp_append(e0.skip(i as int), key@, value@) == seq![
                    (key@, e0[i as int].1 + seq![' '] + value@),
                ] + e0.skip(i + 1));
                assert(env@ =~= vold.take(i as int) + seq![(pair.0, val)] + vold.skip(i + 1));
                assert(" "@ =~= seq![' ']);
                assert(val@ == e0[i as int].1 + seq![' '] + value@);
                let ghost target = e0.take(i as int) + (seq![
                    (key@, e0[i as int].1 + seq![' '] + value@),
                ] + e0.skip(i + 1));
                assert forall|j: int| 0 <= j < env@.len() implies env_view(env@)[j] == target[j] by {
                    assert(env_view(env@)[j] == (env@[j].0@, env@[j].1@));
                    assert(e0[j] == (vold[j].0@, vold[j].1@));
                    if j < i as int {
                        assert(env@[j] == vold[j]);
                    } else if j == i as int {
                        assert(env@[j] == (pair.0, val));
                    } else {
                        assert(env@[j] == vold[j]);
                    }
                }
                assert(env_view(env@) =~= target);
            }
            return ;
        }
        i += 1;
    }
    env.push((String::from_str(key), String::from_str(value)));
    proof {
        lemma_sp_append_split(e0, key@, value@, e0.len() as int);
        assert(e0.skip(e0.len() as int) =~= Seq::<(Seq<char>, Seq<char>)>::empty());
        assert(env_view(env@) =~= e0.take(e0.len() as int) + seq![(key@, value@)]);
    }
}

/// Sets a variable, overwriting any existing entry.
pub fn env_set(env: &mut Vec<(String, String)>, key: &str, value: &str)
    ensures
        env_view(final(env)@) == sp_set(env_view(old(env)@), key@, value@),
{
    let ghost e0 = env_view(env@);
    let mut i: usize = 0;
    while i < env.len()
        invariant
            i <= env@.len(),
            env_view(env@) == e0,
            e0 == env_view(old(env)@),
            env@.len() == e0.len(),
            forall|j: int| 0 <= j < i ==> (#[trigger] e0[j]).0 != key@,
        decreases env@.len() - i,
    {
        if str_eq(env[i].0.as_str(), key) {
            let ghost vold = env@;
            let pair = env.remove(i);
            let newval = String::from_str(value);
            env.insert(i, (pair.0, newval));
            proof {
                lemma_sp_set_split(e0, key@, value@, i as int);
                assert(e0.skip(i as int)[0] == e0[i as int]);
                assert(e0.skip(i as int).skip(1) =~= e0.skip(i + 1));
                assert(sp_set(e0.skip(i as int), key@, value@) == seq![(key@, value@)] + e0.skip(
                    i + 1,
                ));
                assert(env@ =~= vold.take(i as int) + seq![(pair.0, newval)] + vold.skip(i + 1));
                let ghost target = e0.take(i as int) + (seq![(key@, value@)] + e0.skip(i + 1));
                assert forall|j: int| 0 <= j < env@.len() implies env_view(env@)[j] == target[j] by {
                    assert(env_view(env@)[j] == (env@[j].0@, env@[j].1@));
                    assert(e0[j] == (vold[j].0@, vold[j].1@));
                    if j < i as int {
                        assert(env@[j] == vold[j]);
                    } else if j == i as int {
                        assert(env@[j] == (pair.0, newval));
                    } else {
                        assert(env@[j] == vold[j]);
                    }
                }
                assert(env_view(env@) =~= target);
            }
            return ;
        }
        i += 1;
    }
    env.push((String::from_str(key), String::from_str(value)));
    proof {
        lemma_sp_set_split(e0, key@, value@, e0.len() as int);
        assert(e0.skip(e0.len() as int) =~= Seq::<(Seq<char>, Seq<char>)>::empty());
        assert(env_view(env@) =~= e0.take(e0.len() as int) + seq![(key@, value@)]);
    }
}

// ---------------------------------------------------------------
// Variable expansion in flag values
// ---------------------------------------------------------------
/// A character a variable name may hold.
pub open spec fn is_var_char(c: char) -> bool {
    ||| ('a' <= c && c <= 'z')
    ||| ('A' <= c && c <= 'Z')
    ||| ('0' <= c && c <= '9')
    ||| c == '_'
}

/// The first position at or past `i` that is no variable character.
pub open spec fn var_run_end(s: Seq<char>, i: int) -> int
    decreases s.len() - i,
{
    if i < 0 || i >= s.len() {
        i
    } else if is_var_char(s[i]) {
        var_run_end(s, i + 1)
    } else {
        i
    }
}

/// The first closing brace at or past `i`.
pub open spec fn spec_find_close(s: Seq<char>, i: int) -> Option<int>
    decreases s.len() - i,
{
    if i < 0 || i >= s.len() {
        None
    } else if s[i] == '}' {
        Some(i)
    } else {
        spec_find_close(s, i + 1)
    }
}

pub open spec fn opt_prepend(p: Seq<char>, r: Option<Seq<char>>) -> Option<Seq<char>> {
    match r {
        Some(x) => Some(p + x),
        None => None,
    }
}

/// The expansion of `s` from position `i` on: `$NAME` and `${NAME}`
/// references are replaced by the named value; a reference to a
/// variable the environment does not hold, or an unterminated
/// `${`, fails; a `$` followed by no name stays itself.
pub open spec fn spec_expand_at(
    s: Seq<char>,
    env: Seq<(Seq<char>, Seq<char>)>,
    i: int,
) -> Option<Seq<char>>
    decreases s.len() - i,
{
    if i < 0 || i >= s.len() {
        Some(Seq::empty())
    } else if s[i] != '$' {
        opt_prepend(seq![s[i]], spec_expand_at(s, env, i + 1))
    } else if i + 1 < s.len() && s[i + 1] == '{' {
        match spec_find_close(s, i + 2) {
            Some(ci) => if i + 2 <= ci && ci < s.len() {
                match pairs_lookup(env, s.subrange(i + 2, ci)) {
                    Some(v) => opt_prepend(v, spec_expand_at(s, env, ci + 1)),
                    None => None,
                }
            } else {
                None
            },
            None => None,
        }
    } else {
        let e = var_run_end(s, i + 1);
        if e == i + 1 {
            opt_prepend(seq!['$'], spec_expand_at(s, env, i + 1))
        } else if i + 1 <= e && e <= s.len() {
            match pairs_lookup(env, s.subrange(i + 1, e)) {
                Some(v) => opt_prepend(v, spec_expand_at(s, env, e)),
                None => None,
            }
        } else {
            None
        }
    }
}

/// The expansion of a whole flag value.
pub open spec fn spec_expand(s: Seq<char>, env: Seq<(Seq<char>, Seq<char>)>) -> Option<Seq<char>> {
    spec_expand_at(s, env, 0)
}

/// Finds the first closing brace at or past `i`.
fn find_close(s: &str, i: usize) -> (r: Option<usize>)
    requires
        i <= s@.len(),
    ensures
        match r {
            Some(ci) => spec_find_close(s@, i as int) == Some(ci as int) && i <= ci < s@.len(),
            None => spec_find_close(s@, i as int) is None,
        },
{
    let len = s.unicode_len();
    let mut j = i;
    while j < len
        invariant
            i <= j <= len,
            len == s@.len(),
            spec_find_close(s@, i as int) == spec_find_close(s@, j as int),
        decreases len - j,
    {
        if s.get_char(j) == '}' {
            return Some(j);
        }
        j += 1;
    }
    None
}

/// Whether the character may stand in a variable name.
fn var_char(c: char) -> (r: bool)
    ensures
        r == is_var_char(c),
{
    ('a' <= c && c <= 'z') || ('A' <= c && c <= 'Z') || ('0' <= c && c <= '9') || c == '_'
}

/// Finds the end of the variable-name run starting at `i`.
fn run_end(s: &str, i: usize) -> (r: usize)
    requires
        i <= s@.len(),
    ensures
        var_run_end(s@, i as int) == r as int,
        i <= r <= s@.len(),
{
    let len = s.unicode_len();
    let mut j = i;
    while j < len
        invariant
            i <= j <= len,
            len == s@.len(),
            var_run_end(s@, i as int) == var_run_end(s@, j as int),
        decreases len - j,
    {
        if !var_char(s.get_char(j)) {
            return j;
        }
        j += 1;
    }
    len
}

/// Looks a name up among the expansion pairs, first match winning.
fn lookup_pair<'a>(env: &'a Vec<(String, String)>, name: &str) -> (r: Option<&'a String>)
    ensures
        match r {
            Some(v) => pairs_lookup(env_view(env@), name@) == Some(v@),
            None => pairs_lookup(env_view(env@), name@) is None,
        },
{
    let ghost e0 = env_view(env@);
    let mut i: usize = 0;
    proof {
        assert(e0.skip(0) =~= e0);
    }
    while i < env.len()
        invariant
            i <= env@.len(),
            e0 == env_view(env@),
            pairs_lookup(e0, name@) == pairs_lookup(e0.skip(i as int), name@),
        decreases env@.len() - i,
    {
        proof {
            assert(e0.skip(i as int)[0] == e0[i as int]);
            assert(e0.skip(i as int).skip(1) =~= e0.skip(i + 1));
        }
        if str_eq(env[i].0.as_str(), name) {
            return Some(&env[i].1);
        }
        i += 1;
    }
    proof {
        assert(e0.skip(e0.len() as int) =~= Seq::<(Seq<char>, Seq<char>)>::empty());
    }
    None
}

/// Expands the suffix of `value` from position `i` on.
fn expand_from(value: &str, i: usize, env: &Vec<(String, String)>) -> (r: Result<
    String,
    BuildError,
>)
    requires
        i <= value@.len(),
    ensures
        match r {
            Ok(out) => spec_expand_at(value@, env_view(env@), i as int) == Some(out@),
            Err(_) => spec_expand_at(value@, env_view(env@), i as int) is None,
        },
    decreases value@.len() - i,
{
    let len = value.unicode_len();
    if i >= len {
        return Ok(String::new());
    }
    let c = value.get_char(i);
    if c != '$' {
        let rest = match expand_from(value, i + 1, env) {
            Ok(x) => x,
            Err(e) => {
                return Err(e);
            },
        };
        let mut out = String::new();
        out.push(c);
        out.append(rest.as_str());
        return Ok(out);
    }
    if i + 1 < len && value.get_char(i + 1) == '{' {
        let ci = match find_close(value, i + 2) {
            Some(ci) => ci,
            None => {
                return Err(BuildError::UnterminatedReference(String::from_str(value)));
            },
        };
        let name = value.substring_char(i + 2, ci);
        let v = match lookup_pair(env, name) {
            Some(v) => v.clone(),
            None => {
                return Err(BuildError::UnknownVariable(name.to_owned()));
            },
        };
        let rest = match expand_from(value, ci + 1, env) {
            Ok(x) => x,
            Err(e) => {
                return Err(e);
            },
        };
        let mut out = v;
        out.append(rest.as_str());
        Ok(out)
    } else {
        let e = run_end(value, i + 1);
        if e == i + 1 {
            let rest = match expand_from(value, i + 1, env) {
                Ok(x) => x,
                Err(er) => {
                    return Err(er);
                },
            };
            let mut out = String::new();
            out.push('$');
            out.append(rest.as_str());
            return Ok(out);
        }
        let name = value.substring_char(i + 1, e);
        let v = match lookup_pair(env, name) {
            Some(v) => v.clone(),
            None => {
                return Err(BuildError::UnknownVariable(name.to_owned()));
            },
        };
        let rest = match expand_from(value, e, env) {
            Ok(x) => x,
            Err(er) => {
                return Err(er);
            },
        };
        let mut out = v;
        out.append(rest.as_str());
        Ok(out)
    }
}

/// Expands the `$NAME` and `${NAME}` references of a flag value
/// against the build environment file's pairs.
pub fn expand_env(value: &str, env: &Vec<(String, String)>) -> (r: Result<String, BuildError>)
    ensures
        match r {
            Ok(out) => spec_expand(value@, env_view(env@)) == Some(out@),
            Err(_) => spec_expand(value@, env_view(env@)) is None,
        },
{
    expand_from(value, 0, env)
}

// ---------------------------------------------------------------
// Assembling the configure, compile and install invocations
// ---------------------------------------------------------------
/// An ASCII letter folded to upper case; everything else unchanged.
pub open spec fn upper_char(c: char) -> char {
    if c == 'a' {
        'A'
    } else if c == 'b' {
        'B'
    } else if c == 'c' {
        'C'
    } else if c == 'd' {
        'D'
    } else if c == 'e' {
        'E'
    } else if c == 'f' {
        'F'
    } else if c == 'g' {
        'G'
    } else if c == 'h' {
        'H'
    } else if c == 'i' {
        'I'
    } else if c == 'j' {
        'J'
    } else if c == 'k' {
        'K'
    } else if c == 'l' {
        'L'
    } else if c == 'm' {
        'M'
    } else if c == 'n' {
        'N'
    } else if c == 'o' {
        'O'
    } else if c == 'p' {
        'P'
    } else if c == 'q' {
        'Q'
    } else if c == 'r' {
        'R'
    } else if c == 's' {
        'S'
    } else if c == 't' {
        'T'
    } else if c == 'u' {
        'U'
    } else if c == 'v' {
        'V'
    } else if c == 'w' {
        'W'
    } else if c == 'x' {
        'X'
    } else if c == 'y' {
        'Y'
    } else if c == 'z' {
        'Z'
    } else {
        c
    }
}

/// A name folded to upper case, ASCII letter by ASCII letter.
pub open spec fn spec_upper(s: Seq<char>) -> Seq<char> {
    s.map_values(|c: char| upper_char(c))
}

/// Folds a flag variable name to upper case.
pub fn ascii_upper(s: &str) -> (r: String)
    ensures
        r@ == spec_upper(s@),
{
    let len = s.unicode_len();
    let mut r = String::new();
    let mut i: usize = 0;
    while i < len
        invariant
            len == s@.len(),
            i <= len,
            r@ =~= spec_upper(s@.take(i as int)),
        decreases len - i,
    {
        let c = s.get_char(i);
        let up: char = if c == 'a' {
            'A'
        } else if c == 'b' {
            'B'
        } else if c == 'c' {
            'C'
        } else if c == 'd' {
            'D'
        } else if c == 'e' {
            'E'
        } else if c == 'f' {
            'F'
        } else if c == 'g' {
            'G'
        } else if c == 'h' {
            'H'
        } else if c == 'i' {
            'I'
        } else if c == 'j' {
            'J'
        } else if c == 'k' {
            'K'
        } else if c == 'l' {
            'L'
        } else if c == 'm' {
            'M'
        } else if c == 'n' {
            'N'
        } else if c == 'o' {
            'O'
        } else if c == 'p' {
            'P'
        } else if c == 'q' {
            'Q'
        } else if c == 'r' {
            'R'
        } else if c == 's' {
            'S'
        } else if c == 't' {
            'T'
        } else if c == 'u' {
            'U'
        } else if c == 'v' {
            'V'
        } else if c == 'w' {
            'W'
        } else if c == 'x' {
            'X'
        } else if c == 'y' {
            'Y'
        } else if c == 'z' {
            'Z'
        } else {
            c
        };
        r.push(up);
        proof {
            assert(s@.take(i + 1) =~= s@.take(i as int).push(s@[i as int]));
            assert(spec_upper(s@.take(i + 1)) =~= spec_upper(s@.take(i as int)).push(
                upper_char(s@[i as int]),
            ));
        }
        i += 1;
    }
    proof {
        assert(s@.take(len as int) =~= s@);
    }
    r
}

/// The environment after one flag lands: on its named variable, or
/// on the four standard flag variables when it names none.
pub open spec fn sp_apply_flag(
    e: Seq<(Seq<char>, Seq<char>)>,
    f: BuildFlagNode,
    v: Seq<char>,
) -> Seq<(Seq<char>, Seq<char>)> {
    match f.flag_name {
        Some(n) => sp_append(e, spec_upper(n@), v),
        None => sp_append(
            sp_append(sp_append(sp_append(e, "CFLAGS"@, v), "CXXFLAGS"@, v), "CPPFLAGS"@, v),
            "FFLAGS"@,
            v,
        ),
    }
}

/// The environment after every flag landed, values expanded against
/// the environment file's pairs; nothing when some value fails to
/// expand.
pub open spec fn sp_apply_flags(
    e: Seq<(Seq<char>, Seq<char>)>,
    flags: Seq<BuildFlagNode>,
    denv: Seq<(Seq<char>, Seq<char>)>,
) -> Option<Seq<(Seq<char>, Seq<char>)>>
    decreases flags.len(),
{
    if flags.len() == 0 {
        Some(e)
    } else {
        match spec_expand(flags[0].flag@, denv) {
            Some(v) => sp_apply_flags(sp_apply_flag(e, flags[0], v), flags.skip(1), denv),
            None => None,
        }
    }
}

/// Lands every flag on the environment, in order.
fn apply_flags(
    env: &mut Vec<(String, String)>,
    flags: &Vec<BuildFlagNode>,
    dotenv: &Vec<(String, String)>,
) -> (r: Result<(), BuildError>)
    ensures
        match r {
            Ok(_) => sp_apply_flags(env_view(old(env)@), flags@, env_view(dotenv@)) == Some(
                env_view(final(env)@),
            ),
            Err(_) => sp_apply_flags(env_view(old(env)@), flags@, env_view(dotenv@)) is None,
        },
{
    let ghost denv = env_view(dotenv@);
    let mut i: usize = 0;
    proof {
        assert(flags@.skip(0) =~= flags@);
    }
    while i < flags.len()
        invariant
            i <= flags@.len(),
            denv == env_view(dotenv@),
            sp_apply_flags(env_view(old(env)@), flags@, denv) == sp_apply_flags(
                env_view(env@),
                flags@.skip(i as int),
                denv,
            ),
        decreases flags@.len() - i,
    {
        let f = &flags[i];
        proof {
            assert(flags@.skip(i as int)[0] == flags@[i as int]);
            assert(flags@.skip(i as int).skip(1) =~= flags@.skip(i + 1));
        }
        let v = match expand_env(f.flag.as_str(), dotenv) {
            Ok(v) => v,
            Err(e) => {
                return Err(e);
            },
        };
        match &f.flag_name {
            Some(n) => {
                let upper = ascii_upper(n.as_str());
                env_append(env, upper.as_str(), v.as_str());
            },
            None => {
                env_append(env, "CFLAGS", v.as_str());
                env_append(env, "CXXFLAGS", v.as_str());
                env_append(env, "CPPFLAGS", v.as_str());
                env_append(env, "FFLAGS", v.as_str());
            },
        }
        i += 1;
    }
    proof {
        assert(flags@.skip(flags@.len() as int) =~= Seq::<BuildFlagNode>::empty());
    }
    Ok(())
}

/// The environment after a list of pairs is inserted in order, each
/// overwriting any earlier entry of its key.
pub open spec fn sp_set_all(
    e: Seq<(Seq<char>, Seq<char>)>,
    ps: Seq<(Seq<char>, Seq<char>)>,
) -> Seq<(Seq<char>, Seq<char>)>
    decreases ps.len(),
{
    if ps.len() == 0 {
        e
    } else {
        sp_set_all(sp_set(e, ps[0].0, ps[0].1), ps.skip(1))
    }
}

/// Inserts every pair into the environment, in order.
fn set_all(env: &mut Vec<(String, String)>, pairs: &Vec<(String, String)>)
    ensures
        env_view(final(env)@) == sp_set_all(env_view(old(env)@), env_view(pairs@)),
{
    let ghost ps = env_view(pairs@);
    let mut i: usize = 0;
    proof {
        assert(ps.skip(0) =~= ps);
    }
    while i < pairs.len()
        invariant
            i <= pairs@.len(),
            ps == env_view(pairs@),
            sp_set_all(env_view(old(env)@), ps) == sp_set_all(
                env_view(env@),
                ps.skip(i as int),
            ),
        decreases pairs@.len() - i,
    {
        proof {
            assert(ps.skip(i as int)[0] == ps[i as int]);
            assert(ps.skip(i as int).skip(1) =~= ps.skip(i + 1));
        }
        env_set(env, pairs[i].0.as_str(), pairs[i].1.as_str());
        i += 1;
    }
    proof {
        assert(ps.skip(ps.len() as int) =~= Seq::<(Seq<char>, Seq<char>)>::empty());
    }
}

/// The whole configure environment: starting from nothing, the tool
/// search path, then the environment file's pairs, then the flags,
/// then the staging root.
pub open spec fn sp_configure_env(
    search: Seq<Seq<char>>,
    dotenv: Seq<(Seq<char>, Seq<char>)>,
    flags: Seq<BuildFlagNode>,
    proto_dir: Seq<char>,
) -> Option<Seq<(Seq<char>, Seq<char>)>> {
    let e1 = seq![("PATH"@, crate::strutil::spec_join_sep(search, seq![':']))];
    let e2 = sp_set_all(e1, dotenv);
    match sp_apply_flags(e2, flags, dotenv) {
        Some(e3) => Some(sp_set(e3, "DESTDIR"@, proto_dir)),
        None => None,
    }
}

/// Assembles the environment the configure call runs in.
pub fn configure_environment(
    search_path: &Vec<String>,
    dotenv: &Vec<(String, String)>,
    flags: &Vec<BuildFlagNode>,
    proto_dir: &str,
) -> (r: Result<Vec<(String, String)>, BuildError>)
    ensures
        match r {
            Ok(env) => sp_configure_env(
                search_path@.map_values(|s: String| s@),
                env_view(dotenv@),
                flags@,
                proto_dir@,
            ) == Some(env_view(env@)),
            Err(_) => sp_configure_env(
                search_path@.map_values(|s: String| s@),
                env_view(dotenv@),
                flags@,
                proto_dir@,
            ) is None,
        },
{
    let mut env: Vec<(String, String)> = Vec::new();
    let joined = crate::strutil::join_strings(search_path, ":");
    env.push((String::from_str("PATH"), joined));
    proof {
        reveal_strlit(":");
        assert(":"@ =~= seq![':']);
        assert(env_view(env@) =~= seq![
            ("PATH"@, crate::strutil::spec_join_sep(search_path@.map_values(|s: String| s@), seq![':'])),
        ]);
    }
    set_all(&mut env, dotenv);
    match apply_flags(&mut env, flags, dotenv) {
        Ok(_) => {},
        Err(e) => {
            return Err(e);
        },
    }
    env_set(&mut env, "DESTDIR", proto_dir);
    Ok(env)
}

/// Assembles the argument list of the configure call: one `--opt`
/// for each declared option, the install prefix when one is set,
/// and the staging root as a trailing assignment.
pub fn configure_args(
    options: &Vec<BuildOptionNode>,
    prefix: &Option<String>,
    proto_dir: &str,
) -> (r: Vec<String>)
    ensures
        r@.len() == options@.len() + (if prefix is Some {
            1int
        } else {
            0int
        }) + 1,
        forall|i: int|
            0 <= i < options@.len() ==> (#[trigger] r@[i])@ == "--"@ + options@[i].option@,
        prefix matches Some(p) ==> r@[options@.len() as int]@ == "--prefix="@ + p@,
        r@[r@.len() - 1]@ == "DESTDIR="@ + proto_dir@,
{
    let mut args: Vec<String> = Vec::new();
    let mut i: usize = 0;
    while i < options.len()
        invariant
            i <= options@.len(),
            args@.len() == i,
            forall|j: int|
                0 <= j < i ==> (#[trigger] args@[j])@ == "--"@ + options@[j].option@,
        decreases options@.len() - i,
    {
        let mut a = String::from_str("--");
        a.append(options[i].option.as_str());
        args.push(a);
        i += 1;
    }
    match prefix {
        Some(p) => {
            let mut a = String::from_str("--prefix=");
            a.append(p.as_str());
            args.push(a);
        },
        None => {},
    }
    let mut d = String::from_str("DESTDIR=");
    d.append(proto_dir);
    args.push(d);
    args
}

/// The configure binary to invoke: the unpacked tree's script when
/// building out of tree, else the local one.
pub fn configure_binary(seperate_build_dir: bool, unpack_path: &str) -> (r: String)
    ensures
        r@ == if seperate_build_dir {
            spec_join(unpack_path@, "configure"@)
        } else {
            "./configure"@
        },
{
    if seperate_build_dir {
        crate::paths::path_join(unpack_path, "configure")
    } else {
        String::from_str("./configure")
    }
}

/// The directory the configure and compile steps run in: a fresh
/// `out` directory under the unpack path when building out of tree,
/// else the unpack path itself.
pub fn build_cwd(seperate_build_dir: bool, unpack_path: &str) -> (r: String)
    ensures
        r@ == if seperate_build_dir {
            spec_join(unpack_path@, "out"@)
        } else {
            unpack_path@
        },
{
    if seperate_build_dir {
        crate::paths::path_join(unpack_path, "out")
    } else {
        String::from_str(unpack_path)
    }
}

/// The environment of the compile step: the tool search path alone.
pub fn compile_environment(search_path: &Vec<String>) -> (r: Vec<(String, String)>)
    ensures
        r@.len() == 1,
        r@[0].0@ == "PATH"@,
        r@[0].1@ == crate::strutil::spec_join_sep(
            search_path@.map_values(|s: String| s@),
            seq![':'],
        ),
{
    let joined = crate::strutil::join_strings(search_path, ":");
    proof {
        reveal_strlit(":");
        assert(":"@ =~= seq![':']);
    }
    let mut env: Vec<(String, String)> = Vec::new();
    env.push((String::from_str("PATH"), joined));
    env
}

/// The environment and arguments of the install step: the
/// environment file's pairs plus the staging root, and the driver's
/// `install` target with the staging root repeated as an argument.
pub fn install_plan(dotenv: &Vec<(String, String)>, proto_dir: &str) -> (r: (
    Vec<(String, String)>,
    Vec<String>,
))
    ensures
        env_view(r.0@) == sp_set(
            sp_set_all(Seq::empty(), env_view(dotenv@)),
            "DESTDIR"@,
            proto_dir@,
        ),
        r.1@.len() == 2,
        r.1@[0]@ == "install"@,
        r.1@[1]@ == "DESTDIR="@ + proto_dir@,
{
    let mut env: Vec<(String, String)> = Vec::new();
    proof {
        assert(env_view(env@) =~= Seq::<(Seq<char>, Seq<char>)>::empty());
    }
    set_all(&mut env, dotenv);
    env_set(&mut env, "DESTDIR", proto_dir);
    let mut args: Vec<String> = Vec::new();
    args.push(String::from_str("install"));
    let mut d = String::from_str("DESTDIR=");
    d.append(proto_dir);
    args.push(d);
    (env, args)
}

// ---------------------------------------------------------------
// The script-driven build
// ---------------------------------------------------------------
/// The environment a build script runs with: the prototype root and
/// the unpack directory.
pub fn script_environment(proto_dir: &str, unpack_dir: &str) -> (r: Vec<(String, String)>)
    ensures
        r@.len() == 2,
        r@[0].0@ == "PROTO_DIR"@ && r@[0].1@ == proto_dir@,
        r@[1].0@ == "UNPACK_DIR"@ && r@[1].1@ == unpack_dir@,
{
    let mut env: Vec<(String, String)> = Vec::new();
    env.push((String::from_str("PROTO_DIR"), String::from_str(proto_dir)));
    env.push((String::from_str("UNPACK_DIR"), String::from_str(unpack_dir)));
    env
}

/// Where a script's staged prototype directory lands: below the
/// install prefix inside the prototype root when the package has
/// one, else the prototype root itself.
pub fn prototype_copy_target(prefix: &Option<String>, proto_dir: &str) -> (r: String)
    ensures
        r@ == match *prefix {
            Some(p) => spec_join(
                proto_dir@,
                if p@.len() > 0 && p@[0] == '/' {
                    p@.skip(1)
                } else {
                    p@
                },
            ),
            None => proto_dir@,
        },
{
    match prefix {
        Some(p) => {
            let stripped = crate::paths::strip_leading_slash(p.as_str());
            crate::paths::path_join(proto_dir, stripped.as_str())
        },
        None => String::from_str(proto_dir),
    }
}

/// Where an install directive's target lands inside the prototype
/// tree.
pub fn install_directive_target(
    prefix: &Option<String>,
    proto_dir: &str,
    target: &str,
) -> (r: String)
    ensures
        r@ == spec_join(
            match *prefix {
                Some(p) => spec_join(
                    proto_dir@,
                    if p@.len() > 0 && p@[0] == '/' {
                        p@.skip(1)
                    } else {
                        p@
                    },
                ),
                None => proto_dir@,
            },
            target@,
        ),
{
    let base = prototype_copy_target(prefix, proto_dir);
    crate::paths::path_join(base.as_str(), target)
}

/// How an install directive copies: a file list resolved by regular
/// expression or glob streams through rsync, anything else is a
/// plain tree copy.
#[derive(Debug, Clone, PartialEq)]
pub enum InstallCopyMode {
    RsyncPattern(String),
    RsyncMatch(String),
    DirCopy,
}

/// Picks the copy mode of an install directive: the regular
/// expression wins over the glob, and a bare directive copies the
/// tree.
pub fn install_copy_mode(d: &InstallDirectiveNode) -> (r: InstallCopyMode)
    ensures
        match d.pattern {
            Some(p) => r matches InstallCopyMode::RsyncPattern(s) && s@ == p@,
            None => match d.fmatch {
                Some(m) => r matches InstallCopyMode::RsyncMatch(s) && s@ == m@,
                None => r == InstallCopyMode::DirCopy,
            },
        },
{
    match &d.pattern {
        Some(p) => InstallCopyMode::RsyncPattern(p.clone()),
        None => match &d.fmatch {
            Some(m) => InstallCopyMode::RsyncMatch(m.clone()),
            None => InstallCopyMode::DirCopy,
        },
    }
}

/// The rsync invocation that copies a resolved file list.
pub fn rsync_args(list_file: &str, src: &str, dest: &str) -> (r: Vec<String>)
    ensures
        r@.len() == 4,
        r@[0]@ == "-avp"@,
        r@[1]@ == "--files-from="@ + list_file@,
        r@[2]@ == src@,
        r@[3]@ == dest@,
{
    let mut args: Vec<String> = Vec::new();
    args.push(String::from_str("-avp"));
    let mut ff = String::from_str("--files-from=");
    ff.append(list_file);
    args.push(ff);
    args.push(String::from_str(src));
    args.push(String::from_str(dest));
    args
}

} // verus!
