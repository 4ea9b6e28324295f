//! Path derivations: joining, extensions, and the name rules that
//! turn package and repository names into on-disk names.

use vstd::prelude::*;
use vstd::string::StrSliceExecFns;
use vstd::string::StringExecFns;

use crate::bundle::SourceSection;

verus! {

/// `base` and `rel` joined with a single separator.
pub open spec fn spec_join(base: Seq<char>, rel: Seq<char>) -> Seq<char> {
    base + seq!['/'] + rel
}

/// Joins a base path and a relative path with a separator.
pub fn path_join(base: &str, rel: &str) -> (r: String)
    ensures
        r@ == spec_join(base@, rel@),
{
    let mut s = String::from_str(base);
    s.append("/");
    s.append(rel);
    proof {
        reveal_strlit("/");
        assert(s@ =~= spec_join(base@, rel@));
    }
    s
}

/// `path` with `extension` appended after a dot; a path that already
/// carries an extension keeps it and gains the new one after it.
pub fn add_extension(path: &str, extension: &str) -> (r: String)
    ensures
        r@ == path@ + seq!['.'] + extension@,
{
    let mut s = String::from_str(path);
    s.append(".");
    s.append(extension);
    proof {
        reveal_strlit(".");
        assert(s@ =~= path@ + seq!['.'] + extension@);
    }
    s
}

/// The suffix after the last separator; the whole sequence when no
/// separator occurs.
pub open spec fn after_last_slash(s: Seq<char>) -> Seq<char>
    decreases s.len(),
{
    if s.len() == 0 {
        s
    } else if s.last() == '/' {
        Seq::empty()
    } else {
        after_last_slash(s.drop_last()).push(s.last())
    }
}

/// The last path segment: everything after the final separator.
pub fn tail_after_last_slash(s: &str) -> (r: String)
    ensures
        r@ == after_last_slash(s@),
{
    let len = s.unicode_len();
    let mut acc = String::new();
    let mut i: usize = 0;
    while i < len
        invariant
            len == s@.len(),
            i <= len,
            acc@ == after_last_slash(s@.take(i as int)),
        decreases len - i,
    {
        let c = s.get_char(i);
        if c == '/' {
            acc = String::new();
        } else {
            acc.push(c);
        }
        proof {
            assert(s@.take(i + 1).drop_last() =~= s@.take(i as int));
        }
        i += 1;
    }
    proof {
        assert(s@.take(len as int) =~= s@);
    }
    acc
}

/// The prefix before the first dot; the whole sequence when no dot
/// occurs.
pub open spec fn before_first_dot(s: Seq<char>) -> Seq<char>
    decreases s.len(),
{
    if s.len() == 0 {
        s
    } else if s[0] == '.' {
        Seq::empty()
    } else {
        seq![s[0]] + before_first_dot(s.skip(1))
    }
}

proof fn lemma_before_first_dot(s: Seq<char>, i: int)
    requires
        0 <= i <= s.len(),
        forall|j: int| 0 <= j < i ==> s[j] != '.',
        i < s.len() ==> s[i] == '.',
    ensures
        before_first_dot(s) == s.take(i),
    decreases i,
{
    if s.len() == 0 {
        assert(s.take(i) =~= s);
    } else if i == 0 {
        if s.len() > 0 {
            assert(s[0] == '.');
        }
        assert(s.take(0) =~= Seq::<char>::empty());
    } else {
        lemma_before_first_dot(s.skip(1), i - 1);
        assert(s.skip(1).take(i - 1) =~= s.take(i).skip(1));
        assert(before_first_dot(s) == seq![s[0]] + s.skip(1).take(i - 1));
        assert(seq![s[0]] + s.take(i).skip(1) =~= s.take(i));
    }
}

/// The prefix of `s` up to but not past the first dot.
pub fn head_before_first_dot(s: &str) -> (r: String)
    ensures
        r@ == before_first_dot(s@),
{
    let len = s.unicode_len();
    let mut acc = String::new();
    let mut i: usize = 0;
    while i < len
        invariant
            len == s@.len(),
            i <= len,
            acc@ == s@.take(i as int),
            forall|j: int| 0 <= j < i ==> s@[j] != '.',
        decreases len - i,
    {
        let c = s.get_char(i);
        if c == '.' {
            proof {
                lemma_before_first_dot(s@, i as int);
            }
            return acc;
        }
        acc.push(c);
        proof {
            assert(s@.take(i + 1) =~= s@.take(i as int).push(s@[i as int]));
        }
        i += 1;
    }
    proof {
        lemma_before_first_dot(s@, len as int);
        assert(s@.take(len as int) =~= s@);
    }
    acc
}

/// The package or section name with every `/` replaced by `_`.
pub open spec fn spec_underscored(s: Seq<char>) -> Seq<char> {
    crate::strutil::spec_replace_char(s, '/', '_')
}

/// The name of the directory a source section unpacks into: the
/// section name when one is set, else the package name, with every
/// `/` replaced by `_`.
pub fn derive_source_name(package_name: String, src: &SourceSection) -> (r: String)
    ensures
        r@ == match src.name {
            Some(n) => spec_underscored(n@),
            None => spec_underscored(package_name@),
        },
{
    match &src.name {
        Some(name) => crate::strutil::replace_char(name.as_str(), '/', '_'),
        None => crate::strutil::replace_char(package_name.as_str(), '/', '_'),
    }
}

/// `s` without one leading separator, as an install prefix is joined
/// below the prototype root.
pub fn strip_leading_slash(s: &str) -> (r: String)
    ensures
        r@ == if s@.len() > 0 && s@[0] == '/' {
            s@.skip(1)
        } else {
            s@
        },
{
    let len = s.unicode_len();
    if len > 0 && s.get_char(0) == '/' {
        let r = s.substring_char(1, len);
        r.to_owned()
    } else {
        s.to_owned()
    }
}

} // verus!
