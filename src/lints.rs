use vstd::prelude::*;

use crate::input::{is_ident, Attribute, Meta, MetaPath, NestedMeta};
use crate::text::text_is;

verus! {

pub open spec fn allow_word() -> Seq<char> {
    seq!['a', 'l', 'l', 'o', 'w']
}

pub open spec fn deny_word() -> Seq<char> {
    seq!['d', 'e', 'n', 'y']
}

pub open spec fn forbid_word() -> Seq<char> {
    seq!['f', 'o', 'r', 'b', 'i', 'd']
}

pub open spec fn warn_word() -> Seq<char> {
    seq!['w', 'a', 'r', 'n']
}

pub open spec fn cfg_attr_word() -> Seq<char> {
    seq!['c', 'f', 'g', '_', 'a', 't', 't', 'r']
}

/// The path names one of the four lint levels.
pub open spec fn is_lint_path(p: MetaPath) -> bool {
    is_ident(p, allow_word()) || is_ident(p, deny_word()) || is_ident(p, forbid_word())
        || is_ident(p, warn_word())
}

/// `allow(..)`, `deny(..)`, `forbid(..)` or `warn(..)`.
pub open spec fn is_lint(m: Meta) -> bool {
    match m {
        Meta::List(p, _) => is_lint_path(p),
        _ => false,
    }
}

/// `cfg_attr(condition, level(..), ..)`: a `cfg_attr` of at least two arguments
/// whose second is a list headed by one of the four lint levels.
pub open spec fn is_cfg_attr_lint(m: Meta) -> bool {
    match m {
        Meta::List(p, nested) => is_ident(p, cfg_attr_word()) && nested@.len() >= 2 && match nested@[1] {
            NestedMeta::List(q) => is_lint_path(q),
            _ => false,
        },
        _ => false,
    }
}

/// An attribute that is carried over onto the generated function.
pub open spec fn is_lint_attr(a: Attribute) -> bool {
    match a.meta {
        Some(m) => is_lint(m) || is_cfg_attr_lint(m),
        None => false,
    }
}

/// Positions, in increasing order, of the lint attributes among the first `n`.
pub open spec fn lint_positions(attrs: Seq<Attribute>, n: int) -> Seq<usize>
    decreases n,
{
    if n <= 0 {
        seq![]
    } else if is_lint_attr(attrs[n - 1]) {
        lint_positions(attrs, n - 1).push((n - 1) as usize)
    } else {
        lint_positions(attrs, n - 1)
    }
}

fn path_is(p: &MetaPath, word: &str) -> (r: bool)
    ensures
        r == is_ident(*p, word@),
{
    !p.leading_colon && p.segments.len() == 1 && text_is(&p.segments[0], word)
}

fn lint_path(p: &MetaPath) -> (r: bool)
    ensures
        r == is_lint_path(*p),
{
    proof {
        reveal_strlit("allow");
        reveal_strlit("deny");
        reveal_strlit("forbid");
        reveal_strlit("warn");
    }
    let r = path_is(p, "allow") || path_is(p, "deny") || path_is(p, "forbid") || path_is(p, "warn");
    assert("allow"@ =~= allow_word());
    assert("deny"@ =~= deny_word());
    assert("forbid"@ =~= forbid_word());
    assert("warn"@ =~= warn_word());
    r
}

fn lint_meta(m: &Meta) -> (r: bool)
    ensures
        r == (is_lint(*m) || is_cfg_attr_lint(*m)),
{
    match m {
        Meta::List(p, nested) => {
            if lint_path(p) {
                return true;
            }
            proof {
                reveal_strlit("cfg_attr");
            }
            assert("cfg_attr"@ =~= cfg_attr_word());
            if path_is(p, "cfg_attr") && nested.len() >= 2 {
                match &nested[1] {
                    NestedMeta::List(q) => lint_path(q),
                    _ => false,
                }
            } else {
                false
            }
        },
        _ => false,
    }
}

/// The positions of the attributes to copy onto the generated function: the lint
/// levels `allow`, `deny`, `forbid`, `warn`, bare or as the second argument of a
/// `cfg_attr` (whatever follows it), in their original order. An attribute without structured form is
/// skipped.
pub fn collect_parent_lint_attrs(attrs: &Vec<Attribute>) -> (r: Vec<usize>)
    ensures
        r@ == lint_positions(attrs@, attrs@.len() as int),
{
    let mut r: Vec<usize> = Vec::new();
    let mut i: usize = 0;
    while i < attrs.len()
        invariant
            i <= attrs@.len(),
            r@ == lint_positions(attrs@, i as int),
        decreases attrs@.len() - i,
    {
        let keep = match &attrs[i].meta {
            Some(m) => lint_meta(m),
            None => false,
        };
        if keep {
            r.push(i);
        }
        i = i + 1;
    }
    r
}

} // verus!
