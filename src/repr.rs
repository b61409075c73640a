use vstd::prelude::*;

use crate::input::{is_ident, Attribute, Meta, MetaPath, NestedMeta};
use crate::text::text_is;

verus! {

/// Fixed-width integer types that an enum can declare as its representation.
///
/// The pointer-sized types are taken as 64 bits wide.
#[derive(Clone, Copy, Debug, PartialEq, Eq, Structural)]
pub enum Repr {
    U8,
    U16,
    U32,
    U64,
    Usize,
    I8,
    I16,
    I32,
    I64,
    Isize,
}

/// Why no conversion can be derived.
#[derive(Clone, Copy, Debug, PartialEq, Eq, Structural)]
pub enum DeriveError {
    /// The type is a struct.
    StructNotSupported,
    /// The type is a union.
    UnionNotSupported,
    /// The enum has no variants.
    NoVariants,
    /// The `repr` attribute at this position has no argument, or its first
    /// argument is not a path.
    MalformedRepr(usize),
    /// The `repr` attribute at this position names a type that is not an integer type.
    UnsupportedRepr(usize),
    /// The variant at this position has an explicit discriminant that is not an
    /// integer literal.
    NonIntegerDiscriminant(usize),
    /// The integer literal on the variant at this position does not parse as a `u64`.
    UnparsableDiscriminant(usize),
    /// The implicit discriminant of the variant at this position exceeds `u64::MAX`.
    DiscriminantOverflow(usize),
}

pub open spec fn repr_word() -> Seq<char> {
    seq!['r', 'e', 'p', 'r']
}

/// `repr(..)`.
pub open spec fn is_repr_attr(a: Attribute) -> bool {
    match a.meta {
        Some(Meta::List(p, _)) => is_ident(p, repr_word()),
        _ => false,
    }
}

/// The position of the last `repr` attribute among the first `n`.
pub open spec fn last_repr(attrs: Seq<Attribute>, n: int) -> Option<int>
    decreases n,
{
    if n <= 0 {
        None
    } else if is_repr_attr(attrs[n - 1]) {
        Some(n - 1)
    } else {
        last_repr(attrs, n - 1)
    }
}

/// The identifier that the last `repr` attribute names, if any.
///
/// Its first argument decides: a single bare identifier is the answer, and
/// anything else (no argument, a longer path, a list, a literal) is malformed.
pub open spec fn repr_ident(attrs: Seq<Attribute>) -> Result<Option<Seq<char>>, DeriveError> {
    match last_repr(attrs, attrs.len() as int) {
        None => Ok(None),
        Some(k) => {
            let nested = attrs[k].meta->Some_0->List_1@;
            if nested.len() == 0 {
                Err(DeriveError::MalformedRepr(k as usize))
            } else {
                match nested[0] {
                    NestedMeta::Path(p) => if !p.leading_colon && p.segments@.len() == 1 {
                        Ok(Some(p.segments@[0]@))
                    } else {
                        Err(DeriveError::MalformedRepr(k as usize))
                    },
                    _ => Err(DeriveError::MalformedRepr(k as usize)),
                }
            }
        },
    }
}

/// The integer type of the given name.
pub open spec fn repr_named(s: Seq<char>) -> Option<Repr> {
    if s == seq!['u', '8'] {
        Some(Repr::U8)
    } else if s == seq!['u', '1', '6'] {
        Some(Repr::U16)
    } else if s == seq!['u', '3', '2'] {
        Some(Repr::U32)
    } else if s == seq!['u', '6', '4'] {
        Some(Repr::U64)
    } else if s == seq!['u', 's', 'i', 'z', 'e'] {
        Some(Repr::Usize)
    } else if s == seq!['i', '8'] {
        Some(Repr::I8)
    } else if s == seq!['i', '1', '6'] {
        Some(Repr::I16)
    } else if s == seq!['i', '3', '2'] {
        Some(Repr::I32)
    } else if s == seq!['i', '6', '4'] {
        Some(Repr::I64)
    } else if s == seq!['i', 's', 'i', 'z', 'e'] {
        Some(Repr::Isize)
    } else {
        None
    }
}

/// The representation the conversion is made for: the declared one, or `usize`
/// where none is declared.
pub open spec fn resolved_repr(attrs: Seq<Attribute>) -> Result<Repr, DeriveError> {
    match repr_ident(attrs) {
        Err(e) => Err(e),
        Ok(None) => Ok(Repr::Usize),
        Ok(Some(s)) => match repr_named(s) {
            Some(r) => Ok(r),
            None => Err(DeriveError::UnsupportedRepr(last_repr(attrs, attrs.len() as int)->Some_0 as usize)),
        },
    }
}

/// `d` cast to a signed type of `m` values: two's complement wrap-around.
pub open spec fn wrap_signed(d: int, m: int) -> int {
    if d % m >= m / 2 {
        d % m - m
    } else {
        d % m
    }
}

/// The value that the discriminant `d` takes once cast to the representation.
pub open spec fn narrow(d: int, r: Repr) -> int {
    match r {
        Repr::U8 => d % 0x100,
        Repr::U16 => d % 0x1_0000,
        Repr::U32 => d % 0x1_0000_0000,
        Repr::U64 | Repr::Usize => d % 0x1_0000_0000_0000_0000,
        Repr::I8 => wrap_signed(d, 0x100),
        Repr::I16 => wrap_signed(d, 0x1_0000),
        Repr::I32 => wrap_signed(d, 0x1_0000_0000),
        Repr::I64 | Repr::Isize => wrap_signed(d, 0x1_0000_0000_0000_0000),
    }
}

fn path_ident(p: &MetaPath) -> (r: Option<String>)
    ensures
        match r {
            Some(s) => !p.leading_colon && p.segments@.len() == 1 && s@ == p.segments@[0]@,
            None => !(!p.leading_colon && p.segments@.len() == 1),
        },
{
    if !p.leading_colon && p.segments.len() == 1 {
        Some(p.segments[0].clone())
    } else {
        None
    }
}

fn repr_attr(a: &Attribute) -> (r: bool)
    ensures
        r == is_repr_attr(*a),
{
    proof {
        reveal_strlit("repr");
    }
    assert("repr"@ =~= repr_word());
    match &a.meta {
        Some(Meta::List(p, _)) => !p.leading_colon && p.segments.len() == 1 && text_is(&p.segments[0], "repr"),
        _ => false,
    }
}

/// The identifier named by the last `repr` attribute; `Ok(None)` where there is
/// none, and an error where its first argument is not a single bare identifier.
pub fn find_repr_attr(attrs: &Vec<Attribute>) -> (r: Result<Option<String>, DeriveError>)
    ensures
        match r {
            Ok(Some(s)) => repr_ident(attrs@) == Ok::<Option<Seq<char>>, DeriveError>(Some(s@)),
            Ok(None) => repr_ident(attrs@) == Ok::<Option<Seq<char>>, DeriveError>(None),
            Err(e) => repr_ident(attrs@) == Err::<Option<Seq<char>>, DeriveError>(e),
        },
{
    let mut i: usize = attrs.len();
    while i > 0
        invariant
            i <= attrs@.len(),
            last_repr(attrs@, i as int) == last_repr(attrs@, attrs@.len() as int),
        decreases i,
    {
        let k = i - 1;
        let found = if repr_attr(&attrs[k]) {
            match &attrs[k].meta {
                Some(Meta::List(_, nested)) => Some(nested),
                _ => None,
            }
        } else {
            None
        };
        match found {
            Some(nested) => {
                assert(last_repr(attrs@, i as int) == Some(k as int));
                if nested.len() == 0 {
                    return Err(DeriveError::MalformedRepr(k));
                }
                return match &nested[0] {
                    NestedMeta::Path(p) => match path_ident(p) {
                        Some(ident) => Ok(Some(ident)),
                        None => Err(DeriveError::MalformedRepr(k)),
                    },
                    _ => Err(DeriveError::MalformedRepr(k)),
                };
            },
            None => {},
        }
        i = k;
    }
    Ok(None)
}

/// The integer type named `ident`, or `None` where it names no integer type.
pub fn repr_from_ident(ident: &String) -> (r: Option<Repr>)
    ensures
        r == repr_named(ident@),
{
    proof {
        reveal_strlit("u8");
        reveal_strlit("u16");
        reveal_strlit("u32");
        reveal_strlit("u64");
        reveal_strlit("usize");
        reveal_strlit("i8");
        reveal_strlit("i16");
        reveal_strlit("i32");
        reveal_strlit("i64");
        reveal_strlit("isize");
    }
    assert("u8"@ =~= seq!['u', '8']);
    assert("u16"@ =~= seq!['u', '1', '6']);
    assert("u32"@ =~= seq!['u', '3', '2']);
    assert("u64"@ =~= seq!['u', '6', '4']);
    assert("usize"@ =~= seq!['u', 's', 'i', 'z', 'e']);
    assert("i8"@ =~= seq!['i', '8']);
    assert("i16"@ =~= seq!['i', '1', '6']);
    assert("i32"@ =~= seq!['i', '3', '2']);
    assert("i64"@ =~= seq!['i', '6', '4']);
    assert("isize"@ =~= seq!['i', 's', 'i', 'z', 'e']);
    if text_is(ident, "u8") {
        Some(Repr::U8)
    } else if text_is(ident, "u16") {
        Some(Repr::U16)
    } else if text_is(ident, "u32") {
        Some(Repr::U32)
    } else if text_is(ident, "u64") {
        Some(Repr::U64)
    } else if text_is(ident, "usize") {
        Some(Repr::Usize)
    } else if text_is(ident, "i8") {
        Some(Repr::I8)
    } else if text_is(ident, "i16") {
        Some(Repr::I16)
    } else if text_is(ident, "i32") {
        Some(Repr::I32)
    } else if text_is(ident, "i64") {
        Some(Repr::I64)
    } else if text_is(ident, "isize") {
        Some(Repr::Isize)
    } else {
        None
    }
}

/// The representation that the conversion takes its argument in: the one that
/// the last `repr` attribute declares, or `usize` where none is declared.
pub fn resolve_repr(attrs: &Vec<Attribute>) -> (r: Result<Repr, DeriveError>)
    ensures
        r == resolved_repr(attrs@),
{
    match find_repr_attr(attrs) {
        Err(e) => Err(e),
        Ok(None) => Ok(Repr::Usize),
        Ok(Some(ident)) => match repr_from_ident(&ident) {
            Some(r) => Ok(r),
            None => {
                let pos = last_repr_position(attrs);
                Err(DeriveError::UnsupportedRepr(pos))
            },
        },
    }
}

fn last_repr_position(attrs: &Vec<Attribute>) -> (r: usize)
    requires
        last_repr(attrs@, attrs@.len() as int) is Some,
    ensures
        r as int == last_repr(attrs@, attrs@.len() as int)->Some_0,
{
    let mut i: usize = attrs.len();
    while i > 0
        invariant
            i <= attrs@.len(),
            last_repr(attrs@, i as int) == last_repr(attrs@, attrs@.len() as int),
            last_repr(attrs@, i as int) is Some,
        decreases i,
    {
        let k = i - 1;
        if repr_attr(&attrs[k]) {
            return k;
        }
        i = k;
    }
    0
}

/// The discriminant `d` cast to the representation `r`, as a cast with `as`
/// does it: out-of-range values wrap around.
pub fn narrow_to(d: u64, r: Repr) -> (v: i128)
    ensures
        v as int == narrow(d as int, r),
{
    match r {
        Repr::U8 => (d % 0x100) as i128,
        Repr::U16 => (d % 0x1_0000) as i128,
        Repr::U32 => (d % 0x1_0000_0000) as i128,
        Repr::U64 | Repr::Usize => d as i128,
        Repr::I8 => {
            let m = d % 0x100;
            if m >= 0x80 { m as i128 - 0x100 } else { m as i128 }
        },
        Repr::I16 => {
            let m = d % 0x1_0000;
            if m >= 0x8000 { m as i128 - 0x1_0000 } else { m as i128 }
        },
        Repr::I32 => {
            let m = d % 0x1_0000_0000;
            if m >= 0x8000_0000 { m as i128 - 0x1_0000_0000 } else { m as i128 }
        },
        Repr::I64 | Repr::Isize => {
            if d >= 0x8000_0000_0000_0000 {
                d as i128 - 0x1_0000_0000_0000_0000
            } else {
                d as i128
            }
        },
    }
}

} // verus!
