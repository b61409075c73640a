use vstd::prelude::*;

use crate::discriminant::{assign_discriminants, discr_value, first_error};
use crate::input::{Attribute, Data, DeriveInput, Variant};
use crate::lints::{collect_parent_lint_attrs, lint_positions};
use crate::repr::{narrow, narrow_to, resolve_repr, resolved_repr, DeriveError, Repr};

verus! {

/// What the generated `try_from` is made of: the type of its argument, one
/// match arm per variant in declaration order, and the attributes copied onto it.
pub struct Conversion {
    /// The argument's integer type.
    pub repr: Repr,
    /// The value that each variant is matched on, by variant position.
    pub values: Vec<i128>,
    /// Positions of the enum's attributes to copy onto the function.
    pub lint_attrs: Vec<usize>,
}

/// The mathematical content of a [`Conversion`].
pub struct ConversionModel {
    pub repr: Repr,
    pub values: Seq<int>,
    pub lint_attrs: Seq<usize>,
}

impl View for Conversion {
    type V = ConversionModel;

    open spec fn view(&self) -> ConversionModel {
        ConversionModel {
            repr: self.repr,
            values: self.values@.map_values(|v: i128| v as int),
            lint_attrs: self.lint_attrs@,
        }
    }
}

/// The conversion for an enum with these attributes and (at least one) variants.
pub open spec fn synthesized(attrs: Seq<Attribute>, vs: Seq<Variant>) -> Result<ConversionModel, DeriveError> {
    match resolved_repr(attrs) {
        Err(e) => Err(e),
        Ok(rep) => match first_error(vs, vs.len() as int) {
            Some(e) => Err(e),
            None => Ok(
                ConversionModel {
                    repr: rep,
                    values: Seq::new(vs.len(), |i: int| narrow(discr_value(vs, i), rep)),
                    lint_attrs: lint_positions(attrs, attrs.len() as int),
                },
            ),
        },
    }
}

/// The outcome of the derive on `input`.
pub open spec fn expected(input: DeriveInput) -> Result<ConversionModel, DeriveError> {
    match input.data {
        Data::Struct => Err(DeriveError::StructNotSupported),
        Data::Union => Err(DeriveError::UnionNotSupported),
        Data::Enum(vs) => if vs@.len() == 0 {
            Err(DeriveError::NoVariants)
        } else {
            synthesized(input.attrs@, vs@)
        },
    }
}

/// `r` is what the generated function returns on `n`: the first variant whose
/// value is `n`, or `n` itself back where there is none.
pub open spec fn converts(values: Seq<int>, n: int, r: Result<usize, i128>) -> bool {
    match r {
        Ok(i) => i < values.len() && values[i as int] == n && forall|j: int|
            0 <= j < i ==> values[j] != n,
        Err(e) => e as int == n && forall|j: int| 0 <= j < values.len() ==> values[j] != n,
    }
}

impl Conversion {
    /// Runs the generated function on `n`: the position of the first variant
    /// matched on `n`, or `Err(n)`.
    pub fn try_from_value(&self, n: i128) -> (r: Result<usize, i128>)
        ensures
            converts(self@.values, n as int, r),
    {
        let mut i: usize = 0;
        while i < self.values.len()
            invariant
                i <= self.values@.len(),
                forall|j: int| 0 <= j < i ==> self.values@[j] != n,
            decreases self.values@.len() - i,
        {
            if self.values[i] == n {
                return Ok(i);
            }
            i = i + 1;
        }
        Err(n)
    }
}

fn matched_values(ds: &Vec<u64>, repr: Repr) -> (r: Vec<i128>)
    ensures
        r@.len() == ds@.len(),
        forall|i: int| 0 <= i < ds@.len() ==> r@[i] as int == narrow(#[trigger] ds@[i] as int, repr),
{
    let mut r: Vec<i128> = Vec::new();
    let mut i: usize = 0;
    while i < ds.len()
        invariant
            i <= ds@.len(),
            r@.len() == i,
            forall|j: int| 0 <= j < i ==> r@[j] as int == narrow(#[trigger] ds@[j] as int, repr),
        decreases ds@.len() - i,
    {
        r.push(narrow_to(ds[i], repr));
        i = i + 1;
    }
    r
}

/// Builds the conversion for an enum with at least one variant: the lint
/// attributes to copy, the representation, and each variant's discriminant
/// cast to it.
pub fn try_from_primitive(input: &DeriveInput, variants: &Vec<Variant>) -> (r: Result<Conversion, DeriveError>)
    ensures
        match r {
            Ok(c) => synthesized(input.attrs@, variants@) == Ok::<ConversionModel, DeriveError>(c@),
            Err(e) => synthesized(input.attrs@, variants@) == Err::<ConversionModel, DeriveError>(e),
        },
{
    let lint_attrs = collect_parent_lint_attrs(&input.attrs);
    let repr = match resolve_repr(&input.attrs) {
        Ok(repr) => repr,
        Err(e) => return Err(e),
    };
    let ds = match assign_discriminants(variants) {
        Ok(ds) => ds,
        Err(e) => return Err(e),
    };
    let values = matched_values(&ds, repr);
    let c = Conversion { repr, values, lint_attrs };
    proof {
        let vs = variants@;
        assert(c@.values =~= Seq::new(vs.len(), |i: int| narrow(discr_value(vs, i), repr)));
    }
    Ok(c)
}

/// Rejects an enum without variants, then builds its conversion.
pub fn try_from_primitive_for_enum(input: &DeriveInput, variants: &Vec<Variant>) -> (r: Result<Conversion, DeriveError>)
    ensures
        variants@.len() == 0 ==> r == Err::<Conversion, DeriveError>(DeriveError::NoVariants),
        variants@.len() > 0 ==> match r {
            Ok(c) => synthesized(input.attrs@, variants@) == Ok::<ConversionModel, DeriveError>(c@),
            Err(e) => synthesized(input.attrs@, variants@) == Err::<ConversionModel, DeriveError>(e),
        },
{
    if variants.len() == 0 {
        return Err(DeriveError::NoVariants);
    }
    try_from_primitive(input, variants)
}

/// Derives the conversion from the representation integer to the enum `input`.
/// Structs, unions and enums without variants are rejected.
pub fn derive(input: &DeriveInput) -> (r: Result<Conversion, DeriveError>)
    ensures
        match r {
            Ok(c) => expected(*input) == Ok::<ConversionModel, DeriveError>(c@),
            Err(e) => expected(*input) == Err::<ConversionModel, DeriveError>(e),
        },
{
    match &input.data {
        Data::Enum(variants) => try_from_primitive_for_enum(input, variants),
        Data::Struct => Err(DeriveError::StructNotSupported),
        Data::Union => Err(DeriveError::UnionNotSupported),
    }
}

} // verus!
