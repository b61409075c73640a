use vstd::prelude::*;

use crate::conversion::{converts, expected, ConversionModel};
use crate::discriminant::{decimal_value, discr_value, first_error, is_decimal};
use crate::input::{DeriveInput, Discriminant};
use crate::repr::{narrow, resolved_repr, DeriveError, Repr};

verus! {

/// Every variant's discriminant, cast to the representation, converts back to
/// that variant, provided no earlier variant casts to the same value.
pub proof fn lemma_round_trip(input: DeriveInput, m: ConversionModel, i: int, r: Result<usize, i128>)
    requires
        expected(input) == Ok::<ConversionModel, DeriveError>(m),
        0 <= i < input.data->Enum_0@.len(),
        forall|j: int| 0 <= j < i ==> m.values[j] != m.values[i],
        converts(m.values, narrow(discr_value(input.data->Enum_0@, i), m.repr), r),
    ensures
        r == Ok::<usize, i128>(i as usize),
{
    let vs = input.data->Enum_0@;
    assert(m.values[i] == narrow(discr_value(vs, i), m.repr));
    match r {
        Ok(k) => {
            if (k as int) < i {
                assert(m.values[k as int] != m.values[i]);
            } else if (k as int) > i {
                assert(m.values[i] != m.values[i]);
            }
        },
        Err(_) => {
            assert(m.values[i] != m.values[i]);
        },
    }
}

/// A value that no variant's discriminant casts to is rejected, and handed back
/// unchanged.
pub proof fn lemma_unlisted_rejected(input: DeriveInput, m: ConversionModel, n: int, r: Result<usize, i128>)
    requires
        expected(input) == Ok::<ConversionModel, DeriveError>(m),
        forall|i: int|
            0 <= i < input.data->Enum_0@.len() ==> narrow(
                #[trigger] discr_value(input.data->Enum_0@, i),
                m.repr,
            ) != n,
        converts(m.values, n, r),
    ensures
        r is Err,
        r->Err_0 as int == n,
{
    let vs = input.data->Enum_0@;
    if let Ok(k) = r {
        assert(m.values[k as int] == narrow(discr_value(vs, k as int), m.repr));
    }
}

/// A variant without an explicit discriminant takes one more than the previous
/// variant's, and the first variant takes zero.
pub proof fn lemma_implicit_sequencing(input: DeriveInput, m: ConversionModel, i: int)
    requires
        expected(input) == Ok::<ConversionModel, DeriveError>(m),
        0 <= i < input.data->Enum_0@.len(),
        input.data->Enum_0@[i].discriminant is None,
    ensures
        i == 0 ==> discr_value(input.data->Enum_0@, i) == 0,
        i > 0 ==> discr_value(input.data->Enum_0@, i) == discr_value(input.data->Enum_0@, i - 1) + 1,
        m.values[i] == narrow(discr_value(input.data->Enum_0@, i), m.repr),
{
}

/// An enum without variants is rejected.
pub proof fn lemma_no_variants_rejected(input: DeriveInput)
    requires
        input.data is Enum,
        input.data->Enum_0@.len() == 0,
    ensures
        expected(input) == Err::<ConversionModel, DeriveError>(DeriveError::NoVariants),
{
}

/// A struct or a union is rejected, with an error that names its shape.
pub proof fn lemma_non_enum_rejected(input: DeriveInput)
    ensures
        input.data is Struct ==> expected(input) == Err::<ConversionModel, DeriveError>(
            DeriveError::StructNotSupported,
        ),
        input.data is Union ==> expected(input) == Err::<ConversionModel, DeriveError>(
            DeriveError::UnionNotSupported,
        ),
{
}

/// Under `repr(u8)` an explicit discriminant above 255 is accepted and wraps
/// around to its remainder modulo 256.
pub proof fn lemma_u8_discriminant_wraps(input: DeriveInput, i: int)
    requires
        input.data is Enum,
        0 <= i < input.data->Enum_0@.len(),
        resolved_repr(input.attrs@) == Ok::<Repr, DeriveError>(Repr::U8),
        first_error(input.data->Enum_0@, input.data->Enum_0@.len() as int) is None,
        input.data->Enum_0@[i].discriminant matches Some(Discriminant::Int(s)) && is_decimal(s@),
    ensures
        expected(input) is Ok,
        expected(input)->Ok_0.values[i] == decimal_value(
            input.data->Enum_0@[i].discriminant->Some_0->Int_0@,
        ) % 256,
{
}

} // verus!
