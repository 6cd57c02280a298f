//! Argument-shape descriptors: which input type tuples each identity accepts.

use vstd::prelude::*;
use crate::data_type::{DataType, TimeUnit};
use crate::functions::BuiltinScalarFunction;

verus! {

/// Whether repeated calls on identical inputs must produce identical output.
#[derive(Clone, Copy, Debug, PartialEq, Eq, Structural)]
pub enum Volatility {
    /// The output is a pure function of the input.
    Immutable,
    /// The output may differ between calls, as with randomness.
    Volatile,
}

/// One acceptable input shape, free of alternatives.
#[derive(Debug)]
pub enum BaseSignature {
    /// Exactly this tuple of types.
    Exact(Vec<DataType>),
    /// The given number of arguments, all of one type drawn from the list.
    Uniform(usize, Vec<DataType>),
    /// One or more arguments, each of a type drawn from the list.
    Variadic(Vec<DataType>),
    /// One or more arguments that must all share one coerced type.
    VariadicEqual,
    /// One or more arguments of arbitrary types.
    VariadicAny,
    /// A list kind followed by a 64-bit integer index.
    ArrayAndIndex,
    /// A list kind followed by one of its elements.
    ArrayAndElement,
    /// A list kind, one of its elements, and an optional 64-bit index.
    ArrayAndElementAndOptionalIndex,
    /// The given number of arguments of arbitrary types.
    Any(usize),
    /// An empty argument list.
    ZeroArgs,
}

/// An identity's full input-shape descriptor: one shape, or alternatives.
#[derive(Debug)]
pub enum TypeSignature {
    /// A single acceptable shape.
    Single(BaseSignature),
    /// Any one of the listed shapes.
    OneOf(Vec<BaseSignature>),
}

/// The mathematical form of one input shape.
#[verifier::ext_equal]
pub enum BaseShape {
    Exact(Seq<DataType>),
    Uniform(int, Seq<DataType>),
    Variadic(Seq<DataType>),
    VariadicEqual,
    VariadicAny,
    ArrayAndIndex,
    ArrayAndElement,
    ArrayAndElementAndOptionalIndex,
    Any(int),
    ZeroArgs,
}

impl View for BaseSignature {
    type V = BaseShape;

    open spec fn view(&self) -> BaseShape {
        match self {
            BaseSignature::Exact(ts) => BaseShape::Exact(ts@),
            BaseSignature::Uniform(n, ts) => BaseShape::Uniform(*n as int, ts@),
            BaseSignature::Variadic(ts) => BaseShape::Variadic(ts@),
            BaseSignature::VariadicEqual => BaseShape::VariadicEqual,
            BaseSignature::VariadicAny => BaseShape::VariadicAny,
            BaseSignature::ArrayAndIndex => BaseShape::ArrayAndIndex,
            BaseSignature::ArrayAndElement => BaseShape::ArrayAndElement,
            BaseSignature::ArrayAndElementAndOptionalIndex => {
                BaseShape::ArrayAndElementAndOptionalIndex
            },
            BaseSignature::Any(n) => BaseShape::Any(*n as int),
            BaseSignature::ZeroArgs => BaseShape::ZeroArgs,
        }
    }
}

impl View for TypeSignature {
    type V = Seq<BaseShape>;

    /// A descriptor is read as its list of acceptable shapes.
    open spec fn view(&self) -> Seq<BaseShape> {
        match self {
            TypeSignature::Single(b) => seq![b@],
            TypeSignature::OneOf(v) => v@.map_values(|b: BaseSignature| b@),
        }
    }
}

/// Whether one shape accepts an empty argument list.
pub open spec fn shape_supports_zero(b: BaseShape) -> bool {
    match b {
        BaseShape::Exact(ts) => ts.len() == 0,
        BaseShape::Uniform(n, _) => n == 0,
        BaseShape::Any(n) => n == 0,
        BaseShape::ZeroArgs => true,
        _ => false,
    }
}

/// Whether any alternative of a descriptor accepts an empty argument list.
pub open spec fn spec_supports_zero_argument(alts: Seq<BaseShape>) -> bool {
    exists|i: int| 0 <= i < alts.len() && shape_supports_zero(#[trigger] alts[i])
}

fn base_supports_zero(b: &BaseSignature) -> (r: bool)
    ensures
        r == shape_supports_zero(b@),
{
    match b {
        BaseSignature::Exact(ts) => ts.len() == 0,
        BaseSignature::Uniform(n, _) => *n == 0,
        BaseSignature::Any(n) => *n == 0,
        BaseSignature::ZeroArgs => true,
        _ => false,
    }
}

impl TypeSignature {
    /// True iff some alternative inside the descriptor accepts an empty
    /// argument list.
    pub fn supports_zero_argument(&self) -> (r: bool)
        ensures
            r == spec_supports_zero_argument(self@),
    {
        match self {
            TypeSignature::Single(b) => {
                let z = base_supports_zero(b);
                proof {
                    assert(self@[0] == b@);
                }
                z
            },
            TypeSignature::OneOf(v) => {
                let mut i: usize = 0;
                let mut found = false;
                while i < v.len()
                    invariant
                        i <= v@.len(),
                        self@ == v@.map_values(|b: BaseSignature| b@),
                        found == exists|j: int|
                            0 <= j < i && shape_supports_zero(#[trigger] self@[j]),
                    decreases v@.len() - i,
                {
                    if base_supports_zero(&v[i]) {
                        proof {
                            assert(shape_supports_zero(self@[i as int]));
                        }
                        found = true;
                    }
                    i = i + 1;
                }
                found
            },
        }
    }
}

/// An input-shape descriptor paired with the function's volatility.
#[derive(Debug)]
pub struct Signature {
    pub type_signature: TypeSignature,
    pub volatility: Volatility,
}

impl Signature {
    /// A signature accepting exactly the given type tuple.
    pub fn exact(types: Vec<DataType>, volatility: Volatility) -> (r: Signature)
        ensures
            r.type_signature@ =~~= seq![BaseShape::Exact(types@)],
            r.volatility == volatility,
    {
        Signature { type_signature: TypeSignature::Single(BaseSignature::Exact(types)), volatility }
    }

    /// A signature accepting `arity` arguments of one type from `valid_types`.
    pub fn uniform(arity: usize, valid_types: Vec<DataType>, volatility: Volatility) -> (r:
        Signature)
        ensures
            r.type_signature@ =~~= seq![BaseShape::Uniform(arity as int, valid_types@)],
            r.volatility == volatility,
    {
        Signature {
            type_signature: TypeSignature::Single(BaseSignature::Uniform(arity, valid_types)),
            volatility,
        }
    }

    /// A signature accepting one or more arguments from `valid_types`.
    pub fn variadic(valid_types: Vec<DataType>, volatility: Volatility) -> (r: Signature)
        ensures
            r.type_signature@ =~~= seq![BaseShape::Variadic(valid_types@)],
            r.volatility == volatility,
    {
        Signature {
            type_signature: TypeSignature::Single(BaseSignature::Variadic(valid_types)),
            volatility,
        }
    }

    /// A signature accepting one or more arguments of one shared coerced type.
    pub fn variadic_equal(volatility: Volatility) -> (r: Signature)
        ensures
            r.type_signature@ =~~= seq![BaseShape::VariadicEqual],
            r.volatility == volatility,
    {
        Signature { type_signature: TypeSignature::Single(BaseSignature::VariadicEqual), volatility }
    }

    /// A signature accepting one or more arguments of arbitrary types.
    pub fn variadic_any(volatility: Volatility) -> (r: Signature)
        ensures
            r.type_signature@ =~~= seq![BaseShape::VariadicAny],
            r.volatility == volatility,
    {
        Signature { type_signature: TypeSignature::Single(BaseSignature::VariadicAny), volatility }
    }

    /// A signature accepting the given number of arguments of any type.
    pub fn any(arity: usize, volatility: Volatility) -> (r: Signature)
        ensures
            r.type_signature@ =~~= seq![BaseShape::Any(arity as int)],
            r.volatility == volatility,
    {
        Signature { type_signature: TypeSignature::Single(BaseSignature::Any(arity)), volatility }
    }

    /// A signature accepting any one of the given shapes.
    pub fn one_of(alternatives: Vec<BaseSignature>, volatility: Volatility) -> (r: Signature)
        ensures
            r.type_signature@ =~~= alternatives@.map_values(|b: BaseSignature| b@),
            r.volatility == volatility,
    {
        Signature { type_signature: TypeSignature::OneOf(alternatives), volatility }
    }

    /// A signature accepting a list kind and a 64-bit integer index.
    pub fn array_and_index(volatility: Volatility) -> (r: Signature)
        ensures
            r.type_signature@ =~~= seq![BaseShape::ArrayAndIndex],
            r.volatility == volatility,
    {
        Signature { type_signature: TypeSignature::Single(BaseSignature::ArrayAndIndex), volatility }
    }

    /// A signature accepting a list kind and one of its elements.
    pub fn array_and_element(volatility: Volatility) -> (r: Signature)
        ensures
            r.type_signature@ =~~= seq![BaseShape::ArrayAndElement],
            r.volatility == volatility,
    {
        Signature {
            type_signature: TypeSignature::Single(BaseSignature::ArrayAndElement),
            volatility,
        }
    }

    /// A signature accepting a list kind, an element, and an optional index.
    pub fn array_and_element_and_optional_index(volatility: Volatility) -> (r: Signature)
        ensures
            r.type_signature@ =~~= seq![BaseShape::ArrayAndElementAndOptionalIndex],
            r.volatility == volatility,
    {
        Signature {
            type_signature: TypeSignature::Single(BaseSignature::ArrayAndElementAndOptionalIndex),
            volatility,
        }
    }
}

} // verus!





verus! {

/// Volatility of each identity: only the random-value producers vary.
pub open spec fn spec_volatility(f: BuiltinScalarFunction) -> Volatility {
    match f {
        BuiltinScalarFunction::Random => Volatility::Volatile,
        BuiltinScalarFunction::Uuid => Volatility::Volatile,
        _ => Volatility::Immutable,
    }
}

/// The acceptable input shapes of each identity.
pub open spec fn spec_signature(f: BuiltinScalarFunction) -> Seq<BaseShape> {
    match f {
        BuiltinScalarFunction::ArrayPopFront | BuiltinScalarFunction::ArrayPopBack => seq![BaseShape::Any(1)],
        BuiltinScalarFunction::ArrayElement => seq![BaseShape::ArrayAndIndex],
        BuiltinScalarFunction::ArrayExcept => seq![BaseShape::Any(2)],
        BuiltinScalarFunction::ArrayPosition => seq![BaseShape::ArrayAndElementAndOptionalIndex],
        BuiltinScalarFunction::ArrayPositions | BuiltinScalarFunction::ArrayRemove | BuiltinScalarFunction::ArrayRemoveAll => seq![BaseShape::ArrayAndElement],
        BuiltinScalarFunction::ArrayRemoveN | BuiltinScalarFunction::ArrayReplace | BuiltinScalarFunction::ArrayReplaceAll => seq![BaseShape::Any(3)],
        BuiltinScalarFunction::ArrayReplaceN => seq![BaseShape::Any(4)],
        BuiltinScalarFunction::ArrayReverse => seq![BaseShape::Any(1)],
        BuiltinScalarFunction::ArraySlice | BuiltinScalarFunction::ArrayResize => seq![BaseShape::VariadicAny],
        BuiltinScalarFunction::ArrayIntersect | BuiltinScalarFunction::ArrayUnion => seq![BaseShape::Any(2)],
        BuiltinScalarFunction::Concat | BuiltinScalarFunction::ConcatWithSeparator => seq![BaseShape::Variadic(seq![DataType::Utf8])],
        BuiltinScalarFunction::Coalesce => seq![BaseShape::VariadicEqual],
        BuiltinScalarFunction::Ascii | BuiltinScalarFunction::BitLength | BuiltinScalarFunction::CharacterLength | BuiltinScalarFunction::InitCap | BuiltinScalarFunction::Lower | BuiltinScalarFunction::OctetLength | BuiltinScalarFunction::Reverse | BuiltinScalarFunction::Upper => seq![BaseShape::Uniform(1, seq![DataType::Utf8, DataType::LargeUtf8])],
        BuiltinScalarFunction::Btrim | BuiltinScalarFunction::Ltrim | BuiltinScalarFunction::Rtrim | BuiltinScalarFunction::Trim => seq![BaseShape::Exact(seq![DataType::Utf8]), BaseShape::Exact(seq![DataType::Utf8, DataType::Utf8])],
        BuiltinScalarFunction::Chr | BuiltinScalarFunction::ToHex => seq![BaseShape::Uniform(1, seq![DataType::Int64])],
        BuiltinScalarFunction::Lpad | BuiltinScalarFunction::Rpad => seq![BaseShape::Exact(seq![DataType::Utf8, DataType::Int64]), BaseShape::Exact(seq![DataType::LargeUtf8, DataType::Int64]), BaseShape::Exact(seq![DataType::Utf8, DataType::Int64, DataType::Utf8]), BaseShape::Exact(seq![DataType::LargeUtf8, DataType::Int64, DataType::Utf8]), BaseShape::Exact(seq![DataType::Utf8, DataType::Int64, DataType::LargeUtf8]), BaseShape::Exact(seq![DataType::LargeUtf8, DataType::Int64, DataType::LargeUtf8])],
        BuiltinScalarFunction::Left | BuiltinScalarFunction::Repeat | BuiltinScalarFunction::Right => seq![BaseShape::Exact(seq![DataType::Utf8, DataType::Int64]), BaseShape::Exact(seq![DataType::LargeUtf8, DataType::Int64])],
        BuiltinScalarFunction::ToChar => seq![BaseShape::Exact(seq![DataType::Date32, DataType::Utf8]), BaseShape::Exact(seq![DataType::Date64, DataType::Utf8]), BaseShape::Exact(seq![DataType::Time32(TimeUnit::Millisecond), DataType::Utf8]), BaseShape::Exact(seq![DataType::Time32(TimeUnit::Second), DataType::Utf8]), BaseShape::Exact(seq![DataType::Time64(TimeUnit::Microsecond), DataType::Utf8]), BaseShape::Exact(seq![DataType::Time64(TimeUnit::Nanosecond), DataType::Utf8]), BaseShape::Exact(seq![DataType::Timestamp(TimeUnit::Second, false), DataType::Utf8]), BaseShape::Exact(seq![DataType::Timestamp(TimeUnit::Second, true), DataType::Utf8]), BaseShape::Exact(seq![DataType::Timestamp(TimeUnit::Millisecond, false), DataType::Utf8]), BaseShape::Exact(seq![DataType::Timestamp(TimeUnit::Millisecond, true), DataType::Utf8]), BaseShape::Exact(seq![DataType::Timestamp(TimeUnit::Microsecond, false), DataType::Utf8]), BaseShape::Exact(seq![DataType::Timestamp(TimeUnit::Microsecond, true), DataType::Utf8]), BaseShape::Exact(seq![DataType::Timestamp(TimeUnit::Nanosecond, false), DataType::Utf8]), BaseShape::Exact(seq![DataType::Timestamp(TimeUnit::Nanosecond, true), DataType::Utf8]), BaseShape::Exact(seq![DataType::Duration(TimeUnit::Second), DataType::Utf8]), BaseShape::Exact(seq![DataType::Duration(TimeUnit::Millisecond), DataType::Utf8]), BaseShape::Exact(seq![DataType::Duration(TimeUnit::Microsecond), DataType::Utf8]), BaseShape::Exact(seq![DataType::Duration(TimeUnit::Nanosecond), DataType::Utf8])],
        BuiltinScalarFunction::SplitPart => seq![BaseShape::Exact(seq![DataType::Utf8, DataType::Utf8, DataType::Int64]), BaseShape::Exact(seq![DataType::LargeUtf8, DataType::Utf8, DataType::Int64]), BaseShape::Exact(seq![DataType::Utf8, DataType::LargeUtf8, DataType::Int64]), BaseShape::Exact(seq![DataType::LargeUtf8, DataType::LargeUtf8, DataType::Int64])],
        BuiltinScalarFunction::EndsWith | BuiltinScalarFunction::Strpos | BuiltinScalarFunction::StartsWith => seq![BaseShape::Exact(seq![DataType::Utf8, DataType::Utf8]), BaseShape::Exact(seq![DataType::Utf8, DataType::LargeUtf8]), BaseShape::Exact(seq![DataType::LargeUtf8, DataType::Utf8]), BaseShape::Exact(seq![DataType::LargeUtf8, DataType::LargeUtf8])],
        BuiltinScalarFunction::Substr => seq![BaseShape::Exact(seq![DataType::Utf8, DataType::Int64]), BaseShape::Exact(seq![DataType::LargeUtf8, DataType::Int64]), BaseShape::Exact(seq![DataType::Utf8, DataType::Int64, DataType::Int64]), BaseShape::Exact(seq![DataType::LargeUtf8, DataType::Int64, DataType::Int64])],
        BuiltinScalarFunction::SubstrIndex => seq![BaseShape::Exact(seq![DataType::Utf8, DataType::Utf8, DataType::Int64]), BaseShape::Exact(seq![DataType::LargeUtf8, DataType::LargeUtf8, DataType::Int64])],
        BuiltinScalarFunction::FindInSet => seq![BaseShape::Exact(seq![DataType::Utf8, DataType::Utf8]), BaseShape::Exact(seq![DataType::LargeUtf8, DataType::LargeUtf8])],
        BuiltinScalarFunction::Replace | BuiltinScalarFunction::Translate => seq![BaseShape::Exact(seq![DataType::Utf8, DataType::Utf8, DataType::Utf8])],
        BuiltinScalarFunction::Pi | BuiltinScalarFunction::Random | BuiltinScalarFunction::Uuid => seq![BaseShape::Exact(seq![])],
        BuiltinScalarFunction::Power => seq![BaseShape::Exact(seq![DataType::Int64, DataType::Int64]), BaseShape::Exact(seq![DataType::Float64, DataType::Float64])],
        BuiltinScalarFunction::Round => seq![BaseShape::Exact(seq![DataType::Float64, DataType::Int64]), BaseShape::Exact(seq![DataType::Float32, DataType::Int64]), BaseShape::Exact(seq![DataType::Float64]), BaseShape::Exact(seq![DataType::Float32])],
        BuiltinScalarFunction::Trunc => seq![BaseShape::Exact(seq![DataType::Float32, DataType::Int64]), BaseShape::Exact(seq![DataType::Float64, DataType::Int64]), BaseShape::Exact(seq![DataType::Float64]), BaseShape::Exact(seq![DataType::Float32])],
        BuiltinScalarFunction::Atan2 | BuiltinScalarFunction::Nanvl => seq![BaseShape::Exact(seq![DataType::Float32, DataType::Float32]), BaseShape::Exact(seq![DataType::Float64, DataType::Float64])],
        BuiltinScalarFunction::Log => seq![BaseShape::Exact(seq![DataType::Float32]), BaseShape::Exact(seq![DataType::Float64]), BaseShape::Exact(seq![DataType::Float32, DataType::Float32]), BaseShape::Exact(seq![DataType::Float64, DataType::Float64])],
        BuiltinScalarFunction::Factorial => seq![BaseShape::Uniform(1, seq![DataType::Int64])],
        BuiltinScalarFunction::Gcd | BuiltinScalarFunction::Lcm => seq![BaseShape::Uniform(2, seq![DataType::Int64])],
        BuiltinScalarFunction::OverLay => seq![BaseShape::Exact(seq![DataType::Utf8, DataType::Utf8, DataType::Int64, DataType::Int64]), BaseShape::Exact(seq![DataType::LargeUtf8, DataType::LargeUtf8, DataType::Int64, DataType::Int64]), BaseShape::Exact(seq![DataType::Utf8, DataType::Utf8, DataType::Int64]), BaseShape::Exact(seq![DataType::LargeUtf8, DataType::LargeUtf8, DataType::Int64])],
        BuiltinScalarFunction::Levenshtein => seq![BaseShape::Exact(seq![DataType::Utf8, DataType::Utf8]), BaseShape::Exact(seq![DataType::LargeUtf8, DataType::LargeUtf8])],
        BuiltinScalarFunction::Atan | BuiltinScalarFunction::Acosh | BuiltinScalarFunction::Asinh | BuiltinScalarFunction::Atanh | BuiltinScalarFunction::Cbrt | BuiltinScalarFunction::Ceil | BuiltinScalarFunction::Cos | BuiltinScalarFunction::Cosh | BuiltinScalarFunction::Degrees | BuiltinScalarFunction::Exp | BuiltinScalarFunction::Floor | BuiltinScalarFunction::Ln | BuiltinScalarFunction::Log10 | BuiltinScalarFunction::Log2 | BuiltinScalarFunction::Radians | BuiltinScalarFunction::Signum | BuiltinScalarFunction::Sin | BuiltinScalarFunction::Sinh | BuiltinScalarFunction::Sqrt | BuiltinScalarFunction::Cot => seq![BaseShape::Uniform(1, seq![DataType::Float64, DataType::Float32])],
        BuiltinScalarFunction::MakeDate => seq![BaseShape::Uniform(3, seq![DataType::Int32, DataType::Int64, DataType::UInt32, DataType::UInt64, DataType::Utf8])],
        BuiltinScalarFunction::Iszero => seq![BaseShape::Exact(seq![DataType::Float32]), BaseShape::Exact(seq![DataType::Float64])],
    }
}

impl BuiltinScalarFunction {
    /// Returns the volatility of the builtin function.
    pub fn volatility(&self) -> (r: Volatility)
        ensures
            r == spec_volatility(*self),
    {
        match self {
            BuiltinScalarFunction::Random => Volatility::Volatile,
            BuiltinScalarFunction::Uuid => Volatility::Volatile,
            _ => Volatility::Immutable,
        }
    }

    fn signature_part0(&self) -> (r: Signature)
        requires
            *self == BuiltinScalarFunction::ArrayPopFront || *self == BuiltinScalarFunction::ArrayPopBack || *self == BuiltinScalarFunction::ArrayElement || *self == BuiltinScalarFunction::ArrayExcept || *self == BuiltinScalarFunction::ArrayPosition || *self == BuiltinScalarFunction::ArrayPositions || *self == BuiltinScalarFunction::ArrayRemove || *self == BuiltinScalarFunction::ArrayRemoveAll || *self == BuiltinScalarFunction::ArrayRemoveN || *self == BuiltinScalarFunction::ArrayReplace || *self == BuiltinScalarFunction::ArrayReplaceAll || *self == BuiltinScalarFunction::ArrayReplaceN || *self == BuiltinScalarFunction::ArrayReverse || *self == BuiltinScalarFunction::ArraySlice || *self == BuiltinScalarFunction::ArrayResize || *self == BuiltinScalarFunction::ArrayIntersect || *self == BuiltinScalarFunction::ArrayUnion,
        ensures
            r.type_signature@ =~~= spec_signature(*self),
            r.volatility == spec_volatility(*self),
    {
        match self {
            BuiltinScalarFunction::ArrayPopFront | BuiltinScalarFunction::ArrayPopBack => {
                let s = Signature::any(1, self.volatility());
                proof {
                    assert(s.type_signature@ =~~= spec_signature(*self));
                }
                s
            },
            BuiltinScalarFunction::ArrayElement => {
                let s = Signature::array_and_index(self.volatility());
                proof {
                    assert(s.type_signature@ =~~= spec_signature(*self));
                }
                s
            },
            BuiltinScalarFunction::ArrayExcept => {
                let s = Signature::any(2, self.volatility());
                proof {
                    assert(s.type_signature@ =~~= spec_signature(*self));
                }
                s
            },
            BuiltinScalarFunction::ArrayPosition => {
                let s = Signature::array_and_element_and_optional_index(self.volatility());
                proof {
                    assert(s.type_signature@ =~~= spec_signature(*self));
                }
                s
            },
            BuiltinScalarFunction::ArrayPositions | BuiltinScalarFunction::ArrayRemove | BuiltinScalarFunction::ArrayRemoveAll => {
                let s = Signature::array_and_element(self.volatility());
                proof {
                    assert(s.type_signature@ =~~= spec_signature(*self));
                }
                s
            },
            BuiltinScalarFunction::ArrayRemoveN | BuiltinScalarFunction::ArrayReplace | BuiltinScalarFunction::ArrayReplaceAll => {
                let s = Signature::any(3, self.volatility());
                proof {
                    assert(s.type_signature@ =~~= spec_signature(*self));
                }
                s
            },
            BuiltinScalarFunction::ArrayReplaceN => {
                let s = Signature::any(4, self.volatility());
                proof {
                    assert(s.type_signature@ =~~= spec_signature(*self));
                }
                s
            },
            BuiltinScalarFunction::ArrayReverse => {
                let s = Signature::any(1, self.volatility());
                proof {
                    assert(s.type_signature@ =~~= spec_signature(*self));
                }
                s
            },
            BuiltinScalarFunction::ArraySlice | BuiltinScalarFunction::ArrayResize => {
                let s = Signature::variadic_any(self.volatility());
                proof {
                    assert(s.type_signature@ =~~= spec_signature(*self));
                }
                s
            },
            BuiltinScalarFunction::ArrayIntersect | BuiltinScalarFunction::ArrayUnion => {
                let s = Signature::any(2, self.volatility());
                proof {
                    assert(s.type_signature@ =~~= spec_signature(*self));
                }
                s
            },
            _ => unreached(),
        }
    }

    fn signature_part1(&self) -> (r: Signature)
        requires
            *self == BuiltinScalarFunction::Concat || *self == BuiltinScalarFunction::ConcatWithSeparator || *self == BuiltinScalarFunction::Coalesce || *self == BuiltinScalarFunction::Ascii || *self == BuiltinScalarFunction::BitLength || *self == BuiltinScalarFunction::CharacterLength || *self == BuiltinScalarFunction::InitCap || *self == BuiltinScalarFunction::Lower || *self == BuiltinScalarFunction::OctetLength || *self == BuiltinScalarFunction::Reverse || *self == BuiltinScalarFunction::Upper || *self == BuiltinScalarFunction::Btrim || *self == BuiltinScalarFunction::Ltrim || *self == BuiltinScalarFunction::Rtrim || *self == BuiltinScalarFunction::Trim || *self == BuiltinScalarFunction::Chr || *self == BuiltinScalarFunction::ToHex || *self == BuiltinScalarFunction::Lpad || *self == BuiltinScalarFunction::Rpad || *self == BuiltinScalarFunction::Left || *self == BuiltinScalarFunction::Repeat || *self == BuiltinScalarFunction::Right || *self == BuiltinScalarFunction::ToChar || *self == BuiltinScalarFunction::SplitPart || *self == BuiltinScalarFunction::EndsWith || *self == BuiltinScalarFunction::Strpos || *self == BuiltinScalarFunction::StartsWith,
        ensures
            r.type_signature@ =~~= spec_signature(*self),
            r.volatility == spec_volatility(*self),
    {
        match self {
            BuiltinScalarFunction::Concat | BuiltinScalarFunction::ConcatWithSeparator => {
                let s = Signature::variadic(vec![DataType::Utf8], self.volatility());
                proof {
                    assert(s.type_signature@ =~~= spec_signature(*self));
                }
                s
            },
            BuiltinScalarFunction::Coalesce => {
                let s = Signature::variadic_equal(self.volatility());
                proof {
                    assert(s.type_signature@ =~~= spec_signature(*self));
                }
                s
            },
            BuiltinScalarFunction::Ascii | BuiltinScalarFunction::BitLength | BuiltinScalarFunction::CharacterLength | BuiltinScalarFunction::InitCap | BuiltinScalarFunction::Lower | BuiltinScalarFunction::OctetLength | BuiltinScalarFunction::Reverse | BuiltinScalarFunction::Upper => {
                let s = Signature::uniform(1, vec![DataType::Utf8, DataType::LargeUtf8], self.volatility());
                proof {
                    assert(s.type_signature@ =~~= spec_signature(*self));
                }
                s
            },
            BuiltinScalarFunction::Btrim | BuiltinScalarFunction::Ltrim | BuiltinScalarFunction::Rtrim | BuiltinScalarFunction::Trim => {
                let s = Signature::one_of(vec![BaseSignature::Exact(vec![DataType::Utf8]), BaseSignature::Exact(vec![DataType::Utf8, DataType::Utf8])], self.volatility());
                proof {
                    assert(s.type_signature@ =~~= spec_signature(*self));
                }
                s
            },
            BuiltinScalarFunction::Chr | BuiltinScalarFunction::ToHex => {
                let s = Signature::uniform(1, vec![DataType::Int64], self.volatility());
                proof {
                    assert(s.type_signature@ =~~= spec_signature(*self));
                }
                s
            },
            BuiltinScalarFunction::Lpad | BuiltinScalarFunction::Rpad => {
                let s = Signature::one_of(vec![BaseSignature::Exact(vec![DataType::Utf8, DataType::Int64]), BaseSignature::Exact(vec![DataType::LargeUtf8, DataType::Int64]), BaseSignature::Exact(vec![DataType::Utf8, DataType::Int64, DataType::Utf8]), BaseSignature::Exact(vec![DataType::LargeUtf8, DataType::Int64, DataType::Utf8]), BaseSignature::Exact(vec![DataType::Utf8, DataType::Int64, DataType::LargeUtf8]), BaseSignature::Exact(vec![DataType::LargeUtf8, DataType::Int64, DataType::LargeUtf8])], self.volatility());
                proof {
                    assert(s.type_signature@ =~~= spec_signature(*self));
                }
                s
            },
            BuiltinScalarFunction::Left | BuiltinScalarFunction::Repeat | BuiltinScalarFunction::Right => {
                let s = Signature::one_of(vec![BaseSignature::Exact(vec![DataType::Utf8, DataType::Int64]), BaseSignature::Exact(vec![DataType::LargeUtf8, DataType::Int64])], self.volatility());
                proof {
                    assert(s.type_signature@ =~~= spec_signature(*self));
                }
                s
            },
            BuiltinScalarFunction::ToChar => {
                let s = Signature::one_of(vec![BaseSignature::Exact(vec![DataType::Date32, DataType::Utf8]), BaseSignature::Exact(vec![DataType::Date64, DataType::Utf8]), BaseSignature::Exact(vec![DataType::Time32(TimeUnit::Millisecond), DataType::Utf8]), BaseSignature::Exact(vec![DataType::Time32(TimeUnit::Second), DataType::Utf8]), BaseSignature::Exact(vec![DataType::Time64(TimeUnit::Microsecond), DataType::Utf8]), BaseSignature::Exact(vec![DataType::Time64(TimeUnit::Nanosecond), DataType::Utf8]), BaseSignature::Exact(vec![DataType::Timestamp(TimeUnit::Second, false), DataType::Utf8]), BaseSignature::Exact(vec![DataType::Timestamp(TimeUnit::Second, true), DataType::Utf8]), BaseSignature::Exact(vec![DataType::Timestamp(TimeUnit::Millisecond, false), DataType::Utf8]), BaseSignature::Exact(vec![DataType::Timestamp(TimeUnit::Millisecond, true), DataType::Utf8]), BaseSignature::Exact(vec![DataType::Timestamp(TimeUnit::Microsecond, false), DataType::Utf8]), BaseSignature::Exact(vec![DataType::Timestamp(TimeUnit::Microsecond, true), DataType::Utf8]), BaseSignature::Exact(vec![DataType::Timestamp(TimeUnit::Nanosecond, false), DataType::Utf8]), BaseSignature::Exact(vec![DataType::Timestamp(TimeUnit::Nanosecond, true), DataType::Utf8]), BaseSignature::Exact(vec![DataType::Duration(TimeUnit::Second), DataType::Utf8]), BaseSignature::Exact(vec![DataType::Duration(TimeUnit::Millisecond), DataType::Utf8]), BaseSignature::Exact(vec![DataType::Duration(TimeUnit::Microsecond), DataType::Utf8]), BaseSignature::Exact(vec![DataType::Duration(TimeUnit::Nanosecond), DataType::Utf8])], self.volatility());
                proof {
                    assert(s.type_signature@ =~~= spec_signature(*self));
                }
                s
            },
            BuiltinScalarFunction::SplitPart => {
                let s = Signature::one_of(vec![BaseSignature::Exact(vec![DataType::Utf8, DataType::Utf8, DataType::Int64]), BaseSignature::Exact(vec![DataType::LargeUtf8, DataType::Utf8, DataType::Int64]), BaseSignature::Exact(vec![DataType::Utf8, DataType::LargeUtf8, DataType::Int64]), BaseSignature::Exact(vec![DataType::LargeUtf8, DataType::LargeUtf8, DataType::Int64])], self.volatility());
                proof {
                    assert(s.type_signature@ =~~= spec_signature(*self));
                }
                s
            },
            BuiltinScalarFunction::EndsWith | BuiltinScalarFunction::Strpos | BuiltinScalarFunction::StartsWith => {
                let s = Signature::one_of(vec![BaseSignature::Exact(vec![DataType::Utf8, DataType::Utf8]), BaseSignature::Exact(vec![DataType::Utf8, DataType::LargeUtf8]), BaseSignature::Exact(vec![DataType::LargeUtf8, DataType::Utf8]), BaseSignature::Exact(vec![DataType::LargeUtf8, DataType::LargeUtf8])], self.volatility());
                proof {
                    assert(s.type_signature@ =~~= spec_signature(*self));
                }
                s
            },
            _ => unreached(),
        }
    }

    fn signature_part2(&self) -> (r: Signature)
        requires
            *self == BuiltinScalarFunction::Substr || *self == BuiltinScalarFunction::SubstrIndex || *self == BuiltinScalarFunction::FindInSet || *self == BuiltinScalarFunction::Replace || *self == BuiltinScalarFunction::Translate || *self == BuiltinScalarFunction::Pi || *self == BuiltinScalarFunction::Random || *self == BuiltinScalarFunction::Uuid || *self == BuiltinScalarFunction::Power || *self == BuiltinScalarFunction::Round || *self == BuiltinScalarFunction::Trunc || *self == BuiltinScalarFunction::Atan2 || *self == BuiltinScalarFunction::Nanvl || *self == BuiltinScalarFunction::Log,
        ensures
            r.type_signature@ =~~= spec_signature(*self),
            r.volatility == spec_volatility(*self),
    {
        match self {
            BuiltinScalarFunction::Substr => {
                let s = Signature::one_of(vec![BaseSignature::Exact(vec![DataType::Utf8, DataType::Int64]), BaseSignature::Exact(vec![DataType::LargeUtf8, DataType::Int64]), BaseSignature::Exact(vec![DataType::Utf8, DataType::Int64, DataType::Int64]), BaseSignature::Exact(vec![DataType::LargeUtf8, DataType::Int64, DataType::Int64])], self.volatility());
                proof {
                    assert(s.type_signature@ =~~= spec_signature(*self));
                }
                s
            },
            BuiltinScalarFunction::SubstrIndex => {
                let s = Signature::one_of(vec![BaseSignature::Exact(vec![DataType::Utf8, DataType::Utf8, DataType::Int64]), BaseSignature::Exact(vec![DataType::LargeUtf8, DataType::LargeUtf8, DataType::Int64])], self.volatility());
                proof {
                    assert(s.type_signature@ =~~= spec_signature(*self));
                }
                s
            },
            BuiltinScalarFunction::FindInSet => {
                let s = Signature::one_of(vec![BaseSignature::Exact(vec![DataType::Utf8, DataType::Utf8]), BaseSignature::Exact(vec![DataType::LargeUtf8, DataType::LargeUtf8])], self.volatility());
                proof {
                    assert(s.type_signature@ =~~= spec_signature(*self));
                }
                s
            },
            BuiltinScalarFunction::Replace | BuiltinScalarFunction::Translate => {
                let s = Signature::one_of(vec![BaseSignature::Exact(vec![DataType::Utf8, DataType::Utf8, DataType::Utf8])], self.volatility());
                proof {
                    assert(s.type_signature@ =~~= spec_signature(*self));
                }
                s
            },
            BuiltinScalarFunction::Pi | BuiltinScalarFunction::Random | BuiltinScalarFunction::Uuid => {
                let s = Signature::exact(vec![], self.volatility());
                proof {
                    assert(s.type_signature@ =~~= spec_signature(*self));
                }
                s
            },
            BuiltinScalarFunction::Power => {
                let s = Signature::one_of(vec![BaseSignature::Exact(vec![DataType::Int64, DataType::Int64]), BaseSignature::Exact(vec![DataType::Float64, DataType::Float64])], self.volatility());
                proof {
                    assert(s.type_signature@ =~~= spec_signature(*self));
                }
                s
            },
            BuiltinScalarFunction::Round => {
                let s = Signature::one_of(vec![BaseSignature::Exact(vec![DataType::Float64, DataType::Int64]), BaseSignature::Exact(vec![DataType::Float32, DataType::Int64]), BaseSignature::Exact(vec![DataType::Float64]), BaseSignature::Exact(vec![DataType::Float32])], self.volatility());
                proof {
                    assert(s.type_signature@ =~~= spec_signature(*self));
                }
                s
            },
            BuiltinScalarFunction::Trunc => {
                let s = Signature::one_of(vec![BaseSignature::Exact(vec![DataType::Float32, DataType::Int64]), BaseSignature::Exact(vec![DataType::Float64, DataType::Int64]), BaseSignature::Exact(vec![DataType::Float64]), BaseSignature::Exact(vec![DataType::Float32])], self.volatility());
                proof {
                    assert(s.type_signature@ =~~= spec_signature(*self));
                }
                s
            },
            BuiltinScalarFunction::Atan2 | BuiltinScalarFunction::Nanvl => {
                let s = Signature::one_of(vec![BaseSignature::Exact(vec![DataType::Float32, DataType::Float32]), BaseSignature::Exact(vec![DataType::Float64, DataType::Float64])], self.volatility());
                proof {
                    assert(s.type_signature@ =~~= spec_signature(*self));
                }
                s
            },
            BuiltinScalarFunction::Log => {
                let s = Signature::one_of(vec![BaseSignature::Exact(vec![DataType::Float32]), BaseSignature::Exact(vec![DataType::Float64]), BaseSignature::Exact(vec![DataType::Float32, DataType::Float32]), BaseSignature::Exact(vec![DataType::Float64, DataType::Float64])], self.volatility());
                proof {
                    assert(s.type_signature@ =~~= spec_signature(*self));
                }
                s
            },
            _ => unreached(),
        }
    }

    fn signature_part3(&self) -> (r: Signature)
        requires
            *self == BuiltinScalarFunction::Factorial || *self == BuiltinScalarFunction::Gcd || *self == BuiltinScalarFunction::Lcm || *self == BuiltinScalarFunction::OverLay || *self == BuiltinScalarFunction::Levenshtein || *self == BuiltinScalarFunction::Atan || *self == BuiltinScalarFunction::Acosh || *self == BuiltinScalarFunction::Asinh || *self == BuiltinScalarFunction::Atanh || *self == BuiltinScalarFunction::Cbrt || *self == BuiltinScalarFunction::Ceil || *self == BuiltinScalarFunction::Cos || *self == BuiltinScalarFunction::Cosh || *self == BuiltinScalarFunction::Degrees || *self == BuiltinScalarFunction::Exp || *self == BuiltinScalarFunction::Floor || *self == BuiltinScalarFunction::Ln || *self == BuiltinScalarFunction::Log10 || *self == BuiltinScalarFunction::Log2 || *self == BuiltinScalarFunction::Radians || *self == BuiltinScalarFunction::Signum || *self == BuiltinScalarFunction::Sin || *self == BuiltinScalarFunction::Sinh || *self == BuiltinScalarFunction::Sqrt || *self == BuiltinScalarFunction::Cot || *self == BuiltinScalarFunction::MakeDate || *self == BuiltinScalarFunction::Iszero,
        ensures
            r.type_signature@ =~~= spec_signature(*self),
            r.volatility == spec_volatility(*self),
    {
        match self {
            BuiltinScalarFunction::Factorial => {
                let s = Signature::uniform(1, vec![DataType::Int64], self.volatility());
                proof {
                    assert(s.type_signature@ =~~= spec_signature(*self));
                }
                s
            },
            BuiltinScalarFunction::Gcd | BuiltinScalarFunction::Lcm => {
                let s = Signature::uniform(2, vec![DataType::Int64], self.volatility());
                proof {
                    assert(s.type_signature@ =~~= spec_signature(*self));
                }
                s
            },
            BuiltinScalarFunction::OverLay => {
                let s = Signature::one_of(vec![BaseSignature::Exact(vec![DataType::Utf8, DataType::Utf8, DataType::Int64, DataType::Int64]), BaseSignature::Exact(vec![DataType::LargeUtf8, DataType::LargeUtf8, DataType::Int64, DataType::Int64]), BaseSignature::Exact(vec![DataType::Utf8, DataType::Utf8, DataType::Int64]), BaseSignature::Exact(vec![DataType::LargeUtf8, DataType::LargeUtf8, DataType::Int64])], self.volatility());
                proof {
                    assert(s.type_signature@ =~~= spec_signature(*self));
                }
                s
            },
            BuiltinScalarFunction::Levenshtein => {
                let s = Signature::one_of(vec![BaseSignature::Exact(vec![DataType::Utf8, DataType::Utf8]), BaseSignature::Exact(vec![DataType::LargeUtf8, DataType::LargeUtf8])], self.volatility());
                proof {
                    assert(s.type_signature@ =~~= spec_signature(*self));
                }
                s
            },
            BuiltinScalarFunction::Atan | BuiltinScalarFunction::Acosh | BuiltinScalarFunction::Asinh | BuiltinScalarFunction::Atanh | BuiltinScalarFunction::Cbrt | BuiltinScalarFunction::Ceil | BuiltinScalarFunction::Cos | BuiltinScalarFunction::Cosh | BuiltinScalarFunction::Degrees | BuiltinScalarFunction::Exp | BuiltinScalarFunction::Floor | BuiltinScalarFunction::Ln | BuiltinScalarFunction::Log10 | BuiltinScalarFunction::Log2 | BuiltinScalarFunction::Radians | BuiltinScalarFunction::Signum | BuiltinScalarFunction::Sin | BuiltinScalarFunction::Sinh | BuiltinScalarFunction::Sqrt | BuiltinScalarFunction::Cot => {
                let s = Signature::uniform(1, vec![DataType::Float64, DataType::Float32], self.volatility());
                proof {
                    assert(s.type_signature@ =~~= spec_signature(*self));
                }
                s
            },
            BuiltinScalarFunction::MakeDate => {
                let s = Signature::uniform(3, vec![DataType::Int32, DataType::Int64, DataType::UInt32, DataType::UInt64, DataType::Utf8], self.volatility());
                proof {
                    assert(s.type_signature@ =~~= spec_signature(*self));
                }
                s
            },
            BuiltinScalarFunction::Iszero => {
                let s = Signature::one_of(vec![BaseSignature::Exact(vec![DataType::Float32]), BaseSignature::Exact(vec![DataType::Float64])], self.volatility());
                proof {
                    assert(s.type_signature@ =~~= spec_signature(*self));
                }
                s
            },
            _ => unreached(),
        }
    }

    /// Returns the argument signature supported by this function.
    pub fn signature(&self) -> (r: Signature)
        ensures
            r.type_signature@ =~~= spec_signature(*self),
            r.volatility == spec_volatility(*self),
    {
        match self {
            BuiltinScalarFunction::ArrayPopFront | BuiltinScalarFunction::ArrayPopBack | BuiltinScalarFunction::ArrayElement | BuiltinScalarFunction::ArrayExcept | BuiltinScalarFunction::ArrayPosition | BuiltinScalarFunction::ArrayPositions | BuiltinScalarFunction::ArrayRemove | BuiltinScalarFunction::ArrayRemoveAll | BuiltinScalarFunction::ArrayRemoveN | BuiltinScalarFunction::ArrayReplace | BuiltinScalarFunction::ArrayReplaceAll | BuiltinScalarFunction::ArrayReplaceN | BuiltinScalarFunction::ArrayReverse | BuiltinScalarFunction::ArraySlice | BuiltinScalarFunction::ArrayResize | BuiltinScalarFunction::ArrayIntersect | BuiltinScalarFunction::ArrayUnion => self.signature_part0(),
            BuiltinScalarFunction::Concat | BuiltinScalarFunction::ConcatWithSeparator | BuiltinScalarFunction::Coalesce | BuiltinScalarFunction::Ascii | BuiltinScalarFunction::BitLength | BuiltinScalarFunction::CharacterLength | BuiltinScalarFunction::InitCap | BuiltinScalarFunction::Lower | BuiltinScalarFunction::OctetLength | BuiltinScalarFunction::Reverse | BuiltinScalarFunction::Upper | BuiltinScalarFunction::Btrim | BuiltinScalarFunction::Ltrim | BuiltinScalarFunction::Rtrim | BuiltinScalarFunction::Trim | BuiltinScalarFunction::Chr | BuiltinScalarFunction::ToHex | BuiltinScalarFunction::Lpad | BuiltinScalarFunction::Rpad | BuiltinScalarFunction::Left | BuiltinScalarFunction::Repeat | BuiltinScalarFunction::Right | BuiltinScalarFunction::ToChar | BuiltinScalarFunction::SplitPart | BuiltinScalarFunction::EndsWith | BuiltinScalarFunction::Strpos | BuiltinScalarFunction::StartsWith => self.signature_part1(),
            BuiltinScalarFunction::Substr | BuiltinScalarFunction::SubstrIndex | BuiltinScalarFunction::FindInSet | BuiltinScalarFunction::Replace | BuiltinScalarFunction::Translate | BuiltinScalarFunction::Pi | BuiltinScalarFunction::Random | BuiltinScalarFunction::Uuid | BuiltinScalarFunction::Power | BuiltinScalarFunction::Round | BuiltinScalarFunction::Trunc | BuiltinScalarFunction::Atan2 | BuiltinScalarFunction::Nanvl | BuiltinScalarFunction::Log => self.signature_part2(),
            BuiltinScalarFunction::Factorial | BuiltinScalarFunction::Gcd | BuiltinScalarFunction::Lcm | BuiltinScalarFunction::OverLay | BuiltinScalarFunction::Levenshtein | BuiltinScalarFunction::Atan | BuiltinScalarFunction::Acosh | BuiltinScalarFunction::Asinh | BuiltinScalarFunction::Atanh | BuiltinScalarFunction::Cbrt | BuiltinScalarFunction::Ceil | BuiltinScalarFunction::Cos | BuiltinScalarFunction::Cosh | BuiltinScalarFunction::Degrees | BuiltinScalarFunction::Exp | BuiltinScalarFunction::Floor | BuiltinScalarFunction::Ln | BuiltinScalarFunction::Log10 | BuiltinScalarFunction::Log2 | BuiltinScalarFunction::Radians | BuiltinScalarFunction::Signum | BuiltinScalarFunction::Sin | BuiltinScalarFunction::Sinh | BuiltinScalarFunction::Sqrt | BuiltinScalarFunction::Cot | BuiltinScalarFunction::MakeDate | BuiltinScalarFunction::Iszero => self.signature_part3(),
        }
    }

    /// True iff some alternative of this function's signature accepts an
    /// empty argument list; niladic functions are admitted through this.
    pub fn supports_zero_argument(&self) -> (r: bool)
        ensures
            r == spec_supports_zero_argument(spec_signature(*self)),
    {
        self.signature().type_signature.supports_zero_argument()
    }
}

} // verus!
