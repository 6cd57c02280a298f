//! Name resolution: mapping each alias back to its function identity.
//!
//! The resolution rule is a single decision function over the characters of a
//! name, split by name length: a name resolves to at most one identity, which
//! makes alias lookup a total, unambiguous function. The catalog laws below
//! tie it to the per-identity alias lists of [`crate::functions`]. Resolution
//! is a pure function of the name, so concurrent callers share nothing
//! mutable.

use vstd::prelude::*;
use crate::functions::{BuiltinScalarFunction, spec_aliases, spec_name, is_alias_of,
    lemma_aliases_nonempty};
use crate::errors::PlanError;

verus! {

pub open spec fn lookup_len2(s: Seq<char>) -> Option<BuiltinScalarFunction> {
    if s == "ln"@ {
        Some(BuiltinScalarFunction::Ln)
    } else if s == "pi"@ {
        Some(BuiltinScalarFunction::Pi)
    } else {
        None
    }
}

pub open spec fn lookup_len3(s: Seq<char>) -> Option<BuiltinScalarFunction> {
    if s == "cos"@ {
        Some(BuiltinScalarFunction::Cos)
    } else if s == "exp"@ {
        Some(BuiltinScalarFunction::Exp)
    } else if s == "gcd"@ {
        Some(BuiltinScalarFunction::Gcd)
    } else if s == "lcm"@ {
        Some(BuiltinScalarFunction::Lcm)
    } else if s == "log"@ {
        Some(BuiltinScalarFunction::Log)
    } else if s == "pow"@ {
        Some(BuiltinScalarFunction::Power)
    } else if s == "sin"@ {
        Some(BuiltinScalarFunction::Sin)
    } else if s == "cot"@ {
        Some(BuiltinScalarFunction::Cot)
    } else if s == "chr"@ {
        Some(BuiltinScalarFunction::Chr)
    } else {
        None
    }
}

pub open spec fn lookup_len4(s: Seq<char>) -> Option<BuiltinScalarFunction> {
    if s == "atan"@ {
        Some(BuiltinScalarFunction::Atan)
    } else if s == "cbrt"@ {
        Some(BuiltinScalarFunction::Cbrt)
    } else if s == "ceil"@ {
        Some(BuiltinScalarFunction::Ceil)
    } else if s == "cosh"@ {
        Some(BuiltinScalarFunction::Cosh)
    } else if s == "log2"@ {
        Some(BuiltinScalarFunction::Log2)
    } else if s == "sinh"@ {
        Some(BuiltinScalarFunction::Sinh)
    } else if s == "sqrt"@ {
        Some(BuiltinScalarFunction::Sqrt)
    } else if s == "left"@ {
        Some(BuiltinScalarFunction::Left)
    } else if s == "lpad"@ {
        Some(BuiltinScalarFunction::Lpad)
    } else if s == "rpad"@ {
        Some(BuiltinScalarFunction::Rpad)
    } else if s == "trim"@ {
        Some(BuiltinScalarFunction::Trim)
    } else if s == "uuid"@ {
        Some(BuiltinScalarFunction::Uuid)
    } else {
        None
    }
}

pub open spec fn lookup_len5(s: Seq<char>) -> Option<BuiltinScalarFunction> {
    if s == "atan2"@ {
        Some(BuiltinScalarFunction::Atan2)
    } else if s == "acosh"@ {
        Some(BuiltinScalarFunction::Acosh)
    } else if s == "asinh"@ {
        Some(BuiltinScalarFunction::Asinh)
    } else if s == "atanh"@ {
        Some(BuiltinScalarFunction::Atanh)
    } else if s == "floor"@ {
        Some(BuiltinScalarFunction::Floor)
    } else if s == "log10"@ {
        Some(BuiltinScalarFunction::Log10)
    } else if s == "nanvl"@ {
        Some(BuiltinScalarFunction::Nanvl)
    } else if s == "power"@ {
        Some(BuiltinScalarFunction::Power)
    } else if s == "round"@ {
        Some(BuiltinScalarFunction::Round)
    } else if s == "trunc"@ {
        Some(BuiltinScalarFunction::Trunc)
    } else if s == "ascii"@ {
        Some(BuiltinScalarFunction::Ascii)
    } else if s == "btrim"@ {
        Some(BuiltinScalarFunction::Btrim)
    } else if s == "lower"@ {
        Some(BuiltinScalarFunction::Lower)
    } else if s == "ltrim"@ {
        Some(BuiltinScalarFunction::Ltrim)
    } else if s == "right"@ {
        Some(BuiltinScalarFunction::Right)
    } else if s == "rtrim"@ {
        Some(BuiltinScalarFunction::Rtrim)
    } else if s == "instr"@ {
        Some(BuiltinScalarFunction::Strpos)
    } else if s == "upper"@ {
        Some(BuiltinScalarFunction::Upper)
    } else {
        None
    }
}

pub open spec fn lookup_len6(s: Seq<char>) -> Option<BuiltinScalarFunction> {
    if s == "iszero"@ {
        Some(BuiltinScalarFunction::Iszero)
    } else if s == "signum"@ {
        Some(BuiltinScalarFunction::Signum)
    } else if s == "length"@ {
        Some(BuiltinScalarFunction::CharacterLength)
    } else if s == "concat"@ {
        Some(BuiltinScalarFunction::Concat)
    } else if s == "random"@ {
        Some(BuiltinScalarFunction::Random)
    } else if s == "repeat"@ {
        Some(BuiltinScalarFunction::Repeat)
    } else if s == "strpos"@ {
        Some(BuiltinScalarFunction::Strpos)
    } else if s == "substr"@ {
        Some(BuiltinScalarFunction::Substr)
    } else if s == "to_hex"@ {
        Some(BuiltinScalarFunction::ToHex)
    } else {
        None
    }
}

pub open spec fn lookup_len7(s: Seq<char>) -> Option<BuiltinScalarFunction> {
    if s == "degrees"@ {
        Some(BuiltinScalarFunction::Degrees)
    } else if s == "radians"@ {
        Some(BuiltinScalarFunction::Radians)
    } else if s == "initcap"@ {
        Some(BuiltinScalarFunction::InitCap)
    } else if s == "replace"@ {
        Some(BuiltinScalarFunction::Replace)
    } else if s == "reverse"@ {
        Some(BuiltinScalarFunction::Reverse)
    } else if s == "overlay"@ {
        Some(BuiltinScalarFunction::OverLay)
    } else if s == "to_char"@ {
        Some(BuiltinScalarFunction::ToChar)
    } else {
        None
    }
}

pub open spec fn lookup_len8(s: Seq<char>) -> Option<BuiltinScalarFunction> {
    if s == "coalesce"@ {
        Some(BuiltinScalarFunction::Coalesce)
    } else if s == "position"@ {
        Some(BuiltinScalarFunction::Strpos)
    } else {
        None
    }
}

pub open spec fn lookup_len9(s: Seq<char>) -> Option<BuiltinScalarFunction> {
    if s == "factorial"@ {
        Some(BuiltinScalarFunction::Factorial)
    } else if s == "concat_ws"@ {
        Some(BuiltinScalarFunction::ConcatWithSeparator)
    } else if s == "ends_with"@ {
        Some(BuiltinScalarFunction::EndsWith)
    } else if s == "make_date"@ {
        Some(BuiltinScalarFunction::MakeDate)
    } else if s == "translate"@ {
        Some(BuiltinScalarFunction::Translate)
    } else {
        None
    }
}

pub open spec fn lookup_len10(s: Seq<char>) -> Option<BuiltinScalarFunction> {
    if s == "list_slice"@ {
        Some(BuiltinScalarFunction::ArraySlice)
    } else if s == "list_union"@ {
        Some(BuiltinScalarFunction::ArrayUnion)
    } else if s == "bit_length"@ {
        Some(BuiltinScalarFunction::BitLength)
    } else if s == "split_part"@ {
        Some(BuiltinScalarFunction::SplitPart)
    } else {
        None
    }
}

pub open spec fn lookup_len11(s: Seq<char>) -> Option<BuiltinScalarFunction> {
    if s == "list_remove"@ {
        Some(BuiltinScalarFunction::ArrayRemove)
    } else if s == "array_slice"@ {
        Some(BuiltinScalarFunction::ArraySlice)
    } else if s == "array_union"@ {
        Some(BuiltinScalarFunction::ArrayUnion)
    } else if s == "list_except"@ {
        Some(BuiltinScalarFunction::ArrayExcept)
    } else if s == "list_resize"@ {
        Some(BuiltinScalarFunction::ArrayResize)
    } else if s == "char_length"@ {
        Some(BuiltinScalarFunction::CharacterLength)
    } else if s == "starts_with"@ {
        Some(BuiltinScalarFunction::StartsWith)
    } else if s == "levenshtein"@ {
        Some(BuiltinScalarFunction::Levenshtein)
    } else if s == "find_in_set"@ {
        Some(BuiltinScalarFunction::FindInSet)
    } else if s == "date_format"@ {
        Some(BuiltinScalarFunction::ToChar)
    } else {
        None
    }
}

pub open spec fn lookup_len12(s: Seq<char>) -> Option<BuiltinScalarFunction> {
    if s == "list_element"@ {
        Some(BuiltinScalarFunction::ArrayElement)
    } else if s == "list_extract"@ {
        Some(BuiltinScalarFunction::ArrayElement)
    } else if s == "list_indexof"@ {
        Some(BuiltinScalarFunction::ArrayPosition)
    } else if s == "array_remove"@ {
        Some(BuiltinScalarFunction::ArrayRemove)
    } else if s == "list_replace"@ {
        Some(BuiltinScalarFunction::ArrayReplace)
    } else if s == "list_reverse"@ {
        Some(BuiltinScalarFunction::ArrayReverse)
    } else if s == "array_except"@ {
        Some(BuiltinScalarFunction::ArrayExcept)
    } else if s == "array_resize"@ {
        Some(BuiltinScalarFunction::ArrayResize)
    } else if s == "octet_length"@ {
        Some(BuiltinScalarFunction::OctetLength)
    } else if s == "substr_index"@ {
        Some(BuiltinScalarFunction::SubstrIndex)
    } else {
        None
    }
}

pub open spec fn lookup_len13(s: Seq<char>) -> Option<BuiltinScalarFunction> {
    if s == "list_pop_back"@ {
        Some(BuiltinScalarFunction::ArrayPopBack)
    } else if s == "array_element"@ {
        Some(BuiltinScalarFunction::ArrayElement)
    } else if s == "array_extract"@ {
        Some(BuiltinScalarFunction::ArrayElement)
    } else if s == "list_position"@ {
        Some(BuiltinScalarFunction::ArrayPosition)
    } else if s == "array_indexof"@ {
        Some(BuiltinScalarFunction::ArrayPosition)
    } else if s == "list_remove_n"@ {
        Some(BuiltinScalarFunction::ArrayRemoveN)
    } else if s == "array_replace"@ {
        Some(BuiltinScalarFunction::ArrayReplace)
    } else if s == "array_reverse"@ {
        Some(BuiltinScalarFunction::ArrayReverse)
    } else {
        None
    }
}

pub open spec fn lookup_len14(s: Seq<char>) -> Option<BuiltinScalarFunction> {
    if s == "list_pop_front"@ {
        Some(BuiltinScalarFunction::ArrayPopFront)
    } else if s == "array_pop_back"@ {
        Some(BuiltinScalarFunction::ArrayPopBack)
    } else if s == "array_position"@ {
        Some(BuiltinScalarFunction::ArrayPosition)
    } else if s == "list_positions"@ {
        Some(BuiltinScalarFunction::ArrayPositions)
    } else if s == "array_remove_n"@ {
        Some(BuiltinScalarFunction::ArrayRemoveN)
    } else if s == "list_replace_n"@ {
        Some(BuiltinScalarFunction::ArrayReplaceN)
    } else if s == "list_intersect"@ {
        Some(BuiltinScalarFunction::ArrayIntersect)
    } else {
        None
    }
}

pub open spec fn lookup_len15(s: Seq<char>) -> Option<BuiltinScalarFunction> {
    if s == "array_pop_front"@ {
        Some(BuiltinScalarFunction::ArrayPopFront)
    } else if s == "array_positions"@ {
        Some(BuiltinScalarFunction::ArrayPositions)
    } else if s == "list_remove_all"@ {
        Some(BuiltinScalarFunction::ArrayRemoveAll)
    } else if s == "array_replace_n"@ {
        Some(BuiltinScalarFunction::ArrayReplaceN)
    } else if s == "array_intersect"@ {
        Some(BuiltinScalarFunction::ArrayIntersect)
    } else if s == "substring_index"@ {
        Some(BuiltinScalarFunction::SubstrIndex)
    } else {
        None
    }
}

pub open spec fn lookup_len16(s: Seq<char>) -> Option<BuiltinScalarFunction> {
    if s == "array_remove_all"@ {
        Some(BuiltinScalarFunction::ArrayRemoveAll)
    } else if s == "list_replace_all"@ {
        Some(BuiltinScalarFunction::ArrayReplaceAll)
    } else if s == "character_length"@ {
        Some(BuiltinScalarFunction::CharacterLength)
    } else {
        None
    }
}

pub open spec fn lookup_len17(s: Seq<char>) -> Option<BuiltinScalarFunction> {
    if s == "array_replace_all"@ {
        Some(BuiltinScalarFunction::ArrayReplaceAll)
    } else {
        None
    }
}

/// Resolves a name to the one identity that answers to it.
#[verifier::opaque]
pub open spec fn lookup_spec(s: Seq<char>) -> Option<BuiltinScalarFunction> {
    if s.len() == 2 {
        lookup_len2(s)
    } else if s.len() == 3 {
        lookup_len3(s)
    } else if s.len() == 4 {
        lookup_len4(s)
    } else if s.len() == 5 {
        lookup_len5(s)
    } else if s.len() == 6 {
        lookup_len6(s)
    } else if s.len() == 7 {
        lookup_len7(s)
    } else if s.len() == 8 {
        lookup_len8(s)
    } else if s.len() == 9 {
        lookup_len9(s)
    } else if s.len() == 10 {
        lookup_len10(s)
    } else if s.len() == 11 {
        lookup_len11(s)
    } else if s.len() == 12 {
        lookup_len12(s)
    } else if s.len() == 13 {
        lookup_len13(s)
    } else if s.len() == 14 {
        lookup_len14(s)
    } else if s.len() == 15 {
        lookup_len15(s)
    } else if s.len() == 16 {
        lookup_len16(s)
    } else if s.len() == 17 {
        lookup_len17(s)
    } else {
        None
    }
}

proof fn lemma_group_len2()
    ensures
        lookup_spec("ln"@) == Some(BuiltinScalarFunction::Ln),
        lookup_spec("pi"@) == Some(BuiltinScalarFunction::Pi),
{
    reveal(lookup_spec);
    reveal_strlit("ln");
    reveal_strlit("pi");
    assert(("ln"@).len() == 2);
    assert(("ln"@)[0] == 'l');
    assert(("ln"@)[1] == 'n');
    assert(("pi"@).len() == 2);
    assert(("pi"@)[0] == 'p');
    assert(("pi"@)[1] == 'i');
}

proof fn lemma_group_len3()
    ensures
        lookup_spec("cos"@) == Some(BuiltinScalarFunction::Cos),
        lookup_spec("exp"@) == Some(BuiltinScalarFunction::Exp),
        lookup_spec("gcd"@) == Some(BuiltinScalarFunction::Gcd),
        lookup_spec("lcm"@) == Some(BuiltinScalarFunction::Lcm),
        lookup_spec("log"@) == Some(BuiltinScalarFunction::Log),
        lookup_spec("pow"@) == Some(BuiltinScalarFunction::Power),
        lookup_spec("sin"@) == Some(BuiltinScalarFunction::Sin),
        lookup_spec("cot"@) == Some(BuiltinScalarFunction::Cot),
        lookup_spec("chr"@) == Some(BuiltinScalarFunction::Chr),
{
    reveal(lookup_spec);
    reveal_strlit("cos");
    reveal_strlit("exp");
    reveal_strlit("gcd");
    reveal_strlit("lcm");
    reveal_strlit("log");
    reveal_strlit("pow");
    reveal_strlit("sin");
    reveal_strlit("cot");
    reveal_strlit("chr");
    assert(("cos"@).len() == 3);
    assert(("cos"@)[0] == 'c');
    assert(("cos"@)[1] == 'o');
    assert(("cos"@)[2] == 's');
    assert(("exp"@).len() == 3);
    assert(("exp"@)[0] == 'e');
    assert(("exp"@)[1] == 'x');
    assert(("exp"@)[2] == 'p');
    assert(("gcd"@).len() == 3);
    assert(("gcd"@)[0] == 'g');
    assert(("gcd"@)[1] == 'c');
    assert(("gcd"@)[2] == 'd');
    assert(("lcm"@).len() == 3);
    assert(("lcm"@)[0] == 'l');
    assert(("lcm"@)[1] == 'c');
    assert(("lcm"@)[2] == 'm');
    assert(("log"@).len() == 3);
    assert(("log"@)[0] == 'l');
    assert(("log"@)[1] == 'o');
    assert(("log"@)[2] == 'g');
    assert(("pow"@).len() == 3);
    assert(("pow"@)[0] == 'p');
    assert(("pow"@)[1] == 'o');
    assert(("pow"@)[2] == 'w');
    assert(("sin"@).len() == 3);
    assert(("sin"@)[0] == 's');
    assert(("sin"@)[1] == 'i');
    assert(("sin"@)[2] == 'n');
    assert(("cot"@).len() == 3);
    assert(("cot"@)[0] == 'c');
    assert(("cot"@)[1] == 'o');
    assert(("cot"@)[2] == 't');
    assert(("chr"@).len() == 3);
    assert(("chr"@)[0] == 'c');
    assert(("chr"@)[1] == 'h');
    assert(("chr"@)[2] == 'r');
}

proof fn lemma_group_len4()
    ensures
        lookup_spec("atan"@) == Some(BuiltinScalarFunction::Atan),
        lookup_spec("cbrt"@) == Some(BuiltinScalarFunction::Cbrt),
        lookup_spec("ceil"@) == Some(BuiltinScalarFunction::Ceil),
        lookup_spec("cosh"@) == Some(BuiltinScalarFunction::Cosh),
        lookup_spec("log2"@) == Some(BuiltinScalarFunction::Log2),
        lookup_spec("sinh"@) == Some(BuiltinScalarFunction::Sinh),
        lookup_spec("sqrt"@) == Some(BuiltinScalarFunction::Sqrt),
        lookup_spec("left"@) == Some(BuiltinScalarFunction::Left),
        lookup_spec("lpad"@) == Some(BuiltinScalarFunction::Lpad),
        lookup_spec("rpad"@) == Some(BuiltinScalarFunction::Rpad),
        lookup_spec("trim"@) == Some(BuiltinScalarFunction::Trim),
        lookup_spec("uuid"@) == Some(BuiltinScalarFunction::Uuid),
{
    reveal(lookup_spec);
    reveal_strlit("atan");
    reveal_strlit("cbrt");
    reveal_strlit("ceil");
    reveal_strlit("cosh");
    reveal_strlit("log2");
    reveal_strlit("sinh");
    reveal_strlit("sqrt");
    reveal_strlit("left");
    reveal_strlit("lpad");
    reveal_strlit("rpad");
    reveal_strlit("trim");
    reveal_strlit("uuid");
    assert(("atan"@).len() == 4);
    assert(("atan"@)[0] == 'a');
    assert(("atan"@)[1] == 't');
    assert(("atan"@)[2] == 'a');
    assert(("atan"@)[3] == 'n');
    assert(("cbrt"@).len() == 4);
    assert(("cbrt"@)[0] == 'c');
    assert(("cbrt"@)[1] == 'b');
    assert(("cbrt"@)[2] == 'r');
    assert(("cbrt"@)[3] == 't');
    assert(("ceil"@).len() == 4);
    assert(("ceil"@)[0] == 'c');
    assert(("ceil"@)[1] == 'e');
    assert(("ceil"@)[2] == 'i');
    assert(("ceil"@)[3] == 'l');
    assert(("cosh"@).len() == 4);
    assert(("cosh"@)[0] == 'c');
    assert(("cosh"@)[1] == 'o');
    assert(("cosh"@)[2] == 's');
    assert(("cosh"@)[3] == 'h');
    assert(("log2"@).len() == 4);
    assert(("log2"@)[0] == 'l');
    assert(("log2"@)[1] == 'o');
    assert(("log2"@)[2] == 'g');
    assert(("log2"@)[3] == '2');
    assert(("sinh"@).len() == 4);
    assert(("sinh"@)[0] == 's');
    assert(("sinh"@)[1] == 'i');
    assert(("sinh"@)[2] == 'n');
    assert(("sinh"@)[3] == 'h');
    assert(("sqrt"@).len() == 4);
    assert(("sqrt"@)[0] == 's');
    assert(("sqrt"@)[1] == 'q');
    assert(("sqrt"@)[2] == 'r');
    assert(("sqrt"@)[3] == 't');
    assert(("left"@).len() == 4);
    assert(("left"@)[0] == 'l');
    assert(("left"@)[1] == 'e');
    assert(("left"@)[2] == 'f');
    assert(("left"@)[3] == 't');
    assert(("lpad"@).len() == 4);
    assert(("lpad"@)[0] == 'l');
    assert(("lpad"@)[1] == 'p');
    assert(("lpad"@)[2] == 'a');
    assert(("lpad"@)[3] == 'd');
    assert(("rpad"@).len() == 4);
    assert(("rpad"@)[0] == 'r');
    assert(("rpad"@)[1] == 'p');
    assert(("rpad"@)[2] == 'a');
    assert(("rpad"@)[3] == 'd');
    assert(("trim"@).len() == 4);
    assert(("trim"@)[0] == 't');
    assert(("trim"@)[1] == 'r');
    assert(("trim"@)[2] == 'i');
    assert(("trim"@)[3] == 'm');
    assert(("uuid"@).len() == 4);
    assert(("uuid"@)[0] == 'u');
    assert(("uuid"@)[1] == 'u');
    assert(("uuid"@)[2] == 'i');
    assert(("uuid"@)[3] == 'd');
}

proof fn lemma_group_len5()
    ensures
        lookup_spec("atan2"@) == Some(BuiltinScalarFunction::Atan2),
        lookup_spec("acosh"@) == Some(BuiltinScalarFunction::Acosh),
        lookup_spec("asinh"@) == Some(BuiltinScalarFunction::Asinh),
        lookup_spec("atanh"@) == Some(BuiltinScalarFunction::Atanh),
        lookup_spec("floor"@) == Some(BuiltinScalarFunction::Floor),
        lookup_spec("log10"@) == Some(BuiltinScalarFunction::Log10),
        lookup_spec("nanvl"@) == Some(BuiltinScalarFunction::Nanvl),
        lookup_spec("power"@) == Some(BuiltinScalarFunction::Power),
        lookup_spec("round"@) == Some(BuiltinScalarFunction::Round),
        lookup_spec("trunc"@) == Some(BuiltinScalarFunction::Trunc),
        lookup_spec("ascii"@) == Some(BuiltinScalarFunction::Ascii),
        lookup_spec("btrim"@) == Some(BuiltinScalarFunction::Btrim),
        lookup_spec("lower"@) == Some(BuiltinScalarFunction::Lower),
        lookup_spec("ltrim"@) == Some(BuiltinScalarFunction::Ltrim),
        lookup_spec("right"@) == Some(BuiltinScalarFunction::Right),
        lookup_spec("rtrim"@) == Some(BuiltinScalarFunction::Rtrim),
        lookup_spec("instr"@) == Some(BuiltinScalarFunction::Strpos),
        lookup_spec("upper"@) == Some(BuiltinScalarFunction::Upper),
{
    reveal(lookup_spec);
    reveal_strlit("atan2");
    reveal_strlit("acosh");
    reveal_strlit("asinh");
    reveal_strlit("atanh");
    reveal_strlit("floor");
    reveal_strlit("log10");
    reveal_strlit("nanvl");
    reveal_strlit("power");
    reveal_strlit("round");
    reveal_strlit("trunc");
    reveal_strlit("ascii");
    reveal_strlit("btrim");
    reveal_strlit("lower");
    reveal_strlit("ltrim");
    reveal_strlit("right");
    reveal_strlit("rtrim");
    reveal_strlit("instr");
    reveal_strlit("upper");
    assert(("atan2"@).len() == 5);
    assert(("atan2"@)[0] == 'a');
    assert(("atan2"@)[1] == 't');
    assert(("atan2"@)[2] == 'a');
    assert(("atan2"@)[3] == 'n');
    assert(("atan2"@)[4] == '2');
    assert(("acosh"@).len() == 5);
    assert(("acosh"@)[0] == 'a');
    assert(("acosh"@)[1] == 'c');
    assert(("acosh"@)[2] == 'o');
    assert(("acosh"@)[3] == 's');
    assert(("acosh"@)[4] == 'h');
    assert(("asinh"@).len() == 5);
    assert(("asinh"@)[0] == 'a');
    assert(("asinh"@)[1] == 's');
    assert(("asinh"@)[2] == 'i');
    assert(("asinh"@)[3] == 'n');
    assert(("asinh"@)[4] == 'h');
    assert(("atanh"@).len() == 5);
    assert(("atanh"@)[0] == 'a');
    assert(("atanh"@)[1] == 't');
    assert(("atanh"@)[2] == 'a');
    assert(("atanh"@)[3] == 'n');
    assert(("atanh"@)[4] == 'h');
    assert(("floor"@).len() == 5);
    assert(("floor"@)[0] == 'f');
    assert(("floor"@)[1] == 'l');
    assert(("floor"@)[2] == 'o');
    assert(("floor"@)[3] == 'o');
    assert(("floor"@)[4] == 'r');
    assert(("log10"@).len() == 5);
    assert(("log10"@)[0] == 'l');
    assert(("log10"@)[1] == 'o');
    assert(("log10"@)[2] == 'g');
    assert(("log10"@)[3] == '1');
    assert(("log10"@)[4] == '0');
    assert(("nanvl"@).len() == 5);
    assert(("nanvl"@)[0] == 'n');
    assert(("nanvl"@)[1] == 'a');
    assert(("nanvl"@)[2] == 'n');
    assert(("nanvl"@)[3] == 'v');
    assert(("nanvl"@)[4] == 'l');
    assert(("power"@).len() == 5);
    assert(("power"@)[0] == 'p');
    assert(("power"@)[1] == 'o');
    assert(("power"@)[2] == 'w');
    assert(("power"@)[3] == 'e');
    assert(("power"@)[4] == 'r');
    assert(("round"@).len() == 5);
    assert(("round"@)[0] == 'r');
    assert(("round"@)[1] == 'o');
    assert(("round"@)[2] == 'u');
    assert(("round"@)[3] == 'n');
    assert(("round"@)[4] == 'd');
    assert(("trunc"@).len() == 5);
    assert(("trunc"@)[0] == 't');
    assert(("trunc"@)[1] == 'r');
    assert(("trunc"@)[2] == 'u');
    assert(("trunc"@)[3] == 'n');
    assert(("trunc"@)[4] == 'c');
    assert(("ascii"@).len() == 5);
    assert(("ascii"@)[0] == 'a');
    assert(("ascii"@)[1] == 's');
    assert(("ascii"@)[2] == 'c');
    assert(("ascii"@)[3] == 'i');
    assert(("ascii"@)[4] == 'i');
    assert(("btrim"@).len() == 5);
    assert(("btrim"@)[0] == 'b');
    assert(("btrim"@)[1] == 't');
    assert(("btrim"@)[2] == 'r');
    assert(("btrim"@)[3] == 'i');
    assert(("btrim"@)[4] == 'm');
    assert(("lower"@).len() == 5);
    assert(("lower"@)[0] == 'l');
    assert(("lower"@)[1] == 'o');
    assert(("lower"@)[2] == 'w');
    assert(("lower"@)[3] == 'e');
    assert(("lower"@)[4] == 'r');
    assert(("ltrim"@).len() == 5);
    assert(("ltrim"@)[0] == 'l');
    assert(("ltrim"@)[1] == 't');
    assert(("ltrim"@)[2] == 'r');
    assert(("ltrim"@)[3] == 'i');
    assert(("ltrim"@)[4] == 'm');
    assert(("right"@).len() == 5);
    assert(("right"@)[0] == 'r');
    assert(("right"@)[1] == 'i');
    assert(("right"@)[2] == 'g');
    assert(("right"@)[3] == 'h');
    assert(("right"@)[4] == 't');
    assert(("rtrim"@).len() == 5);
    assert(("rtrim"@)[0] == 'r');
    assert(("rtrim"@)[1] == 't');
    assert(("rtrim"@)[2] == 'r');
    assert(("rtrim"@)[3] == 'i');
    assert(("rtrim"@)[4] == 'm');
    assert(("instr"@).len() == 5);
    assert(("instr"@)[0] == 'i');
    assert(("instr"@)[1] == 'n');
    assert(("instr"@)[2] == 's');
    assert(("instr"@)[3] == 't');
    assert(("instr"@)[4] == 'r');
    assert(("upper"@).len() == 5);
    assert(("upper"@)[0] == 'u');
    assert(("upper"@)[1] == 'p');
    assert(("upper"@)[2] == 'p');
    assert(("upper"@)[3] == 'e');
    assert(("upper"@)[4] == 'r');
}

proof fn lemma_group_len6()
    ensures
        lookup_spec("iszero"@) == Some(BuiltinScalarFunction::Iszero),
        lookup_spec("signum"@) == Some(BuiltinScalarFunction::Signum),
        lookup_spec("length"@) == Some(BuiltinScalarFunction::CharacterLength),
        lookup_spec("concat"@) == Some(BuiltinScalarFunction::Concat),
        lookup_spec("random"@) == Some(BuiltinScalarFunction::Random),
        lookup_spec("repeat"@) == Some(BuiltinScalarFunction::Repeat),
        lookup_spec("strpos"@) == Some(BuiltinScalarFunction::Strpos),
        lookup_spec("substr"@) == Some(BuiltinScalarFunction::Substr),
        lookup_spec("to_hex"@) == Some(BuiltinScalarFunction::ToHex),
{
    reveal(lookup_spec);
    reveal_strlit("iszero");
    reveal_strlit("signum");
    reveal_strlit("length");
    reveal_strlit("concat");
    reveal_strlit("random");
    reveal_strlit("repeat");
    reveal_strlit("strpos");
    reveal_strlit("substr");
    reveal_strlit("to_hex");
    assert(("iszero"@).len() == 6);
    assert(("iszero"@)[0] == 'i');
    assert(("iszero"@)[1] == 's');
    assert(("iszero"@)[2] == 'z');
    assert(("iszero"@)[3] == 'e');
    assert(("iszero"@)[4] == 'r');
    assert(("iszero"@)[5] == 'o');
    assert(("signum"@).len() == 6);
    assert(("signum"@)[0] == 's');
    assert(("signum"@)[1] == 'i');
    assert(("signum"@)[2] == 'g');
    assert(("signum"@)[3] == 'n');
    assert(("signum"@)[4] == 'u');
    assert(("signum"@)[5] == 'm');
    assert(("length"@).len() == 6);
    assert(("length"@)[0] == 'l');
    assert(("length"@)[1] == 'e');
    assert(("length"@)[2] == 'n');
    assert(("length"@)[3] == 'g');
    assert(("length"@)[4] == 't');
    assert(("length"@)[5] == 'h');
    assert(("concat"@).len() == 6);
    assert(("concat"@)[0] == 'c');
    assert(("concat"@)[1] == 'o');
    assert(("concat"@)[2] == 'n');
    assert(("concat"@)[3] == 'c');
    assert(("concat"@)[4] == 'a');
    assert(("concat"@)[5] == 't');
    assert(("random"@).len() == 6);
    assert(("random"@)[0] == 'r');
    assert(("random"@)[1] == 'a');
    assert(("random"@)[2] == 'n');
    assert(("random"@)[3] == 'd');
    assert(("random"@)[4] == 'o');
    assert(("random"@)[5] == 'm');
    assert(("repeat"@).len() == 6);
    assert(("repeat"@)[0] == 'r');
    assert(("repeat"@)[1] == 'e');
    assert(("repeat"@)[2] == 'p');
    assert(("repeat"@)[3] == 'e');
    assert(("repeat"@)[4] == 'a');
    assert(("repeat"@)[5] == 't');
    assert(("strpos"@).len() == 6);
    assert(("strpos"@)[0] == 's');
    assert(("strpos"@)[1] == 't');
    assert(("strpos"@)[2] == 'r');
    assert(("strpos"@)[3] == 'p');
    assert(("strpos"@)[4] == 'o');
    assert(("strpos"@)[5] == 's');
    assert(("substr"@).len() == 6);
    assert(("substr"@)[0] == 's');
    assert(("substr"@)[1] == 'u');
    assert(("substr"@)[2] == 'b');
    assert(("substr"@)[3] == 's');
    assert(("substr"@)[4] == 't');
    assert(("substr"@)[5] == 'r');
    assert(("to_hex"@).len() == 6);
    assert(("to_hex"@)[0] == 't');
    assert(("to_hex"@)[1] == 'o');
    assert(("to_hex"@)[2] == '_');
    assert(("to_hex"@)[3] == 'h');
    assert(("to_hex"@)[4] == 'e');
    assert(("to_hex"@)[5] == 'x');
}

proof fn lemma_group_len7()
    ensures
        lookup_spec("degrees"@) == Some(BuiltinScalarFunction::Degrees),
        lookup_spec("radians"@) == Some(BuiltinScalarFunction::Radians),
        lookup_spec("initcap"@) == Some(BuiltinScalarFunction::InitCap),
        lookup_spec("replace"@) == Some(BuiltinScalarFunction::Replace),
        lookup_spec("reverse"@) == Some(BuiltinScalarFunction::Reverse),
        lookup_spec("overlay"@) == Some(BuiltinScalarFunction::OverLay),
        lookup_spec("to_char"@) == Some(BuiltinScalarFunction::ToChar),
{
    reveal(lookup_spec);
    reveal_strlit("degrees");
    reveal_strlit("radians");
    reveal_strlit("initcap");
    reveal_strlit("replace");
    reveal_strlit("reverse");
    reveal_strlit("overlay");
    reveal_strlit("to_char");
    assert(("degrees"@).len() == 7);
    assert(("degrees"@)[0] == 'd');
    assert(("degrees"@)[1] == 'e');
    assert(("degrees"@)[2] == 'g');
    assert(("degrees"@)[3] == 'r');
    assert(("degrees"@)[4] == 'e');
    assert(("degrees"@)[5] == 'e');
    assert(("degrees"@)[6] == 's');
    assert(("radians"@).len() == 7);
    assert(("radians"@)[0] == 'r');
    assert(("radians"@)[1] == 'a');
    assert(("radians"@)[2] == 'd');
    assert(("radians"@)[3] == 'i');
    assert(("radians"@)[4] == 'a');
    assert(("radians"@)[5] == 'n');
    assert(("radians"@)[6] == 's');
    assert(("initcap"@).len() == 7);
    assert(("initcap"@)[0] == 'i');
    assert(("initcap"@)[1] == 'n');
    assert(("initcap"@)[2] == 'i');
    assert(("initcap"@)[3] == 't');
    assert(("initcap"@)[4] == 'c');
    assert(("initcap"@)[5] == 'a');
    assert(("initcap"@)[6] == 'p');
    assert(("replace"@).len() == 7);
    assert(("replace"@)[0] == 'r');
    assert(("replace"@)[1] == 'e');
    assert(("replace"@)[2] == 'p');
    assert(("replace"@)[3] == 'l');
    assert(("replace"@)[4] == 'a');
    assert(("replace"@)[5] == 'c');
    assert(("replace"@)[6] == 'e');
    assert(("reverse"@).len() == 7);
    assert(("reverse"@)[0] == 'r');
    assert(("reverse"@)[1] == 'e');
    assert(("reverse"@)[2] == 'v');
    assert(("reverse"@)[3] == 'e');
    assert(("reverse"@)[4] == 'r');
    assert(("reverse"@)[5] == 's');
    assert(("reverse"@)[6] == 'e');
    assert(("overlay"@).len() == 7);
    assert(("overlay"@)[0] == 'o');
    assert(("overlay"@)[1] == 'v');
    assert(("overlay"@)[2] == 'e');
    assert(("overlay"@)[3] == 'r');
    assert(("overlay"@)[4] == 'l');
    assert(("overlay"@)[5] == 'a');
    assert(("overlay"@)[6] == 'y');
    assert(("to_char"@).len() == 7);
    assert(("to_char"@)[0] == 't');
    assert(("to_char"@)[1] == 'o');
    assert(("to_char"@)[2] == '_');
    assert(("to_char"@)[3] == 'c');
    assert(("to_char"@)[4] == 'h');
    assert(("to_char"@)[5] == 'a');
    assert(("to_char"@)[6] == 'r');
}

proof fn lemma_group_len8()
    ensures
        lookup_spec("coalesce"@) == Some(BuiltinScalarFunction::Coalesce),
        lookup_spec("position"@) == Some(BuiltinScalarFunction::Strpos),
{
    reveal(lookup_spec);
    reveal_strlit("coalesce");
    reveal_strlit("position");
    assert(("coalesce"@).len() == 8);
    assert(("coalesce"@)[0] == 'c');
    assert(("coalesce"@)[1] == 'o');
    assert(("coalesce"@)[2] == 'a');
    assert(("coalesce"@)[3] == 'l');
    assert(("coalesce"@)[4] == 'e');
    assert(("coalesce"@)[5] == 's');
    assert(("coalesce"@)[6] == 'c');
    assert(("coalesce"@)[7] == 'e');
    assert(("position"@).len() == 8);
    assert(("position"@)[0] == 'p');
    assert(("position"@)[1] == 'o');
    assert(("position"@)[2] == 's');
    assert(("position"@)[3] == 'i');
    assert(("position"@)[4] == 't');
    assert(("position"@)[5] == 'i');
    assert(("position"@)[6] == 'o');
    assert(("position"@)[7] == 'n');
}

proof fn lemma_group_len9()
    ensures
        lookup_spec("factorial"@) == Some(BuiltinScalarFunction::Factorial),
        lookup_spec("concat_ws"@) == Some(BuiltinScalarFunction::ConcatWithSeparator),
        lookup_spec("ends_with"@) == Some(BuiltinScalarFunction::EndsWith),
        lookup_spec("make_date"@) == Some(BuiltinScalarFunction::MakeDate),
        lookup_spec("translate"@) == Some(BuiltinScalarFunction::Translate),
{
    reveal(lookup_spec);
    reveal_strlit("factorial");
    reveal_strlit("concat_ws");
    reveal_strlit("ends_with");
    reveal_strlit("make_date");
    reveal_strlit("translate");
    assert(("factorial"@).len() == 9);
    assert(("factorial"@)[0] == 'f');
    assert(("factorial"@)[1] == 'a');
    assert(("factorial"@)[2] == 'c');
    assert(("factorial"@)[3] == 't');
    assert(("factorial"@)[4] == 'o');
    assert(("factorial"@)[5] == 'r');
    assert(("factorial"@)[6] == 'i');
    assert(("factorial"@)[7] == 'a');
    assert(("factorial"@)[8] == 'l');
    assert(("concat_ws"@).len() == 9);
    assert(("concat_ws"@)[0] == 'c');
    assert(("concat_ws"@)[1] == 'o');
    assert(("concat_ws"@)[2] == 'n');
    assert(("concat_ws"@)[3] == 'c');
    assert(("concat_ws"@)[4] == 'a');
    assert(("concat_ws"@)[5] == 't');
    assert(("concat_ws"@)[6] == '_');
    assert(("concat_ws"@)[7] == 'w');
    assert(("concat_ws"@)[8] == 's');
    assert(("ends_with"@).len() == 9);
    assert(("ends_with"@)[0] == 'e');
    assert(("ends_with"@)[1] == 'n');
    assert(("ends_with"@)[2] == 'd');
    assert(("ends_with"@)[3] == 's');
    assert(("ends_with"@)[4] == '_');
    assert(("ends_with"@)[5] == 'w');
    assert(("ends_with"@)[6] == 'i');
    assert(("ends_with"@)[7] == 't');
    assert(("ends_with"@)[8] == 'h');
    assert(("make_date"@).len() == 9);
    assert(("make_date"@)[0] == 'm');
    assert(("make_date"@)[1] == 'a');
    assert(("make_date"@)[2] == 'k');
    assert(("make_date"@)[3] == 'e');
    assert(("make_date"@)[4] == '_');
    assert(("make_date"@)[5] == 'd');
    assert(("make_date"@)[6] == 'a');
    assert(("make_date"@)[7] == 't');
    assert(("make_date"@)[8] == 'e');
    assert(("translate"@).len() == 9);
    assert(("translate"@)[0] == 't');
    assert(("translate"@)[1] == 'r');
    assert(("translate"@)[2] == 'a');
    assert(("translate"@)[3] == 'n');
    assert(("translate"@)[4] == 's');
    assert(("translate"@)[5] == 'l');
    assert(("translate"@)[6] == 'a');
    assert(("translate"@)[7] == 't');
    assert(("translate"@)[8] == 'e');
}

proof fn lemma_group_len10()
    ensures
        lookup_spec("list_slice"@) == Some(BuiltinScalarFunction::ArraySlice),
        lookup_spec("list_union"@) == Some(BuiltinScalarFunction::ArrayUnion),
        lookup_spec("bit_length"@) == Some(BuiltinScalarFunction::BitLength),
        lookup_spec("split_part"@) == Some(BuiltinScalarFunction::SplitPart),
{
    reveal(lookup_spec);
    reveal_strlit("list_slice");
    reveal_strlit("list_union");
    reveal_strlit("bit_length");
    reveal_strlit("split_part");
    assert(("list_slice"@).len() == 10);
    assert(("list_slice"@)[0] == 'l');
    assert(("list_slice"@)[1] == 'i');
    assert(("list_slice"@)[2] == 's');
    assert(("list_slice"@)[3] == 't');
    assert(("list_slice"@)[4] == '_');
    assert(("list_slice"@)[5] == 's');
    assert(("list_slice"@)[6] == 'l');
    assert(("list_slice"@)[7] == 'i');
    assert(("list_slice"@)[8] == 'c');
    assert(("list_slice"@)[9] == 'e');
    assert(("list_union"@).len() == 10);
    assert(("list_union"@)[0] == 'l');
    assert(("list_union"@)[1] == 'i');
    assert(("list_union"@)[2] == 's');
    assert(("list_union"@)[3] == 't');
    assert(("list_union"@)[4] == '_');
    assert(("list_union"@)[5] == 'u');
    assert(("list_union"@)[6] == 'n');
    assert(("list_union"@)[7] == 'i');
    assert(("list_union"@)[8] == 'o');
    assert(("list_union"@)[9] == 'n');
    assert(("bit_length"@).len() == 10);
    assert(("bit_length"@)[0] == 'b');
    assert(("bit_length"@)[1] == 'i');
    assert(("bit_length"@)[2] == 't');
    assert(("bit_length"@)[3] == '_');
    assert(("bit_length"@)[4] == 'l');
    assert(("bit_length"@)[5] == 'e');
    assert(("bit_length"@)[6] == 'n');
    assert(("bit_length"@)[7] == 'g');
    assert(("bit_length"@)[8] == 't');
    assert(("bit_length"@)[9] == 'h');
    assert(("split_part"@).len() == 10);
    assert(("split_part"@)[0] == 's');
    assert(("split_part"@)[1] == 'p');
    assert(("split_part"@)[2] == 'l');
    assert(("split_part"@)[3] == 'i');
    assert(("split_part"@)[4] == 't');
    assert(("split_part"@)[5] == '_');
    assert(("split_part"@)[6] == 'p');
    assert(("split_part"@)[7] == 'a');
    assert(("split_part"@)[8] == 'r');
    assert(("split_part"@)[9] == 't');
}

proof fn lemma_group_len11()
    ensures
        lookup_spec("list_remove"@) == Some(BuiltinScalarFunction::ArrayRemove),
        lookup_spec("array_slice"@) == Some(BuiltinScalarFunction::ArraySlice),
        lookup_spec("array_union"@) == Some(BuiltinScalarFunction::ArrayUnion),
        lookup_spec("list_except"@) == Some(BuiltinScalarFunction::ArrayExcept),
        lookup_spec("list_resize"@) == Some(BuiltinScalarFunction::ArrayResize),
        lookup_spec("char_length"@) == Some(BuiltinScalarFunction::CharacterLength),
        lookup_spec("starts_with"@) == Some(BuiltinScalarFunction::StartsWith),
        lookup_spec("levenshtein"@) == Some(BuiltinScalarFunction::Levenshtein),
        lookup_spec("find_in_set"@) == Some(BuiltinScalarFunction::FindInSet),
        lookup_spec("date_format"@) == Some(BuiltinScalarFunction::ToChar),
{
    reveal(lookup_spec);
    reveal_strlit("list_remove");
    reveal_strlit("array_slice");
    reveal_strlit("array_union");
    reveal_strlit("list_except");
    reveal_strlit("list_resize");
    reveal_strlit("char_length");
    reveal_strlit("starts_with");
    reveal_strlit("levenshtein");
    reveal_strlit("find_in_set");
    reveal_strlit("date_format");
    assert(("list_remove"@).len() == 11);
    assert(("list_remove"@)[0] == 'l');
    assert(("list_remove"@)[1] == 'i');
    assert(("list_remove"@)[2] == 's');
    assert(("list_remove"@)[3] == 't');
    assert(("list_remove"@)[4] == '_');
    assert(("list_remove"@)[5] == 'r');
    assert(("list_remove"@)[6] == 'e');
    assert(("list_remove"@)[7] == 'm');
    assert(("list_remove"@)[8] == 'o');
    assert(("list_remove"@)[9] == 'v');
    assert(("list_remove"@)[10] == 'e');
    assert(("array_slice"@).len() == 11);
    assert(("array_slice"@)[0] == 'a');
    assert(("array_slice"@)[1] == 'r');
    assert(("array_slice"@)[2] == 'r');
    assert(("array_slice"@)[3] == 'a');
    assert(("array_slice"@)[4] == 'y');
    assert(("array_slice"@)[5] == '_');
    assert(("array_slice"@)[6] == 's');
    assert(("array_slice"@)[7] == 'l');
    assert(("array_slice"@)[8] == 'i');
    assert(("array_slice"@)[9] == 'c');
    assert(("array_slice"@)[10] == 'e');
    assert(("array_union"@).len() == 11);
    assert(("array_union"@)[0] == 'a');
    assert(("array_union"@)[1] == 'r');
    assert(("array_union"@)[2] == 'r');
    assert(("array_union"@)[3] == 'a');
    assert(("array_union"@)[4] == 'y');
    assert(("array_union"@)[5] == '_');
    assert(("array_union"@)[6] == 'u');
    assert(("array_union"@)[7] == 'n');
    assert(("array_union"@)[8] == 'i');
    assert(("array_union"@)[9] == 'o');
    assert(("array_union"@)[10] == 'n');
    assert(("list_except"@).len() == 11);
    assert(("list_except"@)[0] == 'l');
    assert(("list_except"@)[1] == 'i');
    assert(("list_except"@)[2] == 's');
    assert(("list_except"@)[3] == 't');
    assert(("list_except"@)[4] == '_');
    assert(("list_except"@)[5] == 'e');
    assert(("list_except"@)[6] == 'x');
    assert(("list_except"@)[7] == 'c');
    assert(("list_except"@)[8] == 'e');
    assert(("list_except"@)[9] == 'p');
    assert(("list_except"@)[10] == 't');
    assert(("list_resize"@).len() == 11);
    assert(("list_resize"@)[0] == 'l');
    assert(("list_resize"@)[1] == 'i');
    assert(("list_resize"@)[2] == 's');
    assert(("list_resize"@)[3] == 't');
    assert(("list_resize"@)[4] == '_');
    assert(("list_resize"@)[5] == 'r');
    assert(("list_resize"@)[6] == 'e');
    assert(("list_resize"@)[7] == 's');
    assert(("list_resize"@)[8] == 'i');
    assert(("list_resize"@)[9] == 'z');
    assert(("list_resize"@)[10] == 'e');
    assert(("char_length"@).len() == 11);
    assert(("char_length"@)[0] == 'c');
    assert(("char_length"@)[1] == 'h');
    assert(("char_length"@)[2] == 'a');
    assert(("char_length"@)[3] == 'r');
    assert(("char_length"@)[4] == '_');
    assert(("char_length"@)[5] == 'l');
    assert(("char_length"@)[6] == 'e');
    assert(("char_length"@)[7] == 'n');
    assert(("char_length"@)[8] == 'g');
    assert(("char_length"@)[9] == 't');
    assert(("char_length"@)[10] == 'h');
    assert(("starts_with"@).len() == 11);
    assert(("starts_with"@)[0] == 's');
    assert(("starts_with"@)[1] == 't');
    assert(("starts_with"@)[2] == 'a');
    assert(("starts_with"@)[3] == 'r');
    assert(("starts_with"@)[4] == 't');
    assert(("starts_with"@)[5] == 's');
    assert(("starts_with"@)[6] == '_');
    assert(("starts_with"@)[7] == 'w');
    assert(("starts_with"@)[8] == 'i');
    assert(("starts_with"@)[9] == 't');
    assert(("starts_with"@)[10] == 'h');
    assert(("levenshtein"@).len() == 11);
    assert(("levenshtein"@)[0] == 'l');
    assert(("levenshtein"@)[1] == 'e');
    assert(("levenshtein"@)[2] == 'v');
    assert(("levenshtein"@)[3] == 'e');
    assert(("levenshtein"@)[4] == 'n');
    assert(("levenshtein"@)[5] == 's');
    assert(("levenshtein"@)[6] == 'h');
    assert(("levenshtein"@)[7] == 't');
    assert(("levenshtein"@)[8] == 'e');
    assert(("levenshtein"@)[9] == 'i');
    assert(("levenshtein"@)[10] == 'n');
    assert(("find_in_set"@).len() == 11);
    assert(("find_in_set"@)[0] == 'f');
    assert(("find_in_set"@)[1] == 'i');
    assert(("find_in_set"@)[2] == 'n');
    assert(("find_in_set"@)[3] == 'd');
    assert(("find_in_set"@)[4] == '_');
    assert(("find_in_set"@)[5] == 'i');
    assert(("find_in_set"@)[6] == 'n');
    assert(("find_in_set"@)[7] == '_');
    assert(("find_in_set"@)[8] == 's');
    assert(("find_in_set"@)[9] == 'e');
    assert(("find_in_set"@)[10] == 't');
    assert(("date_format"@).len() == 11);
    assert(("date_format"@)[0] == 'd');
    assert(("date_format"@)[1] == 'a');
    assert(("date_format"@)[2] == 't');
    assert(("date_format"@)[3] == 'e');
    assert(("date_format"@)[4] == '_');
    assert(("date_format"@)[5] == 'f');
    assert(("date_format"@)[6] == 'o');
    assert(("date_format"@)[7] == 'r');
    assert(("date_format"@)[8] == 'm');
    assert(("date_format"@)[9] == 'a');
    assert(("date_format"@)[10] == 't');
}

proof fn lemma_group_len12()
    ensures
        lookup_spec("list_element"@) == Some(BuiltinScalarFunction::ArrayElement),
        lookup_spec("list_extract"@) == Some(BuiltinScalarFunction::ArrayElement),
        lookup_spec("list_indexof"@) == Some(BuiltinScalarFunction::ArrayPosition),
        lookup_spec("array_remove"@) == Some(BuiltinScalarFunction::ArrayRemove),
        lookup_spec("list_replace"@) == Some(BuiltinScalarFunction::ArrayReplace),
        lookup_spec("list_reverse"@) == Some(BuiltinScalarFunction::ArrayReverse),
        lookup_spec("array_except"@) == Some(BuiltinScalarFunction::ArrayExcept),
        lookup_spec("array_resize"@) == Some(BuiltinScalarFunction::ArrayResize),
        lookup_spec("octet_length"@) == Some(BuiltinScalarFunction::OctetLength),
        lookup_spec("substr_index"@) == Some(BuiltinScalarFunction::SubstrIndex),
{
    reveal(lookup_spec);
    reveal_strlit("list_element");
    reveal_strlit("list_extract");
    reveal_strlit("list_indexof");
    reveal_strlit("array_remove");
    reveal_strlit("list_replace");
    reveal_strlit("list_reverse");
    reveal_strlit("array_except");
    reveal_strlit("array_resize");
    reveal_strlit("octet_length");
    reveal_strlit("substr_index");
    assert(("list_element"@).len() == 12);
    assert(("list_element"@)[0] == 'l');
    assert(("list_element"@)[1] == 'i');
    assert(("list_element"@)[2] == 's');
    assert(("list_element"@)[3] == 't');
    assert(("list_element"@)[4] == '_');
    assert(("list_element"@)[5] == 'e');
    assert(("list_element"@)[6] == 'l');
    assert(("list_element"@)[7] == 'e');
    assert(("list_element"@)[8] == 'm');
    assert(("list_element"@)[9] == 'e');
    assert(("list_element"@)[10] == 'n');
    assert(("list_element"@)[11] == 't');
    assert(("list_extract"@).len() == 12);
    assert(("list_extract"@)[0] == 'l');
    assert(("list_extract"@)[1] == 'i');
    assert(("list_extract"@)[2] == 's');
    assert(("list_extract"@)[3] == 't');
    assert(("list_extract"@)[4] == '_');
    assert(("list_extract"@)[5] == 'e');
    assert(("list_extract"@)[6] == 'x');
    assert(("list_extract"@)[7] == 't');
    assert(("list_extract"@)[8] == 'r');
    assert(("list_extract"@)[9] == 'a');
    assert(("list_extract"@)[10] == 'c');
    assert(("list_extract"@)[11] == 't');
    assert(("list_indexof"@).len() == 12);
    assert(("list_indexof"@)[0] == 'l');
    assert(("list_indexof"@)[1] == 'i');
    assert(("list_indexof"@)[2] == 's');
    assert(("list_indexof"@)[3] == 't');
    assert(("list_indexof"@)[4] == '_');
    assert(("list_indexof"@)[5] == 'i');
    assert(("list_indexof"@)[6] == 'n');
    assert(("list_indexof"@)[7] == 'd');
    assert(("list_indexof"@)[8] == 'e');
    assert(("list_indexof"@)[9] == 'x');
    assert(("list_indexof"@)[10] == 'o');
    assert(("list_indexof"@)[11] == 'f');
    assert(("array_remove"@).len() == 12);
    assert(("array_remove"@)[0] == 'a');
    assert(("array_remove"@)[1] == 'r');
    assert(("array_remove"@)[2] == 'r');
    assert(("array_remove"@)[3] == 'a');
    assert(("array_remove"@)[4] == 'y');
    assert(("array_remove"@)[5] == '_');
    assert(("array_remove"@)[6] == 'r');
    assert(("array_remove"@)[7] == 'e');
    assert(("array_remove"@)[8] == 'm');
    assert(("array_remove"@)[9] == 'o');
    assert(("array_remove"@)[10] == 'v');
    assert(("array_remove"@)[11] == 'e');
    assert(("list_replace"@).len() == 12);
    assert(("list_replace"@)[0] == 'l');
    assert(("list_replace"@)[1] == 'i');
    assert(("list_replace"@)[2] == 's');
    assert(("list_replace"@)[3] == 't');
    assert(("list_replace"@)[4] == '_');
    assert(("list_replace"@)[5] == 'r');
    assert(("list_replace"@)[6] == 'e');
    assert(("list_replace"@)[7] == 'p');
    assert(("list_replace"@)[8] == 'l');
    assert(("list_replace"@)[9] == 'a');
    assert(("list_replace"@)[10] == 'c');
    assert(("list_replace"@)[11] == 'e');
    assert(("list_reverse"@).len() == 12);
    assert(("list_reverse"@)[0] == 'l');
    assert(("list_reverse"@)[1] == 'i');
    assert(("list_reverse"@)[2] == 's');
    assert(("list_reverse"@)[3] == 't');
    assert(("list_reverse"@)[4] == '_');
    assert(("list_reverse"@)[5] == 'r');
    assert(("list_reverse"@)[6] == 'e');
    assert(("list_reverse"@)[7] == 'v');
    assert(("list_reverse"@)[8] == 'e');
    assert(("list_reverse"@)[9] == 'r');
    assert(("list_reverse"@)[10] == 's');
    assert(("list_reverse"@)[11] == 'e');
    assert(("array_except"@).len() == 12);
    assert(("array_except"@)[0] == 'a');
    assert(("array_except"@)[1] == 'r');
    assert(("array_except"@)[2] == 'r');
    assert(("array_except"@)[3] == 'a');
    assert(("array_except"@)[4] == 'y');
    assert(("array_except"@)[5] == '_');
    assert(("array_except"@)[6] == 'e');
    assert(("array_except"@)[7] == 'x');
    assert(("array_except"@)[8] == 'c');
    assert(("array_except"@)[9] == 'e');
    assert(("array_except"@)[10] == 'p');
    assert(("array_except"@)[11] == 't');
    assert(("array_resize"@).len() == 12);
    assert(("array_resize"@)[0] == 'a');
    assert(("array_resize"@)[1] == 'r');
    assert(("array_resize"@)[2] == 'r');
    assert(("array_resize"@)[3] == 'a');
    assert(("array_resize"@)[4] == 'y');
    assert(("array_resize"@)[5] == '_');
    assert(("array_resize"@)[6] == 'r');
    assert(("array_resize"@)[7] == 'e');
    assert(("array_resize"@)[8] == 's');
    assert(("array_resize"@)[9] == 'i');
    assert(("array_resize"@)[10] == 'z');
    assert(("array_resize"@)[11] == 'e');
    assert(("octet_length"@).len() == 12);
    assert(("octet_length"@)[0] == 'o');
    assert(("octet_length"@)[1] == 'c');
    assert(("octet_length"@)[2] == 't');
    assert(("octet_length"@)[3] == 'e');
    assert(("octet_length"@)[4] == 't');
    assert(("octet_length"@)[5] == '_');
    assert(("octet_length"@)[6] == 'l');
    assert(("octet_length"@)[7] == 'e');
    assert(("octet_length"@)[8] == 'n');
    assert(("octet_length"@)[9] == 'g');
    assert(("octet_length"@)[10] == 't');
    assert(("octet_length"@)[11] == 'h');
    assert(("substr_index"@).len() == 12);
    assert(("substr_index"@)[0] == 's');
    assert(("substr_index"@)[1] == 'u');
    assert(("substr_index"@)[2] == 'b');
    assert(("substr_index"@)[3] == 's');
    assert(("substr_index"@)[4] == 't');
    assert(("substr_index"@)[5] == 'r');
    assert(("substr_index"@)[6] == '_');
    assert(("substr_index"@)[7] == 'i');
    assert(("substr_index"@)[8] == 'n');
    assert(("substr_index"@)[9] == 'd');
    assert(("substr_index"@)[10] == 'e');
    assert(("substr_index"@)[11] == 'x');
}

proof fn lemma_group_len13()
    ensures
        lookup_spec("list_pop_back"@) == Some(BuiltinScalarFunction::ArrayPopBack),
        lookup_spec("array_element"@) == Some(BuiltinScalarFunction::ArrayElement),
        lookup_spec("array_extract"@) == Some(BuiltinScalarFunction::ArrayElement),
        lookup_spec("list_position"@) == Some(BuiltinScalarFunction::ArrayPosition),
        lookup_spec("array_indexof"@) == Some(BuiltinScalarFunction::ArrayPosition),
        lookup_spec("list_remove_n"@) == Some(BuiltinScalarFunction::ArrayRemoveN),
        lookup_spec("array_replace"@) == Some(BuiltinScalarFunction::ArrayReplace),
        lookup_spec("array_reverse"@) == Some(BuiltinScalarFunction::ArrayReverse),
{
    reveal(lookup_spec);
    reveal_strlit("list_pop_back");
    reveal_strlit("array_element");
    reveal_strlit("array_extract");
    reveal_strlit("list_position");
    reveal_strlit("array_indexof");
    reveal_strlit("list_remove_n");
    reveal_strlit("array_replace");
    reveal_strlit("array_reverse");
    assert(("list_pop_back"@).len() == 13);
    assert(("list_pop_back"@)[0] == 'l');
    assert(("list_pop_back"@)[1] == 'i');
    assert(("list_pop_back"@)[2] == 's');
    assert(("list_pop_back"@)[3] == 't');
    assert(("list_pop_back"@)[4] == '_');
    assert(("list_pop_back"@)[5] == 'p');
    assert(("list_pop_back"@)[6] == 'o');
    assert(("list_pop_back"@)[7] == 'p');
    assert(("list_pop_back"@)[8] == '_');
    assert(("list_pop_back"@)[9] == 'b');
    assert(("list_pop_back"@)[10] == 'a');
    assert(("list_pop_back"@)[11] == 'c');
    assert(("list_pop_back"@)[12] == 'k');
    assert(("array_element"@).len() == 13);
    assert(("array_element"@)[0] == 'a');
    assert(("array_element"@)[1] == 'r');
    assert(("array_element"@)[2] == 'r');
    assert(("array_element"@)[3] == 'a');
    assert(("array_element"@)[4] == 'y');
    assert(("array_element"@)[5] == '_');
    assert(("array_element"@)[6] == 'e');
    assert(("array_element"@)[7] == 'l');
    assert(("array_element"@)[8] == 'e');
    assert(("array_element"@)[9] == 'm');
    assert(("array_element"@)[10] == 'e');
    assert(("array_element"@)[11] == 'n');
    assert(("array_element"@)[12] == 't');
    assert(("array_extract"@).len() == 13);
    assert(("array_extract"@)[0] == 'a');
    assert(("array_extract"@)[1] == 'r');
    assert(("array_extract"@)[2] == 'r');
    assert(("array_extract"@)[3] == 'a');
    assert(("array_extract"@)[4] == 'y');
    assert(("array_extract"@)[5] == '_');
    assert(("array_extract"@)[6] == 'e');
    assert(("array_extract"@)[7] == 'x');
    assert(("array_extract"@)[8] == 't');
    assert(("array_extract"@)[9] == 'r');
    assert(("array_extract"@)[10] == 'a');
    assert(("array_extract"@)[11] == 'c');
    assert(("array_extract"@)[12] == 't');
    assert(("list_position"@).len() == 13);
    assert(("list_position"@)[0] == 'l');
    assert(("list_position"@)[1] == 'i');
    assert(("list_position"@)[2] == 's');
    assert(("list_position"@)[3] == 't');
    assert(("list_position"@)[4] == '_');
    assert(("list_position"@)[5] == 'p');
    assert(("list_position"@)[6] == 'o');
    assert(("list_position"@)[7] == 's');
    assert(("list_position"@)[8] == 'i');
    assert(("list_position"@)[9] == 't');
    assert(("list_position"@)[10] == 'i');
    assert(("list_position"@)[11] == 'o');
    assert(("list_position"@)[12] == 'n');
    assert(("array_indexof"@).len() == 13);
    assert(("array_indexof"@)[0] == 'a');
    assert(("array_indexof"@)[1] == 'r');
    assert(("array_indexof"@)[2] == 'r');
    assert(("array_indexof"@)[3] == 'a');
    assert(("array_indexof"@)[4] == 'y');
    assert(("array_indexof"@)[5] == '_');
    assert(("array_indexof"@)[6] == 'i');
    assert(("array_indexof"@)[7] == 'n');
    assert(("array_indexof"@)[8] == 'd');
    assert(("array_indexof"@)[9] == 'e');
    assert(("array_indexof"@)[10] == 'x');
    assert(("array_indexof"@)[11] == 'o');
    assert(("array_indexof"@)[12] == 'f');
    assert(("list_remove_n"@).len() == 13);
    assert(("list_remove_n"@)[0] == 'l');
    assert(("list_remove_n"@)[1] == 'i');
    assert(("list_remove_n"@)[2] == 's');
    assert(("list_remove_n"@)[3] == 't');
    assert(("list_remove_n"@)[4] == '_');
    assert(("list_remove_n"@)[5] == 'r');
    assert(("list_remove_n"@)[6] == 'e');
    assert(("list_remove_n"@)[7] == 'm');
    assert(("list_remove_n"@)[8] == 'o');
    assert(("list_remove_n"@)[9] == 'v');
    assert(("list_remove_n"@)[10] == 'e');
    assert(("list_remove_n"@)[11] == '_');
    assert(("list_remove_n"@)[12] == 'n');
    assert(("array_replace"@).len() == 13);
    assert(("array_replace"@)[0] == 'a');
    assert(("array_replace"@)[1] == 'r');
    assert(("array_replace"@)[2] == 'r');
    assert(("array_replace"@)[3] == 'a');
    assert(("array_replace"@)[4] == 'y');
    assert(("array_replace"@)[5] == '_');
    assert(("array_replace"@)[6] == 'r');
    assert(("array_replace"@)[7] == 'e');
    assert(("array_replace"@)[8] == 'p');
    assert(("array_replace"@)[9] == 'l');
    assert(("array_replace"@)[10] == 'a');
    assert(("array_replace"@)[11] == 'c');
    assert(("array_replace"@)[12] == 'e');
    assert(("array_reverse"@).len() == 13);
    assert(("array_reverse"@)[0] == 'a');
    assert(("array_reverse"@)[1] == 'r');
    assert(("array_reverse"@)[2] == 'r');
    assert(("array_reverse"@)[3] == 'a');
    assert(("array_reverse"@)[4] == 'y');
    assert(("array_reverse"@)[5] == '_');
    assert(("array_reverse"@)[6] == 'r');
    assert(("array_reverse"@)[7] == 'e');
    assert(("array_reverse"@)[8] == 'v');
    assert(("array_reverse"@)[9] == 'e');
    assert(("array_reverse"@)[10] == 'r');
    assert(("array_reverse"@)[11] == 's');
    assert(("array_reverse"@)[12] == 'e');
}

proof fn lemma_group_len14()
    ensures
        lookup_spec("list_pop_front"@) == Some(BuiltinScalarFunction::ArrayPopFront),
        lookup_spec("array_pop_back"@) == Some(BuiltinScalarFunction::ArrayPopBack),
        lookup_spec("array_position"@) == Some(BuiltinScalarFunction::ArrayPosition),
        lookup_spec("list_positions"@) == Some(BuiltinScalarFunction::ArrayPositions),
        lookup_spec("array_remove_n"@) == Some(BuiltinScalarFunction::ArrayRemoveN),
        lookup_spec("list_replace_n"@) == Some(BuiltinScalarFunction::ArrayReplaceN),
        lookup_spec("list_intersect"@) == Some(BuiltinScalarFunction::ArrayIntersect),
{
    reveal(lookup_spec);
    reveal_strlit("list_pop_front");
    reveal_strlit("array_pop_back");
    reveal_strlit("array_position");
    reveal_strlit("list_positions");
    reveal_strlit("array_remove_n");
    reveal_strlit("list_replace_n");
    reveal_strlit("list_intersect");
    assert(("list_pop_front"@).len() == 14);
    assert(("list_pop_front"@)[0] == 'l');
    assert(("list_pop_front"@)[1] == 'i');
    assert(("list_pop_front"@)[2] == 's');
    assert(("list_pop_front"@)[3] == 't');
    assert(("list_pop_front"@)[4] == '_');
    assert(("list_pop_front"@)[5] == 'p');
    assert(("list_pop_front"@)[6] == 'o');
    assert(("list_pop_front"@)[7] == 'p');
    assert(("list_pop_front"@)[8] == '_');
    assert(("list_pop_front"@)[9] == 'f');
    assert(("list_pop_front"@)[10] == 'r');
    assert(("list_pop_front"@)[11] == 'o');
    assert(("list_pop_front"@)[12] == 'n');
    assert(("list_pop_front"@)[13] == 't');
    assert(("array_pop_back"@).len() == 14);
    assert(("array_pop_back"@)[0] == 'a');
    assert(("array_pop_back"@)[1] == 'r');
    assert(("array_pop_back"@)[2] == 'r');
    assert(("array_pop_back"@)[3] == 'a');
    assert(("array_pop_back"@)[4] == 'y');
    assert(("array_pop_back"@)[5] == '_');
    assert(("array_pop_back"@)[6] == 'p');
    assert(("array_pop_back"@)[7] == 'o');
    assert(("array_pop_back"@)[8] == 'p');
    assert(("array_pop_back"@)[9] == '_');
    assert(("array_pop_back"@)[10] == 'b');
    assert(("array_pop_back"@)[11] == 'a');
    assert(("array_pop_back"@)[12] == 'c');
    assert(("array_pop_back"@)[13] == 'k');
    assert(("array_position"@).len() == 14);
    assert(("array_position"@)[0] == 'a');
    assert(("array_position"@)[1] == 'r');
    assert(("array_position"@)[2] == 'r');
    assert(("array_position"@)[3] == 'a');
    assert(("array_position"@)[4] == 'y');
    assert(("array_position"@)[5] == '_');
    assert(("array_position"@)[6] == 'p');
    assert(("array_position"@)[7] == 'o');
    assert(("array_position"@)[8] == 's');
    assert(("array_position"@)[9] == 'i');
    assert(("array_position"@)[10] == 't');
    assert(("array_position"@)[11] == 'i');
    assert(("array_position"@)[12] == 'o');
    assert(("array_position"@)[13] == 'n');
    assert(("list_positions"@).len() == 14);
    assert(("list_positions"@)[0] == 'l');
    assert(("list_positions"@)[1] == 'i');
    assert(("list_positions"@)[2] == 's');
    assert(("list_positions"@)[3] == 't');
    assert(("list_positions"@)[4] == '_');
    assert(("list_positions"@)[5] == 'p');
    assert(("list_positions"@)[6] == 'o');
    assert(("list_positions"@)[7] == 's');
    assert(("list_positions"@)[8] == 'i');
    assert(("list_positions"@)[9] == 't');
    assert(("list_positions"@)[10] == 'i');
    assert(("list_positions"@)[11] == 'o');
    assert(("list_positions"@)[12] == 'n');
    assert(("list_positions"@)[13] == 's');
    assert(("array_remove_n"@).len() == 14);
    assert(("array_remove_n"@)[0] == 'a');
    assert(("array_remove_n"@)[1] == 'r');
    assert(("array_remove_n"@)[2] == 'r');
    assert(("array_remove_n"@)[3] == 'a');
    assert(("array_remove_n"@)[4] == 'y');
    assert(("array_remove_n"@)[5] == '_');
    assert(("array_remove_n"@)[6] == 'r');
    assert(("array_remove_n"@)[7] == 'e');
    assert(("array_remove_n"@)[8] == 'm');
    assert(("array_remove_n"@)[9] == 'o');
    assert(("array_remove_n"@)[10] == 'v');
    assert(("array_remove_n"@)[11] == 'e');
    assert(("array_remove_n"@)[12] == '_');
    assert(("array_remove_n"@)[13] == 'n');
    assert(("list_replace_n"@).len() == 14);
    assert(("list_replace_n"@)[0] == 'l');
    assert(("list_replace_n"@)[1] == 'i');
    assert(("list_replace_n"@)[2] == 's');
    assert(("list_replace_n"@)[3] == 't');
    assert(("list_replace_n"@)[4] == '_');
    assert(("list_replace_n"@)[5] == 'r');
    assert(("list_replace_n"@)[6] == 'e');
    assert(("list_replace_n"@)[7] == 'p');
    assert(("list_replace_n"@)[8] == 'l');
    assert(("list_replace_n"@)[9] == 'a');
    assert(("list_replace_n"@)[10] == 'c');
    assert(("list_replace_n"@)[11] == 'e');
    assert(("list_replace_n"@)[12] == '_');
    assert(("list_replace_n"@)[13] == 'n');
    assert(("list_intersect"@).len() == 14);
    assert(("list_intersect"@)[0] == 'l');
    assert(("list_intersect"@)[1] == 'i');
    assert(("list_intersect"@)[2] == 's');
    assert(("list_intersect"@)[3] == 't');
    assert(("list_intersect"@)[4] == '_');
    assert(("list_intersect"@)[5] == 'i');
    assert(("list_intersect"@)[6] == 'n');
    assert(("list_intersect"@)[7] == 't');
    assert(("list_intersect"@)[8] == 'e');
    assert(("list_intersect"@)[9] == 'r');
    assert(("list_intersect"@)[10] == 's');
    assert(("list_intersect"@)[11] == 'e');
    assert(("list_intersect"@)[12] == 'c');
    assert(("list_intersect"@)[13] == 't');
}

proof fn lemma_group_len15()
    ensures
        lookup_spec("array_pop_front"@) == Some(BuiltinScalarFunction::ArrayPopFront),
        lookup_spec("array_positions"@) == Some(BuiltinScalarFunction::ArrayPositions),
        lookup_spec("list_remove_all"@) == Some(BuiltinScalarFunction::ArrayRemoveAll),
        lookup_spec("array_replace_n"@) == Some(BuiltinScalarFunction::ArrayReplaceN),
        lookup_spec("array_intersect"@) == Some(BuiltinScalarFunction::ArrayIntersect),
        lookup_spec("substring_index"@) == Some(BuiltinScalarFunction::SubstrIndex),
{
    reveal(lookup_spec);
    reveal_strlit("array_pop_front");
    reveal_strlit("array_positions");
    reveal_strlit("list_remove_all");
    reveal_strlit("array_replace_n");
    reveal_strlit("array_intersect");
    reveal_strlit("substring_index");
    assert(("array_pop_front"@).len() == 15);
    assert(("array_pop_front"@)[0] == 'a');
    assert(("array_pop_front"@)[1] == 'r');
    assert(("array_pop_front"@)[2] == 'r');
    assert(("array_pop_front"@)[3] == 'a');
    assert(("array_pop_front"@)[4] == 'y');
    assert(("array_pop_front"@)[5] == '_');
    assert(("array_pop_front"@)[6] == 'p');
    assert(("array_pop_front"@)[7] == 'o');
    assert(("array_pop_front"@)[8] == 'p');
    assert(("array_pop_front"@)[9] == '_');
    assert(("array_pop_front"@)[10] == 'f');
    assert(("array_pop_front"@)[11] == 'r');
    assert(("array_pop_front"@)[12] == 'o');
    assert(("array_pop_front"@)[13] == 'n');
    assert(("array_pop_front"@)[14] == 't');
    assert(("array_positions"@).len() == 15);
    assert(("array_positions"@)[0] == 'a');
    assert(("array_positions"@)[1] == 'r');
    assert(("array_positions"@)[2] == 'r');
    assert(("array_positions"@)[3] == 'a');
    assert(("array_positions"@)[4] == 'y');
    assert(("array_positions"@)[5] == '_');
    assert(("array_positions"@)[6] == 'p');
    assert(("array_positions"@)[7] == 'o');
    assert(("array_positions"@)[8] == 's');
    assert(("array_positions"@)[9] == 'i');
    assert(("array_positions"@)[10] == 't');
    assert(("array_positions"@)[11] == 'i');
    assert(("array_positions"@)[12] == 'o');
    assert(("array_positions"@)[13] == 'n');
    assert(("array_positions"@)[14] == 's');
    assert(("list_remove_all"@).len() == 15);
    assert(("list_remove_all"@)[0] == 'l');
    assert(("list_remove_all"@)[1] == 'i');
    assert(("list_remove_all"@)[2] == 's');
    assert(("list_remove_all"@)[3] == 't');
    assert(("list_remove_all"@)[4] == '_');
    assert(("list_remove_all"@)[5] == 'r');
    assert(("list_remove_all"@)[6] == 'e');
    assert(("list_remove_all"@)[7] == 'm');
    assert(("list_remove_all"@)[8] == 'o');
    assert(("list_remove_all"@)[9] == 'v');
    assert(("list_remove_all"@)[10] == 'e');
    assert(("list_remove_all"@)[11] == '_');
    assert(("list_remove_all"@)[12] == 'a');
    assert(("list_remove_all"@)[13] == 'l');
    assert(("list_remove_all"@)[14] == 'l');
    assert(("array_replace_n"@).len() == 15);
    assert(("array_replace_n"@)[0] == 'a');
    assert(("array_replace_n"@)[1] == 'r');
    assert(("array_replace_n"@)[2] == 'r');
    assert(("array_replace_n"@)[3] == 'a');
    assert(("array_replace_n"@)[4] == 'y');
    assert(("array_replace_n"@)[5] == '_');
    assert(("array_replace_n"@)[6] == 'r');
    assert(("array_replace_n"@)[7] == 'e');
    assert(("array_replace_n"@)[8] == 'p');
    assert(("array_replace_n"@)[9] == 'l');
    assert(("array_replace_n"@)[10] == 'a');
    assert(("array_replace_n"@)[11] == 'c');
    assert(("array_replace_n"@)[12] == 'e');
    assert(("array_replace_n"@)[13] == '_');
    assert(("array_replace_n"@)[14] == 'n');
    assert(("array_intersect"@).len() == 15);
    assert(("array_intersect"@)[0] == 'a');
    assert(("array_intersect"@)[1] == 'r');
    assert(("array_intersect"@)[2] == 'r');
    assert(("array_intersect"@)[3] == 'a');
    assert(("array_intersect"@)[4] == 'y');
    assert(("array_intersect"@)[5] == '_');
    assert(("array_intersect"@)[6] == 'i');
    assert(("array_intersect"@)[7] == 'n');
    assert(("array_intersect"@)[8] == 't');
    assert(("array_intersect"@)[9] == 'e');
    assert(("array_intersect"@)[10] == 'r');
    assert(("array_intersect"@)[11] == 's');
    assert(("array_intersect"@)[12] == 'e');
    assert(("array_intersect"@)[13] == 'c');
    assert(("array_intersect"@)[14] == 't');
    assert(("substring_index"@).len() == 15);
    assert(("substring_index"@)[0] == 's');
    assert(("substring_index"@)[1] == 'u');
    assert(("substring_index"@)[2] == 'b');
    assert(("substring_index"@)[3] == 's');
    assert(("substring_index"@)[4] == 't');
    assert(("substring_index"@)[5] == 'r');
    assert(("substring_index"@)[6] == 'i');
    assert(("substring_index"@)[7] == 'n');
    assert(("substring_index"@)[8] == 'g');
    assert(("substring_index"@)[9] == '_');
    assert(("substring_index"@)[10] == 'i');
    assert(("substring_index"@)[11] == 'n');
    assert(("substring_index"@)[12] == 'd');
    assert(("substring_index"@)[13] == 'e');
    assert(("substring_index"@)[14] == 'x');
}

proof fn lemma_group_len16()
    ensures
        lookup_spec("array_remove_all"@) == Some(BuiltinScalarFunction::ArrayRemoveAll),
        lookup_spec("list_replace_all"@) == Some(BuiltinScalarFunction::ArrayReplaceAll),
        lookup_spec("character_length"@) == Some(BuiltinScalarFunction::CharacterLength),
{
    reveal(lookup_spec);
    reveal_strlit("array_remove_all");
    reveal_strlit("list_replace_all");
    reveal_strlit("character_length");
    assert(("array_remove_all"@).len() == 16);
    assert(("array_remove_all"@)[0] == 'a');
    assert(("array_remove_all"@)[1] == 'r');
    assert(("array_remove_all"@)[2] == 'r');
    assert(("array_remove_all"@)[3] == 'a');
    assert(("array_remove_all"@)[4] == 'y');
    assert(("array_remove_all"@)[5] == '_');
    assert(("array_remove_all"@)[6] == 'r');
    assert(("array_remove_all"@)[7] == 'e');
    assert(("array_remove_all"@)[8] == 'm');
    assert(("array_remove_all"@)[9] == 'o');
    assert(("array_remove_all"@)[10] == 'v');
    assert(("array_remove_all"@)[11] == 'e');
    assert(("array_remove_all"@)[12] == '_');
    assert(("array_remove_all"@)[13] == 'a');
    assert(("array_remove_all"@)[14] == 'l');
    assert(("array_remove_all"@)[15] == 'l');
    assert(("list_replace_all"@).len() == 16);
    assert(("list_replace_all"@)[0] == 'l');
    assert(("list_replace_all"@)[1] == 'i');
    assert(("list_replace_all"@)[2] == 's');
    assert(("list_replace_all"@)[3] == 't');
    assert(("list_replace_all"@)[4] == '_');
    assert(("list_replace_all"@)[5] == 'r');
    assert(("list_replace_all"@)[6] == 'e');
    assert(("list_replace_all"@)[7] == 'p');
    assert(("list_replace_all"@)[8] == 'l');
    assert(("list_replace_all"@)[9] == 'a');
    assert(("list_replace_all"@)[10] == 'c');
    assert(("list_replace_all"@)[11] == 'e');
    assert(("list_replace_all"@)[12] == '_');
    assert(("list_replace_all"@)[13] == 'a');
    assert(("list_replace_all"@)[14] == 'l');
    assert(("list_replace_all"@)[15] == 'l');
    assert(("character_length"@).len() == 16);
    assert(("character_length"@)[0] == 'c');
    assert(("character_length"@)[1] == 'h');
    assert(("character_length"@)[2] == 'a');
    assert(("character_length"@)[3] == 'r');
    assert(("character_length"@)[4] == 'a');
    assert(("character_length"@)[5] == 'c');
    assert(("character_length"@)[6] == 't');
    assert(("character_length"@)[7] == 'e');
    assert(("character_length"@)[8] == 'r');
    assert(("character_length"@)[9] == '_');
    assert(("character_length"@)[10] == 'l');
    assert(("character_length"@)[11] == 'e');
    assert(("character_length"@)[12] == 'n');
    assert(("character_length"@)[13] == 'g');
    assert(("character_length"@)[14] == 't');
    assert(("character_length"@)[15] == 'h');
}

proof fn lemma_group_len17()
    ensures
        lookup_spec("array_replace_all"@) == Some(BuiltinScalarFunction::ArrayReplaceAll),
{
    reveal(lookup_spec);
    reveal_strlit("array_replace_all");
    assert(("array_replace_all"@).len() == 17);
    assert(("array_replace_all"@)[0] == 'a');
    assert(("array_replace_all"@)[1] == 'r');
    assert(("array_replace_all"@)[2] == 'r');
    assert(("array_replace_all"@)[3] == 'a');
    assert(("array_replace_all"@)[4] == 'y');
    assert(("array_replace_all"@)[5] == '_');
    assert(("array_replace_all"@)[6] == 'r');
    assert(("array_replace_all"@)[7] == 'e');
    assert(("array_replace_all"@)[8] == 'p');
    assert(("array_replace_all"@)[9] == 'l');
    assert(("array_replace_all"@)[10] == 'a');
    assert(("array_replace_all"@)[11] == 'c');
    assert(("array_replace_all"@)[12] == 'e');
    assert(("array_replace_all"@)[13] == '_');
    assert(("array_replace_all"@)[14] == 'a');
    assert(("array_replace_all"@)[15] == 'l');
    assert(("array_replace_all"@)[16] == 'l');
}

/// Every alias of an identity resolves back to that identity.
pub proof fn lemma_alias_lookup(f: BuiltinScalarFunction, s: Seq<char>)
    requires
        is_alias_of(f, s),
    ensures
        lookup_spec(s) == Some(f),
{
    match f {
        BuiltinScalarFunction::Atan => { lemma_group_len4(); },
        BuiltinScalarFunction::Atan2 => { lemma_group_len5(); },
        BuiltinScalarFunction::Acosh => { lemma_group_len5(); },
        BuiltinScalarFunction::Asinh => { lemma_group_len5(); },
        BuiltinScalarFunction::Atanh => { lemma_group_len5(); },
        BuiltinScalarFunction::Cbrt => { lemma_group_len4(); },
        BuiltinScalarFunction::Ceil => { lemma_group_len4(); },
        BuiltinScalarFunction::Coalesce => { lemma_group_len8(); },
        BuiltinScalarFunction::Cos => { lemma_group_len3(); },
        BuiltinScalarFunction::Cosh => { lemma_group_len4(); },
        BuiltinScalarFunction::Degrees => { lemma_group_len7(); },
        BuiltinScalarFunction::Exp => { lemma_group_len3(); },
        BuiltinScalarFunction::Factorial => { lemma_group_len9(); },
        BuiltinScalarFunction::Floor => { lemma_group_len5(); },
        BuiltinScalarFunction::Gcd => { lemma_group_len3(); },
        BuiltinScalarFunction::Lcm => { lemma_group_len3(); },
        BuiltinScalarFunction::Iszero => { lemma_group_len6(); },
        BuiltinScalarFunction::Ln => { lemma_group_len2(); },
        BuiltinScalarFunction::Log => { lemma_group_len3(); },
        BuiltinScalarFunction::Log10 => { lemma_group_len5(); },
        BuiltinScalarFunction::Log2 => { lemma_group_len4(); },
        BuiltinScalarFunction::Nanvl => { lemma_group_len5(); },
        BuiltinScalarFunction::Pi => { lemma_group_len2(); },
        BuiltinScalarFunction::Power => { lemma_group_len3(); lemma_group_len5(); },
        BuiltinScalarFunction::Radians => { lemma_group_len7(); },
        BuiltinScalarFunction::Round => { lemma_group_len5(); },
        BuiltinScalarFunction::Signum => { lemma_group_len6(); },
        BuiltinScalarFunction::Sin => { lemma_group_len3(); },
        BuiltinScalarFunction::Sinh => { lemma_group_len4(); },
        BuiltinScalarFunction::Sqrt => { lemma_group_len4(); },
        BuiltinScalarFunction::Trunc => { lemma_group_len5(); },
        BuiltinScalarFunction::Cot => { lemma_group_len3(); },
        BuiltinScalarFunction::ArrayPopFront => { lemma_group_len14(); lemma_group_len15(); },
        BuiltinScalarFunction::ArrayPopBack => { lemma_group_len13(); lemma_group_len14(); },
        BuiltinScalarFunction::ArrayElement => { lemma_group_len12(); lemma_group_len13(); },
        BuiltinScalarFunction::ArrayPosition => { lemma_group_len12(); lemma_group_len13(); lemma_group_len14(); },
        BuiltinScalarFunction::ArrayPositions => { lemma_group_len14(); lemma_group_len15(); },
        BuiltinScalarFunction::ArrayRemove => { lemma_group_len11(); lemma_group_len12(); },
        BuiltinScalarFunction::ArrayRemoveN => { lemma_group_len13(); lemma_group_len14(); },
        BuiltinScalarFunction::ArrayRemoveAll => { lemma_group_len15(); lemma_group_len16(); },
        BuiltinScalarFunction::ArrayReplace => { lemma_group_len12(); lemma_group_len13(); },
        BuiltinScalarFunction::ArrayReplaceN => { lemma_group_len14(); lemma_group_len15(); },
        BuiltinScalarFunction::ArrayReplaceAll => { lemma_group_len16(); lemma_group_len17(); },
        BuiltinScalarFunction::ArrayReverse => { lemma_group_len12(); lemma_group_len13(); },
        BuiltinScalarFunction::ArraySlice => { lemma_group_len10(); lemma_group_len11(); },
        BuiltinScalarFunction::ArrayIntersect => { lemma_group_len14(); lemma_group_len15(); },
        BuiltinScalarFunction::ArrayUnion => { lemma_group_len10(); lemma_group_len11(); },
        BuiltinScalarFunction::ArrayExcept => { lemma_group_len11(); lemma_group_len12(); },
        BuiltinScalarFunction::ArrayResize => { lemma_group_len11(); lemma_group_len12(); },
        BuiltinScalarFunction::Ascii => { lemma_group_len5(); },
        BuiltinScalarFunction::BitLength => { lemma_group_len10(); },
        BuiltinScalarFunction::Btrim => { lemma_group_len5(); },
        BuiltinScalarFunction::CharacterLength => { lemma_group_len6(); lemma_group_len11(); lemma_group_len16(); },
        BuiltinScalarFunction::Chr => { lemma_group_len3(); },
        BuiltinScalarFunction::Concat => { lemma_group_len6(); },
        BuiltinScalarFunction::ConcatWithSeparator => { lemma_group_len9(); },
        BuiltinScalarFunction::EndsWith => { lemma_group_len9(); },
        BuiltinScalarFunction::InitCap => { lemma_group_len7(); },
        BuiltinScalarFunction::Left => { lemma_group_len4(); },
        BuiltinScalarFunction::Lpad => { lemma_group_len4(); },
        BuiltinScalarFunction::Lower => { lemma_group_len5(); },
        BuiltinScalarFunction::Ltrim => { lemma_group_len5(); },
        BuiltinScalarFunction::OctetLength => { lemma_group_len12(); },
        BuiltinScalarFunction::Random => { lemma_group_len6(); },
        BuiltinScalarFunction::Repeat => { lemma_group_len6(); },
        BuiltinScalarFunction::Replace => { lemma_group_len7(); },
        BuiltinScalarFunction::Reverse => { lemma_group_len7(); },
        BuiltinScalarFunction::Right => { lemma_group_len5(); },
        BuiltinScalarFunction::Rpad => { lemma_group_len4(); },
        BuiltinScalarFunction::Rtrim => { lemma_group_len5(); },
        BuiltinScalarFunction::SplitPart => { lemma_group_len10(); },
        BuiltinScalarFunction::StartsWith => { lemma_group_len11(); },
        BuiltinScalarFunction::Strpos => { lemma_group_len5(); lemma_group_len6(); lemma_group_len8(); },
        BuiltinScalarFunction::Substr => { lemma_group_len6(); },
        BuiltinScalarFunction::ToHex => { lemma_group_len6(); },
        BuiltinScalarFunction::MakeDate => { lemma_group_len9(); },
        BuiltinScalarFunction::Translate => { lemma_group_len9(); },
        BuiltinScalarFunction::Trim => { lemma_group_len4(); },
        BuiltinScalarFunction::Upper => { lemma_group_len5(); },
        BuiltinScalarFunction::Uuid => { lemma_group_len4(); },
        BuiltinScalarFunction::OverLay => { lemma_group_len7(); },
        BuiltinScalarFunction::Levenshtein => { lemma_group_len11(); },
        BuiltinScalarFunction::SubstrIndex => { lemma_group_len12(); lemma_group_len15(); },
        BuiltinScalarFunction::FindInSet => { lemma_group_len11(); },
        BuiltinScalarFunction::ToChar => { lemma_group_len7(); lemma_group_len11(); },
    }
}

/// No two identities share an alias: a name names at most one function.
pub proof fn lemma_aliases_disjoint(f1: BuiltinScalarFunction, f2: BuiltinScalarFunction, s: Seq<char>)
    requires
        is_alias_of(f1, s),
        is_alias_of(f2, s),
    ensures
        f1 == f2,
{
    lemma_alias_lookup(f1, s);
    lemma_alias_lookup(f2, s);
}

/// Round trip: the canonical name of an identity resolves to that identity.
pub proof fn lemma_lookup_name(f: BuiltinScalarFunction)
    ensures
        lookup_spec(spec_name(f)) == Some(f),
{
    lemma_aliases_nonempty(f);
    lemma_alias_lookup(f, spec_name(f));
}


proof fn lemma_sound_len2(s: Seq<char>)
    ensures
        match lookup_len2(s) {
            Some(f) => is_alias_of(f, s),
            None => true,
        },
{
    assert(spec_aliases(BuiltinScalarFunction::Ln)[0] == "ln"@);
    assert(spec_aliases(BuiltinScalarFunction::Pi)[0] == "pi"@);
}

proof fn lemma_sound_len3(s: Seq<char>)
    ensures
        match lookup_len3(s) {
            Some(f) => is_alias_of(f, s),
            None => true,
        },
{
    assert(spec_aliases(BuiltinScalarFunction::Cos)[0] == "cos"@);
    assert(spec_aliases(BuiltinScalarFunction::Exp)[0] == "exp"@);
    assert(spec_aliases(BuiltinScalarFunction::Gcd)[0] == "gcd"@);
    assert(spec_aliases(BuiltinScalarFunction::Lcm)[0] == "lcm"@);
    assert(spec_aliases(BuiltinScalarFunction::Log)[0] == "log"@);
    assert(spec_aliases(BuiltinScalarFunction::Power)[1] == "pow"@);
    assert(spec_aliases(BuiltinScalarFunction::Sin)[0] == "sin"@);
    assert(spec_aliases(BuiltinScalarFunction::Cot)[0] == "cot"@);
    assert(spec_aliases(BuiltinScalarFunction::Chr)[0] == "chr"@);
}

proof fn lemma_sound_len4(s: Seq<char>)
    ensures
        match lookup_len4(s) {
            Some(f) => is_alias_of(f, s),
            None => true,
        },
{
    assert(spec_aliases(BuiltinScalarFunction::Atan)[0] == "atan"@);
    assert(spec_aliases(BuiltinScalarFunction::Cbrt)[0] == "cbrt"@);
    assert(spec_aliases(BuiltinScalarFunction::Ceil)[0] == "ceil"@);
    assert(spec_aliases(BuiltinScalarFunction::Cosh)[0] == "cosh"@);
    assert(spec_aliases(BuiltinScalarFunction::Log2)[0] == "log2"@);
    assert(spec_aliases(BuiltinScalarFunction::Sinh)[0] == "sinh"@);
    assert(spec_aliases(BuiltinScalarFunction::Sqrt)[0] == "sqrt"@);
    assert(spec_aliases(BuiltinScalarFunction::Left)[0] == "left"@);
    assert(spec_aliases(BuiltinScalarFunction::Lpad)[0] == "lpad"@);
    assert(spec_aliases(BuiltinScalarFunction::Rpad)[0] == "rpad"@);
    assert(spec_aliases(BuiltinScalarFunction::Trim)[0] == "trim"@);
    assert(spec_aliases(BuiltinScalarFunction::Uuid)[0] == "uuid"@);
}

proof fn lemma_sound_len5(s: Seq<char>)
    ensures
        match lookup_len5(s) {
            Some(f) => is_alias_of(f, s),
            None => true,
        },
{
    assert(spec_aliases(BuiltinScalarFunction::Atan2)[0] == "atan2"@);
    assert(spec_aliases(BuiltinScalarFunction::Acosh)[0] == "acosh"@);
    assert(spec_aliases(BuiltinScalarFunction::Asinh)[0] == "asinh"@);
    assert(spec_aliases(BuiltinScalarFunction::Atanh)[0] == "atanh"@);
    assert(spec_aliases(BuiltinScalarFunction::Floor)[0] == "floor"@);
    assert(spec_aliases(BuiltinScalarFunction::Log10)[0] == "log10"@);
    assert(spec_aliases(BuiltinScalarFunction::Nanvl)[0] == "nanvl"@);
    assert(spec_aliases(BuiltinScalarFunction::Power)[0] == "power"@);
    assert(spec_aliases(BuiltinScalarFunction::Round)[0] == "round"@);
    assert(spec_aliases(BuiltinScalarFunction::Trunc)[0] == "trunc"@);
    assert(spec_aliases(BuiltinScalarFunction::Ascii)[0] == "ascii"@);
    assert(spec_aliases(BuiltinScalarFunction::Btrim)[0] == "btrim"@);
    assert(spec_aliases(BuiltinScalarFunction::Lower)[0] == "lower"@);
    assert(spec_aliases(BuiltinScalarFunction::Ltrim)[0] == "ltrim"@);
    assert(spec_aliases(BuiltinScalarFunction::Right)[0] == "right"@);
    assert(spec_aliases(BuiltinScalarFunction::Rtrim)[0] == "rtrim"@);
    assert(spec_aliases(BuiltinScalarFunction::Strpos)[1] == "instr"@);
    assert(spec_aliases(BuiltinScalarFunction::Upper)[0] == "upper"@);
}

proof fn lemma_sound_len6(s: Seq<char>)
    ensures
        match lookup_len6(s) {
            Some(f) => is_alias_of(f, s),
            None => true,
        },
{
    assert(spec_aliases(BuiltinScalarFunction::Iszero)[0] == "iszero"@);
    assert(spec_aliases(BuiltinScalarFunction::Signum)[0] == "signum"@);
    assert(spec_aliases(BuiltinScalarFunction::CharacterLength)[2] == "length"@);
    assert(spec_aliases(BuiltinScalarFunction::Concat)[0] == "concat"@);
    assert(spec_aliases(BuiltinScalarFunction::Random)[0] == "random"@);
    assert(spec_aliases(BuiltinScalarFunction::Repeat)[0] == "repeat"@);
    assert(spec_aliases(BuiltinScalarFunction::Strpos)[0] == "strpos"@);
    assert(spec_aliases(BuiltinScalarFunction::Substr)[0] == "substr"@);
    assert(spec_aliases(BuiltinScalarFunction::ToHex)[0] == "to_hex"@);
}

proof fn lemma_sound_len7(s: Seq<char>)
    ensures
        match lookup_len7(s) {
            Some(f) => is_alias_of(f, s),
            None => true,
        },
{
    assert(spec_aliases(BuiltinScalarFunction::Degrees)[0] == "degrees"@);
    assert(spec_aliases(BuiltinScalarFunction::Radians)[0] == "radians"@);
    assert(spec_aliases(BuiltinScalarFunction::InitCap)[0] == "initcap"@);
    assert(spec_aliases(BuiltinScalarFunction::Replace)[0] == "replace"@);
    assert(spec_aliases(BuiltinScalarFunction::Reverse)[0] == "reverse"@);
    assert(spec_aliases(BuiltinScalarFunction::OverLay)[0] == "overlay"@);
    assert(spec_aliases(BuiltinScalarFunction::ToChar)[0] == "to_char"@);
}

proof fn lemma_sound_len8(s: Seq<char>)
    ensures
        match lookup_len8(s) {
            Some(f) => is_alias_of(f, s),
            None => true,
        },
{
    assert(spec_aliases(BuiltinScalarFunction::Coalesce)[0] == "coalesce"@);
    assert(spec_aliases(BuiltinScalarFunction::Strpos)[2] == "position"@);
}

proof fn lemma_sound_len9(s: Seq<char>)
    ensures
        match lookup_len9(s) {
            Some(f) => is_alias_of(f, s),
            None => true,
        },
{
    assert(spec_aliases(BuiltinScalarFunction::Factorial)[0] == "factorial"@);
    assert(spec_aliases(BuiltinScalarFunction::ConcatWithSeparator)[0] == "concat_ws"@);
    assert(spec_aliases(BuiltinScalarFunction::EndsWith)[0] == "ends_with"@);
    assert(spec_aliases(BuiltinScalarFunction::MakeDate)[0] == "make_date"@);
    assert(spec_aliases(BuiltinScalarFunction::Translate)[0] == "translate"@);
}

proof fn lemma_sound_len10(s: Seq<char>)
    ensures
        match lookup_len10(s) {
            Some(f) => is_alias_of(f, s),
            None => true,
        },
{
    assert(spec_aliases(BuiltinScalarFunction::ArraySlice)[1] == "list_slice"@);
    assert(spec_aliases(BuiltinScalarFunction::ArrayUnion)[1] == "list_union"@);
    assert(spec_aliases(BuiltinScalarFunction::BitLength)[0] == "bit_length"@);
    assert(spec_aliases(BuiltinScalarFunction::SplitPart)[0] == "split_part"@);
}

proof fn lemma_sound_len11(s: Seq<char>)
    ensures
        match lookup_len11(s) {
            Some(f) => is_alias_of(f, s),
            None => true,
        },
{
    assert(spec_aliases(BuiltinScalarFunction::ArrayRemove)[1] == "list_remove"@);
    assert(spec_aliases(BuiltinScalarFunction::ArraySlice)[0] == "array_slice"@);
    assert(spec_aliases(BuiltinScalarFunction::ArrayUnion)[0] == "array_union"@);
    assert(spec_aliases(BuiltinScalarFunction::ArrayExcept)[1] == "list_except"@);
    assert(spec_aliases(BuiltinScalarFunction::ArrayResize)[1] == "list_resize"@);
    assert(spec_aliases(BuiltinScalarFunction::CharacterLength)[1] == "char_length"@);
    assert(spec_aliases(BuiltinScalarFunction::StartsWith)[0] == "starts_with"@);
    assert(spec_aliases(BuiltinScalarFunction::Levenshtein)[0] == "levenshtein"@);
    assert(spec_aliases(BuiltinScalarFunction::FindInSet)[0] == "find_in_set"@);
    assert(spec_aliases(BuiltinScalarFunction::ToChar)[1] == "date_format"@);
}

proof fn lemma_sound_len12(s: Seq<char>)
    ensures
        match lookup_len12(s) {
            Some(f) => is_alias_of(f, s),
            None => true,
        },
{
    assert(spec_aliases(BuiltinScalarFunction::ArrayElement)[2] == "list_element"@);
    assert(spec_aliases(BuiltinScalarFunction::ArrayElement)[3] == "list_extract"@);
    assert(spec_aliases(BuiltinScalarFunction::ArrayPosition)[3] == "list_indexof"@);
    assert(spec_aliases(BuiltinScalarFunction::ArrayRemove)[0] == "array_remove"@);
    assert(spec_aliases(BuiltinScalarFunction::ArrayReplace)[1] == "list_replace"@);
    assert(spec_aliases(BuiltinScalarFunction::ArrayReverse)[1] == "list_reverse"@);
    assert(spec_aliases(BuiltinScalarFunction::ArrayExcept)[0] == "array_except"@);
    assert(spec_aliases(BuiltinScalarFunction::ArrayResize)[0] == "array_resize"@);
    assert(spec_aliases(BuiltinScalarFunction::OctetLength)[0] == "octet_length"@);
    assert(spec_aliases(BuiltinScalarFunction::SubstrIndex)[0] == "substr_index"@);
}

proof fn lemma_sound_len13(s: Seq<char>)
    ensures
        match lookup_len13(s) {
            Some(f) => is_alias_of(f, s),
            None => true,
        },
{
    assert(spec_aliases(BuiltinScalarFunction::ArrayPopBack)[1] == "list_pop_back"@);
    assert(spec_aliases(BuiltinScalarFunction::ArrayElement)[0] == "array_element"@);
    assert(spec_aliases(BuiltinScalarFunction::ArrayElement)[1] == "array_extract"@);
    assert(spec_aliases(BuiltinScalarFunction::ArrayPosition)[1] == "list_position"@);
    assert(spec_aliases(BuiltinScalarFunction::ArrayPosition)[2] == "array_indexof"@);
    assert(spec_aliases(BuiltinScalarFunction::ArrayRemoveN)[1] == "list_remove_n"@);
    assert(spec_aliases(BuiltinScalarFunction::ArrayReplace)[0] == "array_replace"@);
    assert(spec_aliases(BuiltinScalarFunction::ArrayReverse)[0] == "array_reverse"@);
}

proof fn lemma_sound_len14(s: Seq<char>)
    ensures
        match lookup_len14(s) {
            Some(f) => is_alias_of(f, s),
            None => true,
        },
{
    assert(spec_aliases(BuiltinScalarFunction::ArrayPopFront)[1] == "list_pop_front"@);
    assert(spec_aliases(BuiltinScalarFunction::ArrayPopBack)[0] == "array_pop_back"@);
    assert(spec_aliases(BuiltinScalarFunction::ArrayPosition)[0] == "array_position"@);
    assert(spec_aliases(BuiltinScalarFunction::ArrayPositions)[1] == "list_positions"@);
    assert(spec_aliases(BuiltinScalarFunction::ArrayRemoveN)[0] == "array_remove_n"@);
    assert(spec_aliases(BuiltinScalarFunction::ArrayReplaceN)[1] == "list_replace_n"@);
    assert(spec_aliases(BuiltinScalarFunction::ArrayIntersect)[1] == "list_intersect"@);
}

proof fn lemma_sound_len15(s: Seq<char>)
    ensures
        match lookup_len15(s) {
            Some(f) => is_alias_of(f, s),
            None => true,
        },
{
    assert(spec_aliases(BuiltinScalarFunction::ArrayPopFront)[0] == "array_pop_front"@);
    assert(spec_aliases(BuiltinScalarFunction::ArrayPositions)[0] == "array_positions"@);
    assert(spec_aliases(BuiltinScalarFunction::ArrayRemoveAll)[1] == "list_remove_all"@);
    assert(spec_aliases(BuiltinScalarFunction::ArrayReplaceN)[0] == "array_replace_n"@);
    assert(spec_aliases(BuiltinScalarFunction::ArrayIntersect)[0] == "array_intersect"@);
    assert(spec_aliases(BuiltinScalarFunction::SubstrIndex)[1] == "substring_index"@);
}

proof fn lemma_sound_len16(s: Seq<char>)
    ensures
        match lookup_len16(s) {
            Some(f) => is_alias_of(f, s),
            None => true,
        },
{
    assert(spec_aliases(BuiltinScalarFunction::ArrayRemoveAll)[0] == "array_remove_all"@);
    assert(spec_aliases(BuiltinScalarFunction::ArrayReplaceAll)[1] == "list_replace_all"@);
    assert(spec_aliases(BuiltinScalarFunction::CharacterLength)[0] == "character_length"@);
}

proof fn lemma_sound_len17(s: Seq<char>)
    ensures
        match lookup_len17(s) {
            Some(f) => is_alias_of(f, s),
            None => true,
        },
{
    assert(spec_aliases(BuiltinScalarFunction::ArrayReplaceAll)[0] == "array_replace_all"@);
}

/// A name that resolves does so to an identity it is truly an alias of:
/// the decision function never invents an owner.
pub proof fn lemma_lookup_sound(s: Seq<char>)
    ensures
        match lookup_spec(s) {
            Some(f) => is_alias_of(f, s),
            None => true,
        },
{
    reveal(lookup_spec);
    lemma_sound_len2(s);
    lemma_sound_len3(s);
    lemma_sound_len4(s);
    lemma_sound_len5(s);
    lemma_sound_len6(s);
    lemma_sound_len7(s);
    lemma_sound_len8(s);
    lemma_sound_len9(s);
    lemma_sound_len10(s);
    lemma_sound_len11(s);
    lemma_sound_len12(s);
    lemma_sound_len13(s);
    lemma_sound_len14(s);
    lemma_sound_len15(s);
    lemma_sound_len16(s);
    lemma_sound_len17(s);
}

/// Compares two string slices character by character.
fn str_eq(a: &str, b: &str) -> (r: bool)
    ensures
        r == (a@ == b@),
{
    let n = a.unicode_len();
    if n != b.unicode_len() {
        return false;
    }
    let mut i: usize = 0;
    while i < n
        invariant
            n == a@.len(),
            n == b@.len(),
            i <= n,
            forall|j: int| 0 <= j < i ==> a@[j] == b@[j],
        decreases n - i,
    {
        if a.get_char(i) != b.get_char(i) {
            return false;
        }
        i = i + 1;
    }
    proof {
        assert(a@ =~= b@);
    }
    true
}

fn find_len2(name: &str) -> (r: Option<BuiltinScalarFunction>)
    ensures
        r == lookup_len2(name@),
{
    if str_eq(name, "ln") {
        Some(BuiltinScalarFunction::Ln)
    } else if str_eq(name, "pi") {
        Some(BuiltinScalarFunction::Pi)
    } else {
        None
    }
}

fn find_len3(name: &str) -> (r: Option<BuiltinScalarFunction>)
    ensures
        r == lookup_len3(name@),
{
    if str_eq(name, "cos") {
        Some(BuiltinScalarFunction::Cos)
    } else if str_eq(name, "exp") {
        Some(BuiltinScalarFunction::Exp)
    } else if str_eq(name, "gcd") {
        Some(BuiltinScalarFunction::Gcd)
    } else if str_eq(name, "lcm") {
        Some(BuiltinScalarFunction::Lcm)
    } else if str_eq(name, "log") {
        Some(BuiltinScalarFunction::Log)
    } else if str_eq(name, "pow") {
        Some(BuiltinScalarFunction::Power)
    } else if str_eq(name, "sin") {
        Some(BuiltinScalarFunction::Sin)
    } else if str_eq(name, "cot") {
        Some(BuiltinScalarFunction::Cot)
    } else if str_eq(name, "chr") {
        Some(BuiltinScalarFunction::Chr)
    } else {
        None
    }
}

fn find_len4(name: &str) -> (r: Option<BuiltinScalarFunction>)
    ensures
        r == lookup_len4(name@),
{
    if str_eq(name, "atan") {
        Some(BuiltinScalarFunction::Atan)
    } else if str_eq(name, "cbrt") {
        Some(BuiltinScalarFunction::Cbrt)
    } else if str_eq(name, "ceil") {
        Some(BuiltinScalarFunction::Ceil)
    } else if str_eq(name, "cosh") {
        Some(BuiltinScalarFunction::Cosh)
    } else if str_eq(name, "log2") {
        Some(BuiltinScalarFunction::Log2)
    } else if str_eq(name, "sinh") {
        Some(BuiltinScalarFunction::Sinh)
    } else if str_eq(name, "sqrt") {
        Some(BuiltinScalarFunction::Sqrt)
    } else if str_eq(name, "left") {
        Some(BuiltinScalarFunction::Left)
    } else if str_eq(name, "lpad") {
        Some(BuiltinScalarFunction::Lpad)
    } else if str_eq(name, "rpad") {
        Some(BuiltinScalarFunction::Rpad)
    } else if str_eq(name, "trim") {
        Some(BuiltinScalarFunction::Trim)
    } else if str_eq(name, "uuid") {
        Some(BuiltinScalarFunction::Uuid)
    } else {
        None
    }
}

fn find_len5(name: &str) -> (r: Option<BuiltinScalarFunction>)
    ensures
        r == lookup_len5(name@),
{
    if str_eq(name, "atan2") {
        Some(BuiltinScalarFunction::Atan2)
    } else if str_eq(name, "acosh") {
        Some(BuiltinScalarFunction::Acosh)
    } else if str_eq(name, "asinh") {
        Some(BuiltinScalarFunction::Asinh)
    } else if str_eq(name, "atanh") {
        Some(BuiltinScalarFunction::Atanh)
    } else if str_eq(name, "floor") {
        Some(BuiltinScalarFunction::Floor)
    } else if str_eq(name, "log10") {
        Some(BuiltinScalarFunction::Log10)
    } else if str_eq(name, "nanvl") {
        Some(BuiltinScalarFunction::Nanvl)
    } else if str_eq(name, "power") {
        Some(BuiltinScalarFunction::Power)
    } else if str_eq(name, "round") {
        Some(BuiltinScalarFunction::Round)
    } else if str_eq(name, "trunc") {
        Some(BuiltinScalarFunction::Trunc)
    } else if str_eq(name, "ascii") {
        Some(BuiltinScalarFunction::Ascii)
    } else if str_eq(name, "btrim") {
        Some(BuiltinScalarFunction::Btrim)
    } else if str_eq(name, "lower") {
        Some(BuiltinScalarFunction::Lower)
    } else if str_eq(name, "ltrim") {
        Some(BuiltinScalarFunction::Ltrim)
    } else if str_eq(name, "right") {
        Some(BuiltinScalarFunction::Right)
    } else if str_eq(name, "rtrim") {
        Some(BuiltinScalarFunction::Rtrim)
    } else if str_eq(name, "instr") {
        Some(BuiltinScalarFunction::Strpos)
    } else if str_eq(name, "upper") {
        Some(BuiltinScalarFunction::Upper)
    } else {
        None
    }
}

fn find_len6(name: &str) -> (r: Option<BuiltinScalarFunction>)
    ensures
        r == lookup_len6(name@),
{
    if str_eq(name, "iszero") {
        Some(BuiltinScalarFunction::Iszero)
    } else if str_eq(name, "signum") {
        Some(BuiltinScalarFunction::Signum)
    } else if str_eq(name, "length") {
        Some(BuiltinScalarFunction::CharacterLength)
    } else if str_eq(name, "concat") {
        Some(BuiltinScalarFunction::Concat)
    } else if str_eq(name, "random") {
        Some(BuiltinScalarFunction::Random)
    } else if str_eq(name, "repeat") {
        Some(BuiltinScalarFunction::Repeat)
    } else if str_eq(name, "strpos") {
        Some(BuiltinScalarFunction::Strpos)
    } else if str_eq(name, "substr") {
        Some(BuiltinScalarFunction::Substr)
    } else if str_eq(name, "to_hex") {
        Some(BuiltinScalarFunction::ToHex)
    } else {
        None
    }
}

fn find_len7(name: &str) -> (r: Option<BuiltinScalarFunction>)
    ensures
        r == lookup_len7(name@),
{
    if str_eq(name, "degrees") {
        Some(BuiltinScalarFunction::Degrees)
    } else if str_eq(name, "radians") {
        Some(BuiltinScalarFunction::Radians)
    } else if str_eq(name, "initcap") {
        Some(BuiltinScalarFunction::InitCap)
    } else if str_eq(name, "replace") {
        Some(BuiltinScalarFunction::Replace)
    } else if str_eq(name, "reverse") {
        Some(BuiltinScalarFunction::Reverse)
    } else if str_eq(name, "overlay") {
        Some(BuiltinScalarFunction::OverLay)
    } else if str_eq(name, "to_char") {
        Some(BuiltinScalarFunction::ToChar)
    } else {
        None
    }
}

fn find_len8(name: &str) -> (r: Option<BuiltinScalarFunction>)
    ensures
        r == lookup_len8(name@),
{
    if str_eq(name, "coalesce") {
        Some(BuiltinScalarFunction::Coalesce)
    } else if str_eq(name, "position") {
        Some(BuiltinScalarFunction::Strpos)
    } else {
        None
    }
}

fn find_len9(name: &str) -> (r: Option<BuiltinScalarFunction>)
    ensures
        r == lookup_len9(name@),
{
    if str_eq(name, "factorial") {
        Some(BuiltinScalarFunction::Factorial)
    } else if str_eq(name, "concat_ws") {
        Some(BuiltinScalarFunction::ConcatWithSeparator)
    } else if str_eq(name, "ends_with") {
        Some(BuiltinScalarFunction::EndsWith)
    } else if str_eq(name, "make_date") {
        Some(BuiltinScalarFunction::MakeDate)
    } else if str_eq(name, "translate") {
        Some(BuiltinScalarFunction::Translate)
    } else {
        None
    }
}

fn find_len10(name: &str) -> (r: Option<BuiltinScalarFunction>)
    ensures
        r == lookup_len10(name@),
{
    if str_eq(name, "list_slice") {
        Some(BuiltinScalarFunction::ArraySlice)
    } else if str_eq(name, "list_union") {
        Some(BuiltinScalarFunction::ArrayUnion)
    } else if str_eq(name, "bit_length") {
        Some(BuiltinScalarFunction::BitLength)
    } else if str_eq(name, "split_part") {
        Some(BuiltinScalarFunction::SplitPart)
    } else {
        None
    }
}

fn find_len11(name: &str) -> (r: Option<BuiltinScalarFunction>)
    ensures
        r == lookup_len11(name@),
{
    if str_eq(name, "list_remove") {
        Some(BuiltinScalarFunction::ArrayRemove)
    } else if str_eq(name, "array_slice") {
        Some(BuiltinScalarFunction::ArraySlice)
    } else if str_eq(name, "array_union") {
        Some(BuiltinScalarFunction::ArrayUnion)
    } else if str_eq(name, "list_except") {
        Some(BuiltinScalarFunction::ArrayExcept)
    } else if str_eq(name, "list_resize") {
        Some(BuiltinScalarFunction::ArrayResize)
    } else if str_eq(name, "char_length") {
        Some(BuiltinScalarFunction::CharacterLength)
    } else if str_eq(name, "starts_with") {
        Some(BuiltinScalarFunction::StartsWith)
    } else if str_eq(name, "levenshtein") {
        Some(BuiltinScalarFunction::Levenshtein)
    } else if str_eq(name, "find_in_set") {
        Some(BuiltinScalarFunction::FindInSet)
    } else if str_eq(name, "date_format") {
        Some(BuiltinScalarFunction::ToChar)
    } else {
        None
    }
}

fn find_len12(name: &str) -> (r: Option<BuiltinScalarFunction>)
    ensures
        r == lookup_len12(name@),
{
    if str_eq(name, "list_element") {
        Some(BuiltinScalarFunction::ArrayElement)
    } else if str_eq(name, "list_extract") {
        Some(BuiltinScalarFunction::ArrayElement)
    } else if str_eq(name, "list_indexof") {
        Some(BuiltinScalarFunction::ArrayPosition)
    } else if str_eq(name, "array_remove") {
        Some(BuiltinScalarFunction::ArrayRemove)
    } else if str_eq(name, "list_replace") {
        Some(BuiltinScalarFunction::ArrayReplace)
    } else if str_eq(name, "list_reverse") {
        Some(BuiltinScalarFunction::ArrayReverse)
    } else if str_eq(name, "array_except") {
        Some(BuiltinScalarFunction::ArrayExcept)
    } else if str_eq(name, "array_resize") {
        Some(BuiltinScalarFunction::ArrayResize)
    } else if str_eq(name, "octet_length") {
        Some(BuiltinScalarFunction::OctetLength)
    } else if str_eq(name, "substr_index") {
        Some(BuiltinScalarFunction::SubstrIndex)
    } else {
        None
    }
}

fn find_len13(name: &str) -> (r: Option<BuiltinScalarFunction>)
    ensures
        r == lookup_len13(name@),
{
    if str_eq(name, "list_pop_back") {
        Some(BuiltinScalarFunction::ArrayPopBack)
    } else if str_eq(name, "array_element") {
        Some(BuiltinScalarFunction::ArrayElement)
    } else if str_eq(name, "array_extract") {
        Some(BuiltinScalarFunction::ArrayElement)
    } else if str_eq(name, "list_position") {
        Some(BuiltinScalarFunction::ArrayPosition)
    } else if str_eq(name, "array_indexof") {
        Some(BuiltinScalarFunction::ArrayPosition)
    } else if str_eq(name, "list_remove_n") {
        Some(BuiltinScalarFunction::ArrayRemoveN)
    } else if str_eq(name, "array_replace") {
        Some(BuiltinScalarFunction::ArrayReplace)
    } else if str_eq(name, "array_reverse") {
        Some(BuiltinScalarFunction::ArrayReverse)
    } else {
        None
    }
}

fn find_len14(name: &str) -> (r: Option<BuiltinScalarFunction>)
    ensures
        r == lookup_len14(name@),
{
    if str_eq(name, "list_pop_front") {
        Some(BuiltinScalarFunction::ArrayPopFront)
    } else if str_eq(name, "array_pop_back") {
        Some(BuiltinScalarFunction::ArrayPopBack)
    } else if str_eq(name, "array_position") {
        Some(BuiltinScalarFunction::ArrayPosition)
    } else if str_eq(name, "list_positions") {
        Some(BuiltinScalarFunction::ArrayPositions)
    } else if str_eq(name, "array_remove_n") {
        Some(BuiltinScalarFunction::ArrayRemoveN)
    } else if str_eq(name, "list_replace_n") {
        Some(BuiltinScalarFunction::ArrayReplaceN)
    } else if str_eq(name, "list_intersect") {
        Some(BuiltinScalarFunction::ArrayIntersect)
    } else {
        None
    }
}

fn find_len15(name: &str) -> (r: Option<BuiltinScalarFunction>)
    ensures
        r == lookup_len15(name@),
{
    if str_eq(name, "array_pop_front") {
        Some(BuiltinScalarFunction::ArrayPopFront)
    } else if str_eq(name, "array_positions") {
        Some(BuiltinScalarFunction::ArrayPositions)
    } else if str_eq(name, "list_remove_all") {
        Some(BuiltinScalarFunction::ArrayRemoveAll)
    } else if str_eq(name, "array_replace_n") {
        Some(BuiltinScalarFunction::ArrayReplaceN)
    } else if str_eq(name, "array_intersect") {
        Some(BuiltinScalarFunction::ArrayIntersect)
    } else if str_eq(name, "substring_index") {
        Some(BuiltinScalarFunction::SubstrIndex)
    } else {
        None
    }
}

fn find_len16(name: &str) -> (r: Option<BuiltinScalarFunction>)
    ensures
        r == lookup_len16(name@),
{
    if str_eq(name, "array_remove_all") {
        Some(BuiltinScalarFunction::ArrayRemoveAll)
    } else if str_eq(name, "list_replace_all") {
        Some(BuiltinScalarFunction::ArrayReplaceAll)
    } else if str_eq(name, "character_length") {
        Some(BuiltinScalarFunction::CharacterLength)
    } else {
        None
    }
}

fn find_len17(name: &str) -> (r: Option<BuiltinScalarFunction>)
    ensures
        r == lookup_len17(name@),
{
    if str_eq(name, "array_replace_all") {
        Some(BuiltinScalarFunction::ArrayReplaceAll)
    } else {
        None
    }
}

/// Maps a sql function name to the identity that answers to it.
pub fn name_to_function(name: &str) -> (r: Option<BuiltinScalarFunction>)
    ensures
        r == lookup_spec(name@),
{
    proof {
        reveal(lookup_spec);
    }
    let n = name.unicode_len();
    if n == 2 {
        find_len2(name)
    } else if n == 3 {
        find_len3(name)
    } else if n == 4 {
        find_len4(name)
    } else if n == 5 {
        find_len5(name)
    } else if n == 6 {
        find_len6(name)
    } else if n == 7 {
        find_len7(name)
    } else if n == 8 {
        find_len8(name)
    } else if n == 9 {
        find_len9(name)
    } else if n == 10 {
        find_len10(name)
    } else if n == 11 {
        find_len11(name)
    } else if n == 12 {
        find_len12(name)
    } else if n == 13 {
        find_len13(name)
    } else if n == 14 {
        find_len14(name)
    } else if n == 15 {
        find_len15(name)
    } else if n == 16 {
        find_len16(name)
    } else if n == 17 {
        find_len17(name)
    } else {
        None
    }
}

/// Returns the canonical sql name of an identity, the name it displays under.
pub fn function_to_name(fun: BuiltinScalarFunction) -> (r: &'static str)
    ensures
        r@ == spec_name(fun),
{
    fun.name()
}

/// Resolves a name to the one function identity the name is an alias of;
/// a name that is nobody's alias fails with an error carrying the attempted
/// name.
pub fn lookup(name: &str) -> (r: Result<BuiltinScalarFunction, PlanError>)
    ensures
        match r {
            Ok(f) => is_alias_of(f, name@) && lookup_spec(name@) == Some(f),
            Err(e) => (forall|f: BuiltinScalarFunction| !is_alias_of(f, name@)) && (e matches
            PlanError::UnknownFunction { name: n } && n@ == name@),
        },
{
    proof {
        lemma_lookup_sound(name@);
    }
    match name_to_function(name) {
        Some(f) => Ok(f),
        None => {
            proof {
                assert forall|f: BuiltinScalarFunction| !is_alias_of(f, name@) by {
                    if is_alias_of(f, name@) {
                        lemma_alias_lookup(f, name@);
                    }
                }
            }
            Err(PlanError::UnknownFunction { name: name.to_owned() })
        },
    }
}

} // verus!
