//! The closed catalog of scalar function identities and their metadata.

use vstd::prelude::*;

verus! {

/// One identity per supported scalar function.
#[derive(Clone, Copy, Debug, PartialEq, Eq, Hash, Structural)]
pub enum BuiltinScalarFunction {
    /// atan
    Atan,
    /// atan2
    Atan2,
    /// acosh
    Acosh,
    /// asinh
    Asinh,
    /// atanh
    Atanh,
    /// cbrt
    Cbrt,
    /// ceil
    Ceil,
    /// coalesce
    Coalesce,
    /// cos
    Cos,
    /// cosh
    Cosh,
    /// degrees
    Degrees,
    /// exp
    Exp,
    /// factorial
    Factorial,
    /// floor
    Floor,
    /// gcd
    Gcd,
    /// lcm
    Lcm,
    /// iszero
    Iszero,
    /// ln
    Ln,
    /// log
    Log,
    /// log10
    Log10,
    /// log2
    Log2,
    /// nanvl
    Nanvl,
    /// pi
    Pi,
    /// power
    Power,
    /// radians
    Radians,
    /// round
    Round,
    /// signum
    Signum,
    /// sin
    Sin,
    /// sinh
    Sinh,
    /// sqrt
    Sqrt,
    /// trunc
    Trunc,
    /// cot
    Cot,
    /// array_pop_front
    ArrayPopFront,
    /// array_pop_back
    ArrayPopBack,
    /// array_element
    ArrayElement,
    /// array_position
    ArrayPosition,
    /// array_positions
    ArrayPositions,
    /// array_remove
    ArrayRemove,
    /// array_remove_n
    ArrayRemoveN,
    /// array_remove_all
    ArrayRemoveAll,
    /// array_replace
    ArrayReplace,
    /// array_replace_n
    ArrayReplaceN,
    /// array_replace_all
    ArrayReplaceAll,
    /// array_reverse
    ArrayReverse,
    /// array_slice
    ArraySlice,
    /// array_intersect
    ArrayIntersect,
    /// array_union
    ArrayUnion,
    /// array_except
    ArrayExcept,
    /// array_resize
    ArrayResize,
    /// ascii
    Ascii,
    /// bit_length
    BitLength,
    /// btrim
    Btrim,
    /// character_length
    CharacterLength,
    /// chr
    Chr,
    /// concat
    Concat,
    /// concat_ws
    ConcatWithSeparator,
    /// ends_with
    EndsWith,
    /// initcap
    InitCap,
    /// left
    Left,
    /// lpad
    Lpad,
    /// lower
    Lower,
    /// ltrim
    Ltrim,
    /// octet_length
    OctetLength,
    /// random
    Random,
    /// repeat
    Repeat,
    /// replace
    Replace,
    /// reverse
    Reverse,
    /// right
    Right,
    /// rpad
    Rpad,
    /// rtrim
    Rtrim,
    /// split_part
    SplitPart,
    /// starts_with
    StartsWith,
    /// strpos
    Strpos,
    /// substr
    Substr,
    /// to_hex
    ToHex,
    /// make_date
    MakeDate,
    /// translate
    Translate,
    /// trim
    Trim,
    /// upper
    Upper,
    /// uuid
    Uuid,
    /// overlay
    OverLay,
    /// levenshtein
    Levenshtein,
    /// substr_index
    SubstrIndex,
    /// find_in_set
    FindInSet,
    /// to_char
    ToChar,
}

/// Every identity, in catalog order.
pub open spec fn all_functions_seq() -> Seq<BuiltinScalarFunction> {
    seq![
        BuiltinScalarFunction::Atan,
        BuiltinScalarFunction::Atan2,
        BuiltinScalarFunction::Acosh,
        BuiltinScalarFunction::Asinh,
        BuiltinScalarFunction::Atanh,
        BuiltinScalarFunction::Cbrt,
        BuiltinScalarFunction::Ceil,
        BuiltinScalarFunction::Coalesce,
        BuiltinScalarFunction::Cos,
        BuiltinScalarFunction::Cosh,
        BuiltinScalarFunction::Degrees,
        BuiltinScalarFunction::Exp,
        BuiltinScalarFunction::Factorial,
        BuiltinScalarFunction::Floor,
        BuiltinScalarFunction::Gcd,
        BuiltinScalarFunction::Lcm,
        BuiltinScalarFunction::Iszero,
        BuiltinScalarFunction::Ln,
        BuiltinScalarFunction::Log,
        BuiltinScalarFunction::Log10,
        BuiltinScalarFunction::Log2,
        BuiltinScalarFunction::Nanvl,
        BuiltinScalarFunction::Pi,
        BuiltinScalarFunction::Power,
        BuiltinScalarFunction::Radians,
        BuiltinScalarFunction::Round,
        BuiltinScalarFunction::Signum,
        BuiltinScalarFunction::Sin,
        BuiltinScalarFunction::Sinh,
        BuiltinScalarFunction::Sqrt,
        BuiltinScalarFunction::Trunc,
        BuiltinScalarFunction::Cot,
        BuiltinScalarFunction::ArrayPopFront,
        BuiltinScalarFunction::ArrayPopBack,
        BuiltinScalarFunction::ArrayElement,
        BuiltinScalarFunction::ArrayPosition,
        BuiltinScalarFunction::ArrayPositions,
        BuiltinScalarFunction::ArrayRemove,
        BuiltinScalarFunction::ArrayRemoveN,
        BuiltinScalarFunction::ArrayRemoveAll,
        BuiltinScalarFunction::ArrayReplace,
        BuiltinScalarFunction::ArrayReplaceN,
        BuiltinScalarFunction::ArrayReplaceAll,
        BuiltinScalarFunction::ArrayReverse,
        BuiltinScalarFunction::ArraySlice,
        BuiltinScalarFunction::ArrayIntersect,
        BuiltinScalarFunction::ArrayUnion,
        BuiltinScalarFunction::ArrayExcept,
        BuiltinScalarFunction::ArrayResize,
        BuiltinScalarFunction::Ascii,
        BuiltinScalarFunction::BitLength,
        BuiltinScalarFunction::Btrim,
        BuiltinScalarFunction::CharacterLength,
        BuiltinScalarFunction::Chr,
        BuiltinScalarFunction::Concat,
        BuiltinScalarFunction::ConcatWithSeparator,
        BuiltinScalarFunction::EndsWith,
        BuiltinScalarFunction::InitCap,
        BuiltinScalarFunction::Left,
        BuiltinScalarFunction::Lpad,
        BuiltinScalarFunction::Lower,
        BuiltinScalarFunction::Ltrim,
        BuiltinScalarFunction::OctetLength,
        BuiltinScalarFunction::Random,
        BuiltinScalarFunction::Repeat,
        BuiltinScalarFunction::Replace,
        BuiltinScalarFunction::Reverse,
        BuiltinScalarFunction::Right,
        BuiltinScalarFunction::Rpad,
        BuiltinScalarFunction::Rtrim,
        BuiltinScalarFunction::SplitPart,
        BuiltinScalarFunction::StartsWith,
        BuiltinScalarFunction::Strpos,
        BuiltinScalarFunction::Substr,
        BuiltinScalarFunction::ToHex,
        BuiltinScalarFunction::MakeDate,
        BuiltinScalarFunction::Translate,
        BuiltinScalarFunction::Trim,
        BuiltinScalarFunction::Upper,
        BuiltinScalarFunction::Uuid,
        BuiltinScalarFunction::OverLay,
        BuiltinScalarFunction::Levenshtein,
        BuiltinScalarFunction::SubstrIndex,
        BuiltinScalarFunction::FindInSet,
        BuiltinScalarFunction::ToChar,
    ]
}

/// The ordered alias list of an identity; the first entry is its canonical name.
pub open spec fn spec_aliases(f: BuiltinScalarFunction) -> Seq<Seq<char>> {
    match f {
        BuiltinScalarFunction::Atan => seq!["atan"@],
        BuiltinScalarFunction::Atan2 => seq!["atan2"@],
        BuiltinScalarFunction::Acosh => seq!["acosh"@],
        BuiltinScalarFunction::Asinh => seq!["asinh"@],
        BuiltinScalarFunction::Atanh => seq!["atanh"@],
        BuiltinScalarFunction::Cbrt => seq!["cbrt"@],
        BuiltinScalarFunction::Ceil => seq!["ceil"@],
        BuiltinScalarFunction::Coalesce => seq!["coalesce"@],
        BuiltinScalarFunction::Cos => seq!["cos"@],
        BuiltinScalarFunction::Cosh => seq!["cosh"@],
        BuiltinScalarFunction::Degrees => seq!["degrees"@],
        BuiltinScalarFunction::Exp => seq!["exp"@],
        BuiltinScalarFunction::Factorial => seq!["factorial"@],
        BuiltinScalarFunction::Floor => seq!["floor"@],
        BuiltinScalarFunction::Gcd => seq!["gcd"@],
        BuiltinScalarFunction::Lcm => seq!["lcm"@],
        BuiltinScalarFunction::Iszero => seq!["iszero"@],
        BuiltinScalarFunction::Ln => seq!["ln"@],
        BuiltinScalarFunction::Log => seq!["log"@],
        BuiltinScalarFunction::Log10 => seq!["log10"@],
        BuiltinScalarFunction::Log2 => seq!["log2"@],
        BuiltinScalarFunction::Nanvl => seq!["nanvl"@],
        BuiltinScalarFunction::Pi => seq!["pi"@],
        BuiltinScalarFunction::Power => seq!["power"@, "pow"@],
        BuiltinScalarFunction::Radians => seq!["radians"@],
        BuiltinScalarFunction::Round => seq!["round"@],
        BuiltinScalarFunction::Signum => seq!["signum"@],
        BuiltinScalarFunction::Sin => seq!["sin"@],
        BuiltinScalarFunction::Sinh => seq!["sinh"@],
        BuiltinScalarFunction::Sqrt => seq!["sqrt"@],
        BuiltinScalarFunction::Trunc => seq!["trunc"@],
        BuiltinScalarFunction::Cot => seq!["cot"@],
        BuiltinScalarFunction::ArrayPopFront => seq!["array_pop_front"@, "list_pop_front"@],
        BuiltinScalarFunction::ArrayPopBack => seq!["array_pop_back"@, "list_pop_back"@],
        BuiltinScalarFunction::ArrayElement => seq!["array_element"@, "array_extract"@, "list_element"@, "list_extract"@],
        BuiltinScalarFunction::ArrayPosition => seq!["array_position"@, "list_position"@, "array_indexof"@, "list_indexof"@],
        BuiltinScalarFunction::ArrayPositions => seq!["array_positions"@, "list_positions"@],
        BuiltinScalarFunction::ArrayRemove => seq!["array_remove"@, "list_remove"@],
        BuiltinScalarFunction::ArrayRemoveN => seq!["array_remove_n"@, "list_remove_n"@],
        BuiltinScalarFunction::ArrayRemoveAll => seq!["array_remove_all"@, "list_remove_all"@],
        BuiltinScalarFunction::ArrayReplace => seq!["array_replace"@, "list_replace"@],
        BuiltinScalarFunction::ArrayReplaceN => seq!["array_replace_n"@, "list_replace_n"@],
        BuiltinScalarFunction::ArrayReplaceAll => seq!["array_replace_all"@, "list_replace_all"@],
        BuiltinScalarFunction::ArrayReverse => seq!["array_reverse"@, "list_reverse"@],
        BuiltinScalarFunction::ArraySlice => seq!["array_slice"@, "list_slice"@],
        BuiltinScalarFunction::ArrayIntersect => seq!["array_intersect"@, "list_intersect"@],
        BuiltinScalarFunction::ArrayUnion => seq!["array_union"@, "list_union"@],
        BuiltinScalarFunction::ArrayExcept => seq!["array_except"@, "list_except"@],
        BuiltinScalarFunction::ArrayResize => seq!["array_resize"@, "list_resize"@],
        BuiltinScalarFunction::Ascii => seq!["ascii"@],
        BuiltinScalarFunction::BitLength => seq!["bit_length"@],
        BuiltinScalarFunction::Btrim => seq!["btrim"@],
        BuiltinScalarFunction::CharacterLength => seq!["character_length"@, "char_length"@, "length"@],
        BuiltinScalarFunction::Chr => seq!["chr"@],
        BuiltinScalarFunction::Concat => seq!["concat"@],
        BuiltinScalarFunction::ConcatWithSeparator => seq!["concat_ws"@],
        BuiltinScalarFunction::EndsWith => seq!["ends_with"@],
        BuiltinScalarFunction::InitCap => seq!["initcap"@],
        BuiltinScalarFunction::Left => seq!["left"@],
        BuiltinScalarFunction::Lpad => seq!["lpad"@],
        BuiltinScalarFunction::Lower => seq!["lower"@],
        BuiltinScalarFunction::Ltrim => seq!["ltrim"@],
        BuiltinScalarFunction::OctetLength => seq!["octet_length"@],
        BuiltinScalarFunction::Random => seq!["random"@],
        BuiltinScalarFunction::Repeat => seq!["repeat"@],
        BuiltinScalarFunction::Replace => seq!["replace"@],
        BuiltinScalarFunction::Reverse => seq!["reverse"@],
        BuiltinScalarFunction::Right => seq!["right"@],
        BuiltinScalarFunction::Rpad => seq!["rpad"@],
        BuiltinScalarFunction::Rtrim => seq!["rtrim"@],
        BuiltinScalarFunction::SplitPart => seq!["split_part"@],
        BuiltinScalarFunction::StartsWith => seq!["starts_with"@],
        BuiltinScalarFunction::Strpos => seq!["strpos"@, "instr"@, "position"@],
        BuiltinScalarFunction::Substr => seq!["substr"@],
        BuiltinScalarFunction::ToHex => seq!["to_hex"@],
        BuiltinScalarFunction::MakeDate => seq!["make_date"@],
        BuiltinScalarFunction::Translate => seq!["translate"@],
        BuiltinScalarFunction::Trim => seq!["trim"@],
        BuiltinScalarFunction::Upper => seq!["upper"@],
        BuiltinScalarFunction::Uuid => seq!["uuid"@],
        BuiltinScalarFunction::OverLay => seq!["overlay"@],
        BuiltinScalarFunction::Levenshtein => seq!["levenshtein"@],
        BuiltinScalarFunction::SubstrIndex => seq!["substr_index"@, "substring_index"@],
        BuiltinScalarFunction::FindInSet => seq!["find_in_set"@],
        BuiltinScalarFunction::ToChar => seq!["to_char"@, "date_format"@],
    }
}

/// The canonical name of an identity: its first alias.
pub open spec fn spec_name(f: BuiltinScalarFunction) -> Seq<char> {
    spec_aliases(f)[0]
}

/// An identity answers to a name exactly when the name is among its aliases.
pub open spec fn is_alias_of(f: BuiltinScalarFunction, s: Seq<char>) -> bool {
    spec_aliases(f).contains(s)
}

/// Every alias list holds at least the canonical name.
pub proof fn lemma_aliases_nonempty(f: BuiltinScalarFunction)
    ensures
        spec_aliases(f).len() >= 1,
{
}

impl BuiltinScalarFunction {
    /// Returns all names that can be used to call this function; the first
    /// one is the canonical name.
    pub fn aliases(&self) -> (r: Vec<&'static str>)
        ensures
            r@.len() == spec_aliases(*self).len(),
            forall|i: int| 0 <= i < r@.len() ==> r@[i]@ == spec_aliases(*self)[i],
    {
        match self {
            BuiltinScalarFunction::Atan => vec!["atan"],
            BuiltinScalarFunction::Atan2 => vec!["atan2"],
            BuiltinScalarFunction::Acosh => vec!["acosh"],
            BuiltinScalarFunction::Asinh => vec!["asinh"],
            BuiltinScalarFunction::Atanh => vec!["atanh"],
            BuiltinScalarFunction::Cbrt => vec!["cbrt"],
            BuiltinScalarFunction::Ceil => vec!["ceil"],
            BuiltinScalarFunction::Coalesce => vec!["coalesce"],
            BuiltinScalarFunction::Cos => vec!["cos"],
            BuiltinScalarFunction::Cosh => vec!["cosh"],
            BuiltinScalarFunction::Degrees => vec!["degrees"],
            BuiltinScalarFunction::Exp => vec!["exp"],
            BuiltinScalarFunction::Factorial => vec!["factorial"],
            BuiltinScalarFunction::Floor => vec!["floor"],
            BuiltinScalarFunction::Gcd => vec!["gcd"],
            BuiltinScalarFunction::Lcm => vec!["lcm"],
            BuiltinScalarFunction::Iszero => vec!["iszero"],
            BuiltinScalarFunction::Ln => vec!["ln"],
            BuiltinScalarFunction::Log => vec!["log"],
            BuiltinScalarFunction::Log10 => vec!["log10"],
            BuiltinScalarFunction::Log2 => vec!["log2"],
            BuiltinScalarFunction::Nanvl => vec!["nanvl"],
            BuiltinScalarFunction::Pi => vec!["pi"],
            BuiltinScalarFunction::Power => vec!["power", "pow"],
            BuiltinScalarFunction::Radians => vec!["radians"],
            BuiltinScalarFunction::Round => vec!["round"],
            BuiltinScalarFunction::Signum => vec!["signum"],
            BuiltinScalarFunction::Sin => vec!["sin"],
            BuiltinScalarFunction::Sinh => vec!["sinh"],
            BuiltinScalarFunction::Sqrt => vec!["sqrt"],
            BuiltinScalarFunction::Trunc => vec!["trunc"],
            BuiltinScalarFunction::Cot => vec!["cot"],
            BuiltinScalarFunction::ArrayPopFront => vec!["array_pop_front", "list_pop_front"],
            BuiltinScalarFunction::ArrayPopBack => vec!["array_pop_back", "list_pop_back"],
            BuiltinScalarFunction::ArrayElement => vec!["array_element", "array_extract", "list_element", "list_extract"],
            BuiltinScalarFunction::ArrayPosition => vec!["array_position", "list_position", "array_indexof", "list_indexof"],
            BuiltinScalarFunction::ArrayPositions => vec!["array_positions", "list_positions"],
            BuiltinScalarFunction::ArrayRemove => vec!["array_remove", "list_remove"],
            BuiltinScalarFunction::ArrayRemoveN => vec!["array_remove_n", "list_remove_n"],
            BuiltinScalarFunction::ArrayRemoveAll => vec!["array_remove_all", "list_remove_all"],
            BuiltinScalarFunction::ArrayReplace => vec!["array_replace", "list_replace"],
            BuiltinScalarFunction::ArrayReplaceN => vec!["array_replace_n", "list_replace_n"],
            BuiltinScalarFunction::ArrayReplaceAll => vec!["array_replace_all", "list_replace_all"],
            BuiltinScalarFunction::ArrayReverse => vec!["array_reverse", "list_reverse"],
            BuiltinScalarFunction::ArraySlice => vec!["array_slice", "list_slice"],
            BuiltinScalarFunction::ArrayIntersect => vec!["array_intersect", "list_intersect"],
            BuiltinScalarFunction::ArrayUnion => vec!["array_union", "list_union"],
            BuiltinScalarFunction::ArrayExcept => vec!["array_except", "list_except"],
            BuiltinScalarFunction::ArrayResize => vec!["array_resize", "list_resize"],
            BuiltinScalarFunction::Ascii => vec!["ascii"],
            BuiltinScalarFunction::BitLength => vec!["bit_length"],
            BuiltinScalarFunction::Btrim => vec!["btrim"],
            BuiltinScalarFunction::CharacterLength => vec!["character_length", "char_length", "length"],
            BuiltinScalarFunction::Chr => vec!["chr"],
            BuiltinScalarFunction::Concat => vec!["concat"],
            BuiltinScalarFunction::ConcatWithSeparator => vec!["concat_ws"],
            BuiltinScalarFunction::EndsWith => vec!["ends_with"],
            BuiltinScalarFunction::InitCap => vec!["initcap"],
            BuiltinScalarFunction::Left => vec!["left"],
            BuiltinScalarFunction::Lpad => vec!["lpad"],
            BuiltinScalarFunction::Lower => vec!["lower"],
            BuiltinScalarFunction::Ltrim => vec!["ltrim"],
            BuiltinScalarFunction::OctetLength => vec!["octet_length"],
            BuiltinScalarFunction::Random => vec!["random"],
            BuiltinScalarFunction::Repeat => vec!["repeat"],
            BuiltinScalarFunction::Replace => vec!["replace"],
            BuiltinScalarFunction::Reverse => vec!["reverse"],
            BuiltinScalarFunction::Right => vec!["right"],
            BuiltinScalarFunction::Rpad => vec!["rpad"],
            BuiltinScalarFunction::Rtrim => vec!["rtrim"],
            BuiltinScalarFunction::SplitPart => vec!["split_part"],
            BuiltinScalarFunction::StartsWith => vec!["starts_with"],
            BuiltinScalarFunction::Strpos => vec!["strpos", "instr", "position"],
            BuiltinScalarFunction::Substr => vec!["substr"],
            BuiltinScalarFunction::ToHex => vec!["to_hex"],
            BuiltinScalarFunction::MakeDate => vec!["make_date"],
            BuiltinScalarFunction::Translate => vec!["translate"],
            BuiltinScalarFunction::Trim => vec!["trim"],
            BuiltinScalarFunction::Upper => vec!["upper"],
            BuiltinScalarFunction::Uuid => vec!["uuid"],
            BuiltinScalarFunction::OverLay => vec!["overlay"],
            BuiltinScalarFunction::Levenshtein => vec!["levenshtein"],
            BuiltinScalarFunction::SubstrIndex => vec!["substr_index", "substring_index"],
            BuiltinScalarFunction::FindInSet => vec!["find_in_set"],
            BuiltinScalarFunction::ToChar => vec!["to_char", "date_format"],
        }
    }

    /// Returns the canonical name of this function.
    pub fn name(&self) -> (r: &'static str)
        ensures
            r@ == spec_name(*self),
    {
        match self {
            BuiltinScalarFunction::Atan => "atan",
            BuiltinScalarFunction::Atan2 => "atan2",
            BuiltinScalarFunction::Acosh => "acosh",
            BuiltinScalarFunction::Asinh => "asinh",
            BuiltinScalarFunction::Atanh => "atanh",
            BuiltinScalarFunction::Cbrt => "cbrt",
            BuiltinScalarFunction::Ceil => "ceil",
            BuiltinScalarFunction::Coalesce => "coalesce",
            BuiltinScalarFunction::Cos => "cos",
            BuiltinScalarFunction::Cosh => "cosh",
            BuiltinScalarFunction::Degrees => "degrees",
            BuiltinScalarFunction::Exp => "exp",
            BuiltinScalarFunction::Factorial => "factorial",
            BuiltinScalarFunction::Floor => "floor",
            BuiltinScalarFunction::Gcd => "gcd",
            BuiltinScalarFunction::Lcm => "lcm",
            BuiltinScalarFunction::Iszero => "iszero",
            BuiltinScalarFunction::Ln => "ln",
            BuiltinScalarFunction::Log => "log",
            BuiltinScalarFunction::Log10 => "log10",
            BuiltinScalarFunction::Log2 => "log2",
            BuiltinScalarFunction::Nanvl => "nanvl",
            BuiltinScalarFunction::Pi => "pi",
            BuiltinScalarFunction::Power => "power",
            BuiltinScalarFunction::Radians => "radians",
            BuiltinScalarFunction::Round => "round",
            BuiltinScalarFunction::Signum => "signum",
            BuiltinScalarFunction::Sin => "sin",
            BuiltinScalarFunction::Sinh => "sinh",
            BuiltinScalarFunction::Sqrt => "sqrt",
            BuiltinScalarFunction::Trunc => "trunc",
            BuiltinScalarFunction::Cot => "cot",
            BuiltinScalarFunction::ArrayPopFront => "array_pop_front",
            BuiltinScalarFunction::ArrayPopBack => "array_pop_back",
            BuiltinScalarFunction::ArrayElement => "array_element",
            BuiltinScalarFunction::ArrayPosition => "array_position",
            BuiltinScalarFunction::ArrayPositions => "array_positions",
            BuiltinScalarFunction::ArrayRemove => "array_remove",
            BuiltinScalarFunction::ArrayRemoveN => "array_remove_n",
            BuiltinScalarFunction::ArrayRemoveAll => "array_remove_all",
            BuiltinScalarFunction::ArrayReplace => "array_replace",
            BuiltinScalarFunction::ArrayReplaceN => "array_replace_n",
            BuiltinScalarFunction::ArrayReplaceAll => "array_replace_all",
            BuiltinScalarFunction::ArrayReverse => "array_reverse",
            BuiltinScalarFunction::ArraySlice => "array_slice",
            BuiltinScalarFunction::ArrayIntersect => "array_intersect",
            BuiltinScalarFunction::ArrayUnion => "array_union",
            BuiltinScalarFunction::ArrayExcept => "array_except",
            BuiltinScalarFunction::ArrayResize => "array_resize",
            BuiltinScalarFunction::Ascii => "ascii",
            BuiltinScalarFunction::BitLength => "bit_length",
            BuiltinScalarFunction::Btrim => "btrim",
            BuiltinScalarFunction::CharacterLength => "character_length",
            BuiltinScalarFunction::Chr => "chr",
            BuiltinScalarFunction::Concat => "concat",
            BuiltinScalarFunction::ConcatWithSeparator => "concat_ws",
            BuiltinScalarFunction::EndsWith => "ends_with",
            BuiltinScalarFunction::InitCap => "initcap",
            BuiltinScalarFunction::Left => "left",
            BuiltinScalarFunction::Lpad => "lpad",
            BuiltinScalarFunction::Lower => "lower",
            BuiltinScalarFunction::Ltrim => "ltrim",
            BuiltinScalarFunction::OctetLength => "octet_length",
            BuiltinScalarFunction::Random => "random",
            BuiltinScalarFunction::Repeat => "repeat",
            BuiltinScalarFunction::Replace => "replace",
            BuiltinScalarFunction::Reverse => "reverse",
            BuiltinScalarFunction::Right => "right",
            BuiltinScalarFunction::Rpad => "rpad",
            BuiltinScalarFunction::Rtrim => "rtrim",
            BuiltinScalarFunction::SplitPart => "split_part",
            BuiltinScalarFunction::StartsWith => "starts_with",
            BuiltinScalarFunction::Strpos => "strpos",
            BuiltinScalarFunction::Substr => "substr",
            BuiltinScalarFunction::ToHex => "to_hex",
            BuiltinScalarFunction::MakeDate => "make_date",
            BuiltinScalarFunction::Translate => "translate",
            BuiltinScalarFunction::Trim => "trim",
            BuiltinScalarFunction::Upper => "upper",
            BuiltinScalarFunction::Uuid => "uuid",
            BuiltinScalarFunction::OverLay => "overlay",
            BuiltinScalarFunction::Levenshtein => "levenshtein",
            BuiltinScalarFunction::SubstrIndex => "substr_index",
            BuiltinScalarFunction::FindInSet => "find_in_set",
            BuiltinScalarFunction::ToChar => "to_char",
        }
    }
}

/// Lists every identity once, in catalog order.
pub fn all_functions() -> (r: Vec<BuiltinScalarFunction>)
    ensures
        r@ == all_functions_seq(),
{
    vec![
        BuiltinScalarFunction::Atan,
        BuiltinScalarFunction::Atan2,
        BuiltinScalarFunction::Acosh,
        BuiltinScalarFunction::Asinh,
        BuiltinScalarFunction::Atanh,
        BuiltinScalarFunction::Cbrt,
        BuiltinScalarFunction::Ceil,
        BuiltinScalarFunction::Coalesce,
        BuiltinScalarFunction::Cos,
        BuiltinScalarFunction::Cosh,
        BuiltinScalarFunction::Degrees,
        BuiltinScalarFunction::Exp,
        BuiltinScalarFunction::Factorial,
        BuiltinScalarFunction::Floor,
        BuiltinScalarFunction::Gcd,
        BuiltinScalarFunction::Lcm,
        BuiltinScalarFunction::Iszero,
        BuiltinScalarFunction::Ln,
        BuiltinScalarFunction::Log,
        BuiltinScalarFunction::Log10,
        BuiltinScalarFunction::Log2,
        BuiltinScalarFunction::Nanvl,
        BuiltinScalarFunction::Pi,
        BuiltinScalarFunction::Power,
        BuiltinScalarFunction::Radians,
        BuiltinScalarFunction::Round,
        BuiltinScalarFunction::Signum,
        BuiltinScalarFunction::Sin,
        BuiltinScalarFunction::Sinh,
        BuiltinScalarFunction::Sqrt,
        BuiltinScalarFunction::Trunc,
        BuiltinScalarFunction::Cot,
        BuiltinScalarFunction::ArrayPopFront,
        BuiltinScalarFunction::ArrayPopBack,
        BuiltinScalarFunction::ArrayElement,
        BuiltinScalarFunction::ArrayPosition,
        BuiltinScalarFunction::ArrayPositions,
        BuiltinScalarFunction::ArrayRemove,
        BuiltinScalarFunction::ArrayRemoveN,
        BuiltinScalarFunction::ArrayRemoveAll,
        BuiltinScalarFunction::ArrayReplace,
        BuiltinScalarFunction::ArrayReplaceN,
        BuiltinScalarFunction::ArrayReplaceAll,
        BuiltinScalarFunction::ArrayReverse,
        BuiltinScalarFunction::ArraySlice,
        BuiltinScalarFunction::ArrayIntersect,
        BuiltinScalarFunction::ArrayUnion,
        BuiltinScalarFunction::ArrayExcept,
        BuiltinScalarFunction::ArrayResize,
        BuiltinScalarFunction::Ascii,
        BuiltinScalarFunction::BitLength,
        BuiltinScalarFunction::Btrim,
        BuiltinScalarFunction::CharacterLength,
        BuiltinScalarFunction::Chr,
        BuiltinScalarFunction::Concat,
        BuiltinScalarFunction::ConcatWithSeparator,
        BuiltinScalarFunction::EndsWith,
        BuiltinScalarFunction::InitCap,
        BuiltinScalarFunction::Left,
        BuiltinScalarFunction::Lpad,
        BuiltinScalarFunction::Lower,
        BuiltinScalarFunction::Ltrim,
        BuiltinScalarFunction::OctetLength,
        BuiltinScalarFunction::Random,
        BuiltinScalarFunction::Repeat,
        BuiltinScalarFunction::Replace,
        BuiltinScalarFunction::Reverse,
        BuiltinScalarFunction::Right,
        BuiltinScalarFunction::Rpad,
        BuiltinScalarFunction::Rtrim,
        BuiltinScalarFunction::SplitPart,
        BuiltinScalarFunction::StartsWith,
        BuiltinScalarFunction::Strpos,
        BuiltinScalarFunction::Substr,
        BuiltinScalarFunction::ToHex,
        BuiltinScalarFunction::MakeDate,
        BuiltinScalarFunction::Translate,
        BuiltinScalarFunction::Trim,
        BuiltinScalarFunction::Upper,
        BuiltinScalarFunction::Uuid,
        BuiltinScalarFunction::OverLay,
        BuiltinScalarFunction::Levenshtein,
        BuiltinScalarFunction::SubstrIndex,
        BuiltinScalarFunction::FindInSet,
        BuiltinScalarFunction::ToChar,
    ]
}

/// The catalog list mentions every identity.
pub proof fn lemma_all_functions_complete(f: BuiltinScalarFunction)
    ensures
        all_functions_seq().contains(f),
{
    match f {
        BuiltinScalarFunction::Atan => assert(all_functions_seq()[0] == f),
        BuiltinScalarFunction::Atan2 => assert(all_functions_seq()[1] == f),
        BuiltinScalarFunction::Acosh => assert(all_functions_seq()[2] == f),
        BuiltinScalarFunction::Asinh => assert(all_functions_seq()[3] == f),
        BuiltinScalarFunction::Atanh => assert(all_functions_seq()[4] == f),
        BuiltinScalarFunction::Cbrt => assert(all_functions_seq()[5] == f),
        BuiltinScalarFunction::Ceil => assert(all_functions_seq()[6] == f),
        BuiltinScalarFunction::Coalesce => assert(all_functions_seq()[7] == f),
        BuiltinScalarFunction::Cos => assert(all_functions_seq()[8] == f),
        BuiltinScalarFunction::Cosh => assert(all_functions_seq()[9] == f),
        BuiltinScalarFunction::Degrees => assert(all_functions_seq()[10] == f),
        BuiltinScalarFunction::Exp => assert(all_functions_seq()[11] == f),
        BuiltinScalarFunction::Factorial => assert(all_functions_seq()[12] == f),
        BuiltinScalarFunction::Floor => assert(all_functions_seq()[13] == f),
        BuiltinScalarFunction::Gcd => assert(all_functions_seq()[14] == f),
        BuiltinScalarFunction::Lcm => assert(all_functions_seq()[15] == f),
        BuiltinScalarFunction::Iszero => assert(all_functions_seq()[16] == f),
        BuiltinScalarFunction::Ln => assert(all_functions_seq()[17] == f),
        BuiltinScalarFunction::Log => assert(all_functions_seq()[18] == f),
        BuiltinScalarFunction::Log10 => assert(all_functions_seq()[19] == f),
        BuiltinScalarFunction::Log2 => assert(all_functions_seq()[20] == f),
        BuiltinScalarFunction::Nanvl => assert(all_functions_seq()[21] == f),
        BuiltinScalarFunction::Pi => assert(all_functions_seq()[22] == f),
        BuiltinScalarFunction::Power => assert(all_functions_seq()[23] == f),
        BuiltinScalarFunction::Radians => assert(all_functions_seq()[24] == f),
        BuiltinScalarFunction::Round => assert(all_functions_seq()[25] == f),
        BuiltinScalarFunction::Signum => assert(all_functions_seq()[26] == f),
        BuiltinScalarFunction::Sin => assert(all_functions_seq()[27] == f),
        BuiltinScalarFunction::Sinh => assert(all_functions_seq()[28] == f),
        BuiltinScalarFunction::Sqrt => assert(all_functions_seq()[29] == f),
        BuiltinScalarFunction::Trunc => assert(all_functions_seq()[30] == f),
        BuiltinScalarFunction::Cot => assert(all_functions_seq()[31] == f),
        BuiltinScalarFunction::ArrayPopFront => assert(all_functions_seq()[32] == f),
        BuiltinScalarFunction::ArrayPopBack => assert(all_functions_seq()[33] == f),
        BuiltinScalarFunction::ArrayElement => assert(all_functions_seq()[34] == f),
        BuiltinScalarFunction::ArrayPosition => assert(all_functions_seq()[35] == f),
        BuiltinScalarFunction::ArrayPositions => assert(all_functions_seq()[36] == f),
        BuiltinScalarFunction::ArrayRemove => assert(all_functions_seq()[37] == f),
        BuiltinScalarFunction::ArrayRemoveN => assert(all_functions_seq()[38] == f),
        BuiltinScalarFunction::ArrayRemoveAll => assert(all_functions_seq()[39] == f),
        BuiltinScalarFunction::ArrayReplace => assert(all_functions_seq()[40] == f),
        BuiltinScalarFunction::ArrayReplaceN => assert(all_functions_seq()[41] == f),
        BuiltinScalarFunction::ArrayReplaceAll => assert(all_functions_seq()[42] == f),
        BuiltinScalarFunction::ArrayReverse => assert(all_functions_seq()[43] == f),
        BuiltinScalarFunction::ArraySlice => assert(all_functions_seq()[44] == f),
        BuiltinScalarFunction::ArrayIntersect => assert(all_functions_seq()[45] == f),
        BuiltinScalarFunction::ArrayUnion => assert(all_functions_seq()[46] == f),
        BuiltinScalarFunction::ArrayExcept => assert(all_functions_seq()[47] == f),
        BuiltinScalarFunction::ArrayResize => assert(all_functions_seq()[48] == f),
        BuiltinScalarFunction::Ascii => assert(all_functions_seq()[49] == f),
        BuiltinScalarFunction::BitLength => assert(all_functions_seq()[50] == f),
        BuiltinScalarFunction::Btrim => assert(all_functions_seq()[51] == f),
        BuiltinScalarFunction::CharacterLength => assert(all_functions_seq()[52] == f),
        BuiltinScalarFunction::Chr => assert(all_functions_seq()[53] == f),
        BuiltinScalarFunction::Concat => assert(all_functions_seq()[54] == f),
        BuiltinScalarFunction::ConcatWithSeparator => assert(all_functions_seq()[55] == f),
        BuiltinScalarFunction::EndsWith => assert(all_functions_seq()[56] == f),
        BuiltinScalarFunction::InitCap => assert(all_functions_seq()[57] == f),
        BuiltinScalarFunction::Left => assert(all_functions_seq()[58] == f),
        BuiltinScalarFunction::Lpad => assert(all_functions_seq()[59] == f),
        BuiltinScalarFunction::Lower => assert(all_functions_seq()[60] == f),
        BuiltinScalarFunction::Ltrim => assert(all_functions_seq()[61] == f),
        BuiltinScalarFunction::OctetLength => assert(all_functions_seq()[62] == f),
        BuiltinScalarFunction::Random => assert(all_functions_seq()[63] == f),
        BuiltinScalarFunction::Repeat => assert(all_functions_seq()[64] == f),
        BuiltinScalarFunction::Replace => assert(all_functions_seq()[65] == f),
        BuiltinScalarFunction::Reverse => assert(all_functions_seq()[66] == f),
        BuiltinScalarFunction::Right => assert(all_functions_seq()[67] == f),
        BuiltinScalarFunction::Rpad => assert(all_functions_seq()[68] == f),
        BuiltinScalarFunction::Rtrim => assert(all_functions_seq()[69] == f),
        BuiltinScalarFunction::SplitPart => assert(all_functions_seq()[70] == f),
        BuiltinScalarFunction::StartsWith => assert(all_functions_seq()[71] == f),
        BuiltinScalarFunction::Strpos => assert(all_functions_seq()[72] == f),
        BuiltinScalarFunction::Substr => assert(all_functions_seq()[73] == f),
        BuiltinScalarFunction::ToHex => assert(all_functions_seq()[74] == f),
        BuiltinScalarFunction::MakeDate => assert(all_functions_seq()[75] == f),
        BuiltinScalarFunction::Translate => assert(all_functions_seq()[76] == f),
        BuiltinScalarFunction::Trim => assert(all_functions_seq()[77] == f),
        BuiltinScalarFunction::Upper => assert(all_functions_seq()[78] == f),
        BuiltinScalarFunction::Uuid => assert(all_functions_seq()[79] == f),
        BuiltinScalarFunction::OverLay => assert(all_functions_seq()[80] == f),
        BuiltinScalarFunction::Levenshtein => assert(all_functions_seq()[81] == f),
        BuiltinScalarFunction::SubstrIndex => assert(all_functions_seq()[82] == f),
        BuiltinScalarFunction::FindInSet => assert(all_functions_seq()[83] == f),
        BuiltinScalarFunction::ToChar => assert(all_functions_seq()[84] == f),
    }
}

} // verus!
