//! The command that evaluates a function of a registered module: its words, and the arguments of
//! the function.
use crate::func::Val;
use crate::registry::{chars_of, is_white};
use crate::types::WasmValType;
use vstd::prelude::*;
use vstd::string::{StrSliceExecFns, StringExecFns};

verus! {

/// The position of the first white space of a text, or its length.
pub open spec fn word_end(s: Seq<char>) -> nat
    decreases s.len(),
{
    if s.len() == 0 || crate::registry::white(s[0]) {
        0
    } else {
        1 + word_end(s.skip(1))
    }
}

/// A word ends within its text.
proof fn lemma_word_end(s: Seq<char>)
    ensures
        word_end(s) <= s.len(),
    decreases s.len(),
{
    if s.len() > 0 && !crate::registry::white(s[0]) {
        lemma_word_end(s.skip(1));
    }
}

/// A text without white space at its start is no longer.
proof fn lemma_trimmed(s: Seq<char>)
    ensures
        crate::registry::trimmed_start(s).len() <= s.len(),
        crate::registry::trimmed_start(s).len() > 0 ==> !crate::registry::white(
            crate::registry::trimmed_start(s)[0],
        ),
    decreases s.len(),
{
    if s.len() > 0 && crate::registry::white(s[0]) {
        lemma_trimmed(s.skip(1));
    }
}

/// The words of a text, which are separated by white space.
pub open spec fn words(s: Seq<char>) -> Seq<Seq<char>>
    decreases s.len(),
    via words_end
{
    let t = crate::registry::trimmed_start(s);
    if t.len() == 0 {
        Seq::empty()
    } else {
        seq![t.take(word_end(t) as int)] + words(t.skip(word_end(t) as int))
    }
}

#[via_fn]
proof fn words_end(s: Seq<char>) {
    let t = crate::registry::trimmed_start(s);
    lemma_trimmed(s);
    if t.len() > 0 {
        lemma_word_end(t);
    }
}

/// Words as sequences of characters.
pub open spec fn texts(list: Seq<String>) -> Seq<Seq<char>> {
    list.map_values(|s: String| s@)
}

/// The words of a text.
pub fn split_whitespace(text: &str) -> (r: Vec<String>)
    ensures
        texts(r@) == words(text@),
{
    let chars = chars_of(text);
    let n: usize = chars.len();
    let mut list: Vec<String> = Vec::new();
    let mut pos: usize = 0;
    assert(text@.skip(0) =~= text@);
    assert(texts(list@) + words(text@) =~= words(text@));
    while pos < n
        invariant
            pos <= n == chars@.len(),
            chars@ == text@,
            words(text@) == texts(list@) + words(text@.skip(pos as int)),
        decreases n - pos,
    {
        let ghost here = text@.skip(pos as int);
        if is_white(chars[pos]) {
            assert(here.skip(1) =~= text@.skip(pos + 1));
            assert(crate::registry::trimmed_start(here) == crate::registry::trimmed_start(
                here.skip(1),
            ));
            pos = pos + 1;
        } else {
            let mut end: usize = pos;
            while end < n && !is_white(chars[end])
                invariant
                    pos <= end <= n == chars@.len(),
                    chars@ == text@,
                    here == text@.skip(pos as int),
                    word_end(here) == end - pos + word_end(text@.skip(end as int)),
                decreases n - end,
            {
                assert(text@.skip(end as int).skip(1) =~= text@.skip(end + 1));
                end = end + 1;
            }
            let word = String::from_str(text.substring_char(pos, end));
            let ghost before = texts(list@);
            list.push(word);
            proof {
                assert(crate::registry::trimmed_start(here) == here);
                assert(word_end(here) == end - pos);
                assert(here.take(end - pos) =~= word@);
                assert(here.skip(end - pos) =~= text@.skip(end as int));
                assert(texts(list@) =~= before.push(word@));
                assert(before + (seq![word@] + words(text@.skip(end as int))) =~= texts(list@)
                    + words(text@.skip(end as int)));
                assert(end > pos);
            }
            pos = end;
        }
    }
    assert(words(text@.skip(pos as int)) =~= Seq::empty());
    assert(texts(list@) + words(text@.skip(pos as int)) =~= texts(list@));
    list
}

/// What is to be evaluated: a function of a module, and its arguments as words.
pub struct EvalCommand {
    pub module_name: String,
    pub func_name: String,
    pub args: Vec<String>,
}

/// The command lacks the name of the module or of the function.
#[derive(Debug, Clone, Copy, PartialEq, Eq, Structural)]
pub struct MissingIdentifier;

impl EvalCommand {
    /// The command of a line: the first word is the module, the second one the function.
    pub fn parse(line: &str) -> (r: Result<EvalCommand, MissingIdentifier>)
        ensures
            r is Ok <==> words(line@).len() >= 2,
            r matches Ok(command) ==> {
                &&& command.module_name@ == words(line@)[0]
                &&& command.func_name@ == words(line@)[1]
                &&& texts(command.args@) == words(line@).skip(2)
            },
    {
        let mut list = split_whitespace(line);
        let ghost all = list@;
        assert(texts(all).len() == all.len());
        if list.len() < 2 {
            return Err(MissingIdentifier);
        }
        let args = list.split_off(2);
        assert(texts(args@) =~= texts(all).skip(2));
        assert(texts(all)[0] == all[0]@ && texts(all)[1] == all[1]@);
        let module_name = String::from_str(list[0].as_str());
        let func_name = String::from_str(list[1].as_str());
        Ok(EvalCommand { module_name, func_name, args })
    }
}

/// The value of a decimal digit.
pub open spec fn digit_value(c: char) -> Option<nat> {
    if '0' <= c <= '9' {
        Some((c as u32 - '0' as u32) as nat)
    } else {
        None
    }
}

/// The value of decimal digits.
pub open spec fn digits_value(s: Seq<char>) -> Option<nat>
    decreases s.len(),
{
    if s.len() == 0 {
        Some(0)
    } else {
        match (digits_value(s.drop_last()), digit_value(s.last())) {
            (Some(n), Some(d)) => Some(10 * n + d),
            _ => None,
        }
    }
}

/// The first digits of a number are no more than the number, and are digits if all are.
proof fn lemma_digits(s: Seq<char>, n: int)
    requires
        0 <= n <= s.len(),
    ensures
        digits_value(s) is Some ==> digits_value(s.take(n)) is Some && digits_value(s.take(n))->0
            <= digits_value(s)->0,
    decreases s.len(),
{
    if n < s.len() {
        assert(s.drop_last().take(n) =~= s.take(n));
        lemma_digits(s.drop_last(), n);
    } else {
        assert(s.take(n) =~= s);
    }
}

/// The number that a text stands for: digits behind a sign. Only signed numbers can have a minus
/// sign, and there must be a digit.
pub open spec fn number(s: Seq<char>, signed: bool) -> Option<int> {
    if s.len() == 0 {
        None
    } else {
        let minus = signed && s[0] == '-';
        let digits = if minus || s[0] == '+' {
            s.skip(1)
        } else {
            s
        };
        if digits.len() == 0 {
            None
        } else {
            match digits_value(digits) {
                Some(n) => Some(
                    if minus {
                        -n
                    } else {
                        n as int
                    },
                ),
                None => None,
            }
        }
    }
}

/// The value of digits from a position on, if it fits in 128 bits.
fn parse_digits(chars: &Vec<char>, from: usize) -> (r: Option<u128>)
    requires
        from <= chars@.len(),
    ensures
        r == (match digits_value(chars@.skip(from as int)) {
            Some(n) if n <= u128::MAX => Some(n as u128),
            _ => None,
        }),
{
    let ghost digits = chars@.skip(from as int);
    let mut value: u128 = 0;
    assert(digits.take(0) =~= Seq::empty());
    for i in from..chars.len()
        invariant
            from <= chars@.len(),
            digits == chars@.skip(from as int),
            digits_value(digits.take(i - from)) == Some(value as nat),
    {
        let c: char = chars[i];
        proof {
            assert(digits[i - from] == c);
            assert(digits.take(i - from + 1).drop_last() =~= digits.take(i - from));
            lemma_digits(digits, i - from + 1);
        }
        if !('0' <= c && c <= '9') {
            return None;
        }
        let d: u128 = (c as u32 - '0' as u32) as u128;
        if value > (u128::MAX - d) / 10 {
            assert(10 * value + d > u128::MAX);
            return None;
        }
        value = 10 * value + d;
    }
    assert(digits.take(digits.len() as int) =~= digits);
    Some(value)
}

/// A text as a sign and a number without a sign.
fn parse_number(text: &str, signed: bool) -> (r: Option<(bool, u128)>)
    ensures
        r matches Some((minus, n)) ==> number(text@, signed) == Some(
            if minus {
                -n
            } else {
                n as int
            },
        ),
        r is None ==> (number(text@, signed) matches Some(n) ==> n > u128::MAX || -n > u128::MAX),
{
    let chars = chars_of(text);
    if chars.len() == 0 {
        return None;
    }
    let minus = signed && chars[0] == '-';
    let from: usize = if minus || chars[0] == '+' {
        1
    } else {
        0
    };
    assert(chars@.skip(0) =~= chars@);
    if from == chars.len() {
        return None;
    }
    match parse_digits(&chars, from) {
        Some(n) => Some((minus, n)),
        None => None,
    }
}

/// The 32-bit integer that a text stands for.
pub fn parse_i32(text: &str) -> (r: Option<i32>)
    ensures
        r == (match number(text@, true) {
            Some(n) if i32::MIN <= n <= i32::MAX => Some(n as i32),
            _ => None,
        }),
{
    match parse_number(text, true) {
        Some((false, n)) if n <= 0x7fff_ffff => Some(n as i32),
        Some((true, n)) if n <= 0x8000_0000 => Some((-(n as i64)) as i32),
        _ => None,
    }
}

/// The 64-bit integer that a text stands for.
pub fn parse_i64(text: &str) -> (r: Option<i64>)
    ensures
        r == (match number(text@, true) {
            Some(n) if i64::MIN <= n <= i64::MAX => Some(n as i64),
            _ => None,
        }),
{
    match parse_number(text, true) {
        Some((false, n)) if n <= 0x7fff_ffff_ffff_ffff => Some(n as i64),
        Some((true, n)) if n <= 0x8000_0000_0000_0000 => Some((-(n as i128)) as i64),
        _ => None,
    }
}

/// The 128-bit number without a sign that a text stands for.
pub fn parse_u128(text: &str) -> (r: Option<u128>)
    ensures
        r == (match number(text@, false) {
            Some(n) if 0 <= n <= u128::MAX => Some(n as u128),
            _ => None,
        }),
{
    match parse_number(text, false) {
        Some((_, n)) => Some(n),
        None => None,
    }
}

/// The value of an argument of a type, given the bits that it has as a float. References have none,
/// and neither have texts that are no numbers of the type.
pub open spec fn argument(ty: WasmValType, arg: Seq<char>, bits: u64) -> Option<Val> {
    match ty {
        WasmValType::I32 => match number(arg, true) {
            Some(n) if i32::MIN <= n <= i32::MAX => Some(Val::I32(n as i32)),
            _ => None,
        },
        WasmValType::I64 => match number(arg, true) {
            Some(n) if i64::MIN <= n <= i64::MAX => Some(Val::I64(n as i64)),
            _ => None,
        },
        WasmValType::F32 => Some(Val::F32((bits % 0x1_0000_0000) as u32)),
        WasmValType::F64 => Some(Val::F64(bits)),
        WasmValType::V128 => match number(arg, false) {
            Some(n) if 0 <= n <= u128::MAX => Some(Val::V128(n as u128)),
            _ => None,
        },
        WasmValType::Ref(_) => None,
    }
}

/// The value of an argument of a type.
pub fn parse_argument(ty: WasmValType, arg: &str, bits: u64) -> (r: Option<Val>)
    ensures
        r == argument(ty, arg@, bits),
{
    match ty {
        WasmValType::I32 => match parse_i32(arg) {
            Some(n) => Some(Val::I32(n)),
            None => None,
        },
        WasmValType::I64 => match parse_i64(arg) {
            Some(n) => Some(Val::I64(n)),
            None => None,
        },
        WasmValType::F32 => Some(Val::F32((bits % 0x1_0000_0000) as u32)),
        WasmValType::F64 => Some(Val::F64(bits)),
        WasmValType::V128 => match parse_u128(arg) {
            Some(n) => Some(Val::V128(n)),
            None => None,
        },
        WasmValType::Ref(_) => None,
    }
}

/// Why arguments cannot be passed.
#[derive(Debug, Clone, Copy, PartialEq, Eq, Structural)]
pub enum ArgumentError {
    /// A reference cannot be given as a word.
    Reference,
}

/// The smaller of two lengths.
pub open spec fn shorter(a: nat, b: nat) -> nat {
    if a <= b {
        a
    } else {
        b
    }
}

/// Whether no parameter up to a position is a reference.
pub open spec fn no_reference_up_to(types: Seq<WasmValType>, i: int) -> bool {
    forall|k: int| 0 <= k <= i ==> !((#[trigger] types[k]) is Ref)
}

/// The values of arguments: one for each parameter that there is a word for. Up to the first
/// reference, every word is a number of its type.
pub fn parse_arguments(types: &Vec<WasmValType>, args: &Vec<String>, bits: &Vec<u64>) -> (r: Result<
    Vec<Val>,
    ArgumentError,
>)
    requires
        bits@.len() == args@.len(),
        forall|i: int|
            0 <= i < shorter(types@.len(), args@.len()) && no_reference_up_to(
                types@,
                i,
            ) ==> argument(
                types@[i],
                #[trigger] args@[i]@,
                bits@[i],
            ) is Some,
    ensures
        r is Ok <==> forall|i: int|
            0 <= i < shorter(types@.len(), args@.len()) ==> !((#[trigger] types@[i]) is Ref),
        r matches Ok(vals) ==> {
            &&& vals@.len() == shorter(types@.len(), args@.len())
            &&& forall|i: int|
                0 <= i < vals@.len() ==> Some(#[trigger] vals@[i]) == argument(
                    types@[i],
                    args@[i]@,
                    bits@[i],
                )
        },
{
    let n: usize = if types.len() <= args.len() {
        types.len()
    } else {
        args.len()
    };
    let mut vals: Vec<Val> = Vec::new();
    for i in 0..n
        invariant
            n == shorter(types@.len(), args@.len()),
            n <= types@.len(),
            n <= args@.len() == bits@.len(),
            forall|k: int|
                0 <= k < n && no_reference_up_to(types@, k) ==> argument(
                    types@[k],
                    #[trigger] args@[k]@,
                    bits@[k],
                ) is Some,
            vals@.len() == i,
            forall|k: int| 0 <= k < i ==> !((#[trigger] types@[k]) is Ref),
            forall|k: int|
                0 <= k < i ==> Some(#[trigger] vals@[k]) == argument(
                    types@[k],
                    args@[k]@,
                    bits@[k],
                ),
    {
        assert(args@[i as int]@ == args@[i as int]@);
        assert(!(types@[i as int] is Ref) ==> no_reference_up_to(types@, i as int));
        match parse_argument(types[i], args[i].as_str(), bits[i]) {
            Some(val) => vals.push(val),
            None => {
                assert(types@[i as int] is Ref);
                return Err(ArgumentError::Reference);
            },
        }
    }
    Ok(vals)
}

} // verus!
