//! Names for the types that a translation makes up.

use vstd::prelude::*;
use vstd::string::StrSliceExecFns;
use vstd::string::StringExecFns;

verus! {

/// What a synthesized type is named after, besides the field it belongs to.
pub enum ComputeNameKind<'a> {
    /// An input type for the argument with the given name, one of the given
    /// number of arguments.
    Input(&'a str, usize),
    /// The output type of a field.
    Output,
}

/// `c` in upper case if it is one of the ASCII letters `a` to `z`, else `c`.
pub open spec fn ascii_uppercase(c: char) -> char {
    if 'a' <= c && c <= 'z' {
        ((c as u32) - 32) as char
    } else {
        c
    }
}

/// `s` with its first character in ASCII upper case; the rest is unchanged.
pub open spec fn spec_upper_camel_case(s: Seq<char>) -> Seq<char> {
    if s.len() == 0 {
        s
    } else {
        seq![ascii_uppercase(s[0])] + s.subrange(1, s.len() as int)
    }
}

/// The name of the output type synthesized for the field `field_name`: the
/// field's name in upper camel case, then `Output`.
pub open spec fn output_type_name(field_name: Seq<char>) -> Seq<char> {
    spec_upper_camel_case(field_name) + "Output"@
}

/// The name of the input type synthesized for the argument `param_name` of
/// the field `field_name`, which has `member_count` arguments: the field's
/// name in upper camel case, then `Input`; unless the argument is the only
/// one, its name in upper camel case comes last.
pub open spec fn input_type_name(
    field_name: Seq<char>,
    param_name: Seq<char>,
    member_count: nat,
) -> Seq<char> {
    if member_count == 1 {
        spec_upper_camel_case(field_name) + "Input"@
    } else {
        spec_upper_camel_case(field_name) + "Input"@ + spec_upper_camel_case(param_name)
    }
}

/// The name of the type of the given kind synthesized for `field_name`.
pub open spec fn spec_new_name(kind: ComputeNameKind, field_name: Seq<char>) -> Seq<char> {
    match kind {
        ComputeNameKind::Output => output_type_name(field_name),
        ComputeNameKind::Input(param_name, member_count) => input_type_name(
            field_name,
            param_name@,
            member_count as nat,
        ),
    }
}

/// `char::to_ascii_uppercase` maps the ASCII letters `a` to `z` to `A` to `Z`
/// and leaves every other character as it is.
pub assume_specification[ char::to_ascii_uppercase ](c: &char) -> (upper: char)
    ensures
        upper == ascii_uppercase(*c),
;

/// `String::push` appends one character.
pub assume_specification[ std::string::String::push ](s: &mut std::string::String, ch: char)
    ensures
        final(s)@ == old(s)@.push(ch),
;

/// Puts the first character of `s` in ASCII upper case.
pub fn upper_camel_case(s: &str) -> (name: String)
    ensures
        name@ == spec_upper_camel_case(s@),
{
    let len: usize = s.unicode_len();
    let mut name = String::new();
    if len > 0 {
        let first = s.get_char(0);
        name.push(first.to_ascii_uppercase());
        name.append(s.substring_char(1, len));
    }
    name
}

/// The name for a new type of the given kind that belongs to `field_name`.
pub fn compute_new_name(kind: ComputeNameKind, field_name: &str) -> (name: String)
    ensures
        name@ == spec_new_name(kind, field_name@),
{
    let mut name = upper_camel_case(field_name);
    match kind {
        ComputeNameKind::Output => {
            name.append("Output");
        },
        ComputeNameKind::Input(param_name, member_count) => {
            name.append("Input");
            if member_count != 1 {
                let param = upper_camel_case(param_name);
                name.append(param.as_str());
            }
        },
    }
    name
}

} // verus!
