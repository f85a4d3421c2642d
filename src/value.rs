use vstd::prelude::*;

use crate::message::FieldValue;

verus! {

/// How the fields of a case or record are written.
#[derive(Clone, Copy, PartialEq, Eq, Structural, Debug)]
pub enum Shape {
    /// No fields: `Name`.
    Unit,
    /// Positional fields: `Name(a, b)`.
    Tuple,
    /// Named fields: `Name { x: a, y: b }`.
    Record,
}

/// How one field appears in the debug text of a value of the given shape.
pub open spec fn field_debug(shape: Shape, f: FieldValue) -> Seq<char> {
    if shape == Shape::Record {
        f.name@ + ": "@ + f.debug@
    } else {
        f.debug@
    }
}

/// The debug text of each field, separated by `", "`.
pub open spec fn fields_debug(shape: Shape, fields: Seq<FieldValue>) -> Seq<char>
    decreases fields.len(),
{
    if fields.len() == 0 {
        Seq::empty()
    } else if fields.len() == 1 {
        field_debug(shape, fields[0])
    } else {
        fields_debug(shape, fields.drop_last()) + ", "@ + field_debug(shape, fields.last())
    }
}

/// The debug text of a value named `name` with the given shape and fields,
/// written as a derived `Debug` writes it.
pub open spec fn debug_text(name: Seq<char>, shape: Shape, fields: Seq<FieldValue>) -> Seq<char> {
    if fields.len() == 0 || shape == Shape::Unit {
        name
    } else if shape == Shape::Tuple {
        name + "("@ + fields_debug(shape, fields) + ")"@
    } else {
        name + " { "@ + fields_debug(shape, fields) + " }"@
    }
}

/// Builds the debug text of a value named `name` with the given shape and fields.
pub fn debug_string(name: &str, shape: Shape, fields: &Vec<FieldValue>) -> (r: String)
    ensures
        r@ == debug_text(name@, shape, fields@),
{
    let mut out = name.to_string();
    if fields.len() == 0 || shape == Shape::Unit {
        return out;
    }
    if shape == Shape::Tuple {
        out.append("(");
    } else {
        out.append(" { ");
    }
    let ghost start = out@;
    let mut k: usize = 0;
    while k < fields.len()
        invariant
            k <= fields@.len(),
            out@ == start + fields_debug(shape, fields@.subrange(0, k as int)),
        decreases fields@.len() - k,
    {
        if k > 0 {
            out.append(", ");
        }
        if shape == Shape::Record {
            out.append(fields[k].name.as_str());
            out.append(": ");
        }
        out.append(fields[k].debug.as_str());
        assert(fields@.subrange(0, k + 1).drop_last() =~= fields@.subrange(0, k as int));
        k = k + 1;
    }
    assert(fields@.subrange(0, fields@.len() as int) =~= fields@);
    if shape == Shape::Tuple {
        out.append(")");
    } else {
        out.append(" }");
    }
    out
}

/// The decimal digit for `d`, which is below ten.
pub open spec fn digit_char(d: nat) -> char {
    if d == 0 { '0' } else if d == 1 { '1' } else if d == 2 { '2' } else if d == 3 { '3' }
    else if d == 4 { '4' } else if d == 5 { '5' } else if d == 6 { '6' } else if d == 7 { '7' }
    else if d == 8 { '8' } else { '9' }
}

/// The decimal numeral of `n`, without leading zeros.
pub open spec fn decimal(n: nat) -> Seq<char>
    decreases n,
{
    if n < 10 {
        seq![digit_char(n)]
    } else {
        decimal(n / 10) + seq![digit_char(n % 10)]
    }
}

/// The name that the field at position `pos` of a tuple case is bound to.
pub open spec fn positional_text(pos: nat) -> Seq<char> {
    "unnamed"@ + decimal(pos)
}

fn digit_str(d: usize) -> (r: &'static str)
    requires
        d < 10,
    ensures
        r@ == seq![digit_char(d as nat)],
{
    proof {
        reveal_strlit("0");
        reveal_strlit("1");
        reveal_strlit("2");
        reveal_strlit("3");
        reveal_strlit("4");
        reveal_strlit("5");
        reveal_strlit("6");
        reveal_strlit("7");
        reveal_strlit("8");
        reveal_strlit("9");
    }
    if d == 0 { "0" } else if d == 1 { "1" } else if d == 2 { "2" } else if d == 3 { "3" }
    else if d == 4 { "4" } else if d == 5 { "5" } else if d == 6 { "6" } else if d == 7 { "7" }
    else if d == 8 { "8" } else { "9" }
}

fn push_decimal(out: &mut String, n: usize)
    ensures
        final(out)@ == old(out)@ + decimal(n as nat),
    decreases n,
{
    if n >= 10 {
        push_decimal(out, n / 10);
    }
    out.append(digit_str(n % 10));
    assert(n < 10 ==> n % 10 == n);
}

/// The name that the field at position `pos` of a tuple case is bound to:
/// `unnamed` followed by the position in decimal.
pub fn positional_name(pos: usize) -> (r: String)
    ensures
        r@ == positional_text(pos as nat),
{
    let mut out = "unnamed".to_string();
    push_decimal(&mut out, pos);
    out
}

impl FieldValue {
    /// The field at position `pos` of a tuple case.
    pub fn positional(pos: usize, display: String, debug: String) -> (r: FieldValue)
        ensures
            r.name@ == positional_text(pos as nat),
            r.display == display,
            r.debug == debug,
    {
        FieldValue { name: positional_name(pos), display, debug }
    }
}

} // verus!
