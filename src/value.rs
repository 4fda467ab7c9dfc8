//! Captured expressions and their printed form.
use vstd::prelude::*;
use crate::name::{Name, NameStore};

verus! {

/// An expression captured at the point of an error, built from cons cells.
#[derive(Debug)]
pub enum Value {
    /// The empty list, printed `()`.
    Nil,
    /// A signed integer.
    Integer(i64),
    /// A symbol.
    Name(Name),
    /// A pair of a head and a tail; a chain of pairs ending in `Nil` is a list.
    Cons(Box<Value>, Box<Value>),
}

impl Clone for Value {
    fn clone(&self) -> (r: Value)
        ensures
            r == *self,
        decreases self,
    {
        match self {
            Value::Nil => Value::Nil,
            Value::Integer(i) => Value::Integer(*i),
            Value::Name(n) => Value::Name(*n),
            Value::Cons(h, t) => Value::Cons(
                Box::new((&**h).clone()),
                Box::new((&**t).clone()),
            ),
        }
    }
}

/// Decimal digits of `n`, most significant first.
pub open spec fn digits_text(n: nat) -> Seq<char>
    decreases n,
{
    let d = seq!['0', '1', '2', '3', '4', '5', '6', '7', '8', '9'][(n % 10) as int];
    if n < 10 {
        seq![d]
    } else {
        digits_text(n / 10).push(d)
    }
}

/// Decimal form of `i`, with a leading `-` when it is negative.
pub open spec fn integer_text(i: int) -> Seq<char> {
    if i < 0 {
        seq!['-'] + digits_text((-i) as nat)
    } else {
        digits_text(i as nat)
    }
}

/// Whether every name in `v` is an entry of `names`.
pub open spec fn names_known(v: Value, names: NameStore) -> bool
    decreases v,
{
    match v {
        Value::Nil => true,
        Value::Integer(_) => true,
        Value::Name(n) => names.has(n),
        Value::Cons(h, t) => names_known(*h, names) && names_known(*t, names),
    }
}

/// Printed form of `v`: atoms as themselves, a list in parentheses with its
/// elements separated by one space, a tail other than `()` after ` . `.
pub open spec fn value_text(v: Value, names: NameStore) -> Seq<char>
    decreases v, 0nat,
{
    match v {
        Value::Nil => seq!['(', ')'],
        Value::Integer(i) => integer_text(i as int),
        Value::Name(n) => names.text(n),
        Value::Cons(h, t) => seq!['('] + value_text(*h, names) + tail_text(*t, names) + seq![')'],
    }
}

/// What follows the first element of a list whose remaining cells are `v`.
pub open spec fn tail_text(v: Value, names: NameStore) -> Seq<char>
    decreases v, 1nat,
{
    match v {
        Value::Nil => Seq::empty(),
        Value::Cons(h, t) => seq![' '] + value_text(*h, names) + tail_text(*t, names),
        _ => seq![' ', '.', ' '] + value_text(v, names),
    }
}

/// The one-character string of the decimal digit `d`.
fn digit_str(d: u64) -> (r: &'static str)
    requires
        d < 10,
    ensures
        r@ == seq![seq!['0', '1', '2', '3', '4', '5', '6', '7', '8', '9'][d as int]],
{
    let r = if d == 0 {
        proof { reveal_strlit("0"); }
        "0"
    } else if d == 1 {
        proof { reveal_strlit("1"); }
        "1"
    } else if d == 2 {
        proof { reveal_strlit("2"); }
        "2"
    } else if d == 3 {
        proof { reveal_strlit("3"); }
        "3"
    } else if d == 4 {
        proof { reveal_strlit("4"); }
        "4"
    } else if d == 5 {
        proof { reveal_strlit("5"); }
        "5"
    } else if d == 6 {
        proof { reveal_strlit("6"); }
        "6"
    } else if d == 7 {
        proof { reveal_strlit("7"); }
        "7"
    } else if d == 8 {
        proof { reveal_strlit("8"); }
        "8"
    } else {
        proof { reveal_strlit("9"); }
        "9"
    };
    assert(r@ =~= seq![seq!['0', '1', '2', '3', '4', '5', '6', '7', '8', '9'][d as int]]);
    r
}

/// Appends the decimal digits of `n` to `out`.
fn write_digits(out: &mut String, n: u64)
    ensures
        final(out)@ == old(out)@ + digits_text(n as nat),
    decreases n,
{
    if n >= 10 {
        write_digits(out, n / 10);
    }
    out.append(digit_str(n % 10));
    proof {
        assert(final(out)@ =~= old(out)@ + digits_text(n as nat));
    }
}

/// Appends the decimal form of `i` to `out`.
pub fn write_integer(out: &mut String, i: i64)
    ensures
        final(out)@ == old(out)@ + integer_text(i as int),
{
    if i < 0 {
        proof { reveal_strlit("-"); }
        out.append("-");
        let magnitude: u64 = (-(i as i128)) as u64;
        write_digits(out, magnitude);
        assert(final(out)@ =~= old(out)@ + integer_text(i as int));
    } else {
        write_digits(out, i as u64);
    }
}

/// Appends the printed form of `v` to `out`, with names read from `names`.
pub fn pretty_print(out: &mut String, names: &NameStore, v: &Value)
    requires
        names_known(*v, *names),
    ensures
        final(out)@ == old(out)@ + value_text(*v, *names),
    decreases *v, 0nat,
{
    match v {
        Value::Nil => {
            proof { reveal_strlit("()"); }
            out.append("()");
        },
        Value::Integer(i) => write_integer(out, *i),
        Value::Name(n) => out.append(names.get(*n)),
        Value::Cons(h, t) => {
            proof { reveal_strlit("("); reveal_strlit(")"); }
            out.append("(");
            pretty_print(out, names, &**h);
            print_tail(out, names, &**t);
            out.append(")");
            assert(final(out)@ =~= old(out)@ + value_text(*v, *names));
        },
    }
}

/// Appends what follows the first element of a list whose remaining cells
/// are `v`.
fn print_tail(out: &mut String, names: &NameStore, v: &Value)
    requires
        names_known(*v, *names),
    ensures
        final(out)@ == old(out)@ + tail_text(*v, *names),
    decreases *v, 1nat,
{
    match v {
        Value::Nil => {
            assert(old(out)@ =~= old(out)@ + tail_text(*v, *names));
        },
        Value::Cons(h, t) => {
            proof { reveal_strlit(" "); }
            out.append(" ");
            pretty_print(out, names, &**h);
            print_tail(out, names, &**t);
            assert(final(out)@ =~= old(out)@ + tail_text(*v, *names));
        },
        _ => {
            proof { reveal_strlit(" . "); }
            out.append(" . ");
            pretty_print(out, names, v);
            assert(final(out)@ =~= old(out)@ + tail_text(*v, *names));
        },
    }
}

} // verus!
