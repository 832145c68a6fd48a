//! Statements for a database, with the values bound to their parameters.

use vstd::prelude::*;

verus! {

/// A value bound to a parameter.
#[derive(Debug, PartialEq, Eq)]
pub enum SqlValue {
    Int(i64),
    Text(String),
}

/// The value of a [`SqlValue`].
pub enum SqlValueView {
    Int(i64),
    Text(Seq<char>),
}

impl View for SqlValue {
    type V = SqlValueView;

    open spec fn view(&self) -> SqlValueView {
        match *self {
            SqlValue::Int(n) => SqlValueView::Int(n),
            SqlValue::Text(s) => SqlValueView::Text(s@),
        }
    }
}

/// A statement and the values of its parameters, in order.
#[derive(Debug, PartialEq, Eq)]
pub struct Statement {
    pub sql: String,
    pub params: Vec<SqlValue>,
}

/// The value of a [`Statement`].
pub struct StatementView {
    pub sql: Seq<char>,
    pub params: Seq<SqlValueView>,
}

pub open spec fn values_of(params: Seq<SqlValue>) -> Seq<SqlValueView> {
    Seq::new(params.len(), |i: int| params[i]@)
}

impl View for Statement {
    type V = StatementView;

    open spec fn view(&self) -> StatementView {
        StatementView { sql: self.sql@, params: values_of(self.params@) }
    }
}

impl SqlValue {
    pub fn text(s: &str) -> (r: SqlValue)
        ensures
            r@ == SqlValueView::Text(s@),
    {
        SqlValue::Text(s.to_owned())
    }
}

/// Append integers to a list of values.
pub fn push_ints(params: &mut Vec<SqlValue>, ints: &Vec<i64>)
    ensures
        values_of(final(params)@) == values_of(old(params)@) + int_values(ints@),
{
    let ghost base = params@;
    let mut k: usize = 0;
    proof {
        assert(values_of(params@) =~= values_of(base) + int_values(ints@.take(0)));
    }
    while k < ints.len()
        invariant
            0 <= k <= ints@.len(),
            values_of(params@) == values_of(base) + int_values(ints@.take(k as int)),
        decreases ints@.len() - k,
    {
        let ghost before = params@;
        params.push(SqlValue::Int(ints[k]));
        proof {
            assert(values_of(params@) =~= values_of(before).push(
                SqlValueView::Int(ints@[k as int]),
            ));
            assert(int_values(ints@.take(k as int + 1)) =~= int_values(ints@.take(k as int)).push(
                SqlValueView::Int(ints@[k as int]),
            ));
            assert(values_of(params@) =~= values_of(base) + int_values(ints@.take(k as int + 1)));
        }
        k += 1;
    }
    proof {
        assert(ints@.take(k as int) =~= ints@);
    }
}

pub open spec fn int_values(ints: Seq<i64>) -> Seq<SqlValueView> {
    Seq::new(ints.len(), |i: int| SqlValueView::Int(ints[i]))
}

} // verus!
