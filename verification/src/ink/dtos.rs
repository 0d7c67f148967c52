//! A change to a user's ink balances and the storage update that applies it.
use vstd::prelude::*;

use crate::error::{ApiError, BAD_REQUEST};
use crate::text::{append_joined, decimal, decimal_string, join, views};

verus! {

/// Amounts to add to or take from a user's ink balances; `None` leaves
/// a balance alone.
#[derive(Debug)]
pub struct EditUserInkDto {
    pub ink_increase: Option<i64>,
    pub ink_decrease: Option<i64>,
    pub ink_pending_increase: Option<i64>,
    pub ink_pending_decrease: Option<i64>,
}

/// The assignments of the update, each without its placeholder number, in
/// the order in which they are written. An increase of ink is also added to
/// the user's lifetime sum.
pub open spec fn clause_templates(dto: EditUserInkDto) -> Seq<Seq<char>> {
    let a: Seq<Seq<char>> = if dto.ink_increase is Some {
        seq!["ink = ink + $"@, "ink_sum = ink_sum + $"@]
    } else {
        seq![]
    };
    let b: Seq<Seq<char>> = if dto.ink_decrease is Some {
        seq!["ink = ink - $"@]
    } else {
        seq![]
    };
    let c: Seq<Seq<char>> = if dto.ink_pending_increase is Some {
        seq!["ink_pending = ink_pending + $"@]
    } else {
        seq![]
    };
    let d: Seq<Seq<char>> = if dto.ink_pending_decrease is Some {
        seq!["ink_pending = ink_pending - $"@]
    } else {
        seq![]
    };
    a + b + c + d
}

/// Each template followed by its placeholder number, counted from 1.
pub open spec fn numbered(templates: Seq<Seq<char>>) -> Seq<Seq<char>> {
    Seq::new(templates.len(), |i: int| templates[i] + decimal((i + 1) as nat))
}

/// The SQL statement for the given assignments; the user's id is the last
/// placeholder.
pub open spec fn update_sql(templates: Seq<Seq<char>>) -> Seq<char> {
    "UPDATE users SET "@ + join(numbered(templates), ", "@) + " WHERE id = $"@ + decimal(
        (templates.len() + 1) as nat,
    )
}

/// The values bound to the placeholders, in order, before the user's id.
pub open spec fn bound_values(dto: EditUserInkDto) -> Seq<i64> {
    let a: Seq<i64> = match dto.ink_increase {
        Some(v) => seq![v, v],
        None => seq![],
    };
    let b: Seq<i64> = match dto.ink_decrease {
        Some(v) => seq![v],
        None => seq![],
    };
    let c: Seq<i64> = match dto.ink_pending_increase {
        Some(v) => seq![v],
        None => seq![],
    };
    let d: Seq<i64> = match dto.ink_pending_decrease {
        Some(v) => seq![v],
        None => seq![],
    };
    a + b + c + d
}

/// Appends the assignment `template` with placeholder number `*index` and
/// moves to the next number.
fn push_clause(clauses: &mut Vec<String>, template: &str, index: &mut u8)
    requires
        *old(index) < 255,
    ensures
        final(clauses)@.len() == old(clauses)@.len() + 1,
        views(final(clauses)@) == views(old(clauses)@).push(template@ + decimal(*old(index) as nat)),
        *final(index) == *old(index) + 1,
{
    let mut clause = String::from_str(template);
    let number = decimal_string(*index as u64);
    clause.append(number.as_str());
    let ghost before = clauses@;
    clauses.push(clause);
    assert(views(clauses@) =~= views(before).push(template@ + decimal(*old(index) as nat)));
    *index = *index + 1;
}

impl EditUserInkDto {
    /// The SQL statement that applies this change to the user whose id is
    /// bound last; refused when the change is empty.
    pub fn to_sql(&self) -> (r: Result<String, ApiError>)
        ensures
            clause_templates(*self).len() == 0 <==> r is Err,
            r matches Ok(sql) ==> sql@ == update_sql(clause_templates(*self)),
            r matches Err(e) ==> e.code == BAD_REQUEST && e.message@ == "Received nothing to edit."@,
    {
        let ghost templates = clause_templates(*self);
        let mut sql = String::from_str("UPDATE users SET ");
        let mut clauses: Vec<String> = Vec::new();
        let mut index: u8 = 1;
        let ghost mut count: int = 0;

        if self.ink_increase.is_some() {
            push_clause(&mut clauses, "ink = ink + $", &mut index);
            push_clause(&mut clauses, "ink_sum = ink_sum + $", &mut index);
            proof {
                count = 2;
            }
        }
        assert(views(clauses@) =~= numbered(templates.take(count)));
        if self.ink_decrease.is_some() {
            push_clause(&mut clauses, "ink = ink - $", &mut index);
            proof {
                count = count + 1;
            }
        }
        assert(views(clauses@) =~= numbered(templates.take(count)));
        if self.ink_pending_increase.is_some() {
            push_clause(&mut clauses, "ink_pending = ink_pending + $", &mut index);
            proof {
                count = count + 1;
            }
        }
        assert(views(clauses@) =~= numbered(templates.take(count)));
        if self.ink_pending_decrease.is_some() {
            push_clause(&mut clauses, "ink_pending = ink_pending - $", &mut index);
            proof {
                count = count + 1;
            }
        }
        assert(count == templates.len());
        assert(templates.take(count) =~= templates);
        assert(views(clauses@) =~= numbered(templates));

        if clauses.len() == 0 {
            return Err(ApiError::new(BAD_REQUEST, "Received nothing to edit."));
        }
        append_joined(&mut sql, &clauses, ", ");
        sql.append(" WHERE id = $");
        let last = decimal_string(index as u64);
        sql.append(last.as_str());
        Ok(sql)
    }

    /// The values to bind to the statement's placeholders, in order,
    /// before the user's id.
    pub fn bind_values(&self) -> (r: Vec<i64>)
        ensures
            r@ == bound_values(*self),
    {
        let mut v: Vec<i64> = Vec::new();
        if let Some(ink_increase) = self.ink_increase {
            v.push(ink_increase);
            v.push(ink_increase);
        }
        if let Some(ink_decrease) = self.ink_decrease {
            v.push(ink_decrease);
        }
        if let Some(ink_pending_increase) = self.ink_pending_increase {
            v.push(ink_pending_increase);
        }
        if let Some(ink_pending_decrease) = self.ink_pending_decrease {
            v.push(ink_pending_decrease);
        }
        assert(v@ =~= bound_values(*self));
        v
    }
}

/// Every placeholder of the update statement but the last has a bound
/// value, and the last is the user's id: there are as many assignments as
/// values bound before the id.
pub proof fn lemma_placeholders_match_binds(dto: EditUserInkDto)
    ensures
        clause_templates(dto).len() == bound_values(dto).len(),
{
}

} // verus!
