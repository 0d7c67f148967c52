//! Ink pricing at one rate for every generator (10 per 512 x 512 pixels),
//! and the storage update of ink balances that goes with it, which keeps no
//! lifetime sum.
use vstd::prelude::*;

use crate::dto::GenerateMediaDto;
use crate::error::{ApiError, BAD_REQUEST};
use crate::ink::{images_counted, rounded_ink};
use crate::ink::dtos::{numbered, update_sql};
use crate::text::{append_joined, decimal, decimal_string, views};

verus! {

/// The pixels of the images counted, which this pricing computes in
/// 32 bits.
pub open spec fn uniform_pixels(dto: GenerateMediaDto, number_generated: Option<u8>) -> nat {
    images_counted(dto, number_generated) * (dto.width as nat * dto.height as nat)
}

/// The ink that the images counted cost at the uniform rate.
pub open spec fn uniform_ink_cost(dto: GenerateMediaDto, number_generated: Option<u8>) -> nat {
    rounded_ink(uniform_pixels(dto, number_generated), 10)
}

/// The ink that generating `number_generated` images (or, for `None`, the
/// requested number) costs at the uniform rate. The pixel count must fit
/// in 32 bits.
pub fn calculate_ink_cost(dto: &GenerateMediaDto, number_generated: Option<u8>) -> (r: i64)
    requires
        uniform_pixels(*dto, number_generated) <= u32::MAX,
    ensures
        r == uniform_ink_cost(*dto, number_generated),
{
    let number: u8 = match number_generated {
        Some(number_generated) => number_generated,
        None => dto.number,
    };
    let w = dto.width as u32;
    let h = dto.height as u32;
    assert(w * h <= 65535 * 65535) by (nonlinear_arith)
        requires
            w <= 65535,
            h <= 65535,
    ;
    let area = w * h;
    let pixels = (number as u32) * area;
    let p = pixels as u64;
    let cost = (p * 10 + 131072) / 262144;
    cost as i64
}

/// A change to a user's ink balances in the uniform pricing.
#[derive(Debug)]
pub struct EditUserInkDto {
    pub ink_increase: Option<i64>,
    pub ink_decrease: Option<i64>,
    pub ink_pending_increase: Option<i64>,
    pub ink_pending_decrease: Option<i64>,
}

/// The assignments of the update, in order. The decrease of the pending
/// balance is written when a decrease of ink is given (not when a decrease
/// of the pending balance is).
pub open spec fn uniform_clause_templates(dto: EditUserInkDto) -> Seq<Seq<char>> {
    let a: Seq<Seq<char>> = if dto.ink_increase is Some {
        seq!["ink = ink + $"@]
    } else {
        seq![]
    };
    let b: Seq<Seq<char>> = if dto.ink_decrease is Some {
        seq!["ink = ink - $"@]
    } else {
        seq![]
    };
    let c: Seq<Seq<char>> = if dto.ink_pending_increase is Some {
        seq!["ink_pending = ink_pending + $"@]
    } else {
        seq![]
    };
    let d: Seq<Seq<char>> = if dto.ink_decrease is Some {
        seq!["ink_pending = ink_pending - $"@]
    } else {
        seq![]
    };
    a + b + c + d
}

/// The values bound to the placeholders, in order, before the user's id.
pub open spec fn uniform_bound_values(dto: EditUserInkDto) -> Seq<i64> {
    let a: Seq<i64> = match dto.ink_increase {
        Some(v) => seq![v],
        None => seq![],
    };
    let b: Seq<i64> = match dto.ink_decrease {
        Some(v) => seq![v],
        None => seq![],
    };
    let c: Seq<i64> = match dto.ink_pending_increase {
        Some(v) => seq![v],
        None => seq![],
    };
    let d: Seq<i64> = match dto.ink_pending_decrease {
        Some(v) => seq![v],
        None => seq![],
    };
    a + b + c + d
}

/// Appends the assignment `template` with placeholder number `*index` and
/// moves to the next number.
fn push_clause(clauses: &mut Vec<String>, template: &str, index: &mut u8)
    requires
        *old(index) < 255,
    ensures
        views(final(clauses)@) == views(old(clauses)@).push(template@ + decimal(*old(index) as nat)),
        *final(index) == *old(index) + 1,
{
    let mut clause = String::from_str(template);
    let number = decimal_string(*index as u64);
    clause.append(number.as_str());
    let ghost before = clauses@;
    clauses.push(clause);
    assert(views(clauses@) =~= views(before).push(template@ + decimal(*old(index) as nat)));
    *index = *index + 1;
}

impl EditUserInkDto {
    /// The SQL statement that applies this change to the user whose id is
    /// bound last; refused when it would assign nothing.
    pub fn to_sql(&self) -> (r: Result<String, ApiError>)
        ensures
            uniform_clause_templates(*self).len() == 0 <==> r is Err,
            r matches Ok(sql) ==> sql@ == update_sql(uniform_clause_templates(*self)),
            r matches Err(e) ==> e.code == BAD_REQUEST && e.message@ == "Received nothing to edit."@,
    {
        let ghost templates = uniform_clause_templates(*self);
        let mut sql = String::from_str("UPDATE users SET ");
        let mut clauses: Vec<String> = Vec::new();
        let mut index: u8 = 1;
        let ghost mut count: int = 0;

        if self.ink_increase.is_some() {
            push_clause(&mut clauses, "ink = ink + $", &mut index);
            proof {
                count = 1;
            }
        }
        assert(views(clauses@) =~= numbered(templates.take(count)));
        if self.ink_decrease.is_some() {
            push_clause(&mut clauses, "ink = ink - $", &mut index);
            proof {
                count = count + 1;
            }
        }
        assert(views(clauses@) =~= numbered(templates.take(count)));
        if self.ink_pending_increase.is_some() {
            push_clause(&mut clauses, "ink_pending = ink_pending + $", &mut index);
            proof {
                count = count + 1;
            }
        }
        assert(views(clauses@) =~= numbered(templates.take(count)));
        if self.ink_decrease.is_some() {
            push_clause(&mut clauses, "ink_pending = ink_pending - $", &mut index);
            proof {
                count = count + 1;
            }
        }
        assert(templates.take(count) =~= templates);
        assert(views(clauses@) =~= numbered(templates));

        if clauses.len() == 0 {
            return Err(ApiError::new(BAD_REQUEST, "Received nothing to edit."));
        }
        append_joined(&mut sql, &clauses, ", ");
        sql.append(" WHERE id = $");
        let last = decimal_string(index as u64);
        sql.append(last.as_str());
        Ok(sql)
    }

    /// The values to bind to the statement's placeholders, in order,
    /// before the user's id.
    pub fn bind_values(&self) -> (r: Vec<i64>)
        ensures
            r@ == uniform_bound_values(*self),
    {
        let mut v: Vec<i64> = Vec::new();
        if let Some(ink_increase) = self.ink_increase {
            v.push(ink_increase);
        }
        if let Some(ink_decrease) = self.ink_decrease {
            v.push(ink_decrease);
        }
        if let Some(ink_pending_increase) = self.ink_pending_increase {
            v.push(ink_pending_increase);
        }
        if let Some(ink_pending_decrease) = self.ink_pending_decrease {
            v.push(ink_pending_decrease);
        }
        assert(v@ =~= uniform_bound_values(*self));
        v
    }
}

/// The uniform update binds one value per assignment when a decrease of
/// ink and a decrease of the pending balance are given together or not at
/// all.
pub proof fn lemma_uniform_placeholders_match_binds(dto: EditUserInkDto)
    requires
        dto.ink_decrease is Some == dto.ink_pending_decrease is Some,
    ensures
        uniform_clause_templates(dto).len() == uniform_bound_values(dto).len(),
{
}

} // verus!
