//! The public translator: the shorthand-to-English interface over
//! strings. Every method is a pure function of its input and the fixed
//! symbol tables, with its result pinned by the spec functions of the
//! other modules.

use vstd::prelude::*;
use crate::conditions::conditions_s;
use crate::conditions::conditions_vec;
use crate::measures::{arc_s, arc_vec, sector_s, sector_vec, area_s, area_vec, perimeter_s,
    perimeter_vec, angle_s, angle_vec, property_question_s, property_question_vec};
use crate::point::{point_construction_s, point_construction_vec, object_desc_s, object_desc_vec};
use crate::pronounce::{pronounce_s, pronounce_vec};
use crate::shapes::{circle_s, circle_vec, regular_polygon_s, regular_polygon_vec};
use crate::statement::{statement_s, translate_statement_vec, casework_s, casework_vec};
use crate::tables::{derived_construction_s, derived_construction};
use crate::text::{chars_of, string_from_chars, push_all, lit};
use crate::translate::{translate_s, translate_vec};

verus! {

/// The derived-construction sentence for a statement, when its head is a
/// derived-construction prefix.
pub open spec fn derived_sentence_s(t: Seq<char>) -> Option<Seq<char>> {
    match derived_construction_s(t) {
        Some(nr) => Some("Construct the "@ + nr.0 + " of "@ + nr.1 + "."@),
        None => None,
    }
}

/// The shorthand translator. All of its tables are fixed, so the
/// translator itself carries no state and every method is a pure
/// function of its arguments.
pub struct Translator {}

impl Translator {
    /// Makes a translator.
    pub fn new() -> Translator {
        Translator {  }
    }

    /// Transliterates the shorthand into its pronunciation: one line in
    /// normal mode, one numbered line per statement in step mode.
    pub fn pronounce(&self, input: &str, steps: bool) -> (r: String)
        ensures
            r@ == pronounce_s(input@, steps),
    {
        let v = chars_of(input);
        let out = pronounce_vec(&v, steps);
        string_from_chars(&out)
    }

    /// Translates one statement into one English sentence.
    pub fn translate_statement(&self, stmt: &str) -> (r: String)
        ensures
            r@ == statement_s(stmt@),
    {
        let v = chars_of(stmt);
        let out = translate_statement_vec(&v);
        string_from_chars(&out)
    }

    /// Translates a statement whose head is a derived-construction
    /// prefix, and returns nothing for any other statement.
    pub fn handle_derived_construction(&self, stmt: &str) -> (r: Option<String>)
        ensures
            match r {
                Some(x) => derived_sentence_s(stmt@) == Some(x@),
                None => derived_sentence_s(stmt@) is None,
            },
    {
        let v = chars_of(stmt);
        match derived_construction(&v) {
            Some(nr) => {
                let mut out = lit("Construct the ");
                push_all(&mut out, &nr.0);
                let mid = lit(" of ");
                push_all(&mut out, &mid);
                push_all(&mut out, &nr.1);
                let dot = lit(".");
                push_all(&mut out, &dot);
                Some(string_from_chars(&out))
            },
            None => None,
        }
    }

    /// Translates the body of a point construction.
    pub fn handle_point_construction(&self, rest: &str) -> (r: String)
        ensures
            r@ == point_construction_s(rest@),
    {
        let v = chars_of(rest);
        let out = point_construction_vec(&v);
        string_from_chars(&out)
    }

    /// The noun phrase for an object code.
    pub fn get_object_description(&self, obj: &str) -> (r: String)
        ensures
            r@ == object_desc_s(obj@),
    {
        let v = chars_of(obj);
        let out = object_desc_vec(&v);
        string_from_chars(&out)
    }

    /// Translates each clause of a comma-separated constraint list.
    pub fn parse_conditions(&self, conditions: &str) -> (r: Vec<String>)
        ensures
            r@.len() == conditions_s(conditions@).len(),
            forall|i: int| 0 <= i < r@.len() ==> r@[i]@ == conditions_s(conditions@)[i],
    {
        let v = chars_of(conditions);
        let parts = conditions_vec(&v);
        let m = parts.len();
        let mut out: Vec<String> = Vec::new();
        let mut i: usize = 0;
        while i < m
            invariant
                m == parts@.len(),
                m == conditions_s(conditions@).len(),
                forall|j: int| 0 <= j < m ==> parts@[j]@ == conditions_s(conditions@)[j],
                i <= m,
                out@.len() == i,
                forall|j: int| 0 <= j < i ==> out@[j]@ == conditions_s(conditions@)[j],
            decreases m - i,
        {
            let s = string_from_chars(&parts[i]);
            out.push(s);
            i = i + 1;
        }
        out
    }

    /// Translates the body of a circle construction.
    pub fn handle_circle_construction(&self, rest: &str) -> (r: String)
        ensures
            r@ == circle_s(rest@),
    {
        let v = chars_of(rest);
        let out = circle_vec(&v);
        string_from_chars(&out)
    }

    /// Translates an arc statement.
    pub fn handle_arc(&self, stmt: &str) -> (r: String)
        ensures
            r@ == arc_s(stmt@),
    {
        let v = chars_of(stmt);
        let out = arc_vec(&v);
        string_from_chars(&out)
    }

    /// Translates a sector statement.
    pub fn handle_sector(&self, stmt: &str) -> (r: String)
        ensures
            r@ == sector_s(stmt@),
    {
        let v = chars_of(stmt);
        let out = sector_vec(&v);
        string_from_chars(&out)
    }

    /// Translates a bracketed area statement.
    pub fn handle_area(&self, stmt: &str) -> (r: String)
        ensures
            r@ == area_s(stmt@),
    {
        let v = chars_of(stmt);
        let out = area_vec(&v);
        string_from_chars(&out)
    }

    /// Translates a parenthesized perimeter statement.
    pub fn handle_perimeter(&self, stmt: &str) -> (r: String)
        ensures
            r@ == perimeter_s(stmt@),
    {
        let v = chars_of(stmt);
        let out = perimeter_vec(&v);
        string_from_chars(&out)
    }

    /// Translates an angle statement.
    pub fn handle_angle(&self, stmt: &str) -> (r: String)
        ensures
            r@ == angle_s(stmt@),
    {
        let v = chars_of(stmt);
        let out = angle_vec(&v);
        string_from_chars(&out)
    }

    /// Translates a star-notation question.
    pub fn handle_property_question(&self, stmt: &str) -> (r: String)
        ensures
            r@ == property_question_s(stmt@),
    {
        let v = chars_of(stmt);
        let out = property_question_vec(&v);
        string_from_chars(&out)
    }

    /// Translates a casework block interior into enumerated cases.
    pub fn translate_casework(&self, cases: &str) -> (r: String)
        ensures
            r@ == casework_s(cases@),
    {
        let v = chars_of(cases);
        let out = casework_vec(&v);
        string_from_chars(&out)
    }

    /// Renders the regular-polygon phrase for `n;side=name`.
    pub fn translate_regular_polygon(&self, s: &str) -> (r: String)
        ensures
            r@ == regular_polygon_s(s@),
    {
        let v = chars_of(s);
        let out = regular_polygon_vec(&v);
        string_from_chars(&out)
    }

    /// Translates a full shorthand text into one sentence per statement.
    pub fn translate(&self, input: &str) -> (r: Vec<String>)
        ensures
            r@.len() == translate_s(input@).len(),
            forall|i: int| 0 <= i < r@.len() ==> r@[i]@ == translate_s(input@)[i],
    {
        let v = chars_of(input);
        let parts = translate_vec(&v);
        let m = parts.len();
        let mut out: Vec<String> = Vec::new();
        let mut i: usize = 0;
        while i < m
            invariant
                m == parts@.len(),
                m == translate_s(input@).len(),
                forall|j: int| 0 <= j < m ==> parts@[j]@ == translate_s(input@)[j],
                i <= m,
                out@.len() == i,
                forall|j: int| 0 <= j < i ==> out@[j]@ == translate_s(input@)[j],
            decreases m - i,
        {
            let s = string_from_chars(&parts[i]);
            out.push(s);
            i = i + 1;
        }
        out
    }
}

} // verus!
