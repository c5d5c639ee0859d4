//! The page of the caller's own database: its connection details, linking it
//! to one of the caller's workloads picked from a list, and deleting it.

use vstd::prelude::*;
use crate::api_error::ApiError;
use crate::database::DatabaseCall;
use crate::model::DatabaseDetails;
use crate::text::chars_of;

verus! {

pub open spec fn is_digit(c: char) -> bool {
    '0' <= c && c <= '9'
}

pub open spec fn digit_value(c: char) -> int {
    (c as u32) as int - ('0' as u32) as int
}

/// The number that a run of decimal digits writes.
pub open spec fn digits_value(d: Seq<char>) -> int
    decreases d.len(),
{
    if d.len() == 0 {
        0
    } else {
        digits_value(d.drop_last()) * 10 + digit_value(d.last())
    }
}

pub open spec fn all_digits(d: Seq<char>) -> bool {
    d.len() > 0 && forall|k: int| 0 <= k < d.len() ==> is_digit(#[trigger] d[k])
}

/// The integer that a text writes in decimal, with an optional sign.
pub open spec fn decimal_of(s: Seq<char>) -> Option<int> {
    if s.len() > 0 && s[0] == '-' && all_digits(s.drop_first()) {
        Some(-digits_value(s.drop_first()))
    } else if s.len() > 0 && s[0] == '+' && all_digits(s.drop_first()) {
        Some(digits_value(s.drop_first()))
    } else if all_digits(s) {
        Some(digits_value(s))
    } else {
        None
    }
}

/// A workload id read from text: a decimal integer that fits in `i32`.
pub open spec fn project_id_of(s: Seq<char>) -> Option<i32> {
    match decimal_of(s) {
        Some(v) => if i32::MIN <= v <= i32::MAX {
            Some(v as i32)
        } else {
            None
        },
        None => None,
    }
}

/// A bound just past what an `i32` can hold in magnitude.
pub open spec fn cap() -> int {
    2147483649
}

pub open spec fn capped(v: int) -> int {
    if v < cap() {
        v
    } else {
        cap()
    }
}

proof fn lemma_digits_nonneg(d: Seq<char>)
    requires
        forall|k: int| 0 <= k < d.len() ==> is_digit(#[trigger] d[k]),
    ensures
        digits_value(d) >= 0,
    decreases d.len(),
{
    if d.len() > 0 {
        let init = d.drop_last();
        assert forall|k: int| 0 <= k < init.len() implies is_digit(#[trigger] init[k]) by {
            assert(init[k] == d[k]);
        }
        lemma_digits_nonneg(init);
        assert(is_digit(d[d.len() - 1]));
    }
}

proof fn lemma_capped_step(v: int, x: int)
    requires
        v >= 0,
        0 <= x <= 9,
    ensures
        capped(v * 10 + x) == capped(capped(v) * 10 + x),
{
    if v >= cap() {
        assert(v * 10 + x >= cap()) by (nonlinear_arith)
            requires
                v >= cap(),
                x >= 0,
        ;
    }
}

/// The workload id written in `text`, if it is a decimal integer in range.
pub fn parse_project_id(text: &str) -> (r: Option<i32>)
    ensures
        r == project_id_of(text@),
{
    let v = chars_of(text);
    let n = v.len();
    if n == 0 {
        return None;
    }
    let negative = v[0] == '-';
    let start: usize = if v[0] == '-' || v[0] == '+' {
        1
    } else {
        0
    };
    let ghost body = v@.skip(start as int);
    assert(start == 1 ==> body =~= v@.drop_first());
    if start == n {
        assert(body.len() == 0);
        return None;
    }
    let mut acc: u64 = 0;
    let mut i: usize = start;
    while i < n
        invariant
            start <= i <= n == v.len(),
            n > 0,
            start == (if v@[0] == '-' || v@[0] == '+' {
                1usize
            } else {
                0usize
            }),
            negative == (v@[0] == '-'),
            start == 1 ==> body =~= v@.drop_first(),
            v@ == text@,
            body == v@.skip(start as int),
            forall|k: int| start <= k < i ==> is_digit(#[trigger] v@[k]),
            acc as int == capped(digits_value(v@.subrange(start as int, i as int))),
        decreases n - i,
    {
        let c = v[i];
        if !(c >= '0' && c <= '9') {
            assert(!is_digit(v@[i as int]));
            assert(body[i - start] == v@[i as int]);
            assert(!is_digit(body[i - start]));
            assert(!all_digits(body));
            assert(start == 1 ==> !all_digits(v@.drop_first()));
            assert(decimal_of(v@) is None);
            assert(!all_digits(v@)) by {
                assert(!is_digit(v@[i as int]));
            }
            return None;
        }
        let d = (c as u32 - '0' as u32) as u64;
        let ghost prefix = v@.subrange(start as int, i as int);
        assert(v@.subrange(start as int, i + 1).drop_last() =~= prefix);
        assert(v@.subrange(start as int, i + 1).last() == c);
        proof {
            assert forall|k: int| 0 <= k < prefix.len() implies is_digit(#[trigger] prefix[k]) by {
                assert(prefix[k] == v@[start + k]);
            }
            lemma_digits_nonneg(prefix);
            lemma_capped_step(digits_value(prefix), d as int);
        }
        let next = acc * 10 + d;
        acc = if next < 2147483649 {
            next
        } else {
            2147483649
        };
        i = i + 1;
    }
    assert(v@.subrange(start as int, n as int) =~= body);
    assert(all_digits(body)) by {
        assert forall|k: int| 0 <= k < body.len() implies is_digit(#[trigger] body[k]) by {
            assert(body[k] == v@[start + k]);
        }
    }
    proof {
        assert forall|k: int| 0 <= k < body.len() implies is_digit(#[trigger] body[k]) by {
            assert(body[k] == v@[start + k]);
        }
        lemma_digits_nonneg(body);
        if start == 1 {
            assert(body =~= v@.drop_first());
        } else {
            assert(body =~= v@);
        }
    }
    if negative {
        if acc <= 2147483648 {
            Some((0 - (acc as i64)) as i32)
        } else {
            None
        }
    } else {
        if acc <= 2147483647 {
            Some(acc as i32)
        } else {
            None
        }
    }
}

/// The link request for the workload picked in the list, if the choice
/// names one.
pub fn link_request(choice: &str, database_id: i32) -> (r: Option<DatabaseCall>)
    ensures
        match project_id_of(choice@) {
            Some(id) => r == Some(DatabaseCall::Link { project_id: id, database_id }),
            None => r is None,
        },
{
    match parse_project_id(choice) {
        Some(project_id) => Some(DatabaseCall::Link { project_id, database_id }),
        None => None,
    }
}

#[derive(PartialEq, Eq, Structural, Clone, Copy, Debug)]
pub enum DatabasePageView {
    /// Connection details, the link form and deletion.
    Details,
    /// The database could not be loaded.
    Failed,
    Loading,
}

/// What the page shows: the database once loaded, else the load error, else
/// a loading note.
pub fn database_page_view(database: &Option<DatabaseDetails>, error: &Option<ApiError>) -> (r: DatabasePageView)
    ensures
        database is Some ==> r == DatabasePageView::Details,
        database is None && error is Some ==> r == DatabasePageView::Failed,
        database is None && error is None ==> r == DatabasePageView::Loading,
{
    if database.is_some() {
        DatabasePageView::Details
    } else if error.is_some() {
        DatabasePageView::Failed
    } else {
        DatabasePageView::Loading
    }
}

} // verus!
