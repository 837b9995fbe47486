//! The view entry point's output: one line listing all current samples in
//! stored order, space-separated, followed by a newline. The line is
//! computed and proved here; the embedding program only prints it.

use crate::paths::decimal;
use crate::shared::Rng;
use crate::shared::State;
use crate::paths::u64_to_string;
use vstd::prelude::*;
use vstd::string::StringExecFns;

verus! {

/// The decimal rendering of a signed sample: a minus sign before the
/// magnitude for negative values.
pub open spec fn i32_decimal(n: int) -> Seq<char> {
    if n < 0 {
        seq!['-'] + decimal((-n) as nat)
    } else {
        decimal(n as nat)
    }
}

/// The rendered tail of the line from index `k` on: each sample followed
/// by one space, and a newline at the end.
pub open spec fn view_line_from(items: Seq<i32>, k: int) -> Seq<char>
    decreases items.len() - k,
{
    if k < 0 || k >= items.len() {
        seq!['\n']
    } else {
        i32_decimal(items[k] as int) + seq![' '] + view_line_from(items, k + 1)
    }
}

/// The whole rendered line for a sample history.
pub open spec fn view_line(items: Seq<i32>) -> Seq<char> {
    view_line_from(items, 0)
}

/// The decimal rendering of one signed sample.
pub fn i32_to_string(n: i32) -> (r: String)
    ensures
        r@ == i32_decimal(n as int),
{
    if n < 0 {
        let mag: u64 = (-(n as i64)) as u64;
        let mut s = String::new();
        s.append("-");
        let m = u64_to_string(mag);
        s.append(m.as_str());
        proof {
            reveal_strlit("-");
            assert("-"@ =~= seq!['-']);
            assert(s@ =~= i32_decimal(n as int));
        }
        s
    } else {
        u64_to_string(n as u64)
    }
}

fn view_tail(items: &Vec<i32>, k: usize) -> (r: String)
    requires
        k <= items@.len(),
    ensures
        r@ == view_line_from(items@, k as int),
    decreases items@.len() - k,
{
    if k == items.len() {
        proof {
            reveal_strlit("\n");
            assert("\n"@ =~= seq!['\n']);
        }
        String::from_str("\n")
    } else {
        let mut s = i32_to_string(items[k]);
        s.append(" ");
        let rest = view_tail(items, k + 1);
        s.append(rest.as_str());
        proof {
            reveal_strlit(" ");
            assert(" "@ =~= seq![' ']);
            assert(s@ =~= view_line_from(items@, k as int));
        }
        s
    }
}

/// Renders the state's samples as the single line the view module emits.
pub fn view_state<R: Rng>(state: &State<R>) -> (r: String)
    ensures
        r@ == view_line(state.items@),
{
    view_tail(&state.items, 0)
}

} // verus!
