//! Queries over the in-memory trace table: extreme geometry values and
//! the crossline/inline lookup.

use crate::Trace;
use vstd::prelude::*;

verus! {

/// The indices of the traces with the smallest and greatest inline
/// value: the first index attaining each extreme. An empty table has
/// none.
pub fn trace_idx_for_inline_min_max(traces: &Vec<Trace>) -> (r: Option<[usize; 2]>)
    ensures
        traces@.len() == 0 <==> r is None,
        r matches Some(mm) ==> {
            let mn = mm[0] as int;
            let mx = mm[1] as int;
            &&& 0 <= mn < traces@.len()
            &&& 0 <= mx < traces@.len()
            &&& (forall|j: int|
                0 <= j < traces@.len() ==> traces@[mn].trace_header.inline_no <= (
                #[trigger] traces@[j]).trace_header.inline_no <= traces@[mx].trace_header.inline_no)
            &&& (forall|j: int|
                0 <= j < mn ==> (#[trigger] traces@[j]).trace_header.inline_no
                    > traces@[mn].trace_header.inline_no)
            &&& (forall|j: int|
                0 <= j < mx ==> (#[trigger] traces@[j]).trace_header.inline_no
                    < traces@[mx].trace_header.inline_no)
        },
{
    let n = traces.len();
    if n == 0 {
        return None;
    }
    let mut mn: usize = 0;
    let mut mx: usize = 0;
    let mut i: usize = 1;
    while i < n
        invariant
            n == traces@.len(),
            1 <= i <= n,
            0 <= mn < i,
            0 <= mx < i,
            forall|j: int|
                0 <= j < i ==> traces@[mn as int].trace_header.inline_no <= (
                #[trigger] traces@[j]).trace_header.inline_no
                    <= traces@[mx as int].trace_header.inline_no,
            forall|j: int|
                0 <= j < mn ==> (#[trigger] traces@[j]).trace_header.inline_no
                    > traces@[mn as int].trace_header.inline_no,
            forall|j: int|
                0 <= j < mx ==> (#[trigger] traces@[j]).trace_header.inline_no
                    < traces@[mx as int].trace_header.inline_no,
        decreases n - i,
    {
        if traces[i].trace_header.inline_no < traces[mn].trace_header.inline_no {
            mn = i;
        }
        if traces[i].trace_header.inline_no > traces[mx].trace_header.inline_no {
            mx = i;
        }
        i += 1;
    }
    Some([mn, mx])
}

/// The indices of the traces with the smallest and greatest crossline
/// value: the first index attaining each extreme. An empty table has
/// none.
pub fn trace_idx_for_crossline_min_max(traces: &Vec<Trace>) -> (r: Option<[usize; 2]>)
    ensures
        traces@.len() == 0 <==> r is None,
        r matches Some(mm) ==> {
            let mn = mm[0] as int;
            let mx = mm[1] as int;
            &&& 0 <= mn < traces@.len()
            &&& 0 <= mx < traces@.len()
            &&& (forall|j: int|
                0 <= j < traces@.len() ==> traces@[mn].trace_header.crossline_no <= (
                #[trigger] traces@[j]).trace_header.crossline_no <= traces@[mx].trace_header.crossline_no)
            &&& (forall|j: int|
                0 <= j < mn ==> (#[trigger] traces@[j]).trace_header.crossline_no
                    > traces@[mn].trace_header.crossline_no)
            &&& (forall|j: int|
                0 <= j < mx ==> (#[trigger] traces@[j]).trace_header.crossline_no
                    < traces@[mx].trace_header.crossline_no)
        },
{
    let n = traces.len();
    if n == 0 {
        return None;
    }
    let mut mn: usize = 0;
    let mut mx: usize = 0;
    let mut i: usize = 1;
    while i < n
        invariant
            n == traces@.len(),
            1 <= i <= n,
            0 <= mn < i,
            0 <= mx < i,
            forall|j: int|
                0 <= j < i ==> traces@[mn as int].trace_header.crossline_no <= (
                #[trigger] traces@[j]).trace_header.crossline_no
                    <= traces@[mx as int].trace_header.crossline_no,
            forall|j: int|
                0 <= j < mn ==> (#[trigger] traces@[j]).trace_header.crossline_no
                    > traces@[mn as int].trace_header.crossline_no,
            forall|j: int|
                0 <= j < mx ==> (#[trigger] traces@[j]).trace_header.crossline_no
                    < traces@[mx as int].trace_header.crossline_no,
        decreases n - i,
    {
        if traces[i].trace_header.crossline_no < traces[mn].trace_header.crossline_no {
            mn = i;
        }
        if traces[i].trace_header.crossline_no > traces[mx].trace_header.crossline_no {
            mx = i;
        }
        i += 1;
    }
    Some([mn, mx])
}

/// The indices of the traces with the smallest and greatest x ensemble
/// value: the first index attaining each extreme. An empty table has
/// none.
pub fn trace_idx_for_x_ensemble_min_max(traces: &Vec<Trace>) -> (r: Option<[usize; 2]>)
    ensures
        traces@.len() == 0 <==> r is None,
        r matches Some(mm) ==> {
            let mn = mm[0] as int;
            let mx = mm[1] as int;
            &&& 0 <= mn < traces@.len()
            &&& 0 <= mx < traces@.len()
            &&& (forall|j: int|
                0 <= j < traces@.len() ==> traces@[mn].trace_header.x_ensemble <= (
                #[trigger] traces@[j]).trace_header.x_ensemble <= traces@[mx].trace_header.x_ensemble)
            &&& (forall|j: int|
                0 <= j < mn ==> (#[trigger] traces@[j]).trace_header.x_ensemble
                    > traces@[mn].trace_header.x_ensemble)
            &&& (forall|j: int|
                0 <= j < mx ==> (#[trigger] traces@[j]).trace_header.x_ensemble
                    < traces@[mx].trace_header.x_ensemble)
        },
{
    let n = traces.len();
    if n == 0 {
        return None;
    }
    let mut mn: usize = 0;
    let mut mx: usize = 0;
    let mut i: usize = 1;
    while i < n
        invariant
            n == traces@.len(),
            1 <= i <= n,
            0 <= mn < i,
            0 <= mx < i,
            forall|j: int|
                0 <= j < i ==> traces@[mn as int].trace_header.x_ensemble <= (
                #[trigger] traces@[j]).trace_header.x_ensemble
                    <= traces@[mx as int].trace_header.x_ensemble,
            forall|j: int|
                0 <= j < mn ==> (#[trigger] traces@[j]).trace_header.x_ensemble
                    > traces@[mn as int].trace_header.x_ensemble,
            forall|j: int|
                0 <= j < mx ==> (#[trigger] traces@[j]).trace_header.x_ensemble
                    < traces@[mx as int].trace_header.x_ensemble,
        decreases n - i,
    {
        if traces[i].trace_header.x_ensemble < traces[mn].trace_header.x_ensemble {
            mn = i;
        }
        if traces[i].trace_header.x_ensemble > traces[mx].trace_header.x_ensemble {
            mx = i;
        }
        i += 1;
    }
    Some([mn, mx])
}

/// The indices of the traces with the smallest and greatest y ensemble
/// value: the first index attaining each extreme. An empty table has
/// none.
pub fn trace_idx_for_y_ensemble_min_max(traces: &Vec<Trace>) -> (r: Option<[usize; 2]>)
    ensures
        traces@.len() == 0 <==> r is None,
        r matches Some(mm) ==> {
            let mn = mm[0] as int;
            let mx = mm[1] as int;
            &&& 0 <= mn < traces@.len()
            &&& 0 <= mx < traces@.len()
            &&& (forall|j: int|
                0 <= j < traces@.len() ==> traces@[mn].trace_header.y_ensemble <= (
                #[trigger] traces@[j]).trace_header.y_ensemble <= traces@[mx].trace_header.y_ensemble)
            &&& (forall|j: int|
                0 <= j < mn ==> (#[trigger] traces@[j]).trace_header.y_ensemble
                    > traces@[mn].trace_header.y_ensemble)
            &&& (forall|j: int|
                0 <= j < mx ==> (#[trigger] traces@[j]).trace_header.y_ensemble
                    < traces@[mx].trace_header.y_ensemble)
        },
{
    let n = traces.len();
    if n == 0 {
        return None;
    }
    let mut mn: usize = 0;
    let mut mx: usize = 0;
    let mut i: usize = 1;
    while i < n
        invariant
            n == traces@.len(),
            1 <= i <= n,
            0 <= mn < i,
            0 <= mx < i,
            forall|j: int|
                0 <= j < i ==> traces@[mn as int].trace_header.y_ensemble <= (
                #[trigger] traces@[j]).trace_header.y_ensemble
                    <= traces@[mx as int].trace_header.y_ensemble,
            forall|j: int|
                0 <= j < mn ==> (#[trigger] traces@[j]).trace_header.y_ensemble
                    > traces@[mn as int].trace_header.y_ensemble,
            forall|j: int|
                0 <= j < mx ==> (#[trigger] traces@[j]).trace_header.y_ensemble
                    < traces@[mx as int].trace_header.y_ensemble,
        decreases n - i,
    {
        if traces[i].trace_header.y_ensemble < traces[mn].trace_header.y_ensemble {
            mn = i;
        }
        if traces[i].trace_header.y_ensemble > traces[mx].trace_header.y_ensemble {
            mx = i;
        }
        i += 1;
    }
    Some([mn, mx])
}

/// The index of the last trace whose crossline and inline numbers equal
/// the given pair, if any: the entry a lookup keyed by that pair holds
/// when later traces overwrite earlier ones.
pub fn find_trace_by_xline_inline(traces: &Vec<Trace>, xline: i32, inline: i32) -> (r: Option<
    usize,
>)
    ensures
        r matches Some(i) ==> 0 <= i < traces@.len() && traces@[i as int].trace_header.crossline_no
            == xline && traces@[i as int].trace_header.inline_no == inline && (forall|j: int|
            i < j < traces@.len() ==> !((#[trigger] traces@[j]).trace_header.crossline_no == xline
                && traces@[j].trace_header.inline_no == inline)),
        r is None ==> (forall|j: int|
            0 <= j < traces@.len() ==> !((#[trigger] traces@[j]).trace_header.crossline_no == xline
                && traces@[j].trace_header.inline_no == inline)),
{
    let n = traces.len();
    let mut i: usize = n;
    while i > 0
        invariant
            n == traces@.len(),
            0 <= i <= n,
            forall|j: int|
                i <= j < n ==> !((#[trigger] traces@[j]).trace_header.crossline_no == xline
                    && traces@[j].trace_header.inline_no == inline),
        decreases i,
    {
        i -= 1;
        if traces[i].trace_header.crossline_no == xline && traces[i].trace_header.inline_no
            == inline {
            return Some(i);
        }
    }
    None
}

} // verus!
