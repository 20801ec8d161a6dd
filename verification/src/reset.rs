//! Resetting the device: softly, through the interpreter, or hard, by a
//! pulse on the control lines of the port.

use vstd::prelude::*;
use crate::exec::EXECUTE;
use crate::link::{bytes1, Request, RequestView};

verus! {

/// The views of a list of requests, in order.
pub open spec fn script(list: Seq<Request>) -> Seq<RequestView> {
    list.map_values(|req: Request| req@)
}

/// What a soft reset asks of the host, in order: the end-of-transmission
/// byte, then a second of rest.
pub open spec fn soft_reset_script() -> Seq<RequestView> {
    seq![RequestView::Write(seq![EXECUTE]), RequestView::Sleep(1000)]
}

/// What a hard reset asks of the host, in order: data-terminal-ready on and
/// request-to-send off for 100 ms, the two the other way round for 100 ms,
/// then request-to-send off and a second of rest.
pub open spec fn hard_reset_script() -> Seq<RequestView> {
    seq![
        RequestView::SetDtr(true),
        RequestView::SetRts(false),
        RequestView::Sleep(100),
        RequestView::SetDtr(false),
        RequestView::SetRts(true),
        RequestView::Sleep(100),
        RequestView::SetRts(false),
        RequestView::Sleep(1000),
    ]
}

/// The requests of a soft reset. The host carries them out in order and
/// stops at the first that fails.
pub fn soft_reset() -> (r: Vec<Request>)
    ensures
        script(r@) == soft_reset_script(),
{
    let mut r: Vec<Request> = Vec::new();
    r.push(Request::Write(bytes1(EXECUTE)));
    r.push(Request::Sleep(1000));
    proof {
        assert(script(r@) =~= soft_reset_script());
    }
    r
}

/// The requests of a hard reset. The host carries them out in order and
/// stops at the first that fails.
pub fn hard_reset() -> (r: Vec<Request>)
    ensures
        script(r@) == hard_reset_script(),
{
    let mut r: Vec<Request> = Vec::new();
    r.push(Request::SetDtr(true));
    r.push(Request::SetRts(false));
    r.push(Request::Sleep(100));
    r.push(Request::SetDtr(false));
    r.push(Request::SetRts(true));
    r.push(Request::Sleep(100));
    r.push(Request::SetRts(false));
    r.push(Request::Sleep(1000));
    proof {
        assert(script(r@) =~= hard_reset_script());
    }
    r
}

} // verus!
