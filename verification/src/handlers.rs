use vstd::prelude::*;
use crate::cell::PriceCell;

verus! {

/// An HTTP response as the handlers shape it: a status code and, where one
/// is sent, a JSON integer body. `body: None` means an empty body.
pub struct HttpResponse {
    pub status: u16,
    pub body: Option<u64>,
}

/// The state of the cell after a replace with `price`: present with
/// `price`, whatever the prior state `s` was.
pub open spec fn replaced(s: Option<u64>, price: u64) -> Option<u64> {
    Some(price)
}

/// The state of the cell after a clear: absent, whatever the prior
/// state `s` was.
pub open spec fn cleared(s: Option<u64>) -> Option<u64> {
    None
}

/// The response a read owes on a cell in state `s`: 200 with the value
/// when one is present, 404 with an empty body when none is.
pub open spec fn read_response(s: Option<u64>) -> HttpResponse {
    match s {
        Some(v) => HttpResponse { status: 200, body: Some(v) },
        None => HttpResponse { status: 404, body: None },
    }
}

/// The read handler: no side effect; 200 with the stored value when the
/// cell is present, 404 with an empty body when it is absent.
pub fn get_price(cell: &PriceCell) -> (r: HttpResponse)
    ensures
        r == read_response(cell@),
{
    match cell.read() {
        Some(price) => HttpResponse { status: 200, body: Some(price) },
        None => HttpResponse { status: 404, body: None },
    }
}

/// The replace handler: unconditionally overwrites the cell with `price`
/// and answers 200 with the just-stored value as the body.
pub fn set_price(cell: &mut PriceCell, price: u64) -> (r: HttpResponse)
    ensures
        final(cell)@ == replaced(old(cell)@, price),
        r == (HttpResponse { status: 200, body: Some(price) }),
{
    cell.replace(price);
    HttpResponse { status: 200, body: Some(price) }
}

/// The clear handler: resets the cell to absent, whatever it held, and
/// answers 204 with an empty body.
pub fn delete_price(cell: &mut PriceCell) -> (r: HttpResponse)
    ensures
        final(cell)@ == cleared(old(cell)@),
        r == (HttpResponse { status: 204, body: None }),
{
    cell.clear();
    HttpResponse { status: 204, body: None }
}

/// Law: for every value `price` and every prior state, a read right after
/// a replace with `price` returns 200 with `price` as the body.
pub proof fn lemma_read_after_replace(s: Option<u64>, price: u64)
    ensures
        read_response(replaced(s, price)) == (HttpResponse { status: 200, body: Some(price) }),
{
}

/// Law: a read right after a clear returns 404 with an empty body, from
/// every prior state.
pub proof fn lemma_read_after_clear(s: Option<u64>)
    ensures
        read_response(cleared(s)) == (HttpResponse { status: 404, body: None }),
{
}

/// Law: clear is idempotent — clearing twice leaves the cell in the same
/// state as clearing once, from every prior state.
pub proof fn lemma_clear_idempotent(s: Option<u64>)
    ensures
        cleared(cleared(s)) == cleared(s),
{
}

/// Law: replace is idempotent under repetition with the same value —
/// replacing twice with `price` leaves the same state as replacing once.
pub proof fn lemma_replace_idempotent(s: Option<u64>, price: u64)
    ensures
        replaced(replaced(s, price), price) == replaced(s, price),
{
}

/// Law: replace overwrites — after a replace with `v1` and then one with
/// `v2`, a read returns 200 with `v2` as the body.
pub proof fn lemma_replace_overwrites(s: Option<u64>, v1: u64, v2: u64)
    requires
        v1 != v2,
    ensures
        read_response(replaced(replaced(s, v1), v2)) == (HttpResponse { status: 200, body: Some(v2) }),
{
}

} // verus!
