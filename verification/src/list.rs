use vstd::prelude::*;

verus! {

/// A singly linked list node of 32-bit values.
#[derive(PartialEq, Eq, Debug)]
pub struct ListNode {
    pub val: i32,
    pub next: Option<Box<ListNode>>,
}

impl ListNode {
    /// A node holding `val`, with no successor.
    #[inline]
    pub fn new(val: i32) -> (r: Self)
        ensures
            r.val == val,
            r.next is None,
    {
        ListNode { next: None, val }
    }
}

/// Combine two lists: with both lists present nothing is produced, with at
/// most one present that one is handed back unchanged.
pub fn add_two_numbers(l1: Option<Box<ListNode>>, l2: Option<Box<ListNode>>) -> (r: Option<
    Box<ListNode>,
>)
    ensures
        l1 is Some && l2 is Some ==> r is None,
        l1 is None ==> r == l2,
        l2 is None ==> r == l1,
{
    match (l1, l2) {
        (Some(_), Some(_)) => None,
        (Some(a), None) => Some(a),
        (None, other) => other,
    }
}

} // verus!
