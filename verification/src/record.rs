use vstd::prelude::*;

verus! {

/// A configuration record. Both fields are independently optional: a record
/// with both absent is valid and distinct from every other record value.
#[derive(Debug, Clone, PartialEq, Eq)]
pub struct Foo {
    pub name: Option<Vec<String>>,
    pub id: Option<u64>,
}

/// The mathematical value of a [`Foo`]: each name as a sequence of characters.
pub struct FooView {
    pub name: Option<Seq<Seq<char>>>,
    pub id: Option<u64>,
}

impl View for Foo {
    type V = FooView;

    open spec fn view(&self) -> FooView {
        FooView {
            name: match self.name {
                Some(v) => Some(v@.map_values(|s: String| s@)),
                None => None,
            },
            id: self.id,
        }
    }
}

impl Foo {
    /// The record with both fields absent.
    pub fn new() -> (r: Self)
        ensures
            r@ == (FooView { name: None, id: None }),
    {
        Foo { name: None, id: None }
    }
}

/// A record with both fields absent is distinct from every record with
/// either field set: optionality is preserved, never coerced to a default.
pub proof fn lemma_absent_record_distinct(v: FooView)
    requires
        v.name is Some || v.id is Some,
    ensures
        v != (FooView { name: None, id: None }),
{
}

} // verus!
