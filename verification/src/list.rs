//! A singly linked list of unsigned integers, viewed as a sequence.

use vstd::prelude::*;
use crate::decimal::decimal_digits;
use crate::decimal::decimal_string;

verus! {

/// A cons list: each node carries one element and owns the rest.
pub enum List {
    Cons(u32, Box<List>),
    Nil,
}

impl List {
    /// The elements of the list, front first.
    pub closed spec fn elems(&self) -> Seq<u32>
        decreases self,
    {
        match self {
            List::Cons(head, tail) => seq![*head] + tail.elems(),
            List::Nil => Seq::empty(),
        }
    }
}

impl View for List {
    type V = Seq<u32>;

    open spec fn view(&self) -> Seq<u32> {
        self.elems()
    }
}

/// The text of a list: its elements in decimal, each followed by a comma and
/// a blank, closed off with `Nil`.
pub open spec fn list_text(elems: Seq<u32>) -> Seq<char>
    decreases elems.len(),
{
    if elems.len() == 0 {
        seq!['N', 'i', 'l']
    } else {
        decimal_digits(elems[0] as nat) + seq![',', ' '] + list_text(elems.drop_first())
    }
}

impl List {
    /// The empty list.
    pub fn new() -> (l: List)
        ensures
            l@ == Seq::<u32>::empty(),
    {
        List::Nil
    }

    /// A list with `elem` in front of `self`.
    pub fn prepend(self, elem: u32) -> (l: List)
        ensures
            l@ == seq![elem] + self@,
    {
        List::Cons(elem, Box::new(self))
    }

    /// How many elements the list has.
    pub fn len(&self) -> (n: u32)
        requires
            self@.len() <= u32::MAX,
        ensures
            n == self@.len(),
        decreases self,
    {
        match self {
            List::Cons(_head, tail) => 1 + tail.len(),
            List::Nil => 0,
        }
    }

    /// The list as text, element by element.
    pub fn stringify(&self) -> (s: String)
        ensures
            s@ == list_text(self@),
        decreases self,
    {
        match self {
            List::Cons(head, tail) => {
                let mut s = decimal_string(*head);
                s.append(", ");
                let rest = tail.stringify();
                s.append(rest.as_str());
                proof {
                    reveal_strlit(", ");
                    assert(self@.drop_first() =~= tail@);
                    assert(s@ =~= list_text(self@));
                }
                s
            },
            List::Nil => {
                let s = "Nil".to_owned();
                proof {
                    reveal_strlit("Nil");
                    assert(s@ =~= list_text(self@));
                }
                s
            },
        }
    }
}

} // verus!
