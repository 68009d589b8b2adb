//! A singly linked list that grows and shrinks at its head.

use vstd::prelude::*;

verus! {

struct Noeud<T> {
    valeur: T,
    prochain: Option<Box<Noeud<T>>>,
}

/// A singly linked list; `push` and `pop` work at the head in constant time.
pub struct ListeChainee<T> {
    tete: Option<Box<Noeud<T>>>,
}

/// The values of a chain of nodes, from the first.
spec fn chain<T>(l: Option<Box<Noeud<T>>>) -> Seq<T>
    decreases l,
{
    match l {
        None => Seq::empty(),
        Some(n) => seq![n.valeur].add(chain(n.prochain)),
    }
}

impl<T> View for ListeChainee<T> {
    type V = Seq<T>;

    /// The values from the head.
    closed spec fn view(&self) -> Seq<T> {
        chain(self.tete)
    }
}

impl<T> ListeChainee<T> {
    /// An empty list.
    pub fn new() -> (r: Self)
        ensures
            r@ == Seq::<T>::empty(),
    {
        ListeChainee { tete: None }
    }

    /// Puts `element` at the head.
    pub fn push(&mut self, element: T)
        ensures
            final(self)@ == seq![element].add(old(self)@),
    {
        let ancienne_tete = self.tete.take();
        self.tete = Some(Box::new(Noeud { valeur: element, prochain: ancienne_tete }));
    }

    /// Takes the value at the head; `None` when the list is empty.
    pub fn pop(&mut self) -> (r: Option<T>)
        ensures
            old(self)@.len() == 0 ==> r is None && final(self)@ == old(self)@,
            old(self)@.len() > 0 ==> r == Some(old(self)@[0]) && final(self)@ == old(self)@.drop_first(),
    {
        match self.tete.take() {
            None => None,
            Some(noeud) => {
                let noeud = *noeud;
                proof {
                    assert(old(self)@ == seq![noeud.valeur].add(chain(noeud.prochain)));
                    assert(old(self)@.drop_first() =~= chain(noeud.prochain));
                }
                self.tete = noeud.prochain;
                Some(noeud.valeur)
            },
        }
    }

    /// Whether the list holds no value.
    pub fn is_empty(&self) -> (r: bool)
        ensures
            r == (self@.len() == 0),
    {
        self.tete.is_none()
    }
}

} // verus!
