//! A first-in first-out queue and a last-in first-out stack of strings.

use vstd::prelude::*;
use vstd::string::*;

use std::collections::VecDeque;

verus! {

/// The items each between single quotes, separated by ` | `.
pub open spec fn quoted_join(items: Seq<String>) -> Seq<char>
    decreases items.len(),
{
    if items.len() == 0 {
        Seq::empty()
    } else if items.len() == 1 {
        "'"@ + items[0]@ + "'"@
    } else {
        quoted_join(items.drop_last()) + " | '"@ + items.last()@ + "'"@
    }
}

fn join_quoted(items: &Vec<String>) -> (r: String)
    ensures
        r@ == quoted_join(items@),
{
    let mut out = String::new();
    let mut k: usize = 0;
    while k < items.len()
        invariant
            0 <= k <= items.len(),
            out@ == quoted_join(items@.subrange(0, k as int)),
        decreases items.len() - k,
    {
        let ghost before = out@;
        if k == 0 {
            out.append("'");
        } else {
            out.append(" | '");
        }
        out.append(items[k].as_str());
        out.append("'");
        assert(items@.subrange(0, k + 1).drop_last() =~= items@.subrange(0, k as int));
        if k == 0 {
            assert(out@ =~= "'"@ + items@[0]@ + "'"@);
        } else {
            assert(out@ =~= before + " | '"@ + items@[k as int]@ + "'"@);
        }
        k = k + 1;
    }
    assert(items@.subrange(0, k as int) =~= items@);
    out
}

/// A queue: items leave in the order in which they came.
pub struct MaFile {
    elements: VecDeque<String>,
}

impl View for MaFile {
    type V = Seq<String>;

    /// The items, the next to leave first.
    closed spec fn view(&self) -> Seq<String> {
        self.elements@
    }
}

impl MaFile {
    /// An empty queue.
    pub fn new() -> (r: Self)
        ensures
            r@ == Seq::<String>::empty(),
    {
        MaFile { elements: VecDeque::new() }
    }

    /// Adds `element` at the back.
    pub fn enqueue(&mut self, element: String)
        ensures
            final(self)@ == old(self)@.push(element),
    {
        self.elements.push_back(element);
    }

    /// Takes the item at the front, the oldest one; `None` when the queue is
    /// empty.
    pub fn dequeue(&mut self) -> (r: Option<String>)
        ensures
            old(self)@.len() == 0 ==> r is None && final(self)@ == old(self)@,
            old(self)@.len() > 0 ==> r == Some(old(self)@[0]) && final(self)@ == old(self)@.drop_first(),
    {
        self.elements.pop_front()
    }

    /// The number of items.
    pub fn len(&self) -> (r: usize)
        ensures
            r == self@.len(),
    {
        self.elements.len()
    }

    /// The state line: the items from the next to leave to the newest.
    pub fn etat(&self) -> (r: String)
        ensures
            r@ == "  [ÉTAT] Prochain à sortir -> ["@ + quoted_join(self@) + "] <- Dernier arrivé"@,
    {
        let mut items: Vec<String> = Vec::new();
        let mut k: usize = 0;
        while k < self.elements.len()
            invariant
                0 <= k <= self.elements@.len(),
                items@ == self.elements@.subrange(0, k as int),
            decreases self.elements@.len() - k,
        {
            items.push(self.elements[k].clone());
            assert(items@ =~= self.elements@.subrange(0, k + 1));
            k = k + 1;
        }
        assert(items@ =~= self.elements@);
        let mut r = String::from_str("  [ÉTAT] Prochain à sortir -> [");
        let body = join_quoted(&items);
        r.append(body.as_str());
        r.append("] <- Dernier arrivé");
        r
    }
}

/// A stack: the item that came last leaves first.
pub struct MaPile {
    elements: Vec<String>,
}

impl View for MaPile {
    type V = Seq<String>;

    /// The items from the bottom to the top.
    closed spec fn view(&self) -> Seq<String> {
        self.elements@
    }
}

impl MaPile {
    /// An empty stack.
    pub fn new() -> (r: Self)
        ensures
            r@ == Seq::<String>::empty(),
    {
        MaPile { elements: Vec::new() }
    }

    /// Puts `element` on top.
    pub fn push(&mut self, element: String)
        ensures
            final(self)@ == old(self)@.push(element),
    {
        self.elements.push(element);
    }

    /// Takes the item on top, the newest one; `None` when the stack is empty.
    pub fn pop(&mut self) -> (r: Option<String>)
        ensures
            old(self)@.len() == 0 ==> r is None && final(self)@ == old(self)@,
            old(self)@.len() > 0 ==> r == Some(old(self)@.last()) && final(self)@ == old(self)@.drop_last(),
    {
        self.elements.pop()
    }

    /// The number of items.
    pub fn len(&self) -> (r: usize)
        ensures
            r == self@.len(),
    {
        self.elements.len()
    }

    /// The state line: the items from the bottom to the top.
    pub fn etat(&self) -> (r: String)
        ensures
            r@ == "  [ÉTAT] Base -> ["@ + quoted_join(self@) + "] <- Sommet"@,
    {
        let mut r = String::from_str("  [ÉTAT] Base -> [");
        let body = join_quoted(&self.elements);
        r.append(body.as_str());
        r.append("] <- Sommet");
        r
    }
}

} // verus!
