use vstd::prelude::*;

use crate::render::{
    append_block, append_border, border, lemma_max_len_bounds, lemma_rows_from_bottom, max_len,
    render, rows,
};

verus! {

/// The stack after popping `s`, and the item that came off, if any.
pub open spec fn pop_spec(s: Seq<Seq<char>>) -> (Seq<Seq<char>>, Option<Seq<char>>) {
    if s.len() == 0 {
        (s, None)
    } else {
        (s.drop_last(), Some(s.last()))
    }
}

/// The stack after pushing each item of `items` in turn onto `s`.
pub open spec fn push_all(s: Seq<Seq<char>>, items: Seq<Seq<char>>) -> Seq<Seq<char>>
    decreases items.len(),
{
    if items.len() == 0 {
        s
    } else {
        push_all(s, items.drop_last()).push(items.last())
    }
}

/// The stack after popping `n` times from `s`, and the results of those pops in order.
pub open spec fn pop_n(s: Seq<Seq<char>>, n: nat) -> (Seq<Seq<char>>, Seq<Option<Seq<char>>>)
    decreases n,
{
    if n == 0 {
        (s, Seq::empty())
    } else {
        let first = pop_spec(s);
        let rest = pop_n(first.0, (n - 1) as nat);
        (rest.0, seq![first.1] + rest.1)
    }
}

/// What a popped `String` stands for.
pub open spec fn opt_view(r: Option<String>) -> Option<Seq<char>> {
    match r {
        Some(s) => Some(s@),
        None => None,
    }
}

/// A last-in, first-out stack of text items; the top is the item pushed last.
pub struct Stack {
    elements: Vec<String>,
}

impl View for Stack {
    type V = Seq<Seq<char>>;

    /// The items, oldest first; the last one is the top.
    closed spec fn view(&self) -> Seq<Seq<char>> {
        self.elements@.map_values(|s: String| s@)
    }
}

impl Stack {
    /// An empty stack.
    pub fn new() -> (r: Stack)
        ensures
            r@ == Seq::<Seq<char>>::empty(),
    {
        let r = Stack { elements: Vec::new() };
        assert(r@ =~= Seq::<Seq<char>>::empty());
        r
    }

    /// Puts `elem` on top.
    pub fn push(&mut self, elem: String)
        ensures
            final(self)@ == old(self)@.push(elem@),
    {
        self.elements.push(elem);
        assert(self@ =~= old(self)@.push(elem@));
    }

    /// Takes the top item off, or returns `None` and leaves the stack as it is when it is empty.
    pub fn pop(&mut self) -> (r: Option<String>)
        ensures
            (final(self)@, opt_view(r)) == pop_spec(old(self)@),
    {
        let r = self.elements.pop();
        assert(self@ =~= pop_spec(old(self)@).0);
        r
    }

    /// Whether the stack holds no item.
    pub fn is_empty(&self) -> (r: bool)
        ensures
            r == (self@.len() == 0),
    {
        self.elements.len() == 0
    }

    /// The number of items on the stack.
    pub fn len(&self) -> (r: usize)
        ensures
            r == self@.len(),
    {
        self.elements.len()
    }
    /// The box diagram of the stack: a border, then for each item from the top down a line
    /// with the item centred in the width of the longest item, and a border beneath it.
    pub fn to_display_string(&self) -> (r: String)
        ensures
            r@ == render(self@),
    {
        let ghost items = self@;
        let n = self.elements.len();
        let mut m: usize = 0;
        let mut i: usize = 0;
        while i < n
            invariant
                n == self.elements.len(),
                items == self@,
                i <= n,
                m == max_len(items.take(i as int)),
            decreases n - i,
        {
            let l = self.elements[i].as_str().unicode_len();
            assert(items.take(i as int + 1).drop_last() =~= items.take(i as int));
            assert(items[i as int] == self.elements@[i as int]@);
            if l > m {
                m = l;
            }
            i = i + 1;
        }
        assert(items.take(n as int) =~= items);
        proof {
            lemma_max_len_bounds(items);
        }
        let mut out = String::new();
        append_border(&mut out, m);
        let mut j: usize = n;
        assert(items.subrange(n as int, n as int) =~= Seq::<Seq<char>>::empty());
        while j > 0
            invariant
                n == self.elements.len(),
                items == self@,
                j <= n,
                m == max_len(items),
                forall|k: int| 0 <= k < items.len() ==> #[trigger] items[k].len() <= max_len(items),
                out@ == border(m as nat) + rows(items.subrange(j as int, n as int), m as nat),
            decreases j,
        {
            j = j - 1;
            let item = self.elements[j].as_str();
            assert(items[j as int] == item@);
            append_block(&mut out, item, m);
            proof {
                let s = items.subrange(j as int, n as int);
                lemma_rows_from_bottom(s, m as nat);
                assert(s.drop_first() =~= items.subrange(j as int + 1, n as int));
            }
        }
        assert(items.subrange(0, n as int) =~= items);
        out
    }
}

} // verus!
