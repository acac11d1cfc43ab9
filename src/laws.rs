use vstd::prelude::*;

use crate::command::{parse, CommandView};
use crate::render::render;
use crate::repl::{empty_message, pop_message, print_message};
use crate::stack::{pop_n, pop_spec, push_all, Stack};

verus! {

/// `items` from last to first, each as the result of a successful pop.
pub open spec fn reversed_pops(items: Seq<Seq<char>>) -> Seq<Option<Seq<char>>> {
    Seq::new(items.len(), |k: int| Some(items[items.len() - 1 - k]))
}

/// Pushing `p1, ..., pn` onto any stack and then popping `n` times yields
/// `pn, ..., p1` and leaves the stack as it was before the pushes.
pub proof fn lemma_lifo(s: Seq<Seq<char>>, items: Seq<Seq<char>>)
    ensures
        pop_n(push_all(s, items), items.len()) == (s, reversed_pops(items)),
    decreases items.len(),
{
    if items.len() > 0 {
        let d = items.drop_last();
        lemma_lifo(s, d);
        assert(push_all(s, items) == push_all(s, d).push(items.last()));
        assert(push_all(s, d).push(items.last()).drop_last() =~= push_all(s, d));
        assert(seq![Some(items.last())] + reversed_pops(d) =~= reversed_pops(items));
    } else {
        assert(reversed_pops(items) =~= Seq::<Option<Seq<char>>>::empty());
    }
}

/// Popping an empty stack leaves it empty and reports that it is empty, however often
/// it is repeated.
pub proof fn lemma_pop_empty(s: Seq<Seq<char>>, n: nat)
    requires
        s.len() == 0,
    ensures
        pop_spec(s) == (s, Option::<Seq<char>>::None),
        pop_message(s) == empty_message(),
        pop_n(s, n) == (s, Seq::new(n, |k: int| Option::<Seq<char>>::None)),
    decreases n,
{
    if n > 0 {
        lemma_pop_empty(s, (n - 1) as nat);
        assert(seq![Option::<Seq<char>>::None] + Seq::new(
            (n - 1) as nat,
            |k: int| Option::<Seq<char>>::None,
        ) =~= Seq::new(n, |k: int| Option::<Seq<char>>::None));
    } else {
        assert(pop_n(s, n).1 =~= Seq::new(n, |k: int| Option::<Seq<char>>::None));
    }
}

/// A push followed at once by a pop gives back exactly the pushed item and the stack
/// as it was.
pub proof fn lemma_push_pop(s: Seq<Seq<char>>, x: Seq<char>)
    ensures
        pop_spec(s.push(x)) == (s, Some(x)),
{
    assert(s.push(x).drop_last() =~= s);
}

/// The diagram, and the answer to a print, depend on the items alone: two stacks that
/// hold the same items render to the same text.
pub proof fn lemma_render_deterministic(a: &Stack, b: &Stack)
    requires
        a@ == b@,
    ensures
        render(a@) == render(b@),
        print_message(a@) == print_message(b@),
{
}

/// Every input line stands for exactly one command, and none is refused.
pub proof fn lemma_parse_total(line: Seq<char>)
    ensures
        parse(line) is Push || parse(line) is Pop || parse(line) is Print || parse(line) is Exit
            || parse(line) is Copy || parse(line) is Invalid,
{
}

} // verus!
