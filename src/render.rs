use vstd::prelude::*;

verus! {

/// `n` copies of `c`.
pub open spec fn repeat(c: char, n: nat) -> Seq<char> {
    Seq::new(n, |i: int| c)
}

/// The length, in characters, of the longest item; 0 when there is none.
pub open spec fn max_len(items: Seq<Seq<char>>) -> nat
    decreases items.len(),
{
    if items.len() == 0 {
        0
    } else {
        let m = max_len(items.drop_last());
        if items.last().len() > m {
            items.last().len()
        } else {
            m
        }
    }
}

/// A horizontal border for boxes whose text is `w` characters wide: `+`, `w + 2` dashes, `+`,
/// and a line break.
pub open spec fn border(w: nat) -> Seq<char> {
    seq!['+'] + repeat('-', w + 2) + seq!['+', '\n']
}

/// `s` centred in a field of `w` characters. When the padding cannot be split evenly, the
/// extra space goes after the text.
pub open spec fn centered(s: Seq<char>, w: nat) -> Seq<char> {
    let pad = (w - s.len()) as nat;
    repeat(' ', pad / 2) + s + repeat(' ', (pad - pad / 2) as nat)
}

/// One box: the item centred between `| ` and ` |`, then the border beneath it.
pub open spec fn block(s: Seq<char>, w: nat) -> Seq<char> {
    seq!['|', ' '] + centered(s, w) + seq![' ', '|', '\n'] + border(w)
}

/// The boxes of `items`, top (last item) first.
pub open spec fn rows(items: Seq<Seq<char>>, w: nat) -> Seq<char>
    decreases items.len(),
{
    if items.len() == 0 {
        Seq::empty()
    } else {
        block(items.last(), w) + rows(items.drop_last(), w)
    }
}

/// The box diagram of a stack whose items, oldest first, are `items`.
pub open spec fn render(items: Seq<Seq<char>>) -> Seq<char> {
    border(max_len(items)) + rows(items, max_len(items))
}

/// No item is longer than `max_len`.
pub proof fn lemma_max_len_bounds(items: Seq<Seq<char>>)
    ensures
        forall|k: int| 0 <= k < items.len() ==> #[trigger] items[k].len() <= max_len(items),
    decreases items.len(),
{
    if items.len() > 0 {
        lemma_max_len_bounds(items.drop_last());
        assert forall|k: int| 0 <= k < items.len() implies #[trigger] items[k].len() <= max_len(
            items,
        ) by {
            if k < items.len() - 1 {
                assert(items[k] == items.drop_last()[k]);
            }
        }
    }
}

/// The boxes can also be laid out from the bottom item: those above it come first.
pub proof fn lemma_rows_from_bottom(items: Seq<Seq<char>>, w: nat)
    requires
        items.len() > 0,
    ensures
        rows(items, w) == rows(items.drop_first(), w) + block(items[0], w),
    decreases items.len(),
{
    if items.len() == 1 {
        assert(items.drop_first() =~= Seq::<Seq<char>>::empty());
        assert(rows(items.drop_last(), w) == Seq::<char>::empty()) by {
            assert(items.drop_last().len() == 0);
        }
        assert(rows(items, w) =~= rows(items.drop_first(), w) + block(items[0], w));
    } else {
        let d = items.drop_last();
        lemma_rows_from_bottom(d, w);
        assert(d.drop_first() =~= items.drop_first().drop_last());
        assert(items.drop_first().last() == items.last());
        assert(d[0] == items[0]);
        assert(rows(items, w) =~= rows(items.drop_first(), w) + block(items[0], w));
    }
}

/// Appends `n` copies of the one character of `unit`.
fn append_repeat(out: &mut String, unit: &str, n: usize)
    requires
        unit@.len() == 1,
    ensures
        final(out)@ == old(out)@ + repeat(unit@[0], n as nat),
{
    let mut i: usize = 0;
    while i < n
        invariant
            unit@.len() == 1,
            i <= n,
            out@ == old(out)@ + repeat(unit@[0], i as nat),
        decreases n - i,
    {
        out.append(unit);
        i = i + 1;
        assert(out@ =~= old(out)@ + repeat(unit@[0], i as nat));
    }
}

/// Appends the border for text `w` characters wide.
pub(crate) fn append_border(out: &mut String, w: usize)
    ensures
        final(out)@ == old(out)@ + border(w as nat),
{
    proof {
        reveal_strlit("+");
        reveal_strlit("-");
        reveal_strlit("+\n");
    }
    out.append("+");
    append_repeat(out, "-", 2);
    append_repeat(out, "-", w);
    out.append("+\n");
    assert(repeat('-', 2) + repeat('-', w as nat) =~= repeat('-', w as nat + 2));
    assert(out@ =~= old(out)@ + border(w as nat));
}

/// Appends the box of `item` for text `w` characters wide.
pub(crate) fn append_block(out: &mut String, item: &str, w: usize)
    requires
        item@.len() <= w,
    ensures
        final(out)@ == old(out)@ + block(item@, w as nat),
{
    proof {
        reveal_strlit("| ");
        reveal_strlit(" ");
        reveal_strlit(" |\n");
    }
    let pad: usize = w - item.unicode_len();
    let left: usize = pad / 2;
    out.append("| ");
    append_repeat(out, " ", left);
    out.append(item);
    append_repeat(out, " ", pad - left);
    out.append(" |\n");
    append_border(out, w);
    assert(out@ =~= old(out)@ + block(item@, w as nat));
}

} // verus!
