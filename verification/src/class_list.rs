//! Class strings: tokens joined by spaces, and the words that such a
//! string is read as.
use vstd::prelude::*;

verus! {

/// The first `k` of `parts`, with one space between neighbours.
pub open spec fn spaced(parts: Seq<Seq<char>>, k: nat) -> Seq<char>
    decreases k,
{
    if k == 0 || k > parts.len() {
        Seq::empty()
    } else if k == 1 {
        parts[0]
    } else {
        spaced(parts, (k - 1) as nat) + " "@ + parts[k - 1]
    }
}

/// The words of a text: its longest runs of characters other than the
/// space, in order.
pub open spec fn words(s: Seq<char>) -> Seq<Seq<char>>
    decreases s.len(),
{
    if s.len() == 0 {
        Seq::empty()
    } else if s.last() == ' ' {
        words(s.drop_last())
    } else if s.len() >= 2 && s[s.len() - 2] != ' ' {
        let before = words(s.drop_last());
        before.drop_last().push(before.last().push(s.last()))
    } else {
        words(s.drop_last()).push(seq![s.last()])
    }
}

/// The words of the first `k` of `parts`, part after part.
pub open spec fn words_of_each(parts: Seq<Seq<char>>, k: nat) -> Seq<Seq<char>>
    decreases k,
{
    if k == 0 || k > parts.len() {
        Seq::empty()
    } else {
        words_of_each(parts, (k - 1) as nat) + words(parts[k - 1])
    }
}

/// A text that ends in another character than the space has a word.
pub proof fn lemma_words_nonempty(s: Seq<char>)
    requires
        s.len() > 0,
        s.last() != ' ',
    ensures
        words(s).len() > 0,
{
}

/// A space between two texts keeps their words apart and adds none: the
/// words of the whole are the words of the first, then those of the second.
pub proof fn lemma_words_of_joined(a: Seq<char>, b: Seq<char>)
    ensures
        words(a + " "@ + b) == words(a) + words(b),
    decreases b.len(),
{
    reveal_strlit(" ");
    let s = a + " "@ + b;
    if b.len() == 0 {
        assert(s.last() == ' ');
        assert(s.drop_last() =~= a);
        assert(words(s) =~= words(a) + words(b));
    } else {
        let b1 = b.drop_last();
        let c = b.last();
        lemma_words_of_joined(a, b1);
        let init = a + " "@ + b1;
        assert(s.drop_last() =~= init);
        assert(s.last() == c);
        if c == ' ' {
            assert(words(s) =~= words(a) + words(b));
        } else if b1.len() > 0 && b1.last() != ' ' {
            lemma_words_nonempty(b1);
            assert(s[s.len() - 2] == b1.last());
            assert(b[b.len() - 2] == b1.last());
            let w = words(init);
            let w1 = words(b1);
            assert(w.drop_last() =~= words(a) + w1.drop_last());
            assert(w.last() == w1.last());
            assert(words(s) =~= words(a) + words(b));
        } else {
            assert(s[s.len() - 2] == ' ');
            assert(b.len() >= 2 ==> b[b.len() - 2] == b1.last());
            assert(words(s) =~= words(a) + words(b));
        }
    }
}

/// The words of tokens joined by spaces are the words of the tokens,
/// token after token. An empty token has no word, so it leaves a space
/// behind and changes nothing else.
pub proof fn lemma_words_of_spaced(parts: Seq<Seq<char>>, k: nat)
    requires
        k <= parts.len(),
    ensures
        words(spaced(parts, k)) == words_of_each(parts, k),
    decreases k,
{
    if k == 0 {
    } else if k == 1 {
        assert(words_of_each(parts, 0) =~= Seq::<Seq<char>>::empty());
        assert(words_of_each(parts, 1) =~= words(parts[0]));
    } else {
        lemma_words_of_spaced(parts, (k - 1) as nat);
        lemma_words_of_joined(spaced(parts, (k - 1) as nat), parts[k - 1]);
    }
}

/// A text without a space, unless it is empty, is one word: itself.
pub proof fn lemma_word_alone(s: Seq<char>)
    requires
        s.len() > 0,
        forall|i: int| 0 <= i < s.len() ==> s[i] != ' ',
    ensures
        words(s) == seq![s],
    decreases s.len(),
{
    if s.len() == 1 {
        assert(seq![s.last()] =~= s);
        assert(words(s.drop_last()) =~= Seq::<Seq<char>>::empty());
        assert(words(s) =~= seq![s]);
    } else {
        lemma_word_alone(s.drop_last());
        let before = words(s.drop_last());
        assert(before.last().push(s.last()) =~= s);
        assert(before.drop_last() =~= Seq::<Seq<char>>::empty());
        assert(words(s) =~= seq![s]);
    }
}

} // verus!
