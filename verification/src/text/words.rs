//! Splitting a line into its words: the maximal runs of characters that are
//! not ASCII whitespace.
use vstd::prelude::*;

verus! {

/// The ASCII whitespace characters: space, tab, line feed, form feed and
/// carriage return.
pub open spec fn is_space(c: char) -> bool {
    c == ' ' || c == '\t' || c == '\n' || c == '\x0C' || c == '\r'
}

/// A word: at least one character, none of them whitespace.
pub open spec fn is_word(w: Seq<char>) -> bool {
    w.len() > 0 && forall|i: int| 0 <= i < w.len() ==> !is_space(#[trigger] w[i])
}

/// The state of a left-to-right scan of `s`: the words that have ended, and
/// the characters of the word that is still open (empty between words).
pub open spec fn scan(s: Seq<char>) -> (Seq<Seq<char>>, Seq<char>)
    decreases s.len(),
{
    if s.len() == 0 {
        (Seq::empty(), Seq::empty())
    } else {
        let (done, open) = scan(s.drop_last());
        if is_space(s.last()) {
            if open.len() > 0 {
                (done.push(open), Seq::empty())
            } else {
                (done, open)
            }
        } else {
            (done, open.push(s.last()))
        }
    }
}

/// The words of `s`, in order.
pub open spec fn words(s: Seq<char>) -> Seq<Seq<char>> {
    let (done, open) = scan(s);
    if open.len() > 0 {
        done.push(open)
    } else {
        done
    }
}

/// Every word of a scan is a word: it is not empty and holds no whitespace.
pub proof fn lemma_scan_words(s: Seq<char>)
    ensures
        forall|k: int| 0 <= k < scan(s).0.len() ==> is_word(#[trigger] scan(s).0[k]),
        forall|i: int| 0 <= i < scan(s).1.len() ==> !is_space(#[trigger] scan(s).1[i]),
    decreases s.len(),
{
    if s.len() > 0 {
        let before = scan(s.drop_last());
        let after = scan(s);
        lemma_scan_words(s.drop_last());
        if is_space(s.last()) {
            if before.1.len() > 0 {
                assert(after.0 == before.0.push(before.1));
                assert forall|k: int| 0 <= k < after.0.len() implies is_word(
                    #[trigger] after.0[k],
                ) by {
                    if k < before.0.len() {
                        assert(after.0[k] == before.0[k]);
                    }
                }
            }
        } else {
            assert(after.1 == before.1.push(s.last()));
            assert forall|i: int| 0 <= i < after.1.len() implies !is_space(
                #[trigger] after.1[i],
            ) by {
                if i < before.1.len() {
                    assert(after.1[i] == before.1[i]);
                }
            }
        }
    }
}

/// Every element of `words(s)` is a word.
pub proof fn lemma_words_are_words(s: Seq<char>)
    ensures
        forall|k: int| 0 <= k < words(s).len() ==> is_word(#[trigger] words(s)[k]),
{
    lemma_scan_words(s);
}

/// Scanning `a` and then a word `w` leaves the finished words as they were
/// and extends the open word by `w`.
pub proof fn lemma_scan_word(a: Seq<char>, w: Seq<char>)
    requires
        forall|i: int| 0 <= i < w.len() ==> !is_space(#[trigger] w[i]),
    ensures
        scan(a + w) == (scan(a).0, scan(a).1 + w),
    decreases w.len(),
{
    if w.len() == 0 {
        assert(a + w == a);
        assert(scan(a).1 + w == scan(a).1);
    } else {
        let w0 = w.drop_last();
        lemma_scan_word(a, w0);
        assert((a + w).drop_last() == a + w0);
        assert((a + w).last() == w.last());
        assert(scan(a).1 + w == (scan(a).1 + w0).push(w.last()));
    }
}

/// Scanning `a` and then one whitespace character closes the open word.
pub proof fn lemma_scan_space(a: Seq<char>, c: char)
    requires
        is_space(c),
    ensures
        scan(a.push(c)) == if scan(a).1.len() > 0 {
            (scan(a).0.push(scan(a).1), Seq::<char>::empty())
        } else {
            scan(a)
        },
{
    assert(a.push(c).drop_last() == a);
}

/// Whitespace only: what stands between words.
pub open spec fn is_gap(g: Seq<char>) -> bool {
    forall|i: int| 0 <= i < g.len() ==> is_space(#[trigger] g[i])
}

/// The words of `ws` laid out between the gaps of `gaps`: the first gap, the
/// first word, the second gap, and so on to the gap behind the last word.
pub open spec fn laid_out(ws: Seq<Seq<char>>, gaps: Seq<Seq<char>>) -> Seq<char>
    decreases ws.len(),
{
    if ws.len() == 0 {
        gaps[0]
    } else {
        laid_out(ws.drop_last(), gaps.drop_last()) + ws.last() + gaps.last()
    }
}

/// Scanning `a` and then a gap closes the open word, if there is a gap and a
/// word is open, and changes nothing otherwise.
pub proof fn lemma_scan_gap(a: Seq<char>, g: Seq<char>)
    requires
        is_gap(g),
    ensures
        scan(a + g) == if g.len() > 0 && scan(a).1.len() > 0 {
            (scan(a).0.push(scan(a).1), Seq::<char>::empty())
        } else {
            scan(a)
        },
    decreases g.len(),
{
    if g.len() == 0 {
        assert(a + g == a);
    } else {
        let g0 = g.drop_last();
        assert(is_space(g[g.len() - 1]));
        assert forall|i: int| 0 <= i < g0.len() implies is_space(#[trigger] g0[i]) by {
            assert(g0[i] == g[i]);
        }
        lemma_scan_gap(a, g0);
        lemma_scan_space(a + g0, g.last());
        assert((a + g0).push(g.last()) == a + g);
    }
}

/// The words of a text are its maximal runs of characters that are not
/// whitespace: however words are laid out, with whitespace between them and
/// perhaps before the first and behind the last, splitting gives those
/// words back.
pub proof fn lemma_words_of_laid_out(ws: Seq<Seq<char>>, gaps: Seq<Seq<char>>)
    requires
        gaps.len() == ws.len() + 1,
        forall|i: int| 0 <= i < ws.len() ==> is_word(#[trigger] ws[i]),
        forall|i: int| 0 <= i < gaps.len() ==> is_gap(#[trigger] gaps[i]),
        forall|i: int| 1 <= i < ws.len() ==> (#[trigger] gaps[i]).len() > 0,
    ensures
        words(laid_out(ws, gaps)) == ws,
        scan(laid_out(ws, gaps)) == if ws.len() == 0 || gaps.last().len() > 0 {
            (ws, Seq::<char>::empty())
        } else {
            (ws.drop_last(), ws.last())
        },
    decreases ws.len(),
{
    let none = Seq::<char>::empty();
    if ws.len() == 0 {
        assert(is_gap(gaps[0]));
        lemma_scan_gap(none, gaps[0]);
        assert(none + gaps[0] == gaps[0]);
        assert(scan(none) == (Seq::<Seq<char>>::empty(), none));
        assert(ws == Seq::<Seq<char>>::empty());
    } else {
        let ws0 = ws.drop_last();
        let gaps0 = gaps.drop_last();
        assert forall|i: int| 0 <= i < ws0.len() implies is_word(#[trigger] ws0[i]) by {
            assert(ws0[i] == ws[i]);
        }
        assert forall|i: int| 0 <= i < gaps0.len() implies is_gap(#[trigger] gaps0[i]) by {
            assert(gaps0[i] == gaps[i]);
        }
        assert forall|i: int| 1 <= i < ws0.len() implies (#[trigger] gaps0[i]).len() > 0 by {
            assert(gaps0[i] == gaps[i]);
        }
        lemma_words_of_laid_out(ws0, gaps0);
        let head = laid_out(ws0, gaps0);
        assert(is_word(ws[ws.len() - 1]));
        assert(is_gap(gaps[gaps.len() - 1]));
        lemma_scan_word(head, ws.last());
        lemma_scan_gap(head + ws.last(), gaps.last());
        if ws0.len() > 0 {
            assert(gaps0.last() == gaps[ws0.len() as int]);
            assert(gaps0.last().len() > 0);
        }
        assert(scan(head) == (ws0, none));
        assert(none + ws.last() == ws.last());
        assert(ws0.push(ws.last()) == ws);
    }
}

/// The words of `ws` in a row, parted by single spaces.
pub open spec fn spaced(ws: Seq<Seq<char>>) -> Seq<char>
    decreases ws.len(),
{
    if ws.len() == 0 {
        Seq::empty()
    } else if ws.len() == 1 {
        ws[0]
    } else {
        spaced(ws.drop_last()) + seq![' '] + ws.last()
    }
}

/// Splitting undoes spacing: the words of words set in a row are those
/// words.
pub proof fn lemma_words_of_spaced(ws: Seq<Seq<char>>)
    requires
        forall|i: int| 0 <= i < ws.len() ==> is_word(#[trigger] ws[i]),
    ensures
        words(spaced(ws)) == ws,
        ws.len() > 0 ==> scan(spaced(ws)) == (ws.drop_last(), ws.last()),
    decreases ws.len(),
{
    let none = Seq::<char>::empty();
    if ws.len() == 0 {
        assert(words(spaced(ws)) == ws);
    } else if ws.len() == 1 {
        assert(is_word(ws[0]));
        lemma_scan_word(none, ws[0]);
        assert(none + ws[0] == ws[0]);
        assert(ws.drop_last().push(ws.last()) == ws);
    } else {
        let before = ws.drop_last();
        assert forall|i: int| 0 <= i < before.len() implies is_word(#[trigger] before[i]) by {
            assert(before[i] == ws[i]);
        }
        lemma_words_of_spaced(before);
        let row = spaced(before);
        lemma_scan_space(row, ' ');
        assert(is_word(before.last()));
        assert(before.drop_last().push(before.last()) == before);
        assert(row.push(' ') == row + seq![' ']);
        assert(is_word(ws[ws.len() - 1]));
        lemma_scan_word(row + seq![' '], ws.last());
        assert(none + ws.last() == ws.last());
        assert(ws.drop_last().push(ws.last()) == ws);
    }
}

/// Whether `c` is an ASCII whitespace character.
pub fn is_space_char(c: char) -> (b: bool)
    ensures
        b == is_space(c),
{
    c == ' ' || c == '\t' || c == '\n' || c == '\x0C' || c == '\r'
}

/// Splits `s` into its words.
pub fn split_words(s: &Vec<char>) -> (out: Vec<Vec<char>>)
    ensures
        out@.map_values(|w: Vec<char>| w@) == words(s@),
{
    let mut done: Vec<Vec<char>> = Vec::new();
    let mut open: Vec<char> = Vec::new();
    let mut i: usize = 0;
    while i < s.len()
        invariant
            i <= s.len(),
            (done@.map_values(|w: Vec<char>| w@), open@) == scan(s@.take(i as int)),
        decreases s.len() - i,
    {
        let c = s[i];
        proof {
            assert(s@.take(i + 1).drop_last() == s@.take(i as int));
            assert(s@.take(i + 1).last() == c);
        }
        if is_space_char(c) {
            if open.len() > 0 {
                let ghost before = done@.map_values(|w: Vec<char>| w@);
                let ghost word = open@;
                done.push(open);
                open = Vec::new();
                assert(done@.map_values(|w: Vec<char>| w@) == before.push(word));
            }
        } else {
            open.push(c);
        }
        i += 1;
    }
    assert(s@.take(s.len() as int) == s@);
    if open.len() > 0 {
        let ghost before = done@.map_values(|w: Vec<char>| w@);
        let ghost word = open@;
        done.push(open);
        assert(done@.map_values(|w: Vec<char>| w@) == before.push(word));
    }
    done
}

} // verus!
