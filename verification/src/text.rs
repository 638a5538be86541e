use vstd::prelude::*;

verus! {

/// The characters that `u8::is_ascii_whitespace` accepts: space, tab,
/// line feed, form feed and carriage return.
pub open spec fn is_ascii_ws(c: char) -> bool {
    c == ' ' || c == '\t' || c == '\n' || c == '\x0C' || c == '\r'
}

/// The words of `s`: its maximal runs of characters that are not ASCII
/// whitespace, in order. Defined by reading `s` from the left, one
/// character at a time: whitespace ends a word, any other character either
/// extends the word that the previous character belongs to or starts one.
pub open spec fn words(s: Seq<char>) -> Seq<Seq<char>>
    decreases s.len(),
{
    if s.len() == 0 {
        seq![]
    } else {
        let prev = words(s.drop_last());
        let c = s.last();
        if is_ascii_ws(c) {
            prev
        } else if s.len() >= 2 && !is_ascii_ws(s[s.len() - 2]) {
            prev.update(prev.len() - 1, prev.last().push(c))
        } else {
            prev.push(seq![c])
        }
    }
}

/// A well-formed word: non-empty and free of ASCII whitespace.
pub open spec fn is_word(w: Seq<char>) -> bool {
    w.len() > 0 && forall|j: int| 0 <= j < w.len() ==> !is_ascii_ws(#[trigger] w[j])
}

/// The characters of `s` that are not ASCII whitespace, in order.
pub open spec fn non_ws_chars(s: Seq<char>) -> Seq<char> {
    s.filter(|c: char| !is_ascii_ws(c))
}

/// The words joined with one space between each two of them.
pub open spec fn join_with_space(ws: Seq<Seq<char>>) -> Seq<char>
    decreases ws.len(),
{
    if ws.len() == 0 {
        seq![]
    } else if ws.len() == 1 {
        ws[0]
    } else {
        join_with_space(ws.drop_last()) + seq![' '] + ws.last()
    }
}

/// The text of an optional string.
pub open spec fn opt_view(o: Option<String>) -> Option<Seq<char>> {
    match o {
        Some(s) => Some(s@),
        None => None,
    }
}

pub open spec fn string_views(v: Seq<String>) -> Seq<Seq<char>> {
    v.map_values(|w: String| w@)
}

/// `String::push` from std: the contract claims that the character is
/// appended at the end of the string and nothing else changes.
pub assume_specification[ String::push ](s: &mut String, ch: char)
    ensures
        final(s)@ == old(s)@.push(ch),
;

proof fn lemma_words_last(s: Seq<char>)
    requires
        s.len() > 0,
        !is_ascii_ws(s.last()),
    ensures
        words(s).len() > 0,
    decreases s.len(),
{
    if s.len() >= 2 && !is_ascii_ws(s[s.len() - 2]) {
        lemma_words_last(s.drop_last());
    }
}

/// Every word that the split yields is non-empty and holds no ASCII
/// whitespace.
pub proof fn lemma_words_are_well_formed(s: Seq<char>)
    ensures
        forall|i: int| 0 <= i < words(s).len() ==> is_word(#[trigger] words(s)[i]),
    decreases s.len(),
{
    if s.len() > 0 {
        let d = s.drop_last();
        lemma_words_are_well_formed(d);
        let c = s.last();
        if !is_ascii_ws(c) && s.len() >= 2 && !is_ascii_ws(s[s.len() - 2]) {
            lemma_words_last(d);
            let prev = words(d);
            let w = prev.last().push(c);
            assert(is_word(prev[prev.len() - 1]));
            assert forall|j: int| 0 <= j < w.len() implies !is_ascii_ws(#[trigger] w[j]) by {
                if j < w.len() - 1 {
                    assert(w[j] == prev.last()[j]);
                }
            }
        } else if !is_ascii_ws(c) {
            assert(is_word(seq![c]));
        }
    }
}

/// No character but whitespace is lost: the words, put end to end, are the
/// characters of the input that are not ASCII whitespace.
pub proof fn lemma_words_keep_all_other_chars(s: Seq<char>)
    ensures
        words(s).flatten() == non_ws_chars(s),
    decreases s.len(),
{
    broadcast use Seq::lemma_filter_push;

    words(s).lemma_flatten_and_flatten_alt_are_equivalent();
    if s.len() == 0 {
        reveal(Seq::filter);
    } else {
        let d = s.drop_last();
        let c = s.last();
        assert(s == d.push(c));
        lemma_words_keep_all_other_chars(d);
        words(d).lemma_flatten_and_flatten_alt_are_equivalent();
        let prev = words(d);
        if is_ascii_ws(c) {
        } else if s.len() >= 2 && !is_ascii_ws(s[s.len() - 2]) {
            lemma_words_last(d);
            let cur = words(s);
            assert(cur.drop_last() =~= prev.drop_last());
            assert(prev.flatten_alt() == prev.drop_last().flatten_alt() + prev.last());
            assert(cur.flatten_alt() == cur.drop_last().flatten_alt() + cur.last());
            assert(cur.flatten_alt() =~= prev.flatten_alt().push(c));
        } else {
            let cur = words(s);
            assert(cur.drop_last() =~= prev);
            assert(cur.flatten_alt() =~= prev.flatten_alt().push(c));
        }
    }
}

/// Appending a word to text that is empty or ends in whitespace appends
/// that word to the split.
proof fn lemma_words_append_word(p: Seq<char>, t: Seq<char>)
    requires
        p.len() == 0 || is_ascii_ws(p.last()),
        is_word(t),
    ensures
        words(p + t) == words(p).push(t),
    decreases t.len(),
{
    let s = p + t;
    if t.len() == 1 {
        assert(s.drop_last() =~= p);
        assert(s.last() == t[0]);
        assert(t =~= seq![t[0]]);
    } else {
        let t1 = t.drop_last();
        assert(t1[t1.len() - 1] == t[t.len() - 2]);
        lemma_words_append_word(p, t1);
        assert(s.drop_last() =~= p + t1);
        assert(s[s.len() - 2] == t[t.len() - 2]);
        assert(s.last() == t.last());
        assert(t1.push(t.last()) =~= t);
        assert(words(s) =~= words(p).push(t));
    }
}

/// Splitting words that were joined with single spaces gives back the same
/// words.
pub proof fn lemma_split_join_roundtrip(ws: Seq<Seq<char>>)
    requires
        forall|i: int| 0 <= i < ws.len() ==> is_word(#[trigger] ws[i]),
    ensures
        words(join_with_space(ws)) == ws,
    decreases ws.len(),
{
    if ws.len() == 1 {
        lemma_words_append_word(seq![], ws[0]);
        assert(seq![] + ws[0] =~= ws[0]);
        assert(ws =~= seq![ws[0]]);
    } else if ws.len() > 1 {
        let init = ws.drop_last();
        lemma_split_join_roundtrip(init);
        let p = join_with_space(init) + seq![' '];
        assert(p.drop_last() =~= join_with_space(init));
        assert(is_word(ws[ws.len() - 1]));
        lemma_words_append_word(p, ws.last());
        assert(ws =~= init.push(ws.last()));
    } else {
        assert(ws =~= seq![]);
    }
}

/// Text made only of whitespace holds no words.
pub proof fn lemma_words_of_blank(s: Seq<char>)
    requires
        forall|j: int| 0 <= j < s.len() ==> is_ascii_ws(#[trigger] s[j]),
    ensures
        words(s) == Seq::<Seq<char>>::empty(),
    decreases s.len(),
{
    if s.len() > 0 {
        lemma_words_of_blank(s.drop_last());
        assert(is_ascii_ws(s[s.len() - 1]));
    }
}

/// A single word is split into exactly itself.
pub proof fn lemma_words_of_single_word(w: Seq<char>)
    requires
        is_word(w),
    ensures
        words(w) == seq![w],
{
    lemma_words_append_word(seq![], w);
    assert(seq![] + w =~= w);
    assert(words(Seq::<char>::empty()) =~= Seq::<Seq<char>>::empty());
    assert(Seq::<Seq<char>>::empty().push(w) =~= seq![w]);
}

/// Whitespace separates: the words of two texts joined by a whitespace
/// character are the words of the first followed by those of the second.
/// With the two laws above, this fixes the split of every text.
pub proof fn lemma_words_split_at_whitespace(a: Seq<char>, c: char, b: Seq<char>)
    requires
        is_ascii_ws(c),
    ensures
        words(a + seq![c] + b) == words(a) + words(b),
    decreases b.len(),
{
    let s = a + seq![c] + b;
    if b.len() == 0 {
        assert(s.drop_last() =~= a);
        assert(words(a) + words(b) =~= words(a));
    } else {
        let b1 = b.drop_last();
        let x = b.last();
        lemma_words_split_at_whitespace(a, c, b1);
        let s1 = a + seq![c] + b1;
        assert(s.drop_last() =~= s1);
        assert(s.last() == x);
        let wa = words(a);
        let wb1 = words(b1);
        if is_ascii_ws(x) {
            assert(words(b) == wb1);
        } else if b1.len() > 0 && !is_ascii_ws(b1.last()) {
            assert(s[s.len() - 2] == b1.last());
            assert(b[b.len() - 2] == b1.last());
            lemma_words_last(b1);
            let w1 = wa + wb1;
            assert(w1.last() == wb1.last());
            assert(words(b) == wb1.update(wb1.len() - 1, wb1.last().push(x)));
            assert(words(s) =~= wa + words(b));
        } else {
            if b1.len() > 0 {
                assert(s[s.len() - 2] == b1.last());
                assert(b[b.len() - 2] == b1.last());
            } else {
                assert(s[s.len() - 2] == c);
            }
            assert(words(b) == wb1.push(seq![x]));
            assert(words(s) =~= wa + words(b));
        }
    }
}

/// Splits `content` at ASCII whitespace, as `str::split_ascii_whitespace`
/// does, and returns the words as owned strings.
pub fn split_message(content: &str) -> (res: Vec<String>)
    ensures
        string_views(res@) == words(content@),
        forall|i: int| 0 <= i < res@.len() ==> is_word(#[trigger] res@[i]@),
{
    let mut out: Vec<String> = Vec::new();
    let mut cur = String::new();
    let mut in_word = false;
    let ghost mut seen: Seq<char> = seq![];
    for c in it: content.chars()
        invariant
            seen == it.seq().take(it.index() as int),
            it.seq() == content@,
            in_word ==> seen.len() > 0 && !is_ascii_ws(seen.last()),
            !in_word ==> seen.len() == 0 || is_ascii_ws(seen.last()),
            in_word ==> words(seen) == string_views(out@).push(cur@),
            !in_word ==> words(seen) == string_views(out@),
    {
        let ghost before = seen;
        proof {
            seen = seen.push(c);
            assert(seen.drop_last() =~= before);
        }
        if c == ' ' || c == '\t' || c == '\n' || c == '\x0C' || c == '\r' {
            if in_word {
                out.push(cur);
                cur = String::new();
                in_word = false;
            }
        } else {
            if !in_word {
                cur = String::new();
                in_word = true;
            }
            cur.push(c);
        }
    }
    proof {
        assert(seen =~= content@);
        lemma_words_are_well_formed(content@);
    }
    if in_word {
        out.push(cur);
    }
    proof {
        assert forall|i: int| 0 <= i < out@.len() implies is_word(#[trigger] out@[i]@) by {
            assert(string_views(out@)[i] == out@[i]@);
            assert(is_word(words(content@)[i]));
        }
    }
    out
}

/// Whether two texts hold the same characters.
pub fn same_text(a: &str, b: &str) -> (res: bool)
    ensures
        res == (a@ == b@),
{
    a.to_owned() == b.to_owned()
}

} // verus!
