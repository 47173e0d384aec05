//! Small verified pieces of text handling shared by the handlers.

use vstd::prelude::*;
use vstd::std_specs::iter::IteratorSpec;

verus! {

/// Whether `c` is white space: one of the code points that Unicode marks
/// as `White_Space`.
pub open spec fn is_space(c: char) -> bool {
    let n = c as u32;
    ||| 0x09 <= n <= 0x0D
    ||| n == 0x20
    ||| n == 0x85
    ||| n == 0xA0
    ||| n == 0x1680
    ||| 0x2000 <= n <= 0x200A
    ||| n == 0x2028
    ||| n == 0x2029
    ||| n == 0x202F
    ||| n == 0x205F
    ||| n == 0x3000
}

/// Tells white space from other characters.
pub fn is_whitespace(c: char) -> (b: bool)
    ensures
        b == is_space(c),
{
    let n: u32 = c as u32;
    (0x09 <= n && n <= 0x0D) || n == 0x20 || n == 0x85 || n == 0xA0 || n == 0x1680 || (0x2000 <= n
        && n <= 0x200A) || n == 0x2028 || n == 0x2029 || n == 0x202F || n == 0x205F || n == 0x3000
}

/// The characters of a string, in order.
pub fn chars_of(s: &str) -> (r: Vec<char>)
    ensures
        r@ == s@,
{
    let mut out: Vec<char> = Vec::new();
    for c in it: s.chars()
        invariant
            it.seq() == s@,
            out@ == s@.take(it.index()),
    {
        out.push(c);
    }
    out
}

/// `s` without its leading white space.
pub open spec fn skip_spaces(s: Seq<char>) -> Seq<char>
    decreases s.len(),
{
    if s.len() > 0 && is_space(s.first()) {
        skip_spaces(s.drop_first())
    } else {
        s
    }
}

/// `s` without its trailing white space.
pub open spec fn drop_trailing_spaces(s: Seq<char>) -> Seq<char>
    decreases s.len(),
{
    if s.len() > 0 && is_space(s.last()) {
        drop_trailing_spaces(s.drop_last())
    } else {
        s
    }
}

/// `s` without leading and trailing white space.
pub open spec fn trimmed(s: Seq<char>) -> Seq<char> {
    drop_trailing_spaces(skip_spaces(s))
}

/// What is left after trimming neither begins nor ends with white space.
pub proof fn law_trimmed_is_bare(s: Seq<char>)
    ensures
        trimmed(s).len() > 0 ==> !is_space(trimmed(s).first()) && !is_space(trimmed(s).last()),
{
    lemma_skip_spaces(s);
    lemma_drop_trailing_spaces(skip_spaces(s));
}

proof fn lemma_skip_spaces(s: Seq<char>)
    ensures
        skip_spaces(s).len() > 0 ==> !is_space(skip_spaces(s).first()),
    decreases s.len(),
{
    if s.len() > 0 && is_space(s.first()) {
        lemma_skip_spaces(s.drop_first());
    }
}

proof fn lemma_drop_trailing_spaces(s: Seq<char>)
    ensures
        drop_trailing_spaces(s).len() > 0 ==> !is_space(drop_trailing_spaces(s).last())
            && drop_trailing_spaces(s).first() == s.first(),
    decreases s.len(),
{
    if s.len() > 0 && is_space(s.last()) {
        lemma_drop_trailing_spaces(s.drop_last());
    }
}

/// The words of `s`: its maximal runs of characters that are not white
/// space, in order. Read from the left, a character that is no white space
/// lengthens the last word if its neighbour belongs to it, and begins a new
/// word otherwise.
pub open spec fn words(s: Seq<char>) -> Seq<Seq<char>>
    decreases s.len(),
{
    if s.len() == 0 {
        Seq::empty()
    } else {
        let before = words(s.drop_last());
        if is_space(s.last()) {
            before
        } else if s.len() >= 2 && !is_space(s[s.len() - 2]) {
            before.drop_last().push(before.last().push(s.last()))
        } else {
            before.push(seq![s.last()])
        }
    }
}

/// Whether `w` can be a word: it is not empty and holds no white space.
pub open spec fn is_word(w: Seq<char>) -> bool {
    w.len() > 0 && forall|j: int| 0 <= j < w.len() ==> !is_space(#[trigger] w[j])
}

/// Every word of a text is a word: none is empty, none holds white space.
/// A text that ends in a character that is no white space has a last word,
/// and that word ends in the same character.
pub proof fn law_words_are_words(s: Seq<char>)
    ensures
        forall|k: int| 0 <= k < words(s).len() ==> is_word(#[trigger] words(s)[k]),
        s.len() > 0 && !is_space(s.last()) ==> words(s).len() > 0 && words(s).last().last()
            == s.last(),
    decreases s.len(),
{
    if s.len() > 0 {
        law_words_are_words(s.drop_last());
        let before = words(s.drop_last());
        if is_space(s.last()) {
        } else if s.len() >= 2 && !is_space(s[s.len() - 2]) {
            assert(s.drop_last().last() == s[s.len() - 2]);
            let grown = before.last().push(s.last());
            assert(is_word(before.last()));
            assert(is_word(grown)) by {
                assert forall|j: int| 0 <= j < grown.len() implies !is_space(
                    #[trigger] grown[j],
                ) by {
                    if j < before.last().len() {
                        assert(grown[j] == before.last()[j]);
                    }
                }
            }
            assert forall|k: int| 0 <= k < words(s).len() implies is_word(
                #[trigger] words(s)[k],
            ) by {
                if k < before.len() - 1 {
                    assert(words(s)[k] == before[k]);
                }
            }
        } else {
            assert(is_word(seq![s.last()]));
            assert forall|k: int| 0 <= k < words(s).len() implies is_word(
                #[trigger] words(s)[k],
            ) by {
                if k < before.len() {
                    assert(words(s)[k] == before[k]);
                }
            }
        }
    }
}

/// A text of white space alone has no words.
pub proof fn law_blank_has_no_words(s: Seq<char>)
    requires
        forall|i: int| 0 <= i < s.len() ==> is_space(#[trigger] s[i]),
    ensures
        words(s) == Seq::<Seq<char>>::empty(),
    decreases s.len(),
{
    if s.len() > 0 {
        law_blank_has_no_words(s.drop_last());
    }
}

/// Splitting goes piece by piece: where `a` is empty or ends in white space,
/// the words of `a` followed by `b` are the words of `a`, then the words of
/// `b`.
pub proof fn law_words_of_pieces(a: Seq<char>, b: Seq<char>)
    requires
        a.len() == 0 || is_space(a.last()),
    ensures
        words(a + b) == words(a) + words(b),
    decreases b.len(),
{
    let whole = a + b;
    if b.len() == 0 {
        assert(whole =~= a);
        assert(words(a) + words(b) =~= words(a));
    } else {
        law_words_of_pieces(a, b.drop_last());
        assert(whole.drop_last() =~= a + b.drop_last());
        assert(whole.last() == b.last());
        let head = words(a);
        let tail = words(b.drop_last());
        if is_space(b.last()) {
        } else if b.len() >= 2 && !is_space(b[b.len() - 2]) {
            assert(whole[whole.len() - 2] == b[b.len() - 2]);
            law_words_are_words(b.drop_last());
            assert(b.drop_last().last() == b[b.len() - 2]);
            assert(tail.len() > 0);
            assert((head + tail).drop_last() =~= head + tail.drop_last());
            assert((head + tail).last() == tail.last());
            assert(words(whole) =~= head + words(b));
        } else {
            if whole.len() >= 2 {
                if b.len() >= 2 {
                    assert(whole[whole.len() - 2] == b[b.len() - 2]);
                } else {
                    assert(whole[whole.len() - 2] == a.last());
                }
            }
            assert(words(whole) =~= head + words(b));
        }
    }
}

/// A run of characters without white space is one word.
pub proof fn law_one_word(w: Seq<char>)
    requires
        is_word(w),
    ensures
        words(w) == seq![w],
    decreases w.len(),
{
    if w.len() == 1 {
        assert(words(w.drop_last()) =~= Seq::<Seq<char>>::empty());
        assert(seq![w.last()] =~= w);
        assert(words(w) =~= seq![w]);
    } else {
        law_one_word(w.drop_last());
        assert(w.drop_last().push(w.last()) =~= w);
        assert(words(w) =~= seq![w]);
    }
}

/// The texts that a list of strings holds.
pub open spec fn texts(list: Seq<String>) -> Seq<Seq<char>> {
    list.map_values(|s: String| s@)
}

/// Calls `String::push`. Trusted: the character is appended and nothing else
/// changes.
#[verifier::external_body]
pub(crate) fn push_char(s: &mut String, c: char)
    ensures
        final(s)@ == old(s)@.push(c),
{
    s.push(c)
}

/// The string made of the characters `chars[from..to]`.
pub fn string_of(chars: &Vec<char>, from: usize, to: usize) -> (r: String)
    requires
        from <= to <= chars.len(),
    ensures
        r@ == chars@.subrange(from as int, to as int),
{
    let mut out = String::new();
    let mut i: usize = from;
    while i < to
        invariant
            from <= i <= to <= chars.len(),
            out@ == chars@.subrange(from as int, i as int),
        decreases to - i,
    {
        push_char(&mut out, chars[i]);
        i = i + 1;
    }
    out
}

/// Whether two strings hold the same text.
pub fn same_text(a: &str, b: &str) -> (same: bool)
    ensures
        same == (a@ == b@),
{
    let left = chars_of(a);
    let right = chars_of(b);
    if left.len() != right.len() {
        return false;
    }
    let mut i: usize = 0;
    while i < left.len()
        invariant
            i <= left.len() == right.len(),
            left@ == a@,
            right@ == b@,
            forall|j: int| 0 <= j < i ==> left@[j] == right@[j],
        decreases left.len() - i,
    {
        if left[i] != right[i] {
            return false;
        }
        i = i + 1;
    }
    assert(a@ =~= b@);
    true
}

/// Skips the white space that `chars[from..]` begins with: the result is
/// the position of the first character after it.
pub fn skip_blanks(chars: &Vec<char>, from: usize) -> (to: usize)
    requires
        from <= chars.len(),
    ensures
        from <= to <= chars.len(),
        skip_spaces(chars@.skip(from as int)) == chars@.skip(to as int),
{
    let n = chars.len();
    let mut i: usize = from;
    while i < n && is_whitespace(chars[i])
        invariant
            from <= i <= n == chars.len(),
            skip_spaces(chars@.skip(from as int)) == skip_spaces(chars@.skip(i as int)),
        decreases n - i,
    {
        assert(chars@.skip(i as int).drop_first() == chars@.skip(i as int + 1));
        i = i + 1;
    }
    i
}

/// Splits `chars[from..]` into its words.
pub fn split_words(chars: &Vec<char>, from: usize) -> (list: Vec<String>)
    requires
        from <= chars.len(),
    ensures
        texts(list@) == words(chars@.skip(from as int)),
{
    let ghost line = chars@.skip(from as int);
    let mut list: Vec<String> = Vec::new();
    let mut word = String::new();
    let mut open = false;
    let mut i: usize = from;
    assert(texts(list@) =~= words(line.take(0)));
    while i < chars.len()
        invariant
            from <= i <= chars.len(),
            line == chars@.skip(from as int),
            open <==> i > from && !is_space(chars@[i - 1]),
            !open ==> texts(list@) == words(line.take(i - from)),
            open ==> texts(list@).push(word@) == words(line.take(i - from)),
        decreases chars.len() - i,
    {
        let c = chars[i];
        proof {
            let seen = line.take(i - from + 1);
            assert(seen.drop_last() == line.take(i - from));
            assert(seen.last() == c);
            if i > from {
                assert(seen[seen.len() - 2] == chars@[i - 1]);
            }
        }
        if is_whitespace(c) {
            if open {
                let ghost before = texts(list@);
                list.push(word);
                assert(texts(list@) =~= before.push(word@));
                word = String::new();
                open = false;
            }
        } else {
            if open {
                let ghost before = texts(list@).push(word@);
                push_char(&mut word, c);
                assert(texts(list@).push(word@) =~= before.drop_last().push(
                    before.last().push(c),
                ));
            } else {
                word = String::new();
                push_char(&mut word, c);
                assert(word@ =~= seq![c]);
                open = true;
            }
        }
        i = i + 1;
    }
    assert(line.take(line.len() as int) == line);
    if open {
        let ghost before = texts(list@);
        list.push(word);
        assert(texts(list@) =~= before.push(word@));
    }
    list
}

/// Removes leading and trailing white space.
pub fn trim(s: &str) -> (r: String)
    ensures
        r@ == trimmed(s@),
{
    let chars = chars_of(s);
    let n = chars.len();
    assert(chars@.skip(0) == chars@);
    let i = skip_blanks(&chars, 0);
    assert(chars@.skip(i as int) == chars@.subrange(i as int, n as int));
    let mut j: usize = n;
    while j > i && is_whitespace(chars[j - 1])
        invariant
            i <= j <= n == chars.len(),
            drop_trailing_spaces(chars@.subrange(i as int, n as int)) == drop_trailing_spaces(
                chars@.subrange(i as int, j as int),
            ),
        decreases j,
    {
        assert(chars@.subrange(i as int, j as int).drop_last() == chars@.subrange(
            i as int,
            j as int - 1,
        ));
        j = j - 1;
    }
    string_of(&chars, i, j)
}

/// `a` followed by `b`.
pub fn conjoin(a: &str, b: &str) -> (r: String)
    ensures
        r@ == a@ + b@,
{
    let mut out = String::from_str(a);
    out.append(b);
    out
}

/// The decimal digit for `d`.
pub open spec fn digit(d: int) -> char {
    if d == 0 {
        '0'
    } else if d == 1 {
        '1'
    } else if d == 2 {
        '2'
    } else if d == 3 {
        '3'
    } else if d == 4 {
        '4'
    } else if d == 5 {
        '5'
    } else if d == 6 {
        '6'
    } else if d == 7 {
        '7'
    } else if d == 8 {
        '8'
    } else {
        '9'
    }
}

/// The decimal numeral of `n`, without leading zeros.
pub open spec fn decimal(n: nat) -> Seq<char>
    decreases n,
{
    if n < 10 {
        seq![digit(n as int)]
    } else {
        decimal(n / 10).push(digit((n % 10) as int))
    }
}

fn digit_char(d: u64) -> (c: char)
    requires
        d < 10,
    ensures
        c == digit(d as int),
{
    if d == 0 {
        '0'
    } else if d == 1 {
        '1'
    } else if d == 2 {
        '2'
    } else if d == 3 {
        '3'
    } else if d == 4 {
        '4'
    } else if d == 5 {
        '5'
    } else if d == 6 {
        '6'
    } else if d == 7 {
        '7'
    } else if d == 8 {
        '8'
    } else {
        '9'
    }
}

/// Appends the decimal numeral of `n` to `out`.
pub fn append_decimal(out: &mut String, n: u64)
    ensures
        final(out)@ == old(out)@ + decimal(n as nat),
    decreases n,
{
    if n >= 10 {
        append_decimal(out, n / 10);
    }
    push_char(out, digit_char(n % 10));
}

/// The decimal numeral of `n` as a string.
pub fn decimal_text(n: u64) -> (r: String)
    ensures
        r@ == decimal(n as nat),
{
    let mut out = String::new();
    append_decimal(&mut out, n);
    out
}

/// The test that keeps every character but `unwanted`.
pub open spec fn other_than(unwanted: char) -> spec_fn(char) -> bool {
    |c: char| c != unwanted
}

/// `s` without the occurrences of `unwanted`.
pub open spec fn without(s: Seq<char>, unwanted: char) -> Seq<char> {
    s.filter(other_than(unwanted))
}

/// What is left without a character does not hold it.
pub proof fn law_without_holds_none(s: Seq<char>, unwanted: char)
    ensures
        !without(s, unwanted).contains(unwanted),
{
    let kept = without(s, unwanted);
    assert forall|i: int| 0 <= i < kept.len() implies kept[i] != unwanted by {
        s.lemma_filter_pred(other_than(unwanted), i);
    }
}

/// Removes every occurrence of one character from a string.
pub fn remove_char(s: &str, unwanted: char) -> (r: String)
    ensures
        r@ == without(s@, unwanted),
        !r@.contains(unwanted),
{
    proof {
        law_without_holds_none(s@, unwanted);
    }
    let mut out = String::new();
    for c in it: s.chars()
        invariant
            it.seq() == s@,
            out@ == without(s@.take(it.index()), unwanted),
    {
        proof {
            let seen = s@.take(it.index());
            assert(s@.take(it.index() + 1) == seen.push(c));
            seen.lemma_filter_push(c, other_than(unwanted));
        }
        if c != unwanted {
            push_char(&mut out, c);
        }
    }
    assert(s@.take(s@.len() as int) == s@);
    out
}

/// Whether `s` begins with `prefix`.
pub fn starts_with(s: &str, prefix: &str) -> (b: bool)
    ensures
        b == prefix@.is_prefix_of(s@),
{
    let text = chars_of(s);
    let head = chars_of(prefix);
    if head.len() > text.len() {
        return false;
    }
    let mut i: usize = 0;
    while i < head.len()
        invariant
            i <= head.len() <= text.len(),
            text@ == s@,
            head@ == prefix@,
            forall|j: int| 0 <= j < i ==> text@[j] == head@[j],
        decreases head.len() - i,
    {
        if text[i] != head[i] {
            assert(s@.subrange(0, prefix@.len() as int)[i as int] != prefix@[i as int]);
            return false;
        }
        i = i + 1;
    }
    assert(prefix@ =~= s@.subrange(0, prefix@.len() as int));
    true
}

} // verus!
