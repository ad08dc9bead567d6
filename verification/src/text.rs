//! Text as sequences of characters: trimming, splitting, searching and
//! rendering, each stated on the characters alone.
use vstd::prelude::*;
use vstd::string::*;

verus! {

/// `String::push` appends one character.
pub assume_specification[ String::push ](s: &mut String, c: char)
    ensures
        final(s)@ == old(s)@.push(c),
;

/// The texts that a sequence of strings holds.
pub open spec fn texts(v: Seq<String>) -> Seq<Seq<char>> {
    v.map_values(|s: String| s@)
}

/// Whether Unicode gives `c` the property White_Space.
pub open spec fn is_white_space(c: char) -> bool {
    let n = c as u32;
    ||| 0x09 <= n <= 0x0D
    ||| n == 0x20
    ||| n == 0x85
    ||| n == 0xA0
    ||| n == 0x1680
    ||| 0x2000 <= n <= 0x200A
    ||| n == 0x2028
    ||| n == 0x2029
    ||| n == 0x202F
    ||| n == 0x205F
    ||| n == 0x3000
}

/// Whether `s` holds nothing but white space.
pub open spec fn blank(s: Seq<char>) -> bool {
    forall|i: int| 0 <= i < s.len() ==> is_white_space(#[trigger] s[i])
}

/// `s` without the white space that it begins with.
pub open spec fn trimmed_start(s: Seq<char>) -> Seq<char>
    decreases s.len(),
{
    if s.len() > 0 && is_white_space(s[0]) {
        trimmed_start(s.drop_first())
    } else {
        s
    }
}

/// `s` without the white space that it ends with.
pub open spec fn trimmed_end(s: Seq<char>) -> Seq<char>
    decreases s.len(),
{
    if s.len() > 0 && is_white_space(s.last()) {
        trimmed_end(s.drop_last())
    } else {
        s
    }
}

/// `s` without white space at either end.
pub open spec fn trimmed(s: Seq<char>) -> Seq<char> {
    trimmed_end(trimmed_start(s))
}

pub fn white_space(c: char) -> (r: bool)
    ensures
        r == is_white_space(c),
{
    let n: u32 = c as u32;
    (0x09 <= n && n <= 0x0D) || n == 0x20 || n == 0x85 || n == 0xA0 || n == 0x1680 || (0x2000 <= n
        && n <= 0x200A) || n == 0x2028 || n == 0x2029 || n == 0x202F || n == 0x205F || n == 0x3000
}

/// The characters of a text.
pub fn chars_of(s: &str) -> (r: Vec<char>)
    ensures
        r@ == s@,
{
    let mut out: Vec<char> = Vec::new();
    for c in it: s.chars()
        invariant
            it.seq() == s@,
            out@ == s@.take(it.index()),
    {
        out.push(c);
    }
    out
}

/// The text made of the characters from `from` up to `to`.
pub fn text_of(chars: &Vec<char>, from: usize, to: usize) -> (r: String)
    requires
        from <= to <= chars@.len(),
    ensures
        r@ == chars@.subrange(from as int, to as int),
{
    let mut out: String = String::new();
    let mut i: usize = from;
    while i < to
        invariant
            from <= i <= to <= chars@.len(),
            out@ == chars@.subrange(from as int, i as int),
        decreases to - i,
    {
        out.push(chars[i]);
        i = i + 1;
    }
    out
}

/// Whether two texts are the same.
pub fn same(a: &str, b: &str) -> (r: bool)
    ensures
        r == (a@ == b@),
{
    a.to_owned() == b.to_owned()
}

pub fn is_blank(s: &str) -> (r: bool)
    ensures
        r == blank(s@),
{
    let chars: Vec<char> = chars_of(s);
    let mut i: usize = 0;
    while i < chars.len()
        invariant
            i <= chars@.len(),
            chars@ == s@,
            forall|k: int| 0 <= k < i ==> is_white_space(#[trigger] s@[k]),
        decreases chars@.len() - i,
    {
        if !white_space(chars[i]) {
            assert(!is_white_space(s@[i as int]));
            return false;
        }
        i = i + 1;
    }
    true
}

/// A text trimmed at its start is what is left behind a blank prefix.
proof fn lemma_trimmed_start(s: Seq<char>, n: int)
    requires
        0 <= n <= s.len(),
        blank(s.take(n)),
        n < s.len() ==> !is_white_space(s[n]),
    ensures
        trimmed_start(s) == s.skip(n),
    decreases n,
{
    if n == 0 {
        assert(s.skip(0) =~= s);
    } else {
        assert(s.take(n)[0] == s[0]);
        assert forall|i: int| 0 <= i < n - 1 implies is_white_space(
            #[trigger] s.drop_first().take(n - 1)[i],
        ) by {
            assert(s.take(n)[i + 1] == s[i + 1]);
        }
        lemma_trimmed_start(s.drop_first(), n - 1);
        assert(s.drop_first().skip(n - 1) =~= s.skip(n));
    }
}

/// A text trimmed at its end is what is left before a blank suffix.
proof fn lemma_trimmed_end(s: Seq<char>, n: int)
    requires
        0 <= n <= s.len(),
        blank(s.skip(n)),
        n > 0 ==> !is_white_space(s[n - 1]),
    ensures
        trimmed_end(s) == s.take(n),
    decreases s.len() - n,
{
    if n == s.len() {
        assert(s.take(n) =~= s);
    } else {
        assert(s.skip(n)[s.len() - 1 - n] == s.last());
        assert forall|i: int| 0 <= i < s.len() - 1 - n implies is_white_space(
            #[trigger] s.drop_last().skip(n)[i],
        ) by {
            assert(s.skip(n)[i] == s.drop_last().skip(n)[i]);
        }
        lemma_trimmed_end(s.drop_last(), n);
        assert(s.drop_last().take(n) =~= s.take(n));
    }
}

/// Trimming leaves nothing of a text exactly when the text is blank.
pub proof fn lemma_trimmed_blank(s: Seq<char>)
    ensures
        blank(s) <==> trimmed(s).len() == 0,
{
    if blank(s) {
        assert(s.take(s.len() as int) =~= s);
        lemma_trimmed_start(s, s.len() as int);
    } else {
        let k = choose|k: int| 0 <= k < s.len() && !is_white_space(#[trigger] s[k]);
        lemma_trimmed_keeps(s, k);
    }
}

proof fn lemma_trimmed_keeps(s: Seq<char>, k: int)
    requires
        0 <= k < s.len(),
        !is_white_space(s[k]),
    ensures
        trimmed(s).len() > 0,
    decreases s.len(),
{
    if is_white_space(s[0]) {
        assert(s.drop_first()[k - 1] == s[k]);
        lemma_trimmed_keeps(s.drop_first(), k - 1);
    } else {
        lemma_trimmed_end_keeps(s, k);
    }
}

proof fn lemma_trimmed_end_keeps(s: Seq<char>, k: int)
    requires
        0 <= k < s.len(),
        !is_white_space(s[k]),
    ensures
        trimmed_end(s).len() > 0,
    decreases s.len(),
{
    if is_white_space(s.last()) {
        assert(s.drop_last()[k] == s[k]);
        lemma_trimmed_end_keeps(s.drop_last(), k);
    }
}

/// A text is its own trimming exactly when neither end is white space.
pub proof fn lemma_trimmed_same(s: Seq<char>)
    ensures
        trimmed(s) == s <==> (s.len() > 0 ==> !is_white_space(s[0]) && !is_white_space(s.last())),
{
    if s.len() > 0 {
        lemma_trimmed_start_len(s);
        lemma_trimmed_end_len(trimmed_start(s));
    }
}

proof fn lemma_trimmed_start_len(s: Seq<char>)
    ensures
        trimmed_start(s).len() <= s.len(),
        s.len() > 0 && is_white_space(s[0]) ==> trimmed_start(s).len() < s.len(),
    decreases s.len(),
{
    if s.len() > 0 && is_white_space(s[0]) {
        lemma_trimmed_start_len(s.drop_first());
    }
}

proof fn lemma_trimmed_end_len(s: Seq<char>)
    ensures
        trimmed_end(s).len() <= s.len(),
        s.len() > 0 && is_white_space(s.last()) ==> trimmed_end(s).len() < s.len(),
    decreases s.len(),
{
    if s.len() > 0 && is_white_space(s.last()) {
        lemma_trimmed_end_len(s.drop_last());
    }
}

/// Trimming a trimmed text changes nothing.
pub proof fn lemma_trimmed_twice(s: Seq<char>)
    ensures
        trimmed(trimmed(s)) == trimmed(s),
{
    let t = trimmed_start(s);
    lemma_trimmed_start_head(s);
    lemma_trimmed_end_ends(t);
    lemma_trimmed_same(trimmed(s));
}

proof fn lemma_trimmed_start_head(s: Seq<char>)
    ensures
        trimmed_start(s).len() > 0 ==> !is_white_space(trimmed_start(s)[0]),
    decreases s.len(),
{
    if s.len() > 0 && is_white_space(s[0]) {
        lemma_trimmed_start_head(s.drop_first());
    }
}

proof fn lemma_trimmed_end_ends(s: Seq<char>)
    ensures
        trimmed_end(s).len() > 0 ==> !is_white_space(trimmed_end(s).last()) && trimmed_end(s)[0]
            == s[0],
    decreases s.len(),
{
    if s.len() > 0 && is_white_space(s.last()) {
        lemma_trimmed_end_ends(s.drop_last());
    }
}

/// The text without white space at either end.
pub fn trim(s: &str) -> (r: &str)
    ensures
        r@ == trimmed(s@),
{
    let chars: Vec<char> = chars_of(s);
    let n: usize = chars.len();
    let mut i: usize = 0;
    while i < n && white_space(chars[i])
        invariant
            i <= n == chars@.len(),
            chars@ == s@,
            blank(s@.take(i as int)),
        decreases n - i,
    {
        i = i + 1;
        assert(s@.take(i as int) =~= s@.take(i - 1).push(s@[i - 1]));
    }
    let mut j: usize = n;
    let ghost t = s@.skip(i as int);
    while j > i && white_space(chars[j - 1])
        invariant
            i <= j <= n == chars@.len(),
            chars@ == s@,
            t == s@.skip(i as int),
            blank(t.skip(j - i)),
        decreases j,
    {
        j = j - 1;
        assert(t.skip(j - i) =~= seq![s@[j as int]] + t.skip(j + 1 - i));
    }
    proof {
        lemma_trimmed_start(s@, i as int);
        lemma_trimmed_end(t, j - i);
        assert(t.take(j - i) =~= s@.subrange(i as int, j as int));
    }
    s.substring_char(i, j)
}

/// How many characters precede the first white space in `s`.
pub open spec fn word_len(s: Seq<char>) -> nat
    decreases s.len(),
{
    if s.len() > 0 && !is_white_space(s[0]) {
        1 + word_len(s.drop_first())
    } else {
        0
    }
}

pub proof fn lemma_word_len(s: Seq<char>)
    ensures
        word_len(s) <= s.len(),
        forall|i: int| 0 <= i < word_len(s) ==> !is_white_space(#[trigger] s[i]),
        word_len(s) < s.len() ==> is_white_space(s[word_len(s) as int]),
        s.len() > 0 && !is_white_space(s[0]) ==> word_len(s) > 0,
    decreases s.len(),
{
    if s.len() > 0 && !is_white_space(s[0]) {
        lemma_word_len(s.drop_first());
        assert forall|i: int| 0 <= i < word_len(s) implies !is_white_space(#[trigger] s[i]) by {
            if i > 0 {
                assert(s[i] == s.drop_first()[i - 1]);
            }
        }
    }
}

/// The words of `s`: what white space separates.
pub open spec fn words(s: Seq<char>) -> Seq<Seq<char>>
    decreases s.len(),
    via words_decreases
{
    if s.len() == 0 {
        Seq::empty()
    } else if is_white_space(s[0]) {
        words(s.drop_first())
    } else {
        seq![s.take(word_len(s) as int)] + words(s.skip(word_len(s) as int))
    }
}

#[via_fn]
proof fn words_decreases(s: Seq<char>) {
    lemma_word_len(s);
}

proof fn lemma_white_space_behind(s: Seq<char>, c: char)
    requires
        is_white_space(c),
    ensures
        words(s.push(c)) == words(s),
    decreases s.len(),
{
    let t = s.push(c);
    if s.len() == 0 {
        assert(t.drop_first() =~= s);
    } else if is_white_space(s[0]) {
        assert(t.drop_first() =~= s.drop_first().push(c));
        lemma_white_space_behind(s.drop_first(), c);
    } else {
        lemma_word_len(s);
        lemma_word_len_behind(s, c);
        let n = word_len(s) as int;
        assert(t.take(n) =~= s.take(n));
        assert(t.skip(n) =~= s.skip(n).push(c));
        lemma_white_space_behind(s.skip(n), c);
    }
}

/// White space at either end of a text makes no difference to its words.
pub proof fn law_trimming_keeps_words(s: Seq<char>)
    ensures
        words(trimmed(s)) == words(s),
{
    lemma_trimming_start_keeps_words(s);
    lemma_trimming_end_keeps_words(trimmed_start(s));
}

proof fn lemma_trimming_start_keeps_words(s: Seq<char>)
    ensures
        words(trimmed_start(s)) == words(s),
    decreases s.len(),
{
    if s.len() > 0 && is_white_space(s[0]) {
        lemma_trimming_start_keeps_words(s.drop_first());
    }
}

proof fn lemma_trimming_end_keeps_words(s: Seq<char>)
    ensures
        words(trimmed_end(s)) == words(s),
    decreases s.len(),
{
    if s.len() > 0 && is_white_space(s.last()) {
        lemma_trimming_end_keeps_words(s.drop_last());
        lemma_white_space_behind(s.drop_last(), s.last());
        assert(s.drop_last().push(s.last()) =~= s);
    }
}

proof fn lemma_word_len_behind(s: Seq<char>, c: char)
    requires
        is_white_space(c),
    ensures
        word_len(s.push(c)) == word_len(s),
    decreases s.len(),
{
    if s.len() > 0 {
        assert(s.push(c).drop_first() =~= s.drop_first().push(c));
        lemma_word_len_behind(s.drop_first(), c);
    }
}

/// The words of a text.
pub fn split_words(s: &str) -> (r: Vec<String>)
    ensures
        texts(r@) == words(s@),
{
    let chars: Vec<char> = chars_of(s);
    let n: usize = chars.len();
    let mut out: Vec<String> = Vec::new();
    let mut i: usize = 0;
    assert(s@.skip(0) =~= s@);
    assert(texts(out@) + words(s@) =~= words(s@));
    while i < n
        invariant
            i <= n == chars@.len(),
            chars@ == s@,
            words(s@) == texts(out@) + words(s@.skip(i as int)),
        decreases n - i,
    {
        let ghost rest = s@.skip(i as int);
        if white_space(chars[i]) {
            assert(rest.drop_first() =~= s@.skip(i + 1));
            i = i + 1;
        } else {
            let mut j: usize = i + 1;
            proof {
                lemma_word_len(rest);
            }
            while j < n && !white_space(chars[j])
                invariant
                    i < j <= n == chars@.len(),
                    chars@ == s@,
                    rest == s@.skip(i as int),
                    forall|k: int| i <= k < j ==> !is_white_space(#[trigger] s@[k]),
                decreases n - j,
            {
                j = j + 1;
            }
            proof {
                lemma_word_len(rest);
                let w = word_len(rest) as int;
                if w < j - i {
                    assert(rest[w] == s@[i + w]);
                } else if w > j - i {
                    assert(rest[j - i] == s@[j as int]);
                }
                assert(rest.take(w) =~= s@.subrange(i as int, j as int));
                assert(rest.skip(w) =~= s@.skip(j as int));
            }
            let word: String = text_of(&chars, i, j);
            let ghost before = out@;
            out.push(word);
            proof {
                assert(texts(out@) =~= texts(before) + seq![word@]);
                assert(texts(out@) + words(s@.skip(j as int)) =~= texts(before) + (seq![word@]
                    + words(s@.skip(j as int))));
            }
            i = j;
        }
    }
    assert(texts(out@) + words(s@.skip(n as int)) =~= texts(out@));
    out
}

/// The parts in order, with `sep` between each two.
pub open spec fn joined(parts: Seq<Seq<char>>, sep: Seq<char>) -> Seq<char>
    decreases parts.len(),
{
    if parts.len() == 0 {
        Seq::empty()
    } else if parts.len() == 1 {
        parts[0]
    } else {
        joined(parts.drop_last(), sep) + sep + parts.last()
    }
}

/// The texts in order, with `sep` between each two.
pub fn join(parts: &Vec<String>, sep: &str) -> (r: String)
    ensures
        r@ == joined(texts(parts@), sep@),
{
    let mut out: String = String::new();
    let mut i: usize = 0;
    assert(texts(parts@).take(0) =~= Seq::<Seq<char>>::empty());
    while i < parts.len()
        invariant
            i <= parts@.len(),
            out@ == joined(texts(parts@).take(i as int), sep@),
        decreases parts@.len() - i,
    {
        let ghost before = out@;
        if i > 0 {
            out.append(sep);
        }
        out.append(parts[i].as_str());
        i = i + 1;
        proof {
            let t = texts(parts@).take(i as int);
            assert(t.drop_last() =~= texts(parts@).take(i - 1));
            assert(t.last() == parts@[i - 1]@);
            if i == 1 {
                assert(out@ =~= t[0]);
            }
        }
    }
    assert(texts(parts@).take(i as int) =~= texts(parts@));
    out
}

/// Whether `part` stands in `s` at position `i`.
pub open spec fn stands_at(s: Seq<char>, part: Seq<char>, i: int) -> bool {
    &&& 0 <= i
    &&& i + part.len() <= s.len()
    &&& s.subrange(i, i + part.len()) == part
}

/// Whether `part` stands anywhere in `s`.
pub open spec fn has_part(s: Seq<char>, part: Seq<char>) -> bool {
    exists|i: int| stands_at(s, part, i)
}

/// Whether `i` is the first position at which `part` stands in `s`.
pub open spec fn first_at(s: Seq<char>, part: Seq<char>, i: int) -> bool {
    &&& stands_at(s, part, i)
    &&& forall|k: int| 0 <= k < i ==> !stands_at(s, part, k)
}

/// Whether `s` begins with `part`.
pub open spec fn begins_with(s: Seq<char>, part: Seq<char>) -> bool {
    stands_at(s, part, 0)
}

fn at(s: &Vec<char>, part: &Vec<char>, i: usize) -> (r: bool)
    ensures
        r == stands_at(s@, part@, i as int),
{
    let n: usize = s.len();
    if part.len() > n || i > n - part.len() {
        return false;
    }
    let mut k: usize = 0;
    while k < part.len()
        invariant
            k <= part@.len(),
            i + part@.len() <= s@.len() == n,
            forall|j: int| 0 <= j < k ==> s@[i + j] == #[trigger] part@[j],
        decreases part@.len() - k,
    {
        if s[i + k] != part[k] {
            assert(s@.subrange(i as int, i + part@.len())[k as int] != part@[k as int]);
            return false;
        }
        k = k + 1;
    }
    assert(s@.subrange(i as int, i + part@.len()) =~= part@);
    true
}

fn search(s: &Vec<char>, part: &Vec<char>) -> (r: Option<usize>)
    ensures
        match r {
            Some(i) => first_at(s@, part@, i as int),
            None => !has_part(s@, part@),
        },
{
    let mut i: usize = 0;
    while i < s.len()
        invariant
            i <= s@.len(),
            forall|k: int| 0 <= k < i ==> !stands_at(s@, part@, k),
        decreases s@.len() - i,
    {
        if at(s, part, i) {
            return Some(i);
        }
        i = i + 1;
    }
    if at(s, part, i) {
        return Some(i);
    }
    None
}

/// Whether `part` stands anywhere in the text.
pub fn contains(s: &str, part: &str) -> (r: bool)
    ensures
        r == has_part(s@, part@),
{
    search(&chars_of(s), &chars_of(part)).is_some()
}

/// Whether the text begins with `part`.
pub fn starts_with(s: &str, part: &str) -> (r: bool)
    ensures
        r == begins_with(s@, part@),
{
    at(&chars_of(s), &chars_of(part), 0)
}

/// What follows `part` at the start of `s`.
pub open spec fn after_prefix(s: Seq<char>, part: Seq<char>) -> Option<Seq<char>> {
    if begins_with(s, part) {
        Some(s.skip(part.len() as int))
    } else {
        None
    }
}

/// What follows `part` at the start of the text.
pub fn strip_prefix<'a>(s: &'a str, part: &str) -> (r: Option<&'a str>)
    ensures
        match r {
            Some(rest) => after_prefix(s@, part@) == Some(rest@),
            None => after_prefix(s@, part@) is None,
        },
{
    let chars: Vec<char> = chars_of(s);
    let head: Vec<char> = chars_of(part);
    if at(&chars, &head, 0) {
        Some(s.substring_char(head.len(), chars.len()))
    } else {
        None
    }
}

/// `s` with the first `part` replaced by `by`; `s` itself where `part` is
/// not in it.
pub open spec fn replaced_first(s: Seq<char>, part: Seq<char>, by: Seq<char>) -> Seq<char> {
    if has_part(s, part) {
        let i = choose|i: int| first_at(s, part, i);
        s.take(i) + by + s.skip(i + part.len())
    } else {
        s
    }
}

/// There is only one first position.
pub proof fn lemma_first_at_unique(s: Seq<char>, part: Seq<char>, i: int, j: int)
    requires
        first_at(s, part, i),
        first_at(s, part, j),
    ensures
        i == j,
{
    if i < j {
        assert(!stands_at(s, part, i));
    } else if j < i {
        assert(!stands_at(s, part, j));
    }
}

/// The text with the first `part` replaced by `by`.
pub fn replace_first(s: &str, part: &str, by: &str) -> (r: String)
    ensures
        r@ == replaced_first(s@, part@, by@),
{
    let chars: Vec<char> = chars_of(s);
    let target: Vec<char> = chars_of(part);
    match search(&chars, &target) {
        None => s.to_owned(),
        Some(i) => {
            proof {
                let j = choose|j: int| first_at(s@, part@, j);
                lemma_first_at_unique(s@, part@, i as int, j);
                assert(s@.subrange(0, i as int) =~= s@.take(i as int));
                assert(s@.subrange(i + part@.len(), s@.len() as int) =~= s@.skip(i + part@.len()));
            }
            let n: usize = chars.len();
            let mut out: String = text_of(&chars, 0, i);
            out.append(by);
            out.append(text_of(&chars, i + target.len(), n).as_str());
            out
        },
    }
}

/// `s` with every `c` replaced by `by`.
pub open spec fn replaced_char(s: Seq<char>, c: char, by: Seq<char>) -> Seq<char>
    decreases s.len(),
{
    if s.len() == 0 {
        Seq::empty()
    } else {
        replaced_char(s.drop_last(), c, by) + (if s.last() == c {
            by
        } else {
            seq![s.last()]
        })
    }
}

/// The text with every `c` replaced by `by`.
pub fn replace_char(s: &str, c: char, by: &str) -> (r: String)
    ensures
        r@ == replaced_char(s@, c, by@),
{
    let chars: Vec<char> = chars_of(s);
    let mut out: String = String::new();
    let mut i: usize = 0;
    while i < chars.len()
        invariant
            i <= chars@.len(),
            chars@ == s@,
            out@ == replaced_char(s@.take(i as int), c, by@),
        decreases chars@.len() - i,
    {
        proof {
            let t = s@.take(i + 1);
            assert(t.drop_last() =~= s@.take(i as int));
            assert(t.last() == s@[i as int]);
        }
        let ghost before = out@;
        if chars[i] == c {
            out.append(by);
        } else {
            out.push(chars[i]);
            assert(out@ =~= before + seq![s@[i as int]]);
        }
        i = i + 1;
    }
    assert(s@.take(i as int) =~= s@);
    out
}

/// The two sides of the first `c` in `s`.
pub open spec fn split_at_char(s: Seq<char>, c: char) -> Option<(Seq<char>, Seq<char>)> {
    if s.contains(c) {
        Some((s.take(s.index_of_first(c)->0), s.skip(s.index_of_first(c)->0 + 1)))
    } else {
        None
    }
}

/// The two sides of the first `c` in the text.
pub fn split_once<'a>(s: &'a str, c: char) -> (r: Option<(&'a str, &'a str)>)
    ensures
        match r {
            Some((a, b)) => split_at_char(s@, c) == Some((a@, b@)),
            None => split_at_char(s@, c) is None,
        },
{
    let chars: Vec<char> = chars_of(s);
    let mut i: usize = 0;
    while i < chars.len()
        invariant
            i <= chars@.len(),
            chars@ == s@,
            forall|k: int| 0 <= k < i ==> #[trigger] s@[k] != c,
        decreases chars@.len() - i,
    {
        if chars[i] == c {
            proof {
                s@.index_of_first_ensures(c);
                assert(s@[i as int] == c);
            }
            let left: &'a str = s.substring_char(0, i);
            let right: &'a str = s.substring_char(i + 1, chars.len());
            proof {
                assert(left@ =~= s@.take(i as int));
                assert(right@ =~= s@.skip(i + 1));
            }
            return Some((left, right));
        }
        i = i + 1;
    }
    None
}

/// `c` with an upper-case ASCII letter turned to lower case.
pub open spec fn lower(c: char) -> char {
    if 'A' <= c <= 'Z' {
        ((c as u32 + 32) as u32) as char
    } else {
        c
    }
}

/// `s` with every upper-case ASCII letter turned to lower case.
pub open spec fn lowered(s: Seq<char>) -> Seq<char> {
    s.map_values(|c: char| lower(c))
}

fn to_lower(c: char) -> (r: char)
    ensures
        r == lower(c),
{
    if 'A' <= c && c <= 'Z' {
        ((c as u8) + 32) as char
    } else {
        c
    }
}

/// The text with every upper-case ASCII letter turned to lower case.
pub fn to_lowercase(s: &str) -> (r: String)
    ensures
        r@ == lowered(s@),
{
    let chars: Vec<char> = chars_of(s);
    let mut out: String = String::new();
    let mut i: usize = 0;
    while i < chars.len()
        invariant
            i <= chars@.len(),
            chars@ == s@,
            out@ == lowered(s@.take(i as int)),
        decreases chars@.len() - i,
    {
        out.push(to_lower(chars[i]));
        i = i + 1;
        assert(lowered(s@.take(i as int)) =~= lowered(s@.take(i - 1)).push(lower(s@[i - 1])));
    }
    assert(s@.take(i as int) =~= s@);
    out
}

/// Whether two texts differ at most in the case of ASCII letters.
pub fn same_ignoring_case(a: &str, b: &str) -> (r: bool)
    ensures
        r == (lowered(a@) == lowered(b@)),
{
    to_lowercase(a) == to_lowercase(b)
}

/// The decimal digit `d`.
pub open spec fn digit(d: int) -> char {
    (('0' as u32 + d) as u32) as char
}

/// The decimal digits of `n`, without leading zeros.
pub open spec fn decimal(n: nat) -> Seq<char>
    decreases n,
{
    if n < 10 {
        seq![digit(n as int)]
    } else {
        decimal(n / 10).push(digit((n % 10) as int))
    }
}

/// The number in decimal digits.
pub fn number(n: u64) -> (r: String)
    ensures
        r@ == decimal(n as nat),
    decreases n,
{
    let d: char = (48u8 + (n % 10) as u8) as char;
    let mut out: String = if n < 10 {
        String::new()
    } else {
        number(n / 10)
    };
    out.push(d);
    assert(n < 10 ==> out@ =~= seq![digit(n as int)]);
    out
}

/// A whole number in decimal digits, with its sign where it is negative.
pub open spec fn signed_decimal(n: int) -> Seq<char> {
    if n < 0 {
        seq!['-'] + decimal((-n) as nat)
    } else {
        decimal(n as nat)
    }
}

/// A whole number in decimal digits, with its sign where it is negative.
pub fn signed_number(n: i32) -> (r: String)
    ensures
        r@ == signed_decimal(n as int),
{
    if n < 0 {
        let mut out: String = String::new();
        out.push('-');
        let m: u64 = (-(n as i64)) as u64;
        out.append(number(m).as_str());
        assert(out@ =~= seq!['-'] + decimal((-n) as nat));
        out
    } else {
        number(n as u64)
    }
}

/// Why a text is no unsigned decimal number within bounds.
#[derive(Debug, Clone, Copy, PartialEq, Eq, Structural)]
pub enum NumberFault {
    /// There is no text.
    Empty,
    /// Something other than a digit stands where a digit should.
    Digit,
    /// The number is above the bound.
    TooLarge,
}

/// The sentence for a fault.
pub open spec fn fault_words(fault: NumberFault) -> Seq<char> {
    match fault {
        NumberFault::Empty => "cannot parse integer from empty string"@,
        NumberFault::Digit => "invalid digit found in string"@,
        NumberFault::TooLarge => "number too large to fit in target type"@,
    }
}

impl NumberFault {
    /// The sentence for the fault.
    pub fn message(self) -> (r: &'static str)
        ensures
            r@ == fault_words(self),
    {
        match self {
            NumberFault::Empty => "cannot parse integer from empty string",
            NumberFault::Digit => "invalid digit found in string",
            NumberFault::TooLarge => "number too large to fit in target type",
        }
    }
}

pub open spec fn is_digit(c: char) -> bool {
    '0' <= c <= '9'
}

/// The number that decimal digits stand for, read from the left until one of
/// them is no digit or takes the number above `max`.
pub open spec fn digits_value(s: Seq<char>, max: nat) -> Result<nat, NumberFault>
    decreases s.len(),
{
    if s.len() == 0 {
        Ok(0)
    } else {
        match digits_value(s.drop_last(), max) {
            Err(fault) => Err(fault),
            Ok(v) => if !is_digit(s.last()) {
                Err(NumberFault::Digit)
            } else if v * 10 + (s.last() as u32 - '0' as u32) > max {
                Err(NumberFault::TooLarge)
            } else {
                Ok((v * 10 + (s.last() as u32 - '0' as u32)) as nat)
            },
        }
    }
}

/// An unsigned decimal number of at most `max`; a plus sign may precede it.
pub open spec fn number_value(s: Seq<char>, max: nat) -> Result<nat, NumberFault> {
    if s.len() == 0 {
        Err(NumberFault::Empty)
    } else {
        let digits = if s[0] == '+' {
            s.drop_first()
        } else {
            s
        };
        if digits.len() == 0 {
            Err(NumberFault::Digit)
        } else {
            digits_value(digits, max)
        }
    }
}

/// Once reading has failed it stays failed.
proof fn lemma_digits_fail(s: Seq<char>, max: nat, i: int)
    requires
        0 <= i <= s.len(),
        digits_value(s.take(i), max) is Err,
    ensures
        digits_value(s, max) == digits_value(s.take(i), max),
    decreases s.len() - i,
{
    if i == s.len() {
        assert(s.take(i) =~= s);
    } else {
        assert(s.take(i + 1).drop_last() =~= s.take(i));
        lemma_digits_fail(s, max, i + 1);
    }
}

/// Reads an unsigned decimal number of at most `max`.
pub fn parse_number(s: &str, max: u64) -> (r: Result<u64, NumberFault>)
    ensures
        match r {
            Ok(n) => number_value(s@, max as nat) == Ok::<nat, NumberFault>(n as nat),
            Err(fault) => number_value(s@, max as nat) == Err::<nat, NumberFault>(fault),
        },
{
    let chars: Vec<char> = chars_of(s);
    let n: usize = chars.len();
    if n == 0 {
        return Err(NumberFault::Empty);
    }
    let start: usize = if chars[0] == '+' {
        1
    } else {
        0
    };
    if start == n {
        return Err(NumberFault::Digit);
    }
    let ghost digits = s@.skip(start as int);
    assert(s@.skip(0) =~= s@);
    assert(s@.skip(1) =~= s@.drop_first());
    let mut i: usize = start;
    let mut v: u64 = 0;
    while i < n
        invariant
            start <= i <= n == chars@.len(),
            chars@ == s@,
            digits == s@.skip(start as int),
            digits_value(digits.take(i - start), max as nat) == Ok::<nat, NumberFault>(v as nat),
            v <= max,
            number_value(s@, max as nat) == digits_value(digits, max as nat),
        decreases n - i,
    {
        let c: char = chars[i];
        let ghost t = digits.take(i + 1 - start);
        assert(t.drop_last() =~= digits.take(i - start));
        assert(t.last() == c);
        if c < '0' || c > '9' {
            proof {
                lemma_digits_fail(digits, max as nat, i + 1 - start);
            }
            return Err(NumberFault::Digit);
        }
        let d: u64 = (c as u32 - 48) as u64;
        if v > max / 10 || d > max - v * 10 {
            proof {
                assert(v * 10 + d > max);
                lemma_digits_fail(digits, max as nat, i + 1 - start);
            }
            return Err(NumberFault::TooLarge);
        }
        v = v * 10 + d;
        i = i + 1;
    }
    assert(digits.take(i - start) =~= digits);
    Ok(v)
}

/// How many characters precede the first line feed in `s`.
pub open spec fn line_len(s: Seq<char>) -> nat
    decreases s.len(),
{
    if s.len() > 0 && s[0] != '\n' {
        1 + line_len(s.drop_first())
    } else {
        0
    }
}

pub proof fn lemma_line_len(s: Seq<char>)
    ensures
        line_len(s) <= s.len(),
        forall|i: int| 0 <= i < line_len(s) ==> #[trigger] s[i] != '\n',
        line_len(s) < s.len() ==> s[line_len(s) as int] == '\n',
    decreases s.len(),
{
    if s.len() > 0 && s[0] != '\n' {
        lemma_line_len(s.drop_first());
        assert forall|i: int| 0 <= i < line_len(s) implies #[trigger] s[i] != '\n' by {
            if i > 0 {
                assert(s[i] == s.drop_first()[i - 1]);
            }
        }
    }
}

/// `s` without a carriage return at its end.
pub open spec fn without_return(s: Seq<char>) -> Seq<char> {
    if s.len() > 0 && s.last() == '\r' {
        s.drop_last()
    } else {
        s
    }
}

/// The lines of `s`. A line ends at a line feed, which a carriage return may
/// precede; what follows the last line feed is a line unless it is empty.
pub open spec fn lines(s: Seq<char>) -> Seq<Seq<char>>
    decreases s.len(),
    via lines_decreases
{
    if s.len() == 0 {
        Seq::empty()
    } else if line_len(s) == s.len() {
        seq![s]
    } else {
        seq![without_return(s.take(line_len(s) as int))] + lines(s.skip(line_len(s) as int + 1))
    }
}

#[via_fn]
proof fn lines_decreases(s: Seq<char>) {
    lemma_line_len(s);
}

/// The lines of a text.
pub fn split_lines(s: &str) -> (r: Vec<String>)
    ensures
        texts(r@) == lines(s@),
{
    let chars: Vec<char> = chars_of(s);
    let n: usize = chars.len();
    let mut out: Vec<String> = Vec::new();
    let mut i: usize = 0;
    assert(s@.skip(0) =~= s@);
    assert(texts(out@) + lines(s@) =~= lines(s@));
    while i < n
        invariant
            i <= n == chars@.len(),
            chars@ == s@,
            lines(s@) == texts(out@) + lines(s@.skip(i as int)),
        decreases n - i,
    {
        let ghost rest = s@.skip(i as int);
        let mut j: usize = i;
        while j < n && chars[j] != '\n'
            invariant
                i <= j <= n == chars@.len(),
                chars@ == s@,
                rest == s@.skip(i as int),
                forall|k: int| i <= k < j ==> #[trigger] s@[k] != '\n',
            decreases n - j,
        {
            j = j + 1;
        }
        proof {
            lemma_line_len(rest);
            let w = line_len(rest) as int;
            if w < j - i {
                assert(rest[w] == s@[i + w]);
            } else if w > j - i {
                assert(rest[j - i] == s@[j as int]);
            }
            assert(rest.take(w) =~= s@.subrange(i as int, j as int));
        }
        let ghost before = out@;
        if j == n {
            let line: String = text_of(&chars, i, j);
            out.push(line);
            proof {
                assert(rest.take(rest.len() as int) =~= rest);
                assert(s@.skip(j as int) =~= Seq::<char>::empty());
                assert(texts(out@) =~= texts(before) + seq![line@]);
                assert(texts(out@) + lines(s@.skip(j as int)) =~= texts(before) + seq![line@]);
            }
            i = j;
        } else {
            let end: usize = if j > i && chars[j - 1] == '\r' {
                j - 1
            } else {
                j
            };
            let line: String = text_of(&chars, i, end);
            out.push(line);
            proof {
                let taken = s@.subrange(i as int, j as int);
                assert(line@ =~= without_return(taken));
                assert(rest.skip(j - i + 1) =~= s@.skip(j + 1));
                assert(texts(out@) =~= texts(before) + seq![line@]);
                assert(texts(out@) + lines(s@.skip(j + 1)) =~= texts(before) + (seq![line@]
                    + lines(s@.skip(j + 1))));
            }
            i = j + 1;
        }
    }
    assert(s@.skip(i as int) =~= Seq::<char>::empty());
    assert(texts(out@) + lines(s@.skip(i as int)) =~= texts(out@));
    out
}

/// How `{:?}` renders a text.
pub uninterp spec fn quoted(s: Seq<char>) -> Seq<char>;

/// A text as `{:?}` renders it, through `format!` and the `Debug` of `str`:
/// in double quotes, with its special characters escaped. The result depends
/// on the text alone.
#[verifier::external_body]
pub(crate) fn quote(s: &str) -> (r: String)
    ensures
        r@ == quoted(s@),
{
    format!("{s:?}")
}

/// How `{:?}` renders a text that may be missing.
pub open spec fn quoted_option(s: Option<Seq<char>>) -> Seq<char> {
    match s {
        Some(t) => "Some("@ + quoted(t) + ")"@,
        None => "None"@,
    }
}

/// A text that may be missing, as `{:?}` renders it.
pub fn quote_option(s: &Option<String>) -> (r: String)
    ensures
        r@ == quoted_option(s.deep_view()),
{
    match s {
        Some(t) => cat3("Some(", quote(t.as_str()).as_str(), ")"),
        None => "None".to_owned(),
    }
}

/// Whether a text that may be missing is there and is that one.
pub open spec fn holds_text(value: Option<String>, text: Seq<char>) -> bool {
    value matches Some(t) && t@ == text
}

/// Whether a text that may be missing is there and is that one.
pub fn is_text(value: &Option<String>, text: &str) -> (r: bool)
    ensures
        r == holds_text(*value, text@),
{
    match value {
        Some(t) => same(t.as_str(), text),
        None => false,
    }
}

/// How `true` and `false` are rendered in messages.
pub open spec fn bool_word(b: bool) -> Seq<char> {
    if b {
        "true"@
    } else {
        "false"@
    }
}

/// Renders `true` or `false`.
pub fn word_of_bool(b: bool) -> (r: &'static str)
    ensures
        r@ == bool_word(b),
{
    if b {
        "true"
    } else {
        "false"
    }
}

/// Puts a text at the end of a list.
pub fn push_text(list: &mut Vec<String>, text: String)
    ensures
        texts(final(list)@) == texts(old(list)@).push(text@),
{
    let ghost before = list@;
    let ghost words = text@;
    list.push(text);
    assert(texts(list@) =~= texts(before).push(words));
}

/// Copies a text that may be missing.
pub fn copy_option(t: &Option<String>) -> (r: Option<String>)
    ensures
        r == *t,
{
    match t {
        Some(s) => Some(s.clone()),
        None => None,
    }
}

/// Copies a list of texts.
pub fn copy_texts(v: &Vec<String>) -> (r: Vec<String>)
    ensures
        r@ == v@,
{
    let mut out: Vec<String> = Vec::new();
    let mut i: usize = 0;
    while i < v.len()
        invariant
            i <= v@.len(),
            out@ == v@.take(i as int),
        decreases v@.len() - i,
    {
        out.push(v[i].clone());
        i = i + 1;
        assert(v@.take(i as int) =~= v@.take(i - 1).push(v@[i - 1]));
    }
    assert(v@.take(i as int) =~= v@);
    out
}

/// 2 texts, one behind the other.
pub fn cat2(a: &str, b: &str) -> (r: String)
    ensures
        r@ == a@ + b@,
{
    let mut out: String = a.to_owned();
    out.append(b);
    out
}

/// 3 texts, one behind the other.
pub fn cat3(a: &str, b: &str, c: &str) -> (r: String)
    ensures
        r@ == a@ + b@ + c@,
{
    let mut out: String = a.to_owned();
    out.append(b);
    out.append(c);
    out
}

/// 4 texts, one behind the other.
pub fn cat4(a: &str, b: &str, c: &str, d: &str) -> (r: String)
    ensures
        r@ == a@ + b@ + c@ + d@,
{
    let mut out: String = a.to_owned();
    out.append(b);
    out.append(c);
    out.append(d);
    out
}

/// 5 texts, one behind the other.
pub fn cat5(a: &str, b: &str, c: &str, d: &str, e: &str) -> (r: String)
    ensures
        r@ == a@ + b@ + c@ + d@ + e@,
{
    let mut out: String = a.to_owned();
    out.append(b);
    out.append(c);
    out.append(d);
    out.append(e);
    out
}

/// 6 texts, one behind the other.
pub fn cat6(a: &str, b: &str, c: &str, d: &str, e: &str, f: &str) -> (r: String)
    ensures
        r@ == a@ + b@ + c@ + d@ + e@ + f@,
{
    let mut out: String = a.to_owned();
    out.append(b);
    out.append(c);
    out.append(d);
    out.append(e);
    out.append(f);
    out
}

/// 7 texts, one behind the other.
pub fn cat7(a: &str, b: &str, c: &str, d: &str, e: &str, f: &str, g: &str) -> (r: String)
    ensures
        r@ == a@ + b@ + c@ + d@ + e@ + f@ + g@,
{
    let mut out: String = a.to_owned();
    out.append(b);
    out.append(c);
    out.append(d);
    out.append(e);
    out.append(f);
    out.append(g);
    out
}

/// 8 texts, one behind the other.
pub fn cat8(a: &str, b: &str, c: &str, d: &str, e: &str, f: &str, g: &str, h: &str) -> (r: String)
    ensures
        r@ == a@ + b@ + c@ + d@ + e@ + f@ + g@ + h@,
{
    let mut out: String = a.to_owned();
    out.append(b);
    out.append(c);
    out.append(d);
    out.append(e);
    out.append(f);
    out.append(g);
    out.append(h);
    out
}

/// 10 texts, one behind the other.
pub fn cat10(a: &str, b: &str, c: &str, d: &str, e: &str, f: &str, g: &str, h: &str, i: &str, j: &str) -> (r: String)
    ensures
        r@ == a@ + b@ + c@ + d@ + e@ + f@ + g@ + h@ + i@ + j@,
{
    let mut out: String = a.to_owned();
    out.append(b);
    out.append(c);
    out.append(d);
    out.append(e);
    out.append(f);
    out.append(g);
    out.append(h);
    out.append(i);
    out.append(j);
    out
}

/// 12 texts, one behind the other.
pub fn cat12(a: &str, b: &str, c: &str, d: &str, e: &str, f: &str, g: &str, h: &str, i: &str, j: &str, k: &str, l: &str) -> (r: String)
    ensures
        r@ == a@ + b@ + c@ + d@ + e@ + f@ + g@ + h@ + i@ + j@ + k@ + l@,
{
    let mut out: String = a.to_owned();
    out.append(b);
    out.append(c);
    out.append(d);
    out.append(e);
    out.append(f);
    out.append(g);
    out.append(h);
    out.append(i);
    out.append(j);
    out.append(k);
    out.append(l);
    out
}

/// Spaces, tabs and line ends are white space, and nothing that a printer of
/// plain characters shows is.
pub proof fn law_white_space_is_what_is_not_seen(c: char, r: bool)
    requires
        call_ensures(white_space, (c,), r),
    ensures
        c == ' ' || c == '\t' || c == '\n' || c == '\r' ==> r,
        '!' <= c <= '~' ==> !r,
{
}

/// Trimming takes white space off both ends and nothing else: what is left
/// neither begins nor ends with it, and stands in the text between blanks.
pub proof fn law_trimming_takes_off_blanks_only(s: &str, r: &str, all: bool)
    requires
        call_ensures(trim, (s,), r),
        call_ensures(is_blank, (s,), all),
    ensures
        r@.len() > 0 ==> !is_white_space(r@[0]) && !is_white_space(r@.last()),
        exists|before: Seq<char>, after: Seq<char>|
            s@ == #[trigger] (before + r@ + after) && blank(before) && blank(after),
        all <==> r@.len() == 0,
        all <==> forall|i: int| 0 <= i < s@.len() ==> is_white_space(#[trigger] s@[i]),
{
    lemma_trimmed_twice(s@);
    lemma_trimmed_same(trimmed(s@));
    lemma_trimmed_blank(s@);
    lemma_trimmed_start_splits(s@);
    lemma_trimmed_end_splits(trimmed_start(s@));
    let t = trimmed_start(s@);
    let before = s@.take(s@.len() - t.len());
    let after = t.skip(trimmed_end(t).len() as int);
    assert(s@ =~= before + r@ + after);
}

proof fn lemma_trimmed_start_splits(s: Seq<char>)
    ensures
        trimmed_start(s).len() <= s.len(),
        blank(s.take(s.len() - trimmed_start(s).len())),
        s == s.take(s.len() - trimmed_start(s).len()) + trimmed_start(s),
    decreases s.len(),
{
    if s.len() > 0 && is_white_space(s[0]) {
        lemma_trimmed_start_splits(s.drop_first());
        let rest = s.drop_first();
        let n = s.len() - trimmed_start(s).len();
        assert forall|i: int| 0 <= i < n implies is_white_space(#[trigger] s.take(n)[i]) by {
            if i > 0 {
                assert(rest.take(n - 1)[i - 1] == s[i]);
            }
        }
        assert(s =~= seq![s[0]] + rest);
        assert(s =~= s.take(n) + trimmed_start(s));
    } else {
        assert(s =~= s.take(0) + s);
    }
}

proof fn lemma_trimmed_end_splits(s: Seq<char>)
    ensures
        trimmed_end(s).len() <= s.len(),
        blank(s.skip(trimmed_end(s).len() as int)),
        s == trimmed_end(s) + s.skip(trimmed_end(s).len() as int),
    decreases s.len(),
{
    if s.len() > 0 && is_white_space(s.last()) {
        lemma_trimmed_end_splits(s.drop_last());
        let rest = s.drop_last();
        let n = trimmed_end(s).len() as int;
        assert forall|i: int| 0 <= i < s.len() - n implies is_white_space(
            #[trigger] s.skip(n)[i],
        ) by {
            if i < s.len() - n - 1 {
                assert(rest.skip(n)[i] == s[n + i]);
            }
        }
        assert(s =~= rest.push(s.last()));
        assert(s =~= trimmed_end(s) + s.skip(n));
    } else {
        assert(s =~= s + s.skip(s.len() as int));
    }
}

/// A text begins with a part exactly if it is that part and something more, and
/// what follows the part is then what is left without it.
pub proof fn law_a_beginning_and_the_rest_make_the_whole(
    s: &str,
    part: &str,
    begins: bool,
    rest: Option<&str>,
)
    requires
        call_ensures(starts_with, (s, part), begins),
        call_ensures(strip_prefix, (s, part), rest),
    ensures
        begins <==> exists|more: Seq<char>| s@ == part@ + more,
        begins <==> rest is Some,
        rest matches Some(more) ==> s@ == part@ + more@,
{
    if begins {
        let more = s@.skip(part@.len() as int);
        assert(s@.subrange(0, part@.len() as int) == part@);
        assert(s@ =~= part@ + more);
    }
    if exists|more: Seq<char>| s@ == part@ + more {
        let more = choose|more: Seq<char>| s@ == part@ + more;
        assert(s@.subrange(0, part@.len() as int) =~= part@);
    }
}

/// A text holds a part exactly if the part stands in it between something and
/// something, each of which may be nothing.
pub proof fn law_a_part_stands_in_the_whole(s: &str, part: &str, r: bool)
    requires
        call_ensures(contains, (s, part), r),
    ensures
        r <==> exists|before: Seq<char>, after: Seq<char>|
            s@ == #[trigger] (before + part@ + after),
{
    if r {
        let i = choose|i: int| stands_at(s@, part@, i);
        let before = s@.take(i);
        let after = s@.skip(i + part@.len());
        assert(s@ =~= before + part@ + after) by {
            assert(s@.subrange(i, i + part@.len()) == part@);
        }
    }
    if exists|before: Seq<char>, after: Seq<char>| s@ == #[trigger] (before + part@ + after) {
        let (before, after) = choose|before: Seq<char>, after: Seq<char>|
            s@ == #[trigger] (before + part@ + after);
        let i = before.len() as int;
        assert(s@.subrange(i, i + part@.len()) =~= part@);
        assert(stands_at(s@, part@, i));
    }
}

/// Splitting at a character gives what stands before its first occurrence and
/// what stands behind that, and fails exactly where it does not occur.
pub proof fn law_a_split_is_at_the_first_occurrence(s: &str, c: char, r: Option<(&str, &str)>)
    requires
        call_ensures(split_once, (s, c), r),
    ensures
        r is Some <==> s@.contains(c),
        r matches Some((a, b)) ==> s@ == a@.push(c) + b@ && !a@.contains(c),
{
    if s@.contains(c) {
        s@.index_of_first_ensures(c);
        let i = s@.index_of_first(c)->0;
        assert(s@ =~= s@.take(i).push(c) + s@.skip(i + 1));
        assert forall|k: int| 0 <= k < i implies s@.take(i)[k] != c by {
            assert(s@[k] != c);
        }
    }
}

/// Texts are the same but for case exactly if they are as long and agree in
/// every character, a capital letter counting as its small one.
pub proof fn law_case_is_all_that_is_ignored(a: &str, b: &str, r: bool)
    requires
        call_ensures(same_ignoring_case, (a, b), r),
    ensures
        a@ == b@ ==> r,
        r ==> a@.len() == b@.len(),
        r <==> a@.len() == b@.len() && forall|i: int|
            0 <= i < a@.len() ==> ({
                let x = #[trigger] a@[i];
                let y = b@[i];
                x == y || ('A' <= x <= 'Z' && y as u32 == x as u32 + 32) || ('A' <= y <= 'Z'
                    && x as u32 == y as u32 + 32)
            }),
{
    if a@.len() == b@.len() {
        assert forall|i: int| 0 <= i < a@.len() implies ((lowered(a@)[i] == lowered(b@)[i]) <==> ({
            let x = #[trigger] a@[i];
            let y = b@[i];
            x == y || ('A' <= x <= 'Z' && y as u32 == x as u32 + 32) || ('A' <= y <= 'Z' && x as u32
                == y as u32 + 32)
        })) by {
            lemma_lower(a@[i], b@[i]);
        }
        if r {
            assert forall|i: int| 0 <= i < a@.len() implies lowered(a@)[i] == lowered(b@)[i] by {}
        } else {
            if forall|i: int| 0 <= i < a@.len() ==> lowered(a@)[i] == lowered(b@)[i] {
                assert(lowered(a@) =~= lowered(b@));
            }
        }
    } else {
        assert(lowered(a@).len() != lowered(b@).len());
    }
}

proof fn lemma_lower(x: char, y: char)
    ensures
        lower(x) == lower(y) <==> (x == y || ('A' <= x <= 'Z' && y as u32 == x as u32 + 32) || (
        'A' <= y <= 'Z' && x as u32 == y as u32 + 32)),
{
    let a = x as u32;
    let b = y as u32;
    assert(lower(x) as u32 == if 'A' <= x <= 'Z' {
        (a + 32) as u32
    } else {
        a
    });
    assert(lower(y) as u32 == if 'A' <= y <= 'Z' {
        (b + 32) as u32
    } else {
        b
    });
}

pub proof fn lemma_digits_of_decimal(n: nat, max: nat)
    ensures
        decimal(n).len() > 0,
        forall|i: int| 0 <= i < decimal(n).len() ==> is_digit(#[trigger] decimal(n)[i]),
        n <= max ==> digits_value(decimal(n), max) == Ok::<nat, NumberFault>(n),
        n > max ==> digits_value(decimal(n), max) == Err::<nat, NumberFault>(NumberFault::TooLarge),
    decreases n,
{
    let s = decimal(n);
    if n < 10 {
        assert(s.drop_last() =~= Seq::<char>::empty());
        assert(digits_value(s.drop_last(), max) == Ok::<nat, NumberFault>(0));
        assert(s.last() as u32 - '0' as u32 == n);
    } else {
        lemma_digits_of_decimal(n / 10, max);
        assert(s.drop_last() =~= decimal(n / 10));
        assert(s.last() as u32 - '0' as u32 == n % 10);
        assert((n / 10) * 10 + n % 10 == n) by (nonlinear_arith);
    }
}

/// A number reads back as it is written, where it is not above the limit; above
/// the limit it is refused as too large.
pub proof fn law_a_number_reads_back(s: &str, n: u64, max: u64, r: Result<u64, NumberFault>)
    requires
        s@ == decimal(n as nat),
        call_ensures(parse_number, (s, max), r),
    ensures
        n <= max ==> r == Ok::<u64, NumberFault>(n),
        n > max ==> r == Err::<u64, NumberFault>(NumberFault::TooLarge),
{
    lemma_digits_of_decimal(n as nat, max as nat);
    assert(is_digit(decimal(n as nat)[0]));
}

proof fn lemma_read_digits(s: Seq<char>, max: nat)
    requires
        digits_value(s, max) is Ok,
    ensures
        digits_value(s, max)->Ok_0 <= max,
        forall|i: int| 0 <= i < s.len() ==> is_digit(#[trigger] s[i]),
    decreases s.len(),
{
    if s.len() > 0 {
        lemma_read_digits(s.drop_last(), max);
        assert forall|i: int| 0 <= i < s.len() implies is_digit(#[trigger] s[i]) by {
            if i < s.len() - 1 {
                assert(s.drop_last()[i] == s[i]);
            }
        }
    }
}

/// What is read as a number is made of digits, with at most a sign in front, and
/// is not above the limit.
pub proof fn law_only_digits_make_a_number(s: &str, max: u64, r: Result<u64, NumberFault>)
    requires
        call_ensures(parse_number, (s, max), r),
    ensures
        s@.len() == 0 ==> r is Err,
        r matches Ok(n) ==> {
            &&& n <= max
            &&& s@[0] == '+' || ('0' <= s@[0] && s@[0] <= '9')
            &&& forall|i: int| 1 <= i < s@.len() ==> '0' <= #[trigger] s@[i] && s@[i] <= '9'
        },
{
    if r is Ok {
        let digits = if s@[0] == '+' {
            s@.drop_first()
        } else {
            s@
        };
        lemma_read_digits(digits, max as nat);
        assert forall|i: int| 1 <= i < s@.len() implies '0' <= #[trigger] s@[i] && s@[i] <= '9' by {
            if s@[0] == '+' {
                assert(digits[i - 1] == s@[i]);
            } else {
                assert(digits[i] == s@[i]);
            }
        }
        if s@[0] != '+' {
            assert(is_digit(digits[0]));
        }
    }
}

proof fn lemma_lines_hold_no_line_feed(s: Seq<char>)
    ensures
        forall|k: int, i: int|
            0 <= k < lines(s).len() && 0 <= i < lines(s)[k].len() ==> #[trigger] lines(s)[k][i]
                != '\n',
    decreases s.len(),
{
    lemma_line_len(s);
    if s.len() > 0 && line_len(s) < s.len() {
        let n = line_len(s) as int;
        let rest = s.skip(n + 1);
        lemma_lines_hold_no_line_feed(rest);
        assert forall|k: int, i: int|
            0 <= k < lines(s).len() && 0 <= i < lines(s)[k].len() implies #[trigger] lines(s)[k][i]
            != '\n' by {
            if k == 0 {
                assert(lines(s)[0] == without_return(s.take(n)));
                assert(lines(s)[0][i] == s[i]);
            } else {
                assert(lines(s)[k] == lines(rest)[k - 1]);
            }
        }
    }
}

/// No line holds a line feed.
pub proof fn law_lines_hold_no_line_feed(s: &str, r: Vec<String>, k: int)
    requires
        call_ensures(split_lines, (s,), r),
        0 <= k < r@.len(),
    ensures
        !r@[k]@.contains('\n'),
{
    lemma_lines_hold_no_line_feed(s@);
    assert(texts(r@)[k] == r@[k]@);
    if r@[k]@.contains('\n') {
        let i = choose|i: int| 0 <= i < r@[k]@.len() && r@[k]@[i] == '\n';
        assert(lines(s@)[k][i] == '\n');
    }
}

/// A text is its first line, the line feed behind it, and the lines of the rest:
/// whatever stands up to the first line feed, but for a carriage return at its end,
/// is the first line.
pub proof fn law_a_text_is_a_line_and_the_rest(
    s: &str,
    first: Seq<char>,
    rest: &str,
    r: Vec<String>,
    more: Vec<String>,
)
    requires
        s@ == first.push('\n') + rest@,
        !first.contains('\n'),
        call_ensures(split_lines, (s,), r),
        call_ensures(split_lines, (rest,), more),
    ensures
        r@.len() == more@.len() + 1,
        first.len() == 0 || first.last() != '\r' ==> r@[0]@ == first,
        first.len() > 0 && first.last() == '\r' ==> r@[0]@ == first.drop_last(),
        forall|k: int| 0 <= k < more@.len() ==> (#[trigger] r@[k + 1])@ == more@[k]@,
{
    let t = s@;
    lemma_line_len(t);
    let n = line_len(t) as int;
    assert(t[first.len() as int] == '\n');
    if n < first.len() {
        assert(t[n] == first[n]);
        assert(first.contains('\n'));
    }
    if n > first.len() {
        assert(t[first.len() as int] != '\n');
    }
    assert(t.take(n) =~= first);
    assert(t.skip(n + 1) =~= rest@);
    assert(lines(t) == seq![without_return(first)] + lines(rest@));
    assert(texts(r@).len() == r@.len());
    assert(texts(more@).len() == more@.len());
    assert(texts(r@)[0] == r@[0]@);
    assert forall|k: int| 0 <= k < more@.len() implies (#[trigger] r@[k + 1])@ == more@[k]@ by {
        assert(texts(r@)[k + 1] == r@[k + 1]@);
        assert(texts(more@)[k] == more@[k]@);
    }
}

/// A text without a line feed is one line, and the empty text is none.
pub proof fn law_a_text_without_a_line_feed_is_one_line(s: &str, r: Vec<String>)
    requires
        call_ensures(split_lines, (s,), r),
        !s@.contains('\n'),
    ensures
        s@.len() == 0 ==> r@.len() == 0,
        s@.len() > 0 ==> r@.len() == 1 && r@[0]@ == s@,
{
    lemma_line_len(s@);
    let n = line_len(s@) as int;
    if n < s@.len() {
        assert(s@[n] == '\n');
    }
    assert(texts(r@).len() == r@.len());
    if s@.len() > 0 {
        assert(texts(r@)[0] == r@[0]@);
    }
}

proof fn lemma_words_hold_no_white_space(s: Seq<char>)
    ensures
        forall|k: int| 0 <= k < words(s).len() ==> (#[trigger] words(s)[k]).len() > 0,
        forall|k: int, i: int|
            0 <= k < words(s).len() && 0 <= i < words(s)[k].len() ==> !is_white_space(
                #[trigger] words(s)[k][i],
            ),
    decreases s.len(),
{
    lemma_word_len(s);
    if s.len() > 0 {
        if is_white_space(s[0]) {
            lemma_words_hold_no_white_space(s.drop_first());
            assert(words(s) == words(s.drop_first()));
        } else {
            let n = word_len(s) as int;
            let rest = s.skip(n);
            lemma_words_hold_no_white_space(rest);
            assert forall|k: int| 0 <= k < words(s).len() implies (
            #[trigger] words(s)[k]).len() > 0 by {
                if k > 0 {
                    assert(words(s)[k] == words(rest)[k - 1]);
                }
            }
            assert forall|k: int, i: int|
                0 <= k < words(s).len() && 0 <= i < words(s)[k].len() implies !is_white_space(
                #[trigger] words(s)[k][i],
            ) by {
                if k == 0 {
                    assert(words(s)[0] == s.take(n));
                    assert(words(s)[0][i] == s[i]);
                } else {
                    assert(words(s)[k] == words(rest)[k - 1]);
                }
            }
        }
    }
}

/// No word is empty, and none holds white space.
pub proof fn law_words_hold_no_white_space(s: &str, r: Vec<String>, k: int, i: int)
    requires
        call_ensures(split_words, (s,), r),
        0 <= k < r@.len(),
    ensures
        r@[k]@.len() > 0,
        0 <= i < r@[k]@.len() ==> !is_white_space(r@[k]@[i]),
{
    lemma_words_hold_no_white_space(s@);
    assert(texts(r@)[k] == r@[k]@);
}

/// A word with white space behind it is the first word, and the words of the rest
/// follow.
pub proof fn law_a_text_is_a_word_and_the_rest(
    s: &str,
    first: Seq<char>,
    space: char,
    rest: &str,
    r: Vec<String>,
    more: Vec<String>,
)
    requires
        s@ == first.push(space) + rest@,
        first.len() > 0,
        forall|i: int| 0 <= i < first.len() ==> !is_white_space(#[trigger] first[i]),
        is_white_space(space),
        call_ensures(split_words, (s,), r),
        call_ensures(split_words, (rest,), more),
    ensures
        r@.len() == more@.len() + 1,
        r@[0]@ == first,
        forall|k: int| 0 <= k < more@.len() ==> (#[trigger] r@[k + 1])@ == more@[k]@,
{
    let t = s@;
    lemma_word_len(t);
    let n = word_len(t) as int;
    assert(t[0] == first[0]);
    assert(t[first.len() as int] == space);
    if n < first.len() {
        assert(t[n] == first[n]);
    }
    if n > first.len() {
        assert(!is_white_space(t[first.len() as int]));
    }
    assert(t.take(n) =~= first);
    let behind = t.skip(n);
    assert(behind[0] == space);
    assert(behind.drop_first() =~= rest@);
    assert(words(behind) == words(rest@));
    assert(words(t) == seq![first] + words(rest@));
    assert(texts(r@).len() == r@.len());
    assert(texts(more@).len() == more@.len());
    assert(texts(r@)[0] == r@[0]@);
    assert forall|k: int| 0 <= k < more@.len() implies (#[trigger] r@[k + 1])@ == more@[k]@ by {
        assert(texts(r@)[k + 1] == r@[k + 1]@);
        assert(texts(more@)[k] == more@[k]@);
    }
}

/// Only the first occurrence is replaced: what stands before it and behind it
/// stays as it is.
pub proof fn law_only_the_first_occurrence_is_replaced(
    s: &str,
    part: &str,
    by: &str,
    i: int,
    r: String,
)
    requires
        call_ensures(replace_first, (s, part, by), r),
    ensures
        (0 <= i && i + part@.len() <= s@.len() && s@.subrange(i, i + part@.len()) == part@ && (forall|
            k: int,
        |
            0 <= k < i ==> !#[trigger] stands_at(s@, part@, k))) ==> r@ == s@.take(i) + by@
            + s@.skip(i + part@.len()),
        (forall|k: int| !#[trigger] stands_at(s@, part@, k)) ==> r@ == s@,
{
    if 0 <= i && i + part@.len() <= s@.len() && s@.subrange(i, i + part@.len()) == part@ && (forall|
        k: int,
    |
        0 <= k < i ==> !#[trigger] stands_at(s@, part@, k)) {
        assert(stands_at(s@, part@, i));
        assert(first_at(s@, part@, i));
        let j = choose|j: int| first_at(s@, part@, j);
        lemma_first_at_unique(s@, part@, i, j);
    }
}

pub proof fn lemma_replaced_char(s: Seq<char>, c: char, by: Seq<char>)
    ensures
        !s.contains(c) ==> replaced_char(s, c, by) == s,
        !by.contains(c) ==> !replaced_char(s, c, by).contains(c),
    decreases s.len(),
{
    if s.len() > 0 {
        let head = s.drop_last();
        lemma_replaced_char(head, c, by);
        if !s.contains(c) {
            assert(s.contains(s.last()));
            if head.contains(c) {
                let i = choose|i: int| 0 <= i < head.len() && head[i] == c;
                assert(s[i] == c);
            }
            assert(head + seq![s.last()] =~= s);
        }
        if !by.contains(c) {
            let a = replaced_char(head, c, by);
            let b = if s.last() == c {
                by
            } else {
                seq![s.last()]
            };
            if (a + b).contains(c) {
                let i = choose|i: int| 0 <= i < (a + b).len() && (a + b)[i] == c;
                if i < a.len() {
                    assert(a[i] == c);
                } else {
                    assert(b[i - a.len()] == c);
                }
            }
        }
    }
}

/// A character that is replaced is gone, unless what replaces it brings it back,
/// and a text without it stays as it is.
pub proof fn law_a_replaced_character_is_gone(s: &str, c: char, by: &str, r: String)
    requires
        call_ensures(replace_char, (s, c, by), r),
    ensures
        !s@.contains(c) ==> r@ == s@,
        !by@.contains(c) ==> !r@.contains(c),
{
    lemma_replaced_char(s@, c, by@);
}

} // verus!
