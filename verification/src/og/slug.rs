//! Slugs: texts as they stand in a path.

use vstd::prelude::*;

use crate::text;

verus! {

/// What std makes of a text in lower case.
pub uninterp spec fn lowercase(s: Seq<char>) -> Seq<char>;

/// `str::to_lowercase` of std: the text in lower case. The result depends on
/// the text alone.
#[verifier::external_body]
fn lower(s: &str) -> (r: String)
    ensures
        r@ == lowercase(s@),
{
    s.to_lowercase()
}

/// Whether std takes a character for a letter or a number.
pub uninterp spec fn alphanumeric(c: char) -> bool;

/// `char::is_alphanumeric` of std: whether the character is a letter or a
/// number. The result depends on the character alone.
#[verifier::external_body]
fn is_word(c: char) -> (r: bool)
    ensures
        r == alphanumeric(c),
{
    c.is_alphanumeric()
}

/// A text with a dash in place of every other character than letters and
/// numbers.
pub open spec fn dashed(s: Seq<char>) -> Seq<char> {
    s.map_values(
        |c: char|
            if alphanumeric(c) {
                c
            } else {
                '-'
            },
    )
}

/// The texts that are not empty.
pub open spec fn nonempty(parts: Seq<Seq<char>>) -> Seq<Seq<char>>
    decreases parts.len(),
{
    if parts.len() == 0 {
        parts
    } else if parts.last().len() == 0 {
        nonempty(parts.drop_last())
    } else {
        nonempty(parts.drop_last()).push(parts.last())
    }
}

/// The words of a text in lower case, with one dash between two of them.
pub open spec fn slug_of(lowered: Seq<char>) -> Seq<char> {
    words_joined(dashed(lowered))
}

/// The slug of a text in lower case.
pub fn slug(lowered: &str) -> (r: String)
    ensures
        r@ == slug_of(lowered@),
{
    let chars = text::chars_of(lowered);
    let mut plain = String::new();
    let mut i: usize = 0;
    let ghost whole = dashed(lowered@);
    while i < chars.len()
        invariant
            i <= chars@.len(),
            chars@ == lowered@,
            whole == dashed(lowered@),
            plain@ == whole.take(i as int),
        decreases chars@.len() - i,
    {
        plain.push(
            if is_word(chars[i]) {
                chars[i]
            } else {
                '-'
            },
        );
        assert(plain@ =~= whole.take(i + 1));
        i += 1;
    }
    assert(plain@ =~= whole);
    join_words(plain.as_str())
}

/// The words of a text with one dash between two of them, where any number of
/// dashes stands between two words.
pub open spec fn words_joined(plain: Seq<char>) -> Seq<char> {
    text::join(nonempty(text::split(plain, '-')), "-"@)
}

/// The words of a text with one dash between two of them.
pub fn join_words(plain: &str) -> (r: String)
    ensures
        r@ == words_joined(plain@),
{
    let parts = text::split_on(plain, '-');
    let mut words: Vec<String> = Vec::new();
    let mut k: usize = 0;
    let ghost all = text::texts(parts@);
    assert(text::texts(words@) =~= nonempty(all.take(0)));
    while k < parts.len()
        invariant
            k <= parts@.len(),
            all == text::texts(parts@),
            text::texts(words@) == nonempty(all.take(k as int)),
        decreases parts@.len() - k,
    {
        let ghost front = words@;
        assert(all.take(k + 1).drop_last() =~= all.take(k as int));
        if !text::same(parts[k].as_str(), "") {
            words.push(parts[k].clone());
            assert(text::texts(words@) =~= text::texts(front).push(all[k as int]));
        }
        proof {
            reveal_strlit("");
            if all[k as int].len() == 0 {
                assert(all[k as int] =~= ""@);
            }
        }
        k += 1;
    }
    assert(all.take(k as int) =~= all);
    text::join_with(&words, "-")
}

/// The slug of a text.
pub fn slugify(s: &str) -> (r: String)
    ensures
        r@ == slug_of(lowercase(s@)),
{
    let lowered = lower(s);
    slug(lowered.as_str())
}

// ---------------------------------------------------------------------------
// Laws
// ---------------------------------------------------------------------------

proof fn nonempty_parts(parts: Seq<Seq<char>>, i: int)
    requires
        0 <= i < nonempty(parts).len(),
    ensures
        nonempty(parts)[i].len() > 0,
        parts.contains(nonempty(parts)[i]),
    decreases parts.len(),
{
    let init = parts.drop_last();
    if i < nonempty(init).len() {
        nonempty_parts(init, i);
        let k = choose|k: int| 0 <= k < init.len() && init[k] == nonempty(init)[i];
        assert(parts[k] == nonempty(init)[i]);
    } else {
        assert(parts[parts.len() - 1] == parts.last());
    }
}

/// Whether a text is made of words with one dash between two of them: it does
/// not start or end with a dash, and no two dashes stand together.
pub open spec fn single_dashed(s: Seq<char>) -> bool {
    &&& s.len() > 0 ==> s[0] != '-' && s.last() != '-'
    &&& forall|i: int| 0 <= i < s.len() - 1 ==> !(#[trigger] s[i] == '-' && s[i + 1] == '-')
}

proof fn joined_words(words: Seq<Seq<char>>)
    requires
        forall|i: int| 0 <= i < words.len() ==> (#[trigger] words[i]).len() > 0,
        forall|i: int| 0 <= i < words.len() ==> !(#[trigger] words[i]).contains('-'),
    ensures
        single_dashed(text::join(words, seq!['-'])),
        words.len() > 0 ==> text::join(words, seq!['-']).len() > 0,
    decreases words.len(),
{
    let s = text::join(words, seq!['-']);
    if words.len() == 1 {
        let w = words[0];
        assert forall|i: int| 0 <= i < w.len() implies w[i] != '-' by {
            assert(w.contains(w[i]));
        }
    } else if words.len() > 1 {
        let init = words.drop_last();
        let w = words.last();
        assert(w == words[words.len() - 1]);
        assert forall|i: int| 0 <= i < init.len() implies (#[trigger] init[i]).len() > 0
            && !init[i].contains('-') by {
            assert(init[i] == words[i]);
        }
        joined_words(init);
        let a = text::join(init, seq!['-']);
        assert(s == a + seq!['-'] + w);
        assert forall|i: int| 0 <= i < w.len() implies w[i] != '-' by {
            assert(w.contains(w[i]));
        }
        assert(s.last() == w.last());
        assert forall|i: int| 0 <= i < s.len() - 1 implies !(#[trigger] s[i] == '-' && s[i + 1]
            == '-') by {
            if i < a.len() - 1 {
                assert(s[i] == a[i] && s[i + 1] == a[i + 1]);
            } else if i == a.len() - 1 {
                assert(s[i] == a.last());
            } else if i == a.len() {
                assert(s[i + 1] == w[0]);
            } else {
                assert(s[i] == w[i - a.len() - 1]);
            }
        }
    }
}

proof fn nonempty_keeps(parts: Seq<Seq<char>>, i: int)
    requires
        0 <= i < parts.len(),
        parts[i].len() > 0,
    ensures
        nonempty(parts).len() > 0,
    decreases parts.len(),
{
    if i < parts.len() - 1 {
        assert(parts.drop_last()[i] == parts[i]);
        nonempty_keeps(parts.drop_last(), i);
    }
}

proof fn nonempty_same(parts: Seq<Seq<char>>)
    requires
        forall|i: int| 0 <= i < parts.len() ==> (#[trigger] parts[i]).len() > 0,
    ensures
        nonempty(parts) == parts,
    decreases parts.len(),
{
    if parts.len() > 0 {
        let init = parts.drop_last();
        assert(parts[parts.len() - 1].len() > 0);
        assert forall|i: int| 0 <= i < init.len() implies (#[trigger] init[i]).len() > 0 by {
            assert(init[i] == parts[i]);
        }
        nonempty_same(init);
        assert(init.push(parts.last()) =~= parts);
    }
}

/// The words of a text: none is empty and none holds a dash.
spec fn words_of(plain: Seq<char>) -> Seq<Seq<char>> {
    nonempty(text::split(plain, '-'))
}

proof fn words_are_words(plain: Seq<char>)
    ensures
        forall|i: int| 0 <= i < words_of(plain).len() ==> (#[trigger] words_of(plain)[i]).len() > 0,
        forall|i: int|
            0 <= i < words_of(plain).len() ==> !(#[trigger] words_of(plain)[i]).contains('-'),
        words_joined(plain) == text::join(words_of(plain), seq!['-']),
{
    let parts = text::split(plain, '-');
    let words = words_of(plain);
    text::split_join(plain, '-');
    assert forall|i: int| 0 <= i < words.len() implies (#[trigger] words[i]).len() > 0
        && !words[i].contains('-') by {
        nonempty_parts(parts, i);
        let k = choose|k: int| 0 <= k < parts.len() && parts[k] == words[i];
        assert(!parts[k].contains('-'));
    }
    reveal_strlit("-");
    assert("-"@ =~= seq!['-']);
}

/// A character of a word is one of the text.
proof fn word_holds(plain: Seq<char>, i: int, c: char)
    requires
        0 <= i < words_of(plain).len(),
        words_of(plain)[i].contains(c),
    ensures
        plain.contains(c),
{
    let parts = text::split(plain, '-');
    text::split_join(plain, '-');
    nonempty_parts(parts, i);
    let k = choose|k: int| 0 <= k < parts.len() && parts[k] == words_of(plain)[i];
    text::join_holds(parts, seq!['-'], c);
    assert(parts[k].contains(c));
}

/// A slug does not start or end with a dash, and no two dashes stand together
/// in it.
pub proof fn slug_is_single_dashed(lowered: Seq<char>)
    ensures
        single_dashed(slug_of(lowered)),
{
    let plain = dashed(lowered);
    words_are_words(plain);
    joined_words(words_of(plain));
}

/// Every character of a slug is a dash, a letter or a number.
pub proof fn slug_is_of_words(lowered: Seq<char>, i: int)
    requires
        0 <= i < slug_of(lowered).len(),
    ensures
        slug_of(lowered)[i] == '-' || alphanumeric(slug_of(lowered)[i]),
{
    let plain = dashed(lowered);
    let words = words_of(plain);
    let c = slug_of(lowered)[i];
    words_are_words(plain);
    text::join_holds(words, seq!['-'], c);
    assert(slug_of(lowered).contains(c));
    if !seq!['-'].contains(c) {
        let k = choose|k: int| 0 <= k < words.len() && (#[trigger] words[k]).contains(c);
        word_holds(plain, k, c);
        let n = choose|n: int| 0 <= n < plain.len() && plain[n] == c;
        assert(seq!['-'][0] == '-');
        assert(c != '-');
        assert(c == lowered[n]);
    }
}

/// A slug is its own slug.
pub proof fn slug_of_slug(lowered: Seq<char>)
    ensures
        slug_of(slug_of(lowered)) == slug_of(lowered),
{
    let s = slug_of(lowered);
    let words = words_of(dashed(lowered));
    words_are_words(dashed(lowered));
    assert forall|i: int| 0 <= i < s.len() implies dashed(s)[i] == s[i] by {
        slug_is_of_words(lowered, i);
    }
    assert(dashed(s) =~= s);
    words_are_words(s);
    if words.len() > 0 {
        text::join_split(words, '-');
        nonempty_same(words);
    } else {
        assert(words =~= Seq::empty());
        assert(s =~= Seq::empty());
        assert(text::split(s, '-') == seq![Seq::<char>::empty()]);
        assert(seq![Seq::<char>::empty()].drop_last() =~= Seq::<Seq<char>>::empty());
        assert(nonempty(seq![Seq::<char>::empty()].drop_last()) =~= Seq::<Seq<char>>::empty());
        assert(words_of(s) =~= Seq::<Seq<char>>::empty());
    }
}

/// Where std leaves a slug as it is in lower case, the slug of that text is the
/// same slug again.
pub proof fn slugify_of_slug(s: Seq<char>)
    requires
        lowercase(slug_of(lowercase(s))) == slug_of(lowercase(s)),
    ensures
        slug_of(lowercase(slug_of(lowercase(s)))) == slug_of(lowercase(s)),
{
    slug_of_slug(lowercase(s));
}

/// A slug is empty where the text holds no letter and no number, and nowhere
/// else. A dash counts for neither.
pub proof fn slug_is_empty(lowered: Seq<char>)
    ensures
        slug_of(lowered).len() == 0 <==> forall|i: int|
            0 <= i < lowered.len() && #[trigger] lowered[i] != '-' ==> !alphanumeric(lowered[i]),
{
    let plain = dashed(lowered);
    let parts = text::split(plain, '-');
    let words = words_of(plain);
    words_are_words(plain);
    joined_words(words);
    text::split_join(plain, '-');
    if slug_of(lowered).len() == 0 {
        assert forall|i: int| 0 <= i < lowered.len() && #[trigger] lowered[i]
            != '-' implies !alphanumeric(lowered[i]) by {
            let c = lowered[i];
            if alphanumeric(c) {
                assert(plain[i] == c);
                assert(plain.contains(c));
                text::join_holds(parts, seq!['-'], c);
                assert(!seq!['-'].contains(c));
                let k = choose|k: int| 0 <= k < parts.len() && (#[trigger] parts[k]).contains(c);
                nonempty_keeps(parts, k);
            }
        }
    } else {
        assert(words.len() > 0) by {
            if words.len() == 0 {
                assert(words =~= Seq::empty());
            }
        }
        let c = words[0][0];
        assert(words[0].len() > 0);
        assert(words[0].contains(c));
        word_holds(plain, 0, c);
        let n = choose|n: int| 0 <= n < plain.len() && plain[n] == c;
        assert(c != '-');
        assert(lowered[n] == c && alphanumeric(lowered[n]));
    }
}

} // verus!
